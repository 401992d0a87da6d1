//! Protected storage: errors, names, access rights and locks.
use crate::paths::{join_path, path_join};
use crate::registry::{before_nul, encode_utf16, units_before_nul};
use crate::restart_manager::{decode_utf16_lossy, utf16_chars_lossy};
use crate::secure_dir::native_length;
use crate::secure_fs::{
    is_single_component, path_pieces, status_digits, status_text, SecureFsError,
    STATUS_OBJECT_NAME_COLLISION,
    STATUS_OBJECT_NAME_NOT_FOUND, STATUS_OBJECT_PATH_NOT_FOUND,
};
use crate::security::{FILE_ATTRIBUTE_DIRECTORY, FILE_ATTRIBUTE_REPARSE_POINT};
use crate::text::{cat2, cat3, cat4, cat6, contains_char, dec, decimal, owned, split, str_eq};
use crate::text::with_char_replaced;
use vstd::prelude::*;

verus! {

pub const PRODUCT_DIRECTORY: &'static str = "WinProfile";

pub const STORAGE_LOCK_FILE: &'static str = ".storage.lock";

pub const OPERATION_LOCK_FILE: &'static str = ".operation.lock";

/// Owner, group and access rights of a protected directory.
pub const ROOT_SDDL: &'static str = "O:BAG:BAD:P(A;OICI;FA;;;SY)(A;OICI;FA;;;BA)";

pub const SYSTEM_SID: &'static str = "S-1-5-18";

pub const ADMINISTRATORS_SID: &'static str = "S-1-5-32-544";

pub const STATUS_SHARING_VIOLATION: i32 = -1073741757;

/// The general failure code of the shell.
pub const E_FAIL: i32 = -2147467259;

/// Win32 code for something that exists already.
pub const ERROR_ALREADY_EXISTS: u32 = 183;

/// How long a lock is waited for, in milliseconds.
pub const DEFAULT_LOCK_TIMEOUT_MS: u64 = 2000;

/// How long to wait between two attempts at a lock, in milliseconds.
pub const LOCK_RETRY_DELAY_MS: u64 = 10;

#[derive(Debug)]
pub enum StorageError {
    Io { operation: &'static str, path: String, source: String },
    Native { operation: &'static str, path: String, status: i32 },
    LegacyStorageInsecure(String),
    /// A lock was not free within this many milliseconds.
    LockTimeout(u64),
    InvalidComponent(String),
    SecureFs(SecureFsError),
    KnownFolder(i32),
    CleanupFailed { operation_error: String, cleanup_error: String },
}

/// The thousandths of a second behind the point, without trailing zeros.
pub open spec fn thousandths(n: nat) -> Seq<char> {
    if n == 0 {
        ""@
    } else if n % 100 == 0 {
        "."@ + decimal(n / 100)
    } else if n % 10 == 0 {
        "."@ + decimal(n / 100) + decimal(n / 10 % 10)
    } else {
        "."@ + decimal(n / 100) + decimal(n / 10 % 10) + decimal(n % 10)
    }
}

/// A number of milliseconds in the largest unit of which it holds one; no time at
/// all is counted in nanoseconds.
pub open spec fn duration_text(millis: nat) -> Seq<char> {
    if millis == 0 {
        "0ns"@
    } else if millis < 1000 {
        decimal(millis) + "ms"@
    } else {
        decimal(millis / 1000) + thousandths(millis % 1000) + "s"@
    }
}

/// Writes a number of milliseconds as a length of time.
pub fn describe_millis(millis: u64) -> (r: String)
    ensures
        r@ == duration_text(millis as nat),
{
    if millis == 0 {
        owned("0ns")
    } else if millis < 1000 {
        let number = dec(millis);
        cat2(number.as_str(), "ms")
    } else {
        let whole = dec(millis / 1000);
        let rest: u64 = millis % 1000;
        let first = dec(rest / 100);
        let second = dec(rest / 10 % 10);
        let third = dec(rest % 10);
        let fraction = if rest == 0 {
            owned("")
        } else if rest % 100 == 0 {
            cat2(".", first.as_str())
        } else if rest % 10 == 0 {
            cat3(".", first.as_str(), second.as_str())
        } else {
            cat4(".", first.as_str(), second.as_str(), third.as_str())
        };
        cat3(whole.as_str(), fraction.as_str(), "s")
    }
}

impl StorageError {
    /// The text that describes the error.
    pub open spec fn text(self) -> Seq<char> {
        match self {
            StorageError::Io { operation, path, source } => "storage IO error during "@
                + operation@ + " for "@ + path@ + ": "@ + source@,
            StorageError::Native { operation, path, status } => "native storage operation "@
                + operation@ + " failed for "@ + path@ + ": NTSTATUS "@ + status_digits(status),
            StorageError::LegacyStorageInsecure(reason) =>
                "legacy storage is insecure and was left unchanged: "@ + reason@,
            StorageError::LockTimeout(millis) => "storage lock timed out after "@
                + duration_text(millis as nat),
            StorageError::InvalidComponent(name) => "invalid storage component: "@ + name@,
            StorageError::SecureFs(error) => "secure filesystem validation failed: "@
                + error.text(),
            StorageError::KnownFolder(status) =>
                "Known Folder ProgramData resolution failed with HRESULT "@ + status_digits(status),
            StorageError::CleanupFailed { operation_error, cleanup_error } =>
                "storage cleanup failed after "@ + operation_error@ + ": "@ + cleanup_error@,
        }
    }

    pub fn message(&self) -> (r: String)
        ensures
            r@ == self.text(),
    {
        match self {
            StorageError::Io { operation, path, source } => cat6(
                "storage IO error during ",
                operation,
                " for ",
                path.as_str(),
                ": ",
                source.as_str(),
            ),
            StorageError::Native { operation, path, status } => {
                let code = status_text(*status);
                cat6(
                    "native storage operation ",
                    operation,
                    " failed for ",
                    path.as_str(),
                    ": NTSTATUS ",
                    code.as_str(),
                )
            },
            StorageError::LegacyStorageInsecure(reason) => cat2(
                "legacy storage is insecure and was left unchanged: ",
                reason.as_str(),
            ),
            StorageError::LockTimeout(millis) => {
                let text = describe_millis(*millis);
                cat2("storage lock timed out after ", text.as_str())
            },
            StorageError::InvalidComponent(name) => cat2(
                "invalid storage component: ",
                name.as_str(),
            ),
            StorageError::SecureFs(error) => {
                let reason = error.message();
                cat2("secure filesystem validation failed: ", reason.as_str())
            },
            StorageError::KnownFolder(status) => {
                let code = status_text(*status);
                cat2("Known Folder ProgramData resolution failed with HRESULT ", code.as_str())
            },
            StorageError::CleanupFailed { operation_error, cleanup_error } => cat4(
                "storage cleanup failed after ",
                operation_error.as_str(),
                ": ",
                cleanup_error.as_str(),
            ),
        }
    }

    /// Whether the error says that the object is not there.
    pub open spec fn says_not_found(self) -> bool {
        self matches StorageError::Native { status, .. } && (status == STATUS_OBJECT_NAME_NOT_FOUND
            || status == STATUS_OBJECT_PATH_NOT_FOUND)
    }

    pub fn is_not_found(&self) -> (r: bool)
        ensures
            r == self.says_not_found(),
    {
        match self {
            StorageError::Native { status, .. } => *status == STATUS_OBJECT_NAME_NOT_FOUND
                || *status == STATUS_OBJECT_PATH_NOT_FOUND,
            _ => false,
        }
    }

    /// Whether the error says that the object is there already.
    pub open spec fn says_collision(self) -> bool {
        self matches StorageError::Native { status, .. } && status == STATUS_OBJECT_NAME_COLLISION
    }

    pub fn is_collision(&self) -> (r: bool)
        ensures
            r == self.says_collision(),
    {
        match self {
            StorageError::Native { status, .. } => *status == STATUS_OBJECT_NAME_COLLISION,
            _ => false,
        }
    }

    /// Whether this is a failed call of the given kind at the given place.
    pub open spec fn is_io(self, operation: Seq<char>, path: Seq<char>, source: Seq<char>) -> bool {
        self matches StorageError::Io { operation: o, path: p, source: s } && o@ == operation && p@
            == path && s@ == source
    }

    /// Whether this refuses storage for the given reason.
    pub open spec fn is_legacy(self, path: Seq<char>, reason: Seq<char>) -> bool {
        self matches StorageError::LegacyStorageInsecure(text) && text@ == path + ": "@ + reason
    }
}

/// The refusal of storage at a path.
pub fn legacy(path: &str, reason: &str) -> (r: StorageError)
    ensures
        r.is_legacy(path@, reason@),
{
    StorageError::LegacyStorageInsecure(cat3(path, ": ", reason))
}

/// A failed call.
pub fn io_error(operation: &'static str, path: &str, source: &str) -> (r: StorageError)
    ensures
        r.is_io(operation@, path@, source@),
{
    StorageError::Io { operation: operation, path: owned(path), source: owned(source) }
}

// ---------------------------------------------------------------------------
// Names
// ---------------------------------------------------------------------------

/// A name that can stand for one object in a storage directory.
pub open spec fn is_storage_component(name: Seq<char>) -> bool {
    &&& name.len() > 0
    &&& name != "."@
    &&& name != ".."@
    &&& !name.contains('\\')
    &&& !name.contains('/')
    &&& !name.contains(':')
    &&& !name.contains('\0')
}

pub fn validate_component(name: &str) -> (r: Result<(), StorageError>)
    ensures
        r is Ok <==> is_storage_component(name@),
        r matches Err(e) ==> (e matches StorageError::InvalidComponent(n) && n@ == name@),
{
    if name.is_empty() || str_eq(name, ".") || str_eq(name, "..") || contains_char(name, '\\')
        || contains_char(name, '/') || contains_char(name, ':') || contains_char(name, '\0') {
        return Err(StorageError::InvalidComponent(owned(name)));
    }
    Ok(())
}

/// The path of an object in a storage directory.
pub fn child_path(parent: &str, name: &str) -> (r: Result<String, StorageError>)
    ensures
        match r {
            Ok(path) => is_storage_component(name@) && path@ == path_join(parent@, name@),
            Err(e) => !is_storage_component(name@) && (e matches StorageError::InvalidComponent(n)
                && n@ == name@),
        },
{
    match validate_component(name) {
        Ok(()) => Ok(join_path(parent, name)),
        Err(e) => Err(e),
    }
}

/// The length in bytes of a component as a native name, which has 16 bits.
pub fn native_name_length(name: &str) -> (r: Result<u16, StorageError>)
    ensures
        match r {
            Ok(length) => is_storage_component(name@) && length == native_length(name@),
            Err(e) => !(is_storage_component(name@) && native_length(name@) <= u16::MAX) && (
            e matches StorageError::InvalidComponent(n) && n@ == name@),
        },
{
    match validate_component(name) {
        Ok(()) => {},
        Err(e) => {
            return Err(e);
        },
    }
    let units: usize = encode_utf16(name).len();
    if units > 32767 {
        return Err(StorageError::InvalidComponent(owned(name)));
    }
    Ok((units * 2) as u16)
}

/// The outcome of opening an object relative to a storage directory; `source` is what
/// the system says of a missing handle.
pub fn nt_open_relative(status: i32, has_handle: bool, path: &str, source: &str) -> (r: Result<
    (),
    StorageError,
>)
    ensures
        match r {
            Ok(_) => status >= 0 && has_handle,
            Err(e) => if status < 0 {
                e matches StorageError::Native { operation, path: p, status: s } && operation@
                    == "open relative storage object"@ && p@ == path@ && s == status
            } else {
                !has_handle && e.is_io("open relative storage object"@, path@, source@)
            },
        },
{
    if status < 0 {
        return Err(
            StorageError::Native {
                operation: "open relative storage object",
                path: owned(path),
                status: status,
            },
        );
    }
    if !has_handle {
        return Err(io_error("open relative storage object", path, source));
    }
    Ok(())
}

/// The path of the shared data directory, from the reply of the system.
pub fn resolve_known_folder_program_data(status: i32, path: Option<Vec<u16>>) -> (r: Result<
    String,
    StorageError,
>)
    ensures
        status < 0 ==> r == Result::<String, StorageError>::Err(StorageError::KnownFolder(status)),
        status >= 0 && path is None ==> r == Result::<String, StorageError>::Err(
            StorageError::KnownFolder(E_FAIL),
        ),
        status >= 0 && path is Some ==> (r matches Ok(text) && text@ == utf16_chars_lossy(
            before_nul(path->0@),
        )),
{
    if status < 0 {
        return Err(StorageError::KnownFolder(status));
    }
    match path {
        None => Err(StorageError::KnownFolder(E_FAIL)),
        Some(units) => {
            let text = units_before_nul(units.as_slice());
            Ok(decode_utf16_lossy(text.as_slice()))
        },
    }
}

// ---------------------------------------------------------------------------
// Kinds and rights
// ---------------------------------------------------------------------------

/// The outcome of checking that an opened object has the kind that is wanted.
pub open spec fn kind_outcome(
    attributes: Result<u32, String>,
    path: Seq<char>,
    directory: bool,
    r: Result<(), StorageError>,
) -> bool {
    match attributes {
        Err(source) => r matches Err(e) && e.is_io(
            "validate storage object by handle"@,
            path,
            source@,
        ),
        Ok(bits) => if bits & FILE_ATTRIBUTE_REPARSE_POINT != 0 {
            r matches Err(e) && e.is_legacy(path, "reparse points are forbidden"@)
        } else if (bits & FILE_ATTRIBUTE_DIRECTORY != 0) != directory {
            r matches Err(e) && e.is_legacy(path, "storage object has the wrong type"@)
        } else {
            r is Ok
        },
    }
}

pub fn validate_kind(attributes: Result<u32, String>, path: &str, directory: bool) -> (r: Result<
    (),
    StorageError,
>)
    ensures
        kind_outcome(attributes, path@, directory, r),
{
    let bits: u32 = match attributes {
        Ok(bits) => bits,
        Err(source) => {
            return Err(io_error("validate storage object by handle", path, source.as_str()));
        },
    };
    if bits & FILE_ATTRIBUTE_REPARSE_POINT != 0 {
        return Err(legacy(path, "reparse points are forbidden"));
    }
    let is_directory = bits & FILE_ATTRIBUTE_DIRECTORY != 0;
    if is_directory != directory {
        return Err(legacy(path, "storage object has the wrong type"));
    }
    Ok(())
}

/// Whom a SID of a security descriptor stands for.
#[derive(Debug, Clone, Copy, PartialEq, Eq, Structural)]
pub enum Trustee {
    System,
    Administrators,
    Other,
}

/// An entry of an access list.
#[derive(Debug, Clone, Copy, PartialEq, Eq, Structural)]
pub struct AceRecord {
    pub ace_type: u8,
    pub mask: u32,
    pub flags: u8,
    pub trustee: Trustee,
}

/// What was read of a security descriptor; a failed call holds its error text.
pub struct DescriptorObservation {
    /// Whether descriptor, owner and access list are there.
    pub complete: bool,
    pub control: Result<u16, String>,
    /// Whether the two SIDs to compare with could be made.
    pub expected_sids: Result<(), String>,
    pub owner: Trustee,
    pub ace_count: Result<u32, String>,
    pub aces: Vec<Result<AceRecord, String>>,
}

/// Control bit of an access list that inherits nothing.
pub const SE_DACL_PROTECTED: u16 = 0x1000;

pub const ACCESS_ALLOWED_ACE_TYPE: u8 = 0;

pub const FILE_ALL_ACCESS: u32 = 0x1f_01ff;

/// Inherited by files and by directories.
pub const INHERIT_BOTH: u8 = 3;

/// An entry that grants everything and is inherited by files and directories.
pub open spec fn is_canonical_allow(ace: AceRecord) -> bool {
    ace.ace_type == ACCESS_ALLOWED_ACE_TYPE && ace.mask == FILE_ALL_ACCESS && ace.flags
        == INHERIT_BOTH
}

/// The outcome of checking one entry.
pub open spec fn ace_error(ace: Result<AceRecord, String>, path: Seq<char>, e: StorageError) -> bool {
    match ace {
        Err(source) => e.is_io("read storage DACL ACE"@, path, source@),
        Ok(record) => if !is_canonical_allow(record) {
            e.is_legacy(path, "DACL contains a non-canonical allow ACE"@)
        } else {
            record.trustee is Other && e.is_legacy(
                path,
                "DACL grants access to a third-party SID"@,
            )
        },
    }
}

pub open spec fn is_good_ace(ace: Result<AceRecord, String>) -> bool {
    ace matches Ok(record) && is_canonical_allow(record) && !(record.trustee is Other)
}

/// Whether a descriptor protects storage: nothing is inherited, the owner is the
/// system or the administrators, and exactly these two are granted access.
pub open spec fn is_protected(d: DescriptorObservation) -> bool {
    &&& d.complete
    &&& d.control is Ok
    &&& d.control->Ok_0 & SE_DACL_PROTECTED != 0
    &&& d.expected_sids is Ok
    &&& !(d.owner is Other)
    &&& d.ace_count == Result::<u32, String>::Ok(2)
    &&& is_good_ace(d.aces@[0])
    &&& is_good_ace(d.aces@[1])
    &&& d.aces@[0]->Ok_0.trustee != d.aces@[1]->Ok_0.trustee
}

/// The error of a descriptor, by the first check that it fails.
pub open spec fn descriptor_error(
    d: DescriptorObservation,
    path: Seq<char>,
    e: StorageError,
) -> bool {
    if !d.complete {
        e.is_legacy(path, "owner or DACL is missing"@)
    } else if d.control is Err {
        e.is_io("inspect storage DACL control"@, path, d.control->Err_0@)
    } else if d.control->Ok_0 & SE_DACL_PROTECTED == 0 {
        e.is_legacy(path, "DACL inheritance is not protected"@)
    } else if d.expected_sids is Err {
        e.is_io("parse expected storage SID"@, path, d.expected_sids->Err_0@)
    } else if d.owner is Other {
        e.is_legacy(path, "owner is neither SYSTEM nor Administrators"@)
    } else if d.ace_count is Err {
        e.is_io("inspect storage DACL"@, path, d.ace_count->Err_0@)
    } else if d.ace_count->Ok_0 != 2 {
        e.is_legacy(path, "DACL must contain exactly SYSTEM and Administrators ACEs"@)
    } else if !is_good_ace(d.aces@[0]) {
        ace_error(d.aces@[0], path, e)
    } else if !is_good_ace(d.aces@[1]) {
        ace_error(d.aces@[1], path, e)
    } else {
        e.is_legacy(path, "SYSTEM or Administrators ACE is missing"@)
    }
}

fn check_ace(ace: &Result<AceRecord, String>, path: &str) -> (r: Result<Trustee, StorageError>)
    ensures
        match r {
            Ok(trustee) => is_good_ace(*ace) && trustee == ace->Ok_0.trustee,
            Err(e) => !is_good_ace(*ace) && ace_error(*ace, path@, e),
        },
{
    match ace {
        Err(source) => Err(io_error("read storage DACL ACE", path, source.as_str())),
        Ok(record) => {
            if record.ace_type != ACCESS_ALLOWED_ACE_TYPE || record.mask != FILE_ALL_ACCESS
                || record.flags != INHERIT_BOTH {
                return Err(legacy(path, "DACL contains a non-canonical allow ACE"));
            }
            match record.trustee {
                Trustee::Other => Err(legacy(path, "DACL grants access to a third-party SID")),
                trustee => Ok(trustee),
            }
        },
    }
}

/// Checks that a directory is protected.
pub fn validate_descriptor(d: &DescriptorObservation, path: &str) -> (r: Result<(), StorageError>)
    requires
        d.ace_count matches Ok(count) ==> d.aces@.len() == count,
    ensures
        match r {
            Ok(_) => is_protected(*d),
            Err(e) => !is_protected(*d) && descriptor_error(*d, path@, e),
        },
{
    if !d.complete {
        return Err(legacy(path, "owner or DACL is missing"));
    }
    let control: u16 = match &d.control {
        Ok(control) => *control,
        Err(source) => {
            return Err(io_error("inspect storage DACL control", path, source.as_str()));
        },
    };
    if control & SE_DACL_PROTECTED == 0 {
        return Err(legacy(path, "DACL inheritance is not protected"));
    }
    match &d.expected_sids {
        Ok(()) => {},
        Err(source) => {
            return Err(io_error("parse expected storage SID", path, source.as_str()));
        },
    }
    match d.owner {
        Trustee::Other => {
            return Err(legacy(path, "owner is neither SYSTEM nor Administrators"));
        },
        _ => {},
    }
    let count: u32 = match &d.ace_count {
        Ok(count) => *count,
        Err(source) => {
            return Err(io_error("inspect storage DACL", path, source.as_str()));
        },
    };
    if count != 2 {
        return Err(legacy(path, "DACL must contain exactly SYSTEM and Administrators ACEs"));
    }
    let first = match check_ace(&d.aces[0], path) {
        Ok(trustee) => trustee,
        Err(e) => {
            return Err(e);
        },
    };
    let second = match check_ace(&d.aces[1], path) {
        Ok(trustee) => trustee,
        Err(e) => {
            return Err(e);
        },
    };
    if first == second {
        return Err(legacy(path, "SYSTEM or Administrators ACE is missing"));
    }
    Ok(())
}

/// Checks the reply to reading a root's security, then the descriptor itself.
pub fn validate_production_root(
    read: Result<DescriptorObservation, String>,
    path: &str,
) -> (r: Result<(), StorageError>)
    requires
        read matches Ok(d) ==> (d.ace_count matches Ok(count) ==> d.aces@.len() == count),
    ensures
        match read {
            Err(source) => r matches Err(e) && e.is_io(
                "read storage root security descriptor"@,
                path@,
                source@,
            ),
            Ok(d) => match r {
                Ok(_) => is_protected(d),
                Err(e) => !is_protected(d) && descriptor_error(d, path@, e),
            },
        },
{
    match read {
        Ok(d) => validate_descriptor(&d, path),
        Err(source) => Err(
            io_error("read storage root security descriptor", path, source.as_str()),
        ),
    }
}

/// Where a storage root comes from.
#[derive(Debug, Clone, Copy, PartialEq, Eq, Structural)]
pub enum StorageTrust {
    /// The shared data directory: its rights are checked again before every use.
    Production,
    /// A directory that was handed over as trusted.
    TrustedInjection,
}

/// Checks a root before it is used again, given its kind and its rights.
pub fn revalidate(
    trust: StorageTrust,
    kind: Result<(), StorageError>,
    rights: Result<(), StorageError>,
) -> (r: Result<(), StorageError>)
    ensures
        match kind {
            Err(e) => r == Result::<(), StorageError>::Err(e),
            Ok(_) => if trust is Production {
                r == rights
            } else {
                r is Ok
            },
        },
{
    match kind {
        Err(e) => {
            return Err(e);
        },
        Ok(()) => {},
    }
    if trust == StorageTrust::Production {
        return rights;
    }
    Ok(())
}

/// The outcome of creating a protected root: one that is there already is fine.
pub fn root_creation_outcome(created: bool, code: u32, source: &str, path: &str) -> (r: Result<
    (),
    StorageError,
>)
    ensures
        created || code == ERROR_ALREADY_EXISTS ==> r is Ok,
        !created && code != ERROR_ALREADY_EXISTS ==> (r matches Err(e) && e.is_io(
            "create protected storage root"@,
            path@,
            source@,
        )),
{
    if !created && code != ERROR_ALREADY_EXISTS {
        return Err(io_error("create protected storage root", path, source));
    }
    Ok(())
}

// ---------------------------------------------------------------------------
// Opening, creating, renaming and locking
// ---------------------------------------------------------------------------

/// What follows the attempt to open a directory that may have to be created.
#[derive(Debug)]
pub enum OpenDecision {
    Use,
    Create,
    Fail(StorageError),
}

pub fn open_or_create_child(opened: Result<(), StorageError>) -> (r: OpenDecision)
    ensures
        match opened {
            Ok(_) => r is Use,
            Err(e) => if e.says_not_found() {
                r is Create
            } else {
                r == OpenDecision::Fail(e)
            },
        },
{
    match opened {
        Ok(()) => OpenDecision::Use,
        Err(e) => {
            if e.is_not_found() {
                OpenDecision::Create
            } else {
                OpenDecision::Fail(e)
            }
        },
    }
}

/// Whether a file was removed: one that is not there is not an error.
pub fn remove_file_if_exists(opened: Result<(), StorageError>) -> (r: Result<bool, StorageError>)
    ensures
        match opened {
            Ok(_) => r == Result::<bool, StorageError>::Ok(true),
            Err(e) => if e.says_not_found() {
                r == Result::<bool, StorageError>::Ok(false)
            } else {
                r == Result::<bool, StorageError>::Err(e)
            },
        },
{
    match opened {
        Ok(()) => Ok(true),
        Err(e) => {
            if e.is_not_found() {
                Ok(false)
            } else {
                Err(e)
            }
        },
    }
}

/// The error of an operation whose leftovers were removed.
pub open spec fn cleanup_error(
    operation: StorageError,
    removal: Result<(), StorageError>,
    e: StorageError,
) -> bool {
    match removal {
        Ok(_) => e == operation,
        Err(cleanup) => e matches StorageError::CleanupFailed {
            operation_error: o,
            cleanup_error: c,
        } && o@ == operation.text() && c@ == cleanup.text(),
    }
}

pub fn after_cleanup(operation: StorageError, removal: Result<(), StorageError>) -> (r: StorageError)
    ensures
        cleanup_error(operation, removal, r),
{
    match removal {
        Ok(()) => operation,
        Err(cleanup) => StorageError::CleanupFailed {
            operation_error: operation.message(),
            cleanup_error: cleanup.message(),
        },
    }
}

/// Whether a file may be renamed: it must be there, and nothing may stand where it
/// is to go.
pub fn durable_rename(
    source: Result<(), StorageError>,
    target: Result<(), StorageError>,
    target_path: &str,
) -> (r: Result<(), StorageError>)
    ensures
        match source {
            Err(e) => r == Result::<(), StorageError>::Err(e),
            Ok(_) => match target {
                Ok(_) => r matches Err(StorageError::Native { operation, path, status })
                    && operation@ == "durable rename target collision"@ && path@ == target_path@
                    && status == STATUS_OBJECT_NAME_COLLISION,
                Err(e) => if e.says_not_found() {
                    r is Ok
                } else {
                    r == Result::<(), StorageError>::Err(e)
                },
            },
        },
{
    match source {
        Ok(()) => {},
        Err(e) => {
            return Err(e);
        },
    }
    match target {
        Ok(()) => Err(
            StorageError::Native {
                operation: "durable rename target collision",
                path: owned(target_path),
                status: STATUS_OBJECT_NAME_COLLISION,
            },
        ),
        Err(e) => {
            if e.is_not_found() {
                Ok(())
            } else {
                Err(e)
            }
        },
    }
}

/// What follows an attempt at a lock.
#[derive(Debug)]
pub enum LockStep {
    Acquired,
    /// Wait this many milliseconds and try again.
    Wait(u64),
    Fail(StorageError),
}

/// Whether an error says that another process holds the lock.
pub open spec fn is_held(e: StorageError) -> bool {
    e matches StorageError::Native { status, .. } && status == STATUS_SHARING_VIOLATION
}

/// Decides after an attempt at a lock: a held lock is tried again until the time is
/// up, and the wait never goes past it.
pub fn acquire_named_lock(
    attempt: Result<(), StorageError>,
    elapsed_ms: u64,
    timeout_ms: u64,
) -> (r: LockStep)
    ensures
        match attempt {
            Ok(_) => r is Acquired,
            Err(e) => if !is_held(e) {
                r == LockStep::Fail(e)
            } else if elapsed_ms >= timeout_ms {
                r == LockStep::Fail(StorageError::LockTimeout(timeout_ms))
            } else {
                r matches LockStep::Wait(ms) && 0 < ms && ms <= LOCK_RETRY_DELAY_MS && elapsed_ms
                    + ms <= timeout_ms && (ms == LOCK_RETRY_DELAY_MS || elapsed_ms + ms
                    == timeout_ms)
            },
        },
{
    match attempt {
        Ok(()) => LockStep::Acquired,
        Err(e) => {
            let held = match &e {
                StorageError::Native { status, .. } => *status == STATUS_SHARING_VIOLATION,
                _ => false,
            };
            if !held {
                return LockStep::Fail(e);
            }
            if elapsed_ms >= timeout_ms {
                return LockStep::Fail(StorageError::LockTimeout(timeout_ms));
            }
            let left: u64 = timeout_ms - elapsed_ms;
            if LOCK_RETRY_DELAY_MS < left {
                LockStep::Wait(LOCK_RETRY_DELAY_MS)
            } else {
                LockStep::Wait(left)
            }
        },
    }
}

/// Rights are accepted exactly where the object is owned by, and open to, the system and the
/// administrators alone: each has one entry, which allows everything and is handed down, and
/// nothing is inherited from above.
pub proof fn accepted_rights_shut_everyone_else_out(d: DescriptorObservation)
    requires
        d.ace_count matches Ok(count) ==> d.aces@.len() == count,
    ensures
        is_protected(d) ==> d.complete && d.expected_sids is Ok && (d.control matches Ok(bits)
            && bits & 0x1000 != 0) && (d.owner is System || d.owner is Administrators)
            && d.aces@.len() == 2 && forall|i: int|
            0 <= i < 2 ==> (#[trigger] d.aces@[i] matches Ok(ace) && ace.ace_type == 0 && ace.mask
                == 0x1f_01ff && ace.flags == 3 && (ace.trustee is System || ace.trustee is
                Administrators)),
        is_protected(d) ==> (exists|i: int|
            0 <= i < 2 && (#[trigger] d.aces@[i])->Ok_0.trustee is System) && (exists|i: int|
            0 <= i < 2 && (#[trigger] d.aces@[i])->Ok_0.trustee is Administrators),
        d.complete && d.expected_sids is Ok && (d.control matches Ok(bits) && bits & 0x1000 != 0)
            && !(d.owner is Other) && d.ace_count == Result::<u32, String>::Ok(2) && (forall|i: int|
            0 <= i < 2 ==> (#[trigger] d.aces@[i] matches Ok(ace) && ace.ace_type == 0 && ace.mask
                == 0x1f_01ff && ace.flags == 3 && !(ace.trustee is Other)))
            && d.aces@[0]->Ok_0.trustee != d.aces@[1]->Ok_0.trustee ==> is_protected(d),
{
    if is_protected(d) {
        assert(is_good_ace(d.aces@[0]) && is_good_ace(d.aces@[1]));
        let first = d.aces@[0]->Ok_0.trustee;
        let second = d.aces@[1]->Ok_0.trustee;
        assert(first is System && second is Administrators || second is System && first is
            Administrators);
    }
}

/// What could not be read is never told as an object that others can reach, and what others
/// can reach is never told as something that could not be read.
pub proof fn a_refusal_of_rights_says_which_it_is(
    d: DescriptorObservation,
    path: Seq<char>,
    e: StorageError,
)
    requires
        d.ace_count matches Ok(count) ==> d.aces@.len() == count,
        !is_protected(d),
        descriptor_error(d, path, e),
    ensures
        e is Io || e is LegacyStorageInsecure,
        e is Io ==> d.control is Err || d.expected_sids is Err || d.ace_count is Err || (
        d.aces@.len() == 2 && (d.aces@[0] is Err || d.aces@[1] is Err)),
        d.complete && d.control is Err ==> e is Io,
        d.owner is Other && d.complete && d.control is Ok && d.expected_sids is Ok
            ==> e is LegacyStorageInsecure,
{
}

/// An object is accepted exactly where it is of the kind that was asked for and no link.
pub proof fn an_object_is_accepted_by_its_kind(
    attributes: Result<u32, String>,
    path: Seq<char>,
    directory: bool,
    r: Result<(), StorageError>,
)
    requires
        kind_outcome(attributes, path, directory, r),
    ensures
        r is Ok <==> (attributes matches Ok(bits) && bits & 0x400 == 0 && ((bits & 0x10 != 0)
            == directory)),
        attributes is Err ==> (r matches Err(e) && e is Io),
        attributes is Ok && r is Err ==> (r matches Err(e) && e is LegacyStorageInsecure),
{
}

/// That an object is missing, that it is there already, and that another holds it, are three
/// different failures, each of them an answer of the system.
pub proof fn failures_are_told_apart(e: StorageError)
    ensures
        e.says_not_found() ==> !e.says_collision() && !is_held(e) && e is Native,
        e.says_collision() ==> !is_held(e) && e is Native,
        is_held(e) ==> e is Native,
        e matches StorageError::Native { status, .. } ==> (e.says_not_found() <==> status
            == -1073741772 || status == -1073741766) && (e.says_collision() <==> status
            == -1073741771) && (is_held(e) <==> status == -1073741757),
{
}

/// An operation that failed is never told as another failure where what it created was
/// removed, and the second failure is never told without the first.
pub proof fn a_failed_removal_hides_no_failure(
    operation: StorageError,
    removal: Result<(), StorageError>,
    e: StorageError,
)
    requires
        cleanup_error(operation, removal, e),
    ensures
        removal is Ok ==> e == operation,
        removal matches Err(second) ==> (e matches StorageError::CleanupFailed {
            operation_error,
            cleanup_error,
        } && operation_error@ == operation.text() && cleanup_error@ == second.text()),
{
}

proof fn lemma_unsplit(name: Seq<char>)
    requires
        !name.contains('\\'),
    ensures
        split(name, '\\') =~= seq![name],
    decreases name.len(),
{
    if name.len() > 0 {
        let front = name.drop_last();
        assert forall|i: int| 0 <= i < front.len() implies front[i] != '\\' by {
            assert(name[i] == front[i]);
            assert(name.contains(name[i]));
        }
        lemma_unsplit(front);
        assert(name.contains(name.last()));
        assert(split(front, '\\') == seq![front]);
        assert(split(front, '\\').last() == front);
        assert(front.push(name.last()) =~= name);
        assert(split(name, '\\') =~= split(front, '\\').drop_last().push(name));
    } else {
        assert(name =~= Seq::empty());
    }
}

/// What the storage takes for the name of a file is one component of a path, and no other.
pub proof fn a_component_is_one_step_down(name: Seq<char>)
    requires
        is_storage_component(name),
    ensures
        is_single_component(name),
        path_pieces(name) == seq![name],
{
    let same = with_char_replaced(name, '/', '\\');
    assert forall|i: int| 0 <= i < name.len() implies same[i] == name[i] by {
        assert(name.contains(name[i]));
    }
    assert(same =~= name);
    lemma_unsplit(name);
}

} // verus!
