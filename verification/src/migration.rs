//! Which migration plans are accepted, and why others are refused.
use crate::constants::BAK_EXTENSION;
use crate::models::MigrationPlan;
use crate::paths::{drive_leaf, drive_parent, split_drive_path};
use crate::registry::RegistryError;
use crate::secure_fs::{SecureEntryKind, SecureFsError};
use crate::text::{
    ascii_upper, is_ascii_alphabetic, is_blank, split, texts, trimmed, unicode_lowercase,
    with_char_replaced, without_suffix,
};
use crate::text::{
    cat2, cat3, cat4, char_is_alphabetic, chars_of, contains_char, copy_range, is_blank_str, owned,
    replace_char, skip_chars, split_chars, starts_with, str_eq, strip_suffix_or_self,
    to_ascii_upper, to_lowercase, trim,
};
use crate::text::has_prefix;
use vstd::prelude::*;

verus! {

#[derive(Debug)]
pub enum MigrationError {
    SourceNotFound(String),
    InvalidPlan(String),
    ReparsePoint(String),
    DestinationExists(String),
    Cancelled,
    SourceLoaded(String),
    InternalState(String),
    VerificationFailed(String),
    RollbackFailed { operation_error: String, rollback_error: String },
    IoError(String),
    Security(String),
    Audit(String),
}

impl MigrationError {
    /// The text that describes the error.
    pub open spec fn text(self) -> Seq<char> {
        match self {
            MigrationError::SourceNotFound(path) => "Source profile directory does not exist: "@
                + path@,
            MigrationError::InvalidPlan(reason) => "Invalid migration plan: "@ + reason@,
            MigrationError::ReparsePoint(path) => "Migration refuses to traverse a reparse point: "@
                + path@,
            MigrationError::DestinationExists(path) =>
                "Destination file already exists and will not be overwritten: "@ + path@,
            MigrationError::Cancelled => "Migration was cancelled"@,
            MigrationError::SourceLoaded(sid) => "Source profile is currently loaded: "@ + sid@,
            MigrationError::InternalState(reason) => "Migration internal state failure: "@
                + reason@,
            MigrationError::VerificationFailed(path) => "Copied file verification failed: "@
                + path@,
            MigrationError::RollbackFailed { operation_error, rollback_error } =>
                "Migration rollback failed after '"@ + operation_error@ + "': "@ + rollback_error@,
            MigrationError::IoError(reason) => "IO error during migration copy: "@ + reason@,
            MigrationError::Security(reason) => "Security validation failed: "@ + reason@,
            MigrationError::Audit(reason) => "Audit journal error: "@ + reason@,
        }
    }

    pub fn message(&self) -> (r: String)
        ensures
            r@ == self.text(),
    {
        match self {
            MigrationError::SourceNotFound(path) => cat2(
                "Source profile directory does not exist: ",
                path.as_str(),
            ),
            MigrationError::InvalidPlan(reason) => cat2(
                "Invalid migration plan: ",
                reason.as_str(),
            ),
            MigrationError::ReparsePoint(path) => cat2(
                "Migration refuses to traverse a reparse point: ",
                path.as_str(),
            ),
            MigrationError::DestinationExists(path) => cat2(
                "Destination file already exists and will not be overwritten: ",
                path.as_str(),
            ),
            MigrationError::Cancelled => owned("Migration was cancelled"),
            MigrationError::SourceLoaded(sid) => cat2(
                "Source profile is currently loaded: ",
                sid.as_str(),
            ),
            MigrationError::InternalState(reason) => cat2(
                "Migration internal state failure: ",
                reason.as_str(),
            ),
            MigrationError::VerificationFailed(path) => cat2(
                "Copied file verification failed: ",
                path.as_str(),
            ),
            MigrationError::RollbackFailed { operation_error, rollback_error } => cat4(
                "Migration rollback failed after '",
                operation_error.as_str(),
                "': ",
                rollback_error.as_str(),
            ),
            MigrationError::IoError(reason) => cat2(
                "IO error during migration copy: ",
                reason.as_str(),
            ),
            MigrationError::Security(reason) => cat2(
                "Security validation failed: ",
                reason.as_str(),
            ),
            MigrationError::Audit(reason) => cat2("Audit journal error: ", reason.as_str()),
        }
    }

    /// Whether this is a refused plan with the given reason.
    pub open spec fn refuses(self, reason: Seq<char>) -> bool {
        self matches MigrationError::InvalidPlan(text) && text@ == reason
    }
}

fn invalid_plan(reason: &str) -> (r: MigrationError)
    ensures
        r.refuses(reason@),
{
    MigrationError::InvalidPlan(owned(reason))
}

// ---------------------------------------------------------------------------
// File system errors as migration errors
// ---------------------------------------------------------------------------

/// The migration error that a file system error stands for.
pub open spec fn maps_to(error: SecureFsError, r: MigrationError) -> bool {
    match error {
        SecureFsError::ReparsePoint(path) => r == MigrationError::ReparsePoint(path),
        SecureFsError::AlreadyExists(path) => r == MigrationError::DestinationExists(path),
        other => r matches MigrationError::Security(text) && text@ == other.text(),
    }
}

pub fn map_secure_error(error: SecureFsError) -> (r: MigrationError)
    ensures
        maps_to(error, r),
{
    match error {
        SecureFsError::ReparsePoint(path) => MigrationError::ReparsePoint(path),
        SecureFsError::AlreadyExists(path) => MigrationError::DestinationExists(path),
        other => MigrationError::Security(other.message()),
    }
}

pub fn map_source_root_error(error: SecureFsError, source: &str) -> (r: MigrationError)
    ensures
        if error is NotFound {
            r matches MigrationError::SourceNotFound(path) && path@ == source@
        } else {
            maps_to(error, r)
        },
{
    match error {
        SecureFsError::NotFound(_) => MigrationError::SourceNotFound(owned(source)),
        other => map_secure_error(other),
    }
}

// ---------------------------------------------------------------------------
// Path components
// ---------------------------------------------------------------------------

/// Whether a character may not stand in a component.
pub open spec fn is_forbidden_char(c: char) -> bool {
    c <= '\u{1f}' || c == '<' || c == '>' || c == ':' || c == '"' || c == '/' || c == '\\' || c
        == '|' || c == '?' || c == '*'
}

/// Whether a component is spelled in a way that Windows accepts.
pub open spec fn is_well_spelled(name: Seq<char>) -> bool {
    &&& name.len() > 0
    &&& name.last() != '.'
    &&& name.last() != ' '
    &&& forall|i: int| 0 <= i < name.len() ==> !is_forbidden_char(#[trigger] name[i])
}

/// The suffixes that make `COM` and `LPT` a device.
pub open spec fn is_port_digit(s: Seq<char>) -> bool {
    s.len() == 1 && (('1' <= s[0] && s[0] <= '9') || s[0] == '\u{b9}' || s[0] == '\u{b2}' || s[0]
        == '\u{b3}')
}

/// The names that stand for devices, whatever extension follows.
pub open spec fn is_device_name(stem: Seq<char>) -> bool {
    let upper = ascii_upper(stem);
    ||| upper == "CON"@
    ||| upper == "PRN"@
    ||| upper == "AUX"@
    ||| upper == "NUL"@
    ||| upper == "CONIN$"@
    ||| upper == "CONOUT$"@
    ||| (has_prefix(upper, "COM"@) && is_port_digit(upper.skip(3)))
    ||| (has_prefix(upper, "LPT"@) && is_port_digit(upper.skip(3)))
}

/// Whether a component is usable.
pub open spec fn is_valid_component(name: Seq<char>) -> bool {
    is_well_spelled(name) && !is_device_name(split(name, '.')[0])
}

/// The reason why a component is refused.
pub open spec fn component_fault(name: Seq<char>, label: Seq<char>) -> Seq<char> {
    if !is_well_spelled(name) {
        label + " contains an invalid Windows path component: "@ + name
    } else {
        label + " contains a reserved Windows device name: "@ + name
    }
}

fn well_spelled(name: &str) -> (r: bool)
    ensures
        r == is_well_spelled(name@),
{
    let chars = chars_of(name);
    if chars.len() == 0 {
        return false;
    }
    let last = chars[chars.len() - 1];
    if last == '.' || last == ' ' {
        return false;
    }
    let mut i: usize = 0;
    while i < chars.len()
        invariant
            i <= chars@.len(),
            chars@ == name@,
            forall|k: int| 0 <= k < i ==> !is_forbidden_char(#[trigger] name@[k]),
        decreases chars.len() - i,
    {
        let c = chars[i];
        if c <= '\u{1f}' || c == '<' || c == '>' || c == ':' || c == '"' || c == '/' || c == '\\'
            || c == '|' || c == '?' || c == '*' {
            assert(is_forbidden_char(name@[i as int]));
            return false;
        }
        i += 1;
    }
    true
}

fn port_suffix(upper: &str, prefix: &str) -> (r: bool)
    requires
        prefix@.len() == 3,
    ensures
        r == (has_prefix(upper@, prefix@) && is_port_digit(upper@.skip(3))),
{
    if !starts_with(upper, prefix) {
        return false;
    }
    let rest = skip_chars(upper, 3);
    let chars = chars_of(rest.as_str());
    chars.len() == 1 && (('1' <= chars[0] && chars[0] <= '9') || chars[0] == '\u{b9}' || chars[0]
        == '\u{b2}' || chars[0] == '\u{b3}')
}

fn device_name(stem: &str) -> (r: bool)
    ensures
        r == is_device_name(stem@),
{
    let upper = to_ascii_upper(stem);
    let u = upper.as_str();
    proof {
        reveal_strlit("COM");
        reveal_strlit("LPT");
    }
    str_eq(u, "CON") || str_eq(u, "PRN") || str_eq(u, "AUX") || str_eq(u, "NUL") || str_eq(
        u,
        "CONIN$",
    ) || str_eq(u, "CONOUT$") || port_suffix(u, "COM") || port_suffix(u, "LPT")
}

pub fn validate_windows_component(name: &str, label: &str) -> (r: Result<(), MigrationError>)
    ensures
        r is Ok <==> is_valid_component(name@),
        r matches Err(e) ==> e.refuses(component_fault(name@, label@)),
{
    if !well_spelled(name) {
        return Err(
            MigrationError::InvalidPlan(
                cat3(label, " contains an invalid Windows path component: ", name),
            ),
        );
    }
    let parts = split_chars(name, '.');
    assert(texts(parts@)[0] == parts@[0]@);
    if device_name(parts[0].as_str()) {
        return Err(
            MigrationError::InvalidPlan(
                cat3(label, " contains a reserved Windows device name: ", name),
            ),
        );
    }
    Ok(())
}

// ---------------------------------------------------------------------------
// Whole paths
// ---------------------------------------------------------------------------

/// A drive letter, a colon and a backslash, with no forward slash anywhere.
pub open spec fn is_drive_form(path: Seq<char>) -> bool {
    &&& path.len() >= 3
    &&& is_ascii_alphabetic(path[0])
    &&& path[1] == ':'
    &&& path[2] == '\\'
    &&& !path.contains('/')
}

/// The components behind the drive root; the root itself has none.
pub open spec fn drive_components(path: Seq<char>) -> Seq<Seq<char>> {
    if path.len() <= 3 {
        Seq::empty()
    } else {
        split(path.skip(3), '\\')
    }
}

pub open spec fn is_dot_component(name: Seq<char>) -> bool {
    name.len() == 0 || name == "."@ || name == ".."@
}

/// Whether a path is an accepted, normalized drive path.
pub open spec fn is_release_path(path: Seq<char>) -> bool {
    &&& is_drive_form(path)
    &&& forall|i: int|
        0 <= i < drive_components(path).len() ==> !is_dot_component(
            #[trigger] drive_components(path)[i],
        )
    &&& forall|i: int|
        0 <= i < drive_components(path).len() ==> is_valid_component(
            #[trigger] drive_components(path)[i],
        )
}

/// The reason why a path is refused: the form comes first, then empty and dot
/// components anywhere, then the first unusable component.
pub open spec fn path_fault(path: Seq<char>, label: Seq<char>, reason: Seq<char>) -> bool {
    let parts = drive_components(path);
    if path.len() == 0 {
        reason == label + " path is empty"@
    } else if !is_drive_form(path) {
        reason == label + " path must be a normalized absolute drive path"@
    } else if exists|i: int| 0 <= i < parts.len() && is_dot_component(#[trigger] parts[i]) {
        reason == label + " path must not contain empty, '.' or '..' components"@
    } else {
        exists|i: int|
            0 <= i < parts.len() && !is_valid_component(#[trigger] parts[i]) && (forall|j: int|
                0 <= j < i ==> is_valid_component(#[trigger] parts[j])) && reason
                == component_fault(parts[i], label)
    }
}

/// Checks the raw form of a path.
pub fn validate_raw_release_path(path: &str, label: &str) -> (r: Result<Vec<String>, MigrationError>)
    ensures
        match r {
            Ok(parts) => is_drive_form(path@) && texts(parts@) == drive_components(path@) && (
            forall|i: int|
                0 <= i < drive_components(path@).len() ==> !is_dot_component(
                    #[trigger] drive_components(path@)[i],
                )),
            Err(e) => if !is_drive_form(path@) {
                e.refuses(label@ + " path must be a normalized absolute drive path"@)
            } else {
                e.refuses(label@ + " path must not contain empty, '.' or '..' components"@)
                    && exists|i: int|
                    0 <= i < drive_components(path@).len() && is_dot_component(
                        #[trigger] drive_components(path@)[i],
                    )
            },
        },
{
    let chars = chars_of(path);
    if chars.len() < 3 || !char_is_alphabetic(chars[0]) || chars[1] != ':' || chars[2] != '\\'
        || contains_char(path, '/') {
        return Err(
            MigrationError::InvalidPlan(
                cat2(label, " path must be a normalized absolute drive path"),
            ),
        );
    }
    if chars.len() == 3 {
        let none: Vec<String> = Vec::new();
        assert(texts(none@) =~= drive_components(path@));
        return Ok(none);
    }
    let rest = skip_chars(path, 3);
    let parts = split_chars(rest.as_str(), '\\');
    let ghost pieces = drive_components(path@);
    let mut i: usize = 0;
    while i < parts.len()
        invariant
            i <= parts@.len(),
            is_drive_form(path@),
            pieces == drive_components(path@),
            texts(parts@) == pieces,
            forall|k: int| 0 <= k < i ==> !is_dot_component(#[trigger] pieces[k]),
        decreases parts.len() - i,
    {
        assert(texts(parts@)[i as int] == parts@[i as int]@);
        let part = parts[i].as_str();
        if part.is_empty() || str_eq(part, ".") || str_eq(part, "..") {
            assert(is_dot_component(pieces[i as int]));
            return Err(
                MigrationError::InvalidPlan(
                    cat2(label, " path must not contain empty, '.' or '..' components"),
                ),
            );
        }
        i += 1;
    }
    Ok(parts)
}

/// Accepts a normalized drive path as it stands.
pub fn release_absolute_path(path: &str, label: &str) -> (r: Result<String, MigrationError>)
    ensures
        match r {
            Ok(text) => is_release_path(path@) && text@ == path@,
            Err(e) => !is_release_path(path@) && (e matches MigrationError::InvalidPlan(reason)
                && path_fault(path@, label@, reason@)),
        },
{
    if path.is_empty() {
        return Err(MigrationError::InvalidPlan(cat2(label, " path is empty")));
    }
    let parts = match validate_raw_release_path(path, label) {
        Ok(parts) => parts,
        Err(e) => {
            return Err(e);
        },
    };
    let ghost pieces = drive_components(path@);
    let mut i: usize = 0;
    while i < parts.len()
        invariant
            i <= parts@.len(),
            path@.len() > 0,
            is_drive_form(path@),
            pieces == drive_components(path@),
            texts(parts@) == pieces,
            forall|k: int| 0 <= k < pieces.len() ==> !is_dot_component(#[trigger] pieces[k]),
            forall|k: int| 0 <= k < i ==> is_valid_component(#[trigger] pieces[k]),
        decreases parts.len() - i,
    {
        assert(texts(parts@)[i as int] == parts@[i as int]@);
        match validate_windows_component(parts[i].as_str(), label) {
            Ok(()) => {},
            Err(e) => {
                assert(!is_valid_component(pieces[i as int]));
                return Err(e);
            },
        }
        i += 1;
    }
    Ok(owned(path))
}

// ---------------------------------------------------------------------------
// Overlap
// ---------------------------------------------------------------------------

/// A path with backslashes only and none at its end.
pub open spec fn bare_path(path: Seq<char>) -> Seq<char> {
    let even = with_char_replaced(path, '/', '\\');
    crate::text::trim_end_where(even, |c: char| c == '\\')
}

/// The text by which paths are compared.
pub open spec fn path_key(path: Seq<char>) -> Seq<char> {
    unicode_lowercase(bare_path(path))
}

/// Whether one key is the other, or lies below it.
pub open spec fn keys_overlap(a: Seq<char>, b: Seq<char>) -> bool {
    ||| a == b
    ||| lies_below(b, a)
    ||| lies_below(a, b)
}

/// Whether `inner` continues `outer` with a backslash.
pub open spec fn lies_below(inner: Seq<char>, outer: Seq<char>) -> bool {
    outer.len() < inner.len() && inner.take(outer.len() as int) == outer && inner[outer.len() as int]
        == '\\'
}

fn strip_backslashes(path: &str) -> (r: String)
    ensures
        r@ == bare_path(path@),
{
    let even = replace_char(path, '/', '\\');
    let chars = chars_of(even.as_str());
    let ghost p = |c: char| c == '\\';
    let mut end: usize = chars.len();
    assert(chars@.take(end as int) =~= chars@);
    while end > 0 && chars[end - 1] == '\\'
        invariant
            end <= chars@.len(),
            p == (|c: char| c == '\\'),
            crate::text::trim_end_where(chars@, p) == crate::text::trim_end_where(
                chars@.take(end as int),
                p,
            ),
        decreases end,
    {
        assert(chars@.take(end as int).drop_last() =~= chars@.take(end - 1));
        end -= 1;
    }
    assert(chars@.subrange(0, end as int) =~= chars@.take(end as int));
    copy_range(&chars, 0, end)
}

pub fn normalized_path_key(path: &str) -> (r: String)
    ensures
        r@ == path_key(path@),
{
    let bare = strip_backslashes(path);
    to_lowercase(bare.as_str())
}

fn below(inner: &str, outer: &str) -> (r: bool)
    ensures
        r == lies_below(inner@, outer@),
{
    if !starts_with(inner, outer) {
        return false;
    }
    let a = chars_of(inner);
    let b = chars_of(outer);
    b.len() < a.len() && a[b.len()] == '\\'
}

/// Whether two compared texts are those of overlapping paths.
pub fn path_keys_overlap(first: &str, second: &str) -> (r: bool)
    ensures
        r == keys_overlap(first@, second@),
{
    str_eq(first, second) || below(second, first) || below(first, second)
}

pub fn paths_overlap(first: &str, second: &str) -> (r: bool)
    ensures
        r == keys_overlap(path_key(first@), path_key(second@)),
{
    let a = normalized_path_key(first);
    let b = normalized_path_key(second);
    path_keys_overlap(a.as_str(), b.as_str())
}

/// Overlap does not depend on the order of the two paths, and every path overlaps
/// itself.
pub proof fn path_overlap_is_symmetric_and_reflexive(a: Seq<char>, b: Seq<char>)
    ensures
        keys_overlap(a, b) == keys_overlap(b, a),
        keys_overlap(a, a),
{
}

// ---------------------------------------------------------------------------
// The source account
// ---------------------------------------------------------------------------

/// The SID whose hive tells whether the source is in use.
pub open spec fn source_account(sid: Seq<char>) -> Seq<char> {
    trimmed(without_suffix(sid, BAK_EXTENSION@))
}

pub open spec fn is_usable_account(sid: Seq<char>) -> bool {
    &&& source_account(sid).len() > 0
    &&& !source_account(sid).contains('\\')
    &&& !source_account(sid).contains('/')
}

/// The error that the state of the source hive gives, if any: only a hive that is
/// known not to exist lets a migration go on.
pub open spec fn offline_outcome(
    sid: Seq<char>,
    hive: Result<(), RegistryError>,
    r: Result<(), MigrationError>,
) -> bool {
    if !is_usable_account(sid) {
        r matches Err(e) && e.refuses("source SID is invalid"@)
    } else {
        match hive {
            Ok(_) => r matches Err(MigrationError::SourceLoaded(s)) && s@ == source_account(sid),
            Err(error) => if error.is_missing_key() {
                r is Ok
            } else {
                r matches Err(MigrationError::Security(text)) && text@
                    == "failed to verify whether source profile is loaded: "@ + error.text()
            },
        }
    }
}

pub fn ensure_source_offline(source_sid: &str, hive: Result<(), RegistryError>) -> (r: Result<
    (),
    MigrationError,
>)
    ensures
        offline_outcome(source_sid@, hive, r),
{
    let bare = strip_suffix_or_self(source_sid, BAK_EXTENSION);
    let sid = trim(bare.as_str());
    if sid.as_str().is_empty() || contains_char(sid.as_str(), '\\') || contains_char(
        sid.as_str(),
        '/',
    ) {
        return Err(invalid_plan("source SID is invalid"));
    }
    match hive {
        Ok(()) => Err(MigrationError::SourceLoaded(sid)),
        Err(error) => {
            if error.missing_key() {
                Ok(())
            } else {
                let reason = error.message();
                Err(
                    MigrationError::Security(
                        cat2(
                            "failed to verify whether source profile is loaded: ",
                            reason.as_str(),
                        ),
                    ),
                )
            }
        },
    }
}

// ---------------------------------------------------------------------------
// The whole plan
// ---------------------------------------------------------------------------

/// What was found where a plan points.
pub struct MigrationObservation {
    /// Whether the source user's hive could be opened.
    pub hive: Result<(), RegistryError>,
    /// Whether the source directory could be opened.
    pub source_root: Result<(), SecureFsError>,
    /// Whether the directory that is to hold the target could be opened.
    pub target_parent: Result<(), SecureFsError>,
    /// Whether that directory lies inside the source.
    pub parent_within_source: bool,
    /// What stands where the target is to be created.
    pub target_entry: Result<Option<SecureEntryKind>, SecureFsError>,
}

/// A plan that passed every check.
#[derive(Debug)]
pub struct MigrationPreflight {
    pub source_path: String,
    pub target_path: String,
}

/// A preflight with what the execution needs besides.
#[derive(Debug)]
pub struct ValidatedMigration {
    pub source_path: String,
    pub target_path: String,
    pub target_parent: String,
    pub target_leaf: String,
}

/// Whether a plan says where to copy from and to, apart from what is found there.
pub open spec fn is_sound_plan(plan: MigrationPlan) -> bool {
    &&& !is_blank(plan.source_sid@)
    &&& plan.include_roaming_appdata || plan.include_personal_folders
    &&& is_release_path(plan.source_path@)
    &&& is_release_path(plan.target_path@)
    &&& !keys_overlap(path_key(plan.source_path@), path_key(plan.target_path@))
    &&& is_usable_account(plan.source_sid@)
    &&& drive_leaf(plan.target_path@) is Some
}

/// Whether what was found lets a plan be carried out.
pub open spec fn is_clear(plan: MigrationPlan, o: MigrationObservation) -> bool {
    &&& o.hive is Err
    &&& o.hive->Err_0.is_missing_key()
    &&& o.source_root is Ok
    &&& o.target_parent is Ok
    &&& !o.parent_within_source
    &&& o.target_entry is Ok
    &&& o.target_entry->Ok_0 is None
}

/// The error of a plan, by the first check that it fails.
pub open spec fn plan_error(
    plan: MigrationPlan,
    o: MigrationObservation,
    e: MigrationError,
) -> bool {
    if is_blank(plan.source_sid@) {
        e.refuses("source SID is empty"@)
    } else if !plan.include_roaming_appdata && !plan.include_personal_folders {
        e.refuses("at least one migration scope must be selected"@)
    } else if !is_release_path(plan.source_path@) {
        e matches MigrationError::InvalidPlan(reason) && path_fault(
            plan.source_path@,
            "source"@,
            reason@,
        )
    } else if !is_release_path(plan.target_path@) {
        e matches MigrationError::InvalidPlan(reason) && path_fault(
            plan.target_path@,
            "destination"@,
            reason@,
        )
    } else if keys_overlap(path_key(plan.source_path@), path_key(plan.target_path@)) {
        e.refuses("source and destination directories must not overlap"@)
    } else if !is_usable_account(plan.source_sid@) || o.hive is Ok
        || !o.hive->Err_0.is_missing_key() {
        offline_outcome(plan.source_sid@, o.hive, Err(e))
    } else if o.source_root is Err {
        if o.source_root->Err_0 is NotFound {
            e matches MigrationError::SourceNotFound(path) && path@ == plan.source_path@
        } else {
            maps_to(o.source_root->Err_0, e)
        }
    } else if drive_parent(plan.target_path@) is None {
        e.refuses("destination must have an existing parent"@)
    } else if o.target_parent is Err {
        if o.target_parent->Err_0 is NotFound {
            e.refuses(
                "destination parent does not exist: "@ + drive_parent(plan.target_path@)->0,
            )
        } else {
            maps_to(o.target_parent->Err_0, e)
        }
    } else if o.parent_within_source {
        e.refuses("destination parent is inside the source directory"@)
    } else if o.target_entry is Err {
        maps_to(o.target_entry->Err_0, e)
    } else {
        o.target_entry->Ok_0 is Some && (e matches MigrationError::DestinationExists(path) && path@
            == plan.target_path@)
    }
}

/// The last component of an accepted path is one of its components.
proof fn lemma_leaf_is_component(path: Seq<char>)
    requires
        is_release_path(path),
        drive_leaf(path) is Some,
    ensures
        is_valid_component(drive_leaf(path)->0),
{
    let rest = path.skip(3);
    let parts = split(rest, '\\');
    crate::text::lemma_split_nonempty(rest, '\\');
    crate::paths::lemma_last_backslash(path);
    lemma_last_piece(rest);
    crate::paths::lemma_last_backslash(rest);
    let a = crate::paths::last_backslash(path);
    let b = crate::paths::last_backslash(rest);
    assert(a == b + 3) by {
        if b >= 0 {
            assert(path[b + 3] == rest[b]);
            assert forall|k: int| b + 3 < k < path.len() implies path[k] != '\\' by {
                assert(rest[k - 3] == path[k]);
            }
        } else {
            assert(path[2] == '\\');
            assert forall|k: int| 2 < k < path.len() implies path[k] != '\\' by {
                assert(rest[k - 3] == path[k]);
            }
        }
    }
    assert(path.skip(a + 1) =~= rest.skip(b + 1));
    assert(drive_components(path) == parts);
    assert(parts[parts.len() - 1] == drive_leaf(path)->0);
}

proof fn lemma_last_piece(s: Seq<char>)
    ensures
        split(s, '\\').len() >= 1,
        split(s, '\\').last() == s.skip(crate::paths::last_backslash(s) + 1),
    decreases s.len(),
{
    crate::text::lemma_split_nonempty(s, '\\');
    if s.len() == 0 {
        assert(split(s, '\\').last() =~= s.skip(0));
    } else if s.last() == '\\' {
        assert(s.skip(s.len() as int) =~= Seq::<char>::empty());
    } else {
        lemma_last_piece(s.drop_last());
        crate::paths::lemma_last_backslash(s.drop_last());
        let at = crate::paths::last_backslash(s.drop_last());
        assert(s.drop_last().skip(at + 1).push(s.last()) =~= s.skip(at + 1));
    }
}

/// Checks a plan against what was found.
pub fn validate_for_execution(plan: &MigrationPlan, found: MigrationObservation) -> (r: Result<
    ValidatedMigration,
    MigrationError,
>)
    ensures
        match r {
            Ok(v) => is_sound_plan(*plan) && is_clear(*plan, found) && v.source_path@
                == plan.source_path@ && v.target_path@ == plan.target_path@ && drive_parent(
                plan.target_path@,
            ) == Some(v.target_parent@) && drive_leaf(plan.target_path@) == Some(v.target_leaf@),
            Err(e) => !(is_sound_plan(*plan) && is_clear(*plan, found)) && plan_error(
                *plan,
                found,
                e,
            ),
        },
{
    if is_blank_str(plan.source_sid.as_str()) {
        return Err(invalid_plan("source SID is empty"));
    }
    if !plan.include_roaming_appdata && !plan.include_personal_folders {
        return Err(invalid_plan("at least one migration scope must be selected"));
    }
    let source = match release_absolute_path(plan.source_path.as_str(), "source") {
        Ok(source) => source,
        Err(e) => {
            return Err(e);
        },
    };
    let target = match release_absolute_path(plan.target_path.as_str(), "destination") {
        Ok(target) => target,
        Err(e) => {
            return Err(e);
        },
    };
    if paths_overlap(source.as_str(), target.as_str()) {
        return Err(invalid_plan("source and destination directories must not overlap"));
    }
    match ensure_source_offline(plan.source_sid.as_str(), found.hive) {
        Ok(()) => {},
        Err(e) => {
            return Err(e);
        },
    }
    match found.source_root {
        Ok(()) => {},
        Err(error) => {
            return Err(map_source_root_error(error, source.as_str()));
        },
    }
    let (parent, leaf) = match split_drive_path(target.as_str()) {
        Some(parts) => parts,
        None => {
            return Err(invalid_plan("destination must have an existing parent"));
        },
    };
    proof {
        lemma_leaf_is_component(target@);
    }
    match validate_windows_component(leaf.as_str(), "destination folder name") {
        Ok(()) => {},
        Err(e) => {
            return Err(e);
        },
    }
    match found.target_parent {
        Ok(()) => {},
        Err(SecureFsError::NotFound(_)) => {
            return Err(
                MigrationError::InvalidPlan(
                    cat2("destination parent does not exist: ", parent.as_str()),
                ),
            );
        },
        Err(error) => {
            return Err(map_secure_error(error));
        },
    }
    if found.parent_within_source {
        return Err(invalid_plan("destination parent is inside the source directory"));
    }
    match found.target_entry {
        Ok(None) => {},
        Ok(Some(_)) => {
            return Err(MigrationError::DestinationExists(target));
        },
        Err(error) => {
            return Err(map_secure_error(error));
        },
    }
    Ok(
        ValidatedMigration {
            source_path: source,
            target_path: target,
            target_parent: parent,
            target_leaf: leaf,
        },
    )
}

/// Checks a plan without carrying it out.
pub fn prevalidate_migration_plan(plan: &MigrationPlan, found: MigrationObservation) -> (r: Result<
    MigrationPreflight,
    MigrationError,
>)
    ensures
        match r {
            Ok(p) => is_sound_plan(*plan) && is_clear(*plan, found) && p.source_path@
                == plan.source_path@ && p.target_path@ == plan.target_path@,
            Err(e) => !(is_sound_plan(*plan) && is_clear(*plan, found)) && plan_error(
                *plan,
                found,
                e,
            ),
        },
{
    match validate_for_execution(plan, found) {
        Ok(v) => Ok(MigrationPreflight { source_path: v.source_path, target_path: v.target_path }),
        Err(e) => Err(e),
    }
}

/// A migration is admitted exactly where it is safe: something is selected, both places are
/// plain drive paths, neither is the other or lies in it, the source is there and not in
/// use, and the target is not there but the directory that is to hold it is, outside of
/// the source.
pub proof fn a_migration_is_admitted_where_it_is_safe(plan: MigrationPlan, o: MigrationObservation)
    ensures
        is_sound_plan(plan) && is_clear(plan, o) ==> {
            &&& plan.include_roaming_appdata || plan.include_personal_folders
            &&& o.hive == Result::<(), RegistryError>::Err(RegistryError::Win32Error(2))
            &&& o.source_root is Ok
            &&& o.target_parent is Ok
            &&& !o.parent_within_source
            &&& o.target_entry is Ok && o.target_entry->Ok_0 is None
            &&& path_key(plan.source_path@) != path_key(plan.target_path@)
            &&& forall|rest: Seq<char>|
                path_key(plan.target_path@) != #[trigger] (path_key(plan.source_path@) + seq!['\\']
                    + rest)
            &&& forall|rest: Seq<char>|
                path_key(plan.source_path@) != #[trigger] (path_key(plan.target_path@) + seq!['\\']
                    + rest)
        },
        is_sound_plan(plan) && o.hive == Result::<(), RegistryError>::Err(
            RegistryError::Win32Error(2),
        ) && o.source_root is Ok && o.target_parent is Ok && !o.parent_within_source
            && o.target_entry is Ok && o.target_entry->Ok_0 is None ==> is_clear(plan, o),
{
    let (a, b) = (path_key(plan.source_path@), path_key(plan.target_path@));
    assert forall|rest: Seq<char>| b == #[trigger] (a + seq!['\\'] + rest) implies keys_overlap(
        a,
        b,
    ) by {
        assert(b.take(a.len() as int) =~= a);
    }
    assert forall|rest: Seq<char>| a == #[trigger] (b + seq!['\\'] + rest) implies keys_overlap(
        a,
        b,
    ) by {
        assert(a.take(b.len() as int) =~= b);
    }
}

/// Why a sound plan is refused: a source in use is told as such, and so are a target that
/// is there already and a place that is a reparse point.
pub proof fn a_refused_migration_is_told_why(
    plan: MigrationPlan,
    o: MigrationObservation,
    e: MigrationError,
)
    requires
        is_sound_plan(plan),
        plan_error(plan, o, e),
    ensures
        o.hive is Ok ==> e is SourceLoaded,
        o.hive == Result::<(), RegistryError>::Err(RegistryError::Win32Error(2)) ==> {
            &&& (o.source_root matches Err(f) && f is NotFound) ==> e is SourceNotFound
            &&& (o.source_root matches Err(f) && f is ReparsePoint) ==> e is ReparsePoint
            &&& o.source_root is Ok && o.target_parent is Ok && !o.parent_within_source
                && o.target_entry is Ok ==> (e matches MigrationError::DestinationExists(path)
                && path@ == plan.target_path@)
        },
{
    lemma_leaf_is_component(plan.target_path@);
}

/// A file system error keeps its meaning: a reparse point and something that is there
/// already are told as such, everything else as a security error with its text.
pub proof fn a_file_error_keeps_its_meaning(error: SecureFsError, r: MigrationError)
    requires
        maps_to(error, r),
    ensures
        r is ReparsePoint <==> error is ReparsePoint,
        r is DestinationExists <==> error is AlreadyExists,
        r is Security <==> !(error is ReparsePoint) && !(error is AlreadyExists),
{
}

/// A path that is accepted is a plain drive path: a letter, a colon and a backslash, and
/// then names, none of them empty or made of dots alone, and none with a character that
/// names cannot have.
pub proof fn an_accepted_path_is_plain(path: Seq<char>)
    requires
        is_release_path(path),
    ensures
        path.len() >= 3,
        'a' <= path[0] <= 'z' || 'A' <= path[0] <= 'Z',
        path[1] == ':' && path[2] == '\\',
        forall|i: int|
            0 <= i < drive_components(path).len() ==> {
                &&& (#[trigger] drive_components(path)[i]).len() > 0
                &&& drive_components(path)[i] != "."@
                &&& drive_components(path)[i] != ".."@
                &&& drive_components(path)[i].last() != '.'
                &&& drive_components(path)[i].last() != ' '
            },
        forall|i: int, k: int|
            0 <= i < drive_components(path).len() && 0 <= k < drive_components(path)[i].len() ==> {
                let c = #[trigger] drive_components(path)[i][k];
                &&& c > '\u{1f}' && c != '<' && c != '>' && c != ':' && c != '"' && c != '/'
                &&& c != '\\' && c != '|' && c != '?' && c != '*'
            },
{
    assert forall|i: int| 0 <= i < drive_components(path).len() implies is_valid_component(
        #[trigger] drive_components(path)[i],
    ) && !is_dot_component(drive_components(path)[i]) by {}
}

/// Whether a stem, in whatever case, is one of the names that stand for devices.
pub open spec fn names_device(stem: Seq<char>) -> bool {
    let upper = ascii_upper(stem);
    ||| upper == "CON"@ || upper == "PRN"@ || upper == "AUX"@ || upper == "NUL"@
    ||| upper == "CONIN$"@ || upper == "CONOUT$"@
    ||| exists|digit: char|
        '1' <= digit <= '9' && (upper == #[trigger] "COM"@.push(digit) || upper == "LPT"@.push(
            digit,
        ))
}

proof fn lemma_first_piece(stem: Seq<char>, rest: Seq<char>)
    requires
        !stem.contains('.'),
        rest.len() == 0 || rest[0] == '.',
    ensures
        split(stem + rest, '.').len() > 0,
        split(stem + rest, '.')[0] == stem,
        rest.len() == 0 ==> split(stem + rest, '.').len() == 1,
        rest.len() > 0 ==> split(stem + rest, '.').len() > 1,
    decreases stem.len() + rest.len(),
{
    let text = stem + rest;
    if rest.len() > 0 {
        lemma_first_piece(stem, rest.drop_last());
        assert(text.drop_last() =~= stem + rest.drop_last());
        assert(text.last() == rest.last());
    } else if stem.len() > 0 {
        let front = stem.drop_last();
        if front.contains('.') {
            let k = choose|k: int| 0 <= k < front.len() && front[k] == '.';
            assert(stem[k] == '.');
        }
        assert(stem.last() != '.') by {
            if stem.last() == '.' {
                assert(stem[stem.len() - 1] == '.');
            }
        }
        lemma_first_piece(front, rest);
        assert(text =~= stem);
        assert(text.drop_last() =~= front + rest);
        assert(front.push(stem.last()) =~= stem);
    } else {
        assert(text =~= Seq::empty());
        assert(stem =~= Seq::empty());
    }
}

/// The name of a device is no name for a folder, in whatever case and whatever extension
/// follows it.
pub proof fn a_device_is_no_folder(stem: Seq<char>, extension: Seq<char>)
    requires
        !stem.contains('.'),
        names_device(stem),
    ensures
        !is_valid_component(stem),
        !is_valid_component(stem + seq!['.'] + extension),
{
    lemma_first_piece(stem, Seq::empty());
    assert(stem + Seq::<char>::empty() =~= stem);
    lemma_first_piece(stem, seq!['.'] + extension);
    assert(stem + (seq!['.'] + extension) =~= stem + seq!['.'] + extension);
    reveal_strlit("COM");
    reveal_strlit("LPT");
    let upper = ascii_upper(stem);
    if !(upper == "CON"@ || upper == "PRN"@ || upper == "AUX"@ || upper == "NUL"@ || upper
        == "CONIN$"@ || upper == "CONOUT$"@) {
        let digit = choose|digit: char|
            '1' <= digit <= '9' && (upper == #[trigger] "COM"@.push(digit) || upper == "LPT"@.push(
                digit,
            ));
        assert(upper.skip(3) =~= seq![digit]);
        if upper == "COM"@.push(digit) {
            assert(upper.take(3) =~= "COM"@);
        } else {
            assert(upper.take(3) =~= "LPT"@);
        }
    }
}

} // verus!
