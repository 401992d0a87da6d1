//! Rules of handle-rooted file access: names, identities, listings and errors.
use crate::text::{
    comes_before, lemma_split_pieces_hold_no_separator, text_before, text_order_is_total,
};
use crate::paths::{
    body_pieces, body_start, is_name, is_rooted, join_path, names_among, path_join, prefix_kind,
    prefix_length,
    push_names, split_root,
};
use crate::restart_manager::{decode_utf16_lossy, utf16_chars_lossy};
use crate::security::{FILE_ATTRIBUTE_DIRECTORY, FILE_ATTRIBUTE_REPARSE_POINT};
use crate::text::{
    cat2, cat4, cat6, contains_char, hex_number, owned, replace_char, split_chars, str_eq,
    to_lowercase,
};
use crate::text::{hex_padded, split, texts, unicode_lowercase, with_char_replaced};
use vstd::prelude::*;

verus! {

pub const STATUS_OBJECT_NAME_NOT_FOUND: i32 = -1073741772;

pub const STATUS_OBJECT_PATH_NOT_FOUND: i32 = -1073741766;

pub const STATUS_OBJECT_NAME_COLLISION: i32 = -1073741771;

pub const STATUS_NOT_A_DIRECTORY: i32 = -1073741565;

pub const STATUS_FILE_IS_A_DIRECTORY: i32 = -1073741638;

#[derive(Debug)]
pub enum SecureFsError {
    InvalidPath(String),
    NotFound(String),
    AlreadyExists(String),
    ReparsePoint(String),
    Io { operation: &'static str, path: String, source: String },
    Native { operation: &'static str, path: String, status: i32 },
    Rollback { operation_error: String, rollback_error: String },
}

/// A status code as eight hexadecimal digits, in two's complement.
pub open spec fn status_digits(status: i32) -> Seq<char> {
    "0x"@ + hex_padded(
        (if status < 0 {
            status + 0x1_0000_0000
        } else {
            status as int
        }) as nat,
        8,
    )
}

pub fn status_text(status: i32) -> (r: String)
    ensures
        r@ == status_digits(status),
{
    let n: u64 = if status < 0 {
        (status as i64 + 0x1_0000_0000) as u64
    } else {
        status as u64
    };
    let digits = hex_number(n, 8);
    cat2("0x", digits.as_str())
}

impl SecureFsError {
    /// The text that describes the error.
    pub open spec fn text(self) -> Seq<char> {
        match self {
            SecureFsError::InvalidPath(path) => "invalid absolute filesystem path: "@ + path@,
            SecureFsError::NotFound(path) => "filesystem entry was not found: "@ + path@,
            SecureFsError::AlreadyExists(path) => "filesystem entry already exists: "@ + path@,
            SecureFsError::ReparsePoint(path) => "reparse point refused on opened object: "@
                + path@,
            SecureFsError::Io { operation, path, source } => "Windows filesystem operation '"@
                + operation@ + "' failed for "@ + path@ + ": "@ + source@,
            SecureFsError::Native { operation, path, status } => "native filesystem operation '"@
                + operation@ + "' failed for "@ + path@ + ": NTSTATUS "@ + status_digits(status),
            SecureFsError::Rollback { operation_error, rollback_error } =>
                "secure filesystem rollback failed after '"@ + operation_error@ + "': "@
                + rollback_error@,
        }
    }

    pub fn message(&self) -> (r: String)
        ensures
            r@ == self.text(),
    {
        match self {
            SecureFsError::InvalidPath(path) => cat2(
                "invalid absolute filesystem path: ",
                path.as_str(),
            ),
            SecureFsError::NotFound(path) => cat2(
                "filesystem entry was not found: ",
                path.as_str(),
            ),
            SecureFsError::AlreadyExists(path) => cat2(
                "filesystem entry already exists: ",
                path.as_str(),
            ),
            SecureFsError::ReparsePoint(path) => cat2(
                "reparse point refused on opened object: ",
                path.as_str(),
            ),
            SecureFsError::Io { operation, path, source } => cat6(
                "Windows filesystem operation '",
                operation,
                "' failed for ",
                path.as_str(),
                ": ",
                source.as_str(),
            ),
            SecureFsError::Native { operation, path, status } => {
                let code = status_text(*status);
                cat6(
                    "native filesystem operation '",
                    operation,
                    "' failed for ",
                    path.as_str(),
                    ": NTSTATUS ",
                    code.as_str(),
                )
            },
            SecureFsError::Rollback { operation_error, rollback_error } => cat4(
                "secure filesystem rollback failed after '",
                operation_error.as_str(),
                "': ",
                rollback_error.as_str(),
            ),
        }
    }
}

/// The error that a failed native call stands for.
pub open spec fn is_native_error(
    operation: Seq<char>,
    path: Seq<char>,
    status: i32,
    e: SecureFsError,
) -> bool {
    if status == STATUS_OBJECT_NAME_NOT_FOUND || status == STATUS_OBJECT_PATH_NOT_FOUND {
        e matches SecureFsError::NotFound(p) && p@ == path
    } else if status == STATUS_OBJECT_NAME_COLLISION {
        e matches SecureFsError::AlreadyExists(p) && p@ == path
    } else if status == STATUS_NOT_A_DIRECTORY || status == STATUS_FILE_IS_A_DIRECTORY {
        e matches SecureFsError::InvalidPath(p) && p@ == path
    } else {
        e matches SecureFsError::Native { operation: o, path: p, status: s } && o@ == operation
            && p@ == path && s == status
    }
}

pub fn nt_error(operation: &'static str, path: &str, status: i32) -> (r: SecureFsError)
    ensures
        is_native_error(operation@, path@, status, r),
{
    if status == STATUS_OBJECT_NAME_NOT_FOUND || status == STATUS_OBJECT_PATH_NOT_FOUND {
        SecureFsError::NotFound(owned(path))
    } else if status == STATUS_OBJECT_NAME_COLLISION {
        SecureFsError::AlreadyExists(owned(path))
    } else if status == STATUS_NOT_A_DIRECTORY || status == STATUS_FILE_IS_A_DIRECTORY {
        SecureFsError::InvalidPath(owned(path))
    } else {
        SecureFsError::Native { operation: operation, path: owned(path), status: status }
    }
}

// ---------------------------------------------------------------------------
// Names
// ---------------------------------------------------------------------------

/// The pieces of a path between separators of either kind.
pub open spec fn path_pieces(path: Seq<char>) -> Seq<Seq<char>> {
    split(with_char_replaced(path, '/', '\\'), '\\')
}

/// A name of one component: its first piece is a plain name, what follows it are
/// only separators and `.` pieces, and it holds no colon.
pub open spec fn is_single_component(name: Seq<char>) -> bool {
    let pieces = path_pieces(name);
    &&& !name.contains(':')
    &&& pieces[0].len() > 0
    &&& pieces[0] != "."@
    &&& pieces[0] != ".."@
    &&& forall|i: int|
        1 <= i < pieces.len() ==> (#[trigger] pieces[i]).len() == 0 || pieces[i] == "."@
}

pub fn validate_component(name: &str, display_path: &str) -> (r: Result<(), SecureFsError>)
    ensures
        r is Ok <==> is_single_component(name@),
        r matches Err(e) ==> (e matches SecureFsError::InvalidPath(p) && p@ == display_path@),
{
    let even = replace_char(name, '/', '\\');
    let pieces = split_chars(even.as_str(), '\\');
    let ghost parts = path_pieces(name@);
    assert(texts(pieces@)[0] == pieces@[0]@);
    let first = pieces[0].as_str();
    if contains_char(name, ':') || first.is_empty() || str_eq(first, ".") || str_eq(first, "..") {
        return Err(SecureFsError::InvalidPath(owned(display_path)));
    }
    let mut i: usize = 1;
    while i < pieces.len()
        invariant
            1 <= i <= pieces@.len(),
            texts(pieces@) == parts,
            parts == path_pieces(name@),
            forall|k: int| 1 <= k < i ==> (#[trigger] parts[k]).len() == 0 || parts[k] == "."@,
        decreases pieces.len() - i,
    {
        assert(texts(pieces@)[i as int] == pieces@[i as int]@);
        let piece = pieces[i].as_str();
        if !piece.is_empty() && !str_eq(piece, ".") {
            assert(!(parts[i as int].len() == 0 || parts[i as int] == "."@));
            return Err(SecureFsError::InvalidPath(owned(display_path)));
        }
        i += 1;
    }
    Ok(())
}

/// The path of a child, if the name is one component.
pub fn child_display_path(parent: &str, name: &str) -> (r: Result<String, SecureFsError>)
    ensures
        match r {
            Ok(path) => is_single_component(name@) && path@ == path_join(parent@, name@),
            Err(e) => !is_single_component(name@) && (e matches SecureFsError::InvalidPath(p) && p@
                == path_join(parent@, name@)),
        },
{
    let path = join_path(parent, name);
    match validate_component(name, path.as_str()) {
        Ok(()) => Ok(path),
        Err(e) => Err(e),
    }
}

/// What stands under a name: nothing where it is not found, otherwise what the
/// attributes say that were read of the opened object.
pub fn child_kind(opened: Result<Result<u32, SecureFsError>, SecureFsError>) -> (r: Result<
    Option<SecureEntryKind>,
    SecureFsError,
>)
    ensures
        match opened {
            Ok(Ok(attributes)) => r == Result::<Option<SecureEntryKind>, SecureFsError>::Ok(
                Some(kind_of(attributes as nat)),
            ),
            Err(SecureFsError::NotFound(_)) => r == Result::<
                Option<SecureEntryKind>,
                SecureFsError,
            >::Ok(None),
            Ok(Err(e)) | Err(e) => r == Result::<Option<SecureEntryKind>, SecureFsError>::Err(e),
        },
{
    match opened {
        Ok(Ok(attributes)) => if attributes & FILE_ATTRIBUTE_DIRECTORY != 0 {
            Ok(Some(SecureEntryKind::Directory))
        } else {
            Ok(Some(SecureEntryKind::File))
        },
        Err(SecureFsError::NotFound(_)) => Ok(None),
        Ok(Err(e)) => Err(e),
        Err(e) => Err(e),
    }
}

// ---------------------------------------------------------------------------
// Identities
// ---------------------------------------------------------------------------

/// What tells one file system object from another.
#[derive(Debug, Clone, Copy, PartialEq, Eq, Structural)]
pub struct FileIdentity {
    pub volume_serial: u32,
    pub file_index: u64,
}

/// The identity that a volume serial and the two halves of an index give.
pub fn file_identity(volume_serial: u32, index_high: u32, index_low: u32) -> (r: FileIdentity)
    ensures
        r.volume_serial == volume_serial,
        r.file_index == index_high * 0x1_0000_0000 + index_low,
{
    let high: u64 = index_high as u64;
    let low: u64 = index_low as u64;
    assert((high << 32) == high * 0x1_0000_0000) by (bit_vector)
        requires
            high <= 0xffff_ffff,
    ;
    assert((high << 32) | low == (high << 32) + low) by (bit_vector)
        requires
            high <= 0xffff_ffff,
            low <= 0xffff_ffff,
    ;
    FileIdentity { volume_serial: volume_serial, file_index: (high << 32) | low }
}

fn ancestry_contains(ancestry: &Vec<FileIdentity>, id: FileIdentity) -> (r: bool)
    ensures
        r == ancestry@.contains(id),
{
    let mut i: usize = 0;
    while i < ancestry.len()
        invariant
            i <= ancestry@.len(),
            forall|k: int| 0 <= k < i ==> ancestry@[k] != id,
        decreases ancestry.len() - i,
    {
        if ancestry[i] == id {
            assert(ancestry@[i as int] == id);
            return true;
        }
        i += 1;
    }
    false
}

/// Whether a directory is inside another or is that one: the other's own identity
/// stands in its line of ancestors.
pub open spec fn is_inside(ancestry: Seq<FileIdentity>, other: Seq<FileIdentity>) -> bool {
    other.len() > 0 && ancestry.contains(other.last())
}

/// Whether two directories overlap, judged by identity.
pub open spec fn identities_overlap(a: Seq<FileIdentity>, b: Seq<FileIdentity>) -> bool {
    is_inside(b, a) || is_inside(a, b)
}

pub fn is_within(ancestry: &Vec<FileIdentity>, other: &Vec<FileIdentity>) -> (r: bool)
    ensures
        r == is_inside(ancestry@, other@),
{
    other.len() > 0 && ancestry_contains(ancestry, other[other.len() - 1])
}

pub fn overlaps(a: &Vec<FileIdentity>, b: &Vec<FileIdentity>) -> (r: bool)
    ensures
        r == identities_overlap(a@, b@),
{
    is_within(b, a) || is_within(a, b)
}

/// Overlap does not depend on the order of the two directories, and a directory
/// overlaps itself.
pub proof fn overlap_is_symmetric_and_reflexive(a: Seq<FileIdentity>, b: Seq<FileIdentity>)
    ensures
        identities_overlap(a, b) == identities_overlap(b, a),
        a.len() > 0 ==> identities_overlap(a, a),
{
    if a.len() > 0 {
        assert(a.last() == a[a.len() - 1]);
    }
}

// ---------------------------------------------------------------------------
// Directory listings
// ---------------------------------------------------------------------------

#[derive(Debug, Clone, Copy, PartialEq, Eq, Structural)]
pub enum SecureEntryKind {
    File,
    Directory,
}

/// An entry of a directory: its name in UTF-16 units and its kind.
#[derive(Debug)]
pub struct SecureDirEntry {
    pub name: Vec<u16>,
    pub kind: SecureEntryKind,
}

#[verifier::ext_equal]
pub struct EntryModel {
    pub name: Seq<u16>,
    pub kind: SecureEntryKind,
}

impl View for SecureDirEntry {
    type V = EntryModel;

    open spec fn view(&self) -> EntryModel {
        EntryModel { name: self.name@, kind: self.kind }
    }
}

pub open spec fn entry_models(v: Seq<SecureDirEntry>) -> Seq<EntryModel> {
    v.map_values(|e: SecureDirEntry| e@)
}

/// Bytes of a listing record before its name.
pub const RECORD_HEADER_BYTES: usize = 104;

/// Bytes of the smallest listing record, with its padding.
pub const RECORD_BYTES: usize = 112;

/// The little-endian number at `at`.
pub open spec fn u32_at(b: Seq<u8>, at: int) -> nat {
    (b[at] + b[at + 1] * 0x100 + b[at + 2] * 0x1_0000 + b[at + 3] * 0x100_0000) as nat
}

/// The `n` little-endian units from `at`.
pub open spec fn units_at(b: Seq<u8>, at: int, n: nat) -> Seq<u16> {
    Seq::new(n, |i: int| (b[at + 2 * i] + b[at + 2 * i + 1] * 0x100) as u16)
}

/// Why a listing was refused.
pub enum ListingFault {
    Enumeration,
    Entry,
    Offset,
    Reparse(Seq<u16>),
}

pub open spec fn is_dot_name(name: Seq<u16>) -> bool {
    name == seq![46u16] || name == seq![46u16, 46u16]
}

pub open spec fn reparse_bit(attributes: nat) -> bool {
    (attributes as u32) & FILE_ATTRIBUTE_REPARSE_POINT != 0
}

pub open spec fn kind_of(attributes: nat) -> SecureEntryKind {
    if (attributes as u32) & FILE_ATTRIBUTE_DIRECTORY != 0 {
        SecureEntryKind::Directory
    } else {
        SecureEntryKind::File
    }
}

/// The entries of a listing buffer from the record at `offset`: the records form a
/// chain, each says how far on the next one starts, and a zero ends it.
pub open spec fn listing(b: Seq<u8>, offset: int) -> Result<Seq<EntryModel>, ListingFault>
    decreases b.len() - offset,
{
    if offset < 0 || offset + RECORD_BYTES > b.len() {
        Err(ListingFault::Enumeration)
    } else {
        let next = u32_at(b, offset) as int;
        let attributes = u32_at(b, offset + 56);
        let name_bytes = u32_at(b, offset + 60) as int;
        if name_bytes % 2 != 0 || offset + RECORD_HEADER_BYTES + name_bytes > b.len() {
            Err(ListingFault::Entry)
        } else {
            let name = units_at(b, offset + RECORD_HEADER_BYTES, (name_bytes / 2) as nat);
            if !is_dot_name(name) && reparse_bit(attributes) {
                Err(ListingFault::Reparse(name))
            } else {
                let here = if is_dot_name(name) {
                    Seq::<EntryModel>::empty()
                } else {
                    seq![EntryModel { name: name, kind: kind_of(attributes) }]
                };
                if next == 0 {
                    Ok(here)
                } else if next < RECORD_HEADER_BYTES || offset + next >= b.len() {
                    Err(ListingFault::Offset)
                } else {
                    match listing(b, offset + next) {
                        Ok(rest) => Ok(here + rest),
                        Err(fault) => Err(fault),
                    }
                }
            }
        }
    }
}

/// The error of a refused listing.
pub open spec fn listing_error(directory: Seq<char>, fault: ListingFault, e: SecureFsError) -> bool {
    match fault {
        ListingFault::Enumeration => e matches SecureFsError::InvalidPath(p) && p@
            == "invalid directory enumeration for "@ + directory,
        ListingFault::Entry => e matches SecureFsError::InvalidPath(p) && p@
            == "invalid directory entry returned for "@ + directory,
        ListingFault::Offset => e matches SecureFsError::InvalidPath(p) && p@
            == "invalid directory enumeration offset for "@ + directory,
        ListingFault::Reparse(name) => e matches SecureFsError::ReparsePoint(p) && p@ == path_join(
            directory,
            utf16_chars_lossy(name),
        ),
    }
}

fn read_u32(b: &[u8], at: usize) -> (r: u32)
    requires
        at + 4 <= b@.len(),
    ensures
        r == u32_at(b@, at as int),
{
    let total: usize = b.len();
    b[at] as u32 + b[at + 1] as u32 * 0x100 + b[at + 2] as u32 * 0x1_0000 + b[at + 3] as u32
        * 0x100_0000
}

fn read_units(b: &[u8], at: usize, n: usize) -> (r: Vec<u16>)
    requires
        at + 2 * n <= b@.len(),
    ensures
        r@ == units_at(b@, at as int, n as nat),
{
    let total: usize = b.len();
    let mut out: Vec<u16> = Vec::new();
    let mut i: usize = 0;
    while i < n
        invariant
            i <= n,
            total == b@.len(),
            at + 2 * n <= b@.len(),
            out@ =~= units_at(b@, at as int, i as nat),
        decreases n - i,
    {
        out.push(b[at + 2 * i] as u16 + b[at + 2 * i + 1] as u16 * 0x100);
        i += 1;
    }
    out
}

fn dot_name(name: &Vec<u16>) -> (r: bool)
    ensures
        r == is_dot_name(name@),
{
    let r = (name.len() == 1 && name[0] == 46) || (name.len() == 2 && name[0] == 46 && name[1]
        == 46);
    proof {
        if name@.len() == 1 && name@[0] == 46 {
            assert(name@ =~= seq![46u16]);
        }
        if name@.len() == 2 && name@[0] == 46 && name@[1] == 46 {
            assert(name@ =~= seq![46u16, 46u16]);
        }
    }
    r
}

/// Appends the entries of a listing buffer. An entry that is a reparse point, or a
/// record that points outside the buffer, stops it.
pub fn parse_directory_buffer(
    buffer: &[u8],
    directory: &str,
    entries: &mut Vec<SecureDirEntry>,
) -> (r: Result<(), SecureFsError>)
    ensures
        match listing(buffer@, 0) {
            Ok(found) => r is Ok && entry_models(final(entries)@) == entry_models(old(entries)@)
                + found,
            Err(fault) => r matches Err(e) && listing_error(directory@, fault, e),
        },
        entry_models(old(entries)@).is_prefix_of(entry_models(final(entries)@)),
{
    let total: usize = buffer.len();
    let ghost before = entry_models(entries@);
    let ghost whole = listing(buffer@, 0);
    let mut offset: usize = 0;
    let ghost mut seen = Seq::<EntryModel>::empty();
    loop
        invariant
            total == buffer@.len(),
            offset <= total,
            whole == listing(buffer@, 0),
            entry_models(entries@) =~= before + seen,
            before == entry_models(old(entries)@),
            whole == (match listing(buffer@, offset as int) {
                Ok(rest) => Ok::<Seq<EntryModel>, ListingFault>(seen + rest),
                Err(fault) => Err::<Seq<EntryModel>, ListingFault>(fault),
            }),
        decreases total - offset,
    {
        if total < RECORD_BYTES || offset > total - RECORD_BYTES {
            return Err(
                SecureFsError::InvalidPath(cat2("invalid directory enumeration for ", directory)),
            );
        }
        let next: usize = read_u32(buffer, offset) as usize;
        let attributes: u32 = read_u32(buffer, offset + 56);
        let name_bytes: usize = read_u32(buffer, offset + 60) as usize;
        if name_bytes % 2 != 0 || name_bytes > total - offset - RECORD_HEADER_BYTES {
            return Err(
                SecureFsError::InvalidPath(cat2("invalid directory entry returned for ", directory)),
            );
        }
        let name = read_units(buffer, offset + RECORD_HEADER_BYTES, name_bytes / 2);
        if !dot_name(&name) {
            if attributes & FILE_ATTRIBUTE_REPARSE_POINT != 0 {
                let text = decode_utf16_lossy(name.as_slice());
                return Err(SecureFsError::ReparsePoint(join_path(directory, text.as_str())));
            }
            let kind = if attributes & FILE_ATTRIBUTE_DIRECTORY != 0 {
                SecureEntryKind::Directory
            } else {
                SecureEntryKind::File
            };
            let ghost model = EntryModel { name: name@, kind: kind };
            proof {
                seen = seen.push(model);
            }
            let ghost earlier = entry_models(entries@);
            entries.push(SecureDirEntry { name: name, kind: kind });
            assert(entry_models(entries@) =~= earlier.push(model));
        }
        if next == 0 {
            proof {
                assert(seen =~= whole->Ok_0);
            }
            return Ok(());
        }
        if next < RECORD_HEADER_BYTES || next >= total - offset {
            return Err(
                SecureFsError::InvalidPath(
                    cat2("invalid directory enumeration offset for ", directory),
                ),
            );
        }
        proof {
            let rest = listing(buffer@, offset + next);
            if rest is Ok {
                assert(seen + rest->Ok_0 =~= whole->Ok_0);
            }
        }
        offset += next;
    }
}

// ---------------------------------------------------------------------------
// Order of a listing
// ---------------------------------------------------------------------------

/// The text by which entries are ordered.
pub open spec fn sort_key(entry: EntryModel) -> Seq<char> {
    unicode_lowercase(utf16_chars_lossy(entry.name))
}

/// Whether `output` is `input` in the order of `perm`, ascending by key, with
/// entries of equal keys in their given order.
pub open spec fn is_stable_order(
    input: Seq<EntryModel>,
    output: Seq<EntryModel>,
    perm: Seq<int>,
) -> bool {
    &&& perm.len() == input.len()
    &&& output.len() == input.len()
    &&& perm.no_duplicates()
    &&& forall|k: int| 0 <= k < perm.len() ==> 0 <= #[trigger] perm[k] < input.len()
    &&& forall|k: int| 0 <= k < output.len() ==> #[trigger] output[k] == input[perm[k]]
    &&& forall|i: int, j: int|
        #![trigger perm[i], perm[j]]
        0 <= i < j < perm.len() ==> !text_before(sort_key(input[perm[j]]), sort_key(input[perm[i]]))
            && (sort_key(input[perm[i]]) == sort_key(input[perm[j]]) ==> perm[i] < perm[j])
}

/// Whether a listing is another one in order.
pub open spec fn is_ordered_listing(input: Seq<EntryModel>, output: Seq<EntryModel>) -> bool {
    exists|perm: Seq<int>| is_stable_order(input, output, perm)
}

proof fn lemma_not_before_transitive(a: Seq<char>, b: Seq<char>, c: Seq<char>)
    requires
        !text_before(b, a),
        !text_before(c, b),
    ensures
        !text_before(c, a),
    decreases a.len() + b.len() + c.len(),
{
    if a.len() > 0 && b.len() > 0 && c.len() > 0 && a[0] == b[0] && b[0] == c[0] {
        lemma_not_before_transitive(a.drop_first(), b.drop_first(), c.drop_first());
    }
}

/// Copies UTF-16 units.
pub fn copy_units(units: &Vec<u16>) -> (r: Vec<u16>)
    ensures
        r@ == units@,
{
    let mut out: Vec<u16> = Vec::new();
    let mut i: usize = 0;
    while i < units.len()
        invariant
            i <= units@.len(),
            out@ =~= units@.take(i as int),
        decreases units.len() - i,
    {
        out.push(units[i]);
        i += 1;
    }
    out
}

/// Orders a listing by lower-cased name; entries of equal names keep their order.
pub fn sort_entries(entries: &Vec<SecureDirEntry>) -> (r: Vec<SecureDirEntry>)
    ensures
        is_ordered_listing(entry_models(entries@), entry_models(r@)),
{
    let ghost input = entry_models(entries@);
    let mut keys: Vec<String> = Vec::new();
    let mut order: Vec<usize> = Vec::new();
    let mut i: usize = 0;
    while i < entries.len()
        invariant
            i <= entries@.len(),
            input == entry_models(entries@),
            keys@.len() == i,
            order@.len() == i,
            forall|k: int| 0 <= k < i ==> (#[trigger] keys@[k])@ == sort_key(input[k]),
            forall|k: int| 0 <= k < i ==> (#[trigger] order@[k]) < i,
            order@.no_duplicates(),
            forall|a: int, b: int|
                #![trigger order@[a], order@[b]]
                0 <= a < b < i ==> !text_before(
                    sort_key(input[order@[b] as int]),
                    sort_key(input[order@[a] as int]),
                ) && (sort_key(input[order@[a] as int]) == sort_key(input[order@[b] as int])
                    ==> order@[a] < order@[b]),
        decreases entries.len() - i,
    {
        let text = decode_utf16_lossy(entries[i].name.as_slice());
        let key = to_lowercase(text.as_str());
        assert(input[i as int] == entries@[i as int]@);
        let mut at: usize = i;
        while at > 0 && comes_before(key.as_str(), keys[order[at - 1]].as_str())
            invariant
                at <= i,
                i < entries@.len(),
                input == entry_models(entries@),
                keys@.len() == i,
                order@.len() == i,
                key@ == sort_key(input[i as int]),
                forall|k: int| 0 <= k < i ==> (#[trigger] keys@[k])@ == sort_key(input[k]),
                forall|k: int| 0 <= k < i ==> (#[trigger] order@[k]) < i,
                forall|k: int|
                    at <= k < i ==> text_before(key@, sort_key(input[(#[trigger] order@[k]) as int])),
            decreases at,
        {
            assert(keys@[order@[at - 1] as int]@ == sort_key(input[order@[at - 1] as int]));
            at -= 1;
        }
        let ghost old_order = order@;
        proof {
            if at > 0 {
                assert(keys@[order@[at - 1] as int]@ == sort_key(input[order@[at - 1] as int]));
            }
            assert forall|k: int| 0 <= k < at implies !text_before(
                key@,
                sort_key(input[(#[trigger] old_order[k]) as int]),
            ) by {
                if k < at - 1 {
                    assert(old_order[at - 1] < i);
                    lemma_not_before_transitive(
                        sort_key(input[old_order[k] as int]),
                        sort_key(input[old_order[at - 1] as int]),
                        key@,
                    );
                }
            }
        }
        order.insert(at, i);
        keys.push(key);
        proof {
            assert forall|a: int, b: int|
                #![trigger order@[a], order@[b]]
                0 <= a < b < i + 1 implies !text_before(
                sort_key(input[order@[b] as int]),
                sort_key(input[order@[a] as int]),
            ) && (sort_key(input[order@[a] as int]) == sort_key(input[order@[b] as int])
                ==> order@[a] < order@[b]) by {
                if b == at {
                    assert(order@[a] == old_order[a]);
                } else if a == at {
                    let y = sort_key(input[old_order[b - 1] as int]);
                    assert(order@[b] == old_order[b - 1]);
                    text_order_is_total(sort_key(input[i as int]), y);
                } else {
                    let a0 = if a < at { a } else { a - 1 };
                    let b0 = if b < at { b } else { b - 1 };
                    assert(order@[a] == old_order[a0]);
                    assert(order@[b] == old_order[b0]);
                }
            }
            assert(order@.no_duplicates()) by {
                assert forall|a: int, b: int|
                    0 <= a < order@.len() && 0 <= b < order@.len() && a != b implies order@[a]
                    != order@[b] by {
                    let a0 = if a < at { a } else { a - 1 };
                    let b0 = if b < at { b } else { b - 1 };
                    if a != at {
                        assert(order@[a] == old_order[a0]);
                        assert(old_order[a0] < i);
                    }
                    if b != at {
                        assert(order@[b] == old_order[b0]);
                        assert(old_order[b0] < i);
                    }
                }
            }
        }
        i += 1;
    }
    let ghost perm = order@.map_values(|n: usize| n as int);
    let mut out: Vec<SecureDirEntry> = Vec::new();
    let mut k: usize = 0;
    while k < order.len()
        invariant
            k <= order@.len(),
            order@.len() == entries@.len(),
            input == entry_models(entries@),
            forall|j: int| 0 <= j < order@.len() ==> (#[trigger] order@[j]) < entries@.len(),
            out@.len() == k,
            forall|j: int| 0 <= j < k ==> (#[trigger] out@[j])@ == input[order@[j] as int],
        decreases order.len() - k,
    {
        let at: usize = order[k];
        let entry = SecureDirEntry { name: copy_units(&entries[at].name), kind: entries[at].kind };
        assert(entry@ =~= input[at as int]);
        out.push(entry);
        k += 1;
    }
    proof {
        let output = entry_models(out@);
        assert forall|j: int| 0 <= j < output.len() implies #[trigger] output[j]
            == input[perm[j]] by {
            assert(out@[j]@ == input[order@[j] as int]);
        }
        assert forall|a: int, b: int|
            0 <= a < perm.len() && 0 <= b < perm.len() && a != b implies perm[a] != perm[b] by {
            assert(order@[a] != order@[b]);
        }
        assert forall|a: int, b: int|
            #![trigger perm[a], perm[b]]
            0 <= a < b < perm.len() implies !text_before(
            sort_key(input[perm[b]]),
            sort_key(input[perm[a]]),
        ) && (sort_key(input[perm[a]]) == sort_key(input[perm[b]]) ==> perm[a] < perm[b]) by {
            assert(perm[a] == order@[a] && perm[b] == order@[b]);
        }
        assert(is_stable_order(input, output, perm));
    }
    out
}

// ---------------------------------------------------------------------------
// Opening and creating, step by step
// ---------------------------------------------------------------------------

/// The native call whose outcome is awaited while a directory is opened or created.
#[derive(Debug)]
pub enum DirectoryStage {
    Opening,
    Creating,
    /// Opening again what another process created in between.
    Reopening,
    /// Checking that the created object is no reparse point, and reading its identity.
    Inspecting,
    /// Duplicating the handle by which the object can be removed again.
    Duplicating,
    /// Removing the created object because of an error.
    Deleting(SecureFsError),
}

#[derive(Debug)]
pub enum DirectoryStep {
    Continue(DirectoryStage),
    /// The directory was there.
    Existing,
    /// The directory was created, and the caller owns its removal.
    Created,
    Failed(SecureFsError),
}

/// The error after the removal of a created object.
pub open spec fn removal_error(
    operation_error: SecureFsError,
    removal: Result<(), SecureFsError>,
    error: SecureFsError,
) -> bool {
    match removal {
        Ok(_) => error == operation_error,
        Err(rollback) => error matches SecureFsError::Rollback {
            operation_error: o,
            rollback_error: r,
        } && o@ == operation_error.text() && r@ == rollback.text(),
    }
}

fn after_removal(operation_error: SecureFsError, removal: Result<(), SecureFsError>) -> (r:
    SecureFsError)
    ensures
        removal_error(operation_error, removal, r),
{
    match removal {
        Ok(()) => operation_error,
        Err(rollback) => SecureFsError::Rollback {
            operation_error: operation_error.message(),
            rollback_error: rollback.message(),
        },
    }
}

/// What follows the outcome of a call while a directory is opened or created.
pub open spec fn directory_follows(
    stage: DirectoryStage,
    path: Seq<char>,
    outcome: Result<(), SecureFsError>,
    step: DirectoryStep,
) -> bool {
    match stage {
        DirectoryStage::Opening => match outcome {
            Ok(_) => step is Existing,
            Err(e) => if e is NotFound {
                step == DirectoryStep::Continue(DirectoryStage::Creating)
            } else {
                step == DirectoryStep::Failed(e)
            },
        },
        DirectoryStage::Creating => match outcome {
            Ok(_) => step == DirectoryStep::Continue(DirectoryStage::Inspecting),
            Err(e) => if e is AlreadyExists {
                step == DirectoryStep::Continue(DirectoryStage::Reopening)
            } else {
                step == DirectoryStep::Failed(e)
            },
        },
        DirectoryStage::Reopening => match outcome {
            Ok(_) => step matches DirectoryStep::Failed(SecureFsError::AlreadyExists(p)) && p@
                == path,
            Err(e) => step == DirectoryStep::Failed(e),
        },
        DirectoryStage::Inspecting => match outcome {
            Ok(_) => step == DirectoryStep::Continue(DirectoryStage::Duplicating),
            Err(e) => step == DirectoryStep::Continue(DirectoryStage::Deleting(e)),
        },
        DirectoryStage::Duplicating => match outcome {
            Ok(_) => step is Created,
            Err(e) => step == DirectoryStep::Continue(DirectoryStage::Deleting(e)),
        },
        DirectoryStage::Deleting(e) => step matches DirectoryStep::Failed(f) && removal_error(
            e,
            outcome,
            f,
        ),
    }
}

/// Decides the next call of opening or creating a directory. An object that was
/// created is handed to the caller or removed; it is never left behind.
pub fn open_or_create_directory(
    stage: DirectoryStage,
    path: &str,
    outcome: Result<(), SecureFsError>,
) -> (r: DirectoryStep)
    ensures
        directory_follows(stage, path@, outcome, r),
        stage is Inspecting || stage is Duplicating ==> !(r is Failed),
{
    match stage {
        DirectoryStage::Opening => match outcome {
            Ok(()) => DirectoryStep::Existing,
            Err(SecureFsError::NotFound(_)) => DirectoryStep::Continue(DirectoryStage::Creating),
            Err(e) => DirectoryStep::Failed(e),
        },
        DirectoryStage::Creating => match outcome {
            Ok(()) => DirectoryStep::Continue(DirectoryStage::Inspecting),
            Err(SecureFsError::AlreadyExists(_)) => DirectoryStep::Continue(
                DirectoryStage::Reopening,
            ),
            Err(e) => DirectoryStep::Failed(e),
        },
        DirectoryStage::Reopening => match outcome {
            Ok(()) => DirectoryStep::Failed(SecureFsError::AlreadyExists(owned(path))),
            Err(e) => DirectoryStep::Failed(e),
        },
        DirectoryStage::Inspecting => match outcome {
            Ok(()) => DirectoryStep::Continue(DirectoryStage::Duplicating),
            Err(e) => DirectoryStep::Continue(DirectoryStage::Deleting(e)),
        },
        DirectoryStage::Duplicating => match outcome {
            Ok(()) => DirectoryStep::Created,
            Err(e) => DirectoryStep::Continue(DirectoryStage::Deleting(e)),
        },
        DirectoryStage::Deleting(e) => DirectoryStep::Failed(after_removal(e, outcome)),
    }
}

/// The native call whose outcome is awaited while a file is created.
#[derive(Debug)]
pub enum FileStage {
    Creating,
    /// Opening what is in the way, and checking that it is no reparse point.
    Probing,
    Inspecting,
    Duplicating,
    Deleting(SecureFsError),
}

#[derive(Debug)]
pub enum FileStep {
    Continue(FileStage),
    Created,
    Failed(SecureFsError),
}

/// What follows the outcome of a call while a file is created.
pub open spec fn file_follows(
    stage: FileStage,
    path: Seq<char>,
    outcome: Result<(), SecureFsError>,
    step: FileStep,
) -> bool {
    match stage {
        FileStage::Creating => match outcome {
            Ok(_) => step == FileStep::Continue(FileStage::Inspecting),
            Err(e) => if e is AlreadyExists {
                step == FileStep::Continue(FileStage::Probing)
            } else {
                step == FileStep::Failed(e)
            },
        },
        FileStage::Probing => match outcome {
            Err(e) if !(e is NotFound) => step == FileStep::Failed(e),
            _ => step matches FileStep::Failed(SecureFsError::AlreadyExists(p)) && p@ == path,
        },
        FileStage::Inspecting => match outcome {
            Ok(_) => step == FileStep::Continue(FileStage::Duplicating),
            Err(e) => step == FileStep::Continue(FileStage::Deleting(e)),
        },
        FileStage::Duplicating => match outcome {
            Ok(_) => step is Created,
            Err(e) => step == FileStep::Continue(FileStage::Deleting(e)),
        },
        FileStage::Deleting(e) => step matches FileStep::Failed(f) && removal_error(e, outcome, f),
    }
}

/// Decides the next call of creating a file. What exists is never overwritten, and
/// an object that was created is handed to the caller or removed.
pub fn create_file(stage: FileStage, path: &str, outcome: Result<(), SecureFsError>) -> (r:
    FileStep)
    ensures
        file_follows(stage, path@, outcome, r),
        stage is Inspecting || stage is Duplicating ==> !(r is Failed),
{
    match stage {
        FileStage::Creating => match outcome {
            Ok(()) => FileStep::Continue(FileStage::Inspecting),
            Err(SecureFsError::AlreadyExists(_)) => FileStep::Continue(FileStage::Probing),
            Err(e) => FileStep::Failed(e),
        },
        FileStage::Probing => match outcome {
            Ok(()) => FileStep::Failed(SecureFsError::AlreadyExists(owned(path))),
            Err(SecureFsError::NotFound(_)) => FileStep::Failed(
                SecureFsError::AlreadyExists(owned(path)),
            ),
            Err(e) => FileStep::Failed(e),
        },
        FileStage::Inspecting => match outcome {
            Ok(()) => FileStep::Continue(FileStage::Duplicating),
            Err(e) => FileStep::Continue(FileStage::Deleting(e)),
        },
        FileStage::Duplicating => match outcome {
            Ok(()) => FileStep::Created,
            Err(e) => FileStep::Continue(FileStage::Deleting(e)),
        },
        FileStage::Deleting(e) => FileStep::Failed(after_removal(e, outcome)),
    }
}

/// The first failure of a list of removals.
pub open spec fn first_failure(removals: Seq<Result<(), SecureFsError>>) -> Option<SecureFsError>
    decreases removals.len(),
{
    if removals.len() == 0 {
        None
    } else {
        match first_failure(removals.drop_last()) {
            Some(e) => Some(e),
            None => match removals.last() {
                Ok(_) => None,
                Err(e) => Some(e),
            },
        }
    }
}

/// The text of the first failure, once every removal was tried.
pub fn rollback_created(removals: &Vec<Result<(), SecureFsError>>) -> (r: Option<String>)
    ensures
        match first_failure(removals@) {
            Some(e) => r matches Some(text) && text@ == e.text(),
            None => r is None,
        },
{
    let mut first: Option<String> = None;
    let mut i: usize = 0;
    assert(removals@.take(0) =~= Seq::<Result<(), SecureFsError>>::empty());
    while i < removals.len()
        invariant
            i <= removals@.len(),
            match first_failure(removals@.take(i as int)) {
                Some(e) => first matches Some(text) && text@ == e.text(),
                None => first is None,
            },
        decreases removals.len() - i,
    {
        assert(removals@.take(i + 1).drop_last() =~= removals@.take(i as int));
        if first.is_none() {
            match &removals[i] {
                Ok(()) => {},
                Err(e) => {
                    first = Some(e.message());
                },
            }
        }
        i += 1;
    }
    assert(removals@.take(i as int) =~= removals@);
    first
}

/// The error of opening an absolute path, once the components created on the way
/// were removed.
pub fn open_absolute_failure(
    error: SecureFsError,
    removals: &Vec<Result<(), SecureFsError>>,
) -> (r: SecureFsError)
    ensures
        match first_failure(removals@) {
            None => r == error,
            Some(e) => r matches SecureFsError::Rollback { operation_error: o, rollback_error: b }
                && o@ == error.text() && b@ == e.text(),
        },
{
    match rollback_created(removals) {
        None => error,
        Some(rollback) => SecureFsError::Rollback {
            operation_error: error.message(),
            rollback_error: rollback,
        },
    }
}

/// Whether a path can be opened from its root down: it has a prefix and a root, and no
/// component behind them is a step up or, where dots are components, on the spot.
pub open spec fn descends(path: Seq<char>) -> bool {
    &&& !(prefix_kind(path) is Absent)
    &&& is_rooted(path)
    &&& !climbs(names_below(path))
}

/// Whether components leave the way down from a root.
pub open spec fn climbs(names: Seq<Seq<char>>) -> bool {
    exists|i: int| 0 <= i < names.len() && !is_name(#[trigger] names[i])
}

/// The components below the root of a path.
pub open spec fn names_below(path: Seq<char>) -> Seq<Seq<char>> {
    names_among(body_pieces(path), prefix_kind(path).is_verbatim())
}

/// The text of the root: the prefix and a backslash.
pub open spec fn root_text(path: Seq<char>) -> Seq<char> {
    path.take(prefix_length(path)) + seq!['\\']
}

/// Splits an absolute path into its root and the names below it.
pub fn split_absolute(path: &str) -> (r: Result<(String, Vec<String>), SecureFsError>)
    ensures
        match r {
            Ok((root, names)) => descends(path@) && root@ == root_text(path@) && texts(names@)
                == names_below(path@),
            Err(e) => !descends(path@) && (e matches SecureFsError::InvalidPath(p) && p@ == path@),
        },
{
    let (root, pieces, verbatim) = match split_root(path) {
        Some(parts) => parts,
        None => {
            return Err(SecureFsError::InvalidPath(owned(path)));
        },
    };
    let mut names: Vec<String> = Vec::new();
    push_names(&mut names, &pieces, verbatim);
    assert(texts(names@) =~= names_below(path@));
    let mut i: usize = 0;
    while i < names.len()
        invariant
            i <= names@.len(),
            texts(names@) == names_below(path@),
            forall|k: int| 0 <= k < i ==> is_name(#[trigger] names_below(path@)[k]),
        decreases names.len() - i,
    {
        assert(texts(names@)[i as int] == names@[i as int]@);
        if str_eq(names[i].as_str(), ".") || str_eq(names[i].as_str(), "..") {
            assert(!is_name(names_below(path@)[i as int]));
            return Err(SecureFsError::InvalidPath(owned(path)));
        }
        i += 1;
    }
    Ok((root, names))
}

/// A native failure keeps its meaning: what is missing is told as missing, what is there
/// already as there already, and every other status is told by its number or refused as a
/// path.
pub proof fn a_native_status_keeps_its_meaning(
    operation: Seq<char>,
    path: Seq<char>,
    status: i32,
    e: SecureFsError,
)
    requires
        is_native_error(operation, path, status, e),
    ensures
        e is NotFound <==> status == -1073741772 || status == -1073741766,
        e is AlreadyExists <==> status == -1073741771,
        e is InvalidPath <==> status == -1073741565 || status == -1073741638,
        e matches SecureFsError::Native { status: s, .. } ==> s == status,
        e is NotFound || e is AlreadyExists || e is InvalidPath || e is Native,
{
}

/// A file is told to be created only where nothing stood under its name and the new object was
/// looked at; once it is created, a failure leads to its removal, and the failure is kept.
pub proof fn a_new_file_is_looked_at_or_removed(
    stage: FileStage,
    path: Seq<char>,
    outcome: Result<(), SecureFsError>,
    step: FileStep,
)
    requires
        file_follows(stage, path, outcome, step),
    ensures
        step is Created ==> stage is Duplicating && outcome is Ok,
        step == FileStep::Continue(FileStage::Duplicating) ==> stage is Inspecting && outcome is Ok,
        step == FileStep::Continue(FileStage::Inspecting) ==> stage is Creating && outcome is Ok,
        (stage is Inspecting || stage is Duplicating) && outcome is Err ==> step
            == FileStep::Continue(FileStage::Deleting(outcome->Err_0)),
        stage is Creating && (outcome matches Err(e) && !(e is AlreadyExists)) ==> step
            == FileStep::Failed(outcome->Err_0),
        stage is Probing ==> step is Failed,
        stage matches FileStage::Deleting(e) ==> (step matches FileStep::Failed(f) && (outcome is Ok
            ==> f == e) && (outcome is Err ==> f is Rollback)),
{
}

/// A directory is told to be there already only where it was opened, and to be created only
/// where it was missing and the new object was looked at; what another created meanwhile is
/// never taken for one's own.
pub proof fn a_new_directory_is_looked_at_or_removed(
    stage: DirectoryStage,
    path: Seq<char>,
    outcome: Result<(), SecureFsError>,
    step: DirectoryStep,
)
    requires
        directory_follows(stage, path, outcome, step),
    ensures
        step is Existing ==> stage is Opening && outcome is Ok,
        step is Created ==> stage is Duplicating && outcome is Ok,
        step == DirectoryStep::Continue(DirectoryStage::Creating) ==> stage is Opening && (
        outcome matches Err(e) && e is NotFound),
        step == DirectoryStep::Continue(DirectoryStage::Inspecting) ==> stage is Creating
            && outcome is Ok,
        step == DirectoryStep::Continue(DirectoryStage::Duplicating) ==> stage is Inspecting
            && outcome is Ok,
        (stage is Inspecting || stage is Duplicating) && outcome is Err ==> step
            == DirectoryStep::Continue(DirectoryStage::Deleting(outcome->Err_0)),
        stage is Reopening ==> step is Failed,
        stage matches DirectoryStage::Deleting(e) ==> (step matches DirectoryStep::Failed(f) && (
        outcome is Ok ==> f == e) && (outcome is Err ==> f is Rollback)),
{
}

/// Whether the records of a buffer, followed from one place, come by another.
pub open spec fn comes_by(b: Seq<u8>, from: int, at: int) -> bool
    decreases b.len() - from,
{
    if from < 0 || from >= b.len() {
        false
    } else {
        let next = u32_at(b, from) as int;
        from == at || (0 < next && from + next < b.len() && comes_by(b, from + next, at))
    }
}

/// A listing that is accepted holds every record of the buffer, by its own name and kind,
/// save the directory itself and the one above it, and no link is among them.
pub proof fn a_listing_holds_every_record(b: Seq<u8>, from: int, at: int)
    requires
        comes_by(b, from, at),
        listing(b, from) is Ok,
    ensures
        ({
            let name = units_at(b, at + 104, (u32_at(b, at + 60) / 2) as nat);
            let attributes = u32_at(b, at + 56) as u32;
            let found = listing(b, from)->Ok_0;
            is_dot_name(name) || (attributes & 0x400 == 0 && found.contains(
                EntryModel {
                    name: name,
                    kind: if attributes & 0x10 != 0 {
                        SecureEntryKind::Directory
                    } else {
                        SecureEntryKind::File
                    },
                },
            ))
        }),
    decreases b.len() - from,
{
    let name = units_at(b, at + 104, (u32_at(b, at + 60) / 2) as nat);
    let attributes = u32_at(b, at + 56) as u32;
    let entry = EntryModel {
        name: name,
        kind: if attributes & 0x10 != 0 {
            SecureEntryKind::Directory
        } else {
            SecureEntryKind::File
        },
    };
    let found = listing(b, from)->Ok_0;
    let next = u32_at(b, from) as int;
    if from == at {
        if !is_dot_name(name) {
            assert(found[0] == entry);
        }
    } else {
        a_listing_holds_every_record(b, from + next, at);
        if !is_dot_name(name) {
            let rest = listing(b, from + next)->Ok_0;
            let i = choose|i: int| 0 <= i < rest.len() && rest[i] == entry;
            assert(found[found.len() - rest.len() + i] == entry);
        }
    }
}

/// An ordered listing holds what was listed and nothing else, each name before those that
/// come behind it in the order of the alphabet.
pub proof fn an_ordered_listing_loses_nothing(
    input: Seq<EntryModel>,
    output: Seq<EntryModel>,
    entry: EntryModel,
)
    requires
        is_ordered_listing(input, output),
    ensures
        output.len() == input.len(),
        output.contains(entry) <==> input.contains(entry),
        forall|i: int, j: int|
            0 <= i < j < output.len() ==> !text_before(
                sort_key(#[trigger] output[j]),
                sort_key(#[trigger] output[i]),
            ),
{
    let perm = choose|perm: Seq<int>| is_stable_order(input, output, perm);
    let n = input.len() as int;
    if output.contains(entry) {
        let k = choose|k: int| 0 <= k < output.len() && output[k] == entry;
        assert(input[perm[k]] == entry);
    }
    if input.contains(entry) {
        let i = choose|i: int| 0 <= i < input.len() && input[i] == entry;
        let all = vstd::set_lib::set_int_range(0, n);
        vstd::set_lib::lemma_int_range(0, n);
        perm.unique_seq_to_set();
        assert(perm.to_set().subset_of(all)) by {
            assert forall|x: int| perm.to_set().contains(x) implies all.contains(x) by {
                let k = choose|k: int| 0 <= k < perm.len() && perm[k] == x;
                assert(0 <= perm[k] < input.len());
            }
        }
        vstd::set_lib::lemma_subset_equality(perm.to_set(), all);
        assert(perm.to_set().contains(i));
        let k = choose|k: int| 0 <= k < perm.len() && perm[k] == i;
        assert(output[k] == entry);
    }
    assert forall|i: int, j: int| 0 <= i < j < output.len() implies !text_before(
        sort_key(#[trigger] output[j]),
        sort_key(#[trigger] output[i]),
    ) by {
        assert(output[i] == input[perm[i]] && output[j] == input[perm[j]]);
    }
}

proof fn lemma_names_are_pieces(pieces: Seq<Seq<char>>, with_dots: bool, i: int)
    requires
        0 <= i < names_among(pieces, with_dots).len(),
    ensures
        names_among(pieces, with_dots)[i].len() > 0,
        pieces.contains(names_among(pieces, with_dots)[i]),
    decreases pieces.len(),
{
    let front = names_among(pieces.drop_last(), with_dots);
    if i < front.len() {
        lemma_names_are_pieces(pieces.drop_last(), with_dots, i);
        let k = choose|k: int|
            0 <= k < pieces.drop_last().len() && pieces.drop_last()[k] == front[i];
        assert(pieces[k] == front[i]);
    } else {
        assert(pieces[pieces.len() - 1] == pieces.last());
    }
}

/// A path that is opened from the root of its volume goes down at each step: no name on the
/// way is empty, stays where it is, climbs, or holds a separator.
pub proof fn a_descent_never_climbs(path: Seq<char>, i: int)
    requires
        descends(path),
        0 <= i < names_below(path).len(),
    ensures
        names_below(path)[i].len() > 0,
        names_below(path)[i] != "."@,
        names_below(path)[i] != ".."@,
        !names_below(path)[i].contains('\\'),
        !(prefix_kind(path) is Absent),
        is_rooted(path),
{
    let pieces = body_pieces(path);
    lemma_names_are_pieces(pieces, prefix_kind(path).is_verbatim(), i);
    let name = names_below(path)[i];
    assert(is_name(name));
    let k = choose|k: int| 0 <= k < pieces.len() && pieces[k] == name;
    let body = path.skip(body_start(path));
    if prefix_kind(path).is_verbatim() {
        lemma_split_pieces_hold_no_separator(body, '\\');
    } else {
        lemma_split_pieces_hold_no_separator(with_char_replaced(body, '/', '\\'), '\\');
    }
    assert(!pieces[k].contains('\\'));
}

} // verus!
