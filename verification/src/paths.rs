//! Windows path rules over plain text.
use crate::text::{
    ascii_upper, cat2, cat3, char_is_alphabetic, chars_of, copy_range, has_prefix,
    is_ascii_alphabetic, join, joined, owned, replace_char, split, split_chars,
    str_eq, texts, to_ascii_upper, with_char_replaced,
};
use vstd::prelude::*;

verus! {

// ---------------------------------------------------------------------------
// What stands in front of a path
// ---------------------------------------------------------------------------

pub open spec fn is_separator(c: char) -> bool {
    c == '\\' || c == '/'
}

pub fn separator(c: char) -> (r: bool)
    ensures
        r == is_separator(c),
{
    c == '\\' || c == '/'
}

/// Whether a character ends a component: behind a verbatim prefix only a backslash does.
pub open spec fn separates(c: char, verbatim: bool) -> bool {
    c == '\\' || (!verbatim && c == '/')
}

/// The place of the first separator at or behind `from`, or the length.
pub open spec fn next_separator(p: Seq<char>, from: int, verbatim: bool) -> int
    decreases p.len() - from,
{
    if from < 0 || from >= p.len() || separates(p[from], verbatim) {
        from
    } else {
        next_separator(p, from + 1, verbatim)
    }
}

/// What a path starts with.
#[derive(Debug, Clone, Copy, PartialEq, Eq, Structural)]
pub enum PathPrefix {
    Absent,
    /// `C:`
    Drive,
    /// `\\server\share`
    Share,
    /// `\\.\device`
    Device,
    /// `\\?\name`
    Verbatim,
    /// `\\?\C:`
    VerbatimDrive,
    /// `\\?\UNC\server\share`
    VerbatimShare,
}

impl PathPrefix {
    pub open spec fn is_verbatim(self) -> bool {
        self is Verbatim || self is VerbatimDrive || self is VerbatimShare
    }

    fn verbatim(self) -> (r: bool)
        ensures
            r == self.is_verbatim(),
    {
        match self {
            PathPrefix::Verbatim | PathPrefix::VerbatimDrive | PathPrefix::VerbatimShare => true,
            _ => false,
        }
    }
}

/// Whether a drive letter and its colon stand at a place.
pub open spec fn has_drive(p: Seq<char>, at: int) -> bool {
    p.len() >= at + 2 && is_ascii_alphabetic(p[at]) && p[at + 1] == ':'
}

/// Whether a path starts with two separators, a server name, a separator and a share
/// name.
pub open spec fn has_share(p: Seq<char>) -> bool {
    &&& p.len() >= 2
    &&& is_separator(p[0])
    &&& is_separator(p[1])
    &&& {
        let server_end = next_separator(p, 2, false);
        server_end > 2 && server_end < p.len() && next_separator(p, server_end + 1, false)
            > server_end + 1
    }
}

/// Whether a path starts in the space of devices.
pub open spec fn has_device(p: Seq<char>) -> bool {
    p.len() >= 4 && is_separator(p[0]) && is_separator(p[1]) && p[2] == '.' && is_separator(p[3])
}

/// What a path starts with. A verbatim prefix is spelled with backslashes; its drive
/// stands alone between separators.
pub open spec fn prefix_kind(p: Seq<char>) -> PathPrefix {
    if has_prefix(p, r"\\?\"@) {
        if p.len() >= 8 && p[4] == 'U' && p[5] == 'N' && p[6] == 'C' && is_separator(p[7]) {
            PathPrefix::VerbatimShare
        } else if has_drive(p, 4) && (p.len() == 6 || is_separator(p[6])) {
            PathPrefix::VerbatimDrive
        } else {
            PathPrefix::Verbatim
        }
    } else if has_device(p) {
        PathPrefix::Device
    } else if has_share(p) {
        PathPrefix::Share
    } else if has_drive(p, 0) {
        PathPrefix::Drive
    } else {
        PathPrefix::Absent
    }
}

/// Where a server and its share end; a share without a name is none.
pub open spec fn share_end(p: Seq<char>, from: int, verbatim: bool) -> int {
    let server_end = next_separator(p, from, verbatim);
    let end = next_separator(p, server_end + 1, verbatim);
    if server_end < p.len() && end > server_end + 1 {
        end
    } else {
        server_end
    }
}

/// How many characters the prefix of a path takes.
pub open spec fn prefix_length(p: Seq<char>) -> int {
    match prefix_kind(p) {
        PathPrefix::Absent => 0,
        PathPrefix::Drive => 2,
        PathPrefix::Share => share_end(p, 2, false),
        PathPrefix::Device => next_separator(p, 4, false),
        PathPrefix::Verbatim => next_separator(p, 4, true),
        PathPrefix::VerbatimDrive => 6,
        PathPrefix::VerbatimShare => share_end(p, 8, true),
    }
}

/// Whether a separator stands right behind the prefix.
pub open spec fn has_root_separator(p: Seq<char>) -> bool {
    p.len() > prefix_length(p) && is_separator(p[prefix_length(p)])
}

/// Where the components behind prefix and root start.
pub open spec fn body_start(p: Seq<char>) -> int {
    if has_root_separator(p) {
        prefix_length(p) + 1
    } else {
        prefix_length(p)
    }
}

/// Whether a path is absolute: a drive needs a root behind it, every other prefix is one.
pub open spec fn is_absolute_path(p: Seq<char>) -> bool {
    match prefix_kind(p) {
        PathPrefix::Absent => false,
        PathPrefix::Drive => has_root_separator(p),
        _ => true,
    }
}

/// Whether a root is among the components of a path: a separator behind the prefix, or
/// a share or a device, which are roots.
pub open spec fn is_rooted(p: Seq<char>) -> bool {
    has_root_separator(p) || prefix_kind(p) is Share || prefix_kind(p) is Device
}

/// The pieces between the separators behind prefix and root.
pub open spec fn body_pieces(p: Seq<char>) -> Seq<Seq<char>> {
    let body = p.skip(body_start(p));
    if prefix_kind(p).is_verbatim() {
        split(body, '\\')
    } else {
        split(with_char_replaced(body, '/', '\\'), '\\')
    }
}

fn find_separator(chars: &Vec<char>, from: usize, verbatim: bool) -> (r: usize)
    requires
        from <= chars@.len(),
    ensures
        r == next_separator(chars@, from as int, verbatim),
        from <= r <= chars@.len(),
{
    let mut i: usize = from;
    while i < chars.len() && !(chars[i] == '\\' || (!verbatim && chars[i] == '/'))
        invariant
            from <= i <= chars@.len(),
            next_separator(chars@, from as int, verbatim) == next_separator(
                chars@,
                i as int,
                verbatim,
            ),
        decreases chars.len() - i,
    {
        i += 1;
    }
    i
}

fn find_share_end(chars: &Vec<char>, from: usize, verbatim: bool) -> (r: usize)
    requires
        from <= chars@.len(),
    ensures
        r == share_end(chars@, from as int, verbatim),
        from <= r <= chars@.len(),
{
    let server_end = find_separator(chars, from, verbatim);
    if server_end >= chars.len() {
        return server_end;
    }
    let end = find_separator(chars, server_end + 1, verbatim);
    if end > server_end + 1 {
        end
    } else {
        server_end
    }
}

fn drive_at(chars: &Vec<char>, at: usize) -> (r: bool)
    requires
        at <= 4,
    ensures
        r == has_drive(chars@, at as int),
{
    chars.len() >= at + 2 && char_is_alphabetic(chars[at]) && chars[at + 1] == ':'
}

fn share_at_start(chars: &Vec<char>) -> (r: bool)
    ensures
        r == has_share(chars@),
{
    if chars.len() < 2 || !separator(chars[0]) || !separator(chars[1]) {
        return false;
    }
    let server_end = find_separator(chars, 2, false);
    if server_end == 2 || server_end >= chars.len() {
        return false;
    }
    find_separator(chars, server_end + 1, false) > server_end + 1
}

fn find_prefix(chars: &Vec<char>) -> (r: (PathPrefix, usize))
    ensures
        r.0 == prefix_kind(chars@),
        r.1 == prefix_length(chars@),
        r.1 <= chars@.len(),
        r.0 is VerbatimShare ==> r.1 >= 8,
{
    proof {
        reveal_strlit(r"\\?\");
    }
    if chars.len() >= 4 && chars[0] == '\\' && chars[1] == '\\' && chars[2] == '?' && chars[3]
        == '\\' {
        assert(chars@.take(4) =~= r"\\?\"@);
        assert(has_prefix(chars@, r"\\?\"@));
        if chars.len() >= 8 && chars[4] == 'U' && chars[5] == 'N' && chars[6] == 'C' && separator(
            chars[7],
        ) {
            return (PathPrefix::VerbatimShare, find_share_end(chars, 8, true));
        }
        if drive_at(chars, 4) && (chars.len() == 6 || separator(chars[6])) {
            return (PathPrefix::VerbatimDrive, 6);
        }
        return (PathPrefix::Verbatim, find_separator(chars, 4, true));
    }
    proof {
        if has_prefix(chars@, r"\\?\"@) {
            assert(chars@.take(4)[0] == chars@[0]);
            assert(chars@.take(4)[1] == chars@[1]);
            assert(chars@.take(4)[2] == chars@[2]);
            assert(chars@.take(4)[3] == chars@[3]);
        }
    }
    if chars.len() >= 4 && separator(chars[0]) && separator(chars[1]) && chars[2] == '.'
        && separator(chars[3]) {
        return (PathPrefix::Device, find_separator(chars, 4, false));
    }
    if share_at_start(chars) {
        return (PathPrefix::Share, find_share_end(chars, 2, false));
    }
    if drive_at(chars, 0) {
        return (PathPrefix::Drive, 2);
    }
    (PathPrefix::Absent, 0)
}

/// A path taken apart.
struct PathText {
    chars: Vec<char>,
    kind: PathPrefix,
    prefix_end: usize,
    root_separator: bool,
    body: usize,
}

impl PathText {
    spec fn is_of(self, p: Seq<char>) -> bool {
        &&& self.chars@ == p
        &&& self.kind == prefix_kind(p)
        &&& self.prefix_end == prefix_length(p)
        &&& self.root_separator == has_root_separator(p)
        &&& self.body == body_start(p)
        &&& self.prefix_end <= self.body <= p.len()
        &&& self.kind is VerbatimShare ==> self.prefix_end >= 8
    }

    fn of(p: &str) -> (r: PathText)
        ensures
            r.is_of(p@),
    {
        let chars = chars_of(p);
        let (kind, prefix_end) = find_prefix(&chars);
        let root_separator = chars.len() > prefix_end && separator(chars[prefix_end]);
        let body: usize = if root_separator {
            prefix_end + 1
        } else {
            prefix_end
        };
        PathText {
            chars: chars,
            kind: kind,
            prefix_end: prefix_end,
            root_separator: root_separator,
            body: body,
        }
    }

    fn prefix(&self) -> (r: String)
        requires
            self.is_of(self.chars@),
        ensures
            r@ == self.chars@.take(prefix_length(self.chars@)),
    {
        let r = copy_range(&self.chars, 0, self.prefix_end);
        assert(r@ =~= self.chars@.take(self.prefix_end as int));
        r
    }

    fn pieces(&self) -> (r: Vec<String>)
        requires
            self.is_of(self.chars@),
        ensures
            texts(r@) == body_pieces(self.chars@),
            r@.len() >= 1,
    {
        let body = copy_range(&self.chars, self.body, self.chars.len());
        assert(body@ =~= self.chars@.skip(self.body as int));
        if self.kind.verbatim() {
            split_chars(body.as_str(), '\\')
        } else {
            let even = replace_char(body.as_str(), '/', '\\');
            split_chars(even.as_str(), '\\')
        }
    }
}

pub fn is_absolute(p: &str) -> (r: bool)
    ensures
        r == is_absolute_path(p@),
{
    let text = PathText::of(p);
    match text.kind {
        PathPrefix::Absent => false,
        PathPrefix::Drive => text.root_separator,
        _ => true,
    }
}

// ---------------------------------------------------------------------------
// Components
// ---------------------------------------------------------------------------

/// The pieces of a path that are names: empty pieces are none, and dots are none unless
/// they are taken as they stand.
pub open spec fn names_among(pieces: Seq<Seq<char>>, with_dots: bool) -> Seq<Seq<char>>
    decreases pieces.len(),
{
    if pieces.len() == 0 {
        Seq::empty()
    } else {
        let front = names_among(pieces.drop_last(), with_dots);
        if pieces.last().len() == 0 || (!with_dots && pieces.last() == "."@) {
            front
        } else {
            front.push(pieces.last())
        }
    }
}

pub fn push_names(names: &mut Vec<String>, pieces: &Vec<String>, with_dots: bool)
    ensures
        texts(final(names)@) == texts(old(names)@) + names_among(texts(pieces@), with_dots),
{
    let ghost before = texts(names@);
    let ghost all = texts(pieces@);
    let mut i: usize = 0;
    assert(all.take(0) =~= Seq::<Seq<char>>::empty());
    while i < pieces.len()
        invariant
            i <= pieces@.len(),
            all == texts(pieces@),
            texts(names@) =~= before + names_among(all.take(i as int), with_dots),
        decreases pieces.len() - i,
    {
        assert(all.take(i + 1).drop_last() =~= all.take(i as int));
        assert(all.take(i + 1).last() == pieces@[i as int]@);
        let piece = pieces[i].as_str();
        if !piece.is_empty() && (with_dots || !str_eq(piece, ".")) {
            let ghost known = texts(names@);
            names.push(owned(piece));
            assert(texts(names@) =~= known.push(pieces@[i as int]@));
        }
        i += 1;
    }
    assert(all.take(i as int) =~= all);
}


/// What a path names, taken apart: two paths with the same parts are the same path.
#[verifier::ext_equal]
pub struct PathModel {
    pub kind: PathPrefix,
    /// The text of the prefix, spelled with backslashes and a drive letter in upper case.
    pub prefix: Seq<char>,
    pub rooted: bool,
    pub names: Seq<Seq<char>>,
}

/// How a prefix is spelled where two are compared.
pub open spec fn spelled_prefix(p: Seq<char>) -> Seq<char> {
    let prefix = p.take(prefix_length(p));
    match prefix_kind(p) {
        PathPrefix::Drive | PathPrefix::VerbatimDrive => ascii_upper(prefix),
        PathPrefix::Verbatim => prefix,
        PathPrefix::VerbatimShare => prefix.update(7, '\\'),
        _ => with_char_replaced(prefix, '/', '\\'),
    }
}

/// The components of a path. Separators may be doubled or trail, either kind will do, and
/// a dot is passed over unless a path without root starts with it. Behind a verbatim
/// prefix only backslashes separate and dots are components.
pub open spec fn path_parts(p: Seq<char>) -> PathModel {
    let pieces = body_pieces(p);
    let named = names_among(pieces, prefix_kind(p).is_verbatim());
    PathModel {
        kind: prefix_kind(p),
        prefix: spelled_prefix(p),
        rooted: is_rooted(p),
        names: if !is_rooted(p) && !prefix_kind(p).is_verbatim() && pieces[0] == "."@ {
            seq!["."@] + named
        } else {
            named
        },
    }
}

/// Whether two texts are the same path, component by component.
pub open spec fn same_path(a: Seq<char>, b: Seq<char>) -> bool {
    path_parts(a) == path_parts(b)
}

/// Whether a component is a name, and no step on the spot or up.
pub open spec fn is_name(component: Seq<char>) -> bool {
    component != "."@ && component != ".."@
}

/// The last component of a path, where it is a name.
pub open spec fn last_name(p: Seq<char>) -> Option<Seq<char>> {
    let names = path_parts(p).names;
    if names.len() > 0 && is_name(names.last()) {
        Some(names.last())
    } else {
        None
    }
}

struct PathParts {
    kind: PathPrefix,
    prefix: String,
    rooted: bool,
    names: Vec<String>,
}

impl View for PathParts {
    type V = PathModel;

    closed spec fn view(&self) -> PathModel {
        PathModel {
            kind: self.kind,
            prefix: self.prefix@,
            rooted: self.rooted,
            names: texts(self.names@),
        }
    }
}

fn spell_prefix(text: &PathText) -> (r: String)
    requires
        text.is_of(text.chars@),
    ensures
        r@ == spelled_prefix(text.chars@),
{
    let prefix = text.prefix();
    match text.kind {
        PathPrefix::Drive | PathPrefix::VerbatimDrive => to_ascii_upper(prefix.as_str()),
        PathPrefix::Verbatim => prefix,
        PathPrefix::VerbatimShare => {
            let tail = copy_range(&text.chars, 8, text.prefix_end);
            proof {
                reveal_strlit(r"\\?\");
                reveal_strlit(r"\\?\UNC\");
                assert(text.chars@.take(4) =~= r"\\?\"@);
                assert(text.chars@.take(4)[0] == text.chars@[0]);
                assert(text.chars@.take(4)[1] == text.chars@[1]);
                assert(text.chars@.take(4)[2] == text.chars@[2]);
                assert(text.chars@.take(4)[3] == text.chars@[3]);
            }
            let r = cat2(r"\\?\UNC\", tail.as_str());
            assert(r@ =~= spelled_prefix(text.chars@));
            r
        },
        _ => replace_char(prefix.as_str(), '/', '\\'),
    }
}

fn parts_of(p: &str) -> (r: PathParts)
    ensures
        r@ == path_parts(p@),
{
    let text = PathText::of(p);
    let verbatim = text.kind.verbatim();
    let pieces = text.pieces();
    let rooted = text.root_separator || text.kind == PathPrefix::Share || text.kind
        == PathPrefix::Device;
    let mut names: Vec<String> = Vec::new();
    assert(texts(names@) =~= Seq::<Seq<char>>::empty());
    assert(texts(pieces@)[0] == pieces@[0]@);
    if !rooted && !verbatim && str_eq(pieces[0].as_str(), ".") {
        names.push(owned("."));
        assert(texts(names@) =~= seq!["."@]);
    }
    push_names(&mut names, &pieces, verbatim);
    let r = PathParts { kind: text.kind, prefix: spell_prefix(&text), rooted: rooted, names: names };
    assert(r@ =~= path_parts(p@));
    r
}

/// The last name of a path.
pub fn file_name(p: &str) -> (r: Option<String>)
    ensures
        match r {
            Some(text) => last_name(p@) == Some(text@),
            None => last_name(p@) is None,
        },
{
    let mut parts = parts_of(p);
    let ghost names = texts(parts.names@);
    let count: usize = parts.names.len();
    match parts.names.pop() {
        Some(last) => {
            assert(names.last() == last@);
            if str_eq(last.as_str(), ".") || str_eq(last.as_str(), "..") {
                None
            } else {
                Some(last)
            }
        },
        None => None,
    }
}

pub fn is_same_path(a: &str, b: &str) -> (r: bool)
    ensures
        r == same_path(a@, b@),
{
    let x = parts_of(a);
    let y = parts_of(b);
    if x.kind != y.kind || !str_eq(x.prefix.as_str(), y.prefix.as_str()) || x.rooted != y.rooted
        || x.names.len() != y.names.len() {
        assert(texts(x.names@).len() == x.names@.len() && texts(y.names@).len() == y.names@.len());
        return false;
    }
    let mut i: usize = 0;
    while i < x.names.len()
        invariant
            i <= x.names@.len(),
            x.names@.len() == y.names@.len(),
            x@ == path_parts(a@),
            y@ == path_parts(b@),
            forall|k: int| 0 <= k < i ==> (#[trigger] x.names@[k])@ == y.names@[k]@,
        decreases x.names.len() - i,
    {
        if !str_eq(x.names[i].as_str(), y.names[i].as_str()) {
            assert(texts(x.names@)[i as int] != texts(y.names@)[i as int]);
            return false;
        }
        i += 1;
    }
    assert(texts(x.names@) =~= texts(y.names@));
    assert(x@ =~= y@);
    true
}

// ---------------------------------------------------------------------------
// Below and above
// ---------------------------------------------------------------------------

/// Components with the pieces of a relative path behind them: a step up takes back the
/// last of them where that is a name.
pub open spec fn extended(names: Seq<Seq<char>>, pieces: Seq<Seq<char>>) -> Seq<Seq<char>>
    decreases pieces.len(),
{
    if pieces.len() == 0 {
        names
    } else {
        let front = extended(names, pieces.drop_last());
        let piece = pieces.last();
        if piece.len() == 0 || piece == "."@ {
            front
        } else if piece != ".."@ {
            front.push(piece)
        } else if front.len() > 0 && is_name(front.last()) {
            front.drop_last()
        } else {
            front
        }
    }
}

/// A verbatim path with a relative one behind it, written anew component by component;
/// one that starts with a separator starts at the root.
pub open spec fn verbatim_join(parent: Seq<char>, name: Seq<char>) -> Seq<char> {
    let names = extended(
        if has_root_separator(name) {
            Seq::empty()
        } else {
            names_among(body_pieces(parent), true)
        },
        body_pieces(name),
    );
    parent.take(prefix_length(parent)) + (if has_root_separator(name) || has_root_separator(parent)
        || names.len() > 0 {
        seq!['\\']
    } else {
        Seq::empty()
    }) + joined(names, seq!['\\'])
}

/// A path with another behind it. One with a prefix takes its place; one that starts
/// with a separator starts at its root. Otherwise a backslash stands between the two
/// unless the path is empty, ends in a separator, or is a bare drive, which names the
/// drive's current directory.
pub open spec fn path_join(parent: Seq<char>, name: Seq<char>) -> Seq<char> {
    if !(prefix_kind(name) is Absent) {
        name
    } else if prefix_kind(parent).is_verbatim() && name.len() > 0 {
        verbatim_join(parent, name)
    } else if has_root_separator(name) {
        parent.take(prefix_length(parent)) + name
    } else if parent.len() == 0 || is_separator(parent.last()) || (prefix_kind(parent) is Drive
        && parent.len() == 2) {
        parent + name
    } else {
        parent + seq!['\\'] + name
    }
}

fn extend(names: &mut Vec<String>, pieces: &Vec<String>)
    ensures
        texts(final(names)@) == extended(texts(old(names)@), texts(pieces@)),
{
    let ghost before = texts(names@);
    let ghost all = texts(pieces@);
    let mut i: usize = 0;
    assert(all.take(0) =~= Seq::<Seq<char>>::empty());
    while i < pieces.len()
        invariant
            i <= pieces@.len(),
            all == texts(pieces@),
            texts(names@) == extended(before, all.take(i as int)),
        decreases pieces.len() - i,
    {
        assert(all.take(i + 1).drop_last() =~= all.take(i as int));
        assert(all.take(i + 1).last() == pieces@[i as int]@);
        let ghost known = texts(names@);
        let piece = pieces[i].as_str();
        if piece.is_empty() || str_eq(piece, ".") {
        } else if !str_eq(piece, "..") {
            names.push(owned(piece));
            assert(texts(names@) =~= known.push(pieces@[i as int]@));
        } else if names.len() > 0 {
            let at: usize = names.len() - 1;
            assert(known.last() == names@[at as int]@);
            if !str_eq(names[at].as_str(), ".") && !str_eq(names[at].as_str(), "..") {
                let _ = names.pop();
                assert(texts(names@) =~= known.drop_last());
            }
        }
        i += 1;
    }
    assert(all.take(i as int) =~= all);
}

fn join_verbatim(parent: &PathText, name: &PathText) -> (r: String)
    requires
        parent.is_of(parent.chars@),
        name.is_of(name.chars@),
        parent.kind.is_verbatim(),
    ensures
        r@ == verbatim_join(parent.chars@, name.chars@),
{
    let mut names: Vec<String> = Vec::new();
    assert(texts(names@) =~= Seq::<Seq<char>>::empty());
    if !name.root_separator {
        let pieces = parent.pieces();
        push_names(&mut names, &pieces, true);
        assert(texts(names@) =~= names_among(body_pieces(parent.chars@), true));
    }
    let pieces = name.pieces();
    extend(&mut names, &pieces);
    let prefix = parent.prefix();
    proof {
        reveal_strlit("\\");
        assert("\\"@ =~= seq!['\\']);
        assert(texts(names@).len() == names@.len());
    }
    let tail = join(&names, "\\");
    let r = if name.root_separator || parent.root_separator || names.len() > 0 {
        cat3(prefix.as_str(), "\\", tail.as_str())
    } else {
        cat2(prefix.as_str(), tail.as_str())
    };
    assert(r@ =~= verbatim_join(parent.chars@, name.chars@));
    r
}

pub fn join_path(parent: &str, name: &str) -> (r: String)
    ensures
        r@ == path_join(parent@, name@),
{
    let p = PathText::of(parent);
    let n = PathText::of(name);
    if n.kind != PathPrefix::Absent {
        return owned(name);
    }
    if p.kind.verbatim() && n.chars.len() > 0 {
        return join_verbatim(&p, &n);
    }
    if n.root_separator {
        let prefix = p.prefix();
        return cat2(prefix.as_str(), name);
    }
    let total: usize = p.chars.len();
    if total == 0 || separator(p.chars[total - 1]) || (p.kind == PathPrefix::Drive && total == 2) {
        cat2(parent, name)
    } else {
        proof {
            reveal_strlit("\\");
            assert("\\"@ =~= seq!['\\']);
        }
        cat3(parent, "\\", name)
    }
}

/// Where the last piece of a path starts, not before a given place.
pub open spec fn last_piece(p: Seq<char>, base: int, verbatim: bool) -> int
    decreases p.len(),
{
    if p.len() <= base || p.len() == 0 {
        base
    } else if separates(p.last(), verbatim) {
        p.len() as int
    } else {
        last_piece(p.drop_last(), base, verbatim)
    }
}

/// A path without its last piece and the separator before it.
pub open spec fn without_last_piece(p: Seq<char>, base: int, verbatim: bool) -> Seq<char> {
    let from = last_piece(p, base, verbatim);
    if from > base {
        p.take(from - 1)
    } else {
        p.take(base)
    }
}

/// A path without what is no component at its end.
pub open spec fn without_trailing(p: Seq<char>, base: int, verbatim: bool) -> Seq<char>
    decreases p.len(),
    when 0 <= base
{
    let piece = p.skip(last_piece(p, base, verbatim));
    if p.len() <= base || (piece.len() > 0 && (verbatim || piece != "."@)) {
        p
    } else {
        proof {
            lemma_last_piece(p, base, verbatim);
        }
        without_trailing(without_last_piece(p, base, verbatim), base, verbatim)
    }
}

pub proof fn lemma_last_piece(p: Seq<char>, base: int, verbatim: bool)
    requires
        0 <= base < p.len(),
    ensures
        base <= last_piece(p, base, verbatim) <= p.len(),
        without_last_piece(p, base, verbatim).len() < p.len(),
    decreases p.len(),
{
    if !separates(p.last(), verbatim) {
        if p.drop_last().len() > base {
            lemma_last_piece(p.drop_last(), base, verbatim);
        } else {
            assert(last_piece(p.drop_last(), base, verbatim) == base);
        }
    }
}

/// The directory that holds what an absolute path names; a root has none.
pub open spec fn parent_path(p: Seq<char>) -> Option<Seq<char>> {
    let base = body_start(p);
    let verbatim = prefix_kind(p).is_verbatim();
    let whole = without_trailing(p, base, verbatim);
    if whole.len() <= base {
        None
    } else {
        Some(without_trailing(without_last_piece(whole, base, verbatim), base, verbatim))
    }
}

fn find_last_piece(chars: &Vec<char>, end: usize, base: usize, verbatim: bool) -> (r: usize)
    requires
        base <= end <= chars@.len(),
    ensures
        r == last_piece(chars@.take(end as int), base as int, verbatim),
        base <= r <= end,
{
    let mut i: usize = end;
    while i > base
        invariant
            base <= i <= end,
            end <= chars@.len(),
            last_piece(chars@.take(end as int), base as int, verbatim) == last_piece(
                chars@.take(i as int),
                base as int,
                verbatim,
            ),
        decreases i,
    {
        assert(chars@.take(i as int).drop_last() =~= chars@.take(i - 1));
        if chars[i - 1] == '\\' || (!verbatim && chars[i - 1] == '/') {
            return i;
        }
        i -= 1;
    }
    base
}

/// Where a path ends without its last piece.
fn end_before_last_piece(chars: &Vec<char>, end: usize, base: usize, verbatim: bool) -> (r: usize)
    requires
        base < end <= chars@.len(),
    ensures
        chars@.take(r as int) == without_last_piece(chars@.take(end as int), base as int, verbatim),
        base <= r < end,
{
    proof {
        lemma_last_piece(chars@.take(end as int), base as int, verbatim);
    }
    let from = find_last_piece(chars, end, base, verbatim);
    let r: usize = if from > base {
        from - 1
    } else {
        base
    };
    assert(chars@.take(r as int) =~= without_last_piece(
        chars@.take(end as int),
        base as int,
        verbatim,
    ));
    r
}

/// Where a path ends without what is no component at its end.
fn end_of_components(chars: &Vec<char>, end: usize, base: usize, verbatim: bool) -> (r: usize)
    requires
        base <= end <= chars@.len(),
    ensures
        chars@.take(r as int) == without_trailing(chars@.take(end as int), base as int, verbatim),
        base <= r <= end,
{
    let mut i: usize = end;
    while i > base
        invariant
            base <= i <= end,
            end <= chars@.len(),
            without_trailing(chars@.take(end as int), base as int, verbatim) == without_trailing(
                chars@.take(i as int),
                base as int,
                verbatim,
            ),
        decreases i,
    {
        let from = find_last_piece(chars, i, base, verbatim);
        let piece = copy_range(chars, from, i);
        assert(piece@ =~= chars@.take(i as int).skip(from as int));
        if from < i && (verbatim || !str_eq(piece.as_str(), ".")) {
            return i;
        }
        i = end_before_last_piece(chars, i, base, verbatim);
    }
    i
}

pub fn parent(p: &str) -> (r: Option<String>)
    ensures
        match r {
            Some(text) => parent_path(p@) == Some(text@),
            None => parent_path(p@) is None,
        },
{
    let text = PathText::of(p);
    let verbatim = text.kind.verbatim();
    let base: usize = text.body;
    let total: usize = text.chars.len();
    assert(text.chars@.take(total as int) =~= p@);
    let whole = end_of_components(&text.chars, total, base, verbatim);
    assert(p@.take(whole as int).len() == whole);
    if whole <= base {
        return None;
    }
    let shorter = end_before_last_piece(&text.chars, whole, base, verbatim);
    let end = end_of_components(&text.chars, shorter, base, verbatim);
    let r = copy_range(&text.chars, 0, end);
    assert(r@ =~= p@.take(end as int));
    Some(r)
}

// ---------------------------------------------------------------------------
// Drive paths
// ---------------------------------------------------------------------------

/// The place of the last backslash, or -1.
pub open spec fn last_backslash(p: Seq<char>) -> int
    decreases p.len(),
{
    if p.len() == 0 {
        -1
    } else if p.last() == '\\' {
        p.len() - 1
    } else {
        last_backslash(p.drop_last())
    }
}

pub proof fn lemma_last_backslash(p: Seq<char>)
    ensures
        -1 <= last_backslash(p) < p.len(),
        last_backslash(p) >= 0 ==> p[last_backslash(p)] == '\\',
        forall|k: int| last_backslash(p) < k < p.len() ==> p[k] != '\\',
    decreases p.len(),
{
    if p.len() > 0 && p.last() != '\\' {
        lemma_last_backslash(p.drop_last());
        assert forall|k: int| last_backslash(p) < k < p.len() implies p[k] != '\\' by {
            if k < p.len() - 1 {
                assert(p.drop_last()[k] == p[k]);
            }
        }
    }
}

pub fn find_last_backslash(chars: &Vec<char>) -> (r: Option<usize>)
    ensures
        match r {
            Some(i) => i == last_backslash(chars@) && i < chars@.len(),
            None => last_backslash(chars@) == -1,
        },
{
    let mut i: usize = chars.len();
    assert(chars@.take(i as int) =~= chars@);
    while i > 0
        invariant
            i <= chars@.len(),
            last_backslash(chars@) == last_backslash(chars@.take(i as int)),
        decreases i,
    {
        assert(chars@.take(i as int).drop_last() =~= chars@.take(i - 1));
        if chars[i - 1] == '\\' {
            return Some(i - 1);
        }
        i -= 1;
    }
    None
}

/// The directory that holds a drive path: the text before its last component, and
/// the drive root for what stands right below it.
pub open spec fn drive_parent(p: Seq<char>) -> Option<Seq<char>> {
    if p.len() <= 3 {
        None
    } else if last_backslash(p) == 2 {
        Some(p.take(3))
    } else {
        Some(p.take(last_backslash(p)))
    }
}

/// The last component of a drive path; a drive root has none.
pub open spec fn drive_leaf(p: Seq<char>) -> Option<Seq<char>> {
    if p.len() <= 3 {
        None
    } else {
        Some(p.skip(last_backslash(p) + 1))
    }
}

/// Splits a drive path into the directory that holds it and its last component.
pub fn split_drive_path(p: &str) -> (r: Option<(String, String)>)
    requires
        p@.len() >= 3,
        p@[2] == '\\',
    ensures
        match r {
            Some((parent, leaf)) => drive_parent(p@) == Some(parent@) && drive_leaf(p@) == Some(
                leaf@,
            ),
            None => drive_parent(p@) is None && drive_leaf(p@) is None,
        },
{
    let chars = chars_of(p);
    proof {
        lemma_last_backslash(p@);
    }
    if chars.len() <= 3 {
        return None;
    }
    match find_last_backslash(&chars) {
        Some(at) => {
            let end: usize = if at == 2 {
                3
            } else {
                at
            };
            let parent = copy_range(&chars, 0, end);
            let leaf = copy_range(&chars, at + 1, chars.len());
            assert(chars@.subrange(0, end as int) =~= p@.take(end as int));
            assert(chars@.subrange(at + 1, chars@.len() as int) =~= p@.skip(at + 1));
            Some((parent, leaf))
        },
        None => {
            assert(p@[2] != '\\');
            None
        },
    }
}

// ---------------------------------------------------------------------------
// The root of a path
// ---------------------------------------------------------------------------

/// Splits a path that has a prefix and a root: the prefix with a backslash behind it,
/// the pieces below, and whether dots among them are components.
pub fn split_root(p: &str) -> (r: Option<(String, Vec<String>, bool)>)
    ensures
        match r {
            Some((root, pieces, verbatim)) => !(prefix_kind(p@) is Absent) && is_rooted(p@)
                && root@ == p@.take(prefix_length(p@)) + seq!['\\'] && texts(pieces@)
                == body_pieces(p@) && verbatim == prefix_kind(p@).is_verbatim(),
            None => prefix_kind(p@) is Absent || !is_rooted(p@),
        },
{
    let text = PathText::of(p);
    if text.kind == PathPrefix::Absent || !(text.root_separator || text.kind == PathPrefix::Share
        || text.kind == PathPrefix::Device) {
        return None;
    }
    proof {
        reveal_strlit("\\");
        assert("\\"@ =~= seq!['\\']);
    }
    let prefix = text.prefix();
    Some((cat2(prefix.as_str(), "\\"), text.pieces(), text.kind.verbatim()))
}

} // verus!
