//! Character-sequence models of the string operations that the rules use.
//!
//! A string is modelled by its sequence of characters. Every function here takes
//! and returns ordinary strings and says what it does over those sequences.
use vstd::prelude::*;

verus! {

/// The characters of a string, one by one.
pub fn chars_of(s: &str) -> (r: Vec<char>)
    ensures
        r@ == s@,
{
    let mut out: Vec<char> = Vec::new();
    for c in it: s.chars()
        invariant
            out@ == it.seq().take(it.index() as int),
            it.seq() == s@,
    {
        out.push(c);
    }
    out
}

/// Collects characters into a string with `String::from_iter`; the string holds
/// exactly those characters in that order.
#[verifier::external_body]
pub(crate) fn string_from(chars: Vec<char>) -> (r: String)
    ensures
        r@ == chars@,
{
    String::from_iter(chars)
}

/// Renders a string with `<str as Debug>`, which quotes and escapes it. The result
/// is named by [`debug_quoted`]; the escaping itself is not stated.
#[verifier::external_body]
pub(crate) fn debug_str(s: &str) -> (r: String)
    ensures
        r@ == debug_quoted(s@),
{
    format!("{s:?}")
}

/// The quoted and escaped form of a text, as `<str as Debug>` writes it.
pub uninterp spec fn debug_quoted(s: Seq<char>) -> Seq<char>;

/// Lower-cases a string with `str::to_lowercase`. The result is named by
/// [`unicode_lowercase`]; the Unicode tables are not stated.
#[verifier::external_body]
pub(crate) fn to_lowercase(s: &str) -> (r: String)
    ensures
        r@ == unicode_lowercase(s@),
{
    s.to_lowercase()
}

/// The Unicode lower-case form of a text, as `str::to_lowercase` gives it.
pub uninterp spec fn unicode_lowercase(s: Seq<char>) -> Seq<char>;

/// Whether two strings hold the same characters.
pub fn str_eq(a: &str, b: &str) -> (r: bool)
    ensures
        r == (a@ == b@),
{
    a.to_owned() == b.to_owned()
}

/// A string with the characters of `s`.
pub fn owned(s: &str) -> (r: String)
    ensures
        r@ == s@,
{
    s.to_owned()
}

pub fn cat2(a: &str, b: &str) -> (r: String)
    ensures
        r@ == a@ + b@,
{
    a.to_owned().concat(b)
}

pub fn cat3(a: &str, b: &str, c: &str) -> (r: String)
    ensures
        r@ == a@ + b@ + c@,
{
    a.to_owned().concat(b).concat(c)
}

pub fn cat4(a: &str, b: &str, c: &str, d: &str) -> (r: String)
    ensures
        r@ == a@ + b@ + c@ + d@,
{
    a.to_owned().concat(b).concat(c).concat(d)
}

pub fn cat5(a: &str, b: &str, c: &str, d: &str, e: &str) -> (r: String)
    ensures
        r@ == a@ + b@ + c@ + d@ + e@,
{
    a.to_owned().concat(b).concat(c).concat(d).concat(e)
}

pub fn cat6(a: &str, b: &str, c: &str, d: &str, e: &str, f: &str) -> (r: String)
    ensures
        r@ == a@ + b@ + c@ + d@ + e@ + f@,
{
    a.to_owned().concat(b).concat(c).concat(d).concat(e).concat(f)
}

/// The texts of a sequence of strings.
pub open spec fn texts(v: Seq<String>) -> Seq<Seq<char>> {
    v.map_values(|s: String| s@)
}

/// A copy of a list of strings.
pub fn clone_texts(v: &Vec<String>) -> (r: Vec<String>)
    ensures
        texts(r@) == texts(v@),
        r@.len() == v@.len(),
{
    let mut out: Vec<String> = Vec::new();
    let mut i: usize = 0;
    while i < v.len()
        invariant
            i <= v.len(),
            out@.len() == i,
            forall|k: int| 0 <= k < i ==> (#[trigger] out@[k])@ == v@[k]@,
        decreases v.len() - i,
    {
        out.push(v[i].clone());
        i += 1;
    }
    assert(texts(out@) =~= texts(v@));
    out
}

// ---------------------------------------------------------------------------
// Character classes
// ---------------------------------------------------------------------------

/// The ASCII lower-case form of a character; others are left as they are.
pub open spec fn lower_char(c: char) -> char {
    if 'A' <= c && c <= 'Z' {
        ((c as u32) + 32) as char
    } else {
        c
    }
}

/// The ASCII upper-case form of a character; others are left as they are.
pub open spec fn upper_char(c: char) -> char {
    if 'a' <= c && c <= 'z' {
        ((c as u32) - 32) as char
    } else {
        c
    }
}

pub open spec fn is_ascii_digit(c: char) -> bool {
    '0' <= c && c <= '9'
}

pub open spec fn is_ascii_alphabetic(c: char) -> bool {
    ('a' <= c && c <= 'z') || ('A' <= c && c <= 'Z')
}

pub open spec fn is_ascii_alphanumeric(c: char) -> bool {
    is_ascii_alphabetic(c) || is_ascii_digit(c)
}

/// The Unicode `White_Space` property.
pub open spec fn is_whitespace(c: char) -> bool {
    let n = c as u32;
    ||| 0x9 <= n <= 0xd
    ||| n == 0x20
    ||| n == 0x85
    ||| n == 0xa0
    ||| n == 0x1680
    ||| 0x2000 <= n <= 0x200a
    ||| n == 0x2028
    ||| n == 0x2029
    ||| n == 0x202f
    ||| n == 0x205f
    ||| n == 0x3000
}

pub open spec fn is_slash(c: char) -> bool {
    c == '\\' || c == '/'
}

pub fn lower_char_of(c: char) -> (r: char)
    ensures
        r == lower_char(c),
{
    if 'A' <= c && c <= 'Z' {
        (c as u8 + 32) as char
    } else {
        c
    }
}

pub fn upper_char_of(c: char) -> (r: char)
    ensures
        r == upper_char(c),
{
    if 'a' <= c && c <= 'z' {
        (c as u8 - 32) as char
    } else {
        c
    }
}

pub fn char_is_digit(c: char) -> (r: bool)
    ensures
        r == is_ascii_digit(c),
{
    '0' <= c && c <= '9'
}

pub fn char_is_alphabetic(c: char) -> (r: bool)
    ensures
        r == is_ascii_alphabetic(c),
{
    ('a' <= c && c <= 'z') || ('A' <= c && c <= 'Z')
}

pub fn char_is_whitespace(c: char) -> (r: bool)
    ensures
        r == is_whitespace(c),
{
    let n: u32 = c as u32;
    (0x9 <= n && n <= 0xd) || n == 0x20 || n == 0x85 || n == 0xa0 || n == 0x1680 || (0x2000 <= n
        && n <= 0x200a) || n == 0x2028 || n == 0x2029 || n == 0x202f || n == 0x205f || n == 0x3000
}

// ---------------------------------------------------------------------------
// Case folding
// ---------------------------------------------------------------------------

pub open spec fn ascii_lower(s: Seq<char>) -> Seq<char> {
    s.map_values(|c: char| lower_char(c))
}

pub open spec fn ascii_upper(s: Seq<char>) -> Seq<char> {
    s.map_values(|c: char| upper_char(c))
}

pub fn to_ascii_lower(s: &str) -> (r: String)
    ensures
        r@ == ascii_lower(s@),
{
    let chars = chars_of(s);
    let mut out: Vec<char> = Vec::new();
    let mut i: usize = 0;
    while i < chars.len()
        invariant
            i <= chars.len(),
            chars@ == s@,
            out@ =~= ascii_lower(s@.take(i as int)),
        decreases chars.len() - i,
    {
        out.push(lower_char_of(chars[i]));
        i += 1;
    }
    assert(s@.take(i as int) =~= s@);
    string_from(out)
}

pub fn to_ascii_upper(s: &str) -> (r: String)
    ensures
        r@ == ascii_upper(s@),
{
    let chars = chars_of(s);
    let mut out: Vec<char> = Vec::new();
    let mut i: usize = 0;
    while i < chars.len()
        invariant
            i <= chars.len(),
            chars@ == s@,
            out@ =~= ascii_upper(s@.take(i as int)),
        decreases chars.len() - i,
    {
        out.push(upper_char_of(chars[i]));
        i += 1;
    }
    assert(s@.take(i as int) =~= s@);
    string_from(out)
}

/// Whether two strings are equal once their ASCII letters are lower-cased.
pub fn eq_ignore_ascii_case(a: &str, b: &str) -> (r: bool)
    ensures
        r == (ascii_lower(a@) == ascii_lower(b@)),
{
    to_ascii_lower(a) == to_ascii_lower(b)
}

// ---------------------------------------------------------------------------
// Trimming
// ---------------------------------------------------------------------------

/// `s` without its longest suffix of characters that satisfy `p`.
pub open spec fn trim_end_where(s: Seq<char>, p: spec_fn(char) -> bool) -> Seq<char>
    decreases s.len(),
{
    if s.len() > 0 && p(s.last()) {
        trim_end_where(s.drop_last(), p)
    } else {
        s
    }
}

/// `s` without its longest prefix of characters that satisfy `p`.
pub open spec fn trim_start_where(s: Seq<char>, p: spec_fn(char) -> bool) -> Seq<char>
    decreases s.len(),
{
    if s.len() > 0 && p(s[0]) {
        trim_start_where(s.drop_first(), p)
    } else {
        s
    }
}

/// `s` without leading and trailing white space.
pub open spec fn trimmed(s: Seq<char>) -> Seq<char> {
    trim_end_where(trim_start_where(s, |c: char| is_whitespace(c)), |c: char| is_whitespace(c))
}

/// `s` without trailing path separators.
pub open spec fn without_trailing_slashes(s: Seq<char>) -> Seq<char> {
    trim_end_where(s, |c: char| is_slash(c))
}

/// Whether `s` holds nothing but white space.
pub open spec fn is_blank(s: Seq<char>) -> bool {
    forall|i: int| 0 <= i < s.len() ==> is_whitespace(#[trigger] s[i])
}

pub proof fn lemma_trim_end_fixed(s: Seq<char>, p: spec_fn(char) -> bool)
    ensures
        trim_end_where(s, p).len() <= s.len(),
        trim_end_where(s, p) == s.take(trim_end_where(s, p).len() as int),
        trim_end_where(s, p).len() > 0 ==> !p(trim_end_where(s, p).last()),
    decreases s.len(),
{
    if s.len() > 0 && p(s.last()) {
        lemma_trim_end_fixed(s.drop_last(), p);
        let t = trim_end_where(s, p);
        assert(t =~= s.take(t.len() as int));
    } else {
        assert(s =~= s.take(s.len() as int));
    }
}

pub proof fn lemma_blank_trims_to_nothing(s: Seq<char>)
    ensures
        is_blank(s) <==> trimmed(s).len() == 0,
{
    let p = |c: char| is_whitespace(c);
    lemma_trim_start_blank(s);
    let t = trim_start_where(s, p);
    lemma_trim_end_fixed(t, p);
    if t.len() > 0 {
        lemma_trim_end_keeps_first(t, p);
    }
}

proof fn lemma_trim_start_blank(s: Seq<char>)
    ensures
        is_blank(s) <==> trim_start_where(s, |c: char| is_whitespace(c)).len() == 0,
        trim_start_where(s, |c: char| is_whitespace(c)).len() > 0 ==> !is_whitespace(
            trim_start_where(s, |c: char| is_whitespace(c))[0],
        ),
    decreases s.len(),
{
    if s.len() > 0 && is_whitespace(s[0]) {
        lemma_trim_start_blank(s.drop_first());
        if is_blank(s.drop_first()) {
            assert forall|i: int| 0 <= i < s.len() implies is_whitespace(#[trigger] s[i]) by {
                if i > 0 {
                    assert(s.drop_first()[i - 1] == s[i]);
                }
            }
        }
        if is_blank(s) {
            assert forall|i: int| 0 <= i < s.drop_first().len() implies is_whitespace(
                #[trigger] s.drop_first()[i],
            ) by {
                assert(s[i + 1] == s.drop_first()[i]);
            }
        }
    } else if s.len() > 0 {
        assert(!is_whitespace(s[0]));
    }
}

proof fn lemma_trim_end_keeps_first(s: Seq<char>, p: spec_fn(char) -> bool)
    requires
        s.len() > 0,
        !p(s[0]),
    ensures
        trim_end_where(s, p).len() > 0,
    decreases s.len(),
{
    if p(s.last()) {
        assert(s.drop_last().len() > 0);
        lemma_trim_end_keeps_first(s.drop_last(), p);
    }
}

pub fn trim(s: &str) -> (r: String)
    ensures
        r@ == trimmed(s@),
{
    let chars = chars_of(s);
    let ghost p = |c: char| is_whitespace(c);
    let mut start: usize = 0;
    assert(s@.skip(0) =~= s@);
    while start < chars.len() && char_is_whitespace(chars[start])
        invariant
            start <= chars.len(),
            chars@ == s@,
            p == (|c: char| is_whitespace(c)),
            trim_start_where(s@, p) == trim_start_where(s@.skip(start as int), p),
        decreases chars.len() - start,
    {
        assert(s@.skip(start as int).drop_first() =~= s@.skip(start as int + 1));
        start += 1;
    }
    let ghost body = s@.skip(start as int);
    let mut end: usize = chars.len();
    assert(s@.subrange(start as int, end as int) =~= body);
    while end > start && char_is_whitespace(chars[end - 1])
        invariant
            start <= end <= chars.len(),
            chars@ == s@,
            p == (|c: char| is_whitespace(c)),
            trim_end_where(body, p) == trim_end_where(s@.subrange(start as int, end as int), p),
        decreases end,
    {
        assert(s@.subrange(start as int, end as int).drop_last() =~= s@.subrange(
            start as int,
            end as int - 1,
        ));
        end -= 1;
    }
    copy_range(&chars, start, end)
}

/// The characters of `chars` from `start` up to `end`.
pub fn copy_range(chars: &Vec<char>, start: usize, end: usize) -> (r: String)
    requires
        start <= end <= chars@.len(),
    ensures
        r@ == chars@.subrange(start as int, end as int),
{
    let mut out: Vec<char> = Vec::new();
    let mut i: usize = start;
    while i < end
        invariant
            start <= i <= end <= chars@.len(),
            out@ =~= chars@.subrange(start as int, i as int),
        decreases end - i,
    {
        out.push(chars[i]);
        i += 1;
    }
    string_from(out)
}

pub fn is_blank_str(s: &str) -> (r: bool)
    ensures
        r == is_blank(s@),
        r == (trimmed(s@).len() == 0),
{
    proof {
        lemma_blank_trims_to_nothing(s@);
    }
    let chars = chars_of(s);
    let mut i: usize = 0;
    while i < chars.len()
        invariant
            i <= chars.len(),
            chars@ == s@,
            forall|k: int| 0 <= k < i ==> is_whitespace(#[trigger] s@[k]),
            is_blank(s@) <==> trimmed(s@).len() == 0,
        decreases chars.len() - i,
    {
        if !char_is_whitespace(chars[i]) {
            assert(!is_whitespace(s@[i as int]));
            assert(!is_blank(s@));
            return false;
        }
        i += 1;
    }
    true
}

pub fn trim_trailing_slashes(s: &str) -> (r: String)
    ensures
        r@ == without_trailing_slashes(s@),
{
    let chars = chars_of(s);
    let ghost p = |c: char| is_slash(c);
    let mut end: usize = chars.len();
    assert(s@.take(end as int) =~= s@);
    while end > 0 && (chars[end - 1] == '\\' || chars[end - 1] == '/')
        invariant
            end <= chars.len(),
            chars@ == s@,
            p == (|c: char| is_slash(c)),
            trim_end_where(s@, p) == trim_end_where(s@.take(end as int), p),
        decreases end,
    {
        assert(s@.take(end as int).drop_last() =~= s@.take(end as int - 1));
        end -= 1;
    }
    assert(s@.take(end as int) =~= chars@.subrange(0, end as int));
    copy_range(&chars, 0, end)
}

// ---------------------------------------------------------------------------
// Prefixes, suffixes and membership
// ---------------------------------------------------------------------------

pub open spec fn has_prefix(s: Seq<char>, p: Seq<char>) -> bool {
    p.len() <= s.len() && s.take(p.len() as int) == p
}

pub open spec fn has_suffix(s: Seq<char>, p: Seq<char>) -> bool {
    p.len() <= s.len() && s.skip(s.len() - p.len()) == p
}

pub fn starts_with(s: &str, p: &str) -> (r: bool)
    ensures
        r == has_prefix(s@, p@),
{
    let a = chars_of(s);
    let b = chars_of(p);
    if b.len() > a.len() {
        return false;
    }
    let mut i: usize = 0;
    while i < b.len()
        invariant
            i <= b.len() <= a.len(),
            a@ == s@,
            b@ == p@,
            forall|k: int| 0 <= k < i ==> a@[k] == b@[k],
        decreases b.len() - i,
    {
        if a[i] != b[i] {
            assert(s@.take(p@.len() as int)[i as int] != p@[i as int]);
            return false;
        }
        i += 1;
    }
    assert(s@.take(p@.len() as int) =~= p@);
    true
}

pub fn ends_with(s: &str, p: &str) -> (r: bool)
    ensures
        r == has_suffix(s@, p@),
{
    let a = chars_of(s);
    let b = chars_of(p);
    if b.len() > a.len() {
        return false;
    }
    let base: usize = a.len() - b.len();
    let mut i: usize = 0;
    while i < b.len()
        invariant
            i <= b.len(),
            base + b.len() == a.len(),
            a@ == s@,
            b@ == p@,
            forall|k: int| 0 <= k < i ==> a@[base + k] == b@[k],
        decreases b.len() - i,
    {
        if a[base + i] != b[i] {
            assert(s@.skip(s@.len() - p@.len())[i as int] != p@[i as int]);
            return false;
        }
        i += 1;
    }
    assert(s@.skip(s@.len() - p@.len()) =~= p@);
    true
}

/// `s` without the suffix `p` where it has it, else `s`.
pub open spec fn without_suffix(s: Seq<char>, p: Seq<char>) -> Seq<char> {
    if has_suffix(s, p) {
        s.take(s.len() - p.len())
    } else {
        s
    }
}

pub fn strip_suffix_or_self(s: &str, p: &str) -> (r: String)
    ensures
        r@ == without_suffix(s@, p@),
{
    if ends_with(s, p) {
        let a = chars_of(s);
        let b = chars_of(p);
        let end: usize = a.len() - b.len();
        assert(a@.subrange(0, end as int) =~= s@.take(s@.len() - p@.len()));
        copy_range(&a, 0, end)
    } else {
        owned(s)
    }
}

/// `s` without the suffix `p`, however often it stands there.
pub open spec fn without_suffixes(s: Seq<char>, p: Seq<char>) -> Seq<char>
    decreases s.len(),
{
    if p.len() > 0 && has_suffix(s, p) {
        without_suffixes(s.take(s.len() - p.len()), p)
    } else {
        s
    }
}

pub fn trim_suffixes(s: &str, p: &str) -> (r: String)
    ensures
        r@ == without_suffixes(s@, p@),
{
    let pattern = chars_of(p);
    let size: usize = pattern.len();
    let mut rest = owned(s);
    if size == 0 {
        return rest;
    }
    while ends_with(rest.as_str(), p)
        invariant
            size == p@.len(),
            size > 0,
            without_suffixes(rest@, p@) == without_suffixes(s@, p@),
        ensures
            !has_suffix(rest@, p@),
        decreases rest@.len(),
    {
        rest = strip_suffix_or_self(rest.as_str(), p);
    }
    rest
}

/// The characters of `s` behind its first `n`.
pub fn skip_chars(s: &str, n: usize) -> (r: String)
    requires
        n <= s@.len(),
    ensures
        r@ == s@.skip(n as int),
{
    let a = chars_of(s);
    assert(a@.subrange(n as int, a@.len() as int) =~= s@.skip(n as int));
    copy_range(&a, n, a.len())
}

pub fn contains_char(s: &str, c: char) -> (r: bool)
    ensures
        r == s@.contains(c),
{
    let a = chars_of(s);
    let mut i: usize = 0;
    while i < a.len()
        invariant
            i <= a.len(),
            a@ == s@,
            forall|k: int| 0 <= k < i ==> a@[k] != c,
        decreases a.len() - i,
    {
        if a[i] == c {
            assert(s@[i as int] == c);
            return true;
        }
        i += 1;
    }
    false
}

// ---------------------------------------------------------------------------
// Replacing, splitting and joining
// ---------------------------------------------------------------------------

/// `s` with every `from` turned into `to`.
pub open spec fn with_char_replaced(s: Seq<char>, from: char, to: char) -> Seq<char> {
    s.map_values(
        |c: char|
            if c == from {
                to
            } else {
                c
            },
    )
}

pub fn replace_char(s: &str, from: char, to: char) -> (r: String)
    ensures
        r@ == with_char_replaced(s@, from, to),
{
    let a = chars_of(s);
    let mut out: Vec<char> = Vec::new();
    let mut i: usize = 0;
    while i < a.len()
        invariant
            i <= a.len(),
            a@ == s@,
            out@ =~= with_char_replaced(s@.take(i as int), from, to),
        decreases a.len() - i,
    {
        if a[i] == from {
            out.push(to);
        } else {
            out.push(a[i]);
        }
        i += 1;
    }
    assert(s@.take(i as int) =~= s@);
    string_from(out)
}

/// `s` with the non-overlapping occurrences of `from`, found from the left, turned
/// into `to`.
pub open spec fn with_replaced(s: Seq<char>, from: Seq<char>, to: Seq<char>) -> Seq<char>
    decreases s.len(),
{
    if from.len() == 0 || s.len() < from.len() {
        s
    } else if s.take(from.len() as int) == from {
        to + with_replaced(s.skip(from.len() as int), from, to)
    } else {
        seq![s[0]] + with_replaced(s.drop_first(), from, to)
    }
}

pub fn replace_all(s: &str, from: &str, to: &str) -> (r: String)
    requires
        from@.len() > 0,
    ensures
        r@ == with_replaced(s@, from@, to@),
{
    let a = chars_of(s);
    let f = chars_of(from);
    let t = chars_of(to);
    let mut out: Vec<char> = Vec::new();
    let mut i: usize = 0;
    assert(s@.skip(0) =~= s@);
    while a.len() - i >= f.len()
        invariant
            i <= a.len(),
            a@ == s@,
            f@ == from@,
            t@ == to@,
            from@.len() > 0,
            with_replaced(s@, from@, to@) == out@ + with_replaced(s@.skip(i as int), from@, to@),
        decreases a.len() - i,
    {
        let ghost rest = s@.skip(i as int);
        if matches_at(&a, i, &f) {
            assert(rest.take(from@.len() as int) =~= s@.subrange(i as int, i + from@.len()));
            assert(rest.skip(from@.len() as int) =~= s@.skip(i + from@.len()));
            let ghost before = out@;
            push_all(&mut out, &t);
            assert(out@ + with_replaced(s@.skip(i + from@.len()), from@, to@) =~= before + (to@
                + with_replaced(s@.skip(i + from@.len()), from@, to@)));
            i += f.len();
        } else {
            assert(rest.take(from@.len() as int) =~= s@.subrange(i as int, i + from@.len()));
            assert(rest.drop_first() =~= s@.skip(i + 1));
            let ghost before = out@;
            out.push(a[i]);
            assert(out@ + with_replaced(s@.skip(i + 1), from@, to@) =~= before + (seq![s@[i as int]]
                + with_replaced(s@.skip(i + 1), from@, to@)));
            i += 1;
        }
    }
    let ghost before = out@;
    let ghost at = i;
    while i < a.len()
        invariant
            at <= i <= a.len(),
            a@ == s@,
            out@ =~= before + s@.subrange(at as int, i as int),
        decreases a.len() - i,
    {
        out.push(a[i]);
        i += 1;
    }
    assert(s@.subrange(at as int, i as int) =~= s@.skip(at as int));
    string_from(out)
}

fn matches_at(a: &Vec<char>, at: usize, f: &Vec<char>) -> (r: bool)
    requires
        at + f@.len() <= a@.len(),
    ensures
        r == (a@.subrange(at as int, at + f@.len()) == f@),
{
    let total: usize = a.len();
    let mut k: usize = 0;
    while k < f.len()
        invariant
            k <= f.len(),
            total == a@.len(),
            at + f@.len() <= a@.len(),
            forall|j: int| 0 <= j < k ==> a@[at + j] == f@[j],
        decreases f.len() - k,
    {
        if a[at + k] != f[k] {
            assert(a@.subrange(at as int, at + f@.len())[k as int] != f@[k as int]);
            return false;
        }
        k += 1;
    }
    assert(a@.subrange(at as int, at + f@.len()) =~= f@);
    true
}

/// Appends every character of `more`.
pub fn push_all(out: &mut Vec<char>, more: &Vec<char>)
    ensures
        final(out)@ == old(out)@ + more@,
{
    let ghost before = out@;
    let mut i: usize = 0;
    while i < more.len()
        invariant
            i <= more.len(),
            out@ =~= before + more@.take(i as int),
        decreases more.len() - i,
    {
        out.push(more[i]);
        i += 1;
    }
    assert(more@.take(i as int) =~= more@);
}

/// The pieces of `s` between separators; a separator at either end gives an empty
/// piece there, and an empty sequence gives one empty piece.
pub open spec fn split<T>(s: Seq<T>, sep: T) -> Seq<Seq<T>>
    decreases s.len(),
{
    if s.len() == 0 {
        seq![Seq::<T>::empty()]
    } else {
        let before = split(s.drop_last(), sep);
        if s.last() == sep {
            before.push(Seq::empty())
        } else {
            before.drop_last().push(before.last().push(s.last()))
        }
    }
}

pub proof fn lemma_split_nonempty<T>(s: Seq<T>, sep: T)
    ensures
        split(s, sep).len() >= 1,
    decreases s.len(),
{
    if s.len() > 0 {
        lemma_split_nonempty(s.drop_last(), sep);
    }
}

/// No piece of a split holds the separator.
pub proof fn lemma_split_pieces_hold_no_separator<T>(s: Seq<T>, sep: T)
    ensures
        split(s, sep).len() >= 1,
        forall|i: int| 0 <= i < split(s, sep).len() ==> !(#[trigger] split(s, sep)[i]).contains(sep),
    decreases s.len(),
{
    lemma_split_nonempty(s, sep);
    if s.len() > 0 {
        let before = split(s.drop_last(), sep);
        lemma_split_pieces_hold_no_separator(s.drop_last(), sep);
        let after = split(s, sep);
        assert forall|i: int| 0 <= i < after.len() implies !(#[trigger] after[i]).contains(sep) by {
            if s.last() != sep && i == after.len() - 1 {
                let piece = before.last();
                assert(!before[before.len() - 1].contains(sep));
                assert forall|k: int| 0 <= k < after[i].len() implies after[i][k] != sep by {
                    if k < piece.len() {
                        assert(piece[k] == after[i][k]);
                        assert(piece.contains(piece[k]));
                    }
                }
            } else if i < before.len() {
                assert(after[i] == before[i]);
            }
        }
    }
}

pub fn split_chars(s: &str, sep: char) -> (r: Vec<String>)
    ensures
        texts(r@) == split(s@, sep),
        r@.len() >= 1,
{
    let a = chars_of(s);
    let mut out: Vec<String> = Vec::new();
    let mut piece: Vec<char> = Vec::new();
    let mut i: usize = 0;
    assert(s@.take(0) =~= Seq::<char>::empty());
    assert(texts(out@).push(piece@) =~= split(s@.take(0), sep));
    while i < a.len()
        invariant
            i <= a.len(),
            a@ == s@,
            texts(out@).push(piece@) =~= split(s@.take(i as int), sep),
        decreases a.len() - i,
    {
        let c = a[i];
        let ghost before = split(s@.take(i as int), sep);
        let ghost pieces = texts(out@);
        assert(s@.take(i + 1).drop_last() =~= s@.take(i as int));
        assert(before.drop_last() =~= pieces);
        if c == sep {
            let done = string_from(piece);
            out.push(done);
            piece = Vec::new();
            assert(texts(out@) =~= before);
        } else {
            piece.push(c);
        }
        i += 1;
    }
    assert(s@.take(i as int) =~= s@);
    let ghost pieces = texts(out@);
    let done = string_from(piece);
    out.push(done);
    assert(texts(out@) =~= pieces.push(done@));
    out
}

/// `parts` with `sep` between each two.
pub open spec fn joined(parts: Seq<Seq<char>>, sep: Seq<char>) -> Seq<char>
    decreases parts.len(),
{
    if parts.len() == 0 {
        Seq::empty()
    } else if parts.len() == 1 {
        parts[0]
    } else {
        joined(parts.drop_last(), sep) + sep + parts.last()
    }
}

pub fn join(parts: &Vec<String>, sep: &str) -> (r: String)
    ensures
        r@ == joined(texts(parts@), sep@),
{
    let mut out: String = String::new();
    let ghost all = texts(parts@);
    let mut i: usize = 0;
    while i < parts.len()
        invariant
            i <= parts.len(),
            all == texts(parts@),
            out@ == joined(all.take(i as int), sep@),
        decreases parts.len() - i,
    {
        assert(all.take(i + 1).drop_last() =~= all.take(i as int));
        assert(all.take(i + 1).last() == parts@[i as int]@);
        if i > 0 {
            out.append(sep);
            out.append(parts[i].as_str());
        } else {
            out = parts[i].clone();
        }
        i += 1;
    }
    assert(all.take(i as int) =~= all);
    out
}

// ---------------------------------------------------------------------------
// Numbers
// ---------------------------------------------------------------------------

pub open spec fn digit_char(d: nat) -> char {
    (48 + d) as char
}

/// The decimal digits of `n`, without leading zeros.
pub open spec fn decimal(n: nat) -> Seq<char>
    decreases n,
{
    if n < 10 {
        seq![digit_char(n)]
    } else {
        decimal(n / 10).push(digit_char(n % 10))
    }
}

pub fn dec(n: u64) -> (r: String)
    ensures
        r@ == decimal(n as nat),
{
    string_from(dec_chars(n as u128))
}

/// The decimal form of a signed number.
pub fn signed_dec(n: i128) -> (r: String)
    requires
        n > i128::MIN,
    ensures
        r@ == signed_decimal(n as int),
{
    if n < 0 {
        let mut out: Vec<char> = Vec::new();
        out.push('-');
        let digits = dec_chars((-n) as u128);
        push_all(&mut out, &digits);
        assert(out@ =~= seq!['-'] + digits@);
        string_from(out)
    } else {
        string_from(dec_chars(n as u128))
    }
}

fn dec_chars(n: u128) -> (r: Vec<char>)
    ensures
        r@ == decimal(n as nat),
    decreases n,
{
    let d: u8 = (n % 10) as u8;
    if n < 10 {
        let mut out: Vec<char> = Vec::new();
        out.push((48 + d) as char);
        out
    } else {
        let mut out = dec_chars(n / 10);
        out.push((48 + d) as char);
        out
    }
}

/// The decimal form of a signed number.
pub open spec fn signed_decimal(n: int) -> Seq<char> {
    if n < 0 {
        seq!['-'] + decimal((-n) as nat)
    } else {
        decimal(n as nat)
    }
}

// ---------------------------------------------------------------------------
// Order
// ---------------------------------------------------------------------------

/// Lexicographic order of texts by code point.
pub open spec fn text_before(a: Seq<char>, b: Seq<char>) -> bool
    decreases a.len(),
{
    b.len() > 0 && (a.len() == 0 || a[0] < b[0] || (a[0] == b[0] && text_before(
        a.drop_first(),
        b.drop_first(),
    )))
}

/// Of two texts one comes before the other, or they are the same.
pub proof fn text_order_is_total(a: Seq<char>, b: Seq<char>)
    ensures
        text_before(a, b) || text_before(b, a) || a == b,
        !(text_before(a, b) && text_before(b, a)),
        !text_before(a, a),
    decreases a.len(),
{
    if a.len() > 0 {
        text_order_is_total(a.drop_first(), a.drop_first());
    }
    if a.len() > 0 && b.len() > 0 {
        text_order_is_total(a.drop_first(), b.drop_first());
        if a[0] == b[0] && a.drop_first() == b.drop_first() {
            assert(a =~= seq![a[0]] + a.drop_first());
            assert(b =~= seq![b[0]] + b.drop_first());
        }
    } else if a.len() == 0 && b.len() == 0 {
        assert(a =~= b);
    }
}

/// What comes before a text comes before all that follows it.
pub proof fn text_order_is_transitive(a: Seq<char>, b: Seq<char>, c: Seq<char>)
    requires
        text_before(a, b),
        text_before(b, c),
    ensures
        text_before(a, c),
    decreases a.len(),
{
    if a.len() > 0 && a[0] == b[0] && b[0] == c[0] {
        text_order_is_transitive(a.drop_first(), b.drop_first(), c.drop_first());
    }
}

pub fn comes_before(a: &str, b: &str) -> (r: bool)
    ensures
        r == text_before(a@, b@),
{
    let left = chars_of(a);
    let right = chars_of(b);
    let mut i: usize = 0;
    assert(a@.skip(0) =~= a@);
    assert(b@.skip(0) =~= b@);
    while i < left.len() && i < right.len()
        invariant
            left@ == a@,
            right@ == b@,
            i <= left@.len(),
            i <= right@.len(),
            text_before(a@, b@) == text_before(a@.skip(i as int), b@.skip(i as int)),
        decreases left.len() - i,
    {
        assert(a@.skip(i as int)[0] == left@[i as int]);
        assert(b@.skip(i as int)[0] == right@[i as int]);
        assert(a@.skip(i as int).drop_first() =~= a@.skip(i + 1));
        assert(b@.skip(i as int).drop_first() =~= b@.skip(i + 1));
        if left[i] != right[i] {
            return left[i] < right[i];
        }
        i += 1;
    }
    i < right.len()
}

/// The lower-case hexadecimal digit of a value below sixteen.
pub open spec fn hex_char(d: nat) -> char {
    if d < 10 {
        (48 + d) as char
    } else {
        (87 + d) as char
    }
}

/// Two lower-case hexadecimal digits for each byte.
pub open spec fn hex_text(bytes: Seq<u8>) -> Seq<char>
    decreases bytes.len(),
{
    if bytes.len() == 0 {
        Seq::empty()
    } else {
        hex_text(bytes.drop_last()).push(hex_char((bytes.last() / 16) as nat)).push(
            hex_char((bytes.last() % 16) as nat),
        )
    }
}

fn hex_digit(d: u8) -> (r: char)
    requires
        d < 16,
    ensures
        r == hex_char(d as nat),
{
    if d < 10 {
        (48 + d) as char
    } else {
        (87 + d) as char
    }
}

pub fn hex_lower(bytes: &[u8]) -> (r: String)
    ensures
        r@ == hex_text(bytes@),
{
    let mut out: Vec<char> = Vec::new();
    let mut i: usize = 0;
    assert(bytes@.take(0) =~= Seq::<u8>::empty());
    while i < bytes.len()
        invariant
            i <= bytes.len(),
            out@ == hex_text(bytes@.take(i as int)),
        decreases bytes.len() - i,
    {
        assert(bytes@.take(i + 1).drop_last() =~= bytes@.take(i as int));
        out.push(hex_digit(bytes[i] / 16));
        out.push(hex_digit(bytes[i] % 16));
        i += 1;
    }
    assert(bytes@.take(i as int) =~= bytes@);
    string_from(out)
}

/// Each byte gives two digits.
pub proof fn lemma_hex_text_len(bytes: Seq<u8>)
    ensures
        hex_text(bytes).len() == 2 * bytes.len(),
    decreases bytes.len(),
{
    if bytes.len() > 0 {
        lemma_hex_text_len(bytes.drop_last());
    }
}

/// `n` in base sixteen with at least `width` digits, in lower case.
pub open spec fn hex_padded(n: nat, width: nat) -> Seq<char>
    decreases n, width,
{
    if n == 0 && width == 0 {
        Seq::empty()
    } else if n < 16 {
        let high: nat = if width > 0 {
            (width - 1) as nat
        } else {
            0
        };
        Seq::new(high, |i: int| '0').push(hex_char(n))
    } else {
        hex_padded(
            n / 16,
            if width > 0 {
                (width - 1) as nat
            } else {
                0
            },
        ).push(hex_char(n % 16))
    }
}

pub fn hex_number(n: u64, width: usize) -> (r: String)
    ensures
        r@ == hex_padded(n as nat, width as nat),
{
    string_from(hex_number_chars(n, width))
}

fn hex_number_chars(n: u64, width: usize) -> (r: Vec<char>)
    ensures
        r@ == hex_padded(n as nat, width as nat),
    decreases n,
{
    let mut out: Vec<char> = Vec::new();
    if n == 0 && width == 0 {
        return out;
    }
    let lower: usize = if width > 0 {
        width - 1
    } else {
        0
    };
    if n < 16 {
        let mut i: usize = 0;
        while i < lower
            invariant
                i <= lower,
                out@ =~= Seq::new(i as nat, |k: int| '0'),
            decreases lower - i,
        {
            out.push('0');
            i += 1;
        }
        out.push(hex_digit(n as u8));
        out
    } else {
        let mut out = hex_number_chars(n / 16, lower);
        out.push(hex_digit((n % 16) as u8));
        out
    }
}

} // verus!
