//! What the operations on texts are for.
use crate::text::{
    ascii_lower, ascii_upper, decimal, digit_char, has_suffix, hex_char, hex_text, joined,
    lemma_split_nonempty, lemma_split_pieces_hold_no_separator, split, trim_end_where,
    trim_start_where, with_char_replaced, with_replaced, without_suffixes,
};
use vstd::prelude::*;

verus! {

/// Trimming the start takes away exactly the characters that stand before the first one that
/// is to stay.
pub proof fn trimming_the_start_stops_in_time(s: Seq<char>, p: spec_fn(char) -> bool)
    ensures
        ({
            let r = trim_start_where(s, p);
            &&& r.len() <= s.len()
            &&& r == s.skip(s.len() - r.len())
            &&& r.len() > 0 ==> !p(r[0])
            &&& forall|i: int| 0 <= i < s.len() - r.len() ==> p(#[trigger] s[i])
        }),
    decreases s.len(),
{
    if s.len() > 0 && p(s[0]) {
        let rest = s.drop_first();
        trimming_the_start_stops_in_time(rest, p);
        let r = trim_start_where(s, p);
        assert(rest.skip(rest.len() - r.len()) =~= s.skip(s.len() - r.len()));
        assert forall|i: int| 0 <= i < s.len() - r.len() implies p(#[trigger] s[i]) by {
            if i > 0 {
                assert(rest[i - 1] == s[i]);
            }
        }
    } else {
        assert(s.skip(0) =~= s);
    }
}

/// Trimming the end takes away exactly the characters that stand behind the last one that is
/// to stay.
pub proof fn trimming_the_end_stops_in_time(s: Seq<char>, p: spec_fn(char) -> bool)
    ensures
        ({
            let r = trim_end_where(s, p);
            &&& r.len() <= s.len()
            &&& r == s.take(r.len() as int)
            &&& r.len() > 0 ==> !p(r.last())
            &&& forall|i: int| r.len() <= i < s.len() ==> p(#[trigger] s[i])
        }),
    decreases s.len(),
{
    if s.len() > 0 && p(s.last()) {
        let rest = s.drop_last();
        trimming_the_end_stops_in_time(rest, p);
        let r = trim_end_where(s, p);
        assert(rest.take(r.len() as int) =~= s.take(r.len() as int));
        assert forall|i: int| r.len() <= i < s.len() implies p(#[trigger] s[i]) by {
            if i < rest.len() {
                assert(rest[i] == s[i]);
            }
        }
    } else {
        assert(s.take(s.len() as int) =~= s);
    }
}

/// Case touches the letters of the alphabet alone, and only their case.
pub proof fn case_is_all_that_changes(s: Seq<char>)
    ensures
        ascii_lower(s).len() == s.len(),
        ascii_upper(s).len() == s.len(),
        ascii_lower(ascii_lower(s)) == ascii_lower(s),
        ascii_lower(ascii_upper(s)) == ascii_lower(s),
        forall|i: int|
            0 <= i < s.len() ==> if 'A' <= #[trigger] s[i] && s[i] <= 'Z' {
                ascii_lower(s)[i] as int == s[i] as int + 32
            } else {
                ascii_lower(s)[i] == s[i]
            },
{
    assert(ascii_lower(ascii_lower(s)) =~= ascii_lower(s));
    assert(ascii_lower(ascii_upper(s)) =~= ascii_lower(s));
}

/// A text that is split joins back to itself.
pub proof fn a_split_text_joins_back(s: Seq<char>, sep: char)
    ensures
        joined(split(s, sep), seq![sep]) == s,
    decreases s.len(),
{
    if s.len() > 0 {
        let front = s.drop_last();
        let before = split(front, sep);
        let after = split(s, sep);
        lemma_split_nonempty(front, sep);
        a_split_text_joins_back(front, sep);
        if s.last() == sep {
            assert(after.drop_last() =~= before);
            assert(joined(after, seq![sep]) =~= front + seq![sep]);
        } else {
            assert(after.drop_last() =~= before.drop_last());
            assert(joined(after, seq![sep]) =~= joined(before, seq![sep]).push(s.last()));
        }
        assert(front.push(s.last()) =~= s);
    } else {
        assert(joined(split(s, sep), seq![sep]) =~= s);
    }
}

/// The pieces of a split text hold no separator, and there is one more of them than there are
/// separators.
pub proof fn a_text_is_split_at_each_separator(s: Seq<char>, sep: char)
    ensures
        split(s, sep).len() == 1 + s.filter(|c: char| c == sep).len(),
        forall|i: int| 0 <= i < split(s, sep).len() ==> !(#[trigger] split(s, sep)[i]).contains(sep),
    decreases s.len(),
{
    lemma_split_pieces_hold_no_separator(s, sep);
    reveal(Seq::filter);
    if s.len() > 0 {
        lemma_split_nonempty(s.drop_last(), sep);
        a_text_is_split_at_each_separator(s.drop_last(), sep);
    }
}

/// A text is replaced wherever it stands, from the front on, and nothing else is.
pub proof fn a_text_is_replaced_where_it_stands(
    head: Seq<char>,
    from: Seq<char>,
    rest: Seq<char>,
    to: Seq<char>,
)
    requires
        from.len() > 0,
        !head.contains(from[0]),
    ensures
        with_replaced(head + from + rest, from, to) == head + to + with_replaced(rest, from, to),
    decreases head.len(),
{
    let s = head + from + rest;
    if head.len() == 0 {
        assert(s.take(from.len() as int) =~= from);
        assert(s.skip(from.len() as int) =~= rest);
        assert(head + to + with_replaced(rest, from, to) =~= to + with_replaced(rest, from, to));
    } else {
        let tail = head.drop_first();
        assert(s.take(from.len() as int)[0] == head[0]);
        assert(head.contains(head[0]));
        assert(s.drop_first() =~= tail + from + rest);
        assert forall|i: int| 0 <= i < tail.len() implies tail[i] != from[0] by {
            assert(tail[i] == head[i + 1]);
            assert(head.contains(head[i + 1]));
        }
        a_text_is_replaced_where_it_stands(tail, from, rest, to);
        assert(head + to + with_replaced(rest, from, to) =~= seq![head[0]] + (tail + to
            + with_replaced(rest, from, to)));
    }
}

/// A text that does not hold what is to be replaced stays as it is.
pub proof fn a_text_without_it_stays(s: Seq<char>, from: Seq<char>, to: Seq<char>)
    requires
        from.len() > 0,
        !s.contains(from[0]),
    ensures
        with_replaced(s, from, to) == s,
    decreases s.len(),
{
    if s.len() >= from.len() {
        let rest = s.drop_first();
        assert(s.contains(s[0]));
        assert(s.take(from.len() as int)[0] == s[0]);
        assert forall|i: int| 0 <= i < rest.len() implies rest[i] != from[0] by {
            assert(rest[i] == s[i + 1]);
            assert(s.contains(s[i + 1]));
        }
        a_text_without_it_stays(rest, from, to);
        assert(seq![s[0]] + rest =~= s);
    }
}

/// Where one character stands for another, the other is gone and every other stays.
pub proof fn a_replaced_character_is_gone(s: Seq<char>, from: char, to: char)
    requires
        from != to,
    ensures
        !with_char_replaced(s, from, to).contains(from),
        with_char_replaced(s, from, to).len() == s.len(),
        forall|i: int|
            0 <= i < s.len() ==> with_char_replaced(s, from, to)[i] == (if #[trigger] s[i] == from {
                to
            } else {
                s[i]
            }),
{
}

/// Taking suffixes away leaves a text that does not end in one, and takes nothing else.
pub proof fn no_suffix_is_left(s: Seq<char>, p: Seq<char>)
    requires
        p.len() > 0,
    ensures
        ({
            let r = without_suffixes(s, p);
            &&& r.len() <= s.len()
            &&& r == s.take(r.len() as int)
            &&& !has_suffix(r, p)
            &&& !has_suffix(s, p) ==> r == s
            &&& has_suffix(s, p) ==> r == without_suffixes(s.take(s.len() - p.len()), p)
        }),
    decreases s.len(),
{
    if has_suffix(s, p) {
        no_suffix_is_left(s.take(s.len() - p.len()), p);
        let r = without_suffixes(s, p);
        assert(s.take(s.len() - p.len()).take(r.len() as int) =~= s.take(r.len() as int));
    } else {
        assert(s.take(s.len() as int) =~= s);
    }
}

/// Numbers are told apart by their digits, and none begins with a needless zero.
pub proof fn numbers_are_told_apart(a: nat, b: nat)
    ensures
        decimal(a) == decimal(b) ==> a == b,
        decimal(a).len() > 0,
        a > 0 ==> decimal(a)[0] != '0',
        decimal(a).last() == digit_char(a % 10),
    decreases a,
{
    if a >= 10 {
        numbers_are_told_apart(a / 10, b / 10);
        assert(decimal(a).drop_last() =~= decimal(a / 10));
    }
    if b >= 10 {
        assert(decimal(b).drop_last() =~= decimal(b / 10));
        assert(decimal(b).last() == digit_char(b % 10));
        lemma_digits_are_there(b / 10);
    }
    if a >= 10 {
        lemma_digits_are_there(a / 10);
    }
    if decimal(a) == decimal(b) {
        assert(decimal(a).last() == decimal(b).last());
        assert(decimal(a).len() == decimal(b).len());
    }
}

proof fn lemma_digits_are_there(n: nat)
    ensures
        decimal(n).len() > 0,
    decreases n,
{
}

/// Each byte is written as its two digits, in the order of the bytes.
pub proof fn bytes_are_written_digit_by_digit(bytes: Seq<u8>, i: int)
    requires
        0 <= i < bytes.len(),
    ensures
        hex_text(bytes).len() == 2 * bytes.len(),
        hex_text(bytes)[2 * i] == hex_char((bytes[i] / 16) as nat),
        hex_text(bytes)[2 * i + 1] == hex_char((bytes[i] % 16) as nat),
    decreases bytes.len(),
{
    crate::text::lemma_hex_text_len(bytes);
    crate::text::lemma_hex_text_len(bytes.drop_last());
    if i < bytes.len() - 1 {
        bytes_are_written_digit_by_digit(bytes.drop_last(), i);
    }
}

/// Bytes that differ are written differently.
pub proof fn written_bytes_are_told_apart(a: Seq<u8>, b: Seq<u8>)
    requires
        hex_text(a) == hex_text(b),
    ensures
        a == b,
{
    crate::text::lemma_hex_text_len(a);
    crate::text::lemma_hex_text_len(b);
    assert forall|i: int| 0 <= i < a.len() implies a[i] == b[i] by {
        bytes_are_written_digit_by_digit(a, i);
        bytes_are_written_digit_by_digit(b, i);
        let (x, y) = (a[i], b[i]);
        assert(hex_char((x / 16) as nat) == hex_char((y / 16) as nat) ==> x / 16 == y / 16);
        assert(hex_char((x % 16) as nat) == hex_char((y % 16) as nat) ==> x % 16 == y % 16);
    }
    assert(a =~= b);
}

} // verus!
