//! The languages that a user prefers, as the system lists them.
use crate::registry::{decode_utf16, utf16_chars};
use crate::text::{cat2, dec, decimal, lemma_split_nonempty, owned, split};
use vstd::prelude::*;

verus! {

/// The largest list that is read, in UTF-16 units.
pub const MAX_LANGUAGE_BUFFER_UNITS: u32 = 65_536;

#[derive(Debug, Clone, PartialEq, Eq)]
pub enum LocaleError {
    Windows(u32),
    InvalidBuffer(&'static str),
    InvalidUtf16,
}

impl LocaleError {
    /// The text that describes the error.
    pub open spec fn text(self) -> Seq<char> {
        match self {
            LocaleError::Windows(code) => "GetUserPreferredUILanguages failed with Windows error "@
                + decimal(code as nat),
            LocaleError::InvalidBuffer(reason) =>
                "Windows returned an invalid preferred-language buffer: "@ + reason@,
            LocaleError::InvalidUtf16 =>
                "Windows returned an invalid UTF-16 preferred-language name"@,
        }
    }

    pub fn message(&self) -> (r: String)
        ensures
            r@ == self.text(),
    {
        match self {
            LocaleError::Windows(code) => {
                let digits = dec(*code as u64);
                cat2("GetUserPreferredUILanguages failed with Windows error ", digits.as_str())
            },
            LocaleError::InvalidBuffer(reason) => cat2(
                "Windows returned an invalid preferred-language buffer: ",
                reason,
            ),
            LocaleError::InvalidUtf16 => owned(
                "Windows returned an invalid UTF-16 preferred-language name",
            ),
        }
    }

    /// Whether this refuses a list for the given reason.
    pub open spec fn refuses(self, why: Seq<char>) -> bool {
        self matches LocaleError::InvalidBuffer(reason) && reason@ == why
    }
}

/// The names in the list, each before a zero; none in an empty list.
pub open spec fn names_in(buffer: Seq<u16>) -> Seq<Seq<u16>> {
    let content = buffer.take(buffer.len() - 2);
    if content.len() == 0 {
        Seq::empty()
    } else {
        split(content, 0u16)
    }
}

/// Whether a list ends in two zeros.
pub open spec fn is_terminated(buffer: Seq<u16>) -> bool {
    buffer.len() >= 2 && buffer[buffer.len() - 2] == 0 && buffer[buffer.len() - 1] == 0
}

/// Whether units are the name of a language.
pub open spec fn is_name(units: Seq<u16>) -> bool {
    units.len() > 0 && utf16_chars(units) is Some
}

/// Whether the first of the names that is none stands at a place.
pub open spec fn first_bad_name(names: Seq<Seq<u16>>, at: int) -> bool {
    0 <= at < names.len() && !is_name(names[at]) && all_names(names.take(at))
}

pub open spec fn all_names(names: Seq<Seq<u16>>) -> bool {
    forall|i: int| 0 <= i < names.len() ==> is_name(#[trigger] names[i])
}

/// The outcome of reading a list of so many languages.
pub open spec fn parse_outcome(
    buffer: Seq<u16>,
    expected_count: u32,
    r: Result<Vec<String>, LocaleError>,
) -> bool {
    let names = names_in(buffer);
    if !is_terminated(buffer) {
        r matches Err(e) && e.refuses("MULTI_SZ is not double-NUL terminated"@)
    } else if !all_names(names) {
        r matches Err(e) && exists|at: int| #[trigger]
            first_bad_name(names, at) && if names[at].len() == 0 {
                e.refuses("MULTI_SZ contains an empty language name"@)
            } else {
                e is InvalidUtf16
            }
    } else if names.len() != expected_count {
        r matches Err(e) && e.refuses("language count does not match the MULTI_SZ payload"@)
    } else {
        r matches Ok(languages) && languages@.len() == names.len() && forall|i: int|
            0 <= i < names.len() ==> utf16_chars(#[trigger] names[i]) == Some(languages@[i]@)
    }
}

fn split_units(units: &Vec<u16>, end: usize) -> (r: Vec<Vec<u16>>)
    requires
        end <= units@.len(),
    ensures
        r@.len() == split(units@.take(end as int), 0u16).len(),
        forall|i: int|
            0 <= i < r@.len() ==> (#[trigger] r@[i])@ == split(units@.take(end as int), 0u16)[i],
{
    let mut out: Vec<Vec<u16>> = Vec::new();
    let mut piece: Vec<u16> = Vec::new();
    let mut i: usize = 0;
    assert(units@.take(0) =~= Seq::<u16>::empty());
    assert(piece@ =~= Seq::<u16>::empty());
    while i < end
        invariant
            i <= end,
            end <= units@.len(),
            split(units@.take(i as int), 0u16).len() == out@.len() + 1,
            split(units@.take(i as int), 0u16).last() == piece@,
            forall|k: int|
                0 <= k < out@.len() ==> (#[trigger] out@[k])@ == split(
                    units@.take(i as int),
                    0u16,
                )[k],
        decreases end - i,
    {
        let unit: u16 = units[i];
        assert(units@.take(i + 1).drop_last() =~= units@.take(i as int));
        if unit == 0 {
            out.push(piece);
            piece = Vec::new();
            assert(piece@ =~= Seq::<u16>::empty());
        } else {
            piece.push(unit);
        }
        i += 1;
    }
    out.push(piece);
    out
}

/// Reads a list of so many languages.
pub fn parse_language_multisz(buffer: &Vec<u16>, expected_count: u32) -> (r: Result<
    Vec<String>,
    LocaleError,
>)
    ensures
        parse_outcome(buffer@, expected_count, r),
{
    let total: usize = buffer.len();
    if total < 2 || buffer[total - 2] != 0 || buffer[total - 1] != 0 {
        return Err(LocaleError::InvalidBuffer("MULTI_SZ is not double-NUL terminated"));
    }
    let ghost names = names_in(buffer@);
    let pieces: Vec<Vec<u16>> = if total == 2 {
        Vec::new()
    } else {
        split_units(buffer, total - 2)
    };
    let mut languages: Vec<String> = Vec::new();
    let mut i: usize = 0;
    while i < pieces.len()
        invariant
            i <= pieces@.len(),
            names == names_in(buffer@),
            is_terminated(buffer@),
            pieces@.len() == names.len(),
            forall|k: int| 0 <= k < pieces@.len() ==> (#[trigger] pieces@[k])@ == names[k],
            languages@.len() == i,
            forall|k: int|
                0 <= k < i ==> is_name(#[trigger] names[k]) && utf16_chars(names[k]) == Some(
                    languages@[k]@,
                ),
        decreases pieces.len() - i,
    {
        assert(pieces@[i as int]@ == names[i as int]);
        if pieces[i].len() == 0 {
            assert(first_bad_name(names, i as int));
            return Err(LocaleError::InvalidBuffer("MULTI_SZ contains an empty language name"));
        }
        match decode_utf16(pieces[i].as_slice()) {
            Some(language) => {
                languages.push(language);
            },
            None => {
                assert(first_bad_name(names, i as int));
                return Err(LocaleError::InvalidUtf16);
            },
        }
        i += 1;
    }
    if languages.len() != expected_count as usize {
        return Err(
            LocaleError::InvalidBuffer("language count does not match the MULTI_SZ payload"),
        );
    }
    Ok(languages)
}

/// What a query for the list put into its buffer.
#[derive(Debug)]
pub struct LanguageReply {
    pub language_count: u32,
    pub buffer_units: u32,
    pub buffer: Vec<u16>,
}

/// How many units to make room for, given the reply to the query for the size; a
/// failed query holds its error code.
pub fn language_buffer_units(size: Result<u32, u32>) -> (r: Result<u32, LocaleError>)
    ensures
        match size {
            Err(code) => r == Result::<u32, LocaleError>::Err(LocaleError::Windows(code)),
            Ok(units) => if units > MAX_LANGUAGE_BUFFER_UNITS {
                r matches Err(e) && e.refuses("required length exceeds the safety limit"@)
            } else if units < 2 {
                r matches Err(e) && e.refuses("required length omits the MULTI_SZ terminator"@)
            } else {
                r == Result::<u32, LocaleError>::Ok(units)
            },
        },
{
    match size {
        Err(code) => Err(LocaleError::Windows(code)),
        Ok(units) => {
            if units > MAX_LANGUAGE_BUFFER_UNITS {
                return Err(LocaleError::InvalidBuffer("required length exceeds the safety limit"));
            }
            if units < 2 {
                return Err(
                    LocaleError::InvalidBuffer("required length omits the MULTI_SZ terminator"),
                );
            }
            Ok(units)
        },
    }
}

/// The languages that a user prefers, the first of them first, given the replies to
/// the query for the size and to the one that fills a buffer of that size. The second
/// counts only where the first gives a size.
pub fn user_preferred_ui_languages(size: Result<u32, u32>, filled: Result<LanguageReply, u32>) -> (r:
    Result<Vec<String>, LocaleError>)
    requires
        filled matches Ok(reply) ==> (size matches Ok(units) ==> reply.buffer@.len() == units),
    ensures
        match size {
            Err(code) => r == Result::<Vec<String>, LocaleError>::Err(LocaleError::Windows(code)),
            Ok(units) => if units > MAX_LANGUAGE_BUFFER_UNITS {
                r matches Err(e) && e.refuses("required length exceeds the safety limit"@)
            } else if units < 2 {
                r matches Err(e) && e.refuses("required length omits the MULTI_SZ terminator"@)
            } else {
                match filled {
                    Err(code) => r == Result::<Vec<String>, LocaleError>::Err(
                        LocaleError::Windows(code),
                    ),
                    Ok(reply) => if reply.buffer_units > units {
                        r matches Err(e) && e.refuses(
                            "returned length exceeds the allocated buffer"@,
                        )
                    } else {
                        parse_outcome(
                            reply.buffer@.take(reply.buffer_units as int),
                            reply.language_count,
                            r,
                        )
                    },
                }
            },
        },
{
    let units: u32 = match language_buffer_units(size) {
        Ok(units) => units,
        Err(e) => {
            return Err(e);
        },
    };
    let reply = match filled {
        Ok(reply) => reply,
        Err(code) => {
            return Err(LocaleError::Windows(code));
        },
    };
    if reply.buffer_units > units {
        return Err(LocaleError::InvalidBuffer("returned length exceeds the allocated buffer"));
    }
    let mut buffer = reply.buffer;
    buffer.truncate(reply.buffer_units as usize);
    assert(buffer@ =~= reply.buffer@.take(reply.buffer_units as int));
    parse_language_multisz(&buffer, reply.language_count)
}

/// The languages that are read are as many as were announced, stand in the order of the
/// buffer and are no empty names; a buffer that does not end as it must is refused.
pub proof fn languages_are_read_as_announced(
    buffer: Seq<u16>,
    expected_count: u32,
    r: Result<Vec<String>, LocaleError>,
)
    requires
        parse_outcome(buffer, expected_count, r),
    ensures
        r matches Ok(languages) ==> languages@.len() == expected_count && buffer.len() >= 2
            && buffer[buffer.len() - 1] == 0 && buffer[buffer.len() - 2] == 0 && (expected_count == 0
            <==> buffer.len() == 2) && forall|i: int|
            0 <= i < languages@.len() ==> #[trigger] utf16_chars(
                split(buffer.take(buffer.len() - 2), 0u16)[i],
            ) == Some(languages@[i]@) && split(buffer.take(buffer.len() - 2), 0u16)[i].len() > 0,
{
    lemma_split_nonempty(buffer.take(buffer.len() - 2), 0u16);
    if let Ok(languages) = r {
        let names = names_in(buffer);
        assert forall|i: int| 0 <= i < languages@.len() implies #[trigger] utf16_chars(
            split(buffer.take(buffer.len() - 2), 0u16)[i],
        ) == Some(languages@[i]@) && split(buffer.take(buffer.len() - 2), 0u16)[i].len() > 0 by {
            assert(is_name(names[i]));
        }
    }
}

} // verus!
