//! Registry errors and the decoding of registry strings.
use crate::constants::ERROR_FILE_NOT_FOUND;
use crate::text::{cat2, cat3, chars_of, dec, decimal, owned, string_from, texts};
use vstd::prelude::*;

verus! {

#[derive(Debug)]
pub enum RegistryError {
    Win32Error(u32),
    ValueNotFound(String),
    InvalidUtf16,
    InvalidPath,
    IoError(String),
}

impl RegistryError {
    /// The text that describes the error.
    pub open spec fn text(self) -> Seq<char> {
        match self {
            RegistryError::Win32Error(code) => "Registry operation failed with Win32 error code: "@
                + decimal(code as nat),
            RegistryError::ValueNotFound(name) => "Registry value '"@ + name@ + "' not found"@,
            RegistryError::InvalidUtf16 => "Invalid UTF-16 registry data"@,
            RegistryError::InvalidPath => "Registry key path cannot be converted to wide string"@,
            RegistryError::IoError(reason) => "IO error: "@ + reason@,
        }
    }

    pub fn message(&self) -> (r: String)
        ensures
            r@ == self.text(),
    {
        match self {
            RegistryError::Win32Error(code) => {
                let digits = dec(*code as u64);
                cat2("Registry operation failed with Win32 error code: ", digits.as_str())
            },
            RegistryError::ValueNotFound(name) => cat3(
                "Registry value '",
                name.as_str(),
                "' not found",
            ),
            RegistryError::InvalidUtf16 => owned("Invalid UTF-16 registry data"),
            RegistryError::InvalidPath => owned(
                "Registry key path cannot be converted to wide string",
            ),
            RegistryError::IoError(reason) => cat2("IO error: ", reason.as_str()),
        }
    }

    /// Whether the error says that the key does not exist.
    pub open spec fn is_missing_key(self) -> bool {
        self matches RegistryError::Win32Error(code) && code == ERROR_FILE_NOT_FOUND
    }

    pub fn missing_key(&self) -> (r: bool)
        ensures
            r == self.is_missing_key(),
    {
        match self {
            RegistryError::Win32Error(code) => *code == ERROR_FILE_NOT_FOUND,
            _ => false,
        }
    }
}

// ---------------------------------------------------------------------------
// UTF-16
// ---------------------------------------------------------------------------

pub open spec fn is_lead_surrogate(u: u16) -> bool {
    0xd800 <= u <= 0xdbff
}

pub open spec fn is_trail_surrogate(u: u16) -> bool {
    0xdc00 <= u <= 0xdfff
}

/// The characters that UTF-16 code units stand for; `None` where a surrogate stands
/// without its partner.
pub open spec fn utf16_chars(units: Seq<u16>) -> Option<Seq<char>>
    decreases units.len(),
{
    if units.len() == 0 {
        Some(Seq::empty())
    } else if is_lead_surrogate(units[0]) {
        if units.len() >= 2 && is_trail_surrogate(units[1]) {
            match utf16_chars(units.skip(2)) {
                Some(rest) => Some(
                    seq![
                        (0x10000 + (units[0] - 0xd800) * 0x400 + (units[1] - 0xdc00)) as char,
                    ] + rest,
                ),
                None => None,
            }
        } else {
            None
        }
    } else if is_trail_surrogate(units[0]) {
        None
    } else {
        match utf16_chars(units.skip(1)) {
            Some(rest) => Some(seq![units[0] as char] + rest),
            None => None,
        }
    }
}

/// `char::from_u32` gives the character with this code, and nothing for a code that
/// is a surrogate or lies above U+10FFFF.
pub assume_specification[ char::from_u32 ](i: u32) -> (r: Option<char>)
    ensures
        r == (if i < 0xd800 || 0xe000 <= i <= 0x10ffff {
            Some(i as char)
        } else {
            None::<char>
        }),
;

/// The character of a unit that is no surrogate.
pub(crate) fn unit_char(unit: u16) -> (r: char)
    requires
        !is_lead_surrogate(unit),
        !is_trail_surrogate(unit),
    ensures
        r == unit as char,
{
    match char::from_u32(unit as u32) {
        Some(c) => c,
        None => '\u{fffd}',
    }
}

/// The character of two surrogates.
pub(crate) fn pair_char(lead: u16, trail: u16) -> (r: char)
    requires
        is_lead_surrogate(lead),
        is_trail_surrogate(trail),
    ensures
        r == (0x10000 + (lead - 0xd800) * 0x400 + (trail - 0xdc00)) as char,
{
    let code: u32 = 0x10000 + (lead as u32 - 0xd800) * 0x400 + (trail as u32 - 0xdc00);
    match char::from_u32(code) {
        Some(c) => c,
        None => '\u{fffd}',
    }
}

/// Decodes UTF-16; fails exactly on a surrogate without its partner.
pub fn decode_utf16(units: &[u16]) -> (r: Option<String>)
    ensures
        match r {
            Some(text) => utf16_chars(units@) == Some(text@),
            None => utf16_chars(units@) is None,
        },
{
    let mut out: Vec<char> = Vec::new();
    let mut i: usize = 0;
    proof {
        assert(units@.skip(0) =~= units@);
        match utf16_chars(units@) {
            Some(rest) => {
                assert(out@ + rest =~= rest);
            },
            None => {},
        }
    }
    while i < units.len()
        invariant
            i <= units@.len(),
            utf16_chars(units@) == (match utf16_chars(units@.skip(i as int)) {
                Some(rest) => Some(out@ + rest),
                None => None,
            }),
        decreases units.len() - i,
    {
        let unit: u16 = units[i];
        let ghost before = out@;
        let ghost tail = units@.skip(i as int);
        if 0xd800 <= unit && unit <= 0xdbff {
            if units.len() - i < 2 {
                return None;
            }
            let next: u16 = units[i + 1];
            if !(0xdc00 <= next && next <= 0xdfff) {
                return None;
            }
            out.push(pair_char(unit, next));
            i += 2;
            assert(tail.skip(2) =~= units@.skip(i as int));
        } else if 0xdc00 <= unit && unit <= 0xdfff {
            return None;
        } else {
            out.push(unit_char(unit));
            i += 1;
            assert(tail.skip(1) =~= units@.skip(i as int));
        }
        proof {
            match utf16_chars(units@.skip(i as int)) {
                Some(rest) => {
                    assert(before + (seq![out@.last()] + rest) =~= out@ + rest);
                },
                None => {},
            }
        }
    }
    proof {
        assert(units@.skip(i as int) =~= Seq::<u16>::empty());
        assert(out@ + Seq::<char>::empty() =~= out@);
    }
    Some(string_from(out))
}

/// The UTF-16 code units of one character.
pub open spec fn units_of_char(c: char) -> Seq<u16> {
    if (c as int) < 0x10000 {
        seq![c as u16]
    } else {
        seq![
            (0xd800 + (c as int - 0x10000) / 0x400) as u16,
            (0xdc00 + (c as int - 0x10000) % 0x400) as u16,
        ]
    }
}

/// The UTF-16 code units of a text.
pub open spec fn utf16_units(s: Seq<char>) -> Seq<u16>
    decreases s.len(),
{
    if s.len() == 0 {
        Seq::empty()
    } else {
        utf16_units(s.drop_last()) + units_of_char(s.last())
    }
}

fn push_units(out: &mut Vec<u16>, c: char)
    ensures
        final(out)@ == old(out)@ + units_of_char(c),
{
    let v: u32 = c as u32;
    if v < 0x10000 {
        out.push(v as u16);
    } else {
        out.push((0xd800 + (v - 0x10000) / 0x400) as u16);
        out.push((0xdc00 + (v - 0x10000) % 0x400) as u16);
    }
    assert(out@ =~= old(out)@ + units_of_char(c));
}

pub fn encode_utf16(s: &str) -> (r: Vec<u16>)
    ensures
        r@ == utf16_units(s@),
{
    let chars = chars_of(s);
    let mut out: Vec<u16> = Vec::new();
    let mut i: usize = 0;
    assert(chars@.take(0) =~= Seq::<char>::empty());
    while i < chars.len()
        invariant
            i <= chars@.len(),
            chars@ == s@,
            out@ == utf16_units(chars@.take(i as int)),
        decreases chars.len() - i,
    {
        assert(chars@.take(i + 1).drop_last() =~= chars@.take(i as int));
        push_units(&mut out, chars[i]);
        assert(out@ =~= utf16_units(chars@.take(i as int)) + units_of_char(chars@[i as int]));
        i += 1;
    }
    assert(chars@.take(chars@.len() as int) =~= chars@);
    out
}

proof fn lemma_utf16_prefix(c: char, rest: Seq<u16>)
    ensures
        utf16_chars(units_of_char(c) + rest) == (match utf16_chars(rest) {
            Some(text) => Some(seq![c] + text),
            None => None,
        }),
{
    let units = units_of_char(c) + rest;
    if (c as int) < 0x10000 {
        assert(units.skip(1) =~= rest);
        assert(units[0] == c as u16);
    } else {
        assert(units.skip(2) =~= rest);
    }
}

proof fn lemma_utf16_split(s: Seq<char>, rest: Seq<u16>)
    ensures
        utf16_chars(utf16_units(s) + rest) == (match utf16_chars(rest) {
            Some(text) => Some(s + text),
            None => None,
        }),
    decreases s.len(),
{
    if s.len() == 0 {
        assert(utf16_units(s) + rest =~= rest);
        match utf16_chars(rest) {
            Some(text) => {
                assert(s + text =~= text);
            },
            None => {},
        }
    } else {
        let tail = units_of_char(s.last()) + rest;
        lemma_utf16_split(s.drop_last(), tail);
        lemma_utf16_prefix(s.last(), rest);
        assert(utf16_units(s) + rest =~= utf16_units(s.drop_last()) + tail);
        match utf16_chars(rest) {
            Some(text) => {
                assert(s.drop_last() + (seq![s.last()] + text) =~= s + text);
            },
            None => {},
        }
    }
}

/// What is encoded decodes to the same text.
pub proof fn encoded_text_decodes(s: Seq<char>)
    ensures
        utf16_chars(utf16_units(s)) == Some(s),
{
    lemma_utf16_split(s, Seq::empty());
    assert(utf16_units(s) + Seq::<u16>::empty() =~= utf16_units(s));
    assert(s + Seq::<char>::empty() =~= s);
}

/// The units of `s` before its first zero, or all of them.
pub open spec fn before_nul(s: Seq<u16>) -> Seq<u16>
    decreases s.len(),
{
    if s.len() == 0 || s[0] == 0 {
        Seq::empty()
    } else {
        seq![s[0]] + before_nul(s.drop_first())
    }
}

/// The place of the first zero, or the length where there is none.
pub fn nul_position(slice: &[u16]) -> (r: usize)
    ensures
        r <= slice@.len(),
        forall|k: int| 0 <= k < r ==> slice@[k] != 0,
        r < slice@.len() ==> slice@[r as int] == 0,
{
    let mut i: usize = 0;
    while i < slice.len()
        invariant
            i <= slice@.len(),
            forall|k: int| 0 <= k < i ==> slice@[k] != 0,
        decreases slice.len() - i,
    {
        if slice[i] == 0 {
            return i;
        }
        i += 1;
    }
    i
}

pub proof fn lemma_before_nul(s: Seq<u16>, n: int)
    requires
        0 <= n <= s.len(),
        forall|k: int| 0 <= k < n ==> s[k] != 0,
        n < s.len() ==> s[n] == 0,
    ensures
        before_nul(s) == s.take(n),
    decreases n,
{
    if n > 0 {
        lemma_before_nul(s.drop_first(), n - 1);
        assert(seq![s[0]] + s.drop_first().take(n - 1) =~= s.take(n));
    } else {
        assert(before_nul(s) =~= s.take(n));
    }
}

/// The units of a slice before its first zero.
pub fn units_before_nul(slice: &[u16]) -> (r: Vec<u16>)
    ensures
        r@ == before_nul(slice@),
{
    let n = nul_position(slice);
    proof {
        lemma_before_nul(slice@, n as int);
    }
    let mut out: Vec<u16> = Vec::new();
    let mut i: usize = 0;
    while i < n
        invariant
            i <= n <= slice@.len(),
            out@ =~= slice@.take(i as int),
        decreases n - i,
    {
        out.push(slice[i]);
        i += 1;
    }
    out
}

/// Decodes a zero-terminated UTF-16 buffer up to its first zero.
pub fn from_wide_null(slice: &[u16]) -> (r: Result<String, RegistryError>)
    ensures
        match r {
            Ok(text) => utf16_chars(before_nul(slice@)) == Some(text@),
            Err(error) => utf16_chars(before_nul(slice@)) is None && error
                == RegistryError::InvalidUtf16,
        },
{
    let units = units_before_nul(slice);
    match decode_utf16(units.as_slice()) {
        Some(text) => Ok(text),
        None => Err(RegistryError::InvalidUtf16),
    }
}

/// The units of a text with a zero behind them.
pub fn to_wide_null(s: &str) -> (r: Vec<u16>)
    ensures
        r@ == utf16_units(s@).push(0),
{
    let mut units = encode_utf16(s);
    units.push(0);
    units
}

proof fn lemma_no_zero_unit(c: char)
    requires
        c != '\0',
    ensures
        forall|i: int| 0 <= i < units_of_char(c).len() ==> units_of_char(c)[i] != 0,
{
    assert(c as int != 0);
}

proof fn lemma_no_zero_units(s: Seq<char>)
    requires
        !s.contains('\0'),
    ensures
        forall|i: int| 0 <= i < utf16_units(s).len() ==> utf16_units(s)[i] != 0,
    decreases s.len(),
{
    if s.len() > 0 {
        assert(s.drop_last().contains('\0') ==> s.contains('\0')) by {
            if s.drop_last().contains('\0') {
                let at = choose|i: int| 0 <= i < s.drop_last().len() && s.drop_last()[i] == '\0';
                assert(s[at] == '\0');
            }
        }
        lemma_no_zero_units(s.drop_last());
        let c = s.last();
        assert(s[s.len() - 1] == c);
        lemma_no_zero_unit(c);
        let front = utf16_units(s.drop_last());
        assert forall|i: int| 0 <= i < utf16_units(s).len() implies utf16_units(s)[i] != 0 by {
            if i >= front.len() {
                assert(utf16_units(s)[i] == units_of_char(c)[i - front.len()]);
            } else {
                assert(utf16_units(s)[i] == front[i]);
            }
        }
    }
}

/// What is written as a zero-terminated buffer is read back from it, for every text
/// that holds no zero itself.
pub proof fn wide_text_reads_back(s: Seq<char>)
    requires
        !s.contains('\0'),
    ensures
        utf16_chars(before_nul(utf16_units(s).push(0))) == Some(s),
{
    let units = utf16_units(s);
    lemma_no_zero_units(s);
    lemma_before_nul(units.push(0), units.len() as int);
    assert(units.push(0).take(units.len() as int) =~= units);
    encoded_text_decodes(s);
}

// ---------------------------------------------------------------------------
// What Win32 status codes mean for a value read
// ---------------------------------------------------------------------------

pub const REG_SZ: u32 = 1;

pub const REG_EXPAND_SZ: u32 = 2;

pub const REG_DWORD: u32 = 4;

/// Win32 code for success.
pub const ERROR_SUCCESS: u32 = 0;

/// Win32 code for the end of an enumeration.
pub const ERROR_NO_MORE_ITEMS: u32 = 259;

/// The error of a failed value query.
pub open spec fn value_error(status: u32, value_name: Seq<char>, error: RegistryError) -> bool {
    if status == ERROR_FILE_NOT_FOUND {
        error matches RegistryError::ValueNotFound(name) && name@ == value_name
    } else {
        error == RegistryError::Win32Error(status)
    }
}

/// Interprets the reply to a query of a 32-bit value.
pub fn query_value_u32(value_name: &str, status: u32, value_type: u32, data: u32) -> (r: Result<
    u32,
    RegistryError,
>)
    ensures
        status == ERROR_SUCCESS && value_type == REG_DWORD ==> r == Result::<u32, RegistryError>::Ok(
            data,
        ),
        status == ERROR_SUCCESS && value_type != REG_DWORD ==> r == Result::<
            u32,
            RegistryError,
        >::Err(RegistryError::Win32Error(status)),
        status != ERROR_SUCCESS ==> (r matches Err(e) && value_error(status, value_name@, e)),
{
    if status == ERROR_SUCCESS {
        if value_type == REG_DWORD {
            Ok(data)
        } else {
            Err(RegistryError::Win32Error(status))
        }
    } else if status == ERROR_FILE_NOT_FOUND {
        Err(RegistryError::ValueNotFound(owned(value_name)))
    } else {
        Err(RegistryError::Win32Error(status))
    }
}

/// The number of 16-bit units that hold `data_size` bytes, from the reply to the
/// size query of a string value.
pub fn string_value_units(value_name: &str, status: u32, value_type: u32, data_size: u32) -> (r:
    Result<usize, RegistryError>)
    ensures
        status != ERROR_SUCCESS ==> (r matches Err(e) && value_error(status, value_name@, e)),
        status == ERROR_SUCCESS && value_type != REG_SZ && value_type != REG_EXPAND_SZ ==> r
            == Result::<usize, RegistryError>::Err(RegistryError::Win32Error(status)),
        status == ERROR_SUCCESS && (value_type == REG_SZ || value_type == REG_EXPAND_SZ) ==> (
        r matches Ok(n) && n == (data_size + 1) / 2),
{
    if status != ERROR_SUCCESS {
        if status == ERROR_FILE_NOT_FOUND {
            return Err(RegistryError::ValueNotFound(owned(value_name)));
        }
        return Err(RegistryError::Win32Error(status));
    }
    if value_type != REG_SZ && value_type != REG_EXPAND_SZ {
        return Err(RegistryError::Win32Error(status));
    }
    let units: usize = (data_size / 2 + data_size % 2) as usize;
    Ok(units)
}

/// Interprets the reply to the second query of a string value.
pub fn query_value_string(status: u32, buffer: &[u16]) -> (r: Result<String, RegistryError>)
    ensures
        status != ERROR_SUCCESS ==> r == Result::<String, RegistryError>::Err(
            RegistryError::Win32Error(status),
        ),
        status == ERROR_SUCCESS ==> match r {
            Ok(text) => utf16_chars(before_nul(buffer@)) == Some(text@),
            Err(error) => utf16_chars(before_nul(buffer@)) is None && error
                == RegistryError::InvalidUtf16,
        },
{
    if status == ERROR_SUCCESS {
        from_wide_null(buffer)
    } else {
        Err(RegistryError::Win32Error(status))
    }
}

/// The outcome of deleting a value or a tree: one that was not there counts as
/// deleted.
pub fn deletion_outcome(status: u32) -> (r: Result<(), RegistryError>)
    ensures
        r == (if status == ERROR_SUCCESS || status == ERROR_FILE_NOT_FOUND {
            Result::<(), RegistryError>::Ok(())
        } else {
            Result::<(), RegistryError>::Err(RegistryError::Win32Error(status))
        }),
{
    if status == ERROR_SUCCESS || status == ERROR_FILE_NOT_FOUND {
        Ok(())
    } else {
        Err(RegistryError::Win32Error(status))
    }
}

/// The outcome of a call that reports only a status.
pub fn status_outcome(status: u32) -> (r: Result<(), RegistryError>)
    ensures
        r == (if status == ERROR_SUCCESS {
            Result::<(), RegistryError>::Ok(())
        } else {
            Result::<(), RegistryError>::Err(RegistryError::Win32Error(status))
        }),
{
    if status == ERROR_SUCCESS {
        Ok(())
    } else {
        Err(RegistryError::Win32Error(status))
    }
}

/// The outcome of opening or creating a key: without a handle there is no success.
pub fn open_key(status: u32, has_handle: bool) -> (r: Result<(), RegistryError>)
    ensures
        r == (if status == ERROR_SUCCESS && has_handle {
            Result::<(), RegistryError>::Ok(())
        } else {
            Result::<(), RegistryError>::Err(RegistryError::Win32Error(status))
        }),
{
    if status == ERROR_SUCCESS && has_handle {
        Ok(())
    } else {
        Err(RegistryError::Win32Error(status))
    }
}

/// What one query of a subkey enumeration gave back.
pub struct SubkeyReply {
    pub status: u32,
    /// The name, up to its zero.
    pub name: Vec<u16>,
}

/// The names that an enumeration found, query by query up to the one that found no more,
/// or its first failure.
pub open spec fn subkeys(replies: Seq<SubkeyReply>) -> Result<Seq<Seq<char>>, RegistryError>
    decreases replies.len(),
{
    if replies.len() == 0 || replies[0].status == ERROR_NO_MORE_ITEMS {
        Ok(Seq::empty())
    } else if replies[0].status != ERROR_SUCCESS {
        Err(RegistryError::Win32Error(replies[0].status))
    } else {
        match (utf16_chars(before_nul(replies[0].name@)), subkeys(replies.skip(1))) {
            (None, _) => Err(RegistryError::InvalidUtf16),
            (Some(_), Err(e)) => Err(e),
            (Some(name), Ok(rest)) => Ok(seq![name] + rest),
        }
    }
}

/// The subkeys of a key, by what its enumeration gave back.
pub fn enum_subkeys(replies: &Vec<SubkeyReply>) -> (r: Result<Vec<String>, RegistryError>)
    ensures
        match r {
            Ok(names) => subkeys(replies@) == Result::<Seq<Seq<char>>, RegistryError>::Ok(
                texts(names@),
            ),
            Err(e) => subkeys(replies@) == Result::<Seq<Seq<char>>, RegistryError>::Err(e),
        },
{
    let mut names: Vec<String> = Vec::new();
    let mut i: usize = 0;
    assert(replies@.skip(0) =~= replies@);
    while i < replies.len()
        invariant
            i <= replies@.len(),
            match subkeys(replies@.skip(i as int)) {
                Ok(rest) => subkeys(replies@) == Result::<Seq<Seq<char>>, RegistryError>::Ok(
                    texts(names@) + rest,
                ),
                Err(e) => subkeys(replies@) == Result::<Seq<Seq<char>>, RegistryError>::Err(e),
            },
        decreases replies.len() - i,
    {
        let ghost left = replies@.skip(i as int);
        let ghost before = names@;
        assert(left.skip(1) =~= replies@.skip(i + 1));
        if replies[i].status == ERROR_NO_MORE_ITEMS {
            assert(texts(names@) + Seq::<Seq<char>>::empty() =~= texts(names@));
            return Ok(names);
        }
        if replies[i].status != ERROR_SUCCESS {
            return Err(RegistryError::Win32Error(replies[i].status));
        }
        match from_wide_null(replies[i].name.as_slice()) {
            Ok(name) => {
                names.push(name);
                assert(texts(names@) =~= texts(before) + seq![name@]);
                assert(forall|rest: Seq<Seq<char>>| #[trigger]
                    (texts(before) + (seq![name@] + rest)) =~= texts(names@) + rest);
            },
            Err(e) => {
                return Err(e);
            },
        }
        i += 1;
    }
    assert(texts(names@) + Seq::<Seq<char>>::empty() =~= texts(names@));
    Ok(names)
}

/// The subkeys that are told are those that the system named, one for one and in order, up to
/// where it said that there are no more; a failure or a name that is no text stops the
/// listing.
pub proof fn subkeys_are_told_as_named(replies: Seq<SubkeyReply>)
    ensures
        subkeys(replies) matches Ok(names) ==> names.len() <= replies.len() && (names.len()
            == replies.len() || replies[names.len() as int].status == 259) && forall|i: int|
            0 <= i < names.len() ==> (#[trigger] replies[i]).status == 0 && utf16_chars(
                before_nul(replies[i].name@),
            ) == Some(names[i]),
        subkeys(replies) matches Err(RegistryError::Win32Error(code)) ==> code != 0 && code != 259
            && exists|i: int| 0 <= i < replies.len() && (#[trigger] replies[i]).status == code,
    decreases replies.len(),
{
    if replies.len() > 0 && replies[0].status == ERROR_SUCCESS {
        let rest = replies.skip(1);
        subkeys_are_told_as_named(rest);
        match subkeys(replies) {
            Ok(names) => {
                let behind = subkeys(rest)->Ok_0;
                assert(names.len() == behind.len() + 1);
                assert(behind.len() < rest.len() ==> replies[names.len() as int]
                    == rest[behind.len() as int]);
                assert forall|i: int| 0 <= i < names.len() implies (
                #[trigger] replies[i]).status == 0 && utf16_chars(before_nul(replies[i].name@))
                    == Some(names[i]) by {
                    if i > 0 {
                        assert(rest[i - 1] == replies[i]);
                        assert(names[i] == behind[i - 1]);
                    }
                }
            },
            Err(RegistryError::Win32Error(code)) => {
                let i = choose|i: int|
                    0 <= i < rest.len() && (#[trigger] rest[i]).status == code;
                assert(replies[i + 1] == rest[i]);
            },
            Err(_) => {},
        }
    }
}

/// A value is told to be missing exactly where the system says that there is none.
pub proof fn a_missing_value_is_told_as_missing(
    status: u32,
    value_name: Seq<char>,
    error: RegistryError,
)
    requires
        value_error(status, value_name, error),
    ensures
        error is ValueNotFound <==> status == 2,
        error matches RegistryError::ValueNotFound(name) ==> name@ == value_name,
        status != 2 ==> error == RegistryError::Win32Error(status),
{
}

} // verus!
