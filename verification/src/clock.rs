//! Instants in UTC and their textual forms.
use vstd::prelude::*;

verus! {

/// An instant: whole seconds since 1970-01-01T00:00:00Z and the nanoseconds
/// within the second.
#[derive(Debug, Clone, Copy, PartialEq, Eq, Structural)]
pub struct UtcTime {
    pub seconds: i64,
    pub nanos: u32,
}

/// Pattern of the time column of the audit view.
pub const AUDIT_VIEW_PATTERN: &'static str = "%Y-%m-%d %H:%M:%SZ";

/// Pattern of the stamp in the name of a preserved registry key.
pub const BACKUP_KEY_PATTERN: &'static str = "%Y%m%dT%H%M%S%.6fZ";

/// The patterns that instants are rendered with.
pub open spec fn is_known_pattern(pattern: Seq<char>) -> bool {
    pattern == AUDIT_VIEW_PATTERN@ || pattern == BACKUP_KEY_PATTERN@
}

/// What `chrono` writes for an instant and a pattern; `None` where the instant is
/// outside the range of `chrono::DateTime`.
pub uninterp spec fn utc_text(seconds: int, nanos: int, pattern: Seq<char>) -> Option<Seq<char>>;

/// Builds the instant with `chrono::DateTime::<Utc>::from_timestamp` and renders it
/// with `DateTime::format`. The text is named by [`utc_text`]; the calendar
/// arithmetic is not stated. `DateTime::format` panics on a malformed pattern, so
/// only the patterns above are admitted.
#[verifier::external_body]
pub(crate) fn format_utc(at: UtcTime, pattern: &str) -> (r: Option<String>)
    requires
        is_known_pattern(pattern@),
    ensures
        match r {
            Some(text) => utc_text(at.seconds as int, at.nanos as int, pattern@) == Some(text@),
            None => utc_text(at.seconds as int, at.nanos as int, pattern@) is None,
        },
{
    chrono::DateTime::<chrono::Utc>::from_timestamp(at.seconds, at.nanos).map(
        |instant| instant.format(pattern).to_string(),
    )
}

/// The stamp by which something made at an instant is named.
#[derive(Debug)]
pub struct Stamp {
    pub at: UtcTime,
    pub text: String,
}

impl Stamp {
    /// The stamp of an instant; `None` where the instant is outside the calendar.
    pub fn of(at: UtcTime) -> (r: Option<Stamp>)
        ensures
            match r {
                Some(stamp) => stamp.at == at && utc_text(
                    at.seconds as int,
                    at.nanos as int,
                    BACKUP_KEY_PATTERN@,
                ) == Some(stamp.text@),
                None => utc_text(at.seconds as int, at.nanos as int, BACKUP_KEY_PATTERN@) is None,
            },
    {
        match format_utc(at, BACKUP_KEY_PATTERN) {
            Some(text) => Some(Stamp { at: at, text: text }),
            None => None,
        }
    }
}

/// The microseconds since the epoch.
pub open spec fn micros(at: UtcTime) -> int {
    at.seconds * 1_000_000 + at.nanos / 1000
}

pub fn timestamp_micros(at: UtcTime) -> (r: i128)
    ensures
        r == micros(at),
        r > i128::MIN,
{
    at.seconds as i128 * 1_000_000 + (at.nanos / 1000) as i128
}

/// Whether one instant is before another.
pub open spec fn is_before(a: UtcTime, b: UtcTime) -> bool {
    a.seconds < b.seconds || (a.seconds == b.seconds && a.nanos < b.nanos)
}

pub fn before(a: UtcTime, b: UtcTime) -> (r: bool)
    ensures
        r == is_before(a, b),
{
    a.seconds < b.seconds || (a.seconds == b.seconds && a.nanos < b.nanos)
}

} // verus!
