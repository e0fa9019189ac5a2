//! Instants as plain values, and their calendar text as chrono writes it.

use vstd::prelude::*;

verus! {

/// An instant: whole seconds since the Unix epoch (UTC), the nanoseconds past that second,
/// and the offset from UTC at which the instant is shown.
#[derive(Clone, Copy, Debug, PartialEq, Eq, Structural)]
pub struct Timestamp {
    pub epoch_secs: i64,
    pub subsec_nanos: u32,
    pub utc_offset_secs: i32,
}

/// The first second that chrono can hold in a `DateTime<Utc>`, in year -262143.
pub const MIN_UTC_SECS: i64 = -8334601228800;

/// The last second that chrono can hold in a `DateTime<Utc>`, at the end of year 262142.
pub const MAX_UTC_SECS: i64 = 8210266876799;

/// Whether a count of seconds since the epoch names a second on chrono's calendar.
pub open spec fn on_calendar(secs: int) -> bool {
    MIN_UTC_SECS <= secs <= MAX_UTC_SECS
}

/// Whether `secs` names a second on chrono's calendar.
pub fn is_on_calendar(secs: i64) -> (r: bool)
    ensures
        r == on_calendar(secs as int),
{
    MIN_UTC_SECS <= secs && secs <= MAX_UTC_SECS
}

/// The patterns in which this library writes dates.
pub open spec fn date_pattern(p: Seq<char>) -> bool {
    ||| p == "%d/%m/%Y"@
    ||| p == "%d/%m/%Y %I:%M %p (UTC)"@
    ||| p == "%Y-%m-%d"@
    ||| p == "%Y/%m/%d"@
}

/// The text that chrono writes for the UTC instant `secs` seconds after the epoch in `pattern`.
pub uninterp spec fn utc_text(secs: int, pattern: Seq<char>) -> Seq<char>;

/// Relies on chrono's `DateTime::<Utc>::from_timestamp`, which gives `Some` for every second
/// on its calendar, and on `DateTime::format` with a valid strftime pattern, whose text depends
/// on the instant and the pattern alone.
#[verifier::external_body]
pub(crate) fn format_utc(secs: i64, pattern: &str) -> (r: String)
    requires
        on_calendar(secs as int),
        date_pattern(pattern@),
    ensures
        r@ == utc_text(secs as int, pattern@),
{
    chrono::DateTime::<chrono::Utc>::from_timestamp(secs, 0).unwrap().format(pattern).to_string()
}

} // verus!
