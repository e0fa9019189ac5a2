//! The provider-agnostic form of a request: where, and at what time relative to now.

use crate::time::Timestamp;
use vstd::prelude::*;

verus! {

/// A point in time relative to an origin: the origin itself, or a whole number of hours or
/// days after it (before it when negative).
#[derive(Debug, Clone, Copy, PartialEq, Eq, Structural)]
pub enum DateOffsetRepresentation {
    Now,
    HourOffset(isize),
    DayOffset(isize),
}

pub const SECS_PER_HOUR: i64 = 3600;

pub const SECS_PER_DAY: i64 = 86400;

impl DateOffsetRepresentation {
    /// How many seconds the offset moves an instant.
    pub open spec fn offset_secs(self) -> int {
        match self {
            DateOffsetRepresentation::Now => 0,
            DateOffsetRepresentation::HourOffset(h) => h * SECS_PER_HOUR,
            DateOffsetRepresentation::DayOffset(d) => d * SECS_PER_DAY,
        }
    }

    /// Whether the moved instant still has its seconds in an `i64`.
    pub open spec fn resolves_from(self, origin: Timestamp) -> bool {
        i64::MIN <= origin.epoch_secs + self.offset_secs() <= i64::MAX
    }

    /// The origin moved by the offset; the sub-second part and the shown offset stay.
    pub open spec fn resolve(self, origin: Timestamp) -> Timestamp {
        Timestamp { epoch_secs: (origin.epoch_secs + self.offset_secs()) as i64, ..origin }
    }

    /// `offset_secs`, computed wide enough for every offset.
    fn shift_secs(&self) -> (r: i128)
        ensures
            r == self.offset_secs(),
    {
        match *self {
            DateOffsetRepresentation::Now => 0,
            DateOffsetRepresentation::HourOffset(h) => {
                assert(-0x1_0000_0000_0000_0000_0000 < h * SECS_PER_HOUR < 0x1_0000_0000_0000_0000_0000)
                    by (nonlinear_arith)
                    requires
                        isize::MIN <= h <= isize::MAX,
                        isize::MIN >= -0x8000_0000_0000_0000,
                        isize::MAX <= 0x7fff_ffff_ffff_ffff,
                ;
                h as i128 * SECS_PER_HOUR as i128
            },
            DateOffsetRepresentation::DayOffset(d) => {
                assert(-0x1_0000_0000_0000_0000_0000 < d * SECS_PER_DAY < 0x1_0000_0000_0000_0000_0000)
                    by (nonlinear_arith)
                    requires
                        isize::MIN <= d <= isize::MAX,
                        isize::MIN >= -0x8000_0000_0000_0000,
                        isize::MAX <= 0x7fff_ffff_ffff_ffff,
                ;
                d as i128 * SECS_PER_DAY as i128
            },
        }
    }

    /// Whether `to_chrono` can move `origin` by this offset.
    pub fn resolvable_from(&self, origin: &Timestamp) -> (r: bool)
        ensures
            r == self.resolves_from(*origin),
    {
        let shift = self.shift_secs();
        let moved: i128 = origin.epoch_secs as i128 + shift;
        i64::MIN as i128 <= moved && moved <= i64::MAX as i128
    }

    /// The instant at this offset from `origin`.
    pub fn to_chrono(&self, origin: Timestamp) -> (r: Timestamp)
        requires
            self.resolves_from(origin),
        ensures
            r == self.resolve(origin),
    {
        let shift = self.shift_secs();
        Timestamp { epoch_secs: (origin.epoch_secs as i128 + shift) as i64, ..origin }
    }
}

/// Moving by day offsets is additive: `a` days and then `b` days lead where `a + b` days
/// lead from the same origin.
pub proof fn lemma_day_offsets_add(a: isize, b: isize, origin: Timestamp)
    requires
        DateOffsetRepresentation::DayOffset(a).resolves_from(origin),
        DateOffsetRepresentation::DayOffset(b).resolves_from(
            DateOffsetRepresentation::DayOffset(a).resolve(origin),
        ),
        isize::MIN <= a + b <= isize::MAX,
    ensures
        DateOffsetRepresentation::DayOffset((a + b) as isize).resolves_from(origin),
        DateOffsetRepresentation::DayOffset(b).resolve(
            DateOffsetRepresentation::DayOffset(a).resolve(origin),
        ) == DateOffsetRepresentation::DayOffset((a + b) as isize).resolve(origin),
{
    assert((a + b) * SECS_PER_DAY == a * SECS_PER_DAY + b * SECS_PER_DAY) by (nonlinear_arith);
}

/// Moving by hour offsets is additive: `a` hours and then `b` hours lead where `a + b` hours
/// lead from the same origin.
pub proof fn lemma_hour_offsets_add(a: isize, b: isize, origin: Timestamp)
    requires
        DateOffsetRepresentation::HourOffset(a).resolves_from(origin),
        DateOffsetRepresentation::HourOffset(b).resolves_from(
            DateOffsetRepresentation::HourOffset(a).resolve(origin),
        ),
        isize::MIN <= a + b <= isize::MAX,
    ensures
        DateOffsetRepresentation::HourOffset((a + b) as isize).resolves_from(origin),
        DateOffsetRepresentation::HourOffset(b).resolve(
            DateOffsetRepresentation::HourOffset(a).resolve(origin),
        ) == DateOffsetRepresentation::HourOffset((a + b) as isize).resolve(origin),
{
    assert((a + b) * SECS_PER_HOUR == a * SECS_PER_HOUR + b * SECS_PER_HOUR) by (nonlinear_arith);
}

/// Moving by `d` days and then by `-d` days comes back to the origin.
pub proof fn lemma_day_offset_undone(d: isize, origin: Timestamp)
    requires
        DateOffsetRepresentation::DayOffset(d).resolves_from(origin),
        d > isize::MIN,
    ensures
        DateOffsetRepresentation::DayOffset(-d as isize).resolves_from(
            DateOffsetRepresentation::DayOffset(d).resolve(origin),
        ),
        DateOffsetRepresentation::DayOffset(-d as isize).resolve(
            DateOffsetRepresentation::DayOffset(d).resolve(origin),
        ) == origin,
{
    assert((-d) * SECS_PER_DAY == -(d * SECS_PER_DAY)) by (nonlinear_arith);
}

/// Moving by `h` hours and then by `-h` hours comes back to the origin.
pub proof fn lemma_hour_offset_undone(h: isize, origin: Timestamp)
    requires
        DateOffsetRepresentation::HourOffset(h).resolves_from(origin),
        h > isize::MIN,
    ensures
        DateOffsetRepresentation::HourOffset(-h as isize).resolves_from(
            DateOffsetRepresentation::HourOffset(h).resolve(origin),
        ),
        DateOffsetRepresentation::HourOffset(-h as isize).resolve(
            DateOffsetRepresentation::HourOffset(h).resolve(origin),
        ) == origin,
{
    assert((-h) * SECS_PER_HOUR == -(h * SECS_PER_HOUR)) by (nonlinear_arith);
}

impl Default for DateOffsetRepresentation {
    fn default() -> (r: Self)
        ensures
            r == DateOffsetRepresentation::Now,
    {
        DateOffsetRepresentation::Now
    }
}

/// One lookup: a location, and the time at which its weather is wanted.
#[derive(Debug)]
pub struct WeatherCommand {
    pub location: String,
    pub date: DateOffsetRepresentation,
}

impl WeatherCommand {
    pub fn new(location: String, date: DateOffsetRepresentation) -> (r: Self)
        ensures
            r.location == location,
            r.date == date,
    {
        WeatherCommand { location, date }
    }
}

} // verus!
