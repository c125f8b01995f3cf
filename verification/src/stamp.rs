//! The time of last modification that a container records for its entry.

use vstd::prelude::*;

verus! {

/// A calendar date and a time of day, without a time zone. The container
/// format keeps years 1980 to 2107 and allows second 60.
#[derive(Clone, Copy, Debug, PartialEq, Eq, Structural)]
pub struct Timestamp {
    pub year: u16,
    pub month: u8,
    pub day: u8,
    pub hour: u8,
    pub minute: u8,
    pub second: u8,
}

impl Timestamp {
    /// The stamp can be recorded in a container.
    pub open spec fn valid(self) -> bool {
        &&& 1980 <= self.year <= 2107
        &&& 1 <= self.month <= 12
        &&& 1 <= self.day <= 31
        &&& self.hour <= 23
        &&& self.minute <= 59
        &&& self.second <= 60
    }

    /// The first moment the format can record: 1980-01-01 00:00:00.
    pub open spec fn first() -> Timestamp {
        Timestamp { year: 1980, month: 1, day: 1, hour: 0, minute: 0, second: 0 }
    }

    /// The stamp that is recorded for `self`: itself where it is valid,
    /// the epoch where it is not.
    pub open spec fn normalized(self) -> Timestamp {
        if self.valid() {
            self
        } else {
            Timestamp::first()
        }
    }

    /// Whether the stamp can be recorded.
    pub fn is_valid(&self) -> (r: bool)
        ensures
            r == self.valid(),
    {
        1980 <= self.year && self.year <= 2107 && 1 <= self.month && self.month <= 12 && 1
            <= self.day && self.day <= 31 && self.hour <= 23 && self.minute <= 59 && self.second
            <= 60
    }

    /// The first moment the format can record.
    pub fn epoch() -> (r: Timestamp)
        ensures
            r == Timestamp::first(),
            r.valid(),
    {
        Timestamp { year: 1980, month: 1, day: 1, hour: 0, minute: 0, second: 0 }
    }

    /// A stamp of the given fields, if the format can record it.
    pub fn new(year: u16, month: u8, day: u8, hour: u8, minute: u8, second: u8) -> (r: Option<
        Timestamp,
    >)
        ensures
            r is Some <==> (Timestamp { year, month, day, hour, minute, second }).valid(),
            r is Some ==> r->0 == (Timestamp { year, month, day, hour, minute, second }),
    {
        let stamp = Timestamp { year, month, day, hour, minute, second };
        if stamp.is_valid() {
            Some(stamp)
        } else {
            None
        }
    }

    /// The stamp that is recorded for this one.
    pub fn normalize(self) -> (r: Timestamp)
        ensures
            r == self.normalized(),
            r.valid(),
    {
        if self.is_valid() {
            self
        } else {
            Timestamp::epoch()
        }
    }
}

/// A normalized stamp is valid, and normalizing changes nothing the second
/// time.
pub proof fn lemma_normalized_is_valid(stamp: Timestamp)
    ensures
        stamp.normalized().valid(),
        stamp.normalized().normalized() == stamp.normalized(),
        stamp.valid() ==> stamp.normalized() == stamp,
{
}

/// Reads the clock as zip does for a new entry: `time::OffsetDateTime::now_utc`,
/// converted with zip's `DateTime::try_from`, with zip's default date where
/// the conversion fails.
///
/// Trusted, not proved: whatever moment comes back can be recorded. Nothing
/// is claimed of which moment it is. `now_utc` panics where the system clock
/// lies beyond the years that `time` can hold; no argument could prevent it.
#[verifier::external_body]
pub(crate) fn clock_reading() -> (r: Timestamp)
    ensures
        r.valid(),
{
    let now = zip::DateTime::try_from(time::OffsetDateTime::now_utc()).unwrap_or_default();
    Timestamp {
        year: now.year(),
        month: now.month(),
        day: now.day(),
        hour: now.hour(),
        minute: now.minute(),
        second: now.second(),
    }
}

} // verus!
