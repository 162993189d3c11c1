//! Moments in time, counted in seconds since the Unix epoch, and their
//! calendar dates in UTC.

use vstd::prelude::*;
use crate::duration::SECONDS_PER_DAY;

verus! {

/// The last second of the year 9999 in UTC.
pub const LAST_FOUR_DIGIT_YEAR_SECOND: i64 = 253_402_300_799;

/// The calendar date in UTC, written `YYYY-MM-DD`, of the moment `secs`
/// seconds after the Unix epoch, as `chrono` formats it with `%F`; `None`
/// for a moment that `chrono` cannot represent.
pub uninterp spec fn utc_date_text(secs: int) -> Option<Seq<char>>;

/// Calls `chrono::DateTime::from_timestamp` with no nanoseconds and formats
/// the moment it returns with `%F`.
///
/// Trusted: the result is named `utc_date_text`, which claims that the date
/// depends on the count of seconds alone. `chrono` holds the dates of the
/// years -262143 to 262142; of these the contract claims the moments from
/// the Unix epoch to the end of the year 9999.
#[verifier::external_body]
fn utc_date(secs: i64) -> (date: Option<String>)
    ensures
        match date {
            Some(text) => utc_date_text(secs as int) == Some(text@),
            None => utc_date_text(secs as int) is None,
        },
        0 <= secs <= LAST_FOUR_DIGIT_YEAR_SECOND ==> date is Some,
{
    match chrono::DateTime::from_timestamp(secs, 0) {
        Some(moment) => Some(moment.format("%F").to_string()),
        None => None,
    }
}

/// A moment that has a calendar date.
#[derive(Clone, Copy, Debug, PartialEq, Eq, Structural)]
pub struct Timestamp {
    secs: i64,
}

impl View for Timestamp {
    type V = int;

    /// Seconds since the Unix epoch.
    closed spec fn view(&self) -> int {
        self.secs as int
    }
}

impl Timestamp {
    #[verifier::type_invariant]
    spec fn has_date(self) -> bool {
        utc_date_text(self.secs as int) is Some
    }

    /// The calendar date of this moment in UTC.
    pub open spec fn date_text(self) -> Seq<char> {
        utc_date_text(self@).unwrap()
    }

    /// The moment `secs` seconds after the Unix epoch, or `None` where it has
    /// no calendar date. Every moment from the epoch to the end of the year
    /// 9999 has one.
    pub fn from_unix(secs: i64) -> (moment: Option<Timestamp>)
        ensures
            moment is Some <==> utc_date_text(secs as int) is Some,
            moment matches Some(at) ==> at@ == secs,
            0 <= secs <= LAST_FOUR_DIGIT_YEAR_SECOND ==> moment is Some,
    {
        match utc_date(secs) {
            Some(_) => Some(Timestamp { secs }),
            None => None,
        }
    }

    /// Seconds since the Unix epoch.
    pub fn unix_seconds(&self) -> (secs: i64)
        ensures
            secs == self@,
            utc_date_text(secs as int) is Some,
    {
        proof {
            use_type_invariant(self);
        }
        self.secs
    }

    /// The calendar date of this moment in UTC, written `YYYY-MM-DD`.
    pub fn iso_date(&self) -> (text: String)
        ensures
            text@ == self.date_text(),
    {
        proof {
            use_type_invariant(self);
        }
        utc_date(self.secs).unwrap()
    }

    /// The moment `days` days earlier, or `None` where that moment has no
    /// calendar date.
    pub fn days_earlier(&self, days: u32) -> (moment: Option<Timestamp>)
        ensures
            moment is Some <==> (i64::MIN <= self@ - days * 86_400 && utc_date_text(
                self@ - days * 86_400,
            ) is Some),
            moment matches Some(at) ==> at@ == self@ - days * 86_400,
            0 <= self@ - days * 86_400 <= LAST_FOUR_DIGIT_YEAR_SECOND ==> moment is Some,
    {
        let back: i64 = days as i64 * SECONDS_PER_DAY;
        match self.secs.checked_sub(back) {
            Some(secs) => Timestamp::from_unix(secs),
            None => None,
        }
    }
}

} // verus!
