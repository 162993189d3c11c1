//! Spans of time counted in whole seconds.

use vstd::prelude::*;
use crate::decimal::{lemma_two_digits_below_hundred, render_two_digits, two_digits};

verus! {

/// Seconds in a minute.
pub const SECONDS_PER_MINUTE: i64 = 60;

/// Seconds in an hour.
pub const SECONDS_PER_HOUR: i64 = 3600;

/// Seconds in a day.
pub const SECONDS_PER_DAY: i64 = 86_400;

/// The quotient of `a` by a positive `b`, rounded toward zero.
pub open spec fn quotient_toward_zero(a: int, b: int) -> int {
    if a < 0 {
        -((-a) / b)
    } else {
        a / b
    }
}

/// What is left of `a` after `quotient_toward_zero(a, b)` times `b`: it has
/// the sign of `a`, or is zero.
pub open spec fn remainder_toward_zero(a: int, b: int) -> int {
    a - b * quotient_toward_zero(a, b)
}

/// The whole hours in `total` seconds.
pub open spec fn hours_part(total: int) -> int {
    quotient_toward_zero(total, 3600)
}

/// The whole minutes in `total` seconds beyond its whole hours.
pub open spec fn minutes_part(total: int) -> int {
    quotient_toward_zero(remainder_toward_zero(total, 3600), 60)
}

/// The seconds in `total` beyond its whole minutes.
pub open spec fn seconds_part(total: int) -> int {
    remainder_toward_zero(remainder_toward_zero(total, 3600), 60)
}

/// The second of the day that a clock shows `span` seconds after midnight:
/// between 0 and 86 399, whatever the sign or the size of `span`.
pub open spec fn second_of_day(span: int) -> int {
    span % 86_400
}

/// The clock reading `HH:MM:SS` that is `span` seconds after midnight.
pub open spec fn clock_text(span: int) -> Seq<char> {
    let second = second_of_day(span);
    two_digits((second / 3600) as nat) + seq![':'] + two_digits((second % 3600 / 60) as nat)
        + seq![':'] + two_digits((second % 60) as nat)
}

/// A clock reading has eight characters, with a colon after the hours and
/// one after the minutes.
pub proof fn lemma_clock_text_shape(span: int)
    ensures
        clock_text(span).len() == 8,
        clock_text(span)[2] == ':',
        clock_text(span)[5] == ':',
{
    let second = second_of_day(span);
    lemma_two_digits_below_hundred((second / 3600) as nat);
    lemma_two_digits_below_hundred((second % 3600 / 60) as nat);
    lemma_two_digits_below_hundred((second % 60) as nat);
}

/// The value in `i64` nearest to `total`.
pub open spec fn saturated(total: int) -> int {
    if total > i64::MAX {
        i64::MAX as int
    } else if total < i64::MIN {
        i64::MIN as int
    } else {
        total
    }
}

/// A signed span of time in whole seconds. A negative span marks an entry
/// that was still running when it was read.
#[derive(Clone, Copy, Debug, PartialEq, Eq, Structural)]
pub struct Duration {
    secs: i64,
}

impl View for Duration {
    type V = int;

    /// The span in seconds.
    closed spec fn view(&self) -> int {
        self.secs as int
    }
}

impl Duration {
    /// Every span lies within `i64`.
    pub proof fn lemma_within_i64(self)
        ensures
            i64::MIN <= self@ <= i64::MAX,
    {
    }

    /// The span of `secs` seconds.
    pub closed spec fn of_seconds(secs: i64) -> Duration {
        Duration { secs }
    }

    /// The span of `raw` seconds, where a span can hold that many.
    pub closed spec fn of_unsigned_seconds(raw: u64) -> Option<Duration> {
        if raw <= i64::MAX {
            Some(Duration { secs: raw as i64 })
        } else {
            None
        }
    }

    /// The span in whole seconds.
    pub closed spec fn whole_seconds(&self) -> i64 {
        self.secs
    }

    /// A span of `secs` seconds.
    #[verifier::when_used_as_spec(of_seconds)]
    pub fn seconds(secs: i64) -> (span: Duration)
        ensures
            span == Duration::of_seconds(secs),
            span@ == secs,
    {
        Duration { secs }
    }

    /// The span of `raw` seconds, for a count that arrives unsigned. A count
    /// above `i64::MAX` is more than a span can hold and is refused: it is
    /// never taken for another length.
    #[verifier::when_used_as_spec(of_unsigned_seconds)]
    pub fn from_unsigned_seconds(raw: u64) -> (span: Option<Duration>)
        ensures
            span == Duration::of_unsigned_seconds(raw),
            span is Some <==> raw <= i64::MAX,
            span matches Some(d) ==> d@ == raw && d == Duration::of_seconds(raw as i64),
    {
        if raw <= 0x7fff_ffff_ffff_ffff {
            Some(Duration { secs: raw as i64 })
        } else {
            None
        }
    }

    /// The empty span.
    pub fn zero() -> (span: Duration)
        ensures
            span@ == 0,
    {
        Duration { secs: 0 }
    }

    /// The span in whole seconds.
    #[verifier::when_used_as_spec(whole_seconds)]
    pub fn num_seconds(&self) -> (secs: i64)
        ensures
            secs == self.whole_seconds(),
            secs == self@,
    {
        self.secs
    }

    /// A count of seconds that is made a span and read back is unchanged,
    /// whatever its sign.
    pub proof fn lemma_seconds_round_trip(secs: i64)
        ensures
            Duration::seconds(secs).num_seconds() == secs,
            Duration::seconds(secs)@ == secs,
    {
    }

    /// An unsigned count of seconds up to `i64::MAX` is made a span, and
    /// read back it is unchanged.
    pub proof fn lemma_unsigned_round_trip(raw: u64)
        requires
            raw <= i64::MAX,
        ensures
            Duration::from_unsigned_seconds(raw) is Some,
            Duration::from_unsigned_seconds(raw).unwrap().num_seconds() == raw,
            Duration::from_unsigned_seconds(raw).unwrap()@ == raw,
            Duration::from_unsigned_seconds(raw) == Some(Duration::seconds(raw as i64)),
    {
    }

    /// An unsigned count of seconds above `i64::MAX` is made no span.
    pub proof fn lemma_unsigned_refused(raw: u64)
        requires
            raw > i64::MAX,
        ensures
            Duration::from_unsigned_seconds(raw) is None,
    {
    }

    /// A span in seconds that is read and made a span again is the same
    /// span.
    pub proof fn lemma_span_round_trip(self)
        ensures
            Duration::seconds(self.num_seconds()) == self,
    {
    }

    /// The sum of two spans, held at the nearest bound of `i64` where the
    /// exact sum lies outside.
    pub fn saturating_add(&self, other: &Duration) -> (sum: Duration)
        ensures
            sum@ == saturated(self@ + other@),
    {
        let exact: i128 = self.secs as i128 + other.secs as i128;
        if exact > i64::MAX as i128 {
            Duration { secs: i64::MAX }
        } else if exact < i64::MIN as i128 {
            Duration { secs: i64::MIN }
        } else {
            Duration { secs: exact as i64 }
        }
    }

    /// Hours, minutes and seconds of the span, each rounded toward zero, so
    /// that `3600 * hours + 60 * minutes + seconds` is the span and all
    /// three have its sign or are zero.
    pub fn components(&self) -> (parts: (i64, i64, i64))
        ensures
            parts.0 == hours_part(self@),
            parts.1 == minutes_part(self@),
            parts.2 == seconds_part(self@),
            3600 * parts.0 + 60 * parts.1 + parts.2 == self@,
            -60 < parts.1 < 60,
            -60 < parts.2 < 60,
    {
        let hours = self.secs / SECONDS_PER_HOUR;
        let rest = self.secs % SECONDS_PER_HOUR;
        (hours, rest / SECONDS_PER_MINUTE, rest % SECONDS_PER_MINUTE)
    }

    /// The second of the day that a clock shows this span after midnight.
    pub fn second_in_day(&self) -> (second: i64)
        ensures
            second == second_of_day(self@),
            0 <= second < 86_400,
    {
        let rest = self.secs % SECONDS_PER_DAY;
        if rest < 0 {
            rest + SECONDS_PER_DAY
        } else {
            rest
        }
    }

    /// The span as a clock reading `HH:MM:SS`, counted from midnight: after
    /// 24 hours the reading starts again at `00:00:00`, and a negative span
    /// reads backward from midnight.
    pub fn clock(&self) -> (text: String)
        ensures
            text@ == clock_text(self@),
    {
        let second = self.second_in_day();
        let hours: u128 = (second / SECONDS_PER_HOUR) as u128;
        let minutes: u128 = (second % SECONDS_PER_HOUR / SECONDS_PER_MINUTE) as u128;
        let seconds: u128 = (second % SECONDS_PER_MINUTE) as u128;
        let mut text = render_two_digits(hours);
        let minutes_text = render_two_digits(minutes);
        let seconds_text = render_two_digits(seconds);
        proof {
            reveal_strlit(":");
        }
        text.append(":");
        text.append(minutes_text.as_str());
        text.append(":");
        text.append(seconds_text.as_str());
        text
    }
}

} // verus!
