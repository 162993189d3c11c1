//! The total of a selection of entries and the line that reports it.

use vstd::prelude::*;
use crate::decimal::{
    hundredths_text, render_hundredths, render_signed_two_digits, signed_two_digits,
};
use crate::duration::{hours_part, minutes_part, saturated, seconds_part, Duration};
use crate::entry::TimeEntry;

verus! {

/// The hourly rate at which a total is valued, in whole currency units.
pub const HOURLY_RATE: u32 = 26;

/// A count of sixtieths as the nearest whole number; a count that lies
/// halfway goes away from zero.
pub open spec fn sixtieths_rounded(sixtieths: int) -> int {
    if sixtieths < 0 {
        -((-sixtieths + 30) / 60)
    } else {
        (sixtieths + 30) / 60
    }
}

/// What `total` seconds are worth at `rate` hundredths an hour, in
/// hundredths: the whole hours at the rate and the whole minutes beyond
/// them at a sixtieth of it, rounded to the nearest hundredth. Seconds
/// beyond the whole minutes are worth nothing.
pub open spec fn worth_hundredths(total: int, rate: int) -> int {
    sixtieths_rounded(60 * (hours_part(total) * rate) + rate * minutes_part(total))
}

/// The line that reports a total of `total` seconds valued at `rate`
/// hundredths an hour, as in `Total time: 01:01:01 which is worth 26.43€`.
pub open spec fn summary_text(total: int, rate: int) -> Seq<char> {
    "Total time: "@ + signed_two_digits(hours_part(total)) + seq![':'] + signed_two_digits(
        minutes_part(total),
    ) + seq![':'] + signed_two_digits(seconds_part(total)) + " which is worth "@
        + hundredths_text(worth_hundredths(total, rate)) + "€"@
}

/// The sum of a sequence of spans.
pub open spec fn sum_seconds(spans: Seq<int>) -> int
    decreases spans.len(),
{
    if spans.len() == 0 {
        0
    } else {
        sum_seconds(spans.drop_last()) + spans.last()
    }
}

/// The durations of a sequence of entries, in its order.
pub open spec fn durations_of(elements: Seq<&TimeEntry>) -> Seq<int> {
    Seq::new(elements.len(), |i: int| elements[i].duration@)
}

/// The total that `fold_options` gives for a sequence of entries, in
/// seconds.
pub open spec fn folded(elements: Seq<&TimeEntry>) -> int {
    saturated(sum_seconds(durations_of(elements)))
}

/// An hourly rate, counted in hundredths of a currency unit.
#[derive(Clone, Copy, Debug, PartialEq, Eq, Structural)]
pub struct Rate {
    hundredths: u64,
}

impl View for Rate {
    type V = int;

    /// Hundredths of a currency unit an hour.
    closed spec fn view(&self) -> int {
        self.hundredths as int
    }
}

impl Rate {
    /// Every rate lies within `u64`: none is negative.
    pub proof fn lemma_within_u64(self)
        ensures
            0 <= self@ <= u64::MAX,
    {
    }

    /// A rate of `units` whole currency units an hour.
    pub fn units(units: u32) -> (rate: Rate)
        ensures
            rate@ == 100 * units,
    {
        Rate { hundredths: 100 * (units as u64) }
    }

    /// A rate of `hundredths` hundredths of a currency unit an hour.
    pub fn hundredths(hundredths: u64) -> (rate: Rate)
        ensures
            rate@ == hundredths,
    {
        Rate { hundredths }
    }
}

/// The total duration of a selection of entries.
#[derive(Clone, Copy, Debug, PartialEq, Eq, Structural)]
pub struct Summary {
    duration: Duration,
}

impl View for Summary {
    type V = int;

    /// The total in seconds.
    closed spec fn view(&self) -> int {
        self.duration@
    }
}

impl Summary {
    /// The summary of a total of `duration`.
    pub fn new(duration: Duration) -> (summary: Summary)
        ensures
            summary@ == duration@,
    {
        Summary { duration }
    }

    /// The total.
    pub fn duration(&self) -> (total: Duration)
        ensures
            total@ == self@,
    {
        self.duration
    }

    /// What the total is worth at `rate`, in hundredths of a currency unit.
    pub fn worth(&self, rate: Rate) -> (hundredths: i128)
        ensures
            hundredths == worth_hundredths(self@, rate@),
    {
        let (hours, minutes, _) = self.duration.components();
        proof {
            self.duration.lemma_within_i64();
        }
        let whole_minutes: i128 = 60 * (hours as i128) + minutes as i128;
        let per_hour: i128 = rate.hundredths as i128;
        assert(-0x1_0000_0000_0000_0000 * 0x400_0000_0000_0000 <= per_hour * whole_minutes
            <= 0x1_0000_0000_0000_0000 * 0x400_0000_0000_0000) by (nonlinear_arith)
            requires
                0 <= per_hour < 0x1_0000_0000_0000_0000,
                -0x400_0000_0000_0000 <= whole_minutes <= 0x400_0000_0000_0000,
        ;
        let sixtieths: i128 = per_hour * whole_minutes;
        assert(sixtieths == 60 * (hours_part(self@) * rate@) + rate@ * minutes_part(self@))
            by (nonlinear_arith)
            requires
                sixtieths == per_hour * whole_minutes,
                whole_minutes == 60 * hours_part(self@) + minutes_part(self@),
                per_hour == rate@,
        ;
        if sixtieths < 0 {
            -((-sixtieths + 30) / 60)
        } else {
            (sixtieths + 30) / 60
        }
    }

    /// The line that reports the total and its worth at `rate`: hours,
    /// minutes and seconds, each at two digits or more, and the worth with
    /// two digits after the point. Of a negative total each part carries
    /// the minus sign, and so does the worth.
    pub fn format(&self, rate: Rate) -> (line: String)
        ensures
            line@ == summary_text(self@, rate@),
    {
        let (hours, minutes, seconds) = self.duration.components();
        let worth = self.worth(rate);
        let hours_text = render_signed_two_digits(hours);
        let minutes_text = render_signed_two_digits(minutes);
        let seconds_text = render_signed_two_digits(seconds);
        let worth_text = render_hundredths(worth);
        proof {
            reveal_strlit(":");
        }
        let mut line = String::from_str("Total time: ");
        line.append(hours_text.as_str());
        line.append(":");
        line.append(minutes_text.as_str());
        line.append(":");
        line.append(seconds_text.as_str());
        line.append(" which is worth ");
        line.append(worth_text.as_str());
        line.append("€");
        line
    }

    /// The line that reports the total and its worth at `HOURLY_RATE`.
    pub fn display(&self) -> (line: String)
        ensures
            line@ == summary_text(self@, 100 * HOURLY_RATE),
    {
        self.format(Rate::units(HOURLY_RATE))
    }
}

/// The total of the entries handed in, each counted once: their durations
/// are summed exactly, whatever their number and order, and the sum is held
/// at the nearest bound of `i64` only where it lies outside.
pub fn fold_options(elements: &[&TimeEntry]) -> (summary: Summary)
    ensures
        summary@ == folded(elements@),
        elements@.len() == 0 ==> summary@ == 0,
{
    let ghost spans = durations_of(elements@);
    let mut total: i128 = 0;
    let mut i: usize = 0;
    while i < elements.len()
        invariant
            i <= elements.len(),
            spans == durations_of(elements@),
            total == sum_seconds(spans.take(i as int)),
            -(i * 0x8000_0000_0000_0000) <= total <= i * 0x8000_0000_0000_0000,
        decreases elements.len() - i,
    {
        let span = elements[i].duration.num_seconds();
        assert(spans.take(i + 1).drop_last() == spans.take(i as int));
        total = total + span as i128;
        i = i + 1;
    }
    assert(spans.take(i as int) == spans);
    let secs: i64 = if total > i64::MAX as i128 {
        i64::MAX
    } else if total < i64::MIN as i128 {
        i64::MIN
    } else {
        total as i64
    };
    Summary { duration: Duration::seconds(secs) }
}

/// The seconds of a total beyond its whole minutes add nothing to its
/// worth.
pub proof fn lemma_seconds_are_worth_nothing(total: int, rate: int)
    ensures
        worth_hundredths(total, rate) == worth_hundredths(total - seconds_part(total), rate),
{
}

/// At a rate that is not negative, a longer total is worth no less than a
/// shorter one, whatever their signs; a total that is not negative is
/// worth nothing negative.
pub proof fn lemma_worth_grows_with_the_total(less: int, more: int, rate: int)
    requires
        less <= more,
        rate >= 0,
    ensures
        worth_hundredths(less, rate) <= worth_hundredths(more, rate),
        less >= 0 ==> worth_hundredths(less, rate) >= 0,
{
    let few = 60 * hours_part(less) + minutes_part(less);
    let many = 60 * hours_part(more) + minutes_part(more);
    assert(few <= many);
    assert(60 * (hours_part(less) * rate) + rate * minutes_part(less) == rate * few)
        by (nonlinear_arith)
        requires
            few == 60 * hours_part(less) + minutes_part(less),
    ;
    assert(60 * (hours_part(more) * rate) + rate * minutes_part(more) == rate * many)
        by (nonlinear_arith)
        requires
            many == 60 * hours_part(more) + minutes_part(more),
    ;
    assert(rate * few <= rate * many) by (nonlinear_arith)
        requires
            few <= many,
            rate >= 0,
    ;
    assert(less >= 0 ==> rate * few >= 0) by (nonlinear_arith)
        requires
            less >= 0 ==> few >= 0,
            rate >= 0,
    ;
}

/// Whole hours are worth the rate each, with nothing rounded.
pub proof fn lemma_worth_of_whole_hours(hours: int, rate: int)
    ensures
        worth_hundredths(3600 * hours, rate) == hours * rate,
{
    let total = 3600 * hours;
    let sixtieths = 60 * (hours_part(total) * rate) + rate * minutes_part(total);
    assert(sixtieths == 60 * (hours * rate)) by (nonlinear_arith)
        requires
            sixtieths == 60 * (hours_part(total) * rate) + rate * minutes_part(total),
            hours_part(total) == hours,
            minutes_part(total) == 0,
    ;
}

/// The line that reports an empty total is the same at every rate.
pub proof fn lemma_zero_total_text(rate: int)
    ensures
        summary_text(0, rate) == "Total time: 00:00:00 which is worth 0.00€"@,
{
    reveal_strlit("Total time: ");
    reveal_strlit(" which is worth ");
    reveal_strlit("€");
    reveal_strlit("Total time: 00:00:00 which is worth 0.00€");
    let hours = hours_part(0);
    let minutes = minutes_part(0);
    assert(60 * (hours * rate) + rate * minutes == 0) by (nonlinear_arith)
        requires
            hours == 0,
            minutes == 0,
    ;
}

} // verus!
