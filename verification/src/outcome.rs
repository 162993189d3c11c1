//! How a run ends, and the line that tells the user.

use vstd::prelude::*;
use crate::summary::{summary_text, Summary, HOURLY_RATE};

verus! {

/// What the user is told after leaving the list without choosing.
pub const CANCELLED_NOTICE: &'static str = "Nothing was selected, so there is nothing to sum up.";

/// What the user is told when the list could not be shown or read.
pub const FAILED_NOTICE: &'static str = "The selection could not be completed.";

/// How the selection ended.
#[derive(Clone, Copy, Debug, PartialEq, Eq, Structural)]
pub enum Selection {
    /// Entries were chosen, and this is their total.
    Chosen(Summary),
    /// The user left the list without choosing.
    Cancelled,
    /// The list could not be shown or read.
    Failed,
}

/// The line that reports how the selection ended: the total and its worth
/// at `HOURLY_RATE`, or the notice that fits.
pub open spec fn report_text(selection: Selection) -> Seq<char> {
    match selection {
        Selection::Chosen(summary) => summary_text(summary@, 100 * HOURLY_RATE),
        Selection::Cancelled => CANCELLED_NOTICE@,
        Selection::Failed => FAILED_NOTICE@,
    }
}

/// The line to print at the end of a run. None of the three endings is an
/// error of the program: each is reported and the run ends normally.
pub fn report(selection: &Selection) -> (line: String)
    ensures
        line@ == report_text(*selection),
{
    match selection {
        Selection::Chosen(summary) => summary.display(),
        Selection::Cancelled => String::from_str(CANCELLED_NOTICE),
        Selection::Failed => String::from_str(FAILED_NOTICE),
    }
}

} // verus!
