//! One tracked entry and the row that shows it in a list.

use vstd::prelude::*;
use crate::duration::{clock_text, Duration};
use crate::timestamp::Timestamp;

verus! {

/// What a row shows for an entry without a description.
pub const NO_DESCRIPTION: &'static str = "no description";

/// The description that a row shows: the entry's own, or the placeholder.
pub open spec fn description_text(description: Option<String>) -> Seq<char> {
    match description {
        Some(text) => text@,
        None => NO_DESCRIPTION@,
    }
}

/// The row for an entry that started on `date`, ran for `span` seconds and
/// is described by `description`: date, clock reading and description, as in
/// `2024-01-15: 01:02:05 - no description`.
pub open spec fn row_text(date: Seq<char>, span: int, description: Seq<char>) -> Seq<char> {
    date + seq![':', ' '] + clock_text(span) + seq![' ', '-', ' '] + description
}

/// One entry as the service reports it.
#[derive(Debug)]
pub struct TimeEntry {
    /// When the entry started.
    pub start: Timestamp,
    /// How long it ran; negative while it is still running.
    pub duration: Duration,
    /// What was done, if the entry says so.
    pub description: Option<String>,
    /// The project it belongs to, if any.
    pub project_id: Option<i64>,
    /// When it stopped, if it has.
    pub stop: Option<Timestamp>,
    /// The service's identifier of the entry.
    pub id: u64,
}

/// The row for an entry whose start date is already written out in `date`.
pub fn render_row(date: &str, duration: &Duration, description: &Option<String>) -> (row: String)
    ensures
        row@ == row_text(date@, duration@, description_text(*description)),
{
    proof {
        reveal_strlit(": ");
        reveal_strlit(" - ");
    }
    let mut row = String::from_str(date);
    row.append(": ");
    let clock = duration.clock();
    row.append(clock.as_str());
    row.append(" - ");
    match description {
        Some(text) => row.append(text.as_str()),
        None => row.append(NO_DESCRIPTION),
    }
    row
}

impl TimeEntry {
    /// The row that the entry shows.
    pub open spec fn row(&self) -> Seq<char> {
        row_text(self.start.date_text(), self.duration@, description_text(self.description))
    }

    /// The entry as a row of a list: the date on which it started in UTC,
    /// its duration as a clock reading, and its description.
    pub fn display(&self) -> (row: String)
        ensures
            row@ == self.row(),
    {
        let date = self.start.iso_date();
        render_row(date.as_str(), &self.duration, &self.description)
    }
}

} // verus!
