//! Totals of tracked time: durations counted in seconds, the entries that
//! carry them, their sum, and the text in which a total and its worth at an
//! hourly rate are shown; beside them, what is asked of the tracking
//! service and how a run is reported.
//!
//! Calendar dates are `chrono`'s; everything else is computed here, in whole
//! numbers.

pub mod decimal;
pub mod duration;
pub mod entry;
pub mod outcome;
pub mod request;
pub mod sum_laws;
pub mod summary;
pub mod timestamp;

pub use crate::duration::Duration;
pub use crate::entry::TimeEntry;
pub use crate::outcome::{report, Selection};
pub use crate::request::{recent_window, AuthRequest, Config, DateRange, Method, ToggleClient};
pub use crate::summary::{fold_options, Rate, Summary};
pub use crate::timestamp::Timestamp;
