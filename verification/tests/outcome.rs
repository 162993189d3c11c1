use toggl_tally::duration::Duration;
use toggl_tally::outcome::{report, Selection, CANCELLED_NOTICE, FAILED_NOTICE};
use toggl_tally::summary::Summary;

#[test]
fn report_of_a_choice_is_its_summary() {
    let summary = Summary::new(Duration::seconds(3661));
    assert_eq!(
        report(&Selection::Chosen(summary)),
        "Total time: 01:01:01 which is worth 26.43€"
    );
}

#[test]
fn report_of_a_cancelled_selection() {
    assert_eq!(report(&Selection::Cancelled), CANCELLED_NOTICE);
    assert_eq!(
        report(&Selection::Cancelled),
        "Nothing was selected, so there is nothing to sum up."
    );
}

#[test]
fn report_of_a_failed_selection() {
    assert_eq!(report(&Selection::Failed), FAILED_NOTICE);
    assert_eq!(
        report(&Selection::Failed),
        "The selection could not be completed."
    );
}
