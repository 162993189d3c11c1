use toggl_tally::duration::Duration;
use toggl_tally::entry::{render_row, TimeEntry, NO_DESCRIPTION};
use toggl_tally::timestamp::Timestamp;

fn entry(start: i64, secs: i64, description: Option<&str>) -> TimeEntry {
    TimeEntry {
        start: Timestamp::from_unix(start).unwrap(),
        duration: Duration::seconds(secs),
        description: description.map(String::from),
        project_id: None,
        stop: Timestamp::from_unix(start + secs.max(0)),
        id: 1,
    }
}

#[test]
fn display_without_description() {
    let row = entry(1_705_276_800, 3725, None).display();
    assert_eq!(row, "2024-01-15: 01:02:05 - no description");
}

#[test]
fn display_with_description() {
    let row = entry(1_705_276_800, 3725, Some("write the report")).display();
    assert_eq!(row, "2024-01-15: 01:02:05 - write the report");
}

#[test]
fn display_with_empty_description() {
    let row = entry(1_705_276_800, 60, Some("")).display();
    assert_eq!(row, "2024-01-15: 00:01:00 - ");
}

#[test]
fn display_takes_the_date_in_utc() {
    assert_eq!(
        entry(1_705_276_799, 1, None).display(),
        "2024-01-14: 00:00:01 - no description"
    );
    assert_eq!(
        entry(1_705_363_199, 1, None).display(),
        "2024-01-15: 00:00:01 - no description"
    );
    assert_eq!(
        entry(1_705_363_200, 1, None).display(),
        "2024-01-16: 00:00:01 - no description"
    );
}

#[test]
fn display_of_a_running_entry() {
    let row = entry(1_705_276_800, -1_705_276_800, Some("still at it")).display();
    assert_eq!(row, "2024-01-15: 00:00:00 - still at it");
    let row = entry(1_705_276_800, -1, None).display();
    assert_eq!(row, "2024-01-15: 23:59:59 - no description");
}

#[test]
fn display_of_a_span_longer_than_a_day() {
    let row = entry(1_705_276_800, 90_000, None).display();
    assert_eq!(row, "2024-01-15: 01:00:00 - no description");
}

#[test]
fn display_agrees_with_the_calendar() {
    for start in [-86_401i64, 0, 951_782_400, 1_705_276_800, 4_102_444_800] {
        let moment = chrono::DateTime::from_timestamp(start, 0).unwrap();
        let expected = format!("{}: 00:10:00 - no description", moment.format("%F"));
        assert_eq!(entry(start, 600, None).display(), expected);
    }
}

#[test]
fn render_row_joins_its_parts() {
    let row = render_row("2024-01-15", &Duration::seconds(3725), &None);
    assert_eq!(row, "2024-01-15: 01:02:05 - no description");
    let row = render_row("", &Duration::zero(), &Some(String::from("x")));
    assert_eq!(row, ": 00:00:00 - x");
}

#[test]
fn placeholder_text() {
    assert_eq!(NO_DESCRIPTION, "no description");
}
