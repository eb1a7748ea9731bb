use shotauto::error::StoreError;
use shotauto::queue::{
    choose_pending, decode_pending, next_in_line, next_pending, pending_kinds,
    pending_row_needs_clock, pending_statement, served_no_later,
};
use shotauto::sql::SqlCell;
use shotauto::status::JobStatus;
use shotauto::timestamp::Timestamp;

fn text(s: &str) -> SqlCell {
    SqlCell::Text(s.to_string())
}

fn now() -> Timestamp {
    Timestamp { secs: 5, nanos: 5 }
}

fn row(id: i64, priority: i64, created: &str) -> Vec<SqlCell> {
    vec![
        SqlCell::Integer(id),
        SqlCell::Integer(100 + id),
        text("pending"),
        SqlCell::Integer(priority),
        SqlCell::Integer(0),
        SqlCell::Null,
        text(created),
        SqlCell::Null,
        SqlCell::Null,
        SqlCell::Integer(100 + id),
        text("vid"),
        text("title"),
        SqlCell::Null,
        SqlCell::Null,
        SqlCell::Null,
        text("2015-05-15T00:00:00+00:00"),
    ]
}

#[test]
fn a_pending_row_has_sixteen_columns() {
    assert_eq!(pending_kinds().len(), 16);
    assert_eq!(shotauto::cells::find_misfit(&row(1, 0, "c"), &pending_kinds()), None);
}

#[test]
fn the_higher_priority_is_served_first() {
    let high = row(2, 5, "2024-01-02 00:00:00");
    let low = row(1, 1, "2024-01-01 00:00:00");
    assert!(served_no_later(&high, &low));
    assert!(!served_no_later(&low, &high));
    assert_eq!(next_in_line(&vec![low.clone(), high.clone()]), Some(1));
    assert_eq!(next_in_line(&vec![high, low]), Some(0));
}

#[test]
fn among_equal_priorities_the_earlier_creation_is_served_first() {
    let early = row(2, 3, "2024-01-01 10:00:00");
    let late = row(1, 3, "2024-01-01 10:00:01");
    assert!(served_no_later(&early, &late));
    assert!(!served_no_later(&late, &early));
    assert_eq!(next_in_line(&vec![late, early]), Some(1));
}

#[test]
fn among_equal_creation_times_the_lower_identifier_is_served_first() {
    let first = row(1, 3, "2024-01-01 10:00:00");
    let second = row(2, 3, "2024-01-01 10:00:00");
    assert!(served_no_later(&first, &second));
    assert!(!served_no_later(&second, &first));
    assert!(served_no_later(&first, &first));
    assert_eq!(next_in_line(&vec![second.clone(), first.clone()]), Some(1));
    assert_eq!(next_in_line(&vec![first.clone(), second, first]), Some(0));
}

#[test]
fn negative_priorities_come_after_zero() {
    let rows = vec![row(1, -5, "a"), row(2, 0, "z"), row(3, -1, "a")];
    assert_eq!(next_in_line(&rows), Some(1));
}

#[test]
fn nothing_pending_gives_nothing() {
    assert_eq!(next_in_line(&vec![]), None);
    assert_eq!(next_pending(&vec![], now()), Ok(None));
}

#[test]
fn the_chosen_row_is_decoded_with_its_trend() {
    let rows = vec![
        row(1, 1, "2024-01-01 00:00:00"),
        row(2, 9, "2024-01-03 00:00:00"),
        row(3, 9, "2024-01-02 00:00:00"),
        row(4, 2, "2023-01-01 00:00:00"),
    ];
    let (job, trend) = next_pending(&rows, now()).unwrap().unwrap();
    assert_eq!(job.id, Some(3));
    assert_eq!(job.trend_id, 103);
    assert_eq!(job.status, JobStatus::Pending);
    assert_eq!(job.priority, 9);
    assert_eq!(job.created_at, now());
    assert_eq!(trend.id, Some(103));
    assert_eq!(trend.video_id, "vid");
    assert_eq!(trend.fetched_at, Timestamp { secs: 1431648000, nanos: 0 });
}

#[test]
fn a_single_pending_row_is_the_next() {
    let (job, _) = next_pending(&vec![row(8, 0, "x")], now()).unwrap().unwrap();
    assert_eq!(job.id, Some(8));
}

#[test]
fn a_pending_row_of_another_shape_is_malformed() {
    let mut bad = row(2, 100, "a");
    bad[11] = SqlCell::Null;
    let rows = vec![row(1, 1, "a"), bad, row(3, 1, "a")];
    assert_eq!(next_pending(&rows, now()), Err(StoreError::Malformed { column: 11 }));
    let mut wide = row(1, 1, "a");
    wide[3] = SqlCell::Integer(i32::MAX as i64 + 1);
    assert_eq!(next_pending(&vec![wide], now()), Err(StoreError::Malformed { column: 3 }));
    let mut short = row(1, 1, "a");
    short.truncate(9);
    assert_eq!(next_pending(&vec![short], now()), Err(StoreError::Malformed { column: 9 }));
}

#[test]
fn the_first_malformed_row_decides_the_error() {
    let mut bad_late = row(1, 1, "a");
    bad_late[15] = SqlCell::Null;
    let mut bad_early = row(2, 1, "a");
    bad_early[0] = SqlCell::Null;
    assert_eq!(
        next_pending(&vec![bad_late.clone(), bad_early.clone()], now()),
        Err(StoreError::Malformed { column: 15 })
    );
    assert_eq!(
        next_pending(&vec![bad_early, bad_late], now()),
        Err(StoreError::Malformed { column: 0 })
    );
}

#[test]
fn the_pending_statement_asks_for_the_first_in_queue_order() {
    let sql = pending_statement();
    assert!(sql.starts_with("SELECT j.id, j.trend_id, j.status, j.priority, j.retry_count, j.error_msg, j.created_at, j.started_at, j.finished_at, t.id, t.video_id, t.title, t.channel, t.views, t.category, t.fetched_at FROM jobs j JOIN trends t ON j.trend_id = t.id"));
    assert!(sql.ends_with("WHERE j.status = 'pending' ORDER BY j.priority DESC, j.created_at ASC, j.id ASC LIMIT 1"));
}

#[test]
fn choosing_gives_the_row_that_is_read() {
    let rows = vec![row(1, 1, "b"), row(2, 1, "a"), row(3, 0, "0")];
    assert_eq!(choose_pending(&rows), Ok(Some(1)));
    assert_eq!(choose_pending(&vec![]), Ok(None));
    let mut bad = row(4, 9, "a");
    bad[6] = SqlCell::Null;
    assert_eq!(choose_pending(&vec![row(1, 1, "b"), bad]), Err(StoreError::Malformed { column: 6 }));
    let (job, trend) = decode_pending(&rows[1], now());
    assert_eq!(next_pending(&rows, now()), Ok(Some((job, trend))));
}

#[test]
fn the_clock_is_needed_only_for_a_row_with_a_time_that_cannot_be_read() {
    assert!(pending_row_needs_clock(&row(1, 0, "2024-01-01 00:00:00")));
    let readable = row(1, 0, "2024-01-01T00:00:00+00:00");
    assert!(!pending_row_needs_clock(&readable));
    let mut stale_trend = readable.clone();
    stale_trend[15] = text("long ago");
    assert!(pending_row_needs_clock(&stale_trend));
    let a = decode_pending(&readable, now());
    let b = decode_pending(&readable, Timestamp { secs: 0, nanos: 0 });
    assert_eq!(a, b);
    assert_eq!(a.0.created_at, Timestamp { secs: 1704067200, nanos: 0 });
}
