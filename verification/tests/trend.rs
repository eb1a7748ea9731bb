use shotauto::cells::ColumnKind;
use shotauto::error::StoreError;
use shotauto::sql::{SqlCell, SqlParam};
use shotauto::timestamp::Timestamp;
use shotauto::trend::{
    insert_trend_statement, trend_kinds, trend_lookup_params, trend_lookup_statement,
    trend_row_needs_clock, Trend,
};

fn text(s: &str) -> SqlCell {
    SqlCell::Text(s.to_string())
}

fn now() -> Timestamp {
    Timestamp { secs: 1_000, nanos: 5 }
}

fn full_row() -> Vec<SqlCell> {
    vec![
        SqlCell::Integer(4),
        text("vid"),
        text("A title"),
        text("A channel"),
        SqlCell::Integer(1200),
        text("music"),
        text("2015-05-15T00:00:00+00:00"),
    ]
}

#[test]
fn a_trend_row_has_seven_columns() {
    assert_eq!(
        trend_kinds(),
        vec![
            ColumnKind::Integer,
            ColumnKind::Text,
            ColumnKind::Text,
            ColumnKind::OptText,
            ColumnKind::OptInteger,
            ColumnKind::OptText,
            ColumnKind::Text,
        ]
    );
}

#[test]
fn a_full_row_gives_every_field() {
    let trend = Trend::from_cells(&full_row(), 0, now());
    assert_eq!(
        trend,
        Trend {
            id: Some(4),
            video_id: "vid".to_string(),
            title: "A title".to_string(),
            channel: Some("A channel".to_string()),
            views: Some(1200),
            category: Some("music".to_string()),
            fetched_at: Timestamp { secs: 1431648000, nanos: 0 },
        }
    );
}

#[test]
fn null_columns_give_missing_fields() {
    let mut row = full_row();
    row[3] = SqlCell::Null;
    row[4] = SqlCell::Null;
    row[5] = SqlCell::Null;
    let trend = Trend::from_cells(&row, 0, now());
    assert_eq!(trend.channel, None);
    assert_eq!(trend.views, None);
    assert_eq!(trend.category, None);
    assert_eq!(trend.title, "A title");
}

#[test]
fn a_fetch_time_that_cannot_be_read_becomes_now() {
    let mut row = full_row();
    row[6] = text("2015-05-15 00:00:00");
    assert_eq!(Trend::from_cells(&row, 0, now()).fetched_at, now());
}

#[test]
fn a_trend_can_be_read_from_the_middle_of_a_row() {
    let mut row = vec![SqlCell::Null, SqlCell::Other];
    row.extend(full_row());
    let trend = Trend::from_cells(&row, 2, now());
    assert_eq!(trend.id, Some(4));
    assert_eq!(trend.video_id, "vid");
    assert_eq!(trend.fetched_at, Timestamp { secs: 1431648000, nanos: 0 });
}

#[test]
fn no_row_is_no_trend() {
    assert_eq!(Trend::decode_row(None, now()), Ok(None));
}

#[test]
fn a_row_is_decoded_into_its_trend() {
    let decoded = Trend::decode_row(Some(full_row()), now()).unwrap().unwrap();
    assert_eq!(decoded, Trend::from_cells(&full_row(), 0, now()));
}

#[test]
fn a_trend_row_of_another_shape_is_malformed() {
    let mut row = full_row();
    row[2] = SqlCell::Null;
    assert_eq!(Trend::decode_row(Some(row), now()), Err(StoreError::Malformed { column: 2 }));
    let mut row = full_row();
    row[0] = text("4");
    row[6] = SqlCell::Null;
    assert_eq!(Trend::decode_row(Some(row), now()), Err(StoreError::Malformed { column: 0 }));
    let mut row = full_row();
    row.pop();
    assert_eq!(Trend::decode_row(Some(row), now()), Err(StoreError::Malformed { column: 6 }));
    let mut row = full_row();
    row.push(SqlCell::Null);
    assert_eq!(Trend::decode_row(Some(row), now()), Err(StoreError::Malformed { column: 7 }));
}

#[test]
fn an_insert_binds_six_values_in_order() {
    let trend = Trend {
        id: Some(99),
        video_id: "vid".to_string(),
        title: "T".to_string(),
        channel: None,
        views: Some(7),
        category: Some("news".to_string()),
        fetched_at: Timestamp { secs: 0, nanos: 0 },
    };
    assert_eq!(
        trend.insert_params(),
        Some(vec![
            SqlParam::Text("vid".to_string()),
            SqlParam::Text("T".to_string()),
            SqlParam::Null,
            SqlParam::Integer(7),
            SqlParam::Text("news".to_string()),
            SqlParam::Text("1970-01-01T00:00:00+00:00".to_string()),
        ])
    );
}

#[test]
fn a_trend_with_an_unwritable_fetch_time_binds_nothing() {
    let trend = Trend {
        id: None,
        video_id: "vid".to_string(),
        title: "T".to_string(),
        channel: None,
        views: None,
        category: None,
        fetched_at: Timestamp { secs: i64::MAX, nanos: 0 },
    };
    assert_eq!(trend.insert_params(), None);
}

#[test]
fn the_trend_statements_and_what_the_lookup_binds() {
    assert_eq!(
        insert_trend_statement(),
        "INSERT OR IGNORE INTO trends (video_id, title, channel, views, category, fetched_at) VALUES (?, ?, ?, ?, ?, ?)"
    );
    assert_eq!(
        trend_lookup_statement(),
        "SELECT id, video_id, title, channel, views, category, fetched_at FROM trends WHERE video_id = ?"
    );
    assert_eq!(trend_lookup_params("vid"), vec![SqlParam::Text("vid".to_string())]);
}

#[test]
fn the_clock_is_needed_only_for_a_fetch_time_that_cannot_be_read() {
    assert!(!trend_row_needs_clock(&None));
    assert!(!trend_row_needs_clock(&Some(full_row())));
    let mut unreadable = full_row();
    unreadable[6] = text("2015-05-15 00:00:00");
    assert!(trend_row_needs_clock(&Some(unreadable)));
    let mut malformed = full_row();
    malformed[6] = SqlCell::Null;
    assert!(!trend_row_needs_clock(&Some(malformed)));
    let mut other = full_row();
    other[1] = SqlCell::Null;
    other[6] = text("not a time");
    assert!(!trend_row_needs_clock(&Some(other)));
}

#[test]
fn a_readable_row_gives_the_same_trend_whatever_the_fallback() {
    let a = Trend::decode_row(Some(full_row()), Timestamp { secs: 0, nanos: 0 });
    let b = Trend::decode_row(Some(full_row()), now());
    assert_eq!(a, b);
}
