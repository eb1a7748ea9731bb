use shotauto::error::StoreError;
use shotauto::sql::SqlCell;
use shotauto::sql::SqlParam;
use shotauto::stats::{
    count_jobs_params, count_jobs_statement, count_trends_statement, count_value, stats_from_rows,
    DashboardStats,
};
use shotauto::status::JobStatus;

fn count(n: i64) -> Option<Vec<SqlCell>> {
    Some(vec![SqlCell::Integer(n)])
}

#[test]
fn a_count_is_the_integer_of_its_row() {
    assert_eq!(count_value(Some(vec![SqlCell::Integer(0)])), Ok(0));
    assert_eq!(count_value(Some(vec![SqlCell::Integer(12)])), Ok(12));
}

#[test]
fn a_count_without_a_row_is_an_error() {
    assert_eq!(count_value(None), Err(StoreError::NoRow));
}

#[test]
fn a_count_row_of_another_shape_is_malformed() {
    assert_eq!(count_value(Some(vec![SqlCell::Null])), Err(StoreError::Malformed { column: 0 }));
    assert_eq!(
        count_value(Some(vec![SqlCell::Text("3".to_string())])),
        Err(StoreError::Malformed { column: 0 })
    );
    assert_eq!(count_value(Some(vec![])), Err(StoreError::Malformed { column: 0 }));
    assert_eq!(
        count_value(Some(vec![SqlCell::Integer(1), SqlCell::Integer(2)])),
        Err(StoreError::Malformed { column: 1 })
    );
}

#[test]
fn every_error_has_a_message() {
    assert_eq!(StoreError::Storage("disk full".to_string()).message(), "disk full");
    assert_eq!(StoreError::Malformed { column: 3 }.message(), "a stored row has an unexpected shape");
    assert_eq!(StoreError::NoRow.message(), "a query returned no row");
    assert_eq!(StoreError::UnwritableInstant.message(), "a timestamp is outside the range of dates");
    assert_eq!(StoreError::NoClock.message(), "the clock gave no current time");
}

#[test]
fn each_answer_goes_into_the_field_of_its_name() {
    assert_eq!(
        stats_from_rows(count(3), count(1), count(1), count(0)),
        Ok(DashboardStats { total_trends: 3, pending_jobs: 1, completed_jobs: 1, failed_jobs: 0 })
    );
    assert_eq!(
        stats_from_rows(count(1), count(2), count(3), count(4)),
        Ok(DashboardStats { total_trends: 1, pending_jobs: 2, completed_jobs: 3, failed_jobs: 4 })
    );
    assert_eq!(
        stats_from_rows(count(0), count(0), count(0), count(0)),
        Ok(DashboardStats { total_trends: 0, pending_jobs: 0, completed_jobs: 0, failed_jobs: 0 })
    );
}

#[test]
fn the_first_answer_without_a_count_decides_the_error() {
    let bad = Some(vec![SqlCell::Null]);
    let wide = Some(vec![SqlCell::Integer(1), SqlCell::Integer(2)]);
    assert_eq!(stats_from_rows(None, bad.clone(), count(1), count(1)), Err(StoreError::NoRow));
    assert_eq!(
        stats_from_rows(bad.clone(), None, count(1), count(1)),
        Err(StoreError::Malformed { column: 0 })
    );
    assert_eq!(stats_from_rows(count(1), None, bad.clone(), count(1)), Err(StoreError::NoRow));
    assert_eq!(
        stats_from_rows(count(1), count(1), wide, None),
        Err(StoreError::Malformed { column: 1 })
    );
    assert_eq!(stats_from_rows(count(1), count(1), count(1), None), Err(StoreError::NoRow));
    assert_eq!(
        stats_from_rows(count(1), count(1), count(1), bad),
        Err(StoreError::Malformed { column: 0 })
    );
}

#[test]
fn the_counting_statements_and_their_values() {
    assert_eq!(count_trends_statement(), "SELECT COUNT(*) FROM trends");
    assert_eq!(count_jobs_statement(), "SELECT COUNT(*) FROM jobs WHERE status = ?");
    assert_eq!(count_jobs_params(JobStatus::Pending), vec![SqlParam::Text("pending".to_string())]);
    assert_eq!(count_jobs_params(JobStatus::Done), vec![SqlParam::Text("done".to_string())]);
    assert_eq!(count_jobs_params(JobStatus::Failed), vec![SqlParam::Text("failed".to_string())]);
}
