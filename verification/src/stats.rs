//! The counts shown on the dashboard.

use vstd::prelude::*;
use crate::cells::{
    find_misfit, first_misfit, fits_at, params_view, row_fits, ColumnKind, ParamModel,
};
use crate::error::StoreError;
use crate::sql::{SqlCell, SqlParam};
use crate::status::JobStatus;
use vstd::string::*;

verus! {

/// Four counts over the store, each taken by a query of its own.
#[derive(Debug, Clone, Copy, PartialEq, Eq, Structural)]
pub struct DashboardStats {
    pub total_trends: i64,
    pub pending_jobs: i64,
    pub completed_jobs: i64,
    pub failed_jobs: i64,
}

/// The one column of a count.
pub open spec fn count_columns() -> Seq<ColumnKind> {
    seq![ColumnKind::Integer]
}

/// Turns the store's answer to a counting query into the count. The row
/// must be there and hold one integer; a missing row is `NoRow`, and a row
/// of another shape is an error that names the column at which it goes
/// wrong.
pub fn count_value(row: Option<Vec<SqlCell>>) -> (r: Result<i64, StoreError>)
    ensures
        match r {
            Ok(n) => row matches Some(cells) && row_fits(cells@, count_columns())
                && cells@[0]->Integer_0 == n,
            Err(StoreError::NoRow) => row is None,
            Err(StoreError::Malformed { column }) => row matches Some(cells) && first_misfit(
                cells@,
                count_columns(),
                column as int,
            ),
            Err(_) => false,
        },
{
    match row {
        None => Err(StoreError::NoRow),
        Some(cells) => {
            let mut kinds: Vec<ColumnKind> = Vec::new();
            kinds.push(ColumnKind::Integer);
            assert(kinds@ =~= count_columns());
            match find_misfit(&cells, &kinds) {
                Some(column) => Err(StoreError::Malformed { column }),
                None => {
                    assert(fits_at(cells@, count_columns(), 0));
                    Ok(cells[0].get_integer())
                },
            }
        },
    }
}

/// The count that an answer of the store holds: the integer of a row of
/// one integer, nothing for a missing row or a row of another shape.
pub open spec fn count_of(row: Option<Vec<SqlCell>>) -> Option<i64> {
    match row {
        Some(cells) => if row_fits(cells@, count_columns()) {
            Some(cells@[0]->Integer_0)
        } else {
            None
        },
        None => None,
    }
}

/// `e` is the error for an answer that holds no count: `NoRow` for a
/// missing row, `Malformed` with the column at which the row goes wrong.
pub open spec fn count_failure(row: Option<Vec<SqlCell>>, e: StoreError) -> bool {
    match e {
        StoreError::NoRow => row is None,
        StoreError::Malformed { column } => row matches Some(cells) && first_misfit(
            cells@,
            count_columns(),
            column as int,
        ),
        _ => false,
    }
}

/// The statement that counts the trends.
pub fn count_trends_statement() -> (r: &'static str)
    ensures
        r@ == "SELECT COUNT(*) FROM trends"@,
{
    "SELECT COUNT(*) FROM trends"
}

/// The statement that counts the jobs of one status; its placeholder
/// stands for the stored name of the status.
pub fn count_jobs_statement() -> (r: &'static str)
    ensures
        r@ == "SELECT COUNT(*) FROM jobs WHERE status = ?"@,
{
    "SELECT COUNT(*) FROM jobs WHERE status = ?"
}

/// The value that `count_jobs_statement` binds to count the jobs of
/// `status`.
pub fn count_jobs_params(status: JobStatus) -> (r: Vec<SqlParam>)
    ensures
        params_view(r@) == seq![ParamModel::Text(status.name())],
{
    let mut v: Vec<SqlParam> = Vec::new();
    v.push(SqlParam::Text(String::from_str(status.as_str())));
    assert(params_view(v@) =~= seq![ParamModel::Text(status.name())]);
    v
}

/// Builds the dashboard counts from the store's four answers: the count
/// of the trends, then the counts of the jobs that are pending, done and
/// failed. Each answer goes into the field of its name. The first answer,
/// in that order, that holds no count decides the error.
pub fn stats_from_rows(
    trends: Option<Vec<SqlCell>>,
    pending: Option<Vec<SqlCell>>,
    done: Option<Vec<SqlCell>>,
    failed: Option<Vec<SqlCell>>,
) -> (r: Result<DashboardStats, StoreError>)
    ensures
        r is Ok <==> count_of(trends) is Some && count_of(pending) is Some && count_of(done) is Some
            && count_of(failed) is Some,
        r matches Ok(s) ==> count_of(trends) == Some(s.total_trends) && count_of(pending) == Some(
            s.pending_jobs,
        ) && count_of(done) == Some(s.completed_jobs) && count_of(failed) == Some(s.failed_jobs),
        r matches Err(e) ==> {
            ||| count_of(trends) is None && count_failure(trends, e)
            ||| count_of(trends) is Some && count_of(pending) is None && count_failure(pending, e)
            ||| count_of(trends) is Some && count_of(pending) is Some && count_of(done) is None
                && count_failure(done, e)
            ||| count_of(trends) is Some && count_of(pending) is Some && count_of(done) is Some
                && count_of(failed) is None && count_failure(failed, e)
        },
{
    let total_trends: i64 = match count_value(trends) {
        Ok(n) => n,
        Err(e) => {
            return Err(e);
        },
    };
    let pending_jobs: i64 = match count_value(pending) {
        Ok(n) => n,
        Err(e) => {
            return Err(e);
        },
    };
    let completed_jobs: i64 = match count_value(done) {
        Ok(n) => n,
        Err(e) => {
            return Err(e);
        },
    };
    let failed_jobs: i64 = match count_value(failed) {
        Ok(n) => n,
        Err(e) => {
            return Err(e);
        },
    };
    Ok(DashboardStats { total_trends, pending_jobs, completed_jobs, failed_jobs })
}

} // verus!
