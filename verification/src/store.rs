//! The store: one connection, and every operation of the queue on it.

use vstd::prelude::*;
use vstd::string::*;
use crate::cells::row_fits;
use crate::config::{
    get_value_params, get_value_statement, set_value_params, set_value_statement, setting_keys,
    stored_value, Config,
};
use crate::error::StoreError;
use crate::job::{new_job_params, new_job_statement, Job, StatusWrite};
use crate::queue::{
    choose_pending, decode_pending, pending_row_needs_clock, pending_statement, served_from,
};
use crate::schema::schema_statements;
use crate::sql::{
    all_rows, execute, execute_batch, first_row, last_insert_rowid, open, SqlCell, SqlParam,
};
use crate::stats::{
    count_jobs_params, count_jobs_statement, count_trends_statement, stats_from_rows,
    DashboardStats,
};
use crate::status::JobStatus;
use crate::timestamp::Timestamp;
use crate::trend::{
    insert_trend_statement, trend_columns, trend_lookup_params, trend_lookup_statement,
    trend_row_needs_clock, Trend, TrendModel,
};

verus! {

/// The store. It owns the connection; every table is reached through it.
///
/// What an operation finds depends on the file behind the connection, and
/// each may fail in the store. The contracts below therefore say which
/// errors an operation can give. What goes to the store is stated on the
/// functions that build the statements and their values, and what is
/// returned for each answer of the store on the functions that read the
/// answers; each operation names them.
pub struct Database {
    conn: rusqlite::Connection,
}

/// The time to take in place of a stored time that cannot be read. The
/// clock is asked only where such a time is `needed`; where none is, any
/// instant does, since none of it reaches what is read.
fn fallback_instant(needed: bool) -> (r: Result<Timestamp, StoreError>)
    ensures
        !needed ==> r is Ok,
        r matches Err(e) ==> e is NoClock,
{
    if needed {
        match Timestamp::now() {
            Some(t) => Ok(t),
            None => Err(StoreError::NoClock),
        }
    } else {
        Ok(Timestamp { secs: 0, nanos: 0 })
    }
}

/// The text of the current time. What the clock gives can be written as
/// text, so only the clock can fail.
fn current_text() -> (r: Result<String, StoreError>)
    ensures
        r matches Err(e) ==> e is NoClock,
{
    match Timestamp::now() {
        Some(t) => match t.to_text() {
            Some(text) => Ok(text),
            None => Err(StoreError::UnwritableInstant),
        },
        None => Err(StoreError::NoClock),
    }
}

impl Database {
    /// Opens the store in the file at `path`, creating the file where it
    /// does not exist, and runs `schema_statements` on it.
    pub fn new(path: std::path::PathBuf) -> (r: Result<Database, StoreError>)
        ensures
            r matches Err(e) ==> e is Storage,
    {
        let conn = match open(&path) {
            Ok(c) => c,
            Err(e) => {
                return Err(StoreError::from_sql(&e));
            },
        };
        let db = Database { conn };
        match db.init_schema() {
            Ok(()) => Ok(db),
            Err(e) => Err(e),
        }
    }

    /// Runs `schema_statements`.
    fn init_schema(&self) -> (r: Result<(), StoreError>)
        ensures
            r matches Err(e) ==> e is Storage,
    {
        match execute_batch(&self.conn, schema_statements()) {
            Ok(()) => Ok(()),
            Err(e) => Err(StoreError::from_sql(&e)),
        }
    }

    /// The value stored under `key`, or `None` where nothing is stored
    /// under it: runs `get_value_statement` with `get_value_params` and
    /// reads the answer with `stored_value`.
    pub fn get_config(&self, key: &str) -> (r: Result<Option<String>, StoreError>)
        ensures
            r matches Err(e) ==> e is Storage || e is Malformed,
    {
        let params = get_value_params(key);
        match first_row(&self.conn, get_value_statement(), &params, 1) {
            Ok(row) => stored_value(row),
            Err(e) => Err(StoreError::from_sql(&e)),
        }
    }

    /// Stores `value` under `key`, in place of what was stored under it:
    /// runs `set_value_statement` with `set_value_params`.
    pub fn set_config(&self, key: &str, value: &str) -> (r: Result<(), StoreError>)
        ensures
            r matches Err(e) ==> e is Storage,
    {
        let params = set_value_params(key, value);
        match execute(&self.conn, set_value_statement(), &params) {
            Ok(_) => Ok(()),
            Err(e) => Err(StoreError::from_sql(&e)),
        }
    }

    /// Looks the five `setting_keys` up, in their order, and builds the
    /// settings from what is stored under them with `Config::from_stored`.
    pub fn load_config(&self) -> (r: Result<Config, StoreError>)
        ensures
            r matches Err(e) ==> e is Storage || e is Malformed,
    {
        let keys = setting_keys();
        let api_key = match self.get_config(keys[0]) {
            Ok(v) => v,
            Err(e) => {
                return Err(e);
            },
        };
        let bot_token = match self.get_config(keys[1]) {
            Ok(v) => v,
            Err(e) => {
                return Err(e);
            },
        };
        let chat_id = match self.get_config(keys[2]) {
            Ok(v) => v,
            Err(e) => {
                return Err(e);
            },
        };
        let endpoint = match self.get_config(keys[3]) {
            Ok(v) => v,
            Err(e) => {
                return Err(e);
            },
        };
        let poll_interval = match self.get_config(keys[4]) {
            Ok(v) => v,
            Err(e) => {
                return Err(e);
            },
        };
        Ok(Config::from_stored(api_key, bot_token, chat_id, endpoint, poll_interval))
    }

    /// Writes the pairs of `Config::writes`, one after the other, and
    /// stops at the first that fails.
    pub fn save_config(&self, config: &Config) -> (r: Result<(), StoreError>)
        ensures
            r matches Err(e) ==> e is Storage,
    {
        let writes = config.writes();
        let mut i: usize = 0;
        while i < writes.len()
            invariant
                i <= writes@.len(),
            decreases writes@.len() - i,
        {
            match self.set_config(writes[i].0.as_str(), writes[i].1.as_str()) {
                Ok(()) => {},
                Err(e) => {
                    return Err(e);
                },
            }
            i = i + 1;
        }
        Ok(())
    }

    /// Inserts the trend unless one with its `video_id` is stored already;
    /// in that case nothing is written and nothing fails. Runs
    /// `insert_trend_statement` with `Trend::insert_params`. Returns the
    /// row identifier that the connection last assigned, which is that of
    /// the new row only if a row was written.
    ///
    /// A trend whose fetch time cannot be written as text is not handed
    /// to the store.
    pub fn insert_trend(&self, trend: &Trend) -> (r: Result<i64, StoreError>)
        ensures
            r matches Err(e) ==> e is Storage || e is UnwritableInstant,
            trend@.insert_params() is None ==> r matches Err(StoreError::UnwritableInstant),
            r matches Err(StoreError::UnwritableInstant) ==> trend@.insert_params() is None,
    {
        let params = match trend.insert_params() {
            Some(p) => p,
            None => {
                return Err(StoreError::UnwritableInstant);
            },
        };
        match execute(&self.conn, insert_trend_statement(), &params) {
            Ok(_) => Ok(last_insert_rowid(&self.conn)),
            Err(e) => Err(StoreError::from_sql(&e)),
        }
    }

    /// The trend stored under `video_id`, or `None` where there is none:
    /// runs `trend_lookup_statement` with `trend_lookup_params` and reads
    /// the answer with `Trend::decode_row`. The clock is asked only where
    /// the stored fetch time cannot be read.
    pub fn get_trend_by_video_id(&self, video_id: &str) -> (r: Result<Option<Trend>, StoreError>)
        ensures
            r matches Err(e) ==> e is Storage || e is Malformed || e is NoClock,
            r matches Ok(Some(t)) ==> exists|cells: Seq<SqlCell>, now: Timestamp|
                row_fits(cells, trend_columns()) && t@ == #[trigger] TrendModel::of_cells(
                    cells,
                    0,
                    now,
                ),
    {
        let params = trend_lookup_params(video_id);
        match first_row(&self.conn, trend_lookup_statement(), &params, 7) {
            Ok(row) => {
                let now = match fallback_instant(trend_row_needs_clock(&row)) {
                    Ok(t) => t,
                    Err(e) => {
                        return Err(e);
                    },
                };
                let r = Trend::decode_row(row, now);
                proof {
                    if r is Ok && r->Ok_0 is Some {
                        let t = r->Ok_0->0;
                        assert(row_fits(row->0@, trend_columns()));
                        assert(t@ == TrendModel::of_cells(row->0@, 0, now));
                    }
                }
                r
            },
            Err(e) => Err(StoreError::from_sql(&e)),
        }
    }

    /// Adds a pending job for the trend, created now, and returns its
    /// identifier: runs `new_job_statement` with `new_job_params`. Every
    /// call adds a job: a trend may have many.
    pub fn create_job(&self, trend_id: i64, priority: i32) -> (r: Result<i64, StoreError>)
        ensures
            r matches Err(e) ==> e is Storage || e is NoClock,
    {
        let created_at = match current_text() {
            Ok(t) => t,
            Err(e) => {
                return Err(e);
            },
        };
        let params = new_job_params(trend_id, priority, created_at);
        match execute(&self.conn, new_job_statement(), &params) {
            Ok(_) => Ok(last_insert_rowid(&self.conn)),
            Err(e) => Err(StoreError::from_sql(&e)),
        }
    }

    /// The pending job to work on next, with its trend, or `None` where
    /// nothing is pending: runs `pending_statement`, picks the row with
    /// `choose_pending` and reads it with `decode_pending`. The clock is
    /// asked only where a stored time of that row cannot be read.
    ///
    /// The job stays pending: whoever takes it moves it on with
    /// `update_job_status`, and until then the next call returns it
    /// again.
    pub fn get_next_pending_job(&self) -> (r: Result<Option<(Job, Trend)>, StoreError>)
        ensures
            r matches Err(e) ==> e is Storage || e is Malformed || e is NoClock,
            r matches Ok(Some((job, trend))) ==> exists|rows: Seq<Vec<SqlCell>>, now: Timestamp|
                #[trigger] served_from(rows, now, job@, trend@),
    {
        let params: Vec<SqlParam> = Vec::new();
        let rows = match all_rows(&self.conn, pending_statement(), &params, 16) {
            Ok(rows) => rows,
            Err(e) => {
                return Err(StoreError::from_sql(&e));
            },
        };
        let b = match choose_pending(&rows) {
            Ok(Some(b)) => b,
            Ok(None) => {
                return Ok(None);
            },
            Err(e) => {
                return Err(e);
            },
        };
        let now = match fallback_instant(pending_row_needs_clock(&rows[b])) {
            Ok(t) => t,
            Err(e) => {
                return Err(e);
            },
        };
        let (job, trend) = decode_pending(&rows[b], now);
        assert(served_from(rows@, now, job@, trend@));
        Ok(Some((job, trend)))
    }

    /// Moves the job to `status`: runs the statement of the write that
    /// `StatusWrite::plan` decides for the current time, with its values.
    /// Whether the job may pass from its present status to `status` is
    /// not examined.
    pub fn update_job_status(&self, job_id: i64, status: JobStatus, error_msg: Option<&str>) -> (r:
        Result<(), StoreError>)
        ensures
            r matches Err(e) ==> e is Storage || e is NoClock,
    {
        let at = match current_text() {
            Ok(t) => t,
            Err(e) => {
                return Err(e);
            },
        };
        let message = match error_msg {
            Some(m) => Some(String::from_str(m)),
            None => None,
        };
        let write = StatusWrite::plan(status, at, message);
        let params = write.params(job_id);
        match execute(&self.conn, write.statement(), &params) {
            Ok(_) => Ok(()),
            Err(e) => Err(StoreError::from_sql(&e)),
        }
    }

    /// The dashboard counts: asks for the count of the trends with
    /// `count_trends_statement` and for the counts of the jobs that are
    /// pending, done and failed with `count_jobs_statement`, then builds
    /// the result from the four answers with `stats_from_rows`.
    pub fn get_stats(&self) -> (r: Result<DashboardStats, StoreError>)
        ensures
            r matches Err(e) ==> e is Storage || e is Malformed || e is NoRow,
    {
        let none: Vec<SqlParam> = Vec::new();
        let trends = match self.count(count_trends_statement(), &none) {
            Ok(row) => row,
            Err(e) => {
                return Err(e);
            },
        };
        let pending = match self.count(
            count_jobs_statement(),
            &count_jobs_params(JobStatus::Pending),
        ) {
            Ok(row) => row,
            Err(e) => {
                return Err(e);
            },
        };
        let done = match self.count(count_jobs_statement(), &count_jobs_params(JobStatus::Done)) {
            Ok(row) => row,
            Err(e) => {
                return Err(e);
            },
        };
        let failed = match self.count(
            count_jobs_statement(),
            &count_jobs_params(JobStatus::Failed),
        ) {
            Ok(row) => row,
            Err(e) => {
                return Err(e);
            },
        };
        stats_from_rows(trends, pending, done, failed)
    }

    /// Runs one counting statement and hands back the store's answer.
    fn count(&self, sql: &str, params: &Vec<SqlParam>) -> (r: Result<
        Option<Vec<SqlCell>>,
        StoreError,
    >)
        ensures
            r matches Err(e) ==> e is Storage,
    {
        match first_row(&self.conn, sql, params, 1) {
            Ok(row) => Ok(row),
            Err(e) => Err(StoreError::from_sql(&e)),
        }
    }
}

} // verus!
