//! Jobs: units of work on a trend, and the rules by which their stored
//! fields change.

use vstd::prelude::*;
use crate::cells::{params_view, text_or_null, text_param, ColumnKind, ParamModel};
use crate::sql::{SqlCell, SqlParam};
use crate::status::{lemma_status_name_reads_back, JobStatus};
use crate::text::opt_text;
use crate::timestamp::{rfc3339_instant, Timestamp};
use vstd::string::*;

verus! {

/// A unit of work on one trend.
#[derive(Debug, Clone, PartialEq, Eq)]
pub struct Job {
    pub id: Option<i64>,
    pub trend_id: i64,
    pub status: JobStatus,
    pub priority: i32,
    pub retry_count: i32,
    pub error_msg: Option<String>,
    pub created_at: Timestamp,
    pub started_at: Option<Timestamp>,
    pub finished_at: Option<Timestamp>,
}

/// What a `Job` holds, as plain text and numbers.
pub struct JobModel {
    pub id: Option<i64>,
    pub trend_id: i64,
    pub status: JobStatus,
    pub priority: i32,
    pub retry_count: i32,
    pub error_msg: Option<Seq<char>>,
    pub created_at: Timestamp,
    pub started_at: Option<Timestamp>,
    pub finished_at: Option<Timestamp>,
}

impl View for Job {
    type V = JobModel;

    open spec fn view(&self) -> JobModel {
        JobModel {
            id: self.id,
            trend_id: self.trend_id,
            status: self.status,
            priority: self.priority,
            retry_count: self.retry_count,
            error_msg: opt_text(self.error_msg),
            created_at: self.created_at,
            started_at: self.started_at,
            finished_at: self.finished_at,
        }
    }
}

/// The kinds of the nine columns of a job row, in the order `id`,
/// `trend_id`, `status`, `priority`, `retry_count`, `error_msg`,
/// `created_at`, `started_at`, `finished_at`.
pub open spec fn job_columns() -> Seq<ColumnKind> {
    seq![
        ColumnKind::Integer,
        ColumnKind::Integer,
        ColumnKind::Text,
        ColumnKind::Int32,
        ColumnKind::Int32,
        ColumnKind::OptText,
        ColumnKind::Text,
        ColumnKind::OptText,
        ColumnKind::OptText,
    ]
}

/// The instant of an optional stored timestamp: nothing where none is
/// stored, and nothing where the stored text cannot be read.
pub open spec fn opt_instant(text: Option<Seq<char>>) -> Option<Timestamp> {
    match text {
        Some(t) => rfc3339_instant(t),
        None => None,
    }
}

impl JobModel {
    /// The job that the first nine cells of a row stand for. A status
    /// that names none reads as pending, and a creation time that cannot
    /// be read is taken to be `now`.
    pub open spec fn of_cells(cells: Seq<SqlCell>, now: Timestamp) -> JobModel {
        JobModel {
            id: Some(cells[0]->Integer_0),
            trend_id: cells[1]->Integer_0,
            status: JobStatus::lenient(cells[2].text()).0,
            priority: cells[3]->Integer_0 as i32,
            retry_count: cells[4]->Integer_0 as i32,
            error_msg: cells[5].opt_text(),
            created_at: Timestamp::lenient(cells[6].text(), now).0,
            started_at: opt_instant(cells[7].opt_text()),
            finished_at: opt_instant(cells[8].opt_text()),
        }
    }
}

pub fn job_kinds() -> (r: Vec<ColumnKind>)
    ensures
        r@ == job_columns(),
{
    let mut v: Vec<ColumnKind> = Vec::new();
    v.push(ColumnKind::Integer);
    v.push(ColumnKind::Integer);
    v.push(ColumnKind::Text);
    v.push(ColumnKind::Int32);
    v.push(ColumnKind::Int32);
    v.push(ColumnKind::OptText);
    v.push(ColumnKind::Text);
    v.push(ColumnKind::OptText);
    v.push(ColumnKind::OptText);
    assert(v@ =~= job_columns());
    v
}

fn read_opt_instant(cell: &SqlCell) -> (r: Option<Timestamp>)
    ensures
        r == opt_instant(cell.opt_text()),
{
    match cell {
        SqlCell::Text(s) => Timestamp::parse(s.as_str()),
        _ => None,
    }
}

impl Job {
    /// Builds the job from the first nine cells of a row.
    pub fn from_cells(cells: &Vec<SqlCell>, now: Timestamp) -> (r: Job)
        requires
            9 <= cells@.len(),
            forall|i: int| 0 <= i < 9 ==> (#[trigger] cells@[i]).fits(job_columns()[i]),
        ensures
            r@ == JobModel::of_cells(cells@, now),
    {
        assert(cells@[0].fits(job_columns()[0]));
        assert(cells@[1].fits(job_columns()[1]));
        assert(cells@[2].fits(job_columns()[2]));
        assert(cells@[3].fits(job_columns()[3]));
        assert(cells@[4].fits(job_columns()[4]));
        assert(cells@[6].fits(job_columns()[6]));
        Job {
            id: Some(cells[0].get_integer()),
            trend_id: cells[1].get_integer(),
            status: JobStatus::from_str(cells[2].text_ref()),
            priority: cells[3].get_int32(),
            retry_count: cells[4].get_int32(),
            error_msg: cells[5].get_opt_text(),
            created_at: Timestamp::parse_lenient(cells[6].text_ref(), now).0,
            started_at: read_opt_instant(&cells[7]),
            finished_at: read_opt_instant(&cells[8]),
        }
    }
}

/// The statement that adds a pending job; its placeholders stand for the
/// values of `new_job_params`.
pub fn new_job_statement() -> (r: &'static str)
    ensures
        r@ == "INSERT INTO jobs (trend_id, status, priority, created_at) VALUES (?, 'pending', ?, ?)"@,
{
    "INSERT INTO jobs (trend_id, status, priority, created_at) VALUES (?, 'pending', ?, ?)"
}

/// The values that `new_job_statement` binds: the trend, the priority and
/// the text of the creation time.
pub fn new_job_params(trend_id: i64, priority: i32, created_at: String) -> (r: Vec<SqlParam>)
    ensures
        params_view(r@) == seq![
            ParamModel::Integer(trend_id),
            ParamModel::Integer(priority as i64),
            ParamModel::Text(created_at@),
        ],
{
    let mut v: Vec<SqlParam> = Vec::new();
    v.push(SqlParam::Integer(trend_id));
    v.push(SqlParam::Integer(priority as i64));
    v.push(SqlParam::Text(created_at));
    assert(params_view(v@) =~= seq![
        ParamModel::Integer(trend_id),
        ParamModel::Integer(priority as i64),
        ParamModel::Text(created_at@),
    ]);
    v
}

/// The columns of a stored job that a status update can touch.
pub struct JobColumns {
    pub status: Seq<char>,
    pub error_msg: Option<Seq<char>>,
    pub started_at: Option<Seq<char>>,
    pub finished_at: Option<Seq<char>>,
}

/// What a status update writes. Which columns it touches depends on the
/// status that the job enters.
#[derive(Debug, Clone, PartialEq, Eq)]
pub enum StatusWrite {
    /// Work begins: the status and the start time are written.
    Started { status: JobStatus, at: String },
    /// Work ended: the status, the finish time and the error message are
    /// written, the message also where there is none.
    Finished { status: JobStatus, at: String, error_msg: Option<String> },
    /// Only the status is written.
    StatusOnly { status: JobStatus },
}

/// What a `StatusWrite` holds, as plain text.
pub enum StatusWriteModel {
    Started { status: JobStatus, at: Seq<char> },
    Finished { status: JobStatus, at: Seq<char>, error_msg: Option<Seq<char>> },
    StatusOnly { status: JobStatus },
}

impl View for StatusWrite {
    type V = StatusWriteModel;

    open spec fn view(&self) -> StatusWriteModel {
        match self {
            StatusWrite::Started { status, at } => StatusWriteModel::Started {
                status: *status,
                at: at@,
            },
            StatusWrite::Finished { status, at, error_msg } => StatusWriteModel::Finished {
                status: *status,
                at: at@,
                error_msg: opt_text(*error_msg),
            },
            StatusWrite::StatusOnly { status } => StatusWriteModel::StatusOnly { status: *status },
        }
    }
}

impl StatusWriteModel {
    /// The write for a job that enters `status` at the time whose text is
    /// `at`: entering work stamps the start, entering an end stamps the
    /// finish and records the message, and anything else writes the
    /// status alone.
    pub open spec fn plan(status: JobStatus, at: Seq<char>, error_msg: Option<Seq<char>>) -> StatusWriteModel {
        if status.in_progress() {
            StatusWriteModel::Started { status, at }
        } else if status.terminal() {
            StatusWriteModel::Finished { status, at, error_msg }
        } else {
            StatusWriteModel::StatusOnly { status }
        }
    }

    /// The statement that carries out the write. Its placeholders stand,
    /// in order, for the values of `params`.
    pub open spec fn statement(self) -> Seq<char> {
        match self {
            StatusWriteModel::Started { .. } => "UPDATE jobs SET status = ?, started_at = ? WHERE id = ?"@,
            StatusWriteModel::Finished { .. } => "UPDATE jobs SET status = ?, finished_at = ?, error_msg = ? WHERE id = ?"@,
            StatusWriteModel::StatusOnly { .. } => "UPDATE jobs SET status = ? WHERE id = ?"@,
        }
    }

    /// The values that the statement binds for the job `job_id`: the name
    /// of the status, what else is written, and the identifier last. A
    /// missing error message is bound as null.
    pub open spec fn params(self, job_id: i64) -> Seq<ParamModel> {
        match self {
            StatusWriteModel::Started { status, at } => seq![
                ParamModel::Text(status.name()),
                ParamModel::Text(at),
                ParamModel::Integer(job_id),
            ],
            StatusWriteModel::Finished { status, at, error_msg } => seq![
                ParamModel::Text(status.name()),
                ParamModel::Text(at),
                text_or_null(error_msg),
                ParamModel::Integer(job_id),
            ],
            StatusWriteModel::StatusOnly { status } => seq![
                ParamModel::Text(status.name()),
                ParamModel::Integer(job_id),
            ],
        }
    }

    /// The stored columns of a job after the write.
    pub open spec fn applied(self, row: JobColumns) -> JobColumns {
        match self {
            StatusWriteModel::Started { status, at } => JobColumns {
                status: status.name(),
                started_at: Some(at),
                ..row
            },
            StatusWriteModel::Finished { status, at, error_msg } => JobColumns {
                status: status.name(),
                finished_at: Some(at),
                error_msg,
                ..row
            },
            StatusWriteModel::StatusOnly { status } => JobColumns { status: status.name(), ..row },
        }
    }
}

impl StatusWrite {
    /// Decides what to write for a job that enters `status` at the time
    /// whose text is `at`.
    pub fn plan(status: JobStatus, at: String, error_msg: Option<String>) -> (r: StatusWrite)
        ensures
            r@ == StatusWriteModel::plan(status, at@, opt_text(error_msg)),
    {
        match status {
            JobStatus::Generating | JobStatus::Rendering => StatusWrite::Started { status, at },
            JobStatus::Done | JobStatus::Failed => StatusWrite::Finished { status, at, error_msg },
            JobStatus::Pending => StatusWrite::StatusOnly { status },
        }
    }

    /// The statement that carries out the write.
    pub fn statement(&self) -> (r: &'static str)
        ensures
            r@ == self@.statement(),
    {
        match self {
            StatusWrite::Started { .. } => "UPDATE jobs SET status = ?, started_at = ? WHERE id = ?",
            StatusWrite::Finished { .. } => "UPDATE jobs SET status = ?, finished_at = ?, error_msg = ? WHERE id = ?",
            StatusWrite::StatusOnly { .. } => "UPDATE jobs SET status = ? WHERE id = ?",
        }
    }

    /// The values that the statement binds for the job `job_id`.
    pub fn params(&self, job_id: i64) -> (r: Vec<SqlParam>)
        ensures
            params_view(r@) == self@.params(job_id),
    {
        let mut v: Vec<SqlParam> = Vec::new();
        match self {
            StatusWrite::Started { status, at } => {
                v.push(SqlParam::Text(String::from_str(status.as_str())));
                v.push(SqlParam::Text(at.clone()));
            },
            StatusWrite::Finished { status, at, error_msg } => {
                v.push(SqlParam::Text(String::from_str(status.as_str())));
                v.push(SqlParam::Text(at.clone()));
                v.push(text_param(error_msg));
            },
            StatusWrite::StatusOnly { status } => {
                v.push(SqlParam::Text(String::from_str(status.as_str())));
            },
        }
        v.push(SqlParam::Integer(job_id));
        assert(params_view(v@) =~= self@.params(job_id));
        v
    }
}

/// Which fields a transition sets. Entering work sets the start time and
/// leaves the finish time and the message as they were; entering an end
/// sets the finish time and the message as given, also to none, and
/// leaves the start time; entering `Pending` changes the status alone.
/// In each case the stored status reads back as the status entered.
pub proof fn lemma_transition_fields(
    status: JobStatus,
    at: Seq<char>,
    error_msg: Option<Seq<char>>,
    row: JobColumns,
)
    ensures
        ({
            let after = StatusWriteModel::plan(status, at, error_msg).applied(row);
            &&& JobStatus::lenient(after.status) == (status, false)
            &&& status.in_progress() ==> {
                &&& after.started_at == Some(at)
                &&& after.finished_at == row.finished_at
                &&& after.error_msg == row.error_msg
            }
            &&& status.terminal() ==> {
                &&& after.finished_at == Some(at)
                &&& after.error_msg == error_msg
                &&& after.started_at == row.started_at
            }
            &&& status == JobStatus::Pending ==> {
                &&& after.started_at == row.started_at
                &&& after.finished_at == row.finished_at
                &&& after.error_msg == row.error_msg
            }
        }),
{
    lemma_status_name_reads_back(status);
}

} // verus!
