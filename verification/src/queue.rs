//! The order of the queue: which pending job is served next.

use vstd::prelude::*;
use crate::cells::{find_misfit, first_misfit, fits_at, row_fits, ColumnKind};
use crate::error::StoreError;
use crate::job::{job_columns, job_kinds, Job, JobModel};
use crate::sql::SqlCell;
use crate::text::{
    bytes_le, lemma_bytes_le_antisymmetric, lemma_bytes_le_reflexive, lemma_bytes_le_total,
    lemma_bytes_le_transitive, text_bytes, text_le,
};
use crate::timestamp::{rfc3339_instant, Timestamp};
use crate::trend::{trend_columns, trend_kinds, Trend, TrendModel};

verus! {

/// The kinds of the sixteen columns of a pending row: the nine of the job,
/// then the seven of its trend.
pub open spec fn pending_columns() -> Seq<ColumnKind> {
    job_columns() + trend_columns()
}

/// What decides the place of a job in the queue.
pub struct QueueKey {
    pub priority: int,
    /// The stored creation time, as the bytes of its text.
    pub created: Seq<u8>,
    pub id: int,
}

/// The key of the job in a pending row.
pub open spec fn key_of(cells: Seq<SqlCell>) -> QueueKey {
    QueueKey {
        priority: cells[3]->Integer_0 as int,
        created: text_bytes(cells[6].text()),
        id: cells[0]->Integer_0 as int,
    }
}

/// `a` is served before `b`, or is `b`'s equal: the higher priority goes
/// first; among equal priorities the earlier creation time, compared as
/// stored text; among equal creation times the lower identifier, which is
/// the one that was created first.
pub open spec fn key_le(a: QueueKey, b: QueueKey) -> bool {
    a.priority > b.priority || (a.priority == b.priority && ((bytes_le(a.created, b.created)
        && a.created != b.created) || (a.created == b.created && a.id <= b.id)))
}

/// Of two jobs, one is served before the other or is its equal.
pub proof fn lemma_key_le_total(a: QueueKey, b: QueueKey)
    ensures
        key_le(a, b) || key_le(b, a),
{
    lemma_bytes_le_total(a.created, b.created);
}

pub proof fn lemma_key_le_transitive(a: QueueKey, b: QueueKey, c: QueueKey)
    requires
        key_le(a, b),
        key_le(b, c),
    ensures
        key_le(a, c),
{
    if a.priority == b.priority && b.priority == c.priority {
        if a.created != b.created && b.created != c.created {
            lemma_bytes_le_transitive(a.created, b.created, c.created);
            if a.created == c.created {
                lemma_bytes_le_antisymmetric(a.created, b.created);
            }
        }
    }
}

/// Row `b` is the one to serve: no row is served before it, and every row
/// that stands before it in the list is served strictly after it.
pub open spec fn is_next(rows: Seq<Vec<SqlCell>>, b: int) -> bool {
    &&& 0 <= b < rows.len()
    &&& forall|j: int| 0 <= j < rows.len() ==> key_le(key_of(rows[b]@), key_of(#[trigger] rows[j]@))
    &&& forall|j: int| 0 <= j < b ==> !key_le(key_of(#[trigger] rows[j]@), key_of(rows[b]@))
}

/// Whether the job of row `a` is served before that of row `b`, or is its
/// equal.
pub fn served_no_later(a: &Vec<SqlCell>, b: &Vec<SqlCell>) -> (r: bool)
    requires
        row_fits(a@, pending_columns()),
        row_fits(b@, pending_columns()),
    ensures
        r == key_le(key_of(a@), key_of(b@)),
{
    assert(fits_at(a@, pending_columns(), 0) && fits_at(b@, pending_columns(), 0));
    assert(fits_at(a@, pending_columns(), 3) && fits_at(b@, pending_columns(), 3));
    assert(fits_at(a@, pending_columns(), 6) && fits_at(b@, pending_columns(), 6));
    let pa: i64 = a[3].get_integer();
    let pb: i64 = b[3].get_integer();
    if pa != pb {
        return pa > pb;
    }
    let ca = a[6].text_ref();
    let cb = b[6].text_ref();
    let ab = text_le(ca, cb);
    let ba = text_le(cb, ca);
    proof {
        let x = text_bytes(ca@);
        let y = text_bytes(cb@);
        if x == y {
            lemma_bytes_le_reflexive(x);
        }
        if ab && ba {
            lemma_bytes_le_antisymmetric(x, y);
        }
    }
    if ab && ba {
        a[0].get_integer() <= b[0].get_integer()
    } else {
        ab
    }
}

/// Picks the row to serve from the pending rows.
pub fn next_in_line(rows: &Vec<Vec<SqlCell>>) -> (r: Option<usize>)
    requires
        forall|i: int| 0 <= i < rows@.len() ==> row_fits((#[trigger] rows@[i])@, pending_columns()),
    ensures
        r is None <==> rows@.len() == 0,
        r matches Some(b) ==> is_next(rows@, b as int),
{
    if rows.len() == 0 {
        return None;
    }
    let mut best: usize = 0;
    let mut i: usize = 1;
    proof {
        lemma_key_le_total(key_of(rows@[0]@), key_of(rows@[0]@));
    }
    while i < rows.len()
        invariant
            1 <= i <= rows@.len(),
            best < i,
            forall|k: int| 0 <= k < rows@.len() ==> row_fits((#[trigger] rows@[k])@, pending_columns()),
            forall|j: int| 0 <= j < i ==> key_le(key_of(rows@[best as int]@), key_of(#[trigger] rows@[j]@)),
            forall|j: int| 0 <= j < best ==> !key_le(key_of(#[trigger] rows@[j]@), key_of(rows@[best as int]@)),
        decreases rows@.len() - i,
    {
        if !served_no_later(&rows[best], &rows[i]) {
            proof {
                let old_key = key_of(rows@[best as int]@);
                let new_key = key_of(rows@[i as int]@);
                lemma_key_le_total(old_key, new_key);
                lemma_key_le_total(new_key, new_key);
                assert forall|j: int| 0 <= j < i implies key_le(new_key, key_of(#[trigger] rows@[j]@)) by {
                    lemma_key_le_transitive(new_key, old_key, key_of(rows@[j]@));
                }
                assert forall|j: int| 0 <= j < i implies !key_le(key_of(#[trigger] rows@[j]@), new_key) by {
                    if key_le(key_of(rows@[j]@), new_key) {
                        lemma_key_le_transitive(old_key, key_of(rows@[j]@), new_key);
                    }
                }
            }
            best = i;
        }
        i = i + 1;
    }
    Some(best)
}

pub fn pending_kinds() -> (r: Vec<ColumnKind>)
    ensures
        r@ == pending_columns(),
{
    let mut v = job_kinds();
    let mut t = trend_kinds();
    v.append(&mut t);
    v
}

/// Every row has the shape of a pending row.
pub open spec fn all_fit(rows: Seq<Vec<SqlCell>>) -> bool {
    forall|i: int| 0 <= i < rows.len() ==> row_fits((#[trigger] rows[i])@, pending_columns())
}

/// Row `i` is the first that has not the shape of a pending row.
pub open spec fn first_bad_row(rows: Seq<Vec<SqlCell>>, i: int) -> bool {
    &&& 0 <= i < rows.len()
    &&& !row_fits(rows[i]@, pending_columns())
    &&& forall|j: int| 0 <= j < i ==> row_fits((#[trigger] rows[j])@, pending_columns())
}

/// `job` and `trend` are what the row to serve holds, and every row has
/// the shape of a pending row.
pub open spec fn served_from(
    rows: Seq<Vec<SqlCell>>,
    now: Timestamp,
    job: JobModel,
    trend: TrendModel,
) -> bool {
    &&& all_fit(rows)
    &&& exists|b: int|
        {
            &&& #[trigger] is_next(rows, b)
            &&& job == JobModel::of_cells(rows[b]@, now)
            &&& trend == TrendModel::of_cells(rows[b]@, 9, now)
        }
}

/// The statement that asks for the pending job to serve, with its trend:
/// of the jobs that are pending, ordered as `key_le` orders them, the
/// first. Its columns are those of `pending_columns`.
pub fn pending_statement() -> (r: &'static str)
    ensures
        r@ == "SELECT j.id, j.trend_id, j.status, j.priority, j.retry_count, j.error_msg, j.created_at, j.started_at, j.finished_at, t.id, t.video_id, t.title, t.channel, t.views, t.category, t.fetched_at FROM jobs j JOIN trends t ON j.trend_id = t.id WHERE j.status = 'pending' ORDER BY j.priority DESC, j.created_at ASC, j.id ASC LIMIT 1"@,
{
    "SELECT j.id, j.trend_id, j.status, j.priority, j.retry_count, j.error_msg, j.created_at, j.started_at, j.finished_at, t.id, t.video_id, t.title, t.channel, t.views, t.category, t.fetched_at FROM jobs j JOIN trends t ON j.trend_id = t.id WHERE j.status = 'pending' ORDER BY j.priority DESC, j.created_at ASC, j.id ASC LIMIT 1"
}

/// Picks the row to serve from the store's answer to the query for the
/// pending jobs.
///
/// No row means that nothing is pending. Where every row has the shape of
/// a pending row, the result is the row that `is_next` singles out. A row
/// of another shape is an error that names the column at which the first
/// such row goes wrong.
pub fn choose_pending(rows: &Vec<Vec<SqlCell>>) -> (r: Result<Option<usize>, StoreError>)
    ensures
        match r {
            Ok(None) => rows@.len() == 0,
            Ok(Some(b)) => all_fit(rows@) && is_next(rows@, b as int),
            Err(StoreError::Malformed { column }) => exists|i: int|
                {
                    &&& #[trigger] first_bad_row(rows@, i)
                    &&& first_misfit(rows@[i]@, pending_columns(), column as int)
                },
            Err(_) => false,
        },
{
    let kinds = pending_kinds();
    let mut i: usize = 0;
    while i < rows.len()
        invariant
            i <= rows@.len(),
            kinds@ == pending_columns(),
            forall|j: int| 0 <= j < i ==> row_fits((#[trigger] rows@[j])@, pending_columns()),
        decreases rows@.len() - i,
    {
        match find_misfit(&rows[i], &kinds) {
            Some(column) => {
                assert(first_bad_row(rows@, i as int));
                return Err(StoreError::Malformed { column });
            },
            None => {},
        }
        i = i + 1;
    }
    Ok(next_in_line(rows))
}

/// A time of the row cannot be read, so that reading the row takes the
/// current time in its place: the creation time of the job or the fetch
/// time of the trend.
pub open spec fn row_needs_clock(cells: Seq<SqlCell>) -> bool {
    rfc3339_instant(cells[6].text()) is None || rfc3339_instant(cells[15].text()) is None
}

/// Whether reading the row takes the current time.
pub fn pending_row_needs_clock(cells: &Vec<SqlCell>) -> (r: bool)
    requires
        row_fits(cells@, pending_columns()),
    ensures
        r == row_needs_clock(cells@),
{
    assert(fits_at(cells@, pending_columns(), 6));
    assert(fits_at(cells@, pending_columns(), 15));
    Timestamp::parse(cells[6].text_ref()).is_none() || Timestamp::parse(
        cells[15].text_ref(),
    ).is_none()
}

/// Where every time of the row can be read, the job and the trend do not
/// depend on the time that would stand in for one.
pub proof fn lemma_readable_row_ignores_clock(cells: Seq<SqlCell>, a: Timestamp, b: Timestamp)
    requires
        !row_needs_clock(cells),
    ensures
        JobModel::of_cells(cells, a) == JobModel::of_cells(cells, b),
        TrendModel::of_cells(cells, 9, a) == TrendModel::of_cells(cells, 9, b),
{
}

/// Reads the job and its trend from a pending row. A creation or fetch
/// time that cannot be read is taken to be `now`.
pub fn decode_pending(cells: &Vec<SqlCell>, now: Timestamp) -> (r: (Job, Trend))
    requires
        row_fits(cells@, pending_columns()),
    ensures
        r.0@ == JobModel::of_cells(cells@, now),
        r.1@ == TrendModel::of_cells(cells@, 9, now),
{
    proof {
        assert forall|k: int| 0 <= k < 9 implies (#[trigger] cells@[k]).fits(job_columns()[k]) by {
            assert(fits_at(cells@, pending_columns(), k));
        }
        assert forall|k: int| 0 <= k < 7 implies (#[trigger] cells@[9 + k]).fits(
            trend_columns()[k],
        ) by {
            assert(fits_at(cells@, pending_columns(), 9 + k));
        }
    }
    (Job::from_cells(cells, now), Trend::from_cells(cells, 9, now))
}

/// Turns the store's answer to the query for the pending jobs into the
/// job to work on next, with its trend: the row that `choose_pending`
/// picks, read as `decode_pending` reads it.
pub fn next_pending(rows: &Vec<Vec<SqlCell>>, now: Timestamp) -> (r: Result<
    Option<(Job, Trend)>,
    StoreError,
>)
    ensures
        match r {
            Ok(None) => rows@.len() == 0,
            Ok(Some((job, trend))) => served_from(rows@, now, job@, trend@),
            Err(StoreError::Malformed { column }) => exists|i: int|
                {
                    &&& #[trigger] first_bad_row(rows@, i)
                    &&& first_misfit(rows@[i]@, pending_columns(), column as int)
                },
            Err(_) => false,
        },
{
    match choose_pending(rows) {
        Ok(None) => Ok(None),
        Ok(Some(b)) => {
            let (job, trend) = decode_pending(&rows[b], now);
            assert(is_next(rows@, b as int));
            Ok(Some((job, trend)))
        },
        Err(e) => Err(e),
    }
}

/// Only one row is the one to serve.
pub proof fn lemma_next_is_unique(rows: Seq<Vec<SqlCell>>, a: int, b: int)
    requires
        is_next(rows, a),
        is_next(rows, b),
    ensures
        a == b,
{
    if a < b {
        assert(key_le(key_of(rows[a]@), key_of(rows[b]@)));
    }
    if b < a {
        assert(key_le(key_of(rows[b]@), key_of(rows[a]@)));
    }
}

/// The order of the queue. A job is not served while another pending job
/// has a higher priority, nor while one of the same priority has an
/// earlier stored creation time; and the job that is served has the
/// highest priority of all and, among those of that priority, the
/// earliest creation time.
pub proof fn lemma_queue_order(rows: Seq<Vec<SqlCell>>, next: int, x: int, y: int)
    requires
        is_next(rows, next),
        0 <= x < rows.len(),
        0 <= y < rows.len(),
    ensures
        key_of(rows[x]@).priority > key_of(rows[y]@).priority ==> next != y,
        key_of(rows[x]@).priority == key_of(rows[y]@).priority && bytes_le(
            key_of(rows[x]@).created,
            key_of(rows[y]@).created,
        ) && key_of(rows[x]@).created != key_of(rows[y]@).created ==> next != y,
        key_of(rows[next]@).priority >= key_of(rows[x]@).priority,
        key_of(rows[next]@).priority == key_of(rows[x]@).priority ==> bytes_le(
            key_of(rows[next]@).created,
            key_of(rows[x]@).created,
        ),
{
    let kn = key_of(rows[next]@);
    let kx = key_of(rows[x]@);
    let ky = key_of(rows[y]@);
    assert(key_le(kn, kx));
    assert(key_le(kn, ky));
    lemma_bytes_le_reflexive(kn.created);
    if kx.priority == ky.priority && bytes_le(kx.created, ky.created) && kx.created != ky.created
        && next == y {
        lemma_bytes_le_antisymmetric(kx.created, ky.created);
    }
}

} // verus!
