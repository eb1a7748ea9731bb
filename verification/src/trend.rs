//! Trends: the discovered content items that jobs are made for.

use vstd::prelude::*;
use crate::cells::{
    find_misfit, first_misfit, fits_at, integer_or_null, integer_param, lemma_first_misfit_unique,
    params_view, row_fits, text_or_null, text_param, ColumnKind, ParamModel,
};
use crate::error::StoreError;
use crate::sql::{SqlCell, SqlParam};
use crate::text::opt_text;
use crate::timestamp::{rfc3339_instant, rfc3339_text, Timestamp};
use vstd::string::*;

verus! {

/// A discovered content item. `video_id` identifies it outside the store;
/// `id` is the row identifier, known once the trend was read back.
#[derive(Debug, Clone, PartialEq, Eq)]
pub struct Trend {
    pub id: Option<i64>,
    pub video_id: String,
    pub title: String,
    pub channel: Option<String>,
    pub views: Option<i64>,
    pub category: Option<String>,
    pub fetched_at: Timestamp,
}

/// What a `Trend` holds, as plain text and numbers.
pub struct TrendModel {
    pub id: Option<i64>,
    pub video_id: Seq<char>,
    pub title: Seq<char>,
    pub channel: Option<Seq<char>>,
    pub views: Option<i64>,
    pub category: Option<Seq<char>>,
    pub fetched_at: Timestamp,
}

impl View for Trend {
    type V = TrendModel;

    open spec fn view(&self) -> TrendModel {
        TrendModel {
            id: self.id,
            video_id: self.video_id@,
            title: self.title@,
            channel: opt_text(self.channel),
            views: self.views,
            category: opt_text(self.category),
            fetched_at: self.fetched_at,
        }
    }
}

/// The kinds of the seven columns of a trend row, in the order `id`,
/// `video_id`, `title`, `channel`, `views`, `category`, `fetched_at`.
pub open spec fn trend_columns() -> Seq<ColumnKind> {
    seq![
        ColumnKind::Integer,
        ColumnKind::Text,
        ColumnKind::Text,
        ColumnKind::OptText,
        ColumnKind::OptInteger,
        ColumnKind::OptText,
        ColumnKind::Text,
    ]
}

impl TrendModel {
    /// The trend that seven cells starting at column `at` stand for. A
    /// fetch time that cannot be read is taken to be `now`.
    pub open spec fn of_cells(cells: Seq<SqlCell>, at: int, now: Timestamp) -> TrendModel {
        TrendModel {
            id: Some(cells[at]->Integer_0),
            video_id: cells[at + 1].text(),
            title: cells[at + 2].text(),
            channel: cells[at + 3].opt_text(),
            views: cells[at + 4].opt_integer(),
            category: cells[at + 5].opt_text(),
            fetched_at: Timestamp::lenient(cells[at + 6].text(), now).0,
        }
    }

    /// The values that an insert binds, in the order `video_id`, `title`,
    /// `channel`, `views`, `category`, `fetched_at`; nothing where the
    /// fetch time cannot be written as text. The row identifier is not
    /// among them: the store assigns it.
    pub open spec fn insert_params(self) -> Option<Seq<ParamModel>> {
        match rfc3339_text(self.fetched_at.secs as int, self.fetched_at.nanos as int) {
            Some(at) => Some(
                seq![
                    ParamModel::Text(self.video_id),
                    ParamModel::Text(self.title),
                    text_or_null(self.channel),
                    integer_or_null(self.views),
                    text_or_null(self.category),
                    ParamModel::Text(at),
                ],
            ),
            None => None,
        }
    }
}

/// The cells of a row, where there is one.
pub open spec fn opt_cells(row: Option<Vec<SqlCell>>) -> Option<Seq<SqlCell>> {
    match row {
        Some(cells) => Some(cells@),
        None => None,
    }
}

/// What a lookup of one trend returns for each answer of the store: a
/// missing row is no trend; a row of the right shape is its trend; any
/// other row is an error that names the first column that is wrong.
pub open spec fn trend_lookup(row: Option<Seq<SqlCell>>, now: Timestamp) -> Result<
    Option<TrendModel>,
    int,
> {
    match row {
        None => Ok(None),
        Some(cells) => if row_fits(cells, trend_columns()) {
            Ok(Some(TrendModel::of_cells(cells, 0, now)))
        } else {
            Err(choose|c: int| first_misfit(cells, trend_columns(), c))
        },
    }
}

pub fn trend_kinds() -> (r: Vec<ColumnKind>)
    ensures
        r@ == trend_columns(),
{
    let mut v: Vec<ColumnKind> = Vec::new();
    v.push(ColumnKind::Integer);
    v.push(ColumnKind::Text);
    v.push(ColumnKind::Text);
    v.push(ColumnKind::OptText);
    v.push(ColumnKind::OptInteger);
    v.push(ColumnKind::OptText);
    v.push(ColumnKind::Text);
    assert(v@ =~= trend_columns());
    v
}

/// The statement that inserts a trend unless one with its `video_id` is
/// stored already; its placeholders stand for the values of
/// `Trend::insert_params`.
pub fn insert_trend_statement() -> (r: &'static str)
    ensures
        r@ == "INSERT OR IGNORE INTO trends (video_id, title, channel, views, category, fetched_at) VALUES (?, ?, ?, ?, ?, ?)"@,
{
    "INSERT OR IGNORE INTO trends (video_id, title, channel, views, category, fetched_at) VALUES (?, ?, ?, ?, ?, ?)"
}

/// The statement that looks a trend up; its placeholder stands for the
/// `video_id`, and its columns are those of `trend_columns`.
pub fn trend_lookup_statement() -> (r: &'static str)
    ensures
        r@ == "SELECT id, video_id, title, channel, views, category, fetched_at FROM trends WHERE video_id = ?"@,
{
    "SELECT id, video_id, title, channel, views, category, fetched_at FROM trends WHERE video_id = ?"
}

/// The value that `trend_lookup_statement` binds.
pub fn trend_lookup_params(video_id: &str) -> (r: Vec<SqlParam>)
    ensures
        params_view(r@) == seq![ParamModel::Text(video_id@)],
{
    let mut v: Vec<SqlParam> = Vec::new();
    v.push(SqlParam::Text(String::from_str(video_id)));
    assert(params_view(v@) =~= seq![ParamModel::Text(video_id@)]);
    v
}

/// The answer holds a trend whose fetch time cannot be read, so that
/// reading it takes the current time in its place.
pub open spec fn lookup_needs_clock(row: Option<Seq<SqlCell>>) -> bool {
    row matches Some(cells) && row_fits(cells, trend_columns()) && rfc3339_instant(
        cells[6].text(),
    ) is None
}

/// Whether reading the answer takes the current time.
pub fn trend_row_needs_clock(row: &Option<Vec<SqlCell>>) -> (r: bool)
    ensures
        r == lookup_needs_clock(opt_cells(*row)),
{
    match row {
        None => false,
        Some(cells) => {
            let kinds = trend_kinds();
            match find_misfit(cells, &kinds) {
                Some(_) => false,
                None => {
                    assert(fits_at(cells@, trend_columns(), 6));
                    Timestamp::parse(cells[6].text_ref()).is_none()
                },
            }
        },
    }
}

/// Where the fetch time of the answer can be read, the trend does not
/// depend on the time that would stand in for it.
pub proof fn lemma_readable_trend_ignores_clock(
    row: Option<Seq<SqlCell>>,
    a: Timestamp,
    b: Timestamp,
)
    requires
        !lookup_needs_clock(row),
    ensures
        trend_lookup(row, a) == trend_lookup(row, b),
{
}

impl Trend {
    /// Builds the trend from seven cells of a row, starting at column
    /// `at`.
    pub fn from_cells(cells: &Vec<SqlCell>, at: usize, now: Timestamp) -> (r: Trend)
        requires
            at + 7 <= cells@.len(),
            forall|i: int| 0 <= i < 7 ==> (#[trigger] cells@[at + i]).fits(trend_columns()[i]),
        ensures
            r@ == TrendModel::of_cells(cells@, at as int, now),
    {
        let _n: usize = cells.len();
        assert(cells@[at + 0].fits(trend_columns()[0]));
        assert(cells@[at + 1].fits(trend_columns()[1]));
        assert(cells@[at + 2].fits(trend_columns()[2]));
        assert(cells@[at + 6].fits(trend_columns()[6]));
        let fetched = cells[at + 6].get_text();
        Trend {
            id: Some(cells[at].get_integer()),
            video_id: cells[at + 1].get_text(),
            title: cells[at + 2].get_text(),
            channel: cells[at + 3].get_opt_text(),
            views: cells[at + 4].get_opt_integer(),
            category: cells[at + 5].get_opt_text(),
            fetched_at: Timestamp::parse_lenient(fetched.as_str(), now).0,
        }
    }

    /// Turns the store's answer to a lookup into a trend.
    pub fn decode_row(row: Option<Vec<SqlCell>>, now: Timestamp) -> (r: Result<
        Option<Trend>,
        StoreError,
    >)
        ensures
            match (r, trend_lookup(opt_cells(row), now)) {
                (Ok(None), Ok(None)) => true,
                (Ok(Some(t)), Ok(Some(m))) => t@ == m,
                (Err(StoreError::Malformed { column }), Err(c)) => column == c,
                _ => false,
            },
    {
        match row {
            None => Ok(None),
            Some(cells) => {
                let kinds = trend_kinds();
                match find_misfit(&cells, &kinds) {
                    Some(column) => {
                        proof {
                            let c = choose|c: int| first_misfit(cells@, trend_columns(), c);
                            lemma_first_misfit_unique(cells@, trend_columns(), c, column as int);
                        }
                        Err(StoreError::Malformed { column })
                    },
                    None => {
                        assert forall|i: int| 0 <= i < 7 implies (#[trigger] cells@[0 + i]).fits(
                            trend_columns()[i],
                        ) by {
                            assert(fits_at(cells@, trend_columns(), i));
                        }
                        Ok(Some(Trend::from_cells(&cells, 0, now)))
                    },
                }
            },
        }
    }

    /// The values to bind when this trend is inserted, or `None` where its
    /// fetch time cannot be written as text.
    pub fn insert_params(&self) -> (r: Option<Vec<SqlParam>>)
        ensures
            match r {
                Some(v) => Some(params_view(v@)) == self@.insert_params(),
                None => self@.insert_params() is None,
            },
    {
        match self.fetched_at.to_text() {
            None => None,
            Some(at) => {
                let mut v: Vec<SqlParam> = Vec::new();
                v.push(SqlParam::Text(self.video_id.clone()));
                v.push(SqlParam::Text(self.title.clone()));
                v.push(text_param(&self.channel));
                v.push(integer_param(&self.views));
                v.push(text_param(&self.category));
                v.push(SqlParam::Text(at));
                assert(params_view(v@) =~= self@.insert_params()->0);
                Some(v)
            },
        }
    }
}

} // verus!
