//! The boundary to the SQLite binding: the outside types, one wrapper for
//! each call, and the values that cross in either direction.
//!
//! Nothing is claimed here about what the store holds: a statement may
//! fail at any time, and what a query returns depends on the file behind
//! the connection.

use vstd::prelude::*;

verus! {

#[verifier::external_type_specification]
#[verifier::external_body]
pub struct ExConnection(rusqlite::Connection);

#[verifier::external_type_specification]
#[verifier::external_body]
pub struct ExStatement<'c>(rusqlite::Statement<'c>);

#[verifier::external_type_specification]
#[verifier::external_body]
pub struct ExRows<'s>(rusqlite::Rows<'s>);

#[verifier::external_type_specification]
#[verifier::external_body]
pub struct ExRow<'s>(rusqlite::Row<'s>);

#[verifier::external_type_specification]
#[verifier::external_body]
pub struct ExSqlError(rusqlite::Error);

#[verifier::external_type_specification]
#[verifier::external_body]
pub struct ExSqlValue(rusqlite::types::Value);

#[verifier::external_type_specification]
#[verifier::external_body]
pub struct ExPathBuf(std::path::PathBuf);

/// A value bound to a placeholder of a statement.
#[derive(Debug, Clone, PartialEq, Eq)]
pub enum SqlParam {
    Null,
    Integer(i64),
    Text(String),
}

/// A value read from one column of a result row. `Other` stands for the
/// kinds that no table of this store holds: reals and blobs.
#[derive(Debug, Clone, PartialEq, Eq)]
pub enum SqlCell {
    Null,
    Integer(i64),
    Text(String),
    Other,
}

/// Turns a parameter into the binding's own value type, variant by
/// variant.
#[verifier::external_body]
fn outside_param(p: &SqlParam) -> rusqlite::types::Value {
    match p {
        SqlParam::Null => rusqlite::types::Value::Null,
        SqlParam::Integer(i) => rusqlite::types::Value::Integer(*i),
        SqlParam::Text(s) => rusqlite::types::Value::Text(s.clone()),
    }
}

/// Calls `rusqlite::Connection::open`, which opens the file at `path` or
/// creates it.
#[verifier::external_body]
pub(crate) fn open(path: &std::path::PathBuf) -> Result<rusqlite::Connection, rusqlite::Error> {
    rusqlite::Connection::open(path)
}

/// Calls `rusqlite::Connection::execute_batch`, which runs the statements
/// of `sql` one after the other.
#[verifier::external_body]
pub(crate) fn execute_batch(conn: &rusqlite::Connection, sql: &str) -> Result<
    (),
    rusqlite::Error,
> {
    conn.execute_batch(sql)
}

/// Calls `rusqlite::Connection::execute` with the parameters bound in
/// order; on success the binding reports the number of rows changed.
#[verifier::external_body]
pub(crate) fn execute(conn: &rusqlite::Connection, sql: &str, params: &Vec<SqlParam>) -> Result<
    usize,
    rusqlite::Error,
> {
    conn.execute(sql, rusqlite::params_from_iter(params.iter().map(outside_param)))
}

/// Calls `rusqlite::Connection::last_insert_rowid`.
#[verifier::external_body]
pub(crate) fn last_insert_rowid(conn: &rusqlite::Connection) -> i64 {
    conn.last_insert_rowid()
}

/// Calls `rusqlite::Connection::prepare`.
#[verifier::external_body]
pub(crate) fn prepare<'c>(conn: &'c rusqlite::Connection, sql: &str) -> Result<
    rusqlite::Statement<'c>,
    rusqlite::Error,
> {
    conn.prepare(sql)
}

/// Calls `rusqlite::Statement::query` with the parameters bound in order.
#[verifier::external_body]
pub(crate) fn query<'s, 'c>(stmt: &'s mut rusqlite::Statement<'c>, params: &Vec<SqlParam>) -> Result<
    rusqlite::Rows<'s>,
    rusqlite::Error,
> {
    stmt.query(rusqlite::params_from_iter(params.iter().map(outside_param)))
}

/// Calls `rusqlite::Rows::next`, which steps to the next row of the
/// result, if there is one.
#[verifier::external_body]
pub(crate) fn next_row<'a, 's>(rows: &'a mut rusqlite::Rows<'s>) -> Result<
    Option<&'a rusqlite::Row<'s>>,
    rusqlite::Error,
> {
    rows.next()
}

/// Calls `rusqlite::Row::get` for the binding's own value type and turns
/// the value into a cell, variant by variant. An index past the last
/// column is an error of the binding.
#[verifier::external_body]
pub(crate) fn cell(row: &rusqlite::Row<'_>, index: usize) -> Result<SqlCell, rusqlite::Error> {
    row.get::<usize, rusqlite::types::Value>(index).map(
        |v| match v {
            rusqlite::types::Value::Null => SqlCell::Null,
            rusqlite::types::Value::Integer(i) => SqlCell::Integer(i),
            rusqlite::types::Value::Text(s) => SqlCell::Text(s),
            rusqlite::types::Value::Real(_) => SqlCell::Other,
            rusqlite::types::Value::Blob(_) => SqlCell::Other,
        },
    )
}

/// Calls `to_string` on the binding's error, which gives the text of its
/// `Display` impl.
#[verifier::external_body]
pub(crate) fn describe(e: &rusqlite::Error) -> String {
    e.to_string()
}

/// Reads the first `columns` cells of a row; reading none cannot fail.
fn read_cells(row: &rusqlite::Row<'_>, columns: usize) -> (r:
    Result<Vec<SqlCell>, rusqlite::Error>)
    ensures
        r matches Ok(cells) ==> cells@.len() == columns,
        columns == 0 ==> r is Ok,
{
    let mut cells: Vec<SqlCell> = Vec::new();
    let mut i: usize = 0;
    while i < columns
        invariant
            i <= columns,
            cells@.len() == i,
        decreases columns - i,
    {
        match cell(row, i) {
            Ok(c) => cells.push(c),
            Err(e) => {
                return Err(e);
            },
        }
        i = i + 1;
    }
    Ok(cells)
}

/// Runs a query and reads the first row of its result, if it has one.
pub(crate) fn first_row(
    conn: &rusqlite::Connection,
    sql: &str,
    params: &Vec<SqlParam>,
    columns: usize,
) -> (r: Result<Option<Vec<SqlCell>>, rusqlite::Error>)
    ensures
        r matches Ok(Some(cells)) ==> cells@.len() == columns,
{
    let mut stmt = match prepare(conn, sql) {
        Ok(s) => s,
        Err(e) => {
            return Err(e);
        },
    };
    let mut rows = match query(&mut stmt, params) {
        Ok(r) => r,
        Err(e) => {
            return Err(e);
        },
    };
    match next_row(&mut rows) {
        Ok(Some(row)) => match read_cells(row, columns) {
            Ok(cells) => Ok(Some(cells)),
            Err(e) => Err(e),
        },
        Ok(None) => Ok(None),
        Err(e) => Err(e),
    }
}

/// Runs a query and reads every row of its result, in the order in which
/// the store hands them out.
pub(crate) fn all_rows(
    conn: &rusqlite::Connection,
    sql: &str,
    params: &Vec<SqlParam>,
    columns: usize,
) -> (r: Result<Vec<Vec<SqlCell>>, rusqlite::Error>)
    ensures
        r matches Ok(rows) ==> forall|i: int|
            0 <= i < rows@.len() ==> (#[trigger] rows@[i])@.len() == columns,
{
    let mut stmt = match prepare(conn, sql) {
        Ok(s) => s,
        Err(e) => {
            return Err(e);
        },
    };
    let mut rows = match query(&mut stmt, params) {
        Ok(r) => r,
        Err(e) => {
            return Err(e);
        },
    };
    let mut out: Vec<Vec<SqlCell>> = Vec::new();
    while out.len() < usize::MAX
        invariant
            forall|i: int| 0 <= i < out@.len() ==> (#[trigger] out@[i])@.len() == columns,
        decreases usize::MAX - out@.len(),
    {
        match next_row(&mut rows) {
            Ok(Some(row)) => match read_cells(row, columns) {
                Ok(cells) => {
                    out.push(cells);
                },
                Err(e) => {
                    return Err(e);
                },
            },
            Ok(None) => {
                return Ok(out);
            },
            Err(e) => {
                return Err(e);
            },
        }
    }
    Ok(out)
}

} // verus!
