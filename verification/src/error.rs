//! The one error channel of the store.

use vstd::prelude::*;
use vstd::string::*;
use crate::sql::describe;

verus! {

/// Why an operation of the store failed.
#[derive(Debug, Clone, PartialEq, Eq)]
pub enum StoreError {
    /// The store itself failed; the text is its own description.
    Storage(String),
    /// A row came back in which `column` does not hold the kind of value
    /// that the table gives it.
    Malformed { column: usize },
    /// A query that always has a row came back without one.
    NoRow,
    /// A timestamp lies outside the dates that can be written as text.
    UnwritableInstant,
    /// The current time was needed and the clock gave none.
    NoClock,
}

impl StoreError {
    /// The message of the error, for people to read.
    pub open spec fn text(self) -> Seq<char> {
        match self {
            StoreError::Storage(m) => m@,
            StoreError::Malformed { column } => "a stored row has an unexpected shape"@,
            StoreError::NoRow => "a query returned no row"@,
            StoreError::UnwritableInstant => "a timestamp is outside the range of dates"@,
            StoreError::NoClock => "the clock gave no current time"@,
        }
    }

    pub fn message(&self) -> (r: String)
        ensures
            r@ == self.text(),
    {
        match self {
            StoreError::Storage(m) => m.clone(),
            StoreError::Malformed { column: _ } => String::from_str(
                "a stored row has an unexpected shape",
            ),
            StoreError::NoRow => String::from_str("a query returned no row"),
            StoreError::UnwritableInstant => String::from_str(
                "a timestamp is outside the range of dates",
            ),
            StoreError::NoClock => String::from_str("the clock gave no current time"),
        }
    }

    /// The error for a failure that the SQLite binding reported.
    pub(crate) fn from_sql(e: &rusqlite::Error) -> (r: StoreError)
        ensures
            r is Storage,
    {
        StoreError::Storage(describe(e))
    }
}

} // verus!
