//! The values that go to the store and come back from it: parameters as
//! plain values, which kind of value each column of a row must hold, and
//! how the values are taken out.

use vstd::prelude::*;
use crate::text::opt_text;
use crate::sql::{SqlCell, SqlParam};

verus! {

/// What a parameter holds, as plain text and numbers.
pub enum ParamModel {
    Null,
    Integer(i64),
    Text(Seq<char>),
}

impl View for SqlParam {
    type V = ParamModel;

    open spec fn view(&self) -> ParamModel {
        match self {
            SqlParam::Null => ParamModel::Null,
            SqlParam::Integer(i) => ParamModel::Integer(*i),
            SqlParam::Text(s) => ParamModel::Text(s@),
        }
    }
}

/// The parameters of a list, each as plain text or number.
pub open spec fn params_view(v: Seq<SqlParam>) -> Seq<ParamModel> {
    v.map_values(|p: SqlParam| p@)
}

/// The parameter for an optional text: null where there is none.
pub open spec fn text_or_null(o: Option<Seq<char>>) -> ParamModel {
    match o {
        Some(s) => ParamModel::Text(s),
        None => ParamModel::Null,
    }
}

/// The parameter for an optional number: null where there is none.
pub open spec fn integer_or_null(o: Option<i64>) -> ParamModel {
    match o {
        Some(i) => ParamModel::Integer(i),
        None => ParamModel::Null,
    }
}

/// The parameter for an optional text.
pub fn text_param(o: &Option<String>) -> (r: SqlParam)
    ensures
        r@ == text_or_null(opt_text(*o)),
{
    match o {
        Some(s) => SqlParam::Text(s.clone()),
        None => SqlParam::Null,
    }
}

/// The parameter for an optional number.
pub fn integer_param(o: &Option<i64>) -> (r: SqlParam)
    ensures
        r@ == integer_or_null(*o),
{
    match o {
        Some(i) => SqlParam::Integer(*i),
        None => SqlParam::Null,
    }
}

/// The kind of value that a column is expected to hold.
#[derive(Debug, Clone, Copy, PartialEq, Eq, Structural)]
pub enum ColumnKind {
    /// An integer; null is not accepted.
    Integer,
    /// An integer that fits in 32 bits; null is not accepted.
    Int32,
    /// A text; null is not accepted.
    Text,
    /// An integer or null.
    OptInteger,
    /// A text or null.
    OptText,
}

impl SqlCell {
    /// Whether the cell holds a value of the kind.
    pub open spec fn fits(self, kind: ColumnKind) -> bool {
        match kind {
            ColumnKind::Integer => self is Integer,
            ColumnKind::Int32 => self is Integer && i32::MIN <= self->Integer_0 <= i32::MAX,
            ColumnKind::Text => self is Text,
            ColumnKind::OptInteger => self is Integer || self is Null,
            ColumnKind::OptText => self is Text || self is Null,
        }
    }

    /// The text of a text cell.
    pub open spec fn text(self) -> Seq<char> {
        self->Text_0@
    }

    /// The text of a text cell, nothing for any other cell.
    pub open spec fn opt_text(self) -> Option<Seq<char>> {
        if self is Text {
            Some(self->Text_0@)
        } else {
            None
        }
    }

    /// The number of an integer cell, nothing for any other cell.
    pub open spec fn opt_integer(self) -> Option<i64> {
        if self is Integer {
            Some(self->Integer_0)
        } else {
            None
        }
    }

    pub fn has_kind(&self, kind: ColumnKind) -> (r: bool)
        ensures
            r == self.fits(kind),
    {
        match kind {
            ColumnKind::Integer => match self {
                SqlCell::Integer(_) => true,
                _ => false,
            },
            ColumnKind::Int32 => match self {
                SqlCell::Integer(i) => -2147483648 <= *i && *i <= 2147483647,
                _ => false,
            },
            ColumnKind::Text => match self {
                SqlCell::Text(_) => true,
                _ => false,
            },
            ColumnKind::OptInteger => match self {
                SqlCell::Integer(_) => true,
                SqlCell::Null => true,
                _ => false,
            },
            ColumnKind::OptText => match self {
                SqlCell::Text(_) => true,
                SqlCell::Null => true,
                _ => false,
            },
        }
    }

    pub fn get_integer(&self) -> (r: i64)
        requires
            self is Integer,
        ensures
            r == self->Integer_0,
    {
        match self {
            SqlCell::Integer(i) => *i,
            _ => 0,
        }
    }

    pub fn get_int32(&self) -> (r: i32)
        requires
            self.fits(ColumnKind::Int32),
        ensures
            r == self->Integer_0,
    {
        match self {
            SqlCell::Integer(i) => *i as i32,
            _ => 0,
        }
    }

    pub fn get_text(&self) -> (r: String)
        requires
            self is Text,
        ensures
            r@ == self.text(),
    {
        match self {
            SqlCell::Text(s) => s.clone(),
            _ => String::new(),
        }
    }

    pub fn text_ref(&self) -> (r: &str)
        requires
            self is Text,
        ensures
            r@ == self.text(),
    {
        match self {
            SqlCell::Text(s) => s.as_str(),
            _ => "",
        }
    }

    pub fn get_opt_integer(&self) -> (r: Option<i64>)
        ensures
            r == self.opt_integer(),
    {
        match self {
            SqlCell::Integer(i) => Some(*i),
            _ => None,
        }
    }

    pub fn get_opt_text(&self) -> (r: Option<String>)
        ensures
            opt_text(r) == self.opt_text(),
    {
        match self {
            SqlCell::Text(s) => Some(s.clone()),
            _ => None,
        }
    }
}

/// Column `i` exists in the row and holds a value of its kind.
pub open spec fn fits_at(cells: Seq<SqlCell>, kinds: Seq<ColumnKind>, i: int) -> bool {
    0 <= i < cells.len() && i < kinds.len() && cells[i].fits(kinds[i])
}

/// The row has as many columns as there are kinds, and each holds a value
/// of its kind.
pub open spec fn row_fits(cells: Seq<SqlCell>, kinds: Seq<ColumnKind>) -> bool {
    &&& cells.len() == kinds.len()
    &&& forall|i: int| 0 <= i < kinds.len() ==> fits_at(cells, kinds, i)
}

/// Column `c` is the first at which the row goes wrong: it holds a value
/// of another kind, or it is missing, or it is one column too many.
pub open spec fn first_misfit(cells: Seq<SqlCell>, kinds: Seq<ColumnKind>, c: int) -> bool {
    &&& 0 <= c
    &&& !row_fits(cells, kinds)
    &&& !fits_at(cells, kinds, c)
    &&& forall|i: int| 0 <= i < c ==> fits_at(cells, kinds, i)
}

/// A row goes wrong first at one column only.
pub proof fn lemma_first_misfit_unique(cells: Seq<SqlCell>, kinds: Seq<ColumnKind>, c: int, d: int)
    requires
        first_misfit(cells, kinds, c),
        first_misfit(cells, kinds, d),
    ensures
        c == d,
{
    if c < d {
        assert(fits_at(cells, kinds, c));
    }
    if d < c {
        assert(fits_at(cells, kinds, d));
    }
}

/// Looks for the first column at which the row goes wrong.
pub fn find_misfit(cells: &Vec<SqlCell>, kinds: &Vec<ColumnKind>) -> (r: Option<usize>)
    ensures
        r is None <==> row_fits(cells@, kinds@),
        r matches Some(c) ==> first_misfit(cells@, kinds@, c as int),
{
    let mut i: usize = 0;
    while i < kinds.len() && i < cells.len()
        invariant
            i <= kinds@.len(),
            i <= cells@.len(),
            forall|k: int| 0 <= k < i ==> fits_at(cells@, kinds@, k),
        decreases kinds@.len() - i,
    {
        if !cells[i].has_kind(kinds[i]) {
            assert(!fits_at(cells@, kinds@, i as int));
            return Some(i);
        }
        i = i + 1;
    }
    if cells.len() == kinds.len() {
        None
    } else {
        assert(!fits_at(cells@, kinds@, i as int));
        Some(i)
    }
}

} // verus!
