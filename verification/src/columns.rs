//! Columns of plain values, as an engine hands them out.

use vstd::prelude::*;

use crate::error::{DeltaResult, Error, ErrorView};
use crate::string_map::{text_map, StringMap};
use crate::text::{join2, texts};

verus! {

/// The values of one column, None where a value is null.
#[derive(Debug)]
pub enum ColumnData {
    Strings(Vec<Option<String>>),
    Integers(Vec<Option<i32>>),
    Longs(Vec<Option<i64>>),
    Booleans(Vec<Option<bool>>),
    Lists(Vec<Option<Vec<String>>>),
    Maps(Vec<Option<StringMap<String>>>),
}

/// The error for a column of another type than expected.
pub open spec fn type_error(field: Seq<char>) -> ErrorView {
    ErrorView::Generic("Unexpected column type for field "@ + field)
}

fn unexpected_type(field: &str) -> (r: Error)
    ensures
        r@ == type_error(field@),
{
    Error::generic(join2("Unexpected column type for field ", field))
}

/// The error for a value that must be there and is not.
pub open spec fn missing_error(field: Seq<char>) -> ErrorView {
    ErrorView::MissingData("Data missing for field "@ + field)
}

/// What reading a value gives that may be null, or the error where the column has another type.
pub open spec fn optional<T>(value: Option<Option<T>>, field: Seq<char>) -> Result<
    Option<T>,
    ErrorView,
> {
    match value {
        Some(value) => Ok(value),
        None => Err(type_error(field)),
    }
}

/// What reading a value gives that must be there.
pub open spec fn required<T>(value: Option<Option<T>>, field: Seq<char>) -> Result<T, ErrorView> {
    match value {
        Some(Some(value)) => Ok(value),
        Some(None) => Err(missing_error(field)),
        None => Err(type_error(field)),
    }
}

impl ColumnData {
    /// The number of rows.
    pub open spec fn rows(self) -> nat {
        match self {
            ColumnData::Strings(v) => v@.len(),
            ColumnData::Integers(v) => v@.len(),
            ColumnData::Longs(v) => v@.len(),
            ColumnData::Booleans(v) => v@.len(),
            ColumnData::Lists(v) => v@.len(),
            ColumnData::Maps(v) => v@.len(),
        }
    }

    /// The string in a row, if the column holds strings.
    pub open spec fn string_at(self, row: int) -> Option<Option<Seq<char>>> {
        match self {
            ColumnData::Strings(v) => Some(
                match v@[row] {
                    Some(s) => Some(s@),
                    None => None,
                },
            ),
            _ => None,
        }
    }

    /// The string in a row, as it is held, if the column holds strings.
    pub open spec fn held_string_at(self, row: int) -> Option<Option<String>> {
        match self {
            ColumnData::Strings(v) => Some(v@[row]),
            _ => None,
        }
    }

    /// The truth value in a row, if the column holds truth values.
    pub open spec fn bool_at(self, row: int) -> Option<Option<bool>> {
        match self {
            ColumnData::Booleans(v) => Some(v@[row]),
            _ => None,
        }
    }

    /// The list of strings in a row, if the column holds such lists.
    pub open spec fn list_at(self, row: int) -> Option<Option<Seq<Seq<char>>>> {
        match self {
            ColumnData::Lists(v) => Some(
                match v@[row] {
                    Some(list) => Some(texts(list@)),
                    None => None,
                },
            ),
            _ => None,
        }
    }

    /// The map from strings to strings in a row, if the column holds such maps.
    pub open spec fn map_at(self, row: int) -> Option<Option<Map<Seq<char>, Seq<char>>>> {
        match self {
            ColumnData::Maps(v) => Some(
                match v@[row] {
                    Some(map) => Some(text_map(map@)),
                    None => None,
                },
            ),
            _ => None,
        }
    }

    /// The 32-bit number in a row, if the column holds such numbers.
    pub open spec fn integer_at(self, row: int) -> Option<Option<i32>> {
        match self {
            ColumnData::Integers(v) => Some(v@[row]),
            _ => None,
        }
    }

    /// The 64-bit number in a row, if the column holds such numbers.
    pub open spec fn long_at(self, row: int) -> Option<Option<i64>> {
        match self {
            ColumnData::Longs(v) => Some(v@[row]),
            _ => None,
        }
    }

    /// The string in a row.
    pub fn get_str(&self, row: usize, field: &str) -> (r: DeltaResult<Option<&str>>)
        requires
            row < self.rows(),
        ensures
            match r {
                Ok(Some(s)) => self.string_at(row as int) == Some(Some(s@)),
                Ok(None) => self.string_at(row as int) == Some(None::<Seq<char>>),
                Err(e) => self.string_at(row as int) is None && e@ == type_error(field@),
            },
    {
        match self {
            ColumnData::Strings(v) => match &v[row] {
                Some(s) => Ok(Some(s.as_str())),
                None => Ok(None),
            },
            _ => Err(unexpected_type(field)),
        }
    }

    /// The 32-bit number in a row.
    pub fn get_int(&self, row: usize, field: &str) -> (r: DeltaResult<Option<i32>>)
        requires
            row < self.rows(),
        ensures
            match r {
                Ok(n) => self.integer_at(row as int) == Some(n),
                Err(e) => self.integer_at(row as int) is None && e@ == type_error(field@),
            },
    {
        match self {
            ColumnData::Integers(v) => Ok(v[row]),
            _ => Err(unexpected_type(field)),
        }
    }

    /// The 64-bit number in a row.
    pub fn get_long(&self, row: usize, field: &str) -> (r: DeltaResult<Option<i64>>)
        requires
            row < self.rows(),
        ensures
            match r {
                Ok(n) => self.long_at(row as int) == Some(n),
                Err(e) => self.long_at(row as int) is None && e@ == type_error(field@),
            },
    {
        match self {
            ColumnData::Longs(v) => Ok(v[row]),
            _ => Err(unexpected_type(field)),
        }
    }

    /// The truth value in a row.
    pub fn get_bool(&self, row: usize, field: &str) -> (r: DeltaResult<Option<bool>>)
        requires
            row < self.rows(),
        ensures
            match r {
                Ok(n) => self.bool_at(row as int) == Some(n),
                Err(e) => self.bool_at(row as int) is None && e@ == type_error(field@),
            },
    {
        match self {
            ColumnData::Booleans(v) => Ok(v[row]),
            _ => Err(unexpected_type(field)),
        }
    }

    /// A copy of the string in a row.
    pub fn get_string(&self, row: usize, field: &str) -> (r: DeltaResult<Option<String>>)
        requires
            row < self.rows(),
        ensures
            match r {
                Ok(s) => self.held_string_at(row as int) == Some(s),
                Err(e) => self.held_string_at(row as int) is None && e@ == type_error(field@),
            },
    {
        match self {
            ColumnData::Strings(v) => match &v[row] {
                Some(s) => Ok(Some(s.clone())),
                None => Ok(None),
            },
            _ => Err(unexpected_type(field)),
        }
    }

    /// A copy of the list of strings in a row.
    pub fn get_list(&self, row: usize, field: &str) -> (r: DeltaResult<Option<Vec<String>>>)
        requires
            row < self.rows(),
        ensures
            match r {
                Ok(Some(list)) => self.list_at(row as int) == Some(Some(texts(list@))),
                Ok(None) => self.list_at(row as int) == Some(None::<Seq<Seq<char>>>),
                Err(e) => self.list_at(row as int) is None && e@ == type_error(field@),
            },
    {
        match self {
            ColumnData::Lists(v) => match &v[row] {
                Some(list) => {
                    let copy = list.clone();
                    assert(texts(copy@) =~= texts(list@));
                    Ok(Some(copy))
                },
                None => Ok(None),
            },
            _ => Err(unexpected_type(field)),
        }
    }

    /// A copy of the map from strings to strings in a row.
    pub fn get_map(&self, row: usize, field: &str) -> (r: DeltaResult<Option<StringMap<String>>>)
        requires
            row < self.rows(),
        ensures
            match r {
                Ok(Some(map)) => self.map_at(row as int) == Some(Some(text_map(map@))),
                Ok(None) => self.map_at(row as int) == Some(None::<Map<Seq<char>, Seq<char>>>),
                Err(e) => self.map_at(row as int) is None && e@ == type_error(field@),
            },
    {
        match self {
            ColumnData::Maps(v) => match &v[row] {
                Some(map) => Ok(Some(map.copy())),
                None => Ok(None),
            },
            _ => Err(unexpected_type(field)),
        }
    }

    /// The number of rows.
    pub fn num_rows(&self) -> (r: usize)
        ensures
            r == self.rows(),
    {
        match self {
            ColumnData::Strings(v) => v.len(),
            ColumnData::Integers(v) => v.len(),
            ColumnData::Longs(v) => v.len(),
            ColumnData::Booleans(v) => v.len(),
            ColumnData::Lists(v) => v.len(),
            ColumnData::Maps(v) => v.len(),
        }
    }
}

/// Do all columns have so many rows?
pub open spec fn have_rows(columns: Seq<ColumnData>, row_count: int) -> bool {
    forall|k: int| 0 <= k < columns.len() ==> row_count <= (#[trigger] columns[k]).rows()
}

/// Columns with a number of rows, which they all have.
#[derive(Debug)]
pub struct ColumnBatch {
    row_count: usize,
    columns: Vec<ColumnData>,
}

impl ColumnBatch {
    #[verifier::type_invariant]
    spec fn rows_are_there(self) -> bool {
        have_rows(self.columns@, self.row_count as int)
    }

    /// The number of rows.
    pub closed spec fn spec_row_count(self) -> nat {
        self.row_count as nat
    }

    /// The columns.
    pub closed spec fn spec_columns(self) -> Seq<ColumnData> {
        self.columns@
    }

    /// A batch of columns, if they all have the rows.
    pub fn try_new(row_count: usize, columns: Vec<ColumnData>) -> (r: Option<ColumnBatch>)
        ensures
            match r {
                Some(batch) => have_rows(columns@, row_count as int) && batch.spec_row_count()
                    == row_count && batch.spec_columns() == columns@,
                None => !have_rows(columns@, row_count as int),
            },
    {
        let mut k: usize = 0;
        while k < columns.len()
            invariant
                k <= columns@.len(),
                forall|j: int| 0 <= j < k ==> row_count <= (#[trigger] columns@[j]).rows(),
            decreases columns@.len() - k,
        {
            if columns[k].num_rows() < row_count {
                return None;
            }
            k += 1;
        }
        Some(ColumnBatch { row_count, columns })
    }

    /// The number of rows.
    pub fn row_count(&self) -> (r: usize)
        ensures
            r == self.spec_row_count(),
            have_rows(self.spec_columns(), r as int),
    {
        proof {
            use_type_invariant(self);
        }
        self.row_count
    }

    /// The columns.
    pub fn columns(&self) -> (r: &Vec<ColumnData>)
        ensures
            r@ == self.spec_columns(),
    {
        &self.columns
    }
}

} // verus!
