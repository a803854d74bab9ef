use vstd::prelude::*;
use crate::codec::{decode, decoded, spec_decode, Encoded, EncodedValue};
use crate::error::SpiError;
use crate::tag::TypeTag;
use crate::value::{NativeValue, Value};

verus! {

/// One cell of a row together with the name of its column.
#[derive(Debug, PartialEq, Eq)]
pub struct Column {
    name: String,
    cell: EncodedValue,
}

/// What a [`Column`] is, mathematically.
pub ghost struct ColumnView {
    pub name: Seq<char>,
    pub cell: Encoded,
}

impl View for Column {
    type V = ColumnView;

    closed spec fn view(&self) -> ColumnView {
        ColumnView { name: self.name@, cell: self.cell@ }
    }
}

impl Column {
    /// A cell under the name of its column.
    pub fn new(name: String, cell: EncodedValue) -> (column: Column)
        ensures
            column@ == (ColumnView { name: name@, cell: cell@ }),
    {
        Column { name, cell }
    }

    /// The name of the column.
    pub fn name(&self) -> (name: &String)
        ensures
            name@ == self@.name,
    {
        &self.name
    }

    /// The cell.
    pub fn cell(&self) -> (cell: &EncodedValue)
        ensures
            cell@ == self@.cell,
    {
        &self.cell
    }
}

/// How a caller points at a column of a row: by position, counted from 1, or
/// by name.
#[derive(Clone, Debug, PartialEq, Eq)]
pub enum ColumnKey {
    Ordinal(usize),
    Name(String),
}

/// What a [`ColumnKey`] is, mathematically.
pub ghost enum Key {
    Ordinal(int),
    Name(Seq<char>),
}

impl View for ColumnKey {
    type V = Key;

    open spec fn view(&self) -> Key {
        match self {
            ColumnKey::Ordinal(n) => Key::Ordinal(*n as int),
            ColumnKey::Name(s) => Key::Name(s@),
        }
    }
}

/// Whether `key` fits the column at index `at` (from 0) of the row.
pub open spec fn key_fits(row: Seq<ColumnView>, key: Key, at: int) -> bool {
    &&& 0 <= at < row.len()
    &&& match key {
        Key::Ordinal(n) => n == at + 1,
        Key::Name(s) => row[at].name == s,
    }
}

/// The index of the leftmost column at or after `from` that bears `name`.
pub open spec fn leftmost_named(row: Seq<ColumnView>, name: Seq<char>, from: int) -> Option<int>
    decreases row.len() - from,
{
    if from < 0 || from >= row.len() {
        None
    } else if row[from].name == name {
        Some(from)
    } else {
        leftmost_named(row, name, from + 1)
    }
}

/// The index, from 0, of the column that `key` selects: for an ordinal the
/// column at that position, counted from 1; for a name the leftmost column of
/// that name. `None` where the row has no such column.
pub open spec fn spec_position(row: Seq<ColumnView>, key: Key) -> Option<int> {
    match key {
        Key::Ordinal(n) => if 1 <= n <= row.len() {
            Some(n - 1)
        } else {
            None
        },
        Key::Name(s) => leftmost_named(row, s, 0),
    }
}

/// What reading the column under `key` as the type `requested` gives.
pub open spec fn spec_get(row: Seq<ColumnView>, key: Key, requested: TypeTag) -> Result<
    Option<Value>,
    SpiError,
> {
    match spec_position(row, key) {
        Some(at) => spec_decode(row[at].cell, requested),
        None => Err(SpiError::NoSuchColumn),
    }
}

/// One row of a result: its cells in column order, each under its column's
/// name. Names need not differ from one another.
#[derive(Debug, PartialEq, Eq)]
pub struct Row {
    columns: Vec<Column>,
}

impl View for Row {
    type V = Seq<ColumnView>;

    closed spec fn view(&self) -> Seq<ColumnView> {
        self.columns@.map_values(|c: Column| c@)
    }
}

impl Row {
    /// A row of the given columns, in the order given.
    pub fn new(columns: Vec<Column>) -> (row: Row)
        ensures
            row@ == columns@.map_values(|c: Column| c@),
    {
        Row { columns }
    }

    /// How many columns the row has.
    pub fn len(&self) -> (len: usize)
        ensures
            len == self@.len(),
    {
        self.columns.len()
    }

    /// The index, from 0, of the column that `key` selects, or `None` where
    /// the row has no such column.
    pub fn position(&self, key: &ColumnKey) -> (position: Option<usize>)
        ensures
            match position {
                Some(at) => at < self@.len() && spec_position(self@, key@) == Some(at as int),
                None => spec_position(self@, key@) is None,
            },
    {
        match key {
            ColumnKey::Ordinal(n) => {
                if 1 <= *n && *n <= self.columns.len() {
                    Some(*n - 1)
                } else {
                    None
                }
            },
            ColumnKey::Name(name) => {
                let mut at: usize = 0;
                while at < self.columns.len()
                    invariant
                        at <= self.columns.len(),
                        self@.len() == self.columns.len(),
                        key@ == Key::Name(name@),
                        leftmost_named(self@, name@, 0) == leftmost_named(self@, name@, at as int),
                    decreases self.columns.len() - at,
                {
                    assert(self@[at as int] == self.columns@[at as int]@);
                    if self.columns[at].name == *name {
                        return Some(at);
                    }
                    at = at + 1;
                }
                None
            },
        }
    }

    /// The cell of the column that `key` selects.
    ///
    /// Fails with `NoSuchColumn` exactly when the row has no such column.
    pub fn cell(&self, key: &ColumnKey) -> (outcome: Result<&EncodedValue, SpiError>)
        ensures
            match outcome {
                Ok(cell) => spec_position(self@, key@) matches Some(at) && cell@ == self@[at].cell,
                Err(e) => e == SpiError::NoSuchColumn && spec_position(self@, key@) is None,
            },
    {
        match self.position(key) {
            Some(at) => {
                assert(self@[at as int] == self.columns@[at as int]@);
                Ok(&self.columns[at].cell)
            },
            None => Err(SpiError::NoSuchColumn),
        }
    }

    /// Reads the column that `key` selects as the type `requested`.
    ///
    /// Fails with `NoSuchColumn` when the row has no such column; otherwise
    /// the outcome is that of decoding the selected cell: the absent value
    /// for null, `TypeMismatch` for a value stored as another type.
    pub fn get(&self, key: &ColumnKey, requested: TypeTag) -> (outcome: Result<
        Option<NativeValue>,
        SpiError,
    >)
        ensures
            decoded(outcome) == spec_get(self@, key@, requested),
    {
        match self.cell(key) {
            Ok(cell) => decode(cell, requested),
            Err(e) => Err(e),
        }
    }
}

/// From `from` on, a name is found at a column that bears it, with no column
/// of that name between; it is not found only where no column bears it.
proof fn lemma_leftmost_named(row: Seq<ColumnView>, name: Seq<char>, from: int)
    requires
        0 <= from,
    ensures
        match leftmost_named(row, name, from) {
            Some(at) => {
                &&& from <= at < row.len()
                &&& row[at].name == name
                &&& forall|k: int| from <= k < at ==> row[k].name != name
            },
            None => forall|k: int| from <= k < row.len() ==> row[k].name != name,
        },
    decreases row.len() - from,
{
    if from < row.len() && row[from].name != name {
        lemma_leftmost_named(row, name, from + 1);
    }
}

/// A key selects the leftmost column it fits, and none only where it fits
/// none: of several columns of one name, the name selects the first.
pub proof fn law_key_selects_leftmost(row: Seq<ColumnView>, key: Key)
    ensures
        match spec_position(row, key) {
            Some(at) => {
                &&& key_fits(row, key, at)
                &&& forall|before: int| 0 <= before < at ==> !key_fits(row, key, before)
            },
            None => forall|at: int| !key_fits(row, key, at),
        },
{
    match key {
        Key::Ordinal(n) => {},
        Key::Name(s) => {
            lemma_leftmost_named(row, s, 0);
        },
    }
}

} // verus!
