//! Rows and columns of a result, shared by both engines.
//!
//! The column list of a result is built once and shared, read-only, by all of
//! its rows; each row holds only its own values.

use std::sync::Arc;
use vstd::prelude::*;

use crate::error::{DriverError, ErrorView};
use crate::shared::share;

verus! {

/// A column of a result: its position and its name.
#[derive(Debug)]
pub struct Column {
    index: usize,
    name: String,
}

impl Column {
    pub closed spec fn spec_ordinal(&self) -> usize {
        self.index
    }

    pub closed spec fn spec_name(&self) -> Seq<char> {
        self.name@
    }

    pub fn new(index: usize, name: &str) -> (r: Self)
        ensures
            r.spec_ordinal() == index,
            r.spec_name() == name@,
    {
        Column { index, name: name.to_owned() }
    }

    pub fn ordinal(&self) -> (r: usize)
        ensures
            r == self.spec_ordinal(),
    {
        self.index
    }

    pub fn name(&self) -> (r: &str)
        ensures
            r@ == self.spec_name(),
    {
        self.name.as_str()
    }
}

/// `cols` are the columns of a result whose column names are `names`, in order.
pub open spec fn describes(cols: Seq<Column>, names: Seq<String>) -> bool {
    &&& cols.len() == names.len()
    &&& forall|j: int|
        0 <= j < cols.len() ==> #[trigger] cols[j].spec_ordinal() == j && cols[j].spec_name()
            == names[j]@
}

/// Builds the column list of a result, once, for all of its rows to share.
pub fn columns_of(names: &Vec<String>) -> (r: Vec<Column>)
    ensures
        describes(r@, names@),
{
    let mut cols: Vec<Column> = Vec::new();
    let mut i: usize = 0;
    while i < names.len()
        invariant
            i <= names.len(),
            describes(cols@, names@.take(i as int)),
        decreases names.len() - i,
    {
        cols.push(Column::new(i, names[i].as_str()));
        i = i + 1;
    }
    assert(names@.take(names.len() as int) =~= names@);
    cols
}

/// One row of a result: its own values and a shared handle to the result's columns.
#[derive(Debug)]
pub struct Row<V> {
    columns: Arc<Vec<Column>>,
    values: Vec<V>,
}

impl<V> Row<V> {
    pub closed spec fn spec_columns(&self) -> Seq<Column> {
        (*self.columns)@
    }

    pub closed spec fn spec_values(&self) -> Seq<V> {
        self.values@
    }

    pub(crate) fn new(columns: Arc<Vec<Column>>, values: Vec<V>) -> (r: Self)
        ensures
            r.spec_columns() == (*columns)@,
            r.spec_values() == values@,
    {
        Row { columns, values }
    }

    pub fn columns(&self) -> (r: &Vec<Column>)
        ensures
            r@ == self.spec_columns(),
    {
        &self.columns
    }

    pub fn len(&self) -> (r: usize)
        ensures
            r == self.spec_values().len(),
    {
        self.values.len()
    }

    /// Checks an ordinal against the row's values.
    pub fn ordinal_index(&self, index: usize) -> (r: Result<usize, DriverError>)
        ensures
            index < self.spec_values().len() ==> r == Ok::<usize, DriverError>(index),
            index >= self.spec_values().len() ==> r is Err && r->Err_0@
                == (ErrorView::ColumnIndexOutOfBounds {
                index: index,
                len: self.spec_values().len() as usize,
            }),
    {
        if index < self.values.len() {
            Ok(index)
        } else {
            Err(DriverError::ColumnIndexOutOfBounds { index, len: self.values.len() })
        }
    }

    /// The position of the first column named exactly `name`.
    pub fn name_index(&self, name: &str) -> (r: Result<usize, DriverError>)
        ensures
            match r {
                Ok(i) => {
                    &&& i < self.spec_columns().len()
                    &&& self.spec_columns()[i as int].spec_name() == name@
                    &&& forall|j: int|
                        0 <= j < i ==> #[trigger] self.spec_columns()[j].spec_name() != name@
                },
                Err(e) => {
                    &&& e@ == (ErrorView::ColumnNotFound { name: name@ })
                    &&& forall|j: int|
                        0 <= j < self.spec_columns().len() ==> #[trigger] self.spec_columns()[j].spec_name()
                            != name@
                },
            },
    {
        let wanted = name.to_owned();
        let cols: &Vec<Column> = &self.columns;
        let mut i: usize = 0;
        while i < cols.len()
            invariant
                i <= cols@.len(),
                cols@ == self.spec_columns(),
                wanted@ == name@,
                forall|j: int| 0 <= j < i ==> #[trigger] cols@[j].spec_name() != name@,
            decreases cols.len() - i,
        {
            if cols[i].name == wanted {
                return Ok(i);
            }
            i = i + 1;
        }
        Err(DriverError::ColumnNotFound { name: wanted })
    }

    /// The value at a position of the row.
    pub fn try_get_raw(&self, index: usize) -> (r: Result<&V, DriverError>)
        ensures
            index < self.spec_values().len() ==> r is Ok && *r->Ok_0 == self.spec_values()[index as int],
            index >= self.spec_values().len() ==> r is Err && r->Err_0@
                == (ErrorView::ColumnIndexOutOfBounds {
                index: index,
                len: self.spec_values().len() as usize,
            }),
    {
        if index >= self.values.len() {
            return Err(DriverError::ColumnIndexOutOfBounds { index, len: self.values.len() });
        }
        Ok(&self.values[index])
    }

}

/// The rows built from a host result: one per host row, in order, each with its
/// own values and the columns that the result's column names describe.
pub open spec fn materializes<V>(rows: Seq<Row<V>>, names: Seq<String>, values: Seq<Vec<V>>) -> bool {
    &&& rows.len() == values.len()
    &&& forall|i: int|
        0 <= i < rows.len() ==> #[trigger] rows[i].spec_values() == values[i]@ && describes(
            rows[i].spec_columns(),
            names,
        )
}

/// Turns the rows of a host result into rows that share one column list.
pub fn materialize<V>(names: &Vec<String>, rows: Vec<Vec<V>>) -> (r: Vec<Row<V>>)
    ensures
        materializes(r@, names@, rows@),
{
    let columns = Arc::new(columns_of(names));
    let ghost host = rows@;
    let mut out: Vec<Row<V>> = Vec::new();
    for values in it: rows.into_iter()
        invariant
            describes((*columns)@, names@),
            it.seq() == host,
            out@.len() == it.index(),
            forall|k: int|
                0 <= k < out@.len() ==> #[trigger] out@[k].spec_values() == host[k]@
                    && describes(out@[k].spec_columns(), names@),
    {
        out.push(Row::new(share(&columns), values));
    }
    out
}

} // verus!
