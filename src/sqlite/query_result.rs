//! Results of the embedded engine.

use vstd::prelude::*;

use crate::error::{DriverError, ErrorView};
use crate::rows::{Column, Row};
use super::convert::{decode, decode_spec, SqliteKind, SqliteScalar};
use super::value::SpinSqliteValue;

verus! {

/// What the host returns for one statement: column names and rows of values.
#[derive(Clone, Debug, PartialEq)]
pub struct HostResult {
    pub columns: Vec<String>,
    pub rows: Vec<Vec<SpinSqliteValue>>,
}

/// A column of a result of the embedded engine.
pub type SpinSqliteColumn = Column;

/// A row of a result of the embedded engine.
pub type SpinSqliteRow = Row<SpinSqliteValue>;

impl Row<SpinSqliteValue> {
    /// The value at a position of the row, decoded into the native type `kind`.
    pub fn try_get(&self, index: usize, kind: SqliteKind) -> (r: Result<SqliteScalar, DriverError>)
        ensures
            index >= self.spec_values().len() ==> r is Err && r->Err_0@
                == (ErrorView::ColumnIndexOutOfBounds {
                index: index,
                len: self.spec_values().len() as usize,
            }),
            index < self.spec_values().len() ==> match decode_spec(
                kind,
                self.spec_values()[index as int]@,
            ) {
                Ok(s) => r is Ok && r->Ok_0@ == s,
                Err(e) => r is Err && r->Err_0@ == (ErrorView::ColumnDecode { index, source: e }),
            },
    {
        let value = self.try_get_raw(index)?;
        match decode(kind, value) {
            Ok(s) => Ok(s),
            Err(source) => Err(DriverError::ColumnDecode { index, source }),
        }
    }
}

/// The effect of one or more executions: the host's own result, whose rows are
/// those that the statements returned.
#[derive(Debug)]
pub struct SpinSqliteQueryResult {
    pub inner: Option<HostResult>,
}

/// The rows that a query result holds.
pub open spec fn rows_of(q: SpinSqliteQueryResult) -> Seq<Vec<SpinSqliteValue>> {
    match q.inner {
        Some(rs) => rs.rows@,
        None => Seq::empty(),
    }
}

/// The rows of several query results, one after another.
pub open spec fn all_rows(qs: Seq<SpinSqliteQueryResult>) -> Seq<Vec<SpinSqliteValue>>
    decreases qs.len(),
{
    if qs.len() == 0 {
        Seq::empty()
    } else {
        all_rows(qs.drop_last()) + rows_of(qs.last())
    }
}

/// The columns of a query result, if it holds a host result.
pub open spec fn columns_of_result(q: SpinSqliteQueryResult) -> Option<Vec<String>> {
    match q.inner {
        Some(rs) => Some(rs.columns),
        None => None,
    }
}

/// The columns of the first of several query results that holds a host result.
pub open spec fn first_columns(qs: Seq<SpinSqliteQueryResult>) -> Option<Vec<String>>
    decreases qs.len(),
{
    if qs.len() == 0 {
        None
    } else {
        match first_columns(qs.drop_last()) {
            Some(c) => Some(c),
            None => columns_of_result(qs.last()),
        }
    }
}

/// Whether any of the query results holds a host result.
pub open spec fn any_result(qs: Seq<SpinSqliteQueryResult>) -> bool {
    exists|j: int| 0 <= j < qs.len() && (#[trigger] qs[j]).inner is Some
}

impl SpinSqliteQueryResult {
    /// A result of no execution.
    pub fn empty() -> (r: Self)
        ensures
            r.inner is None,
    {
        SpinSqliteQueryResult { inner: None }
    }

    /// Appends the rows of `others` after this result's own, in order.
    pub fn extend(&mut self, others: Vec<SpinSqliteQueryResult>)
        ensures
            rows_of(*final(self)) == rows_of(*old(self)) + all_rows(others@),
            final(self).inner is Some <==> (old(self).inner is Some || any_result(others@)),
            old(self).inner is Some ==> final(self).inner->Some_0.columns
                == old(self).inner->Some_0.columns,
            old(self).inner is None ==> columns_of_result(*final(self)) == first_columns(others@),
    {
        let ghost start = *self;
        let ghost qs = others@;
        for qr in it: others.into_iter()
            invariant
                it.seq() == qs,
                rows_of(*self) == rows_of(start) + all_rows(qs.take(it.index() as int)),
                self.inner is Some <==> (start.inner is Some || any_result(
                    qs.take(it.index() as int),
                )),
                start.inner is Some ==> self.inner->Some_0.columns == start.inner->Some_0.columns,
                start.inner is None ==> columns_of_result(*self) == first_columns(
                    qs.take(it.index() as int),
                ),
        {
            let ghost i = it.index() as int;
            assert(qs.take(i + 1).drop_last() =~= qs.take(i));
            assert(qs.take(i + 1).last() == qs[i]);
            let current = self.inner.take();
            self.inner = match current {
                None => qr.inner,
                Some(mut existing) => {
                    match qr.inner {
                        Some(mut added) => {
                            existing.rows.append(&mut added.rows);
                        },
                        None => {},
                    }
                    Some(existing)
                },
            };
            assert(rows_of(*self) =~= rows_of(start) + all_rows(qs.take(i + 1)));
            assert(any_result(qs.take(i + 1)) <==> (any_result(qs.take(i)) || qs[i].inner is Some))
                by {
                if qs[i].inner is Some {
                    assert(qs.take(i + 1)[i] == qs[i]);
                }
                if any_result(qs.take(i)) {
                    let j = choose|j: int| 0 <= j < i && (#[trigger] qs.take(i)[j]).inner is Some;
                    assert(qs.take(i + 1)[j] == qs.take(i)[j]);
                }
                if any_result(qs.take(i + 1)) {
                    let j = choose|j: int| 0 <= j < i + 1 && (#[trigger] qs.take(i + 1)[j]).inner is Some;
                    if j < i {
                        assert(qs.take(i)[j] == qs.take(i + 1)[j]);
                    }
                }
            }
        }
        assert(qs.take(qs.len() as int) =~= qs);
    }
}

} // verus!
