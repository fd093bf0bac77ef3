//! Results of the remote engine.

use vstd::prelude::*;

use crate::error::{DriverError, ErrorView};
use crate::rows::{Column, Row};
use super::convert::{decode, decode_spec, PgKind, PgScalar};
use super::value::SpinPgValue;

verus! {

/// What the host returns for a query: column names and rows of cells.
#[derive(Clone, Debug, PartialEq)]
pub struct HostRowSet {
    pub columns: Vec<String>,
    pub rows: Vec<Vec<SpinPgValue>>,
}

/// A column of a result of the remote engine.
pub type SpinPgColumn = Column;

/// A row of a result of the remote engine.
pub type SpinPgRow = Row<SpinPgValue>;

impl Row<SpinPgValue> {
    /// The cell at a position of the row, decoded into the native type `kind`.
    pub fn try_get(&self, index: usize, kind: PgKind) -> (r: Result<PgScalar, DriverError>)
        ensures
            index >= self.spec_values().len() ==> r is Err && r->Err_0@
                == (ErrorView::ColumnIndexOutOfBounds {
                index: index,
                len: self.spec_values().len() as usize,
            }),
            index < self.spec_values().len() ==> match decode_spec(
                kind,
                self.spec_values()[index as int]@,
            ) {
                Ok(s) => r is Ok && r->Ok_0@ == s,
                Err(e) => r is Err && r->Err_0@ == (ErrorView::ColumnDecode { index, source: e }),
            },
    {
        let value = self.try_get_raw(index)?;
        match decode(kind, value) {
            Ok(s) => Ok(s),
            Err(source) => Err(DriverError::ColumnDecode { index, source }),
        }
    }
}

/// The effect of one or more executions: the number of rows they affected.
#[derive(Debug)]
pub struct SpinPgQueryResult {
    count: u64,
}

/// The sum of the counts of several query results.
pub open spec fn total(qs: Seq<SpinPgQueryResult>) -> int
    decreases qs.len(),
{
    if qs.len() == 0 {
        0
    } else {
        total(qs.drop_last()) + qs.last().spec_count()
    }
}

impl SpinPgQueryResult {
    pub closed spec fn spec_count(&self) -> u64 {
        self.count
    }

    pub fn new(count: u64) -> (r: Self)
        ensures
            r.spec_count() == count,
    {
        SpinPgQueryResult { count }
    }

    /// The number of rows affected.
    pub fn count(&self) -> (r: u64)
        ensures
            r == self.spec_count(),
    {
        self.count
    }

    /// Adds the counts of `others` to this result's own.
    pub fn extend(&mut self, others: Vec<SpinPgQueryResult>)
        requires
            old(self).spec_count() + total(others@) <= u64::MAX,
        ensures
            final(self).spec_count() == old(self).spec_count() + total(others@),
    {
        let ghost start = self.count;
        let ghost qs = others@;
        for qr in it: others.into_iter()
            invariant
                it.seq() == qs,
                start + total(qs) <= u64::MAX,
                self.count == start + total(qs.take(it.index() as int)),
        {
            proof {
                let i = it.index() as int;
                assert(qs.take(i + 1).drop_last() =~= qs.take(i));
                lemma_total_prefix(qs, i + 1);
            }
            self.count = self.count + qr.count;
        }
        assert(qs.take(qs.len() as int) =~= qs);
    }
}

/// The sum over a prefix is at most the sum over the whole.
proof fn lemma_total_prefix(qs: Seq<SpinPgQueryResult>, n: int)
    requires
        0 <= n <= qs.len(),
    ensures
        total(qs.take(n)) <= total(qs),
    decreases qs.len(),
{
    if n < qs.len() {
        assert(qs.drop_last().take(n) =~= qs.take(n));
        lemma_total_prefix(qs.drop_last(), n);
    } else {
        assert(qs.take(n) =~= qs);
    }
}

} // verus!
