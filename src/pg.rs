//! Adapter for the remote engine, addressed by a connection string.
//!
//! The host answers every statement with a complete result, a count of affected
//! rows, or an error. The functions here take that answer and give what the
//! generic client expects.

pub mod convert;
pub mod error;
pub mod query_result;
pub mod value;

pub use convert::{PgKind, PgScalar, ScalarView};
pub use error::{PgDbError, PgHostError};
pub use query_result::{HostRowSet, SpinPgColumn, SpinPgQueryResult, SpinPgRow};
pub use value::{ParameterView, PgParameter, SpinPgTypeInfo, SpinPgValue, ValueView};

use vstd::prelude::*;

use crate::address::{url_text, url_text_of};
use crate::error::DriverError;
use crate::rows::{describes, materialize, materializes};
use crate::IsNull;
use convert::{encode, encode_nullable_spec};
use error::db_error_of;

verus! {

/// How to reach a database: the engine's connection string, kept verbatim.
#[derive(Clone, Debug)]
pub struct ConnectionOptions {
    address: String,
}

impl ConnectionOptions {
    pub closed spec fn spec_address(&self) -> Seq<char> {
        self.address@
    }

    /// Options for a connection string such as `host=... user=... dbname=...`.
    pub fn new(address: &str) -> (r: Self)
        ensures
            r.spec_address() == address@,
    {
        ConnectionOptions { address: address.to_owned() }
    }

    pub fn address(&self) -> (r: &str)
        ensures
            r@ == self.spec_address(),
    {
        self.address.as_str()
    }

    /// Options whose connection string is the whole URL; this never fails.
    pub fn from_url(url: &url::Url) -> (r: Result<Self, DriverError>)
        ensures
            r is Ok && r->Ok_0.spec_address() == url_text_of(*url),
    {
        Ok(ConnectionOptions { address: url_text(url) })
    }
}

/// The arguments bound to a query, encoded in order.
#[derive(Debug)]
pub struct SpinPgArgs {
    values: Vec<PgParameter>,
}

impl SpinPgArgs {
    pub closed spec fn spec_values(&self) -> Seq<ParameterView> {
        self.values@.map_values(|v: PgParameter| v@)
    }

    pub fn new() -> (r: Self)
        ensures
            r.spec_values() == Seq::<ParameterView>::empty(),
    {
        let r = SpinPgArgs { values: Vec::new() };
        assert(r.values@.map_values(|v: PgParameter| v@) =~= Seq::<ParameterView>::empty());
        r
    }

    /// Encodes one argument after those already bound; `None` binds null.
    pub fn add(&mut self, value: Option<PgScalar>) -> (r: IsNull)
        ensures
            final(self).spec_values() == old(self).spec_values().push(
                encode_nullable_spec(
                    match value {
                        Some(v) => Some(v@),
                        None => None,
                    },
                ),
            ),
            r == (if value is None { IsNull::Yes } else { IsNull::No }),
    {
        let r = match value {
            Some(v) => {
                self.values.push(encode(v));
                IsNull::No
            },
            None => {
                self.values.push(PgParameter::DbNull);
                IsNull::Yes
            },
        };
        assert(self.values@.map_values(|v: PgParameter| v@) =~= old(self).values@.map_values(
            |v: PgParameter| v@,
        ).push(self.values@.last()@));
        r
    }

    pub fn len(&self) -> (r: usize)
        ensures
            r == self.spec_values().len(),
    {
        self.values.len()
    }

    pub fn as_slice(&self) -> (r: &[PgParameter])
        ensures
            r@.map_values(|v: PgParameter| v@) == self.spec_values(),
    {
        self.values.as_slice()
    }
}

/// A statement: its SQL text and nothing more.
#[derive(Clone, Debug)]
pub struct SpinPgStmt {
    sql: String,
}

impl SpinPgStmt {
    pub closed spec fn spec_sql(&self) -> Seq<char> {
        self.sql@
    }

    pub fn new(sql: &str) -> (r: Self)
        ensures
            r.spec_sql() == sql@,
    {
        SpinPgStmt { sql: sql.to_owned() }
    }

    pub fn sql(&self) -> (r: &str)
        ensures
            r@ == self.spec_sql(),
    {
        self.sql.as_str()
    }
}

/// The outcome of a statement run for its effect: the count of affected rows.
pub fn execute(outcome: Result<u64, PgDbError>) -> (r: Result<SpinPgQueryResult, DriverError>)
    ensures
        match outcome {
            Ok(n) => r is Ok && r->Ok_0.spec_count() == n,
            Err(e) => r is Err && r->Err_0@ == db_error_of(e),
        },
{
    match outcome {
        Ok(count) => Ok(SpinPgQueryResult::new(count)),
        Err(e) => Err(e.to_driver_error()),
    }
}

/// The rows of a query's result, all of them, in the host's order.
pub fn fetch_many(outcome: Result<HostRowSet, PgDbError>) -> (r: Result<Vec<SpinPgRow>, DriverError>)
    ensures
        match outcome {
            Ok(rs) => r is Ok && materializes(r->Ok_0@, rs.columns@, rs.rows@),
            Err(e) => r is Err && r->Err_0@ == db_error_of(e),
        },
{
    match outcome {
        Ok(rs) => Ok(materialize(&rs.columns, rs.rows)),
        Err(e) => Err(e.to_driver_error()),
    }
}

/// The first row of a query's result, if it has one.
pub fn fetch_optional(outcome: Result<HostRowSet, PgDbError>) -> (r: Result<
    Option<SpinPgRow>,
    DriverError,
>)
    ensures
        match outcome {
            Ok(rs) => r is Ok && if rs.rows@.len() == 0 {
                r->Ok_0 is None
            } else {
                &&& r->Ok_0 is Some
                &&& r->Ok_0->Some_0.spec_values() == rs.rows@[0]@
                &&& describes(r->Ok_0->Some_0.spec_columns(), rs.columns@)
            },
            Err(e) => r is Err && r->Err_0@ == db_error_of(e),
        },
{
    match outcome {
        Ok(rs) => {
            let mut rows = materialize(&rs.columns, rs.rows);
            if rows.len() == 0 {
                Ok(None)
            } else {
                Ok(Some(rows.swap_remove(0)))
            }
        },
        Err(e) => Err(e.to_driver_error()),
    }
}

/// A statement for the SQL text; nothing is checked or compiled.
pub fn prepare_with(sql: &str) -> (r: Result<SpinPgStmt, DriverError>)
    ensures
        r is Ok && r->Ok_0.spec_sql() == sql@,
{
    Ok(SpinPgStmt::new(sql))
}

} // verus!
