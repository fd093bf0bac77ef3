//! Adapter for the embedded single-file engine, addressed by a label.
//!
//! The host answers every statement with a complete result or an error. The
//! functions here take that answer and give what the generic client expects.

pub mod convert;
pub mod error;
pub mod query_result;
pub mod value;

pub use convert::{ScalarView, SqliteKind, SqliteScalar};
pub use error::SqliteHostError;
pub use query_result::{HostResult, SpinSqliteColumn, SpinSqliteQueryResult, SpinSqliteRow};
pub use value::{SpinSqliteTypeInfo, SpinSqliteValue, ValueView};

use vstd::prelude::*;

use crate::address::{url_host, url_host_of};
use crate::error::{DriverError, ErrorView};
use crate::IsNull;
use convert::{encode, encode_nullable_spec};
use error::driver_error_of;
use crate::rows::{describes, materialize, materializes};

verus! {

/// How to reach a database: the label of the engine's database.
#[derive(Clone, Debug)]
pub struct ConnectionOptions {
    label: String,
}

impl ConnectionOptions {
    pub closed spec fn spec_label(&self) -> Seq<char> {
        self.label@
    }

    /// Options for the database with the given label; the text is kept verbatim.
    pub fn new(label: &str) -> (r: Self)
        ensures
            r.spec_label() == label@,
    {
        ConnectionOptions { label: label.to_owned() }
    }

    pub fn label(&self) -> (r: &str)
        ensures
            r@ == self.spec_label(),
    {
        self.label.as_str()
    }

    /// Options from the host part of a URL; a URL without a host is refused.
    pub fn from_url_host(host: Option<String>) -> (r: Result<Self, DriverError>)
        ensures
            match host {
                Some(h) => r is Ok && r->Ok_0.spec_label() == h@,
                None => r is Err && r->Err_0@ == (ErrorView::Configuration {
                    message: "Invalid URL"@,
                }),
            },
    {
        match host {
            Some(label) => Ok(ConnectionOptions { label }),
            None => Err(DriverError::Configuration { message: String::from_str("Invalid URL") }),
        }
    }

    /// Options from a URL of the form `spin-sqlite://<label>`.
    pub fn from_url(url: &url::Url) -> (r: Result<Self, DriverError>)
        ensures
            match url_host_of(*url) {
                Some(h) => r is Ok && r->Ok_0.spec_label() == h,
                None => r is Err && r->Err_0@ == (ErrorView::Configuration {
                    message: "Invalid URL"@,
                }),
            },
    {
        ConnectionOptions::from_url_host(url_host(url))
    }
}

/// The arguments bound to a query, encoded in order.
#[derive(Debug)]
pub struct SpinSqliteArgs {
    values: Vec<SpinSqliteValue>,
}

impl SpinSqliteArgs {
    pub closed spec fn spec_values(&self) -> Seq<ValueView> {
        self.values@.map_values(|v: SpinSqliteValue| v@)
    }

    pub fn new() -> (r: Self)
        ensures
            r.spec_values() == Seq::<ValueView>::empty(),
    {
        SpinSqliteArgs { values: Vec::new() }
    }

    /// Encodes one argument after those already bound; `None` binds null.
    pub fn add(&mut self, value: Option<SqliteScalar>) -> (r: IsNull)
        ensures
            final(self).spec_values() == old(self).spec_values().push(
                encode_nullable_spec(
                    match value {
                        Some(v) => Some(v@),
                        None => None,
                    },
                ),
            ),
            r == (if value is None { IsNull::Yes } else { IsNull::No }),
    {
        let r = match value {
            Some(v) => {
                self.values.push(encode(v));
                IsNull::No
            },
            None => {
                self.values.push(SpinSqliteValue::Null);
                IsNull::Yes
            },
        };
        assert(self.values@.map_values(|v: SpinSqliteValue| v@) =~= old(self).values@.map_values(
            |v: SpinSqliteValue| v@,
        ).push(self.values@.last()@));
        r
    }

    pub fn len(&self) -> (r: usize)
        ensures
            r == self.spec_values().len(),
    {
        self.values.len()
    }

    pub fn as_slice(&self) -> (r: &[SpinSqliteValue])
        ensures
            r@.map_values(|v: SpinSqliteValue| v@) == self.spec_values(),
    {
        self.values.as_slice()
    }
}

/// A statement: its SQL text and nothing more.
#[derive(Clone, Debug)]
pub struct SpinSqliteStmt {
    sql: String,
}

impl SpinSqliteStmt {
    pub closed spec fn spec_sql(&self) -> Seq<char> {
        self.sql@
    }

    pub fn new(sql: &str) -> (r: Self)
        ensures
            r.spec_sql() == sql@,
    {
        SpinSqliteStmt { sql: sql.to_owned() }
    }

    pub fn sql(&self) -> (r: &str)
        ensures
            r@ == self.spec_sql(),
    {
        self.sql.as_str()
    }
}

/// The outcome of a statement run for its effect: the host's whole result.
pub fn execute(outcome: Result<HostResult, SqliteHostError>) -> (r: Result<
    SpinSqliteQueryResult,
    DriverError,
>)
    ensures
        match outcome {
            Ok(rs) => r is Ok && r->Ok_0.inner == Some(rs),
            Err(e) => r is Err && r->Err_0@ == driver_error_of(e),
        },
{
    match outcome {
        Ok(rs) => Ok(SpinSqliteQueryResult { inner: Some(rs) }),
        Err(e) => Err(e.to_driver_error()),
    }
}

/// The rows of a statement's result, all of them, in the host's order.
pub fn fetch_many(outcome: Result<HostResult, SqliteHostError>) -> (r: Result<
    Vec<SpinSqliteRow>,
    DriverError,
>)
    ensures
        match outcome {
            Ok(rs) => r is Ok && materializes(r->Ok_0@, rs.columns@, rs.rows@),
            Err(e) => r is Err && r->Err_0@ == driver_error_of(e),
        },
{
    match outcome {
        Ok(rs) => Ok(materialize(&rs.columns, rs.rows)),
        Err(e) => Err(e.to_driver_error()),
    }
}

/// The first row of a statement's result, if it has one.
pub fn fetch_optional(outcome: Result<HostResult, SqliteHostError>) -> (r: Result<
    Option<SpinSqliteRow>,
    DriverError,
>)
    ensures
        match outcome {
            Ok(rs) => r is Ok && if rs.rows@.len() == 0 {
                r->Ok_0 is None
            } else {
                &&& r->Ok_0 is Some
                &&& r->Ok_0->Some_0.spec_values() == rs.rows@[0]@
                &&& describes(r->Ok_0->Some_0.spec_columns(), rs.columns@)
            },
            Err(e) => r is Err && r->Err_0@ == driver_error_of(e),
        },
{
    match outcome {
        Ok(rs) => {
            let mut rows = materialize(&rs.columns, rs.rows);
            if rows.len() == 0 {
                Ok(None)
            } else {
                let first = rows.swap_remove(0);
                Ok(Some(first))
            }
        },
        Err(e) => Err(e.to_driver_error()),
    }
}

/// A statement for the SQL text; nothing is checked or compiled.
pub fn prepare_with(sql: &str) -> (r: Result<SpinSqliteStmt, DriverError>)
    ensures
        r is Ok && r->Ok_0.spec_sql() == sql@,
{
    Ok(SpinSqliteStmt::new(sql))
}

} // verus!
