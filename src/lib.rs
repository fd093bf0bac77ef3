//! Driver adapter that lets a generic SQL client run against the embedded
//! single-file engine and the remote engine of the host environment.
//!
//! The library holds the adapter's logic: the conversion matrix between native
//! scalars and each engine's tagged values, the rows, columns and results built
//! from a host answer, and the mapping of host errors to the driver's errors.
//! The host calls themselves are made by the caller, which hands their outcome in.

pub mod address;
pub mod error;
pub mod pg;
pub mod rows;
mod shared;
pub mod sqlite;

pub use sqlite::{SpinSqliteArgs, SpinSqliteStmt};

use vstd::prelude::*;

verus! {

/// Whether an encoded argument is the engine's null variant.
#[derive(Clone, Copy, Debug, PartialEq, Eq, Structural)]
pub enum IsNull {
    Yes,
    No,
}

/// The options of the embedded engine, under the name the crate root gives them.
pub type SqlxConnectionOptions = sqlite::ConnectionOptions;

} // verus!
