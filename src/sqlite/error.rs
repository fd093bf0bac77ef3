//! The embedded engine's host errors and their place in the driver's taxonomy.

use vstd::prelude::*;

use crate::error::{io_error, DriverError, ErrorView, IoErrorKind};

verus! {

/// An error raised by the embedded engine's host interface.
#[derive(Clone, Debug, PartialEq)]
pub enum SqliteHostError {
    NoSuchDatabase,
    AccessDenied,
    InvalidConnection,
    DatabaseFull,
    Io(String),
}

/// The driver error that a host error becomes.
pub open spec fn driver_error_of(e: SqliteHostError) -> ErrorView {
    match e {
        SqliteHostError::AccessDenied => ErrorView::Io {
            kind: IoErrorKind::NotFound,
            message: "Component does not have access to database"@,
        },
        SqliteHostError::DatabaseFull => ErrorView::Database { message: "Database full"@ },
        SqliteHostError::InvalidConnection => ErrorView::Io {
            kind: IoErrorKind::NotFound,
            message: "Invalid connection handle"@,
        },
        SqliteHostError::Io(m) => ErrorView::Io { kind: IoErrorKind::Other, message: m@ },
        SqliteHostError::NoSuchDatabase => ErrorView::Io {
            kind: IoErrorKind::NotFound,
            message: "No such database"@,
        },
    }
}

impl SqliteHostError {
    pub fn to_driver_error(self) -> (r: DriverError)
        ensures
            r@ == driver_error_of(self),
    {
        match self {
            SqliteHostError::AccessDenied => io_error("Component does not have access to database"),
            SqliteHostError::DatabaseFull => DriverError::Database {
                message: String::from_str("Database full"),
            },
            SqliteHostError::InvalidConnection => io_error("Invalid connection handle"),
            SqliteHostError::Io(m) => DriverError::Io { kind: IoErrorKind::Other, message: m },
            SqliteHostError::NoSuchDatabase => io_error("No such database"),
        }
    }
}

} // verus!
