//! The remote engine's host errors and their place in the driver's taxonomy.

use vstd::prelude::*;

use crate::error::{io_error, DriverError, ErrorView, IoErrorKind};

verus! {

/// An error reported by the remote engine for a connection or a statement.
#[derive(Clone, Debug, PartialEq)]
pub enum PgDbError {
    ConnectionFailed(String),
    BadParameter(String),
    QueryFailed(String),
    ValueConversionFailed(String),
    Other(String),
}

/// An error of the remote engine's client: the engine's own, or a cell that
/// could not be decoded.
#[derive(Clone, Debug, PartialEq)]
pub enum PgHostError {
    Decode(String),
    PgError(PgDbError),
}

/// The driver error that an engine error becomes.
pub open spec fn db_error_of(e: PgDbError) -> ErrorView {
    match e {
        PgDbError::ConnectionFailed(m) => ErrorView::Io { kind: IoErrorKind::NotFound, message: m@ },
        PgDbError::QueryFailed(m) => ErrorView::Io { kind: IoErrorKind::NotFound, message: m@ },
        PgDbError::BadParameter(m) => ErrorView::Io { kind: IoErrorKind::NotFound, message: m@ },
        PgDbError::ValueConversionFailed(m) => ErrorView::Decode { message: m@ },
        PgDbError::Other(m) => ErrorView::Io { kind: IoErrorKind::NotFound, message: m@ },
    }
}

/// The driver error that a client error becomes.
pub open spec fn host_error_of(e: PgHostError) -> ErrorView {
    match e {
        PgHostError::PgError(err) => db_error_of(err),
        PgHostError::Decode(m) => ErrorView::Decode { message: m@ },
    }
}

impl PgDbError {
    pub fn to_driver_error(self) -> (r: DriverError)
        ensures
            r@ == db_error_of(self),
    {
        match self {
            PgDbError::ConnectionFailed(m) => io_error(m.as_str()),
            PgDbError::QueryFailed(m) => io_error(m.as_str()),
            PgDbError::BadParameter(m) => io_error(m.as_str()),
            PgDbError::ValueConversionFailed(m) => DriverError::Decode { message: m },
            PgDbError::Other(m) => io_error(m.as_str()),
        }
    }
}

impl PgHostError {
    pub fn to_driver_error(self) -> (r: DriverError)
        ensures
            r@ == host_error_of(self),
    {
        match self {
            PgHostError::PgError(err) => err.to_driver_error(),
            PgHostError::Decode(m) => DriverError::Decode { message: m },
        }
    }
}

} // verus!
