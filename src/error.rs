//! Errors shared by both engines.

use vstd::prelude::*;

verus! {

/// The kind of an I/O error reported by the driver.
#[derive(Clone, Copy, Debug, PartialEq, Eq, Structural)]
pub enum IoErrorKind {
    NotFound,
    Other,
}

/// An operation that neither engine can perform.
#[derive(Clone, Copy, Debug, PartialEq, Eq, Structural)]
pub enum Operation {
    Begin,
    Commit,
    Rollback,
    StatementParameters,
    StatementColumns,
    StatementQuery,
    Describe,
}

/// Why a fetched cell could not become the requested native value.
#[derive(Clone, Copy, Debug, PartialEq, Eq, Structural)]
pub enum DecodeError {
    /// The value's variant does not match the requested type.
    BadType,
    /// The variant matches but the value does not fit the requested type.
    BadValue,
}

/// The driver's error taxonomy.
#[derive(Clone, Debug, PartialEq)]
pub enum DriverError {
    /// The connection settings cannot be used.
    Configuration { message: String },
    /// The host could not reach or use the database.
    Io { kind: IoErrorKind, message: String },
    /// The database refused the work; its kind is "other".
    Database { message: String },
    /// A value sent by the host could not be decoded.
    Decode { message: String },
    /// A cell of a row could not be decoded into the requested type.
    ColumnDecode { index: usize, source: DecodeError },
    /// An ordinal past the end of a row.
    ColumnIndexOutOfBounds { index: usize, len: usize },
    /// A column name that the row does not have.
    ColumnNotFound { name: String },
    /// An operation that the host offers no way to perform.
    Unsupported { operation: Operation },
}

/// The mathematical view of a driver error: its messages as character sequences.
pub enum ErrorView {
    Configuration { message: Seq<char> },
    Io { kind: IoErrorKind, message: Seq<char> },
    Database { message: Seq<char> },
    Decode { message: Seq<char> },
    ColumnDecode { index: usize, source: DecodeError },
    ColumnIndexOutOfBounds { index: usize, len: usize },
    ColumnNotFound { name: Seq<char> },
    Unsupported { operation: Operation },
}

impl View for DriverError {
    type V = ErrorView;

    open spec fn view(&self) -> ErrorView {
        match self {
            DriverError::Configuration { message } => ErrorView::Configuration { message: message@ },
            DriverError::Io { kind, message } => ErrorView::Io { kind: *kind, message: message@ },
            DriverError::Database { message } => ErrorView::Database { message: message@ },
            DriverError::Decode { message } => ErrorView::Decode { message: message@ },
            DriverError::ColumnDecode { index, source } => ErrorView::ColumnDecode {
                index: *index,
                source: *source,
            },
            DriverError::ColumnIndexOutOfBounds { index, len } => ErrorView::ColumnIndexOutOfBounds {
                index: *index,
                len: *len,
            },
            DriverError::ColumnNotFound { name } => ErrorView::ColumnNotFound { name: name@ },
            DriverError::Unsupported { operation } => ErrorView::Unsupported {
                operation: *operation,
            },
        }
    }
}

/// A "not found" I/O error with the given message.
pub fn io_error(message: &str) -> (r: DriverError)
    ensures
        r@ == (ErrorView::Io { kind: IoErrorKind::NotFound, message: message@ }),
{
    DriverError::Io { kind: IoErrorKind::NotFound, message: String::from_str(message) }
}

/// Fails for every operation: transactions, statement introspection,
/// statement-based queries and offline description are absent on both engines.
pub fn require_support(operation: Operation) -> (r: Result<(), DriverError>)
    ensures
        r == Err::<(), DriverError>(DriverError::Unsupported { operation }),
{
    Err(DriverError::Unsupported { operation })
}

} // verus!
