//! Conversions between native scalars and the embedded engine's values.
//!
//! Every integer width travels as the 64-bit `Integer` variant: encoding widens,
//! decoding narrows with a range check. A boolean travels as `Integer` 0 or 1.
//! Unsigned 64-bit integers have no variant here, as they cannot be held losslessly.

use vstd::prelude::*;

use crate::error::DecodeError;
use super::value::{SpinSqliteValue, ValueView};

verus! {

/// A native scalar that the embedded engine can store.
///
/// `F64Bits` holds the bit pattern of a 64-bit float.
#[derive(Clone, Debug, PartialEq)]
pub enum SqliteScalar {
    Bool(bool),
    I16(i16),
    U16(u16),
    I32(i32),
    U32(u32),
    I64(i64),
    F64Bits(u64),
    Text(String),
    Blob(Vec<u8>),
}

/// The mathematical view of a scalar: text and bytes as sequences.
pub enum ScalarView {
    Bool(bool),
    I16(i16),
    U16(u16),
    I32(i32),
    U32(u32),
    I64(i64),
    F64Bits(u64),
    Text(Seq<char>),
    Blob(Seq<u8>),
}

impl View for SqliteScalar {
    type V = ScalarView;

    open spec fn view(&self) -> ScalarView {
        match self {
            SqliteScalar::Bool(b) => ScalarView::Bool(*b),
            SqliteScalar::I16(n) => ScalarView::I16(*n),
            SqliteScalar::U16(n) => ScalarView::U16(*n),
            SqliteScalar::I32(n) => ScalarView::I32(*n),
            SqliteScalar::U32(n) => ScalarView::U32(*n),
            SqliteScalar::I64(n) => ScalarView::I64(*n),
            SqliteScalar::F64Bits(b) => ScalarView::F64Bits(*b),
            SqliteScalar::Text(t) => ScalarView::Text(t@),
            SqliteScalar::Blob(b) => ScalarView::Blob(b@),
        }
    }
}

/// The native type requested when decoding.
#[derive(Clone, Copy, Debug, PartialEq, Eq, Structural)]
pub enum SqliteKind {
    Bool,
    I16,
    U16,
    I32,
    U32,
    I64,
    F64Bits,
    Text,
    Blob,
}

pub open spec fn kind_of(s: ScalarView) -> SqliteKind {
    match s {
        ScalarView::Bool(_) => SqliteKind::Bool,
        ScalarView::I16(_) => SqliteKind::I16,
        ScalarView::U16(_) => SqliteKind::U16,
        ScalarView::I32(_) => SqliteKind::I32,
        ScalarView::U32(_) => SqliteKind::U32,
        ScalarView::I64(_) => SqliteKind::I64,
        ScalarView::F64Bits(_) => SqliteKind::F64Bits,
        ScalarView::Text(_) => SqliteKind::Text,
        ScalarView::Blob(_) => SqliteKind::Blob,
    }
}

pub open spec fn encode_spec(s: ScalarView) -> ValueView {
    match s {
        ScalarView::Bool(b) => ValueView::Integer(if b { 1 } else { 0 }),
        ScalarView::I16(n) => ValueView::Integer(n as i64),
        ScalarView::U16(n) => ValueView::Integer(n as i64),
        ScalarView::I32(n) => ValueView::Integer(n as i64),
        ScalarView::U32(n) => ValueView::Integer(n as i64),
        ScalarView::I64(n) => ValueView::Integer(n),
        ScalarView::F64Bits(b) => ValueView::Real(b),
        ScalarView::Text(t) => ValueView::Text(t),
        ScalarView::Blob(b) => ValueView::Blob(b),
    }
}

/// The value bound for an optional argument: `None` is the null variant.
pub open spec fn encode_nullable_spec(o: Option<ScalarView>) -> ValueView {
    match o {
        Some(s) => encode_spec(s),
        None => ValueView::Null,
    }
}

/// Whether `n` lies in the range of the integer kind `k`.
pub open spec fn fits(k: SqliteKind, n: i64) -> bool {
    match k {
        SqliteKind::I16 => i16::MIN <= n <= i16::MAX,
        SqliteKind::U16 => 0 <= n <= u16::MAX,
        SqliteKind::I32 => i32::MIN <= n <= i32::MAX,
        SqliteKind::U32 => 0 <= n <= u32::MAX,
        SqliteKind::I64 => true,
        SqliteKind::Bool => n == 0 || n == 1,
        _ => false,
    }
}

pub open spec fn is_integer_kind(k: SqliteKind) -> bool {
    k is Bool || k is I16 || k is U16 || k is I32 || k is U32 || k is I64
}

/// The integer `n` as a scalar of kind `k`, where it fits.
pub open spec fn integer_scalar(k: SqliteKind, n: i64) -> ScalarView {
    match k {
        SqliteKind::I16 => ScalarView::I16(n as i16),
        SqliteKind::U16 => ScalarView::U16(n as u16),
        SqliteKind::I32 => ScalarView::I32(n as i32),
        SqliteKind::U32 => ScalarView::U32(n as u32),
        SqliteKind::Bool => ScalarView::Bool(n == 1),
        _ => ScalarView::I64(n),
    }
}

pub open spec fn decode_spec(k: SqliteKind, v: ValueView) -> Result<ScalarView, DecodeError> {
    match v {
        ValueView::Integer(n) => if !is_integer_kind(k) {
            Err(DecodeError::BadType)
        } else if fits(k, n) {
            Ok(integer_scalar(k, n))
        } else {
            Err(DecodeError::BadValue)
        },
        ValueView::Real(b) => if k is F64Bits {
            Ok(ScalarView::F64Bits(b))
        } else {
            Err(DecodeError::BadType)
        },
        ValueView::Text(t) => if k is Text {
            Ok(ScalarView::Text(t))
        } else {
            Err(DecodeError::BadType)
        },
        ValueView::Blob(b) => if k is Blob {
            Ok(ScalarView::Blob(b))
        } else {
            Err(DecodeError::BadType)
        },
        ValueView::Null => Err(DecodeError::BadType),
    }
}

/// A decoding result and its specification agree, up to the scalar's view.
pub open spec fn decoded_as(r: Result<SqliteScalar, DecodeError>, s: Result<ScalarView, DecodeError>) -> bool {
    match s {
        Ok(v) => r is Ok && r->Ok_0@ == v,
        Err(e) => r == Err::<SqliteScalar, DecodeError>(e),
    }
}

/// Encodes a native scalar; encoding never fails.
pub fn encode(value: SqliteScalar) -> (r: SpinSqliteValue)
    ensures
        r@ == encode_spec(value@),
{
    match value {
        SqliteScalar::Bool(b) => SpinSqliteValue::Integer(if b { 1 } else { 0 }),
        SqliteScalar::I16(n) => SpinSqliteValue::Integer(n as i64),
        SqliteScalar::U16(n) => SpinSqliteValue::Integer(n as i64),
        SqliteScalar::I32(n) => SpinSqliteValue::Integer(n as i64),
        SqliteScalar::U32(n) => SpinSqliteValue::Integer(n as i64),
        SqliteScalar::I64(n) => SpinSqliteValue::Integer(n),
        SqliteScalar::F64Bits(b) => SpinSqliteValue::Real(b),
        SqliteScalar::Text(t) => SpinSqliteValue::Text(t),
        SqliteScalar::Blob(b) => SpinSqliteValue::Blob(b),
    }
}

/// Narrows an integer cell to the integer kind `kind`, rejecting what does not fit.
pub fn into_or_err(kind: SqliteKind, n: i64) -> (r: Result<SqliteScalar, DecodeError>)
    requires
        is_integer_kind(kind),
    ensures
        decoded_as(
            r,
            if fits(kind, n) {
                Ok(integer_scalar(kind, n))
            } else {
                Err(DecodeError::BadValue)
            },
        ),
{
    match kind {
        SqliteKind::I16 => if -32768 <= n && n <= 32767 {
            Ok(SqliteScalar::I16(n as i16))
        } else {
            Err(DecodeError::BadValue)
        },
        SqliteKind::U16 => if 0 <= n && n <= 65535 {
            Ok(SqliteScalar::U16(n as u16))
        } else {
            Err(DecodeError::BadValue)
        },
        SqliteKind::I32 => if -2147483648 <= n && n <= 2147483647 {
            Ok(SqliteScalar::I32(n as i32))
        } else {
            Err(DecodeError::BadValue)
        },
        SqliteKind::U32 => if 0 <= n && n <= 4294967295 {
            Ok(SqliteScalar::U32(n as u32))
        } else {
            Err(DecodeError::BadValue)
        },
        SqliteKind::Bool => if n == 0 {
            Ok(SqliteScalar::Bool(false))
        } else if n == 1 {
            Ok(SqliteScalar::Bool(true))
        } else {
            Err(DecodeError::BadValue)
        },
        _ => Ok(SqliteScalar::I64(n)),
    }
}

/// Decodes a value into the native type `kind`.
pub fn decode(kind: SqliteKind, value: &SpinSqliteValue) -> (r: Result<SqliteScalar, DecodeError>)
    ensures
        decoded_as(r, decode_spec(kind, value@)),
{
    match value {
        SpinSqliteValue::Integer(n) => match kind {
            SqliteKind::F64Bits | SqliteKind::Text | SqliteKind::Blob => Err(DecodeError::BadType),
            _ => into_or_err(kind, *n),
        },
        SpinSqliteValue::Real(b) => match kind {
            SqliteKind::F64Bits => Ok(SqliteScalar::F64Bits(*b)),
            _ => Err(DecodeError::BadType),
        },
        SpinSqliteValue::Text(t) => match kind {
            SqliteKind::Text => Ok(SqliteScalar::Text(t.clone())),
            _ => Err(DecodeError::BadType),
        },
        SpinSqliteValue::Blob(b) => match kind {
            SqliteKind::Blob => {
                let bytes = b.clone();
                assert(bytes@ =~= b@);
                Ok(SqliteScalar::Blob(bytes))
            },
            _ => Err(DecodeError::BadType),
        },
        SpinSqliteValue::Null => Err(DecodeError::BadType),
    }
}

/// Decoding what was encoded gives the scalar back, for every scalar.
pub proof fn lemma_round_trip(s: SqliteScalar)
    ensures
        decode_spec(kind_of(s@), encode_spec(s@)) == Ok::<ScalarView, DecodeError>(s@),
{
}

/// An integer cell outside the range of the requested integer type is rejected
/// as a bad value; it is never wrapped or truncated.
pub proof fn lemma_overflow_rejected(k: SqliteKind, n: i64)
    requires
        is_integer_kind(k),
        !fits(k, n),
    ensures
        decode_spec(k, ValueView::Integer(n)) == Err::<ScalarView, DecodeError>(DecodeError::BadValue),
{
}

/// `None` is bound as the null variant, which reads back as null and which no
/// non-optional type accepts.
pub proof fn lemma_null_round_trip(k: SqliteKind)
    ensures
        encode_nullable_spec(None) == ValueView::Null,
        decode_spec(k, encode_nullable_spec(None)) == Err::<ScalarView, DecodeError>(
            DecodeError::BadType,
        ),
{
}

} // verus!
