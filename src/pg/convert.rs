//! Conversions between native scalars and the remote engine's values.
//!
//! Each integer width has a variant of its own and is encoded without widening.
//! Decoding widens a narrower integer variant and narrows a wider one with a
//! range check. Unsigned integers have no encoding here, as the engine has no
//! lossless variant for them.

use vstd::prelude::*;

use crate::error::DecodeError;
use super::value::{stored, ParameterView, PgParameter, SpinPgValue, ValueView};

verus! {

/// A native scalar that the remote engine can store.
///
/// `F32Bits` and `F64Bits` hold the bit patterns of 32-bit and 64-bit floats.
#[derive(Clone, Debug, PartialEq)]
pub enum PgScalar {
    Bool(bool),
    I16(i16),
    I32(i32),
    I64(i64),
    F32Bits(u32),
    F64Bits(u64),
    Text(String),
    Blob(Vec<u8>),
}

/// The mathematical view of a scalar: text and bytes as sequences.
pub enum ScalarView {
    Bool(bool),
    I16(i16),
    I32(i32),
    I64(i64),
    F32Bits(u32),
    F64Bits(u64),
    Text(Seq<char>),
    Blob(Seq<u8>),
}

impl View for PgScalar {
    type V = ScalarView;

    open spec fn view(&self) -> ScalarView {
        match self {
            PgScalar::Bool(b) => ScalarView::Bool(*b),
            PgScalar::I16(n) => ScalarView::I16(*n),
            PgScalar::I32(n) => ScalarView::I32(*n),
            PgScalar::I64(n) => ScalarView::I64(*n),
            PgScalar::F32Bits(b) => ScalarView::F32Bits(*b),
            PgScalar::F64Bits(b) => ScalarView::F64Bits(*b),
            PgScalar::Text(t) => ScalarView::Text(t@),
            PgScalar::Blob(b) => ScalarView::Blob(b@),
        }
    }
}

/// The native type requested when decoding.
#[derive(Clone, Copy, Debug, PartialEq, Eq, Structural)]
pub enum PgKind {
    Bool,
    I16,
    I32,
    I64,
    F32Bits,
    F64Bits,
    Text,
    Blob,
}

pub open spec fn kind_of(s: ScalarView) -> PgKind {
    match s {
        ScalarView::Bool(_) => PgKind::Bool,
        ScalarView::I16(_) => PgKind::I16,
        ScalarView::I32(_) => PgKind::I32,
        ScalarView::I64(_) => PgKind::I64,
        ScalarView::F32Bits(_) => PgKind::F32Bits,
        ScalarView::F64Bits(_) => PgKind::F64Bits,
        ScalarView::Text(_) => PgKind::Text,
        ScalarView::Blob(_) => PgKind::Blob,
    }
}

pub open spec fn encode_spec(s: ScalarView) -> ParameterView {
    match s {
        ScalarView::Bool(b) => ParameterView::Boolean(b),
        ScalarView::I16(n) => ParameterView::Int16(n),
        ScalarView::I32(n) => ParameterView::Int32(n),
        ScalarView::I64(n) => ParameterView::Int64(n),
        ScalarView::F32Bits(b) => ParameterView::Floating32(b),
        ScalarView::F64Bits(b) => ParameterView::Floating64(b),
        ScalarView::Text(t) => ParameterView::Str(t),
        ScalarView::Blob(b) => ParameterView::Binary(b),
    }
}

/// The parameter bound for an optional argument: `None` is the null variant.
pub open spec fn encode_nullable_spec(o: Option<ScalarView>) -> ParameterView {
    match o {
        Some(s) => encode_spec(s),
        None => ParameterView::DbNull,
    }
}

pub open spec fn is_integer_kind(k: PgKind) -> bool {
    k is I16 || k is I32 || k is I64
}

/// The number held by a signed integer cell.
pub open spec fn integer_cell(v: ValueView) -> Option<int> {
    match v {
        ValueView::Int16(n) => Some(n as int),
        ValueView::Int32(n) => Some(n as int),
        ValueView::Int64(n) => Some(n as int),
        _ => None,
    }
}

/// Whether `n` lies in the range of the integer kind `k`.
pub open spec fn fits(k: PgKind, n: int) -> bool {
    match k {
        PgKind::I16 => i16::MIN <= n <= i16::MAX,
        PgKind::I32 => i32::MIN <= n <= i32::MAX,
        PgKind::I64 => i64::MIN <= n <= i64::MAX,
        _ => false,
    }
}

/// The number `n` as a scalar of the integer kind `k`, where it fits.
pub open spec fn narrow(k: PgKind, n: int) -> Result<ScalarView, DecodeError> {
    if !fits(k, n) {
        Err(DecodeError::BadValue)
    } else {
        match k {
            PgKind::I16 => Ok(ScalarView::I16(n as i16)),
            PgKind::I32 => Ok(ScalarView::I32(n as i32)),
            _ => Ok(ScalarView::I64(n as i64)),
        }
    }
}

pub open spec fn decode_spec(k: PgKind, v: ValueView) -> Result<ScalarView, DecodeError> {
    if is_integer_kind(k) && integer_cell(v) is Some {
        narrow(k, integer_cell(v)->Some_0)
    } else {
        match (k, v) {
            (PgKind::Bool, ValueView::Boolean(b)) => Ok(ScalarView::Bool(b)),
            (PgKind::F32Bits, ValueView::Floating32(b)) => Ok(ScalarView::F32Bits(b)),
            (PgKind::F64Bits, ValueView::Floating64(b)) => Ok(ScalarView::F64Bits(b)),
            (PgKind::Text, ValueView::Str(t)) => Ok(ScalarView::Text(t)),
            (PgKind::Blob, ValueView::Binary(b)) => Ok(ScalarView::Blob(b)),
            _ => Err(DecodeError::BadType),
        }
    }
}

/// A decoding result and its specification agree, up to the scalar's view.
pub open spec fn decoded_as(r: Result<PgScalar, DecodeError>, s: Result<ScalarView, DecodeError>) -> bool {
    match s {
        Ok(v) => r is Ok && r->Ok_0@ == v,
        Err(e) => r == Err::<PgScalar, DecodeError>(e),
    }
}

/// Encodes a native scalar; encoding never fails.
pub fn encode(value: PgScalar) -> (r: PgParameter)
    ensures
        r@ == encode_spec(value@),
{
    match value {
        PgScalar::Bool(b) => PgParameter::Boolean(b),
        PgScalar::I16(n) => PgParameter::Int16(n),
        PgScalar::I32(n) => PgParameter::Int32(n),
        PgScalar::I64(n) => PgParameter::Int64(n),
        PgScalar::F32Bits(b) => PgParameter::Floating32(b),
        PgScalar::F64Bits(b) => PgParameter::Floating64(b),
        PgScalar::Text(t) => PgParameter::Str(t),
        PgScalar::Blob(b) => PgParameter::Binary(b),
    }
}

/// Converts an integer cell to the integer kind `kind`, rejecting what does not fit.
pub fn into_or_err(kind: PgKind, n: i64) -> (r: Result<PgScalar, DecodeError>)
    requires
        is_integer_kind(kind),
    ensures
        decoded_as(r, narrow(kind, n as int)),
{
    match kind {
        PgKind::I16 => if -32768 <= n && n <= 32767 {
            Ok(PgScalar::I16(n as i16))
        } else {
            Err(DecodeError::BadValue)
        },
        PgKind::I32 => if -2147483648 <= n && n <= 2147483647 {
            Ok(PgScalar::I32(n as i32))
        } else {
            Err(DecodeError::BadValue)
        },
        _ => Ok(PgScalar::I64(n)),
    }
}

/// Decodes a cell into the native type `kind`.
pub fn decode(kind: PgKind, value: &SpinPgValue) -> (r: Result<PgScalar, DecodeError>)
    ensures
        decoded_as(r, decode_spec(kind, value@)),
{
    match (kind, value) {
        (PgKind::I16, SpinPgValue::Int16(n)) | (PgKind::I32, SpinPgValue::Int16(n)) | (
            PgKind::I64,
            SpinPgValue::Int16(n),
        ) => into_or_err(kind, *n as i64),
        (PgKind::I16, SpinPgValue::Int32(n)) | (PgKind::I32, SpinPgValue::Int32(n)) | (
            PgKind::I64,
            SpinPgValue::Int32(n),
        ) => into_or_err(kind, *n as i64),
        (PgKind::I16, SpinPgValue::Int64(n)) | (PgKind::I32, SpinPgValue::Int64(n)) | (
            PgKind::I64,
            SpinPgValue::Int64(n),
        ) => into_or_err(kind, *n),
        (PgKind::Bool, SpinPgValue::Boolean(b)) => Ok(PgScalar::Bool(*b)),
        (PgKind::F32Bits, SpinPgValue::Floating32(b)) => Ok(PgScalar::F32Bits(*b)),
        (PgKind::F64Bits, SpinPgValue::Floating64(b)) => Ok(PgScalar::F64Bits(*b)),
        (PgKind::Text, SpinPgValue::Str(t)) => Ok(PgScalar::Text(t.clone())),
        (PgKind::Blob, SpinPgValue::Binary(b)) => {
            let bytes = b.clone();
            assert(bytes@ =~= b@);
            Ok(PgScalar::Blob(bytes))
        },
        _ => Err(DecodeError::BadType),
    }
}

/// Decoding what the engine hands back for an encoded scalar gives the scalar
/// back, for every scalar.
pub proof fn lemma_round_trip(s: PgScalar)
    ensures
        decode_spec(kind_of(s@), stored(encode_spec(s@))) == Ok::<ScalarView, DecodeError>(s@),
{
}

/// An integer cell whose number lies outside the range of the requested integer
/// type is rejected as a bad value; it is never wrapped or truncated.
pub proof fn lemma_overflow_rejected(k: PgKind, v: ValueView)
    requires
        is_integer_kind(k),
        integer_cell(v) is Some,
        !fits(k, integer_cell(v)->Some_0),
    ensures
        decode_spec(k, v) == Err::<ScalarView, DecodeError>(DecodeError::BadValue),
{
}

/// `None` is bound as the null variant, which reads back as null and which no
/// non-optional type accepts.
pub proof fn lemma_null_round_trip(k: PgKind)
    ensures
        encode_nullable_spec(None) == ParameterView::DbNull,
        stored(encode_nullable_spec(None)) == ValueView::DbNull,
        decode_spec(k, stored(encode_nullable_spec(None))) == Err::<ScalarView, DecodeError>(
            DecodeError::BadType,
        ),
{
}

} // verus!
