//! The remote engine's tagged values and their type descriptors.

use vstd::prelude::*;

verus! {

/// One cell of the remote engine, as the host hands it over.
///
/// Floats are held as their bit patterns. The unsigned and 8-bit variants are
/// accepted from the host but never produced by this adapter's encoders.
#[derive(Clone, Debug, PartialEq)]
pub enum SpinPgValue {
    Boolean(bool),
    Int8(i8),
    Int16(i16),
    Int32(i32),
    Int64(i64),
    Uint8(u8),
    Uint16(u16),
    Uint32(u32),
    Uint64(u64),
    Floating32(u32),
    Floating64(u64),
    Str(String),
    Binary(Vec<u8>),
    DbNull,
    Unsupported,
}

/// The mathematical view of a cell: text and bytes as sequences.
pub enum ValueView {
    Boolean(bool),
    Int8(i8),
    Int16(i16),
    Int32(i32),
    Int64(i64),
    Uint8(u8),
    Uint16(u16),
    Uint32(u32),
    Uint64(u64),
    Floating32(u32),
    Floating64(u64),
    Str(Seq<char>),
    Binary(Seq<u8>),
    DbNull,
    Unsupported,
}

impl View for SpinPgValue {
    type V = ValueView;

    open spec fn view(&self) -> ValueView {
        match self {
            SpinPgValue::Boolean(b) => ValueView::Boolean(*b),
            SpinPgValue::Int8(n) => ValueView::Int8(*n),
            SpinPgValue::Int16(n) => ValueView::Int16(*n),
            SpinPgValue::Int32(n) => ValueView::Int32(*n),
            SpinPgValue::Int64(n) => ValueView::Int64(*n),
            SpinPgValue::Uint8(n) => ValueView::Uint8(*n),
            SpinPgValue::Uint16(n) => ValueView::Uint16(*n),
            SpinPgValue::Uint32(n) => ValueView::Uint32(*n),
            SpinPgValue::Uint64(n) => ValueView::Uint64(*n),
            SpinPgValue::Floating32(b) => ValueView::Floating32(*b),
            SpinPgValue::Floating64(b) => ValueView::Floating64(*b),
            SpinPgValue::Str(t) => ValueView::Str(t@),
            SpinPgValue::Binary(b) => ValueView::Binary(b@),
            SpinPgValue::DbNull => ValueView::DbNull,
            SpinPgValue::Unsupported => ValueView::Unsupported,
        }
    }
}

/// A parameter value of the remote engine, as this adapter's encoders produce it.
#[derive(Clone, Debug, PartialEq)]
pub enum PgParameter {
    Boolean(bool),
    Int16(i16),
    Int32(i32),
    Int64(i64),
    Floating32(u32),
    Floating64(u64),
    Str(String),
    Binary(Vec<u8>),
    DbNull,
}

/// The mathematical view of a parameter value.
pub enum ParameterView {
    Boolean(bool),
    Int16(i16),
    Int32(i32),
    Int64(i64),
    Floating32(u32),
    Floating64(u64),
    Str(Seq<char>),
    Binary(Seq<u8>),
    DbNull,
}

impl View for PgParameter {
    type V = ParameterView;

    open spec fn view(&self) -> ParameterView {
        match self {
            PgParameter::Boolean(b) => ParameterView::Boolean(*b),
            PgParameter::Int16(n) => ParameterView::Int16(*n),
            PgParameter::Int32(n) => ParameterView::Int32(*n),
            PgParameter::Int64(n) => ParameterView::Int64(*n),
            PgParameter::Floating32(b) => ParameterView::Floating32(*b),
            PgParameter::Floating64(b) => ParameterView::Floating64(*b),
            PgParameter::Str(t) => ParameterView::Str(t@),
            PgParameter::Binary(b) => ParameterView::Binary(b@),
            PgParameter::DbNull => ParameterView::DbNull,
        }
    }
}

/// The cell that the engine hands back for a stored parameter: the variant of
/// the same name, holding the same value.
pub open spec fn stored(p: ParameterView) -> ValueView {
    match p {
        ParameterView::Boolean(b) => ValueView::Boolean(b),
        ParameterView::Int16(n) => ValueView::Int16(n),
        ParameterView::Int32(n) => ValueView::Int32(n),
        ParameterView::Int64(n) => ValueView::Int64(n),
        ParameterView::Floating32(b) => ValueView::Floating32(b),
        ParameterView::Floating64(b) => ValueView::Floating64(b),
        ParameterView::Str(t) => ValueView::Str(t),
        ParameterView::Binary(b) => ValueView::Binary(b),
        ParameterView::DbNull => ValueView::DbNull,
    }
}

/// Describes the variant of a cell of the remote engine.
#[derive(Clone, Copy, Debug, PartialEq, Eq, Structural)]
pub enum SpinPgTypeInfo {
    Bool,
    Int16,
    Int32,
    Int64,
    Floating32,
    Floating64,
    Str,
    Binary,
    Null,
    Unsupported,
}

/// The descriptor of a cell's variant. The host's own `Unsupported` cell is
/// described as null, the variants that no encoder produces as unsupported.
pub open spec fn type_info_of(v: ValueView) -> SpinPgTypeInfo {
    match v {
        ValueView::DbNull => SpinPgTypeInfo::Null,
        ValueView::Boolean(_) => SpinPgTypeInfo::Bool,
        ValueView::Int8(_) => SpinPgTypeInfo::Unsupported,
        ValueView::Int16(_) => SpinPgTypeInfo::Int16,
        ValueView::Int32(_) => SpinPgTypeInfo::Int32,
        ValueView::Int64(_) => SpinPgTypeInfo::Int64,
        ValueView::Uint8(_) => SpinPgTypeInfo::Unsupported,
        ValueView::Uint16(_) => SpinPgTypeInfo::Unsupported,
        ValueView::Uint32(_) => SpinPgTypeInfo::Unsupported,
        ValueView::Uint64(_) => SpinPgTypeInfo::Unsupported,
        ValueView::Floating32(_) => SpinPgTypeInfo::Floating32,
        ValueView::Floating64(_) => SpinPgTypeInfo::Floating64,
        ValueView::Str(_) => SpinPgTypeInfo::Str,
        ValueView::Binary(_) => SpinPgTypeInfo::Binary,
        ValueView::Unsupported => SpinPgTypeInfo::Null,
    }
}

/// The display name of a descriptor.
pub open spec fn descriptor_name(t: SpinPgTypeInfo) -> Seq<char> {
    match t {
        SpinPgTypeInfo::Bool => "boolean"@,
        SpinPgTypeInfo::Int16 => "smallint"@,
        SpinPgTypeInfo::Int32 => "int"@,
        SpinPgTypeInfo::Int64 => "bigint"@,
        SpinPgTypeInfo::Floating32 => "real"@,
        SpinPgTypeInfo::Floating64 => "double precision"@,
        SpinPgTypeInfo::Str => "text"@,
        SpinPgTypeInfo::Binary => "bytea"@,
        SpinPgTypeInfo::Null => "NULL"@,
        SpinPgTypeInfo::Unsupported => "<unsupported>"@,
    }
}

impl SpinPgValue {
    pub fn type_info(&self) -> (r: SpinPgTypeInfo)
        ensures
            r == type_info_of(self@),
    {
        match self {
            SpinPgValue::DbNull => SpinPgTypeInfo::Null,
            SpinPgValue::Boolean(_) => SpinPgTypeInfo::Bool,
            SpinPgValue::Int8(_) => SpinPgTypeInfo::Unsupported,
            SpinPgValue::Int16(_) => SpinPgTypeInfo::Int16,
            SpinPgValue::Int32(_) => SpinPgTypeInfo::Int32,
            SpinPgValue::Int64(_) => SpinPgTypeInfo::Int64,
            SpinPgValue::Uint8(_) => SpinPgTypeInfo::Unsupported,
            SpinPgValue::Uint16(_) => SpinPgTypeInfo::Unsupported,
            SpinPgValue::Uint32(_) => SpinPgTypeInfo::Unsupported,
            SpinPgValue::Uint64(_) => SpinPgTypeInfo::Unsupported,
            SpinPgValue::Floating32(_) => SpinPgTypeInfo::Floating32,
            SpinPgValue::Floating64(_) => SpinPgTypeInfo::Floating64,
            SpinPgValue::Str(_) => SpinPgTypeInfo::Str,
            SpinPgValue::Binary(_) => SpinPgTypeInfo::Binary,
            SpinPgValue::Unsupported => SpinPgTypeInfo::Null,
        }
    }

    pub fn is_null(&self) -> (r: bool)
        ensures
            r == (self@ is DbNull),
    {
        matches!(self, SpinPgValue::DbNull)
    }
}

impl SpinPgTypeInfo {
    pub fn is_null(&self) -> (r: bool)
        ensures
            r == (*self == SpinPgTypeInfo::Null),
    {
        *self == SpinPgTypeInfo::Null
    }

    pub fn name(&self) -> (r: &'static str)
        ensures
            r@ == descriptor_name(*self),
    {
        match self {
            SpinPgTypeInfo::Bool => "boolean",
            SpinPgTypeInfo::Int16 => "smallint",
            SpinPgTypeInfo::Int32 => "int",
            SpinPgTypeInfo::Int64 => "bigint",
            SpinPgTypeInfo::Floating32 => "real",
            SpinPgTypeInfo::Floating64 => "double precision",
            SpinPgTypeInfo::Str => "text",
            SpinPgTypeInfo::Binary => "bytea",
            SpinPgTypeInfo::Null => "NULL",
            SpinPgTypeInfo::Unsupported => "<unsupported>",
        }
    }
}

} // verus!
