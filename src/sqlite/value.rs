//! The embedded engine's tagged values and their type descriptors.

use vstd::prelude::*;

verus! {

/// One cell or bound parameter of the embedded engine.
///
/// A real number is held as the bit pattern of its 64-bit float.
#[derive(Clone, Debug, PartialEq)]
pub enum SpinSqliteValue {
    Integer(i64),
    Real(u64),
    Text(String),
    Blob(Vec<u8>),
    Null,
}

/// The mathematical view of a value: text and bytes as sequences.
pub enum ValueView {
    Integer(i64),
    Real(u64),
    Text(Seq<char>),
    Blob(Seq<u8>),
    Null,
}

impl View for SpinSqliteValue {
    type V = ValueView;

    open spec fn view(&self) -> ValueView {
        match self {
            SpinSqliteValue::Integer(n) => ValueView::Integer(*n),
            SpinSqliteValue::Real(b) => ValueView::Real(*b),
            SpinSqliteValue::Text(t) => ValueView::Text(t@),
            SpinSqliteValue::Blob(b) => ValueView::Blob(b@),
            SpinSqliteValue::Null => ValueView::Null,
        }
    }
}

/// Describes the variant of a value of the embedded engine.
#[derive(Clone, Copy, Debug, PartialEq, Eq, Structural)]
pub enum SpinSqliteTypeInfo {
    Int,
    Blob,
    Real,
    Text,
    Null,
}

/// The descriptor of a value's variant.
pub open spec fn type_info_of(v: SpinSqliteValue) -> SpinSqliteTypeInfo {
    match v {
        SpinSqliteValue::Null => SpinSqliteTypeInfo::Null,
        SpinSqliteValue::Integer(_) => SpinSqliteTypeInfo::Int,
        SpinSqliteValue::Blob(_) => SpinSqliteTypeInfo::Blob,
        SpinSqliteValue::Real(_) => SpinSqliteTypeInfo::Real,
        SpinSqliteValue::Text(_) => SpinSqliteTypeInfo::Text,
    }
}

/// The display name of a descriptor.
pub open spec fn descriptor_name(t: SpinSqliteTypeInfo) -> Seq<char> {
    match t {
        SpinSqliteTypeInfo::Blob => "BINARY"@,
        SpinSqliteTypeInfo::Int => "INT"@,
        SpinSqliteTypeInfo::Null => "NULL"@,
        SpinSqliteTypeInfo::Real => "REAL"@,
        SpinSqliteTypeInfo::Text => "TEXT"@,
    }
}

impl SpinSqliteValue {
    pub fn type_info(&self) -> (r: SpinSqliteTypeInfo)
        ensures
            r == type_info_of(*self),
    {
        match self {
            SpinSqliteValue::Null => SpinSqliteTypeInfo::Null,
            SpinSqliteValue::Integer(_) => SpinSqliteTypeInfo::Int,
            SpinSqliteValue::Blob(_) => SpinSqliteTypeInfo::Blob,
            SpinSqliteValue::Real(_) => SpinSqliteTypeInfo::Real,
            SpinSqliteValue::Text(_) => SpinSqliteTypeInfo::Text,
        }
    }

    pub fn is_null(&self) -> (r: bool)
        ensures
            r == (*self is Null),
    {
        matches!(self, SpinSqliteValue::Null)
    }
}

impl SpinSqliteTypeInfo {
    pub fn is_null(&self) -> (r: bool)
        ensures
            r == (*self == SpinSqliteTypeInfo::Null),
    {
        *self == SpinSqliteTypeInfo::Null
    }

    pub fn name(&self) -> (r: &'static str)
        ensures
            r@ == descriptor_name(*self),
    {
        match self {
            SpinSqliteTypeInfo::Blob => "BINARY",
            SpinSqliteTypeInfo::Int => "INT",
            SpinSqliteTypeInfo::Null => "NULL",
            SpinSqliteTypeInfo::Real => "REAL",
            SpinSqliteTypeInfo::Text => "TEXT",
        }
    }
}

} // verus!
