//! Data types of columns and literal values.

use vstd::prelude::*;

verus! {

/// The kind of a data type, without nullability.
#[derive(Debug, Clone, Copy, PartialEq, Eq, Structural, Hash)]
pub enum DataTypeKind {
    Null,
    Boolean,
    Int16,
    Int32,
    Int64,
    Float64,
    Decimal(Option<u8>, Option<u8>),
    Date,
    Interval,
    String,
    Blob,
}

/// A data type: its kind and whether it admits nulls.
#[derive(Debug, Clone, Copy, PartialEq, Eq, Structural, Hash)]
pub struct DataType {
    pub kind: DataTypeKind,
    pub nullable: bool,
}

impl DataType {
    pub fn new(kind: DataTypeKind, nullable: bool) -> (r: DataType)
        ensures
            r.kind == kind,
            r.nullable == nullable,
    {
        DataType { kind, nullable }
    }

    pub fn kind(&self) -> (r: DataTypeKind)
        ensures
            r == self.kind,
    {
        self.kind
    }

    pub fn is_nullable(&self) -> (r: bool)
        ensures
            r == self.nullable,
    {
        self.nullable
    }
}

impl DataTypeKind {
    /// The nullable data type of this kind.
    pub fn nullable(self) -> (r: DataType)
        ensures
            r.kind == self,
            r.nullable,
    {
        DataType::new(self, true)
    }

    /// The non-nullable data type of this kind.
    pub fn not_null(self) -> (r: DataType)
        ensures
            r.kind == self,
            !r.nullable,
    {
        DataType::new(self, false)
    }
}

} // verus!

verus! {

/// A literal value.
#[derive(Debug, Clone, Hash)]
pub enum DataValue {
    Null,
    Bool(bool),
    Int32(i32),
    Int64(i64),
    String(String),
}

impl DataValue {
    /// A copy of this value.
    pub fn duplicate(&self) -> (r: DataValue)
        ensures
            r == *self,
    {
        match self {
            DataValue::Null => DataValue::Null,
            DataValue::Bool(b) => DataValue::Bool(*b),
            DataValue::Int32(v) => DataValue::Int32(*v),
            DataValue::Int64(v) => DataValue::Int64(*v),
            DataValue::String(s) => DataValue::String(s.clone()),
        }
    }
}

/// A field of a date or a time, as `extract` reads it.
#[derive(Debug, Clone, Copy, PartialEq, Eq, Structural, Hash)]
pub enum DateTimeField {
    Year,
    Month,
    Day,
    Hour,
    Minute,
    Second,
}

/// The position of a column in the output of a plan.
#[derive(Debug, Clone, Copy, PartialEq, Eq, Structural, Hash)]
pub struct ColumnIndex(pub u32);

/// Whether two values are the same: same variant, same payload.
pub open spec fn same_value(a: DataValue, b: DataValue) -> bool {
    match (a, b) {
        (DataValue::Null, DataValue::Null) => true,
        (DataValue::Bool(x), DataValue::Bool(y)) => x == y,
        (DataValue::Int32(x), DataValue::Int32(y)) => x == y,
        (DataValue::Int64(x), DataValue::Int64(y)) => x == y,
        (DataValue::String(x), DataValue::String(y)) => x@ == y@,
        _ => false,
    }
}

impl DataValue {
    /// Whether this value is the same as `other`.
    pub fn same_as(&self, other: &DataValue) -> (r: bool)
        ensures
            r == same_value(*self, *other),
    {
        match (self, other) {
            (DataValue::Null, DataValue::Null) => true,
            (DataValue::Bool(x), DataValue::Bool(y)) => *x == *y,
            (DataValue::Int32(x), DataValue::Int32(y)) => *x == *y,
            (DataValue::Int64(x), DataValue::Int64(y)) => *x == *y,
            (DataValue::String(x), DataValue::String(y)) => *x == *y,
            _ => false,
        }
    }
}

} // verus!
