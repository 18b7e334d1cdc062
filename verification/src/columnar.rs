//! The columnar type descriptor vocabulary: the closed set of canonical
//! columnar kinds that field types resolve to, and the named field
//! descriptor built from one.

use vstd::prelude::*;

verus! {

/// A canonical columnar kind, fixed at derivation time.
///
/// The set is closed: unsigned and signed integers of the four fixed
/// widths, the two floating-point widths, boolean, UTF-8 string, binary
/// blob, a 32-bit day-count date, a nanosecond-resolution timestamp
/// without a time zone, and a list of a nested item descriptor.
#[derive(Debug, PartialEq, Eq)]
pub enum ColumnarType {
    UInt8,
    UInt16,
    UInt32,
    UInt64,
    Int8,
    Int16,
    Int32,
    Int64,
    Float32,
    Float64,
    Boolean,
    Utf8,
    Binary,
    Date32,
    TimestampNanosecond,
    List(Box<ListItem>),
}

/// The descriptor of a list's item column.
///
/// The composition rule for sequences fixes the item column's name to
/// `item`, so the name is not stored; only the item's columnar type and
/// nullability vary.
#[derive(Debug, PartialEq, Eq)]
pub struct ListItem {
    pub data_type: ColumnarType,
    pub nullable: bool,
}

/// A resolved type descriptor: the columnar type of a field type together
/// with its nullability flag.
#[derive(Debug, PartialEq, Eq)]
pub struct TypeDescriptor {
    pub data_type: ColumnarType,
    pub nullable: bool,
}

/// A named field descriptor: one column of the final schema.
#[derive(Debug, PartialEq, Eq)]
pub struct FieldDescriptor {
    pub name: String,
    pub data_type: ColumnarType,
    pub nullable: bool,
}

} // verus!
