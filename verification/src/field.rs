//! The type capability registry: maps a declared field type to its
//! columnar type descriptor and nullability flag, and gives the closed
//! composition rules for optionals and sequences.

use vstd::prelude::*;

use crate::columnar::ColumnarType;
use crate::columnar::FieldDescriptor;
use crate::columnar::ListItem;
use crate::columnar::TypeDescriptor;

verus! {

/// A built-in leaf type with a provided capability implementation:
/// the fixed-width integers, the two floating-point widths, boolean,
/// UTF-8 string, and the two naive temporal types.
#[derive(Clone, Copy, Debug, PartialEq, Eq)]
pub enum PrimitiveType {
    U8,
    U16,
    U32,
    U64,
    I8,
    I16,
    I32,
    I64,
    F32,
    F64,
    Bool,
    Text,
    Date,
    DateTime,
}

/// The capability record of a user-defined leaf type: its author states
/// the columnar type, the nullability, and whether the type opts in to
/// appearing as a sequence element (vector enablement is never inferred
/// structurally).
#[derive(Debug, PartialEq, Eq)]
pub struct CustomType {
    pub data_type: ColumnarType,
    pub nullable: bool,
    pub vector_enabled: bool,
}

/// A declared field type: a built-in leaf, a registered user leaf, or one
/// of the two composite wrappers.
#[derive(Debug, PartialEq, Eq)]
pub enum FieldType {
    Primitive(PrimitiveType),
    Custom(CustomType),
    Optional(Box<FieldType>),
    Sequence(Box<FieldType>),
}

/// A declared field type had no capability implementation and no valid
/// composition path. Resolution fails fatally at definition time; the
/// enclosing codec synthesis names the record type when surfacing it.
#[derive(Clone, Copy, Debug, PartialEq, Eq)]
pub struct TypeResolutionFailure;

/// The designated columnar type of each built-in leaf type.
pub open spec fn spec_primitive_data_type(p: PrimitiveType) -> ColumnarType {
    match p {
        PrimitiveType::U8 => ColumnarType::UInt8,
        PrimitiveType::U16 => ColumnarType::UInt16,
        PrimitiveType::U32 => ColumnarType::UInt32,
        PrimitiveType::U64 => ColumnarType::UInt64,
        PrimitiveType::I8 => ColumnarType::Int8,
        PrimitiveType::I16 => ColumnarType::Int16,
        PrimitiveType::I32 => ColumnarType::Int32,
        PrimitiveType::I64 => ColumnarType::Int64,
        PrimitiveType::F32 => ColumnarType::Float32,
        PrimitiveType::F64 => ColumnarType::Float64,
        PrimitiveType::Bool => ColumnarType::Boolean,
        PrimitiveType::Text => ColumnarType::Utf8,
        PrimitiveType::Date => ColumnarType::Date32,
        PrimitiveType::DateTime => ColumnarType::TimestampNanosecond,
    }
}

/// The byte type is the one sequence element that is special-cased: a
/// sequence of it is a binary blob, not a generic list.
pub open spec fn spec_is_byte(t: FieldType) -> bool {
    t == FieldType::Primitive(PrimitiveType::U8)
}

/// Nullability of a field type. Only the optional wrapper makes a field
/// nullable; nesting optionals collapses to one level of nullability.
pub open spec fn spec_nullable(t: FieldType) -> bool {
    match t {
        FieldType::Primitive(_) => false,
        FieldType::Custom(c) => c.nullable,
        FieldType::Optional(_) => true,
        FieldType::Sequence(_) => false,
    }
}

/// Whether a field type may appear as the element of a sequence.
///
/// Built-in leaves are granted the marker only for string, boolean and
/// the two temporal types; the byte-sequence type carries an explicit
/// grant; a user leaf carries whatever its author granted; and the marker
/// propagates transitively through both wrappers.
pub open spec fn spec_vector_enabled(t: FieldType) -> bool
    decreases t,
{
    match t {
        FieldType::Primitive(p) => p == PrimitiveType::Bool || p == PrimitiveType::Text
            || p == PrimitiveType::Date || p == PrimitiveType::DateTime,
        FieldType::Custom(c) => c.vector_enabled,
        FieldType::Optional(inner) => spec_vector_enabled(*inner),
        FieldType::Sequence(inner) => spec_is_byte(*inner) || spec_vector_enabled(*inner),
    }
}

/// Whether a field type has a capability implementation or a valid
/// composition path. Leaves always resolve; an optional resolves exactly
/// when its element does; a sequence resolves for the byte element, and
/// otherwise only for a resolvable, vector-enabled element.
pub open spec fn spec_resolves(t: FieldType) -> bool
    decreases t,
{
    match t {
        FieldType::Primitive(_) => true,
        FieldType::Custom(_) => true,
        FieldType::Optional(inner) => spec_resolves(*inner),
        FieldType::Sequence(inner) => spec_is_byte(*inner) || (spec_resolves(*inner)
            && spec_vector_enabled(*inner)),
    }
}

/// The columnar type a field type resolves to; meaningful on the types
/// that [`spec_resolves`] admits. An optional keeps its element's
/// columnar type; a sequence of the byte type is a binary blob; any other
/// sequence is a list of its element's descriptor.
pub open spec fn spec_data_type(t: FieldType) -> ColumnarType
    decreases t,
{
    match t {
        FieldType::Primitive(p) => spec_primitive_data_type(p),
        FieldType::Custom(c) => c.data_type,
        FieldType::Optional(inner) => spec_data_type(*inner),
        FieldType::Sequence(inner) => if spec_is_byte(*inner) {
            ColumnarType::Binary
        } else {
            ColumnarType::List(
                Box::new(
                    ListItem {
                        data_type: spec_data_type(*inner),
                        nullable: spec_nullable(*inner),
                    },
                ),
            )
        },
    }
}

fn is_byte(t: &FieldType) -> (r: bool)
    ensures
        r == spec_is_byte(*t),
{
    match t {
        FieldType::Primitive(PrimitiveType::U8) => true,
        _ => false,
    }
}

fn primitive_data_type(p: PrimitiveType) -> (r: ColumnarType)
    ensures
        r == spec_primitive_data_type(p),
{
    match p {
        PrimitiveType::U8 => ColumnarType::UInt8,
        PrimitiveType::U16 => ColumnarType::UInt16,
        PrimitiveType::U32 => ColumnarType::UInt32,
        PrimitiveType::U64 => ColumnarType::UInt64,
        PrimitiveType::I8 => ColumnarType::Int8,
        PrimitiveType::I16 => ColumnarType::Int16,
        PrimitiveType::I32 => ColumnarType::Int32,
        PrimitiveType::I64 => ColumnarType::Int64,
        PrimitiveType::F32 => ColumnarType::Float32,
        PrimitiveType::F64 => ColumnarType::Float64,
        PrimitiveType::Bool => ColumnarType::Boolean,
        PrimitiveType::Text => ColumnarType::Utf8,
        PrimitiveType::Date => ColumnarType::Date32,
        PrimitiveType::DateTime => ColumnarType::TimestampNanosecond,
    }
}

impl FieldType {
    /// Whether values of this field type may be absent.
    pub fn is_nullable(&self) -> (r: bool)
        ensures
            r == spec_nullable(*self),
    {
        match self {
            FieldType::Primitive(_) => false,
            FieldType::Custom(c) => c.nullable,
            FieldType::Optional(_) => true,
            FieldType::Sequence(_) => false,
        }
    }

    /// Whether this field type may appear as the element of a sequence.
    pub fn vector_enabled(&self) -> (r: bool)
        ensures
            r == spec_vector_enabled(*self),
        decreases *self,
    {
        match self {
            FieldType::Primitive(p) => match p {
                PrimitiveType::Bool => true,
                PrimitiveType::Text => true,
                PrimitiveType::Date => true,
                PrimitiveType::DateTime => true,
                _ => false,
            },
            FieldType::Custom(c) => c.vector_enabled,
            FieldType::Optional(inner) => inner.vector_enabled(),
            FieldType::Sequence(inner) => is_byte(inner) || inner.vector_enabled(),
        }
    }

    /// The columnar type this field type resolves to, or a resolution
    /// failure where it has no capability implementation and no valid
    /// composition path.
    pub fn data_type(&self) -> (r: Result<ColumnarType, TypeResolutionFailure>)
        ensures
            spec_resolves(*self) ==> r == Ok::<ColumnarType, TypeResolutionFailure>(
                spec_data_type(*self),
            ),
            !spec_resolves(*self) ==> r is Err,
        decreases *self,
    {
        match self {
            FieldType::Primitive(p) => Ok(primitive_data_type(*p)),
            FieldType::Custom(c) => Ok(duplicate_columnar(&c.data_type)),
            FieldType::Optional(inner) => inner.data_type(),
            FieldType::Sequence(inner) => {
                if is_byte(inner) {
                    Ok(ColumnarType::Binary)
                } else if !inner.vector_enabled() {
                    Err(TypeResolutionFailure)
                } else {
                    match inner.data_type() {
                        Ok(dt) => Ok(
                            ColumnarType::List(
                                Box::new(ListItem { data_type: dt, nullable: inner.is_nullable() }),
                            ),
                        ),
                        Err(e) => Err(e),
                    }
                }
            },
        }
    }

    /// The full resolved descriptor: columnar type plus nullability.
    pub fn resolve(&self) -> (r: Result<TypeDescriptor, TypeResolutionFailure>)
        ensures
            spec_resolves(*self) ==> r == Ok::<TypeDescriptor, TypeResolutionFailure>(
                TypeDescriptor {
                    data_type: spec_data_type(*self),
                    nullable: spec_nullable(*self),
                },
            ),
            !spec_resolves(*self) ==> r is Err,
    {
        match self.data_type() {
            Ok(dt) => Ok(TypeDescriptor { data_type: dt, nullable: self.is_nullable() }),
            Err(e) => Err(e),
        }
    }

    /// The named field descriptor for a column of this type: the given
    /// name together with the resolved columnar type and nullability.
    pub fn field(&self, name: &str) -> (r: Result<FieldDescriptor, TypeResolutionFailure>)
        ensures
            spec_resolves(*self) ==> (r matches Ok(f) && f.name@ == name@ && f.data_type
                == spec_data_type(*self) && f.nullable == spec_nullable(*self)),
            !spec_resolves(*self) ==> r is Err,
    {
        match self.data_type() {
            Ok(dt) => Ok(
                FieldDescriptor { name: name.to_owned(), data_type: dt, nullable: self.is_nullable() },
            ),
            Err(e) => Err(e),
        }
    }
}

/// Law: descriptors are referentially stable. Resolution is a function of
/// the field type alone, so the same type always yields the same columnar
/// type and nullability — downstream codecs may rely on the descriptor
/// matching the actual value layout across rebuilds.
pub proof fn lemma_descriptor_stability(a: FieldType, b: FieldType)
    requires
        a == b,
    ensures
        spec_data_type(a) == spec_data_type(b),
        spec_nullable(a) == spec_nullable(b),
        spec_resolves(a) == spec_resolves(b),
{
}

/// Law: optionality composes with any field type unconditionally. An
/// optional is always nullable, keeps its element's columnar type
/// unchanged, and resolves exactly when its element does. Since this
/// holds of every element, it holds in particular of an element that is
/// itself optional: nested optionals collapse to one level of
/// nullability.
pub proof fn lemma_optional_composition(t: FieldType)
    ensures
        spec_nullable(FieldType::Optional(Box::new(t))),
        spec_data_type(FieldType::Optional(Box::new(t))) == spec_data_type(t),
        spec_resolves(FieldType::Optional(Box::new(t))) == spec_resolves(t),
        spec_vector_enabled(FieldType::Optional(Box::new(t))) == spec_vector_enabled(t),
{
}

/// Law: a sequence resolves exactly for the byte element or for a
/// resolvable, vector-enabled element; a sequence of the byte type is a
/// binary blob, never a generic list; and every other resolvable sequence
/// is a list of its element's descriptor.
pub proof fn lemma_sequence_composition(t: FieldType)
    ensures
        spec_resolves(FieldType::Sequence(Box::new(t))) == (spec_is_byte(t) || (spec_resolves(t)
            && spec_vector_enabled(t))),
        spec_is_byte(t) ==> spec_data_type(FieldType::Sequence(Box::new(t)))
            == ColumnarType::Binary,
        !spec_is_byte(t) ==> spec_data_type(FieldType::Sequence(Box::new(t)))
            == ColumnarType::List(
            Box::new(ListItem { data_type: spec_data_type(t), nullable: spec_nullable(t) }),
        ),
        !spec_nullable(FieldType::Sequence(Box::new(t))),
{
}

/// Law: vector enablement propagates transitively. If a field type
/// carries the marker, so do its optional and its sequence.
pub proof fn lemma_vector_enablement_transitive(t: FieldType)
    requires
        spec_vector_enabled(t),
    ensures
        spec_vector_enabled(FieldType::Optional(Box::new(t))),
        spec_vector_enabled(FieldType::Sequence(Box::new(t))),
{
}

/// A structural deep copy; written out so that verified callers know the
/// copy equals the original.
fn duplicate_columnar(t: &ColumnarType) -> (r: ColumnarType)
    ensures
        r == *t,
    decreases *t,
{
    match t {
        ColumnarType::UInt8 => ColumnarType::UInt8,
        ColumnarType::UInt16 => ColumnarType::UInt16,
        ColumnarType::UInt32 => ColumnarType::UInt32,
        ColumnarType::UInt64 => ColumnarType::UInt64,
        ColumnarType::Int8 => ColumnarType::Int8,
        ColumnarType::Int16 => ColumnarType::Int16,
        ColumnarType::Int32 => ColumnarType::Int32,
        ColumnarType::Int64 => ColumnarType::Int64,
        ColumnarType::Float32 => ColumnarType::Float32,
        ColumnarType::Float64 => ColumnarType::Float64,
        ColumnarType::Boolean => ColumnarType::Boolean,
        ColumnarType::Utf8 => ColumnarType::Utf8,
        ColumnarType::Binary => ColumnarType::Binary,
        ColumnarType::Date32 => ColumnarType::Date32,
        ColumnarType::TimestampNanosecond => ColumnarType::TimestampNanosecond,
        ColumnarType::List(item) => ColumnarType::List(
            Box::new(
                ListItem { data_type: duplicate_columnar(&item.data_type), nullable: item.nullable },
            ),
        ),
    }
}

} // verus!
