use arrow2_convert::columnar::ColumnarType;
use arrow2_convert::columnar::FieldDescriptor;
use arrow2_convert::columnar::ListItem;
use arrow2_convert::columnar::TypeDescriptor;
use arrow2_convert::field::CustomType;
use arrow2_convert::field::FieldType;
use arrow2_convert::field::PrimitiveType;

fn prim(p: PrimitiveType) -> FieldType {
    FieldType::Primitive(p)
}

fn optional(t: FieldType) -> FieldType {
    FieldType::Optional(Box::new(t))
}

fn sequence(t: FieldType) -> FieldType {
    FieldType::Sequence(Box::new(t))
}

#[test]
fn builtin_descriptors_are_fixed() {
    let table = vec![
        (PrimitiveType::U8, ColumnarType::UInt8),
        (PrimitiveType::U16, ColumnarType::UInt16),
        (PrimitiveType::U32, ColumnarType::UInt32),
        (PrimitiveType::U64, ColumnarType::UInt64),
        (PrimitiveType::I8, ColumnarType::Int8),
        (PrimitiveType::I16, ColumnarType::Int16),
        (PrimitiveType::I32, ColumnarType::Int32),
        (PrimitiveType::I64, ColumnarType::Int64),
        (PrimitiveType::F32, ColumnarType::Float32),
        (PrimitiveType::F64, ColumnarType::Float64),
        (PrimitiveType::Bool, ColumnarType::Boolean),
        (PrimitiveType::Text, ColumnarType::Utf8),
        (PrimitiveType::Date, ColumnarType::Date32),
        (PrimitiveType::DateTime, ColumnarType::TimestampNanosecond),
    ];
    for (p, expected) in table {
        let t = prim(p);
        assert_eq!(t.data_type(), Ok(expected));
        assert!(!t.is_nullable());
    }
}

#[test]
fn builtin_descriptors_are_referentially_stable() {
    let a = prim(PrimitiveType::Date).data_type();
    let b = prim(PrimitiveType::Date).data_type();
    assert_eq!(a, b);
}

#[test]
fn optional_is_nullable_and_keeps_data_type() {
    let t = optional(prim(PrimitiveType::I32));
    assert!(t.is_nullable());
    assert_eq!(t.data_type(), Ok(ColumnarType::Int32));
    assert_eq!(
        t.resolve(),
        Ok(TypeDescriptor { data_type: ColumnarType::Int32, nullable: true })
    );
}

#[test]
fn optional_of_optional_collapses_to_one_level() {
    let t = optional(optional(prim(PrimitiveType::U8)));
    assert!(t.is_nullable());
    assert_eq!(t.data_type(), Ok(ColumnarType::UInt8));
}

#[test]
fn sequence_of_byte_is_binary_not_list() {
    let t = sequence(prim(PrimitiveType::U8));
    let dt = t.data_type().unwrap();
    assert_eq!(dt, ColumnarType::Binary);
    assert_ne!(
        dt,
        ColumnarType::List(Box::new(ListItem {
            data_type: ColumnarType::UInt8,
            nullable: false,
        }))
    );
    assert!(!t.is_nullable());
}

#[test]
fn sequence_of_unmarked_builtins_fails_resolution() {
    let unmarked = vec![
        PrimitiveType::U16,
        PrimitiveType::U32,
        PrimitiveType::U64,
        PrimitiveType::I8,
        PrimitiveType::I16,
        PrimitiveType::I32,
        PrimitiveType::I64,
        PrimitiveType::F32,
        PrimitiveType::F64,
    ];
    for p in unmarked {
        let t = sequence(prim(p));
        assert!(!t.vector_enabled() || p == PrimitiveType::U8);
        assert!(t.data_type().is_err());
        assert!(t.resolve().is_err());
        assert!(t.field("item").is_err());
    }
}

#[test]
fn sequence_of_marked_builtins_resolves_to_list() {
    let marked = vec![
        (PrimitiveType::Bool, ColumnarType::Boolean),
        (PrimitiveType::Text, ColumnarType::Utf8),
        (PrimitiveType::Date, ColumnarType::Date32),
        (PrimitiveType::DateTime, ColumnarType::TimestampNanosecond),
    ];
    for (p, item) in marked {
        let t = sequence(prim(p));
        assert!(prim(p).vector_enabled());
        assert_eq!(
            t.data_type(),
            Ok(ColumnarType::List(Box::new(ListItem { data_type: item, nullable: false })))
        );
    }
}

#[test]
fn byte_sequence_carries_the_marker() {
    // an explicit grant: bytes may nest inside a further sequence
    let bytes = sequence(prim(PrimitiveType::U8));
    assert!(bytes.vector_enabled());
    let nested = sequence(bytes);
    assert_eq!(
        nested.data_type(),
        Ok(ColumnarType::List(Box::new(ListItem {
            data_type: ColumnarType::Binary,
            nullable: false,
        })))
    );
}

#[test]
fn marker_propagates_through_optional_and_sequence() {
    let t = prim(PrimitiveType::Text);
    assert!(t.vector_enabled());
    assert!(optional(prim(PrimitiveType::Text)).vector_enabled());
    assert!(sequence(prim(PrimitiveType::Text)).vector_enabled());
    // and an unmarked element stays unmarked under both wrappers
    assert!(!optional(prim(PrimitiveType::I64)).vector_enabled());
    assert!(!sequence(prim(PrimitiveType::I64)).vector_enabled());
}

#[test]
fn sequence_of_optional_keeps_item_nullability() {
    let t = sequence(optional(prim(PrimitiveType::Bool)));
    assert_eq!(
        t.data_type(),
        Ok(ColumnarType::List(Box::new(ListItem {
            data_type: ColumnarType::Boolean,
            nullable: true,
        })))
    );
}

#[test]
fn custom_type_uses_registered_capability() {
    let city = FieldType::Custom(CustomType {
        data_type: ColumnarType::Utf8,
        nullable: false,
        vector_enabled: true,
    });
    assert_eq!(city.data_type(), Ok(ColumnarType::Utf8));
    assert!(!city.is_nullable());
    let seq = sequence(FieldType::Custom(CustomType {
        data_type: ColumnarType::Utf8,
        nullable: false,
        vector_enabled: true,
    }));
    assert!(seq.data_type().is_ok());
    let unmarked = sequence(FieldType::Custom(CustomType {
        data_type: ColumnarType::Utf8,
        nullable: false,
        vector_enabled: false,
    }));
    assert!(unmarked.data_type().is_err());
}

#[test]
fn field_builds_the_named_descriptor() {
    let t = optional(prim(PrimitiveType::U64));
    assert_eq!(
        t.field("age"),
        Ok(FieldDescriptor {
            name: String::from("age"),
            data_type: ColumnarType::UInt64,
            nullable: true,
        })
    );
}
