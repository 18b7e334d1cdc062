use arrow2_convert::field::FieldType;
use arrow2_convert::field::PrimitiveType;
use arrow2_convert::input::Annotation;
use arrow2_convert::input::AnnotationValue;
use arrow2_convert::input::DeriveError;
use arrow2_convert::input::FieldDef;
use arrow2_convert::input::Input;
use arrow2_convert::input::RecordDefinition;
use arrow2_convert::input::RecordShape;
use arrow2_convert::input::TraitsToDerive;
use arrow2_convert::input::Visibility;

fn directive(value: &str) -> Annotation {
    Annotation {
        key: String::from("arrow2_convert"),
        value: AnnotationValue::Text(String::from(value)),
    }
}

fn record(annotations: Vec<Annotation>) -> RecordDefinition {
    RecordDefinition {
        name: String::from("Point"),
        visibility: Visibility::Public,
        shape: RecordShape::Record(vec![
            FieldDef { name: String::from("x"), ty: FieldType::Primitive(PrimitiveType::I32) },
            FieldDef { name: String::from("y"), ty: FieldType::Primitive(PrimitiveType::I32) },
        ]),
        annotations,
    }
}

#[test]
fn field_only_directive_sets_field_only() {
    let input = Input::new(record(vec![directive("field_only")])).unwrap();
    assert_eq!(input.traits_to_derive, TraitsToDerive::FieldOnly);
}

#[test]
fn serialize_only_directive_sets_serialize_only() {
    let input = Input::new(record(vec![directive("serialize_only")])).unwrap();
    assert_eq!(input.traits_to_derive, TraitsToDerive::SerializeOnly);
}

#[test]
fn deserialize_only_directive_sets_deserialize_only() {
    let input = Input::new(record(vec![directive("deserialize_only")])).unwrap();
    assert_eq!(input.traits_to_derive, TraitsToDerive::DeserializeOnly);
}

#[test]
fn empty_directive_value_leaves_the_default() {
    let input = Input::new(record(vec![directive("")])).unwrap();
    assert_eq!(input.traits_to_derive, TraitsToDerive::All);
}

#[test]
fn no_directive_leaves_the_default() {
    let input = Input::new(record(vec![])).unwrap();
    assert_eq!(input.traits_to_derive, TraitsToDerive::All);
}

#[test]
fn two_modes_in_one_value_conflict() {
    let err = Input::new(record(vec![directive("field_only,serialize_only")])).unwrap_err();
    assert_eq!(
        err,
        DeriveError::ConflictingDirectives {
            record: String::from("Point"),
            token: String::from("serialize_only"),
        }
    );
}

#[test]
fn repeating_the_same_mode_conflicts() {
    let err = Input::new(record(vec![directive("field_only,field_only")])).unwrap_err();
    assert!(matches!(err, DeriveError::ConflictingDirectives { .. }));
}

#[test]
fn modes_across_two_annotations_conflict() {
    let err = Input::new(record(vec![directive("field_only"), directive("deserialize_only")]))
        .unwrap_err();
    assert!(matches!(err, DeriveError::ConflictingDirectives { .. }));
}

#[test]
fn unrecognized_token_is_reported_with_its_value() {
    let err = Input::new(record(vec![directive("bogus")])).unwrap_err();
    assert_eq!(
        err,
        DeriveError::UnknownDirectiveValue {
            record: String::from("Point"),
            token: String::from("bogus"),
        }
    );
}

#[test]
fn tokens_are_trimmed_before_matching() {
    let input = Input::new(record(vec![directive("  field_only\t")])).unwrap();
    assert_eq!(input.traits_to_derive, TraitsToDerive::FieldOnly);
}

#[test]
fn trailing_comma_leaves_an_empty_unknown_token() {
    let err = Input::new(record(vec![directive("field_only,")])).unwrap_err();
    assert_eq!(
        err,
        DeriveError::UnknownDirectiveValue {
            record: String::from("Point"),
            token: String::from(""),
        }
    );
}

#[test]
fn unrelated_annotation_keys_are_ignored() {
    let input = Input::new(record(vec![
        Annotation { key: String::from("doc"), value: AnnotationValue::Text(String::from("bogus")) },
        Annotation { key: String::from("repr"), value: AnnotationValue::Flag },
        directive("serialize_only"),
    ]))
    .unwrap();
    assert_eq!(input.traits_to_derive, TraitsToDerive::SerializeOnly);
}

#[test]
fn non_string_directive_value_is_malformed() {
    for value in [AnnotationValue::Integer(3), AnnotationValue::Flag, AnnotationValue::Nested] {
        let err = Input::new(record(vec![Annotation {
            key: String::from("arrow2_convert"),
            value,
        }]))
        .unwrap_err();
        assert_eq!(err, DeriveError::MalformedDirective { record: String::from("Point") });
    }
}

#[test]
fn variant_shape_is_rejected_regardless_of_directives() {
    let def = RecordDefinition {
        name: String::from("Shape"),
        visibility: Visibility::Public,
        shape: RecordShape::TaggedVariants,
        annotations: vec![directive("field_only")],
    };
    let err = Input::new(def).unwrap_err();
    assert_eq!(err, DeriveError::UnsupportedShape { record: String::from("Shape") });
}

#[test]
fn untagged_union_shape_is_rejected() {
    let def = RecordDefinition {
        name: String::from("Raw"),
        visibility: Visibility::Crate,
        shape: RecordShape::UntaggedUnion,
        annotations: vec![],
    };
    let err = Input::new(def).unwrap_err();
    assert_eq!(err, DeriveError::UnsupportedShape { record: String::from("Raw") });
}

#[test]
fn deriving_twice_yields_structurally_equal_models() {
    let a = Input::new(record(vec![directive("field_only")])).unwrap();
    let b = Input::new(record(vec![directive("field_only")])).unwrap();
    assert_eq!(a, b);
}

#[test]
fn point_end_to_end() {
    let input = Input::new(record(vec![])).unwrap();
    assert_eq!(input.name, "Point");
    assert_eq!(input.traits_to_derive, TraitsToDerive::All);
    assert_eq!(input.visibility, Visibility::Public);
    assert_eq!(
        input.fields,
        vec![
            FieldDef { name: String::from("x"), ty: FieldType::Primitive(PrimitiveType::I32) },
            FieldDef { name: String::from("y"), ty: FieldType::Primitive(PrimitiveType::I32) },
        ]
    );
    assert_eq!(input.mutable_array_name(), "MutablePointArray");
    assert_eq!(input.array_name(), "PointArray");
    assert_eq!(input.iterator_name(), "PointArrayIterator");
}

#[test]
fn fields_keep_declaration_order() {
    let def = RecordDefinition {
        name: String::from("Reading"),
        visibility: Visibility::Inherited,
        shape: RecordShape::Record(vec![
            FieldDef { name: String::from("b"), ty: FieldType::Primitive(PrimitiveType::U8) },
            FieldDef { name: String::from("a"), ty: FieldType::Primitive(PrimitiveType::Text) },
        ]),
        annotations: vec![],
    };
    let input = Input::new(def).unwrap();
    assert_eq!(input.fields[0].name, "b");
    assert_eq!(input.fields[1].name, "a");
}
