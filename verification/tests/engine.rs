use dynmsg::decode::{build_decoders, coerce_value, decode_field, decode_record};
use dynmsg::error::{DecodeError, ScalarRead, UnsupportedKind, ValueShape};
use dynmsg::instance::{FieldValue, Slot};
use dynmsg::schema::{FieldDescriptor, FieldKind, RecordTypeDescriptor, Registry};
use dynmsg::value::{object_lookup, Number, ObjectEntry, Value};

fn num_int(i: i64) -> Value {
    Value::Number(Number {
        signed: Some(i),
        unsigned: if i >= 0 { Some(i as u64) } else { None },
        binary64_bits: (i as f64).to_bits(),
        binary32_bits: (i as f64 as f32).to_bits(),
    })
}

fn num_uint(u: u64) -> Value {
    Value::Number(Number {
        signed: if u <= i64::MAX as u64 { Some(u as i64) } else { None },
        unsigned: Some(u),
        binary64_bits: (u as f64).to_bits(),
        binary32_bits: (u as f64 as f32).to_bits(),
    })
}

fn num_float(f: f64) -> Value {
    Value::Number(Number {
        signed: None,
        unsigned: None,
        binary64_bits: f.to_bits(),
        binary32_bits: (f as f32).to_bits(),
    })
}

fn obj(entries: Vec<(&str, Value)>) -> Value {
    Value::Object(
        entries
            .into_iter()
            .map(|(k, v)| ObjectEntry { key: k.to_string(), value: v })
            .collect(),
    )
}

fn field(name: &str, kind: FieldKind, repeated: bool) -> FieldDescriptor {
    FieldDescriptor { name: name.to_string(), kind, repeated }
}

fn rec(name: &str, fields: Vec<FieldDescriptor>) -> RecordTypeDescriptor {
    RecordTypeDescriptor { name: name.to_string(), fields }
}

fn one_field_registry(kind: FieldKind, repeated: bool) -> Registry {
    Registry::new(vec![rec("Msg", vec![field("number", kind, repeated)])])
}

fn decode_one(registry: &Registry, v: &Value) -> Result<dynmsg::instance::RecordInstance, DecodeError> {
    let t = registry.resolve(&"Msg".to_string()).expect("Msg is registered");
    decode_record(registry, t, v)
}

fn single_value(inst: &dynmsg::instance::RecordInstance, slot: usize) -> &FieldValue {
    match &inst.slots[slot] {
        Slot::Single(v) => v,
        Slot::Repeated(_) => panic!("expected a singular slot"),
    }
}

#[test]
fn empty_record_ignores_extra_keys() {
    let registry = Registry::new(vec![rec("Empty", vec![])]);
    let t = registry.resolve(&"Empty".to_string()).unwrap();
    let input = obj(vec![("anything", num_int(1)), ("more", Value::Null)]);
    let inst = decode_record(&registry, t, &input).unwrap();
    assert_eq!(inst.record_name, "Empty");
    assert_eq!(inst.slots.len(), 0);
}

#[test]
fn int32_round_trips_exactly() {
    let registry = one_field_registry(FieldKind::Int32, false);
    let inst = decode_one(&registry, &obj(vec![("number", num_int(1))])).unwrap();
    assert_eq!(inst.record_name, "Msg");
    assert_eq!(inst.slots.len(), 1);
    match single_value(&inst, 0) {
        FieldValue::Int32(x) => assert_eq!(*x, 1),
        other => panic!("wrong field value: {:?}", other),
    }
}

#[test]
fn int64_round_trips_exactly() {
    let registry = one_field_registry(FieldKind::Int64, false);
    let inst = decode_one(&registry, &obj(vec![("number", num_int(-9007199254740993))])).unwrap();
    match single_value(&inst, 0) {
        FieldValue::Int64(x) => assert_eq!(*x, -9007199254740993),
        other => panic!("wrong field value: {:?}", other),
    }
}

#[test]
fn uint32_round_trips_exactly() {
    let registry = one_field_registry(FieldKind::Uint32, false);
    let inst = decode_one(&registry, &obj(vec![("number", num_uint(4294967295))])).unwrap();
    match single_value(&inst, 0) {
        FieldValue::Uint32(x) => assert_eq!(*x, 4294967295),
        other => panic!("wrong field value: {:?}", other),
    }
}

#[test]
fn uint64_round_trips_exactly() {
    let registry = one_field_registry(FieldKind::Uint64, false);
    let inst = decode_one(&registry, &obj(vec![("number", num_uint(u64::MAX))])).unwrap();
    match single_value(&inst, 0) {
        FieldValue::Uint64(x) => assert_eq!(*x, u64::MAX),
        other => panic!("wrong field value: {:?}", other),
    }
}

#[test]
fn boolean_round_trips_exactly() {
    let registry = one_field_registry(FieldKind::Boolean, false);
    let inst = decode_one(&registry, &obj(vec![("number", Value::Boolean(true))])).unwrap();
    match single_value(&inst, 0) {
        FieldValue::Boolean(x) => assert!(*x),
        other => panic!("wrong field value: {:?}", other),
    }
}

#[test]
fn text_round_trips_exactly() {
    let registry = one_field_registry(FieldKind::Text, false);
    let inst =
        decode_one(&registry, &obj(vec![("number", Value::Text("hello".to_string()))])).unwrap();
    match single_value(&inst, 0) {
        FieldValue::Text(x) => assert_eq!(x, "hello"),
        other => panic!("wrong field value: {:?}", other),
    }
}

#[test]
fn float64_round_trips_exact_bits() {
    let registry = one_field_registry(FieldKind::Float64, false);
    let inst = decode_one(&registry, &obj(vec![("number", num_float(1.5))])).unwrap();
    match single_value(&inst, 0) {
        FieldValue::Float64Bits(b) => assert_eq!(*b, 1.5f64.to_bits()),
        other => panic!("wrong field value: {:?}", other),
    }
}

#[test]
fn float32_narrows_from_binary64() {
    let registry = one_field_registry(FieldKind::Float32, false);
    let inst = decode_one(&registry, &obj(vec![("number", num_float(1.1))])).unwrap();
    match single_value(&inst, 0) {
        FieldValue::Float32Bits(b) => assert_eq!(*b, (1.1f64 as f32).to_bits()),
        other => panic!("wrong field value: {:?}", other),
    }
}

#[test]
fn int32_narrows_by_truncation() {
    let registry = one_field_registry(FieldKind::Int32, false);
    let big: i64 = 4294967297;
    let inst = decode_one(&registry, &obj(vec![("number", num_int(big))])).unwrap();
    match single_value(&inst, 0) {
        FieldValue::Int32(x) => assert_eq!(*x, big as i32),
        other => panic!("wrong field value: {:?}", other),
    }
}

#[test]
fn repeated_number_keeps_input_order() {
    let registry = Registry::new(vec![rec(
        "Msg",
        vec![field("repeated_number", FieldKind::Int32, true)],
    )]);
    let t = registry.resolve(&"Msg".to_string()).unwrap();
    let input = obj(vec![(
        "repeated_number",
        Value::Array(vec![num_int(1), num_int(2), num_int(3)]),
    )]);
    let inst = decode_record(&registry, t, &input).unwrap();
    match &inst.slots[0] {
        Slot::Repeated(vals) => {
            assert_eq!(vals.len(), 3);
            for (k, expected) in [1, 2, 3].iter().enumerate() {
                match &vals[k] {
                    FieldValue::Int32(x) => assert_eq!(x, expected),
                    other => panic!("wrong element: {:?}", other),
                }
            }
        }
        Slot::Single(_) => panic!("expected a repeated slot"),
    }
}

#[test]
fn repeated_empty_array_gives_empty_slot() {
    let registry = one_field_registry(FieldKind::Int32, true);
    let inst = decode_one(&registry, &obj(vec![("number", Value::Array(vec![]))])).unwrap();
    match &inst.slots[0] {
        Slot::Repeated(vals) => assert_eq!(vals.len(), 0),
        Slot::Single(_) => panic!("expected a repeated slot"),
    }
}

#[test]
fn repeated_element_failure_aborts_whole_field() {
    let registry = one_field_registry(FieldKind::Int32, true);
    let input = obj(vec![(
        "number",
        Value::Array(vec![num_int(1), Value::Text("x".to_string()), num_int(3)]),
    )]);
    let err = decode_one(&registry, &input).unwrap_err();
    assert_eq!(
        err,
        DecodeError::TypeMismatch { expected: ScalarRead::SignedInt, found: ValueShape::Text }
    );
}

#[test]
fn nested_record_recurses() {
    let registry = Registry::new(vec![
        rec("Outer", vec![field("msg", FieldKind::Nested("Inner".to_string()), false)]),
        rec("Inner", vec![field("foo", FieldKind::Int32, false)]),
    ]);
    let t = registry.resolve(&"Outer".to_string()).unwrap();
    let input = obj(vec![("msg", obj(vec![("foo", num_int(123))]))]);
    let inst = decode_record(&registry, t, &input).unwrap();
    match single_value(&inst, 0) {
        FieldValue::Nested(inner) => {
            assert_eq!(inner.record_name, "Inner");
            match single_value(inner, 0) {
                FieldValue::Int32(x) => assert_eq!(*x, 123),
                other => panic!("wrong nested value: {:?}", other),
            }
        }
        other => panic!("wrong field value: {:?}", other),
    }
}

#[test]
fn nested_record_ignores_undeclared_keys() {
    let registry = Registry::new(vec![
        rec("Outer", vec![field("msg", FieldKind::Nested("Inner".to_string()), false)]),
        rec("Inner", vec![]),
    ]);
    let t = registry.resolve(&"Outer".to_string()).unwrap();
    let input = obj(vec![("msg", obj(vec![("foo", num_int(123))]))]);
    let inst = decode_record(&registry, t, &input).unwrap();
    match single_value(&inst, 0) {
        FieldValue::Nested(inner) => {
            assert_eq!(inner.record_name, "Inner");
            assert_eq!(inner.slots.len(), 0);
        }
        other => panic!("wrong field value: {:?}", other),
    }
}

#[test]
fn recursive_type_decodes_through_repeated_field() {
    let registry = Registry::new(vec![rec(
        "Node",
        vec![field("children", FieldKind::Nested("Node".to_string()), true)],
    )]);
    let t = registry.resolve(&"Node".to_string()).unwrap();
    let input = obj(vec![(
        "children",
        Value::Array(vec![obj(vec![("children", Value::Array(vec![]))])]),
    )]);
    let inst = decode_record(&registry, t, &input).unwrap();
    match &inst.slots[0] {
        Slot::Repeated(vals) => {
            assert_eq!(vals.len(), 1);
            match &vals[0] {
                FieldValue::Nested(child) => match &child.slots[0] {
                    Slot::Repeated(grandchildren) => assert_eq!(grandchildren.len(), 0),
                    Slot::Single(_) => panic!("expected a repeated slot"),
                },
                other => panic!("wrong element: {:?}", other),
            }
        }
        Slot::Single(_) => panic!("expected a repeated slot"),
    }
}

#[test]
fn missing_singular_field_fails() {
    let registry = one_field_registry(FieldKind::Int32, false);
    let err = decode_one(&registry, &obj(vec![("other", num_int(1))])).unwrap_err();
    assert_eq!(err, DecodeError::MissingField { field_name: "number".to_string() });
}

#[test]
fn missing_repeated_field_fails() {
    let registry = one_field_registry(FieldKind::Int32, true);
    let err = decode_one(&registry, &obj(vec![])).unwrap_err();
    assert_eq!(err, DecodeError::MissingField { field_name: "number".to_string() });
}

#[test]
fn map_field_fails_even_with_well_formed_value() {
    let registry =
        one_field_registry(FieldKind::Unsupported(UnsupportedKind::Mapping), false);
    let err = decode_one(&registry, &obj(vec![("number", obj(vec![("k", num_int(1))]))]))
        .unwrap_err();
    assert_eq!(
        err,
        DecodeError::UnsupportedFieldKind {
            kind: UnsupportedKind::Mapping,
            field_name: "number".to_string(),
        }
    );
}

#[test]
fn map_field_fails_even_when_key_is_absent() {
    let registry =
        one_field_registry(FieldKind::Unsupported(UnsupportedKind::Mapping), false);
    let err = decode_one(&registry, &obj(vec![])).unwrap_err();
    assert_eq!(
        err,
        DecodeError::UnsupportedFieldKind {
            kind: UnsupportedKind::Mapping,
            field_name: "number".to_string(),
        }
    );
}

#[test]
fn enum_field_fails_even_with_well_formed_value() {
    let registry =
        one_field_registry(FieldKind::Unsupported(UnsupportedKind::Enumeration), false);
    let err = decode_one(&registry, &obj(vec![("number", num_int(2))])).unwrap_err();
    assert_eq!(
        err,
        DecodeError::UnsupportedFieldKind {
            kind: UnsupportedKind::Enumeration,
            field_name: "number".to_string(),
        }
    );
}

#[test]
fn bytes_field_fails_even_with_well_formed_value() {
    let registry = one_field_registry(
        FieldKind::Unsupported(UnsupportedKind::ByteSequence),
        true,
    );
    let err = decode_one(&registry, &obj(vec![("number", Value::Array(vec![]))])).unwrap_err();
    assert_eq!(
        err,
        DecodeError::UnsupportedFieldKind {
            kind: UnsupportedKind::ByteSequence,
            field_name: "number".to_string(),
        }
    );
}

#[test]
fn string_for_int_field_is_a_type_mismatch() {
    let registry = one_field_registry(FieldKind::Int32, false);
    let err = decode_one(&registry, &obj(vec![("number", Value::Text("1".to_string()))]))
        .unwrap_err();
    assert_eq!(
        err,
        DecodeError::TypeMismatch { expected: ScalarRead::SignedInt, found: ValueShape::Text }
    );
}

#[test]
fn fractional_number_for_int_field_is_a_type_mismatch() {
    let registry = one_field_registry(FieldKind::Int64, false);
    let err = decode_one(&registry, &obj(vec![("number", num_float(1.5))])).unwrap_err();
    assert_eq!(
        err,
        DecodeError::TypeMismatch { expected: ScalarRead::SignedInt, found: ValueShape::Number }
    );
}

#[test]
fn negative_number_for_unsigned_field_is_a_type_mismatch() {
    let registry = one_field_registry(FieldKind::Uint64, false);
    let err = decode_one(&registry, &obj(vec![("number", num_int(-1))])).unwrap_err();
    assert_eq!(
        err,
        DecodeError::TypeMismatch {
            expected: ScalarRead::UnsignedInt,
            found: ValueShape::Number,
        }
    );
}

#[test]
fn number_for_bool_field_is_a_type_mismatch() {
    let registry = one_field_registry(FieldKind::Boolean, false);
    let err = decode_one(&registry, &obj(vec![("number", num_int(0))])).unwrap_err();
    assert_eq!(
        err,
        DecodeError::TypeMismatch { expected: ScalarRead::Boolean, found: ValueShape::Number }
    );
}

#[test]
fn null_for_float_field_is_a_type_mismatch() {
    let registry = one_field_registry(FieldKind::Float64, false);
    let err = decode_one(&registry, &obj(vec![("number", Value::Null)])).unwrap_err();
    assert_eq!(
        err,
        DecodeError::TypeMismatch { expected: ScalarRead::Binary64, found: ValueShape::Null }
    );
}

#[test]
fn bool_for_text_field_is_a_type_mismatch() {
    let registry = one_field_registry(FieldKind::Text, false);
    let err = decode_one(&registry, &obj(vec![("number", Value::Boolean(false))]))
        .unwrap_err();
    assert_eq!(
        err,
        DecodeError::TypeMismatch { expected: ScalarRead::Text, found: ValueShape::Boolean }
    );
}

#[test]
fn record_from_non_object_fails() {
    let registry = one_field_registry(FieldKind::Int32, false);
    let err = decode_one(&registry, &num_int(1)).unwrap_err();
    assert_eq!(err, DecodeError::NotAnObject);
}

#[test]
fn nested_field_from_non_object_fails() {
    let registry = Registry::new(vec![
        rec("Outer", vec![field("msg", FieldKind::Nested("Inner".to_string()), false)]),
        rec("Inner", vec![]),
    ]);
    let t = registry.resolve(&"Outer".to_string()).unwrap();
    let err = decode_record(&registry, t, &obj(vec![("msg", num_int(1))])).unwrap_err();
    assert_eq!(err, DecodeError::NotAnObject);
}

#[test]
fn repeated_field_from_non_array_fails() {
    let registry = one_field_registry(FieldKind::Int32, true);
    let err = decode_one(&registry, &obj(vec![("number", num_int(1))])).unwrap_err();
    assert_eq!(err, DecodeError::NotAnArray);
}

#[test]
fn unresolved_registry_name_fails() {
    let registry = Registry::new(vec![rec("Msg", vec![])]);
    let err = registry.resolve(&"Other".to_string()).unwrap_err();
    assert_eq!(err, DecodeError::UnknownType { name: "Other".to_string() });
}

#[test]
fn unresolved_nested_reference_fails() {
    let registry = Registry::new(vec![rec(
        "Outer",
        vec![field("msg", FieldKind::Nested("Gone".to_string()), false)],
    )]);
    let t = registry.resolve(&"Outer".to_string()).unwrap();
    let err = decode_record(&registry, t, &obj(vec![("msg", obj(vec![]))])).unwrap_err();
    assert_eq!(err, DecodeError::UnknownType { name: "Gone".to_string() });
}

#[test]
fn first_failing_field_in_declaration_order_reports() {
    let registry = Registry::new(vec![rec(
        "Msg",
        vec![
            field("a", FieldKind::Int32, false),
            field("b", FieldKind::Boolean, false),
            field("c", FieldKind::Text, false),
        ],
    )]);
    let t = registry.resolve(&"Msg".to_string()).unwrap();
    let input = obj(vec![("a", num_int(1)), ("b", num_int(2)), ("c", num_int(3))]);
    let err = decode_record(&registry, t, &input).unwrap_err();
    assert_eq!(
        err,
        DecodeError::TypeMismatch { expected: ScalarRead::Boolean, found: ValueShape::Number }
    );
}

#[test]
fn object_lookup_takes_first_matching_pair() {
    let pairs = vec![
        ObjectEntry { key: "a".to_string(), value: num_int(1) },
        ObjectEntry { key: "a".to_string(), value: num_int(2) },
    ];
    match object_lookup(&pairs, &"a".to_string()) {
        Some(Value::Number(n)) => assert_eq!(n.signed, Some(1)),
        other => panic!("wrong lookup result: {:?}", other),
    }
}

#[test]
fn coerce_value_rejects_unsupported_kind_directly() {
    let registry = Registry::new(vec![]);
    let err = coerce_value(
        &registry,
        &FieldKind::Unsupported(UnsupportedKind::Enumeration),
        &"f".to_string(),
        &num_int(1),
    )
    .unwrap_err();
    assert_eq!(
        err,
        DecodeError::UnsupportedFieldKind {
            kind: UnsupportedKind::Enumeration,
            field_name: "f".to_string(),
        }
    );
}

#[test]
fn decode_field_reads_its_key_from_the_object() {
    let registry = Registry::new(vec![]);
    let f = field("flag", FieldKind::Boolean, false);
    let pairs = vec![
        ObjectEntry { key: "other".to_string(), value: Value::Null },
        ObjectEntry { key: "flag".to_string(), value: Value::Boolean(true) },
    ];
    match decode_field(&registry, &f, &pairs).unwrap() {
        Slot::Single(FieldValue::Boolean(b)) => assert!(b),
        other => panic!("wrong slot: {:?}", other),
    }
}

#[test]
fn cached_decoder_is_idempotent_on_equal_inputs() {
    let decoders = build_decoders(vec![
        rec(
            "Msg",
            vec![
                field("number", FieldKind::Int32, false),
                field("text", FieldKind::Text, false),
                field("repeated_number", FieldKind::Int64, true),
            ],
        ),
    ]);
    let input = obj(vec![
        ("number", num_int(1)),
        ("text", Value::Text("hello".to_string())),
        ("repeated_number", Value::Array(vec![num_int(1), num_int(2), num_int(3)])),
    ]);
    let first = decoders.decode(&"Msg".to_string(), &input).unwrap();
    let second = decoders.decode(&"Msg".to_string(), &input).unwrap();
    assert!(first.structurally_equal(&second));
    assert!(second.structurally_equal(&first));
}

#[test]
fn structural_equality_distinguishes_different_instances() {
    let decoders = build_decoders(vec![rec(
        "Msg",
        vec![field("number", FieldKind::Int32, false)],
    )]);
    let one = decoders.decode(&"Msg".to_string(), &obj(vec![("number", num_int(1))])).unwrap();
    let two = decoders.decode(&"Msg".to_string(), &obj(vec![("number", num_int(2))])).unwrap();
    assert!(!one.structurally_equal(&two));
}

#[test]
fn decoder_set_serves_cached_functions_by_name() {
    let decoders = build_decoders(vec![
        rec("A", vec![]),
        rec("B", vec![field("x", FieldKind::Boolean, false)]),
    ]);
    let f = decoders.get(&"B".to_string()).expect("B has a decode function");
    assert_eq!(f.record_name, "B");
    let inst = f
        .apply(&decoders.registry, &obj(vec![("x", Value::Boolean(false))]))
        .unwrap();
    assert_eq!(inst.record_name, "B");
    assert!(decoders.get(&"C".to_string()).is_none());
    let err = decoders.decode(&"C".to_string(), &obj(vec![])).unwrap_err();
    assert_eq!(err, DecodeError::UnknownType { name: "C".to_string() });
}

#[test]
fn slots_follow_field_declaration_order() {
    let registry = Registry::new(vec![rec(
        "Msg",
        vec![
            field("second", FieldKind::Text, false),
            field("first", FieldKind::Int32, false),
        ],
    )]);
    let t = registry.resolve(&"Msg".to_string()).unwrap();
    let input = obj(vec![("first", num_int(7)), ("second", Value::Text("s".to_string()))]);
    let inst = decode_record(&registry, t, &input).unwrap();
    match single_value(&inst, 0) {
        FieldValue::Text(x) => assert_eq!(x, "s"),
        other => panic!("wrong slot order: {:?}", other),
    }
    match single_value(&inst, 1) {
        FieldValue::Int32(x) => assert_eq!(*x, 7),
        other => panic!("wrong slot order: {:?}", other),
    }
}
