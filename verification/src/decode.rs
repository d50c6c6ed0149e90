//! The decode engine: the mathematical model of decoding and the executable
//! decoder proved against it.
//!
//! `decode_record_spec` and its companions define, as one recursive spec
//! function family, what decoding a record type from an untyped value means:
//! which inputs succeed, the exact instance they produce, and the exact error
//! every other input produces.  The executable functions return precisely
//! what the model says, for every input.

use vstd::prelude::*;
use crate::error::{DecodeError, ScalarRead, ValueShape};
use crate::instance::{
    field_model, field_seq_model, instance_model, lemma_field_seq_model_push,
    lemma_slot_seq_model_push, slot_model, slot_seq_model, FieldModel, FieldValue, InstanceModel,
    RecordInstance, Slot, SlotModel,
};
use crate::schema::{resolve_spec, FieldDescriptor, FieldKind, RecordTypeDescriptor, Registry};
use crate::value::{key_index, lemma_key_index, object_lookup, value_shape, ObjectEntry, Value};

verus! {

/// The signed 64-bit integer reading of a value, when it has one.
pub open spec fn read_signed(v: Value) -> Option<i64> {
    match v {
        Value::Number(n) => n.signed,
        _ => Option::None,
    }
}

/// The unsigned 64-bit integer reading of a value, when it has one.
pub open spec fn read_unsigned(v: Value) -> Option<u64> {
    match v {
        Value::Number(n) => n.unsigned,
        _ => Option::None,
    }
}

/// The binary64 reading of a value, when it has one.
pub open spec fn read_binary64(v: Value) -> Option<u64> {
    match v {
        Value::Number(n) => Option::Some(n.binary64_bits),
        _ => Option::None,
    }
}

/// The binary32 reading of a value (the narrowing of its binary64 reading),
/// when it has one.
pub open spec fn read_binary32(v: Value) -> Option<u32> {
    match v {
        Value::Number(n) => Option::Some(n.binary32_bits),
        _ => Option::None,
    }
}

/// The boolean reading of a value, when it has one.
pub open spec fn read_boolean(v: Value) -> Option<bool> {
    match v {
        Value::Boolean(b) => Option::Some(b),
        _ => Option::None,
    }
}

/// The text reading of a value, when it has one.
pub open spec fn read_text(v: Value) -> Option<String> {
    match v {
        Value::Text(s) => Option::Some(s),
        _ => Option::None,
    }
}

/// The error of a scalar coercion that attempted `expected` on `v`.
pub open spec fn mismatch(expected: ScalarRead, v: Value) -> DecodeError {
    DecodeError::TypeMismatch { expected, found: value_shape(v) }
}

/// What coercing one value to one declared kind yields.
///
/// Scalar kinds pull the matching reading out of the value, the 32-bit
/// integer kinds truncating the 64-bit reading; a missing reading is a
/// `TypeMismatch`.  A nested kind resolves the referenced type by name and
/// decodes the value as a record of that type.  The unsupported kinds always
/// fail, whatever the value.
pub open spec fn coerce_spec(
    types: Seq<RecordTypeDescriptor>,
    kind: FieldKind,
    field_name: String,
    v: Value,
) -> Result<FieldModel, DecodeError>
    decreases v, 1int, 0int,
{
    match kind {
        FieldKind::Int32 => match read_signed(v) {
            Option::Some(i) => Result::Ok(FieldModel::Int32(i as i32)),
            Option::None => Result::Err(mismatch(ScalarRead::SignedInt, v)),
        },
        FieldKind::Int64 => match read_signed(v) {
            Option::Some(i) => Result::Ok(FieldModel::Int64(i)),
            Option::None => Result::Err(mismatch(ScalarRead::SignedInt, v)),
        },
        FieldKind::Uint32 => match read_unsigned(v) {
            Option::Some(u) => Result::Ok(FieldModel::Uint32(u as u32)),
            Option::None => Result::Err(mismatch(ScalarRead::UnsignedInt, v)),
        },
        FieldKind::Uint64 => match read_unsigned(v) {
            Option::Some(u) => Result::Ok(FieldModel::Uint64(u)),
            Option::None => Result::Err(mismatch(ScalarRead::UnsignedInt, v)),
        },
        FieldKind::Float32 => match read_binary32(v) {
            Option::Some(b) => Result::Ok(FieldModel::Float32Bits(b)),
            Option::None => Result::Err(mismatch(ScalarRead::Binary64, v)),
        },
        FieldKind::Float64 => match read_binary64(v) {
            Option::Some(b) => Result::Ok(FieldModel::Float64Bits(b)),
            Option::None => Result::Err(mismatch(ScalarRead::Binary64, v)),
        },
        FieldKind::Boolean => match read_boolean(v) {
            Option::Some(b) => Result::Ok(FieldModel::Boolean(b)),
            Option::None => Result::Err(mismatch(ScalarRead::Boolean, v)),
        },
        FieldKind::Text => match read_text(v) {
            Option::Some(s) => Result::Ok(FieldModel::Text(s@)),
            Option::None => Result::Err(mismatch(ScalarRead::Text, v)),
        },
        FieldKind::Nested(rn) => match resolve_spec(types, rn@) {
            Option::Some(t) => match decode_record_spec(types, t, v) {
                Result::Ok(m) => Result::Ok(FieldModel::Nested(m)),
                Result::Err(e) => Result::Err(e),
            },
            Option::None => Result::Err(DecodeError::UnknownType { name: rn }),
        },
        FieldKind::Unsupported(u) => Result::Err(
            DecodeError::UnsupportedFieldKind { kind: u, field_name },
        ),
    }
}

/// What coercing every element of a repeated field's array yields: the
/// coerced elements in input order, or the error of the first element that
/// fails.
pub open spec fn coerce_seq_spec(
    types: Seq<RecordTypeDescriptor>,
    kind: FieldKind,
    field_name: String,
    elems: Seq<Value>,
) -> Result<Seq<FieldModel>, DecodeError>
    decreases elems, 2int, 0int,
{
    if elems.len() == 0 {
        Result::Ok(Seq::empty())
    } else {
        match coerce_spec(types, kind, field_name, elems[0]) {
            Result::Ok(m) => match coerce_seq_spec(types, kind, field_name, elems.drop_first()) {
                Result::Ok(rest) => Result::Ok(seq![m] + rest),
                Result::Err(e) => Result::Err(e),
            },
            Result::Err(e) => Result::Err(e),
        }
    }
}

/// What decoding one declared field from the pairs of an object value
/// yields.
///
/// An unsupported kind fails first, whatever the input holds.  Then the
/// field's key is looked up; a missing key is a `MissingField`.  A repeated
/// field requires an array value and coerces its elements; a singular field
/// coerces the value itself.
pub open spec fn decode_field_spec(
    types: Seq<RecordTypeDescriptor>,
    f: FieldDescriptor,
    pairs: Seq<ObjectEntry>,
) -> Result<SlotModel, DecodeError>
    decreases pairs, 3int, 0int,
    via decode_field_spec_dec
{
    match f.kind {
        FieldKind::Unsupported(u) => Result::Err(
            DecodeError::UnsupportedFieldKind { kind: u, field_name: f.name },
        ),
        _ => {
            if key_index(pairs, f.name@) < 0 {
                Result::Err(DecodeError::MissingField { field_name: f.name })
            } else {
                let v = pairs[key_index(pairs, f.name@)].value;
                if f.repeated {
                    match v {
                        Value::Array(es) => match coerce_seq_spec(types, f.kind, f.name, es@) {
                            Result::Ok(ms) => Result::Ok(SlotModel::Repeated(ms)),
                            Result::Err(e) => Result::Err(e),
                        },
                        _ => Result::Err(DecodeError::NotAnArray),
                    }
                } else {
                    match coerce_spec(types, f.kind, f.name, v) {
                        Result::Ok(m) => Result::Ok(SlotModel::Single(m)),
                        Result::Err(e) => Result::Err(e),
                    }
                }
            }
        },
    }
}

#[via_fn]
proof fn decode_field_spec_dec(
    types: Seq<RecordTypeDescriptor>,
    f: FieldDescriptor,
    pairs: Seq<ObjectEntry>,
) {
    lemma_key_index(pairs, f.name@);
}

/// What decoding a list of declared fields from the pairs of an object
/// value yields: one slot per field, in declaration order, or the error of
/// the first field, in declaration order, that fails.
pub open spec fn decode_fields_spec(
    types: Seq<RecordTypeDescriptor>,
    fields: Seq<FieldDescriptor>,
    pairs: Seq<ObjectEntry>,
) -> Result<Seq<SlotModel>, DecodeError>
    decreases pairs, 4int, fields.len(),
{
    if fields.len() == 0 {
        Result::Ok(Seq::empty())
    } else {
        match decode_field_spec(types, fields[0], pairs) {
            Result::Ok(s) => match decode_fields_spec(types, fields.drop_first(), pairs) {
                Result::Ok(rest) => Result::Ok(seq![s] + rest),
                Result::Err(e) => Result::Err(e),
            },
            Result::Err(e) => Result::Err(e),
        }
    }
}

/// What decoding a record type from an untyped value yields.
///
/// The value must be an object; its extra keys are ignored, and the type's
/// fields are decoded in declaration order.
pub open spec fn decode_record_spec(
    types: Seq<RecordTypeDescriptor>,
    t: RecordTypeDescriptor,
    v: Value,
) -> Result<InstanceModel, DecodeError>
    decreases v, 0int, 0int,
{
    match v {
        Value::Object(pairs) => match decode_fields_spec(types, t.fields@, pairs@) {
            Result::Ok(slots) => Result::Ok(InstanceModel { record_name: t.name@, slots }),
            Result::Err(e) => Result::Err(e),
        },
        _ => Result::Err(DecodeError::NotAnObject),
    }
}

/// What decoding by record-type name yields: resolution of the name, then
/// record decoding, with `UnknownType` when the registry has no descriptor
/// of the name.
pub open spec fn decode_as_spec(
    types: Seq<RecordTypeDescriptor>,
    record_name: String,
    v: Value,
) -> Result<InstanceModel, DecodeError> {
    match resolve_spec(types, record_name@) {
        Option::Some(t) => decode_record_spec(types, t, v),
        Option::None => Result::Err(DecodeError::UnknownType { name: record_name }),
    }
}

/// The model of an executable coercion result.
pub open spec fn field_result_model(
    r: Result<FieldValue, DecodeError>,
) -> Result<FieldModel, DecodeError> {
    match r {
        Result::Ok(fv) => Result::Ok(field_model(fv)),
        Result::Err(e) => Result::Err(e),
    }
}

/// The model of an executable field-decode result.
pub open spec fn slot_result_model(
    r: Result<Slot, DecodeError>,
) -> Result<SlotModel, DecodeError> {
    match r {
        Result::Ok(s) => Result::Ok(slot_model(s)),
        Result::Err(e) => Result::Err(e),
    }
}

/// The model of an executable record-decode result.
pub open spec fn instance_result_model(
    r: Result<RecordInstance, DecodeError>,
) -> Result<InstanceModel, DecodeError> {
    match r {
        Result::Ok(i) => Result::Ok(instance_model(i)),
        Result::Err(e) => Result::Err(e),
    }
}

/// The structural shape of a value, at run time.
pub fn shape_of(v: &Value) -> (k: ValueShape)
    ensures
        k == value_shape(*v),
{
    match v {
        Value::Null => ValueShape::Null,
        Value::Boolean(_) => ValueShape::Boolean,
        Value::Number(_) => ValueShape::Number,
        Value::Text(_) => ValueShape::Text,
        Value::Array(_) => ValueShape::Array,
        Value::Object(_) => ValueShape::Object,
    }
}

/// Coerces one untyped value to one declared field kind, recursing through
/// the registry for nested record kinds.
pub fn coerce_value(
    registry: &Registry,
    kind: &FieldKind,
    field_name: &String,
    v: &Value,
) -> (r: Result<FieldValue, DecodeError>)
    ensures
        field_result_model(r) == coerce_spec(registry.types@, *kind, *field_name, *v),
    decreases *v, 1int, 0int,
{
    match kind {
        FieldKind::Int32 => match v {
            Value::Number(n) => match n.signed {
                Option::Some(i) => Result::Ok(
                    FieldValue::Int32(#[verifier::truncate] (i as i32)),
                ),
                Option::None => Result::Err(
                    DecodeError::TypeMismatch {
                        expected: ScalarRead::SignedInt,
                        found: ValueShape::Number,
                    },
                ),
            },
            _ => Result::Err(
                DecodeError::TypeMismatch { expected: ScalarRead::SignedInt, found: shape_of(v) },
            ),
        },
        FieldKind::Int64 => match v {
            Value::Number(n) => match n.signed {
                Option::Some(i) => Result::Ok(FieldValue::Int64(i)),
                Option::None => Result::Err(
                    DecodeError::TypeMismatch {
                        expected: ScalarRead::SignedInt,
                        found: ValueShape::Number,
                    },
                ),
            },
            _ => Result::Err(
                DecodeError::TypeMismatch { expected: ScalarRead::SignedInt, found: shape_of(v) },
            ),
        },
        FieldKind::Uint32 => match v {
            Value::Number(n) => match n.unsigned {
                Option::Some(u) => Result::Ok(
                    FieldValue::Uint32(#[verifier::truncate] (u as u32)),
                ),
                Option::None => Result::Err(
                    DecodeError::TypeMismatch {
                        expected: ScalarRead::UnsignedInt,
                        found: ValueShape::Number,
                    },
                ),
            },
            _ => Result::Err(
                DecodeError::TypeMismatch {
                    expected: ScalarRead::UnsignedInt,
                    found: shape_of(v),
                },
            ),
        },
        FieldKind::Uint64 => match v {
            Value::Number(n) => match n.unsigned {
                Option::Some(u) => Result::Ok(FieldValue::Uint64(u)),
                Option::None => Result::Err(
                    DecodeError::TypeMismatch {
                        expected: ScalarRead::UnsignedInt,
                        found: ValueShape::Number,
                    },
                ),
            },
            _ => Result::Err(
                DecodeError::TypeMismatch {
                    expected: ScalarRead::UnsignedInt,
                    found: shape_of(v),
                },
            ),
        },
        FieldKind::Float32 => match v {
            Value::Number(n) => Result::Ok(FieldValue::Float32Bits(n.binary32_bits)),
            _ => Result::Err(
                DecodeError::TypeMismatch { expected: ScalarRead::Binary64, found: shape_of(v) },
            ),
        },
        FieldKind::Float64 => match v {
            Value::Number(n) => Result::Ok(FieldValue::Float64Bits(n.binary64_bits)),
            _ => Result::Err(
                DecodeError::TypeMismatch { expected: ScalarRead::Binary64, found: shape_of(v) },
            ),
        },
        FieldKind::Boolean => match v {
            Value::Boolean(b) => Result::Ok(FieldValue::Boolean(*b)),
            _ => Result::Err(
                DecodeError::TypeMismatch { expected: ScalarRead::Boolean, found: shape_of(v) },
            ),
        },
        FieldKind::Text => match v {
            Value::Text(s) => Result::Ok(FieldValue::Text(s.clone())),
            _ => Result::Err(
                DecodeError::TypeMismatch { expected: ScalarRead::Text, found: shape_of(v) },
            ),
        },
        FieldKind::Nested(rn) => match registry.resolve(rn) {
            Result::Ok(t) => match decode_record(registry, t, v) {
                Result::Ok(inst) => Result::Ok(FieldValue::Nested(inst)),
                Result::Err(e) => Result::Err(e),
            },
            Result::Err(e) => Result::Err(e),
        },
        FieldKind::Unsupported(u) => Result::Err(
            DecodeError::UnsupportedFieldKind { kind: *u, field_name: field_name.clone() },
        ),
    }
}

/// Decodes one declared field from the pairs of an object value: rejects
/// unsupported kinds, looks the field's key up, and coerces the single
/// value or, for a repeated field, every element of its array.
pub fn decode_field(
    registry: &Registry,
    f: &FieldDescriptor,
    pairs: &Vec<ObjectEntry>,
) -> (r: Result<Slot, DecodeError>)
    ensures
        slot_result_model(r) == decode_field_spec(registry.types@, *f, pairs@),
    decreases pairs@, 3int, 0int,
{
    if let FieldKind::Unsupported(u) = &f.kind {
        return Result::Err(
            DecodeError::UnsupportedFieldKind { kind: *u, field_name: f.name.clone() },
        );
    }
    proof {
        lemma_key_index(pairs@, f.name@);
    }
    let looked_up = object_lookup(pairs, &f.name);
    match looked_up {
        Option::None => Result::Err(DecodeError::MissingField { field_name: f.name.clone() }),
        Option::Some(sub) => {
            let ghost ki = key_index(pairs@, f.name@);
            assert(*sub == pairs@[ki].value);
            if f.repeated {
                match sub {
                    Value::Array(es) => {
                        let ghost all = coerce_seq_spec(registry.types@, f.kind, f.name, es@);
                        let mut vals: Vec<FieldValue> = Vec::new();
                        let mut j: usize = 0;
                        proof {
                            assert(es@.skip(0) =~= es@);
                            if let Result::Ok(rest) = all {
                                assert(field_seq_model(vals@) + rest =~= rest);
                            }
                        }
                        while j < es.len()
                            invariant
                                j <= es.len(),
                                all == coerce_seq_spec(registry.types@, f.kind, f.name, es@),
                                all == match coerce_seq_spec(
                                    registry.types@,
                                    f.kind,
                                    f.name,
                                    es@.skip(j as int),
                                ) {
                                    Result::Ok(rest) => Result::Ok(
                                        field_seq_model(vals@) + rest,
                                    ),
                                    Result::Err(e) => Result::<Seq<FieldModel>, DecodeError>::Err(
                                        e,
                                    ),
                                },
                                *sub == pairs@[ki].value,
                                0 <= ki < pairs@.len(),
                                *sub == Value::Array(*es),
                                ki == key_index(pairs@, f.name@),
                                !(f.kind is Unsupported),
                                f.repeated,
                            decreases es.len() - j,
                        {
                            proof {
                                assert(es@.skip(j as int)[0] == es@[j as int]);
                                assert(es@.skip(j as int).drop_first() =~= es@.skip(j as int + 1));
                                assert(decreases_to!(pairs@ => pairs@[ki]));
                                assert(decreases_to!(pairs@[ki] => pairs@[ki].value));
                                assert((*sub)->Array_0 == *es);
                                assert(decreases_to!(*sub => (*sub)->Array_0));
                                assert(decreases_to!((*sub)->Array_0 => (*sub)->Array_0@));
                                assert(decreases_to!(
                                    (*sub)->Array_0@ => (*sub)->Array_0@[j as int]));
                            }
                            match coerce_value(registry, &f.kind, &f.name, &es[j]) {
                                Result::Ok(fv) => {
                                    let ghost old_vals = vals@;
                                    vals.push(fv);
                                    proof {
                                        lemma_field_seq_model_push(old_vals, fv);
                                        if let Result::Ok(rest2) = coerce_seq_spec(
                                            registry.types@,
                                            f.kind,
                                            f.name,
                                            es@.skip(j as int + 1),
                                        ) {
                                            assert(field_seq_model(old_vals.push(fv)) + rest2
                                                =~= field_seq_model(old_vals) + (seq![
                                                field_model(fv),
                                            ] + rest2));
                                        }
                                    }
                                },
                                Result::Err(e) => {
                                    return Result::Err(e);
                                },
                            }
                            j = j + 1;
                        }
                        proof {
                            assert(es@.skip(es@.len() as int).len() == 0);
                            assert(field_seq_model(vals@) + Seq::<FieldModel>::empty()
                                =~= field_seq_model(vals@));
                        }
                        Result::Ok(Slot::Repeated(vals))
                    },
                    _ => Result::Err(DecodeError::NotAnArray),
                }
            } else {
                match coerce_value(registry, &f.kind, &f.name, sub) {
                    Result::Ok(fv) => Result::Ok(Slot::Single(fv)),
                    Result::Err(e) => Result::Err(e),
                }
            }
        },
    }
}

/// Decodes a record type from an untyped value: the value must be an
/// object, whose extra keys are ignored; the type's fields are decoded in
/// declaration order, and the first failing field aborts the decode.
pub fn decode_record(
    registry: &Registry,
    t: &RecordTypeDescriptor,
    v: &Value,
) -> (r: Result<RecordInstance, DecodeError>)
    ensures
        instance_result_model(r) == decode_record_spec(registry.types@, *t, *v),
    decreases *v, 0int, 0int,
{
    match v {
        Value::Object(pairs) => {
            let ghost all = decode_fields_spec(registry.types@, t.fields@, pairs@);
            let mut slots: Vec<Slot> = Vec::new();
            let mut i: usize = 0;
            proof {
                assert(t.fields@.skip(0) =~= t.fields@);
                if let Result::Ok(rest) = all {
                    assert(slot_seq_model(slots@) + rest =~= rest);
                }
            }
            while i < t.fields.len()
                invariant
                    i <= t.fields.len(),
                    all == decode_fields_spec(registry.types@, t.fields@, pairs@),
                    all == match decode_fields_spec(
                        registry.types@,
                        t.fields@.skip(i as int),
                        pairs@,
                    ) {
                        Result::Ok(rest) => Result::Ok(slot_seq_model(slots@) + rest),
                        Result::Err(e) => Result::<Seq<SlotModel>, DecodeError>::Err(e),
                    },
                    *v == Value::Object(*pairs),
                decreases t.fields.len() - i,
            {
                proof {
                    assert(t.fields@.skip(i as int)[0] == t.fields@[i as int]);
                    assert(t.fields@.skip(i as int).drop_first() =~= t.fields@.skip(i as int + 1));
                }
                match decode_field(registry, &t.fields[i], pairs) {
                    Result::Ok(s) => {
                        let ghost old_slots = slots@;
                        slots.push(s);
                        proof {
                            lemma_slot_seq_model_push(old_slots, s);
                            if let Result::Ok(rest2) = decode_fields_spec(
                                registry.types@,
                                t.fields@.skip(i as int + 1),
                                pairs@,
                            ) {
                                assert(slot_seq_model(old_slots.push(s)) + rest2
                                    =~= slot_seq_model(old_slots) + (seq![slot_model(s)] + rest2));
                            }
                        }
                    },
                    Result::Err(e) => {
                        return Result::Err(e);
                    },
                }
                i = i + 1;
            }
            proof {
                assert(t.fields@.skip(t.fields@.len() as int).len() == 0);
                assert(slot_seq_model(slots@) + Seq::<SlotModel>::empty() =~= slot_seq_model(
                    slots@,
                ));
            }
            Result::Ok(RecordInstance { record_name: t.name.clone(), slots })
        },
        _ => Result::Err(DecodeError::NotAnObject),
    }
}

/// The decode function of one record type: a stateless unit bound to the
/// type's fully-qualified name, resolving it through the shared registry at
/// the moment it is applied, so that self- and mutually-recursive types need
/// no construction-order bookkeeping.
#[derive(Debug)]
pub struct DecodeFunction {
    pub record_name: String,
}

impl DecodeFunction {
    /// Decodes a value as this function's record type.
    pub fn apply(&self, registry: &Registry, v: &Value) -> (r: Result<
        RecordInstance,
        DecodeError,
    >)
        ensures
            instance_result_model(r) == decode_as_spec(registry.types@, self.record_name, *v),
    {
        match registry.resolve(&self.record_name) {
            Result::Ok(t) => decode_record(registry, t, v),
            Result::Err(e) => Result::Err(e),
        }
    }
}

/// The decoder set of a schema: the shared read-only registry and one
/// decode function per record type, built once and reused for every decode.
#[derive(Debug)]
pub struct Decoders {
    pub registry: Registry,
    pub functions: Vec<DecodeFunction>,
}

/// Well-formedness of a decoder set: one decode function per registry
/// entry, in registry order, each bound to its entry's name.
pub open spec fn decoders_wf(d: Decoders) -> bool {
    &&& d.functions@.len() == d.registry.types@.len()
    &&& forall|i: int|
        0 <= i < d.functions@.len() ==> (#[trigger] d.functions@[i]).record_name
            == d.registry.types@[i].name
}

/// Builds the decoder set of a schema: the registry over the given record
/// types, and one decode function per type.
pub fn build_decoders(types: Vec<RecordTypeDescriptor>) -> (d: Decoders)
    ensures
        d.registry.types == types,
        decoders_wf(d),
{
    let mut functions: Vec<DecodeFunction> = Vec::new();
    let mut i: usize = 0;
    while i < types.len()
        invariant
            i <= types.len(),
            functions@.len() == i,
            forall|k: int|
                0 <= k < i ==> (#[trigger] functions@[k]).record_name == types@[k].name,
        decreases types.len() - i,
    {
        functions.push(DecodeFunction { record_name: types[i].name.clone() });
        i = i + 1;
    }
    Decoders { registry: Registry::new(types), functions }
}

impl Decoders {
    /// The decode function of the named record type, or `None` when the
    /// registry has no descriptor of that name.
    pub fn get<'a>(&'a self, record_name: &String) -> (r: Option<&'a DecodeFunction>)
        requires
            decoders_wf(*self),
        ensures
            match r {
                Option::Some(df) => {
                    &&& df.record_name@ == record_name@
                    &&& crate::schema::resolve_spec(self.registry.types@, record_name@) is Some
                },
                Option::None => crate::schema::resolve_spec(
                    self.registry.types@,
                    record_name@,
                ) is None,
            },
    {
        proof {
            crate::schema::lemma_resolve_spec(self.registry.types@, record_name@);
        }
        let mut i: usize = 0;
        while i < self.functions.len()
            invariant
                decoders_wf(*self),
                i <= self.functions@.len(),
                forall|k: int|
                    0 <= k < i ==> (#[trigger] self.registry.types@[k]).name@ != record_name@,
                crate::schema::resolve_spec(self.registry.types@, record_name@) is None
                    ==> forall|j: int|
                    0 <= j < self.registry.types@.len() ==> (
                    #[trigger] self.registry.types@[j]).name@ != record_name@,
                crate::schema::resolve_spec(self.registry.types@, record_name@) matches Some(t)
                    ==> exists|j: int|
                    {
                        &&& 0 <= j < self.registry.types@.len()
                        &&& #[trigger] self.registry.types@[j] == t
                        &&& t.name@ == record_name@
                    },
            decreases self.functions.len() - i,
        {
            if self.functions[i].record_name == *record_name {
                return Option::Some(&self.functions[i]);
            }
            i = i + 1;
        }
        Option::None
    }

    /// Decodes a value as the named record type: the top entry point of the
    /// engine.
    pub fn decode(&self, record_name: &String, v: &Value) -> (r: Result<
        RecordInstance,
        DecodeError,
    >)
        ensures
            instance_result_model(r) == decode_as_spec(self.registry.types@, *record_name, *v),
    {
        match self.registry.resolve(record_name) {
            Result::Ok(t) => decode_record(&self.registry, t, v),
            Result::Err(e) => Result::Err(e),
        }
    }
}

} // verus!
