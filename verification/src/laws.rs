//! General laws of the decode engine, stated over its mathematical model
//! and proved once for all inputs.

use vstd::prelude::*;
use crate::decode::{
    coerce_seq_spec, coerce_spec, decode_as_spec, decode_field_spec, decode_fields_spec,
    decode_record_spec, instance_result_model, read_signed, read_unsigned,
};
use crate::error::{DecodeError, UnsupportedKind};
use crate::instance::{FieldModel, InstanceModel, RecordInstance, SlotModel};
use crate::schema::{FieldDescriptor, FieldKind, RecordTypeDescriptor};
use crate::value::{key_index, lemma_key_index, lookup_result, ObjectEntry, Value};

verus! {

/// Decoding a record type with no fields succeeds on every object value,
/// whatever keys the object holds, and yields the instance with no
/// populated slots.
pub proof fn lemma_empty_record_accepts_any_object(
    types: Seq<RecordTypeDescriptor>,
    t: RecordTypeDescriptor,
    pairs: Vec<ObjectEntry>,
)
    requires
        t.fields@.len() == 0,
    ensures
        decode_record_spec(types, t, Value::Object(pairs)) == Result::<
            InstanceModel,
            DecodeError,
        >::Ok(InstanceModel { record_name: t.name@, slots: Seq::empty() }),
{
}

/// Whether a value's underlying reading matches a scalar kind exactly:
/// the reading the kind pulls is present, and an integer reading lies in
/// the kind's range.
pub open spec fn scalar_matches(kind: FieldKind, v: Value) -> bool {
    match kind {
        FieldKind::Int32 => read_signed(v) matches Option::Some(i) && i32::MIN <= i <= i32::MAX,
        FieldKind::Int64 => read_signed(v) is Some,
        FieldKind::Uint32 => read_unsigned(v) matches Option::Some(u) && u <= u32::MAX,
        FieldKind::Uint64 => read_unsigned(v) is Some,
        FieldKind::Float32 => v is Number,
        FieldKind::Float64 => v is Number,
        FieldKind::Boolean => v is Boolean,
        FieldKind::Text => v is Text,
        FieldKind::Nested(_) => false,
        FieldKind::Unsupported(_) => false,
    }
}

/// Coercing a value whose underlying reading matches the declared scalar
/// kind round-trips the value exactly: the coercion succeeds and holds
/// precisely the value that was read, with the 32-bit narrowings the
/// identity on their ranges.
pub proof fn lemma_scalar_round_trip(
    types: Seq<RecordTypeDescriptor>,
    kind: FieldKind,
    field_name: String,
    v: Value,
)
    requires
        scalar_matches(kind, v),
    ensures
        coerce_spec(types, kind, field_name, v) is Ok,
        kind is Int32 ==> coerce_spec(types, kind, field_name, v) == Result::<
            FieldModel,
            DecodeError,
        >::Ok(FieldModel::Int32(read_signed(v)->0 as i32)) && read_signed(v)->0 as i32
            == read_signed(v)->0,
        kind is Int64 ==> coerce_spec(types, kind, field_name, v) == Result::<
            FieldModel,
            DecodeError,
        >::Ok(FieldModel::Int64(read_signed(v)->0)),
        kind is Uint32 ==> coerce_spec(types, kind, field_name, v) == Result::<
            FieldModel,
            DecodeError,
        >::Ok(FieldModel::Uint32(read_unsigned(v)->0 as u32)) && read_unsigned(v)->0 as u32
            == read_unsigned(v)->0,
        kind is Uint64 ==> coerce_spec(types, kind, field_name, v) == Result::<
            FieldModel,
            DecodeError,
        >::Ok(FieldModel::Uint64(read_unsigned(v)->0)),
        kind is Float32 ==> coerce_spec(types, kind, field_name, v) == Result::<
            FieldModel,
            DecodeError,
        >::Ok(FieldModel::Float32Bits(v->Number_0.binary32_bits)),
        kind is Float64 ==> coerce_spec(types, kind, field_name, v) == Result::<
            FieldModel,
            DecodeError,
        >::Ok(FieldModel::Float64Bits(v->Number_0.binary64_bits)),
        kind is Boolean ==> coerce_spec(types, kind, field_name, v) == Result::<
            FieldModel,
            DecodeError,
        >::Ok(FieldModel::Boolean(v->Boolean_0)),
        kind is Text ==> coerce_spec(types, kind, field_name, v) == Result::<
            FieldModel,
            DecodeError,
        >::Ok(FieldModel::Text(v->Text_0@)),
{
}

/// Coercing a repeated field's elements preserves input order: when every
/// element of the array coerces, the whole array coerces to exactly the
/// elementwise coercions, element by element, in input order.
pub proof fn lemma_repeated_preserves_order(
    types: Seq<RecordTypeDescriptor>,
    kind: FieldKind,
    field_name: String,
    elems: Seq<Value>,
)
    requires
        forall|j: int| 0 <= j < elems.len() ==> coerce_spec(
            types,
            kind,
            field_name,
            #[trigger] elems[j],
        ) is Ok,
    ensures
        ({
            &&& coerce_seq_spec(types, kind, field_name, elems) matches Result::Ok(ms)
            &&& ms.len() == elems.len()
            &&& forall|j: int| 0 <= j < elems.len() ==> ms[j] == coerce_spec(
                types,
                kind,
                field_name,
                #[trigger] elems[j],
            )->Ok_0
        }),
    decreases elems.len(),
{
    if elems.len() > 0 {
        assert forall|j: int| 1 <= j < elems.len() implies elems.drop_first()[j - 1]
            == #[trigger] elems[j] by {
        }
        lemma_repeated_preserves_order(types, kind, field_name, elems.drop_first());
    }
}

/// Two object values whose pairs agree on one field's name give that field
/// the same decode result.
proof fn lemma_field_ignores_other_keys(
    types: Seq<RecordTypeDescriptor>,
    f: FieldDescriptor,
    p1: Seq<ObjectEntry>,
    p2: Seq<ObjectEntry>,
)
    requires
        lookup_result(p1, f.name@) == lookup_result(p2, f.name@),
    ensures
        decode_field_spec(types, f, p1) == decode_field_spec(types, f, p2),
{
    lemma_key_index(p1, f.name@);
    lemma_key_index(p2, f.name@);
}

/// Keys an object holds beyond a record type's declared fields never
/// affect the decode: two object values whose pairs agree on every
/// declared field name decode to the same result, whatever other keys
/// either of them holds.
pub proof fn lemma_undeclared_keys_ignored(
    types: Seq<RecordTypeDescriptor>,
    t: RecordTypeDescriptor,
    p1: Vec<ObjectEntry>,
    p2: Vec<ObjectEntry>,
)
    requires
        forall|i: int| 0 <= i < t.fields@.len() ==> lookup_result(
            p1@,
            (#[trigger] t.fields@[i]).name@,
        ) == lookup_result(p2@, t.fields@[i].name@),
    ensures
        decode_record_spec(types, t, Value::Object(p1)) == decode_record_spec(
            types,
            t,
            Value::Object(p2),
        ),
{
    lemma_fields_ignore_other_keys(types, t.fields@, p1@, p2@);
}

/// The field-list form of `lemma_undeclared_keys_ignored`.
proof fn lemma_fields_ignore_other_keys(
    types: Seq<RecordTypeDescriptor>,
    fields: Seq<FieldDescriptor>,
    p1: Seq<ObjectEntry>,
    p2: Seq<ObjectEntry>,
)
    requires
        forall|i: int| 0 <= i < fields.len() ==> lookup_result(
            p1,
            (#[trigger] fields[i]).name@,
        ) == lookup_result(p2, fields[i].name@),
    ensures
        decode_fields_spec(types, fields, p1) == decode_fields_spec(types, fields, p2),
    decreases fields.len(),
{
    if fields.len() > 0 {
        lemma_field_ignores_other_keys(types, fields[0], p1, p2);
        assert forall|j: int| 1 <= j < fields.len() implies fields.drop_first()[j - 1]
            == #[trigger] fields[j] by {
        }
        lemma_fields_ignore_other_keys(types, fields.drop_first(), p1, p2);
    }
}

/// The first field, in declaration order, that fails determines the error
/// of the whole record decode.
pub proof fn lemma_first_field_error(
    types: Seq<RecordTypeDescriptor>,
    fields: Seq<FieldDescriptor>,
    pairs: Seq<ObjectEntry>,
    i: int,
    e: DecodeError,
)
    requires
        0 <= i < fields.len(),
        forall|j: int| 0 <= j < i ==> decode_field_spec(types, #[trigger] fields[j], pairs) is Ok,
        decode_field_spec(types, fields[i], pairs) == Result::<SlotModel, DecodeError>::Err(e),
    ensures
        decode_fields_spec(types, fields, pairs) == Result::<Seq<SlotModel>, DecodeError>::Err(e),
    decreases i,
{
    if i > 0 {
        assert forall|j: int| 1 <= j < fields.len() implies fields.drop_first()[j - 1]
            == #[trigger] fields[j] by {
        }
        lemma_first_field_error(types, fields.drop_first(), pairs, i - 1, e);
    }
}

/// A field whose key is absent from the input object always fails the
/// decode with `MissingField` — never with a silently defaulted value —
/// provided every field declared before it decodes, and its kind is a
/// supported one (an unsupported kind fails first, with its own error).
pub proof fn lemma_missing_field_fails(
    types: Seq<RecordTypeDescriptor>,
    t: RecordTypeDescriptor,
    pairs: Vec<ObjectEntry>,
    i: int,
)
    requires
        0 <= i < t.fields@.len(),
        !((#[trigger] t.fields@[i]).kind is Unsupported),
        key_index(pairs@, t.fields@[i].name@) < 0,
        forall|j: int| 0 <= j < i ==> decode_field_spec(types, #[trigger] t.fields@[j], pairs@)
            is Ok,
    ensures
        decode_record_spec(types, t, Value::Object(pairs)) == Result::<
            InstanceModel,
            DecodeError,
        >::Err(DecodeError::MissingField { field_name: t.fields@[i].name }),
{
    let e = DecodeError::MissingField { field_name: t.fields@[i].name };
    assert(decode_field_spec(types, t.fields@[i], pairs@) == Result::<
        SlotModel,
        DecodeError,
    >::Err(e));
    lemma_first_field_error(types, t.fields@, pairs@, i, e);
}

/// A field declared as a map, enumeration or byte sequence always fails
/// the decode with `UnsupportedFieldKind`, whatever the input object holds
/// for it — even a well-formed value — provided every field declared
/// before it decodes.
pub proof fn lemma_unsupported_kind_fails(
    types: Seq<RecordTypeDescriptor>,
    t: RecordTypeDescriptor,
    pairs: Vec<ObjectEntry>,
    i: int,
    u: UnsupportedKind,
)
    requires
        0 <= i < t.fields@.len(),
        (#[trigger] t.fields@[i]).kind == FieldKind::Unsupported(u),
        forall|j: int| 0 <= j < i ==> decode_field_spec(types, #[trigger] t.fields@[j], pairs@)
            is Ok,
    ensures
        decode_record_spec(types, t, Value::Object(pairs)) == Result::<
            InstanceModel,
            DecodeError,
        >::Err(DecodeError::UnsupportedFieldKind { kind: u, field_name: t.fields@[i].name }),
{
    let e = DecodeError::UnsupportedFieldKind { kind: u, field_name: t.fields@[i].name };
    assert(decode_field_spec(types, t.fields@[i], pairs@) == Result::<
        SlotModel,
        DecodeError,
    >::Err(e));
    lemma_first_field_error(types, t.fields@, pairs@, i, e);
}

/// Decoding is deterministic: any two results that meet the decode
/// contract for the same registry, record-type name and input value have
/// equal models — decoding the same input twice yields structurally equal
/// instances, or equal errors.
pub proof fn lemma_decode_deterministic(
    types: Seq<RecordTypeDescriptor>,
    record_name: String,
    v: Value,
    r1: Result<RecordInstance, DecodeError>,
    r2: Result<RecordInstance, DecodeError>,
)
    requires
        instance_result_model(r1) == decode_as_spec(types, record_name, v),
        instance_result_model(r2) == decode_as_spec(types, record_name, v),
    ensures
        instance_result_model(r1) == instance_result_model(r2),
{
}

} // verus!
