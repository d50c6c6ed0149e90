//! Decoded record instances and their mathematical models.
//!
//! A [`RecordInstance`] is the runtime result of a decode: one slot per
//! declared field of its record type, each slot holding a single typed value
//! or, for a repeated field, an ordered sequence of typed values.
//!
//! The `*Model` types are the spec-level pictures of these values: text
//! becomes a sequence of characters and vectors become sequences, so that
//! two instances are structurally equal exactly when their models are equal.

use vstd::prelude::*;

verus! {

/// One decoded field value.
#[derive(Debug)]
pub enum FieldValue {
    Int32(i32),
    Int64(i64),
    Uint32(u32),
    Uint64(u64),
    /// An IEEE-754 binary32 bit pattern.
    Float32Bits(u32),
    /// An IEEE-754 binary64 bit pattern.
    Float64Bits(u64),
    Boolean(bool),
    Text(String),
    /// A decoded nested record.
    Nested(RecordInstance),
}

/// The slot of one declared field: a single value, or the ordered values of
/// a repeated field.
#[derive(Debug)]
pub enum Slot {
    Single(FieldValue),
    Repeated(Vec<FieldValue>),
}

/// A populated instance of a record type: the type's fully-qualified name
/// and one slot per declared field, in declaration order.
#[derive(Debug)]
pub struct RecordInstance {
    pub record_name: String,
    pub slots: Vec<Slot>,
}

/// The spec-level model of a [`FieldValue`].
pub enum FieldModel {
    Int32(i32),
    Int64(i64),
    Uint32(u32),
    Uint64(u64),
    Float32Bits(u32),
    Float64Bits(u64),
    Boolean(bool),
    Text(Seq<char>),
    Nested(InstanceModel),
}

/// The spec-level model of a [`Slot`].
pub enum SlotModel {
    Single(FieldModel),
    Repeated(Seq<FieldModel>),
}

/// The spec-level model of a [`RecordInstance`].
pub struct InstanceModel {
    pub record_name: Seq<char>,
    pub slots: Seq<SlotModel>,
}

/// The model of one field value.
pub open spec fn field_model(v: FieldValue) -> FieldModel
    decreases v,
{
    match v {
        FieldValue::Int32(x) => FieldModel::Int32(x),
        FieldValue::Int64(x) => FieldModel::Int64(x),
        FieldValue::Uint32(x) => FieldModel::Uint32(x),
        FieldValue::Uint64(x) => FieldModel::Uint64(x),
        FieldValue::Float32Bits(x) => FieldModel::Float32Bits(x),
        FieldValue::Float64Bits(x) => FieldModel::Float64Bits(x),
        FieldValue::Boolean(x) => FieldModel::Boolean(x),
        FieldValue::Text(s) => FieldModel::Text(s@),
        FieldValue::Nested(i) => FieldModel::Nested(instance_model(i)),
    }
}

/// The models of a sequence of field values, in order.
pub open spec fn field_seq_model(s: Seq<FieldValue>) -> Seq<FieldModel>
    decreases s,
{
    if s.len() == 0 {
        Seq::empty()
    } else {
        seq![field_model(s[0])] + field_seq_model(s.drop_first())
    }
}

/// The model of one slot.
pub open spec fn slot_model(s: Slot) -> SlotModel
    decreases s,
{
    match s {
        Slot::Single(v) => SlotModel::Single(field_model(v)),
        Slot::Repeated(vs) => SlotModel::Repeated(field_seq_model(vs@)),
    }
}

/// The models of a sequence of slots, in order.
pub open spec fn slot_seq_model(s: Seq<Slot>) -> Seq<SlotModel>
    decreases s,
{
    if s.len() == 0 {
        Seq::empty()
    } else {
        seq![slot_model(s[0])] + slot_seq_model(s.drop_first())
    }
}

/// The model of a record instance.
pub open spec fn instance_model(i: RecordInstance) -> InstanceModel
    decreases i,
{
    InstanceModel { record_name: i.record_name@, slots: slot_seq_model(i.slots@) }
}

impl View for RecordInstance {
    type V = InstanceModel;

    open spec fn view(&self) -> InstanceModel {
        instance_model(*self)
    }
}

/// `field_seq_model` acts pointwise: it keeps the length and models each
/// element in place.
pub proof fn lemma_field_seq_model(s: Seq<FieldValue>)
    ensures
        field_seq_model(s).len() == s.len(),
        forall|i: int| 0 <= i < s.len() ==> field_seq_model(s)[i] == field_model(#[trigger] s[i]),
    decreases s,
{
    if s.len() > 0 {
        lemma_field_seq_model(s.drop_first());
        assert forall|i: int| 1 <= i < s.len() implies s.drop_first()[i - 1] == #[trigger] s[i] by {
        }
    }
}

/// `slot_seq_model` acts pointwise: it keeps the length and models each
/// element in place.
pub proof fn lemma_slot_seq_model(s: Seq<Slot>)
    ensures
        slot_seq_model(s).len() == s.len(),
        forall|i: int| 0 <= i < s.len() ==> slot_seq_model(s)[i] == slot_model(#[trigger] s[i]),
    decreases s,
{
    if s.len() > 0 {
        lemma_slot_seq_model(s.drop_first());
        assert forall|i: int| 1 <= i < s.len() implies s.drop_first()[i - 1] == #[trigger] s[i] by {
        }
    }
}

/// Appending one value appends its model.
pub proof fn lemma_field_seq_model_push(s: Seq<FieldValue>, v: FieldValue)
    ensures
        field_seq_model(s.push(v)) == field_seq_model(s) + seq![field_model(v)],
{
    lemma_field_seq_model(s);
    lemma_field_seq_model(s.push(v));
    assert forall|q: int| 0 <= q < s.push(v).len() implies field_seq_model(s.push(v))[q] == (
    field_seq_model(s) + seq![field_model(v)])[q] by {
        assert(field_seq_model(s.push(v))[q] == field_model(s.push(v)[q]));
        if q < s.len() {
            assert(s.push(v)[q] == s[q]);
        } else {
            assert(s.push(v)[q] == v);
        }
    }
    assert(field_seq_model(s.push(v)) =~= field_seq_model(s) + seq![field_model(v)]);
}

/// Appending one slot appends its model.
pub proof fn lemma_slot_seq_model_push(s: Seq<Slot>, x: Slot)
    ensures
        slot_seq_model(s.push(x)) == slot_seq_model(s) + seq![slot_model(x)],
{
    lemma_slot_seq_model(s);
    lemma_slot_seq_model(s.push(x));
    assert forall|q: int| 0 <= q < s.push(x).len() implies slot_seq_model(s.push(x))[q] == (
    slot_seq_model(s) + seq![slot_model(x)])[q] by {
        assert(slot_seq_model(s.push(x))[q] == slot_model(s.push(x)[q]));
        if q < s.len() {
            assert(s.push(x)[q] == s[q]);
        } else {
            assert(s.push(x)[q] == x);
        }
    }
    assert(slot_seq_model(s.push(x)) =~= slot_seq_model(s) + seq![slot_model(x)]);
}

/// Whether two field values are structurally equal, that is, whether their
/// models agree.
pub fn field_value_eq(a: &FieldValue, b: &FieldValue) -> (r: bool)
    ensures
        r == (field_model(*a) == field_model(*b)),
    decreases *a,
{
    match (a, b) {
        (FieldValue::Int32(x), FieldValue::Int32(y)) => *x == *y,
        (FieldValue::Int64(x), FieldValue::Int64(y)) => *x == *y,
        (FieldValue::Uint32(x), FieldValue::Uint32(y)) => *x == *y,
        (FieldValue::Uint64(x), FieldValue::Uint64(y)) => *x == *y,
        (FieldValue::Float32Bits(x), FieldValue::Float32Bits(y)) => *x == *y,
        (FieldValue::Float64Bits(x), FieldValue::Float64Bits(y)) => *x == *y,
        (FieldValue::Boolean(x), FieldValue::Boolean(y)) => *x == *y,
        (FieldValue::Text(x), FieldValue::Text(y)) => *x == *y,
        (FieldValue::Nested(x), FieldValue::Nested(y)) => x.structurally_equal(y),
        _ => false,
    }
}

/// Whether two sequences of field values are structurally equal elementwise.
pub fn field_vec_eq(a: &Vec<FieldValue>, b: &Vec<FieldValue>) -> (r: bool)
    ensures
        r == (field_seq_model(a@) == field_seq_model(b@)),
    decreases a@,
{
    proof {
        lemma_field_seq_model(a@);
        lemma_field_seq_model(b@);
    }
    if a.len() != b.len() {
        proof {
            assert(field_seq_model(a@).len() != field_seq_model(b@).len());
        }
        return false;
    }
    let mut i: usize = 0;
    while i < a.len()
        invariant
            i <= a.len(),
            a@.len() == b@.len(),
            field_seq_model(a@).len() == a@.len(),
            field_seq_model(b@).len() == b@.len(),
            forall|j: int| 0 <= j < a@.len() ==> field_seq_model(a@)[j] == field_model(
                #[trigger] a@[j],
            ),
            forall|j: int| 0 <= j < b@.len() ==> field_seq_model(b@)[j] == field_model(
                #[trigger] b@[j],
            ),
            forall|j: int| 0 <= j < i ==> field_model(#[trigger] a@[j]) == field_model(b@[j]),
        decreases a.len() - i,
    {
        if !field_value_eq(&a[i], &b[i]) {
            proof {
                assert(field_seq_model(a@)[i as int] != field_seq_model(b@)[i as int]);
            }
            return false;
        }
        i = i + 1;
    }
    proof {
        assert forall|j: int| 0 <= j < a@.len() implies field_seq_model(a@)[j] == field_seq_model(
            b@,
        )[j] by {
            assert(field_model(a@[j]) == field_model(b@[j]));
        }
        assert(field_seq_model(a@) =~= field_seq_model(b@));
    }
    true
}

/// Whether two slots are structurally equal.
pub fn slot_eq(a: &Slot, b: &Slot) -> (r: bool)
    ensures
        r == (slot_model(*a) == slot_model(*b)),
    decreases *a,
{
    match (a, b) {
        (Slot::Single(x), Slot::Single(y)) => field_value_eq(x, y),
        (Slot::Repeated(x), Slot::Repeated(y)) => field_vec_eq(x, y),
        _ => false,
    }
}

impl RecordInstance {
    /// Whether two instances are structurally equal: same type name, same
    /// number of slots, and structurally equal values slot by slot.
    pub fn structurally_equal(&self, other: &RecordInstance) -> (r: bool)
        ensures
            r == (self@ == other@),
        decreases *self,
    {
        proof {
            lemma_slot_seq_model(self.slots@);
            lemma_slot_seq_model(other.slots@);
        }
        if self.record_name != other.record_name {
            return false;
        }
        if self.slots.len() != other.slots.len() {
            proof {
                assert(self@.slots.len() != other@.slots.len());
            }
            return false;
        }
        let mut i: usize = 0;
        while i < self.slots.len()
            invariant
                i <= self.slots.len(),
                self.slots@.len() == other.slots@.len(),
                slot_seq_model(self.slots@).len() == self.slots@.len(),
                slot_seq_model(other.slots@).len() == other.slots@.len(),
                forall|j: int| 0 <= j < self.slots@.len() ==> slot_seq_model(self.slots@)[j]
                    == slot_model(#[trigger] self.slots@[j]),
                forall|j: int| 0 <= j < other.slots@.len() ==> slot_seq_model(other.slots@)[j]
                    == slot_model(#[trigger] other.slots@[j]),
                forall|j: int| 0 <= j < i ==> slot_model(#[trigger] self.slots@[j]) == slot_model(
                    other.slots@[j],
                ),
            decreases self.slots.len() - i,
        {
            if !slot_eq(&self.slots[i], &other.slots[i]) {
                proof {
                    assert(slot_seq_model(self.slots@)[i as int] != slot_seq_model(
                        other.slots@,
                    )[i as int]);
                }
                return false;
            }
            i = i + 1;
        }
        proof {
            assert forall|j: int| 0 <= j < self.slots@.len() implies slot_seq_model(
                self.slots@,
            )[j] == slot_seq_model(other.slots@)[j] by {
                assert(slot_model(self.slots@[j]) == slot_model(other.slots@[j]));
            }
            assert(slot_seq_model(self.slots@) =~= slot_seq_model(other.slots@));
        }
        true
    }
}

} // verus!
