//! The untyped input value model.
//!
//! A [`Value`] is the schema-agnostic tree an external parser hands to the
//! engine: a tagged variant over null, boolean, number, string, array and
//! object.  The engine only reads it; it never builds or mutates one.

use vstd::prelude::*;
use crate::error::ValueShape;

verus! {

/// An untyped number, presented as the reads a scalar coercion can make.
///
/// The external parser that produces the value tree performs the numeric
/// reads once, up front: `signed` and `unsigned` are the 64-bit integer
/// readings (absent when the number is not representable that way), and
/// `binary64_bits`/`binary32_bits` are the IEEE-754 bit patterns of the
/// number read as a 64-bit float and of its narrowing to a 32-bit float.
/// The engine itself performs no floating-point arithmetic; it moves bit
/// patterns.
#[derive(Clone, Copy, Debug, PartialEq, Eq)]
pub struct Number {
    pub signed: Option<i64>,
    pub unsigned: Option<u64>,
    pub binary64_bits: u64,
    pub binary32_bits: u32,
}

/// One key-value pair of an object value.
#[derive(Debug)]
pub struct ObjectEntry {
    pub key: String,
    pub value: Value,
}

/// An untyped hierarchical value: the input of every decode.
#[derive(Debug)]
pub enum Value {
    Null,
    Boolean(bool),
    Number(Number),
    Text(String),
    Array(Vec<Value>),
    /// Key-value pairs in the order the parser produced them.  Lookup by key
    /// takes the first matching pair.
    Object(Vec<ObjectEntry>),
}

/// The structural shape of a value, as reported in `TypeMismatch` errors.
pub open spec fn value_shape(v: Value) -> ValueShape {
    match v {
        Value::Null => ValueShape::Null,
        Value::Boolean(_) => ValueShape::Boolean,
        Value::Number(_) => ValueShape::Number,
        Value::Text(_) => ValueShape::Text,
        Value::Array(_) => ValueShape::Array,
        Value::Object(_) => ValueShape::Object,
    }
}

/// The index of the first pair of `pairs` whose key is `key`, or `-1` when
/// no pair matches.
pub open spec fn key_index(pairs: Seq<ObjectEntry>, key: Seq<char>) -> int
    decreases pairs.len(),
{
    if pairs.len() == 0 {
        -1
    } else if pairs[0].key@ == key {
        0
    } else if key_index(pairs.drop_first(), key) < 0 {
        -1
    } else {
        key_index(pairs.drop_first(), key) + 1
    }
}

/// The value of the first pair of `pairs` whose key is `key`, if any.
pub open spec fn lookup_result(pairs: Seq<ObjectEntry>, key: Seq<char>) -> Option<Value> {
    if key_index(pairs, key) < 0 {
        Option::None
    } else {
        Option::Some(pairs[key_index(pairs, key)].value)
    }
}

/// What `key_index` means, spelled out: a negative result says no pair
/// matches, and a non-negative result is the position of the first match.
pub proof fn lemma_key_index(pairs: Seq<ObjectEntry>, key: Seq<char>)
    ensures
        key_index(pairs, key) < 0 ==> forall|j: int|
            0 <= j < pairs.len() ==> (#[trigger] pairs[j]).key@ != key,
        key_index(pairs, key) >= 0 ==> {
            &&& 0 <= key_index(pairs, key) < pairs.len()
            &&& pairs[key_index(pairs, key)].key@ == key
            &&& forall|j: int|
                0 <= j < key_index(pairs, key) ==> (#[trigger] pairs[j]).key@ != key
        },
    decreases pairs.len(),
{
    if pairs.len() > 0 && pairs[0].key@ != key {
        lemma_key_index(pairs.drop_first(), key);
        assert forall|j: int| 1 <= j < pairs.len() implies pairs.drop_first()[j - 1]
            == #[trigger] pairs[j] by {
        }
    }
}

/// Looks `key` up in the pairs of an object value, returning the value of
/// the first pair with that key.
pub fn object_lookup<'a>(pairs: &'a Vec<ObjectEntry>, key: &String) -> (r: Option<&'a Value>)
    ensures
        key_index(pairs@, key@) < 0 ==> r is None,
        key_index(pairs@, key@) >= 0 ==> {
            &&& r matches Some(v)
            &&& *v == pairs@[key_index(pairs@, key@)].value
        },
{
    proof {
        lemma_key_index(pairs@, key@);
    }
    let mut i: usize = 0;
    while i < pairs.len()
        invariant
            i <= pairs.len(),
            forall|j: int| 0 <= j < i ==> (#[trigger] pairs@[j]).key@ != key@,
            key_index(pairs@, key@) < 0 ==> forall|j: int|
                0 <= j < pairs@.len() ==> (#[trigger] pairs@[j]).key@ != key@,
            key_index(pairs@, key@) >= 0 ==> {
                &&& 0 <= key_index(pairs@, key@) < pairs@.len()
                &&& pairs@[key_index(pairs@, key@)].key@ == key@
                &&& forall|j: int|
                    0 <= j < key_index(pairs@, key@) ==> (#[trigger] pairs@[j]).key@ != key@
            },
        decreases pairs.len() - i,
    {
        if pairs[i].key == *key {
            return Some(&pairs[i].value);
        }
        i = i + 1;
    }
    None
}

} // verus!
