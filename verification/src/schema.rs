//! The compiled schema: record-type descriptors and the registry that
//! resolves type names.
//!
//! Descriptors are built once, from an external schema loader, and never
//! change afterwards; every decode only reads them.

use vstd::prelude::*;
use crate::error::{DecodeError, UnsupportedKind};

verus! {

/// The declared kind of a field: one of the closed set of scalar kinds, a
/// reference by fully-qualified name to another record type, or a kind the
/// engine recognizes but refuses to decode.
#[derive(Clone, Debug, PartialEq, Eq)]
pub enum FieldKind {
    /// Signed 32-bit integer.
    Int32,
    /// Signed 64-bit integer.
    Int64,
    /// Unsigned 32-bit integer.
    Uint32,
    /// Unsigned 64-bit integer.
    Uint64,
    /// IEEE-754 binary32, carried as a bit pattern.
    Float32,
    /// IEEE-754 binary64, carried as a bit pattern.
    Float64,
    /// Boolean.
    Boolean,
    /// Text string.
    Text,
    /// A nested record type, referenced by its fully-qualified name.
    Nested(String),
    /// A map, enumeration or byte-sequence field: always rejected.
    Unsupported(UnsupportedKind),
}

/// One field of a record type: its name (unique within the owning type),
/// its declared kind, and whether it is repeated.
///
/// Repetition and kind are orthogonal; the unsupported kinds are rejected
/// whether repeated or not.
#[derive(Clone, Debug, PartialEq, Eq)]
pub struct FieldDescriptor {
    pub name: String,
    pub kind: FieldKind,
    pub repeated: bool,
}

/// A record type: its fully-qualified name and its fields in declaration
/// order.
#[derive(Clone, Debug, PartialEq, Eq)]
pub struct RecordTypeDescriptor {
    pub name: String,
    pub fields: Vec<FieldDescriptor>,
}

/// The first descriptor in `types` named `name`, if any.
pub open spec fn resolve_spec(
    types: Seq<RecordTypeDescriptor>,
    name: Seq<char>,
) -> Option<RecordTypeDescriptor>
    decreases types.len(),
{
    if types.len() == 0 {
        Option::None
    } else if types[0].name@ == name {
        Option::Some(types[0])
    } else {
        resolve_spec(types.drop_first(), name)
    }
}

/// What `resolve_spec` means, spelled out: `None` says no descriptor bears
/// the name, and `Some(t)` says `t` is the first descriptor that does.
pub proof fn lemma_resolve_spec(types: Seq<RecordTypeDescriptor>, name: Seq<char>)
    ensures
        resolve_spec(types, name) is None ==> forall|j: int|
            0 <= j < types.len() ==> (#[trigger] types[j]).name@ != name,
        resolve_spec(types, name) matches Some(t) ==> exists|j: int|
            {
                &&& 0 <= j < types.len()
                &&& #[trigger] types[j] == t
                &&& t.name@ == name
                &&& forall|k: int| 0 <= k < j ==> (#[trigger] types[k]).name@ != name
            },
    decreases types.len(),
{
    if types.len() > 0 && types[0].name@ != name {
        lemma_resolve_spec(types.drop_first(), name);
        assert forall|j: int| 1 <= j < types.len() implies types.drop_first()[j - 1]
            == #[trigger] types[j] by {
        }
        if let Option::Some(t) = resolve_spec(types, name) {
            let j = choose|j: int|
                {
                    &&& 0 <= j < types.drop_first().len()
                    &&& #[trigger] types.drop_first()[j] == t
                    &&& t.name@ == name
                    &&& forall|k: int|
                        0 <= k < j ==> (#[trigger] types.drop_first()[k]).name@ != name
                };
            assert forall|k: int| 0 <= k < j + 1 implies (#[trigger] types[k]).name@ != name by {
                if k > 0 {
                    assert(types.drop_first()[k - 1] == types[k]);
                }
            }
            assert(types[j + 1] == types.drop_first()[j]);
        }
    }
}

/// The registry of every record type in the schema, indexed by
/// fully-qualified name.  Built once; read-only afterwards.
#[derive(Clone, Debug, PartialEq, Eq)]
pub struct Registry {
    pub types: Vec<RecordTypeDescriptor>,
}

impl Registry {
    /// Builds a registry over the given descriptors.
    pub fn new(types: Vec<RecordTypeDescriptor>) -> (r: Registry)
        ensures
            r.types == types,
    {
        Registry { types }
    }

    /// Resolves a fully-qualified type name to its descriptor, failing with
    /// `UnknownType` when no descriptor bears the name.
    pub fn resolve<'a>(&'a self, name: &String) -> (r: Result<&'a RecordTypeDescriptor, DecodeError>)
        ensures
            match r {
                Ok(t) => resolve_spec(self.types@, name@) == Option::Some(*t),
                Err(e) => {
                    &&& resolve_spec(self.types@, name@) is None
                    &&& e == (DecodeError::UnknownType { name: *name })
                },
            },
    {
        proof {
            lemma_resolve_spec(self.types@, name@);
        }
        let mut i: usize = 0;
        while i < self.types.len()
            invariant
                i <= self.types.len(),
                forall|j: int| 0 <= j < i ==> (#[trigger] self.types@[j]).name@ != name@,
                resolve_spec(self.types@, name@) is None ==> forall|j: int|
                    0 <= j < self.types@.len() ==> (#[trigger] self.types@[j]).name@ != name@,
                resolve_spec(self.types@, name@) matches Some(t) ==> exists|j: int|
                    {
                        &&& 0 <= j < self.types@.len()
                        &&& #[trigger] self.types@[j] == t
                        &&& t.name@ == name@
                        &&& forall|k: int|
                            0 <= k < j ==> (#[trigger] self.types@[k]).name@ != name@
                    },
            decreases self.types.len() - i,
        {
            if self.types[i].name == *name {
                return Ok(&self.types[i]);
            }
            i = i + 1;
        }
        Err(DecodeError::UnknownType { name: name.clone() })
    }
}

} // verus!
