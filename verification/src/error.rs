//! The decode error taxonomy.
//!
//! Every failure of the engine is an ordinary result value that aborts the
//! current decode and propagates to the caller; nothing is retried, defaulted
//! or silently recovered.

use vstd::prelude::*;

verus! {

/// The six structural shapes an untyped input value can take.
#[derive(Clone, Copy, Debug, PartialEq, Eq, Structural)]
pub enum ValueShape {
    Null,
    Boolean,
    Number,
    Text,
    Array,
    Object,
}

/// The read a scalar coercion attempts on an untyped value.
///
/// A 32-bit or 64-bit signed integer field reads a signed integer, the
/// unsigned kinds read an unsigned integer, the floating kinds read a
/// binary64 number, and so on.  A `TypeMismatch` error reports which read was
/// attempted and which shape was found.
#[derive(Clone, Copy, Debug, PartialEq, Eq, Structural)]
pub enum ScalarRead {
    SignedInt,
    UnsignedInt,
    Binary64,
    Boolean,
    Text,
}

/// The field kinds the engine recognizes but deliberately refuses to decode.
///
/// Refusing them loudly is a capability boundary: data of these kinds is
/// never silently dropped or truncated.
#[derive(Clone, Copy, Debug, PartialEq, Eq, Structural)]
pub enum UnsupportedKind {
    Mapping,
    Enumeration,
    ByteSequence,
}

/// Why a decode failed.
#[derive(Clone, Debug, PartialEq, Eq)]
pub enum DecodeError {
    /// A referenced record-type name has no descriptor in the registry.
    UnknownType { name: String },
    /// A record was decoded from a value that is not an object.
    NotAnObject,
    /// A repeated field's value is not an array.
    NotAnArray,
    /// A field's key is absent from the input object.
    MissingField { field_name: String },
    /// A scalar coercion found an incompatible underlying value shape.
    TypeMismatch { expected: ScalarRead, found: ValueShape },
    /// The field is declared as a map, an enumeration or a byte sequence.
    UnsupportedFieldKind { kind: UnsupportedKind, field_name: String },
}

} // verus!
