//! A schema-driven dynamic record decoder.
//!
//! Given a registry of record-type descriptors (names, ordered field lists,
//! field kinds, repetition flags) and an untyped hierarchical value (a tree of
//! nulls, booleans, numbers, strings, arrays and objects), the library builds
//! a populated instance of a named record type, coercing each input value into
//! the declared kind of the corresponding field, recursing into nested record
//! types, and rejecting unsupported shapes (maps, enumerations, byte
//! sequences) with precise errors.

pub mod error;
pub mod value;
pub mod schema;
pub mod instance;
pub mod decode;
pub mod laws;
