//! Compile-time builder derivation, modelled as a verified library.
//!
//! The derivation engine consumes a structural description of a record
//! type (an ordered list of named fields with their declared types) and
//! emits the source text of a companion "builder" type: a staging object
//! with one optional slot per field, fluent setters, and a finalization
//! operation that either yields the record or names the first missing
//! field. A verified runtime model of that staging object backs the
//! stated properties of the generated code.

pub mod decl;
pub mod lower;
pub mod runtime;
pub mod laws;
pub mod emit;
