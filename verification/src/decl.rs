//! The record type descriptor: the input of the derivation engine.
//!
//! A descriptor carries the record's name and its shape. Only a plain
//! aggregate with named fields is accepted by the engine; the other
//! shapes exist so that the engine can reject them with a diagnostic.

use vstd::prelude::*;

verus! {

/// One named field of a record declaration: its name and the source
/// text of its declared type.
pub struct FieldDecl {
    pub name: String,
    pub ty: String,
}

/// The shape of a type declaration, as reflected from the host program.
pub enum RecordShape {
    /// A plain aggregate with named fields, in declaration order.
    Named(Vec<FieldDecl>),
    /// An aggregate with positional (unnamed) fields.
    Positional,
    /// A unit-style declaration with no field list at all.
    Unit,
    /// Not a plain aggregate: a sum type or an untagged union.
    NotAStruct,
}

/// A record type declaration handed to the derivation engine.
pub struct RecordDecl {
    pub name: String,
    pub shape: RecordShape,
}

impl RecordDecl {
    /// Field names are unique within one descriptor; reflection on a
    /// host record declaration guarantees this.
    pub open spec fn wf(self) -> bool {
        match self.shape {
            RecordShape::Named(fields) => forall|i: int, j: int|
                0 <= i < j < fields@.len() ==> fields@[i].name@ != fields@[j].name@,
            _ => true,
        }
    }
}

/// A build-time rejection: the diagnostic is anchored to the offending
/// record declaration by its name.
#[derive(Debug)]
pub struct Diagnostic {
    pub record: String,
    pub message: String,
}

} // verus!
