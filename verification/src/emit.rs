//! The derivation engine: from a record declaration to the source text
//! of its companion builder.
//!
//! The emitted text is pinned down, character for character, by the
//! specification functions below: a factory returning a fresh builder
//! with every slot absent, the builder type itself with one optional
//! slot per field, one fluent setter per field, and a finalization
//! operation that names the first missing required field. Declarations
//! that are not plain aggregates with named fields are rejected with a
//! build-time diagnostic anchored to the record's name.

use vstd::prelude::*;

use crate::decl::{Diagnostic, FieldDecl, RecordDecl, RecordShape};
use crate::lower::{lower, lower_spec, slot_views_of, BuilderPlan, SlotDecl, SlotSpec};
use crate::runtime::missing_msg;

verus! {

/// One `name: None,` line of the factory's builder literal.
pub open spec fn init_line(s: SlotSpec) -> Seq<char> {
    "            "@ + s.name + ": None,\n"@
}

/// The factory's initializer lines, in field order.
pub open spec fn init_lines(slots: Seq<SlotSpec>) -> Seq<char>
    decreases slots.len(),
{
    if slots.len() == 0 {
        Seq::empty()
    } else {
        init_lines(slots.drop_last()) + init_line(slots.last())
    }
}

/// The opening of the factory block, up to the builder literal.
pub open spec fn factory_header(rec: Seq<char>) -> Seq<char> {
    "impl "@ + rec + " {\n    pub fn builder() -> "@ + rec + "Builder {\n        "@ + rec
        + "Builder {\n"@
}

/// The factory block: a nullary operation on the record type that
/// returns a builder with every slot absent.
pub open spec fn factory_block(rec: Seq<char>, slots: Seq<SlotSpec>) -> Seq<char> {
    factory_header(rec) + init_lines(slots) + "        }\n    }\n}\n\n"@
}

/// One optional slot declaration of the builder type.
pub open spec fn field_line(s: SlotSpec) -> Seq<char> {
    "    "@ + s.name + ": Option<"@ + s.ty + ">,\n"@
}

/// The builder type's slot declarations, in field order.
pub open spec fn field_lines(slots: Seq<SlotSpec>) -> Seq<char>
    decreases slots.len(),
{
    if slots.len() == 0 {
        Seq::empty()
    } else {
        field_lines(slots.drop_last()) + field_line(slots.last())
    }
}

/// The builder type definition.
pub open spec fn struct_block(rec: Seq<char>, slots: Seq<SlotSpec>) -> Seq<char> {
    "pub struct "@ + rec + "Builder {\n"@ + field_lines(slots) + "}\n\n"@
}

/// One fluent setter: it accepts the field's logical value type,
/// overwrites the slot, and returns the builder for chaining.
pub open spec fn setter_block(s: SlotSpec) -> Seq<char> {
    "    pub fn "@ + s.name + "(mut self, "@ + s.name + ": "@ + s.ty
        + ") -> Self {\n        self."@ + s.name + " = Some("@ + s.name
        + ");\n        self\n    }\n\n"@
}

/// All fluent setters, in field order.
pub open spec fn setter_blocks(slots: Seq<SlotSpec>) -> Seq<char>
    decreases slots.len(),
{
    if slots.len() == 0 {
        Seq::empty()
    } else {
        setter_blocks(slots.drop_last()) + setter_block(slots.last())
    }
}

/// One binding of the finalization operation: a required slot must be
/// present, or finalization reports it; an optional slot passes its
/// possibly-absent value through.
pub open spec fn binding_line(rec: Seq<char>, s: SlotSpec) -> Seq<char> {
    if s.required {
        "        let "@ + s.name + " = match self."@ + s.name
            + " {\n            Some(value) => value,\n            None => return Err(String::from(\""@
            + missing_msg(s.name, rec) + "\")),\n        };\n"@
    } else {
        "        let "@ + s.name + " = self."@ + s.name + ";\n"@
    }
}

/// The finalization bindings, checked in field order.
pub open spec fn binding_lines(rec: Seq<char>, slots: Seq<SlotSpec>) -> Seq<char>
    decreases slots.len(),
{
    if slots.len() == 0 {
        Seq::empty()
    } else {
        binding_lines(rec, slots.drop_last()) + binding_line(rec, slots.last())
    }
}

/// One field of the record literal that finalization returns.
pub open spec fn ok_line(s: SlotSpec) -> Seq<char> {
    "            "@ + s.name + ",\n"@
}

/// The record literal's fields, in field order.
pub open spec fn ok_lines(slots: Seq<SlotSpec>) -> Seq<char>
    decreases slots.len(),
{
    if slots.len() == 0 {
        Seq::empty()
    } else {
        ok_lines(slots.drop_last()) + ok_line(slots.last())
    }
}

/// The finalization operation: consume the builder by value and either
/// return the populated record or the first missing field's report.
pub open spec fn build_block(rec: Seq<char>, slots: Seq<SlotSpec>) -> Seq<char> {
    "    pub fn build(self) -> Result<"@ + rec + ", String> {\n"@ + binding_lines(rec, slots)
        + "        Ok("@ + rec + " {\n"@ + ok_lines(slots) + "        })\n    }\n"@
}

/// The builder's own impl block: the setters, then finalization.
pub open spec fn impl_block(rec: Seq<char>, slots: Seq<SlotSpec>) -> Seq<char> {
    "impl "@ + rec + "Builder {\n"@ + setter_blocks(slots) + build_block(rec, slots) + "}\n"@
}

/// Everything the engine emits for one accepted record declaration.
pub open spec fn generated_code(rec: Seq<char>, slots: Seq<SlotSpec>) -> Seq<char> {
    factory_block(rec, slots) + struct_block(rec, slots) + impl_block(rec, slots)
}

/// The diagnostic text for each rejected shape.
pub open spec fn rejection_msg(shape: RecordShape) -> Seq<char> {
    match shape {
        RecordShape::Named(_) => Seq::empty(),
        RecordShape::Positional => "can only derive Builder for structs with named fields (not tuple structs)"@,
        RecordShape::Unit => "can only derive Builder for structs with named fields (not unit structs)"@,
        RecordShape::NotAStruct => "can only derive Builder for structs"@,
    }
}

fn push_init_lines(out: &mut String, slots: &Vec<SlotDecl>)
    ensures
        final(out)@ == old(out)@ + init_lines(slot_views_of(slots@)),
{
    let ghost base = out@;
    let ghost vs = slot_views_of(slots@);
    let n = slots.len();
    let mut i: usize = 0;
    while i < n
        invariant
            i <= n,
            n == slots@.len(),
            vs == slot_views_of(slots@),
            out@ == base + init_lines(vs.subrange(0, i as int)),
        decreases n - i,
    {
        out.append("            ");
        out.append(slots[i].name.as_str());
        out.append(": None,\n");
        proof {
            assert(vs.subrange(0, i + 1).drop_last() =~= vs.subrange(0, i as int));
            assert(vs.subrange(0, i + 1).last() == slots@[i as int]@);
            assert(out@ =~= base + init_lines(vs.subrange(0, i + 1)));
        }
        i += 1;
    }
    proof {
        assert(vs.subrange(0, n as int) =~= vs);
    }
}

fn push_field_lines(out: &mut String, slots: &Vec<SlotDecl>)
    ensures
        final(out)@ == old(out)@ + field_lines(slot_views_of(slots@)),
{
    let ghost base = out@;
    let ghost vs = slot_views_of(slots@);
    let n = slots.len();
    let mut i: usize = 0;
    while i < n
        invariant
            i <= n,
            n == slots@.len(),
            vs == slot_views_of(slots@),
            out@ == base + field_lines(vs.subrange(0, i as int)),
        decreases n - i,
    {
        out.append("    ");
        out.append(slots[i].name.as_str());
        out.append(": Option<");
        out.append(slots[i].ty.as_str());
        out.append(">,\n");
        proof {
            assert(vs.subrange(0, i + 1).drop_last() =~= vs.subrange(0, i as int));
            assert(vs.subrange(0, i + 1).last() == slots@[i as int]@);
            assert(out@ =~= base + field_lines(vs.subrange(0, i + 1)));
        }
        i += 1;
    }
    proof {
        assert(vs.subrange(0, n as int) =~= vs);
    }
}

fn push_setter_block(out: &mut String, s: &SlotDecl)
    ensures
        final(out)@ == old(out)@ + setter_block(s@),
{
    out.append("    pub fn ");
    out.append(s.name.as_str());
    out.append("(mut self, ");
    out.append(s.name.as_str());
    out.append(": ");
    out.append(s.ty.as_str());
    out.append(") -> Self {\n        self.");
    out.append(s.name.as_str());
    out.append(" = Some(");
    out.append(s.name.as_str());
    out.append(");\n        self\n    }\n\n");
    proof {
        assert(out@ =~= old(out)@ + setter_block(s@));
    }
}

fn push_setter_blocks(out: &mut String, slots: &Vec<SlotDecl>)
    ensures
        final(out)@ == old(out)@ + setter_blocks(slot_views_of(slots@)),
{
    let ghost base = out@;
    let ghost vs = slot_views_of(slots@);
    let n = slots.len();
    let mut i: usize = 0;
    while i < n
        invariant
            i <= n,
            n == slots@.len(),
            vs == slot_views_of(slots@),
            out@ == base + setter_blocks(vs.subrange(0, i as int)),
        decreases n - i,
    {
        push_setter_block(out, &slots[i]);
        proof {
            assert(vs.subrange(0, i + 1).drop_last() =~= vs.subrange(0, i as int));
            assert(vs.subrange(0, i + 1).last() == slots@[i as int]@);
            assert(out@ =~= base + setter_blocks(vs.subrange(0, i + 1)));
        }
        i += 1;
    }
    proof {
        assert(vs.subrange(0, n as int) =~= vs);
    }
}

fn push_binding_line(out: &mut String, rec: &str, s: &SlotDecl)
    ensures
        final(out)@ == old(out)@ + binding_line(rec@, s@),
{
    out.append("        let ");
    out.append(s.name.as_str());
    if s.required {
        out.append(" = match self.");
        out.append(s.name.as_str());
        out.append(" {\n            Some(value) => value,\n            None => return Err(String::from(\"");
        out.append(s.name.as_str());
        out.append(" must be set before we can build the ");
        out.append(rec);
        out.append("\")),\n        };\n");
        proof {
            assert(out@ =~= old(out)@ + binding_line(rec@, s@));
        }
    } else {
        out.append(" = self.");
        out.append(s.name.as_str());
        out.append(";\n");
        proof {
            assert(out@ =~= old(out)@ + binding_line(rec@, s@));
        }
    }
}

fn push_binding_lines(out: &mut String, rec: &str, slots: &Vec<SlotDecl>)
    ensures
        final(out)@ == old(out)@ + binding_lines(rec@, slot_views_of(slots@)),
{
    let ghost base = out@;
    let ghost vs = slot_views_of(slots@);
    let n = slots.len();
    let mut i: usize = 0;
    while i < n
        invariant
            i <= n,
            n == slots@.len(),
            vs == slot_views_of(slots@),
            out@ == base + binding_lines(rec@, vs.subrange(0, i as int)),
        decreases n - i,
    {
        push_binding_line(out, rec, &slots[i]);
        proof {
            assert(vs.subrange(0, i + 1).drop_last() =~= vs.subrange(0, i as int));
            assert(vs.subrange(0, i + 1).last() == slots@[i as int]@);
            assert(out@ =~= base + binding_lines(rec@, vs.subrange(0, i + 1)));
        }
        i += 1;
    }
    proof {
        assert(vs.subrange(0, n as int) =~= vs);
    }
}

fn push_ok_lines(out: &mut String, slots: &Vec<SlotDecl>)
    ensures
        final(out)@ == old(out)@ + ok_lines(slot_views_of(slots@)),
{
    let ghost base = out@;
    let ghost vs = slot_views_of(slots@);
    let n = slots.len();
    let mut i: usize = 0;
    while i < n
        invariant
            i <= n,
            n == slots@.len(),
            vs == slot_views_of(slots@),
            out@ == base + ok_lines(vs.subrange(0, i as int)),
        decreases n - i,
    {
        out.append("            ");
        out.append(slots[i].name.as_str());
        out.append(",\n");
        proof {
            assert(vs.subrange(0, i + 1).drop_last() =~= vs.subrange(0, i as int));
            assert(vs.subrange(0, i + 1).last() == slots@[i as int]@);
            assert(out@ =~= base + ok_lines(vs.subrange(0, i + 1)));
        }
        i += 1;
    }
    proof {
        assert(vs.subrange(0, n as int) =~= vs);
    }
}

/// Emit the full companion source for one builder plan.
pub fn emit(plan: &BuilderPlan) -> (code: String)
    ensures
        code@ == generated_code(plan.record@, plan.slot_views()),
{
    let rec = plan.record.as_str();
    let ghost vs = plan.slot_views();
    let mut out = String::new();

    out.append("impl ");
    out.append(rec);
    out.append(" {\n    pub fn builder() -> ");
    out.append(rec);
    out.append("Builder {\n        ");
    out.append(rec);
    out.append("Builder {\n");
    proof {
        assert(out@ =~= factory_header(plan.record@));
    }
    push_init_lines(&mut out, &plan.slots);
    out.append("        }\n    }\n}\n\n");
    proof {
        assert(out@ =~= factory_block(plan.record@, vs));
    }

    out.append("pub struct ");
    out.append(rec);
    out.append("Builder {\n");
    push_field_lines(&mut out, &plan.slots);
    out.append("}\n\n");
    proof {
        assert(out@ =~= factory_block(plan.record@, vs) + struct_block(plan.record@, vs));
    }

    out.append("impl ");
    out.append(rec);
    out.append("Builder {\n");
    push_setter_blocks(&mut out, &plan.slots);
    let ghost mid = out@;
    out.append("    pub fn build(self) -> Result<");
    out.append(rec);
    out.append(", String> {\n");
    push_binding_lines(&mut out, rec, &plan.slots);
    out.append("        Ok(");
    out.append(rec);
    out.append(" {\n");
    push_ok_lines(&mut out, &plan.slots);
    out.append("        })\n    }\n");
    proof {
        assert(out@ =~= mid + build_block(plan.record@, vs));
    }
    out.append("}\n");
    proof {
        assert(out@ =~= generated_code(plan.record@, vs));
    }
    out
}

/// The derivation engine. A plain aggregate with named fields yields
/// the companion source; every other shape is rejected with its
/// diagnostic, anchored to the record's name.
pub fn derive(decl: &RecordDecl) -> (r: Result<String, Diagnostic>)
    requires
        decl.wf(),
    ensures
        match r {
            Ok(code) => decl.shape matches RecordShape::Named(fields) && code@ == generated_code(
                decl.name@,
                fields@.map(|i: int, f: FieldDecl| lower_spec(f)),
            ),
            Err(d) => {
                &&& !(decl.shape matches RecordShape::Named(_))
                &&& d.record@ == decl.name@
                &&& d.message@ == rejection_msg(decl.shape)
            },
        },
{
    match &decl.shape {
        RecordShape::Named(fields) => {
            let plan = lower(&decl.name, fields);
            let code = emit(&plan);
            proof {
                assert(plan.slot_views() =~= fields@.map(|i: int, f: FieldDecl| lower_spec(f)));
            }
            Ok(code)
        },
        RecordShape::Positional => Err(
            Diagnostic {
                record: decl.name.clone(),
                message: "can only derive Builder for structs with named fields (not tuple structs)".to_owned(),
            },
        ),
        RecordShape::Unit => Err(
            Diagnostic {
                record: decl.name.clone(),
                message: "can only derive Builder for structs with named fields (not unit structs)".to_owned(),
            },
        ),
        RecordShape::NotAStruct => Err(
            Diagnostic {
                record: decl.name.clone(),
                message: "can only derive Builder for structs".to_owned(),
            },
        ),
    }
}

} // verus!
