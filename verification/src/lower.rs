//! Field type classification and lowering.
//!
//! Each declared field type is classified as either standard (any value
//! type) or option-wrapped (a type that already expresses absence). An
//! option-wrapped field collapses to a single optional slot in the
//! builder: its slot keeps the inner type, and the field is not required
//! at finalization.

use vstd::prelude::*;

use crate::decl::FieldDecl;

verus! {

/// True when the declared type text reads `Option<...>`.
pub open spec fn is_option_type(ty: Seq<char>) -> bool {
    ty.len() >= 8 && ty.subrange(0, 7) == "Option<"@ && ty[ty.len() - 1] == '>'
}

/// The inner type of an option-wrapped declared type.
pub open spec fn option_inner(ty: Seq<char>) -> Seq<char> {
    ty.subrange(7, ty.len() - 1)
}

/// The logical value type of a field: what its fluent setter accepts
/// and what its builder slot optionally holds.
pub open spec fn logical_ty(ty: Seq<char>) -> Seq<char> {
    if is_option_type(ty) {
        option_inner(ty)
    } else {
        ty
    }
}

/// The mathematical description of one builder slot.
pub ghost struct SlotSpec {
    pub name: Seq<char>,
    pub ty: Seq<char>,
    pub required: bool,
}

/// What lowering makes of one declared field.
pub open spec fn lower_spec(f: FieldDecl) -> SlotSpec {
    SlotSpec { name: f.name@, ty: logical_ty(f.ty@), required: !is_option_type(f.ty@) }
}

/// One slot of the builder under derivation: the field's name, its
/// logical value type, and whether finalization requires it to be set.
pub struct SlotDecl {
    pub name: String,
    pub ty: String,
    pub required: bool,
}

impl View for SlotDecl {
    type V = SlotSpec;

    open spec fn view(&self) -> SlotSpec {
        SlotSpec { name: self.name@, ty: self.ty@, required: self.required }
    }
}

/// The slot descriptions of a slot list, in order.
pub open spec fn slot_views_of(slots: Seq<SlotDecl>) -> Seq<SlotSpec> {
    slots.map(|i: int, s: SlotDecl| s@)
}

/// The builder plan: everything the engine needs about one record, in
/// field declaration order.
pub struct BuilderPlan {
    pub record: String,
    pub slots: Vec<SlotDecl>,
}

impl BuilderPlan {
    /// Slot names are unique, inherited from the descriptor invariant.
    pub open spec fn wf(self) -> bool {
        forall|i: int, j: int|
            0 <= i < j < self.slots@.len() ==> self.slots@[i].name@ != self.slots@[j].name@
    }

    /// The slot descriptions, in order.
    pub open spec fn slot_views(self) -> Seq<SlotSpec> {
        slot_views_of(self.slots@)
    }

    /// The slot names, in order.
    pub open spec fn names(self) -> Seq<Seq<char>> {
        self.slots@.map(|i: int, s: SlotDecl| s.name@)
    }
}

/// Classify one declared field and lower it to its builder slot.
pub fn lower_field(f: &FieldDecl) -> (s: SlotDecl)
    ensures
        s@ == lower_spec(*f),
{
    let ty = f.ty.as_str();
    let n = ty.unicode_len();
    proof {
        reveal_strlit("Option<");
    }
    let is_opt = n >= 8 && ty.get_char(0) == 'O' && ty.get_char(1) == 'p'
        && ty.get_char(2) == 't' && ty.get_char(3) == 'i' && ty.get_char(4) == 'o'
        && ty.get_char(5) == 'n' && ty.get_char(6) == '<' && ty.get_char(n - 1) == '>';
    if is_opt {
        proof {
            assert(f.ty@.subrange(0, 7) =~= "Option<"@);
        }
        let inner = ty.substring_char(7, n - 1);
        SlotDecl { name: f.name.clone(), ty: inner.to_owned(), required: false }
    } else {
        proof {
            if n >= 8 {
                assert(f.ty@.subrange(0, 7)[0] == f.ty@[0]
                    && f.ty@.subrange(0, 7)[1] == f.ty@[1]
                    && f.ty@.subrange(0, 7)[2] == f.ty@[2]
                    && f.ty@.subrange(0, 7)[3] == f.ty@[3]
                    && f.ty@.subrange(0, 7)[4] == f.ty@[4]
                    && f.ty@.subrange(0, 7)[5] == f.ty@[5]
                    && f.ty@.subrange(0, 7)[6] == f.ty@[6]);
            }
            assert(!is_option_type(f.ty@));
        }
        SlotDecl { name: f.name.clone(), ty: f.ty.clone(), required: true }
    }
}

/// Lower a whole named-field list to a builder plan, keeping order.
pub fn lower(record: &String, fields: &Vec<FieldDecl>) -> (p: BuilderPlan)
    ensures
        p.record@ == record@,
        p.slots@.len() == fields@.len(),
        p.slot_views() == fields@.map(|i: int, f: FieldDecl| lower_spec(f)),
        p.names() == fields@.map(|i: int, f: FieldDecl| f.name@),
{
    let mut slots: Vec<SlotDecl> = Vec::new();
    let mut i: usize = 0;
    while i < fields.len()
        invariant
            i <= fields@.len(),
            slots@.len() == i,
            forall|k: int| 0 <= k < i ==> slots@[k]@ == lower_spec(fields@[k]),
        decreases fields@.len() - i,
    {
        let s = lower_field(&fields[i]);
        slots.push(s);
        i += 1;
    }
    let p = BuilderPlan { record: record.clone(), slots };
    proof {
        assert(p.slot_views() =~= fields@.map(|i: int, f: FieldDecl| lower_spec(f)));
        assert(p.names() =~= fields@.map(|i: int, f: FieldDecl| f.name@));
    }
    p
}

} // verus!
