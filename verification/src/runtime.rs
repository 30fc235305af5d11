//! The runtime model of a generated builder.
//!
//! A `Builder` is the staging object that the emitted code describes:
//! one optional slot per field, all absent at creation, filled one at a
//! time by fluent setters, and consumed by value at finalization, which
//! either yields the record's field values in order or names the first
//! required field that was never set.

use vstd::prelude::*;

use crate::lower::BuilderPlan;

verus! {

/// Compare two string slices character by character.
pub fn str_eq(a: &str, b: &str) -> (r: bool)
    ensures
        r == (a@ == b@),
{
    let na = a.unicode_len();
    let nb = b.unicode_len();
    if na != nb {
        return false;
    }
    let mut i: usize = 0;
    while i < na
        invariant
            i <= na,
            na == a@.len(),
            nb == b@.len(),
            na == nb,
            forall|k: int| 0 <= k < i ==> a@[k] == b@[k],
        decreases na - i,
    {
        if a.get_char(i) != b.get_char(i) {
            return false;
        }
        i += 1;
    }
    proof {
        assert(a@ =~= b@);
    }
    true
}

/// What one setter call does to the slots: the slot whose field name
/// matches is overwritten with the new value; every other slot keeps
/// what it held.
pub open spec fn set_model<V>(
    names: Seq<Seq<char>>,
    slots: Seq<Option<V>>,
    name: Seq<char>,
    value: V,
) -> Seq<Option<V>> {
    Seq::new(
        slots.len(),
        |i: int|
            if 0 <= i < names.len() && names[i] == name {
                Some(value)
            } else {
                slots[i]
            },
    )
}

/// The recoverable finalization failure: the record under construction
/// and the first field that was never set.
#[derive(Debug)]
pub struct BuildError {
    pub record: String,
    pub field: String,
}

/// The text of the missing-field report.
pub open spec fn missing_msg(field: Seq<char>, record: Seq<char>) -> Seq<char> {
    field + " must be set before we can build the "@ + record
}

impl BuildError {
    /// The human-readable report that the generated code would raise.
    pub fn message(&self) -> (r: String)
        ensures
            r@ == missing_msg(self.field@, self.record@),
    {
        let mut s = self.field.clone();
        s.append(" must be set before we can build the ");
        s.append(self.record.as_str());
        s
    }
}

/// The staging object: the plan it was derived from and one optional
/// slot per field, in field order.
pub struct Builder<V> {
    pub plan: BuilderPlan,
    pub slots: Vec<Option<V>>,
}

impl<V> Builder<V> {
    /// A builder is tied to a well-formed plan and carries exactly one
    /// slot per planned field.
    pub open spec fn wf(self) -> bool {
        self.plan.wf() && self.slots@.len() == self.plan.slots@.len()
    }

    /// The factory: a fresh builder with every slot absent.
    pub fn new(plan: BuilderPlan) -> (b: Builder<V>)
        requires
            plan.wf(),
        ensures
            b.wf(),
            b.plan == plan,
            b.slots@.len() == plan.slots@.len(),
            forall|i: int| 0 <= i < b.slots@.len() ==> b.slots@[i] is None,
    {
        let n = plan.slots.len();
        let mut slots: Vec<Option<V>> = Vec::new();
        let mut i: usize = 0;
        while i < n
            invariant
                i <= n,
                slots@.len() == i,
                forall|k: int| 0 <= k < i ==> slots@[k] is None,
            decreases n - i,
        {
            slots.push(None);
            i += 1;
        }
        Builder { plan, slots }
    }

    /// The fluent setter: store `value` into the slot named `name`,
    /// overwriting anything already there, and hand the builder back
    /// for chaining. A name outside the plan leaves the builder as it
    /// was.
    pub fn set_field(self, name: &str, value: V) -> (r: Builder<V>)
        requires
            self.wf(),
        ensures
            r.wf(),
            r.plan == self.plan,
            r.slots@ == set_model(self.plan.names(), self.slots@, name@, value),
    {
        let ghost orig = self;
        let mut b = self;
        let n = b.plan.slots.len();
        let mut i: usize = 0;
        while i < n
            invariant
                orig == self,
                b.plan == orig.plan,
                b.slots@ == orig.slots@,
                orig.wf(),
                i <= n,
                n == b.plan.slots@.len(),
                n == b.slots@.len(),
                forall|k: int| 0 <= k < i ==> orig.plan.names()[k] != name@,
            decreases n - i,
        {
            if str_eq(b.plan.slots[i].name.as_str(), name) {
                b.slots.set(i, Some(value));
                proof {
                    assert forall|k: int| 0 <= k < n && k != i implies
                        orig.plan.names()[k] != name@ by {
                        assert(orig.plan.names()[k] == orig.plan.slots@[k].name@);
                        assert(orig.plan.names()[i as int] == orig.plan.slots@[i as int].name@);
                    }
                    assert(b.slots@ =~= set_model(orig.plan.names(), orig.slots@, name@, value));
                }
                return b;
            }
            i += 1;
        }
        proof {
            assert(b.slots@ =~= set_model(orig.plan.names(), orig.slots@, name@, value));
        }
        b
    }

    /// Finalization: consume the builder. If every required slot is
    /// present, yield the record's field values in declaration order
    /// (an optional slot passes its possibly-absent value through);
    /// otherwise report the first required field that is absent.
    pub fn build(self) -> (r: Result<Vec<Option<V>>, BuildError>)
        requires
            self.wf(),
        ensures
            match r {
                Ok(rec) => rec@ == self.slots@ && forall|i: int|
                    0 <= i < self.slots@.len()
                        ==> !(self.plan.slots@[i].required && self.slots@[i] is None),
                Err(e) => {
                    &&& exists|i: int|
                        0 <= i < self.slots@.len()
                            && #[trigger] self.plan.slots@[i].required
                            && self.slots@[i] is None
                            && (forall|j: int|
                                0 <= j < i
                                    ==> !(self.plan.slots@[j].required && self.slots@[j] is None))
                            && e.field@ == self.plan.slots@[i].name@
                    &&& e.record@ == self.plan.record@
                },
            },
    {
        let ghost orig = self;
        let Builder { plan, slots } = self;
        let n = plan.slots.len();
        let mut i: usize = 0;
        while i < n
            invariant
                orig == self,
                plan == orig.plan,
                slots@ == orig.slots@,
                i <= n,
                n == plan.slots@.len(),
                n == slots@.len(),
                forall|j: int|
                    0 <= j < i ==> !(plan.slots@[j].required && slots@[j] is None),
            decreases n - i,
        {
            if plan.slots[i].required && slots[i].is_none() {
                let e = BuildError { record: plan.record.clone(), field: plan.slots[i].name.clone() };
                proof {
                    let ii = i as int;
                    assert(0 <= ii && ii < self.slots@.len()
                        && self.plan.slots@[ii].required
                        && self.slots@[ii] is None
                        && (forall|j: int|
                            0 <= j < ii
                                ==> !(self.plan.slots@[j].required && self.slots@[j] is None))
                        && e.field@ == self.plan.slots@[ii].name@);
                }
                return Err(e);
            }
            i += 1;
        }
        Ok(slots)
    }
}

} // verus!
