//! Laws of the builder state machine.
//!
//! These proof functions state, once and for all sequences of setter
//! calls, what the contracts of `Builder::new`, `Builder::set_field`
//! and `Builder::build` add up to: a slot is present exactly when some
//! call named it, the last call per field wins, and the order of the
//! calls does not matter.

use vstd::prelude::*;

use crate::lower::BuilderPlan;
use crate::runtime::set_model;

verus! {

/// The slots of a fresh builder: one absent slot per field.
pub open spec fn empty_slots<V>(n: nat) -> Seq<Option<V>> {
    Seq::new(n, |i: int| None)
}

/// The slots after a sequence of setter calls, each a field name and
/// the value stored under it, applied left to right.
pub open spec fn apply_calls<V>(
    names: Seq<Seq<char>>,
    slots: Seq<Option<V>>,
    calls: Seq<(Seq<char>, V)>,
) -> Seq<Option<V>>
    decreases calls.len(),
{
    if calls.len() == 0 {
        slots
    } else {
        set_model(
            names,
            apply_calls(names, slots, calls.drop_last()),
            calls.last().0,
            calls.last().1,
        )
    }
}

/// The value stored by the latest call that names `name`, if any call
/// does.
pub open spec fn last_set_value<V>(calls: Seq<(Seq<char>, V)>, name: Seq<char>) -> Option<V>
    decreases calls.len(),
{
    if calls.len() == 0 {
        None
    } else if calls.last().0 == name {
        Some(calls.last().1)
    } else {
        last_set_value(calls.drop_last(), name)
    }
}

/// After any sequence of setter calls, each slot holds the value of
/// the latest call naming its field, and keeps its prior content when
/// no call names it.
pub proof fn lemma_apply_calls_slot<V>(
    names: Seq<Seq<char>>,
    slots: Seq<Option<V>>,
    calls: Seq<(Seq<char>, V)>,
    i: int,
)
    requires
        0 <= i < slots.len(),
        names.len() == slots.len(),
    ensures
        apply_calls(names, slots, calls).len() == slots.len(),
        apply_calls(names, slots, calls)[i] == match last_set_value(calls, names[i]) {
            Some(v) => Some(v),
            None => slots[i],
        },
    decreases calls.len(),
{
    if calls.len() > 0 {
        lemma_apply_calls_slot(names, slots, calls.drop_last(), i);
    }
}

/// Some call names `name` exactly when the latest such call exists.
pub proof fn lemma_last_set_value_some<V>(calls: Seq<(Seq<char>, V)>, name: Seq<char>)
    ensures
        (last_set_value(calls, name) is Some) <==> exists|j: int|
            0 <= j < calls.len() && (#[trigger] calls[j]).0 == name,
    decreases calls.len(),
{
    if calls.len() > 0 {
        lemma_last_set_value_some(calls.drop_last(), name);
        if calls.last().0 == name {
            assert(calls[calls.len() - 1].0 == name);
        } else {
            assert forall|j: int| 0 <= j < calls.len() && (#[trigger] calls[j]).0 == name
                implies last_set_value(calls, name) is Some by {
                assert(calls.drop_last()[j] == calls[j]);
            }
            if exists|j: int| 0 <= j < calls.drop_last().len()
                && (#[trigger] calls.drop_last()[j]).0 == name {
                let j = choose|j: int| 0 <= j < calls.drop_last().len()
                    && (#[trigger] calls.drop_last()[j]).0 == name;
                assert(calls[j].0 == name);
            }
        }
    }
}

/// Completion: starting from the factory's all-absent slots, a slot is
/// present after a sequence of setter calls exactly when some call
/// named its field. Together with the contract of `Builder::build`,
/// finalization succeeds exactly when every required field name was
/// set at least once, and fails otherwise.
pub proof fn lemma_completion<V>(names: Seq<Seq<char>>, calls: Seq<(Seq<char>, V)>, i: int)
    requires
        0 <= i < names.len(),
    ensures
        (apply_calls(names, empty_slots(names.len()), calls)[i] is Some) <==> exists|j: int|
            0 <= j < calls.len() && (#[trigger] calls[j]).0 == names[i],
{
    lemma_apply_calls_slot(names, empty_slots(names.len()), calls, i);
    lemma_last_set_value_some(calls, names[i]);
}

/// For a record with any number of fields: starting from the factory's
/// fresh builder, a sequence of setter calls leaves the builder ready
/// to finalize exactly when every required field name was called at
/// least once. By the contract of `Builder::build`, finalization then
/// succeeds, and fails while any required field is still unset.
pub proof fn lemma_factory_completion<V>(plan: BuilderPlan, calls: Seq<(Seq<char>, V)>)
    ensures
        ({
            let slots = apply_calls(
                plan.names(),
                empty_slots::<V>(plan.slots@.len() as nat),
                calls,
            );
            (forall|i: int|
                0 <= i < plan.slots@.len() && (#[trigger] plan.slots@[i]).required
                    ==> exists|j: int|
                        0 <= j < calls.len() && (#[trigger] calls[j]).0 == plan.slots@[i].name@)
                <==> (forall|i: int|
                    0 <= i < plan.slots@.len()
                        ==> !((#[trigger] plan.slots@[i]).required && slots[i] is None))
        }),
{
    let names = plan.names();
    let n = plan.slots@.len() as nat;
    let slots = apply_calls(names, empty_slots::<V>(n), calls);
    assert forall|i: int| 0 <= i < plan.slots@.len() implies ((slots[i] is Some) <==> exists|j: int|
        0 <= j < calls.len() && (#[trigger] calls[j]).0 == plan.slots@[i].name@) by {
        assert(names[i] == plan.slots@[i].name@);
        lemma_completion(names, calls, i);
    }
}

/// Idempotence of a setter: setting the same field twice leaves only
/// the later value; the earlier call is overwritten entirely.
pub proof fn lemma_setter_overwrites<V>(
    names: Seq<Seq<char>>,
    slots: Seq<Option<V>>,
    name: Seq<char>,
    v1: V,
    v2: V,
)
    ensures
        set_model(names, set_model(names, slots, name, v1), name, v2) == set_model(
            names,
            slots,
            name,
            v2,
        ),
{
    assert(set_model(names, set_model(names, slots, name, v1), name, v2) =~= set_model(
        names,
        slots,
        name,
        v2,
    ));
}

/// With each field named at most once, the latest call for `name` is
/// just the call for `name`, characterized by membership.
proof fn lemma_last_set_value_unique<V>(calls: Seq<(Seq<char>, V)>, name: Seq<char>)
    requires
        forall|j: int, k: int| 0 <= j < k < calls.len() ==> calls[j].0 != calls[k].0,
    ensures
        match last_set_value(calls, name) {
            Some(v) => calls.contains((name, v)),
            None => forall|j: int| 0 <= j < calls.len() ==> (#[trigger] calls[j]).0 != name,
        },
        forall|v: V| calls.contains((name, v)) ==> last_set_value(calls, name) == Some(v),
    decreases calls.len(),
{
    if calls.len() > 0 {
        assert forall|j: int, k: int| 0 <= j < k < calls.drop_last().len()
            implies calls.drop_last()[j].0 != calls.drop_last()[k].0 by {
            assert(calls.drop_last()[j] == calls[j]);
            assert(calls.drop_last()[k] == calls[k]);
        }
        lemma_last_set_value_unique(calls.drop_last(), name);
        match last_set_value(calls, name) {
            Some(v) => {
                if calls.last().0 == name {
                    assert(calls[calls.len() - 1] == (name, v));
                } else {
                    let j = choose|j: int| 0 <= j < calls.drop_last().len()
                        && calls.drop_last()[j] == (name, v);
                    assert(calls[j] == (name, v));
                }
            },
            None => {
                assert forall|j: int| 0 <= j < calls.len()
                    implies (#[trigger] calls[j]).0 != name by {
                    if j < calls.len() - 1 {
                        assert(calls.drop_last()[j] == calls[j]);
                    }
                }
            },
        }
        assert forall|v: V| calls.contains((name, v))
            implies last_set_value(calls, name) == Some(v) by {
            let j = choose|j: int| 0 <= j < calls.len() && calls[j] == (name, v);
            if j < calls.len() - 1 {
                assert(calls.drop_last()[j] == calls[j]);
                assert(calls.drop_last().contains((name, v)));
                assert(calls.last().0 != name);
            }
        }
    }
}

/// Order independence: two sequences of setter calls that are
/// rearrangements of one another, in which each field name occurs at
/// most once, leave the slots identical; finalizing either builder
/// therefore yields the same record.
pub proof fn lemma_order_independence<V>(
    names: Seq<Seq<char>>,
    slots: Seq<Option<V>>,
    calls1: Seq<(Seq<char>, V)>,
    calls2: Seq<(Seq<char>, V)>,
)
    requires
        names.len() == slots.len(),
        calls1.to_multiset() == calls2.to_multiset(),
        forall|j: int, k: int| 0 <= j < k < calls1.len() ==> calls1[j].0 != calls1[k].0,
    ensures
        apply_calls(names, slots, calls1) == apply_calls(names, slots, calls2),
{
    broadcast use vstd::seq_lib::group_to_multiset_ensures;

    assert forall|c: (Seq<char>, V)| calls1.contains(c) implies calls2.contains(c) by {
        assert(calls1.to_multiset().count(c) > 0);
    }
    assert forall|c: (Seq<char>, V)| calls2.contains(c) implies calls1.contains(c) by {
        assert(calls2.to_multiset().count(c) > 0);
    }
    assert(calls1.no_duplicates()) by {
        assert forall|j: int, k: int|
            0 <= j < calls1.len() && 0 <= k < calls1.len() && j != k
            implies calls1[j] != calls1[k] by {
            if j < k {
                assert(calls1[j].0 != calls1[k].0);
            } else {
                assert(calls1[k].0 != calls1[j].0);
            }
        }
    }
    calls1.lemma_multiset_has_no_duplicates();
    calls2.lemma_multiset_has_no_duplicates_conv();
    assert forall|j: int, k: int| 0 <= j < k < calls2.len()
        implies calls2[j].0 != calls2[k].0 by {
        if calls2[j].0 == calls2[k].0 {
            assert(calls2.contains(calls2[j]));
            assert(calls2.contains(calls2[k]));
            let a = choose|a: int| 0 <= a < calls1.len() && calls1[a] == calls2[j];
            let b = choose|b: int| 0 <= b < calls1.len() && calls1[b] == calls2[k];
            assert(a != b);
            assert(calls1[a].0 == calls1[b].0);
            assert(false);
        }
    }
    lemma_apply_calls_len(names, slots, calls1);
    lemma_apply_calls_len(names, slots, calls2);
    assert forall|i: int| 0 <= i < slots.len()
        implies apply_calls(names, slots, calls1)[i] == apply_calls(names, slots, calls2)[i] by {
        lemma_apply_calls_slot(names, slots, calls1, i);
        lemma_apply_calls_slot(names, slots, calls2, i);
        lemma_same_last_set_value(calls1, calls2, names[i]);
    }
    assert(apply_calls(names, slots, calls1) =~= apply_calls(names, slots, calls2));
}

/// A sequence of setter calls never changes how many slots there are.
pub proof fn lemma_apply_calls_len<V>(
    names: Seq<Seq<char>>,
    slots: Seq<Option<V>>,
    calls: Seq<(Seq<char>, V)>,
)
    ensures
        apply_calls(names, slots, calls).len() == slots.len(),
    decreases calls.len(),
{
    if calls.len() > 0 {
        lemma_apply_calls_len(names, slots, calls.drop_last());
    }
}

/// Two rearranged call sequences with at-most-once field names agree
/// on the latest value stored under every name.
proof fn lemma_same_last_set_value<V>(
    calls1: Seq<(Seq<char>, V)>,
    calls2: Seq<(Seq<char>, V)>,
    name: Seq<char>,
)
    requires
        forall|j: int, k: int| 0 <= j < k < calls1.len() ==> calls1[j].0 != calls1[k].0,
        forall|j: int, k: int| 0 <= j < k < calls2.len() ==> calls2[j].0 != calls2[k].0,
        forall|c: (Seq<char>, V)| calls1.contains(c) <==> calls2.contains(c),
    ensures
        last_set_value(calls1, name) == last_set_value(calls2, name),
{
    lemma_last_set_value_unique(calls1, name);
    lemma_last_set_value_unique(calls2, name);
    match last_set_value(calls1, name) {
        Some(v) => {
            assert(calls2.contains((name, v)));
        },
        None => {
            match last_set_value(calls2, name) {
                Some(v) => {
                    assert(calls1.contains((name, v)));
                    let j = choose|j: int| 0 <= j < calls1.len() && calls1[j] == (name, v);
                    assert(calls1[j].0 == name);
                    assert(false);
                },
                None => {},
            }
        },
    }
}

} // verus!
