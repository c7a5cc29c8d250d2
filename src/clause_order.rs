//! Configuring a statement is a sequence of steps, each on one clause slot. When
//! steps on different slots commute, the order in which distinct slots are
//! configured does not change the result.
use vstd::prelude::*;

verus! {

broadcast use vstd::seq_lib::group_seq_properties;

/// Applies `ops` to `d`, first to last.
pub open spec fn apply_all<D, O>(step: spec_fn(D, O) -> D, d: D, ops: Seq<O>) -> D
    decreases ops.len(),
{
    if ops.len() == 0 {
        d
    } else {
        apply_all(step, step(d, ops[0]), ops.skip(1))
    }
}

/// Steps on different slots commute.
pub open spec fn slots_commute<D, O>(step: spec_fn(D, O) -> D, slot: spec_fn(O) -> nat) -> bool {
    forall|d: D, a: O, b: O|
        slot(a) != slot(b) ==> #[trigger] step(step(d, a), b) == step(step(d, b), a)
}

/// No two of `ops` configure the same slot.
pub open spec fn distinct_slots<O>(slot: spec_fn(O) -> nat, ops: Seq<O>) -> bool {
    forall|i: int, j: int| 0 <= i < j < ops.len() ==> slot(#[trigger] ops[i]) != slot(#[trigger] ops[j])
}

pub proof fn lemma_apply_append<D, O>(step: spec_fn(D, O) -> D, d: D, xs: Seq<O>, ys: Seq<O>)
    ensures
        apply_all(step, d, xs + ys) == apply_all(step, apply_all(step, d, xs), ys),
    decreases xs.len(),
{
    if xs.len() == 0 {
        assert(xs + ys =~= ys);
    } else {
        assert((xs + ys).skip(1) =~= xs.skip(1) + ys);
        assert((xs + ys)[0] == xs[0]);
        lemma_apply_append(step, step(d, xs[0]), xs.skip(1), ys);
    }
}

/// A step whose slot no step of `xs` touches can move from after `xs` to before it.
pub proof fn lemma_move_to_front<D, O>(
    step: spec_fn(D, O) -> D,
    slot: spec_fn(O) -> nat,
    d: D,
    xs: Seq<O>,
    a: O,
)
    requires
        slots_commute(step, slot),
        forall|k: int| 0 <= k < xs.len() ==> slot(#[trigger] xs[k]) != slot(a),
    ensures
        apply_all(step, d, xs.push(a)) == apply_all(step, step(d, a), xs),
    decreases xs.len(),
{
    if xs.len() == 0 {
        assert(seq![a].skip(1) =~= Seq::<O>::empty());
        assert(xs.push(a) =~= seq![a]);
    } else {
        let x = xs[0];
        let rest = xs.skip(1);
        assert(xs.push(a).skip(1) =~= rest.push(a));
        assert(forall|k: int| 0 <= k < rest.len() ==> rest[k] == xs[k + 1]);
        lemma_move_to_front(step, slot, step(d, x), rest, a);
        assert(step(step(d, x), a) == step(step(d, a), x));
    }
}

/// Applying steps on pairwise distinct slots gives the same result in any order.
pub proof fn lemma_order_free<D, O>(
    step: spec_fn(D, O) -> D,
    slot: spec_fn(O) -> nat,
    d: D,
    ops1: Seq<O>,
    ops2: Seq<O>,
)
    requires
        slots_commute(step, slot),
        distinct_slots(slot, ops1),
        ops1.to_multiset() == ops2.to_multiset(),
    ensures
        apply_all(step, d, ops1) == apply_all(step, d, ops2),
    decreases ops1.len(),
{
    ops1.to_multiset_ensures();
    ops2.to_multiset_ensures();
    if ops1.len() == 0 {
        assert(ops2.len() == 0);
    } else {
        let a = ops1[0];
        let rest = ops1.skip(1);
        assert(ops1.contains(a));
        assert(ops1.to_multiset().count(a) > 0);
        assert(ops2.to_multiset().count(a) > 0);
        assert(ops2.contains(a));
        let j = lemma_first_index(ops2, a);
        let xs = ops2.take(j);
        let ys = ops2.skip(j + 1);
        assert(ops2 =~= xs.push(a) + ys);
        assert(ops2.remove(j) =~= xs + ys);
        assert(ops1.remove(0) =~= rest);
        assert(rest.to_multiset() == (xs + ys).to_multiset());
        assert forall|k: int| 0 <= k < xs.len() implies slot(#[trigger] xs[k]) != slot(a) by {
            let x = xs[k];
            assert(ops2[k] == x);
            assert(ops2.contains(x));
            assert(ops2.to_multiset().count(x) > 0);
            assert(ops1.to_multiset().count(x) > 0);
            assert(ops1.contains(x));
            let i = choose|i: int| 0 <= i < ops1.len() && ops1[i] == x;
            assert(x != a);
            assert(i != 0);
            assert(slot(ops1[0]) != slot(ops1[i]));
        }
        assert(distinct_slots(slot, rest)) by {
            assert forall|i: int, k: int| 0 <= i < k < rest.len() implies slot(#[trigger] rest[i])
                != slot(#[trigger] rest[k]) by {
                assert(rest[i] == ops1[i + 1] && rest[k] == ops1[k + 1]);
            }
        }
        lemma_apply_append(step, d, xs.push(a), ys);
        lemma_move_to_front(step, slot, d, xs, a);
        lemma_apply_append(step, step(d, a), xs, ys);
        lemma_order_free(step, slot, step(d, a), rest, xs + ys);
    }
}

/// The first position of `a` in `s`.
pub proof fn lemma_first_index<A>(s: Seq<A>, a: A) -> (j: int)
    requires
        s.contains(a),
    ensures
        0 <= j < s.len(),
        s[j] == a,
        forall|k: int| 0 <= k < j ==> s[k] != a,
    decreases s.len(),
{
    let init = s.drop_last();
    if init.contains(a) {
        let i = choose|i: int| 0 <= i < init.len() && init[i] == a;
        let j = lemma_first_index(init, a);
        assert forall|k: int| 0 <= k < j implies s[k] != a by {
            assert(s[k] == init[k]);
        }
        assert(s[j] == init[j]);
        j
    } else {
        let i = choose|i: int| 0 <= i < s.len() && s[i] == a;
        assert forall|k: int| 0 <= k < s.len() - 1 implies s[k] != a by {
            if s[k] == a {
                assert(init[k] == a);
                assert(init.contains(a));
            }
        }
        s.len() - 1
    }
}

} // verus!
