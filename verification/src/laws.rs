//! Laws of the core, stated over the abstract state and proved once and for
//! all: how the rotation signal behaves under every sequence of calls, and
//! what the admin operations leave behind.
//!
//! `step` is the one-call transition; each arm is exactly the spec that the
//! corresponding executable entry point's `ensures` pins its result and its
//! new state to, so everything proved of `step` and `run` holds of the
//! executable interface as well.

use vstd::prelude::*;

use crate::registry::{Error, Origin, ValidatorId, ValidatorSetView};

verus! {

/// One call into the core, as seen at its boundary.
pub enum Op {
    AddValidator(Origin, ValidatorId),
    RemoveValidator(Origin, ValidatorId),
    NewSession(u32),
    ShouldEndSession(u64),
    GetValidators,
    IsRotationPending,
    StartSession(u32),
    EndSession(u32),
}

/// The state after one call. The admin operations and `new_session` move the
/// state exactly as the contracts of their executable counterparts say; the
/// queries and the reserved session hooks leave it alone.
pub open spec fn step(v: ValidatorSetView, op: Op) -> ValidatorSetView {
    match op {
        Op::AddValidator(origin, id) => v.after_add(origin, id),
        Op::RemoveValidator(origin, id) => v.after_remove(origin, id),
        Op::NewSession(_) => v.after_new_session(),
        _ => v,
    }
}

/// The state after a whole sequence of calls, earliest call first.
pub open spec fn run(v: ValidatorSetView, ops: Seq<Op>) -> ValidatorSetView
    decreases ops.len(),
{
    if ops.len() == 0 {
        v
    } else {
        step(run(v, ops.drop_last()), ops.last())
    }
}

/// Whether `op`, called in state `v`, is an admin mutation that goes through.
pub open spec fn is_successful_mutation(v: ValidatorSetView, op: Op) -> bool {
    match op {
        Op::AddValidator(origin, _) => v.mutation_allowed(origin),
        Op::RemoveValidator(origin, _) => v.mutation_allowed(origin),
        _ => false,
    }
}

pub open spec fn is_new_session(op: Op) -> bool {
    op is NewSession
}

/// Whether, after running `ops` from `v0`, a membership change is still owed
/// its extra rotation: some successful mutation happened and no `new_session`
/// came after it — or the signal was armed in `v0` already and no
/// `new_session` happened at all.
pub open spec fn rotation_owed(v0: ValidatorSetView, ops: Seq<Op>) -> bool {
    (exists|i: int|
        0 <= i < ops.len() && #[trigger] is_successful_mutation(run(v0, ops.take(i)), ops[i]) && (
        forall|j: int| i < j < ops.len() ==> !is_new_session(#[trigger] ops[j])))
        || (v0.flag && (forall|j: int| 0 <= j < ops.len() ==> !is_new_session(#[trigger] ops[j])))
}

/// **Idempotent query.** A query moves nothing, and the snapshot that
/// `get_validators` returns is pinned to the registry contents alone, so two
/// queries with no mutation in between return the same sequence.
pub proof fn lemma_query_idempotent(
    v: ValidatorSetView,
    r1: Option<Seq<ValidatorId>>,
    r2: Option<Seq<ValidatorId>>,
)
    requires
        r1 == v.validators,
        r2 == step(v, Op::GetValidators).validators,
    ensures
        r1 == r2,
        step(v, Op::GetValidators) == v,
        step(v, Op::IsRotationPending) == v,
{
}

/// **Add/remove round trip.** From a registry `[a, b]`, adding `c` and then
/// removing it leaves the same identities again; removal may reorder, so the
/// claim is equality up to multiplicity.
pub proof fn lemma_add_remove_round_trip(
    v: ValidatorSetView,
    a: ValidatorId,
    b: ValidatorId,
    c: ValidatorId,
)
    requires
        v.validators == Some(seq![a, b]),
    ensures
        ({
            let w = step(
                step(v, Op::AddValidator(Origin::Root, c)),
                Op::RemoveValidator(Origin::Root, c),
            );
            w.validators is Some && w.validators->Some_0.to_multiset() == seq![
                a,
                b,
            ].to_multiset()
        }),
{
    let s = seq![a, b].push(c);
    s.index_of_first_ensures(c);
    assert(s.contains(c)) by {
        assert(s[2] == c);
    }
    let k = s.index_of_first(c)->Some_0;
    // wherever the first occurrence of `c` sits, swapping the last element
    // (which is `c`) into its place and shortening gives back `[a, b]`
    if k == 0 {
        assert(s.update(0, s.last()).drop_last() =~= seq![a, b]);
    } else if k == 1 {
        assert(s.update(1, s.last()).drop_last() =~= seq![a, b]);
    } else {
        assert(s.update(2, s.last()).drop_last() =~= seq![a, b]);
    }
}

/// **Authorization boundary.** An admin call from any caller other than root
/// changes nothing and reports `Unauthorized`.
pub proof fn lemma_authorization_boundary(
    v: ValidatorSetView,
    caller: ValidatorId,
    id: ValidatorId,
)
    ensures
        step(v, Op::AddValidator(Origin::Signed(caller), id)) == v,
        step(v, Op::RemoveValidator(Origin::Signed(caller), id)) == v,
        v.mutation_result(Origin::Signed(caller)) == Err::<(), Error>(Error::Unauthorized),
{
}

/// **Uninitialized guard.** Before genesis configuration has populated the
/// registry, an admin call even from root changes nothing and reports
/// `UninitializedRegistry`.
pub proof fn lemma_uninitialized_guard(v: ValidatorSetView, id: ValidatorId)
    requires
        v.validators is None,
    ensures
        step(v, Op::AddValidator(Origin::Root, id)) == v,
        step(v, Op::RemoveValidator(Origin::Root, id)) == v,
        v.mutation_result(Origin::Root) == Err::<(), Error>(Error::UninitializedRegistry),
{
}

/// **Coalescing.** Two successful additions before any `new_session` leave a
/// single pending rotation, not two: the signal is armed after both, the
/// next `new_session` clears it, and a further `new_session` finds it
/// already idle.
pub proof fn lemma_coalescing(
    v: ValidatorSetView,
    c1: ValidatorId,
    c2: ValidatorId,
    n1: u32,
    n2: u32,
)
    requires
        v.validators is Some,
    ensures
        ({
            let v1 = step(v, Op::AddValidator(Origin::Root, c1));
            let v2 = step(v1, Op::AddValidator(Origin::Root, c2));
            let v3 = step(v2, Op::NewSession(n1));
            let v4 = step(v3, Op::NewSession(n2));
            v1.flag && v2.flag && !v3.flag && !v4.flag && v3.validators == v2.validators
                && v4.validators == v2.validators
        }),
{
}

/// **Signal lifecycle.** Over every sequence of calls, the rotation signal —
/// what `is_rotation_pending` and `should_end_session` answer — is armed
/// exactly when a successful add or remove has happened since the last
/// `new_session`: it turns true at each successful mutation, false at each
/// `new_session`, and at no other time.
pub proof fn lemma_signal_lifecycle(v0: ValidatorSetView, ops: Seq<Op>)
    ensures
        run(v0, ops).flag == rotation_owed(v0, ops),
    decreases ops.len(),
{
    if ops.len() == 0 {
    } else {
        let pre = ops.drop_last();
        let op = ops.last();
        let n = ops.len() - 1;
        lemma_signal_lifecycle(v0, pre);
        let vpre = run(v0, pre);
        assert(ops.take(n) =~= pre);
        if is_new_session(op) {
            // the call clears the signal, and it also ends every
            // "no new_session afterwards" claim about `ops`
            assert(is_new_session(ops[n]));
            assert forall|i: int| 0 <= i < ops.len() implies !(#[trigger] is_successful_mutation(
                run(v0, ops.take(i)),
                ops[i],
            ) && (forall|j: int| i < j < ops.len() ==> !is_new_session(#[trigger] ops[j]))) by {
                if i == n {
                    assert(!is_successful_mutation(run(v0, ops.take(i)), ops[i]));
                } else {
                    assert(i < n < ops.len() && is_new_session(ops[n]));
                }
            }
            assert(!rotation_owed(v0, ops));
        } else if is_successful_mutation(vpre, op) {
            // the mutation arms the signal, and it is itself the witness
            assert(run(v0, ops).flag);
            assert(is_successful_mutation(run(v0, ops.take(n)), ops[n]));
            assert(rotation_owed(v0, ops));
        } else {
            // a query, a reserved hook, or a rejected mutation: the signal
            // is carried over, and so is the debt
            assert(run(v0, ops).flag == vpre.flag);
            assert(rotation_owed(v0, pre) ==> rotation_owed(v0, ops)) by {
                if rotation_owed(v0, pre) {
                    if v0.flag && (forall|j: int|
                        0 <= j < pre.len() ==> !is_new_session(#[trigger] pre[j])) {
                        assert forall|j: int| 0 <= j < ops.len() implies !is_new_session(
                            #[trigger] ops[j],
                        ) by {
                            if j < n {
                                assert(ops[j] == pre[j]);
                            }
                        }
                    } else {
                        let i = choose|i: int|
                            0 <= i < pre.len() && #[trigger] is_successful_mutation(
                                run(v0, pre.take(i)),
                                pre[i],
                            ) && (forall|j: int|
                                i < j < pre.len() ==> !is_new_session(#[trigger] pre[j]));
                        assert(ops.take(i) =~= pre.take(i));
                        assert(ops[i] == pre[i]);
                        assert(is_successful_mutation(run(v0, ops.take(i)), ops[i]));
                        assert forall|j: int| i < j < ops.len() implies !is_new_session(
                            #[trigger] ops[j],
                        ) by {
                            if j < n {
                                assert(ops[j] == pre[j]);
                            }
                        }
                        assert(rotation_owed(v0, ops));
                    }
                }
            }
            assert(rotation_owed(v0, ops) ==> rotation_owed(v0, pre)) by {
                if rotation_owed(v0, ops) {
                    if v0.flag && (forall|j: int|
                        0 <= j < ops.len() ==> !is_new_session(#[trigger] ops[j])) {
                        assert forall|j: int| 0 <= j < pre.len() implies !is_new_session(
                            #[trigger] pre[j],
                        ) by {
                            assert(pre[j] == ops[j]);
                        }
                    } else {
                        let i = choose|i: int|
                            0 <= i < ops.len() && #[trigger] is_successful_mutation(
                                run(v0, ops.take(i)),
                                ops[i],
                            ) && (forall|j: int|
                                i < j < ops.len() ==> !is_new_session(#[trigger] ops[j]));
                        // i cannot be the last call: that call is, by this
                        // branch, no successful mutation
                        assert(i != n) by {
                            if i == n {
                                assert(run(v0, ops.take(n)) == vpre);
                            }
                        }
                        assert(ops.take(i) =~= pre.take(i));
                        assert(pre[i] == ops[i]);
                        assert(is_successful_mutation(run(v0, pre.take(i)), pre[i]));
                        assert forall|j: int| i < j < pre.len() implies !is_new_session(
                            #[trigger] pre[j],
                        ) by {
                            assert(pre[j] == ops[j]);
                        }
                        assert(rotation_owed(v0, pre));
                    }
                }
            }
        }
    }
}

} // verus!
