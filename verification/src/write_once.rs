//! Abstract model of the write-once upgrade protocol that both cells
//! share.  A cell's visible state is an `Option<T>`; the one-shot
//! store either upgrades `None` to `Some` or leaves a populated state
//! exactly as it is.  The lemmas here state the protocol's laws over
//! whole sequences of attempted stores: populated states are stable,
//! and of any number of racing stores on an empty cell exactly the
//! first is accepted.

use vstd::prelude::*;

verus! {

/// The state after one attempted one-shot store of `value`: an empty
/// state is upgraded, a populated state is left untouched.
pub open spec fn store_effect<T>(state: Option<T>, value: T) -> Option<T> {
    match state {
        None => Some(value),
        Some(_) => state,
    }
}

/// Whether a one-shot store is accepted in `state`: exactly when the
/// state is still empty.
pub open spec fn store_accepted<T>(state: Option<T>) -> bool {
    state is None
}

/// The state after a whole sequence of attempted one-shot stores.
pub open spec fn store_all<T>(state: Option<T>, values: Seq<T>) -> Option<T>
    decreases values.len(),
{
    if values.len() == 0 {
        state
    } else {
        store_all(store_effect(state, values[0]), values.drop_first())
    }
}

/// How many of a sequence of attempted one-shot stores are accepted.
pub open spec fn accepted_count<T>(state: Option<T>, values: Seq<T>) -> nat
    decreases values.len(),
{
    if values.len() == 0 {
        0
    } else {
        (if store_accepted(state) {
            1nat
        } else {
            0nat
        }) + accepted_count(store_effect(state, values[0]), values.drop_first())
    }
}

/// A populated state is a fixed point of the one-shot store path: any
/// sequence of further store attempts leaves it exactly as it is, and
/// none of them is accepted.
pub proof fn lemma_populated_is_frozen<T>(state: Option<T>, values: Seq<T>)
    requires
        state is Some,
    ensures
        store_all(state, values) == state,
        accepted_count(state, values) == 0,
    decreases values.len(),
{
    if values.len() > 0 {
        lemma_populated_is_frozen(store_effect(state, values[0]), values.drop_first());
    }
}

/// Monotonicity: once the state has been observed populated after some
/// prefix of the store attempts, every later prefix — and so every
/// later read that sees only one-shot stores in between — observes the
/// same populated state, never an empty one.
pub proof fn lemma_store_monotonic<T>(state: Option<T>, values: Seq<T>, i: int, j: int)
    requires
        0 <= i <= j <= values.len(),
        store_all(state, values.take(i)) is Some,
    ensures
        store_all(state, values.take(j)) == store_all(state, values.take(i)),
        store_all(state, values.take(j)) is Some,
    decreases j - i,
{
    if i < j {
        lemma_store_all_snoc(state, values.take(i + 1));
        assert(values.take(i + 1).drop_last() =~= values.take(i));
        lemma_store_monotonic(state, values, i + 1, j);
    }
}

/// Splitting off the last store attempt: running a non-empty sequence
/// is running all but the last and then the last alone.
proof fn lemma_store_all_snoc<T>(state: Option<T>, values: Seq<T>)
    requires
        values.len() > 0,
    ensures
        store_all(state, values) == store_effect(
            store_all(state, values.drop_last()),
            values.last(),
        ),
    decreases values.len(),
{
    if values.len() == 1 {
        assert(values.drop_last() =~= Seq::<T>::empty());
        assert(values.drop_first() =~= Seq::<T>::empty());
    } else {
        lemma_store_all_snoc(store_effect(state, values[0]), values.drop_first());
        assert(values.drop_first().drop_last() =~= values.drop_last().drop_first());
        assert(values.drop_first().last() == values.last());
        assert(values.drop_last()[0] == values[0]);
        assert(values.drop_last().len() > 0);
    }
}

/// Running any non-empty sequence of store attempts on an empty cell
/// leaves the cell holding the first value.
proof fn lemma_first_store_wins<T>(values: Seq<T>)
    requires
        values.len() > 0,
    ensures
        store_all(None::<T>, values) == Some(values[0]),
{
    lemma_populated_is_frozen(Some(values[0]), values.drop_first());
}

/// Single winner: of any number of store attempts racing on an empty
/// cell, exactly the first is accepted; the cell then holds the first
/// value and reports it on every read, and each later attempt finds
/// the cell populated and is rejected.
pub proof fn lemma_single_winner<T>(values: Seq<T>)
    requires
        values.len() > 0,
    ensures
        store_all(None::<T>, values) == Some(values[0]),
        accepted_count(None::<T>, values) == 1,
        forall|k: int|
            1 <= k < values.len() ==> !store_accepted(
                #[trigger] store_all(None::<T>, values.take(k)),
            ),
{
    lemma_first_store_wins(values);
    lemma_populated_is_frozen(Some(values[0]), values.drop_first());
    assert forall|k: int| 1 <= k < values.len() implies !store_accepted(
        #[trigger] store_all(None::<T>, values.take(k)),
    ) by {
        assert(values.take(k)[0] == values[0]);
        lemma_first_store_wins(values.take(k));
    }
}

} // verus!
