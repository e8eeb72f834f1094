//! What holds of every slot and every scope, proved over the views that the
//! contracts of [`crate::LocalKey`] and [`crate::TaskLocalFuture`] speak of.

use crate::future::FutureView;
use crate::key::KeyView;
use vstd::prelude::*;

verus! {

/// The slot `k` after scopes with the values `values` were entered one
/// inside the other, the outermost first.
pub open spec fn nest<T>(k: KeyView<T>, values: Seq<T>) -> KeyView<T>
    decreases values.len(),
{
    if values.len() == 0 {
        k
    } else {
        nest(k, values.drop_last()).swapped_in(Some(values.last()))
    }
}

/// A wrapper and its slot after one resumption step that leaves in the slot
/// what it found there: the step swaps the wrapper's value in, the
/// computation becomes `rest`, and the step swaps out again.
pub open spec fn quiet_step<T, F>(fut: FutureView<T, F>, k: KeyView<T>, rest: Option<F>) -> (
    FutureView<T, F>,
    KeyView<T>,
) {
    let entered = k.swapped_in(fut.value);
    (FutureView { value: entered.value, inner: rest }, entered.swapped_out(k.value))
}

/// Leaving a scope undoes entering it: a slot that could be entered is,
/// after the swap-out, exactly what it was before the swap-in, and the value
/// that the scope carried comes back out of the slot.
pub proof fn lemma_exit_undoes_enter<T>(k: KeyView<T>, slot: Option<T>)
    requires
        !k.blocked(),
    ensures
        k.swapped_in(slot).value == slot,
        k.swapped_in(slot).swapped_out(k.value) == k,
{
    assert(k.swapped_in(slot).swapped_out(k.value).guard == k.guard);
}

/// Restoration. For scopes nested to any depth on a slot of one execution
/// context: inside the innermost scope a read finds that scope's value, and
/// when it exits the slot is exactly what its parent saw, holding the
/// parent's value, or what the slot held at first if there is no parent.
pub proof fn lemma_restoration<T>(k: KeyView<T>, values: Seq<T>)
    requires
        !k.is_shared(),
        values.len() > 0,
    ensures
        !nest(k, values).is_shared(),
        nest(k, values).readable(),
        nest(k, values).value == Some(values.last()),
        nest(k, values).swapped_out(nest(k, values.drop_last()).value) == nest(
            k,
            values.drop_last(),
        ),
        nest(k, values.drop_last()).value == if values.len() == 1 {
            k.value
        } else {
            Some(values[values.len() - 2])
        },
    decreases values.len(),
{
    let parent = values.drop_last();
    if parent.len() > 0 {
        lemma_restoration(k, parent);
        assert(parent.last() == values[values.len() - 2]);
    }
    lemma_exit_undoes_enter(nest(k, parent), Some(values.last()));
}

/// After the outermost scope on a slot that was empty, a read finds nothing.
pub proof fn lemma_empty_after_outermost_scope<T>(k: KeyView<T>, value: T)
    requires
        k.value is None,
        !k.blocked(),
    ensures
        !k.swapped_in(Some(value)).swapped_out(k.value).readable(),
{
}

/// Persistence across a suspension. A step that suspends leaves the slot as
/// it was before the step and the value with the wrapper, so the next step
/// enters exactly the scope that this one entered.
pub proof fn lemma_value_survives_suspension<T, F>(
    fut: FutureView<T, F>,
    k: KeyView<T>,
    rest: Option<F>,
)
    requires
        !k.blocked(),
    ensures
        quiet_step(fut, k, rest).0.value == fut.value,
        quiet_step(fut, k, rest).1 == k,
        quiet_step(fut, k, rest).1.swapped_in(quiet_step(fut, k, rest).0.value) == k.swapped_in(
            fut.value,
        ),
{
    lemma_exit_undoes_enter(k, fut.value);
}

/// Independence. Two computations that take turns on one slot each find
/// their own value in every step, whatever the other one holds, and the slot
/// is between the steps what it was before them.
pub proof fn lemma_interleaved_steps_are_independent<T, F, G>(
    a: FutureView<T, F>,
    b: FutureView<T, G>,
    k: KeyView<T>,
    rest_a: Option<F>,
    rest_b: Option<G>,
)
    requires
        !k.blocked(),
    ensures
        ({
            let (a1, k1) = quiet_step(a, k, rest_a);
            let (b1, k2) = quiet_step(b, k1, rest_b);
            &&& k.swapped_in(a.value).value == a.value
            &&& k1.swapped_in(b.value).value == b.value
            &&& k2.swapped_in(a1.value).value == a.value
            &&& b1.value == b.value
            &&& k1 == k
            &&& k2 == k
        }),
{
    lemma_value_survives_suspension(a, k, rest_a);
    lemma_value_survives_suspension(b, k, rest_b);
}

/// Reentrancy. While a scope is inside a shared slot the slot is blocked:
/// every further entry is rejected until the scope has left, and then the
/// slot can be entered again.
pub proof fn lemma_shared_slot_admits_one_scope<T>(k: KeyView<T>, slot: Option<T>)
    requires
        k.is_shared(),
    ensures
        k.swapped_in(slot).blocked(),
        !k.swapped_in(slot).swapped_out(k.value).blocked(),
{
}

/// A slot of one execution context is never blocked, at any depth of
/// nesting.
pub proof fn lemma_context_slot_is_never_blocked<T>(k: KeyView<T>, values: Seq<T>)
    requires
        !k.is_shared(),
    ensures
        !nest(k, values).blocked(),
    decreases values.len(),
{
    if values.len() > 0 {
        lemma_context_slot_is_never_blocked(k, values.drop_last());
    }
}

} // verus!
