//! Laws of the generational reclamation scheme.
//!
//! These proof functions state, over the store's abstract maps, what the
//! fetch-or-create protocol and the sweep guarantee when composed across
//! calls and passes: touching an already-current identity changes
//! nothing, one sweep reclaims exactly what was not touched, and an
//! identity touched in every pass keeps its value through arbitrarily
//! many sweeps.

use crate::store::sweep_step;
use crate::store::touch_step;
use crate::store::Store;
use vstd::prelude::*;

verus! {

/// Touching an identity whose value already sits in the current
/// generation is a no-op: the stored value is not changed and nothing is
/// moved, however often the creation path runs within one pass.
pub proof fn lemma_repeat_touch_is_noop<T>(pre: Store<T>, post: Store<T>, id: u64)
    requires
        pre.cur_map().contains_key(id),
        touch_step(pre, post, id),
    ensures
        post.cur_map() == pre.cur_map(),
        post.stale_map() == pre.stale_map(),
        post.value_of(id) == pre.value_of(id),
{
    assert(pre.cur_map().insert(id, pre.cur_map()[id]) =~= pre.cur_map());
}

/// An identity not touched during the pass that a sweep ends does not
/// survive it: whatever either generation held for it before is gone.
pub proof fn lemma_sweep_reclaims_untouched<T>(pre: Store<T>, post: Store<T>, id: u64)
    requires
        !pre.cur_map().contains_key(id),
        sweep_step(pre, post),
    ensures
        !post.exists_spec(id),
{
}

/// An identity touched during the pass that a sweep ends survives it,
/// with its value unchanged, sitting in the stale generation.
pub proof fn lemma_sweep_retains_touched<T>(pre: Store<T>, post: Store<T>, id: u64)
    requires
        pre.cur_map().contains_key(id),
        sweep_step(pre, post),
    ensures
        post.exists_spec(id),
        post.value_of(id) == pre.cur_map()[id],
{
}

/// One full pass for an identity that has a value: it is touched once
/// (further touches change nothing, see [`lemma_repeat_touch_is_noop`])
/// and the pass ends with a sweep.
pub open spec fn pass_step<T>(pre: Store<T>, post: Store<T>, id: u64) -> bool {
    exists|mid: Store<T>| touch_step(pre, mid, id) && sweep_step(mid, post)
}

/// A pass in which an identity is touched carries its value through the
/// pass-ending sweep unchanged.
pub proof fn lemma_pass_preserves_value<T>(pre: Store<T>, post: Store<T>, id: u64, v: T)
    requires
        pre.exists_spec(id),
        pre.value_of(id) == v,
        pass_step(pre, post, id),
    ensures
        post.exists_spec(id),
        post.value_of(id) == v,
{
    let mid = choose|mid: Store<T>| touch_step(pre, mid, id) && sweep_step(mid, post);
    assert(mid.cur_map().contains_key(id) && mid.cur_map()[id] == v);
    lemma_sweep_retains_touched(mid, post, id);
}

/// An identity touched in every pass keeps its value across arbitrarily
/// many sweeps: given any chain of store states each reached from the
/// previous by one pass that touches `id`, the value the chain started
/// with is still there at its end, never reclaimed and never re-created.
pub proof fn lemma_retention<T>(states: Seq<Store<T>>, id: u64, v: T)
    requires
        states.len() >= 1,
        states[0].exists_spec(id),
        states[0].value_of(id) == v,
        forall|i: int|
            0 <= i < states.len() - 1 ==> #[trigger] pass_step(states[i], states[i + 1], id),
    ensures
        states.last().exists_spec(id),
        states.last().value_of(id) == v,
    decreases states.len(),
{
    if states.len() > 1 {
        let zero: int = 0;
        assert(pass_step(states[zero], states[zero + 1], id));
        lemma_pass_preserves_value(states[0], states[1], id, v);
        let rest = states.subrange(1, states.len() as int);
        assert forall|i: int| 0 <= i < rest.len() - 1 implies #[trigger] pass_step(
            rest[i],
            rest[i + 1],
            id,
        ) by {
            assert(pass_step(states[i + 1], states[i + 1 + 1], id));
            assert(rest[i] == states[i + 1]);
            assert(rest[i + 1] == states[i + 1 + 1]);
        }
        lemma_retention(rest, id, v);
        assert(rest.last() == states.last());
    }
}

} // verus!
