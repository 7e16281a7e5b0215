//! Per-call-site state handles.
//!
//! [`use_state`] runs the fetch-or-create protocol against the store for
//! one identity and hands back a copyable [`LocalState`] handle bound to
//! that identity. The handle never holds the value itself: every access
//! re-enters the store, removing the value, applying the caller's
//! function, and reinserting the result, so no reference into the storage
//! outlives the access.

use crate::store::lemma_exists_implies_key;
use crate::store::touch_step;
use crate::store::Id;
use crate::store::Store;
use core::marker::PhantomData;
use vstd::prelude::*;

verus! {

/// A lightweight, copyable token bound to one identity and one value
/// type. Obtained from [`use_state`], which guarantees that a value for
/// the identity sits in the current generation.
pub struct LocalState<T> {
    id: Id,
    _phantom_data: PhantomData<T>,
}

impl<T> LocalState<T> {
    /// The identity this handle is bound to.
    pub closed spec fn id_spec(self) -> Id {
        self.id
    }
}

impl<T> Clone for LocalState<T> {
    fn clone(&self) -> (r: LocalState<T>)
        ensures
            r == *self,
    {
        LocalState { id: self.id, _phantom_data: PhantomData }
    }
}

impl<T> Copy for LocalState<T> {

}

/// Removes the value for `id` from the current generation, applies `func`
/// to it by shared reference, reinserts it, and returns what `func`
/// returned. The store is left exactly as it was.
pub(crate) fn read_state_with_id<T, R, F: FnOnce(&T) -> R>(
    store: &mut Store<T>,
    id: Id,
    func: F,
) -> (r: R)
    requires
        old(store).wf(),
        old(store).cur_map().contains_key(id.id),
        call_requires(func, (&old(store).cur_map()[id.id],)),
    ensures
        final(store).wf(),
        final(store).cur_map() == old(store).cur_map(),
        final(store).stale_map() == old(store).stale_map(),
        final(store).key_map() == old(store).key_map(),
        final(store).slots() == old(store).slots(),
        call_ensures(func, (&old(store).cur_map()[id.id],), r),
{
    proof {
        lemma_exists_implies_key(*old(store), id.id);
    }
    let taken = store.remove_state_with_id(id);
    match taken {
        Some(item) => {
            let r = func(&item);
            store.set_state_with_id(item, id);
            proof {
                assert(store.cur_map() =~= old(store).cur_map());
            }
            r
        },
        None => vstd::pervasive::unreached(),
    }
}

/// Removes the value for `id` from the current generation, hands it to
/// `func` by value, and reinserts the value `func` returns alongside the
/// extra result that is passed through to the caller.
pub(crate) fn update_state_with_id<T, U, F: FnOnce(T) -> (T, U)>(
    store: &mut Store<T>,
    id: Id,
    func: F,
) -> (r: U)
    requires
        old(store).wf(),
        old(store).cur_map().contains_key(id.id),
        call_requires(func, (old(store).cur_map()[id.id],)),
    ensures
        final(store).wf(),
        final(store).cur_map().contains_key(id.id),
        final(store).cur_map() == old(store).cur_map().insert(
            id.id,
            final(store).cur_map()[id.id],
        ),
        call_ensures(
            func,
            (old(store).cur_map()[id.id],),
            (final(store).cur_map()[id.id], r),
        ),
        final(store).stale_map() == old(store).stale_map(),
        final(store).key_map() == old(store).key_map(),
        final(store).slots() == old(store).slots(),
{
    proof {
        lemma_exists_implies_key(*old(store), id.id);
    }
    let taken = store.remove_state_with_id(id);
    match taken {
        Some(item) => {
            let (updated, r) = func(item);
            store.set_state_with_id(updated, id);
            r
        },
        None => vstd::pervasive::unreached(),
    }
}

/// Creates new local state from `data_fn`, or provides a handle to the
/// local state if it already exists.
///
/// This is the fetch-or-create protocol: a brand-new identity gets a
/// fresh value from the factory, written to the current generation; an
/// identity that already has a value somewhere gets that value moved into
/// the current generation, and the factory is never consulted for it.
pub fn use_state<T, F: FnOnce() -> T>(store: &mut Store<T>, id: Id, data_fn: F) -> (h: LocalState<
    T,
>)
    requires
        old(store).wf(),
        call_requires(data_fn, ()),
        old(store).key_map().contains_key(id.id) || old(store).slots() < u64::MAX,
    ensures
        h.id_spec() == id,
        final(store).wf(),
        final(store).cur_map().contains_key(id.id),
        !old(store).exists_spec(id.id) ==> call_ensures(
            data_fn,
            (),
            final(store).cur_map()[id.id],
        ) && final(store).cur_map() == old(store).cur_map().insert(
            id.id,
            final(store).cur_map()[id.id],
        ) && final(store).stale_map() == old(store).stale_map(),
        old(store).exists_spec(id.id) ==> touch_step(*old(store), *final(store), id.id),
        final(store).key_map().contains_key(id.id),
        old(store).key_map().contains_key(id.id) ==> final(store).key_map() == old(
            store,
        ).key_map() && final(store).slots() == old(store).slots(),
        !old(store).key_map().contains_key(id.id) ==> final(store).key_map() == old(
            store,
        ).key_map().insert(id.id, old(store).slots()) && final(store).slots() == old(
            store,
        ).slots() + 1,
{
    proof {
        if old(store).exists_spec(id.id) {
            lemma_exists_implies_key(*old(store), id.id);
        }
    }
    if !store.state_exists_with_id(id) {
        let data = data_fn();
        store.set_state_with_id(data, id);
    } else if !store.state_marked_with_id(id) {
        store.mark_state_with_id(id);
    } else {
        proof {
            assert(store.cur_map() =~= store.cur_map().insert(id.id, store.cur_map()[id.id]));
        }
    }
    LocalState { id, _phantom_data: PhantomData }
}

impl<T> LocalState<T> {
    /// Hands the handle's value to `func` by value and stores the value
    /// `func` returns in its place, passing the extra result through.
    /// The handle must have been obtained through [`use_state`] in this
    /// pass, so that its value sits in the current generation.
    pub fn set<U, F: FnOnce(T) -> (T, U)>(self, store: &mut Store<T>, func: F) -> (r: U)
        requires
            old(store).wf(),
            old(store).cur_map().contains_key(self.id_spec().id),
            call_requires(func, (old(store).cur_map()[self.id_spec().id],)),
        ensures
            final(store).wf(),
            final(store).cur_map().contains_key(self.id_spec().id),
            final(store).cur_map() == old(store).cur_map().insert(
                self.id_spec().id,
                final(store).cur_map()[self.id_spec().id],
            ),
            call_ensures(
                func,
                (old(store).cur_map()[self.id_spec().id],),
                (final(store).cur_map()[self.id_spec().id], r),
            ),
            final(store).stale_map() == old(store).stale_map(),
            final(store).key_map() == old(store).key_map(),
            final(store).slots() == old(store).slots(),
    {
        update_state_with_id(store, self.id, func)
    }

    /// Applies `func` to the handle's value by shared reference and
    /// returns the result, leaving the store as it was. The handle must
    /// have been obtained through [`use_state`] in this pass.
    pub fn get<R, F: FnOnce(&T) -> R>(self, store: &mut Store<T>, func: F) -> (r: R)
        requires
            old(store).wf(),
            old(store).cur_map().contains_key(self.id_spec().id),
            call_requires(func, (&old(store).cur_map()[self.id_spec().id],)),
        ensures
            final(store).wf(),
            final(store).cur_map() == old(store).cur_map(),
            final(store).stale_map() == old(store).stale_map(),
            final(store).key_map() == old(store).key_map(),
            final(store).slots() == old(store).slots(),
            call_ensures(func, (&old(store).cur_map()[self.id_spec().id],), r),
    {
        read_state_with_id(store, self.id, func)
    }
}

} // verus!
