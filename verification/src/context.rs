//! Ancestor-to-descendant shared values.
//!
//! A [`Context`] shares one value between the position that set it and
//! any position that reads it. It is bound to a fixed identity of its
//! own, handed out by the identity provider for the context's creation
//! counter, rather than to the reader's position, so every reader reaches
//! the same store entry. The value is kept behind shared ownership
//! ([`Rc`]), so readers observe the very same value without cloning it.

use crate::state::read_state_with_id;
use crate::store::touch_step;
use crate::store::Id;
use crate::store::Store;
use core::marker::PhantomData;
use std::rc::Rc;
use vstd::prelude::*;

verus! {

/// A capability for propagating one shared value from an ancestor
/// position to any descendant, bound to one fixed identity.
pub struct Context<T> {
    id: Id,
    _phantom: PhantomData<T>,
}

/// Creates a new context with the provided type, bound to `id`.
///
/// The identity must come from the identity provider's root scope, keyed
/// by a counter that grows with each context created, so that every
/// context gets an identity of its own, distinct from every position's.
pub fn create_context<T>(id: Id) -> (c: Context<T>)
    ensures
        c.id_spec() == id,
{
    Context::new(id)
}

impl<T> Context<T> {
    /// The fixed identity this context's value is stored under.
    pub closed spec fn id_spec(self) -> Id {
        self.id
    }

    fn new(id: Id) -> (c: Context<T>)
        ensures
            c.id_spec() == id,
    {
        Context { id, _phantom: PhantomData }
    }

    /// Wraps `data` in a shared-ownership cell and writes it to the
    /// current generation under the context's identity, overwriting any
    /// value set earlier.
    pub fn set(&self, store: &mut Store<Rc<T>>, data: T)
        requires
            old(store).wf(),
            old(store).key_map().contains_key(self.id_spec().id) || old(store).slots()
                < u64::MAX,
        ensures
            final(store).wf(),
            final(store).cur_map().contains_key(self.id_spec().id),
            final(store).cur_map()[self.id_spec().id] == data,
            final(store).cur_map() == old(store).cur_map().insert(
                self.id_spec().id,
                final(store).cur_map()[self.id_spec().id],
            ),
            final(store).stale_map() == old(store).stale_map(),
    {
        store.set_state_with_id(Rc::new(data), self.id)
    }

    /// Ensures the context's entry is marked live for this pass, applies
    /// `func` to the shared value by reference, and returns the result.
    /// The value itself is not replaced: both this reader and every other
    /// one observe the identical shared value.
    ///
    /// Reading from a context that was never set is a usage error, ruled
    /// out by this contract; an unverified caller must check
    /// [`Store::state_exists_with_id`] first and treat a missing value as
    /// its own bug.
    pub fn get<U, F: FnOnce(&Rc<T>) -> U>(&self, store: &mut Store<Rc<T>>, func: F) -> (r: U)
        requires
            old(store).wf(),
            old(store).exists_spec(self.id_spec().id),
            call_requires(func, (&old(store).value_of(self.id_spec().id),)),
        ensures
            final(store).wf(),
            touch_step(*old(store), *final(store), self.id_spec().id),
            final(store).value_of(self.id_spec().id) == old(store).value_of(self.id_spec().id),
            final(store).key_map() == old(store).key_map(),
            final(store).slots() == old(store).slots(),
            call_ensures(func, (&old(store).value_of(self.id_spec().id),), r),
    {
        if !store.state_exists_with_id(self.id) {
            vstd::pervasive::unreached()
        } else if !store.state_marked_with_id(self.id) {
            store.mark_state_with_id(self.id);
            proof {
                assert(store.cur_map() == old(store).cur_map().insert(
                    self.id_spec().id,
                    old(store).value_of(self.id_spec().id),
                ));
            }
            read_state_with_id(store, self.id, func)
        } else {
            proof {
                assert(store.cur_map() =~= store.cur_map().insert(
                    self.id_spec().id,
                    store.cur_map()[self.id_spec().id],
                ));
            }
            read_state_with_id(store, self.id, func)
        }
    }
}

} // verus!
