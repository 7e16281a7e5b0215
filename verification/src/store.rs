//! The positional store: a generational, double-buffered table.
//!
//! Values are kept in two generations. Exactly one generation is current;
//! the other is stale. Touching an identity moves (or writes) its value
//! into the current generation; a sweep clears the stale generation and
//! swaps the roles, so everything untouched since the previous sweep is
//! reclaimed in one step.
//!
//! An identity is bound to a slot key the first time it is written; the
//! identity-to-slot-key index is shared by both generations and is never
//! pruned, so its size is bounded by the number of distinct identities
//! ever seen.

use std::collections::HashMap;
use vstd::prelude::*;

verus! {

/// An opaque token naming one position in the re-executed call graph.
///
/// The store never derives one: identities come from an outside identity
/// provider, which guarantees that distinct positions get distinct tokens
/// and that one position keeps its token across passes. The store only
/// compares them.
#[derive(Clone, Copy, PartialEq, Eq, Hash, Structural)]
pub struct Id {
    pub id: u64,
}

/// Which of the two generation buffers is the current one.
#[derive(Clone, Copy, Debug, PartialEq, Eq, Structural)]
pub enum Mode {
    A,
    B,
}

impl Mode {
    /// The other generation.
    pub open spec fn flip(self) -> Mode {
        match self {
            Mode::A => Mode::B,
            Mode::B => Mode::A,
        }
    }

    /// Returns the other generation.
    pub fn reverse(&self) -> (r: Mode)
        ensures
            r == self.flip(),
    {
        match self {
            Mode::A => Mode::B,
            Mode::B => Mode::A,
        }
    }
}

/// A generational, double-buffered store of values of type `T`, indexed
/// by identity.
///
/// Abstractly, a store is a pair of partial maps from identity to value:
/// [`Store::cur_map`] (the current generation) and [`Store::stale_map`]
/// (the stale generation), plus the identity-to-slot-key index
/// [`Store::key_map`], which both generations share.
pub struct Store<T> {
    data_a: HashMap<u64, T>,
    data_b: HashMap<u64, T>,
    mode: Mode,
    keys_by_id: HashMap<u64, u64>,
    next_key: u64,
}

/// How one `sweep` changes the store, stated over the abstract maps: the
/// current generation is emptied and what was current becomes stale, so
/// the old stale contents are gone.
pub open spec fn sweep_step<T>(pre: Store<T>, post: Store<T>) -> bool {
    &&& post.cur_map() == Map::<u64, T>::empty()
    &&& post.stale_map() == pre.cur_map()
}

/// How touching an identity that already has a value changes the store:
/// the value moves into the current generation (a no-op if it is already
/// there) and is never recomputed.
pub open spec fn touch_step<T>(pre: Store<T>, post: Store<T>, id: u64) -> bool {
    &&& pre.exists_spec(id)
    &&& post.cur_map() == pre.cur_map().insert(id, pre.value_of(id))
    &&& post.stale_map() == (if pre.cur_map().contains_key(id) {
        pre.stale_map()
    } else {
        pre.stale_map().remove(id)
    })
}

impl<T> Store<T> {
    /// The identity-to-slot-key index.
    pub closed spec fn key_map(self) -> Map<u64, u64> {
        self.keys_by_id@
    }

    /// How many slot keys have ever been allocated.
    pub closed spec fn slots(self) -> u64 {
        self.next_key
    }

    spec fn data_of(self, mode: Mode) -> Map<u64, T> {
        match mode {
            Mode::A => self.data_a@,
            Mode::B => self.data_b@,
        }
    }

    spec fn gen_map(self, mode: Mode) -> Map<u64, T> {
        Map::new(
            |id: u64|
                self.keys_by_id@.contains_key(id) && self.data_of(mode).contains_key(
                    self.keys_by_id@[id],
                ),
            |id: u64| self.data_of(mode)[self.keys_by_id@[id]],
        )
    }

    /// The current generation, as a map from identity to value.
    pub closed spec fn cur_map(self) -> Map<u64, T> {
        self.gen_map(self.mode)
    }

    /// The stale generation, as a map from identity to value.
    pub closed spec fn stale_map(self) -> Map<u64, T> {
        self.gen_map(self.mode.flip())
    }

    /// A value for `id` exists in the current or the stale generation.
    pub open spec fn exists_spec(self, id: u64) -> bool {
        self.cur_map().contains_key(id) || self.stale_map().contains_key(id)
    }

    /// A value for `id` already lives in the current generation, or there
    /// is none in the stale generation either (a brand-new identity has
    /// nothing to move forward, so it counts as already marked).
    pub open spec fn marked_spec(self, id: u64) -> bool {
        self.cur_map().contains_key(id) || !self.stale_map().contains_key(id)
    }

    /// The value held for `id`, preferring the current generation.
    /// Meaningful only when `exists_spec(id)` holds.
    pub open spec fn value_of(self, id: u64) -> T {
        if self.cur_map().contains_key(id) {
            self.cur_map()[id]
        } else {
            self.stale_map()[id]
        }
    }

    /// Internal invariant: every bound slot key was allocated, distinct
    /// identities are bound to distinct slot keys, and both generations
    /// only populate allocated slot keys.
    pub closed spec fn wf(self) -> bool {
        &&& forall|id: u64| #[trigger]
            self.keys_by_id@.contains_key(id) ==> self.keys_by_id@[id] < self.next_key
        &&& forall|i: u64, j: u64|
            self.keys_by_id@.contains_key(i) && self.keys_by_id@.contains_key(j) && i != j
                ==> self.keys_by_id@[i] != self.keys_by_id@[j]
        &&& forall|k: u64| #[trigger] self.data_a@.contains_key(k) ==> k < self.next_key
        &&& forall|k: u64| #[trigger] self.data_b@.contains_key(k) ==> k < self.next_key
    }

    /// An empty store, with generation A current.
    pub fn new() -> (s: Store<T>)
        ensures
            s.wf(),
            s.cur_map() == Map::<u64, T>::empty(),
            s.stale_map() == Map::<u64, T>::empty(),
            s.key_map() == Map::<u64, u64>::empty(),
            s.slots() == 0,
    {
        let s = Store {
            data_a: HashMap::new(),
            data_b: HashMap::new(),
            mode: Mode::A,
            keys_by_id: HashMap::new(),
            next_key: 0u64,
        };
        proof {
            assert(s.cur_map() =~= Map::<u64, T>::empty());
            assert(s.stale_map() =~= Map::<u64, T>::empty());
        }
        s
    }

    /// How many slot keys have ever been allocated. An unverified caller
    /// can test this against `u64::MAX` before a write, since a write may
    /// need to allocate one more.
    pub fn slot_count(&self) -> (r: u64)
        ensures
            r == self.slots(),
    {
        self.next_key
    }

    /// The slot key bound to `id`, if one was ever allocated.
    fn key_of(&self, id: Id) -> (r: Option<u64>)
        ensures
            match r {
                Some(k) => self.keys_by_id@.contains_key(id.id) && k == self.keys_by_id@[id.id],
                None => !self.keys_by_id@.contains_key(id.id),
            },
    {
        match self.keys_by_id.get(&id.id) {
            Some(k) => Some(*k),
            None => None,
        }
    }

    /// Whether the table of the given generation holds slot key `k`.
    fn table_contains(&self, mode: Mode, k: u64) -> (r: bool)
        ensures
            r == self.data_of(mode).contains_key(k),
    {
        match mode {
            Mode::A => self.data_a.contains_key(&k),
            Mode::B => self.data_b.contains_key(&k),
        }
    }

    /// Inserts into the table of the given generation; the other
    /// generation and the index are untouched.
    fn table_insert(&mut self, mode: Mode, k: u64, data: T)
        ensures
            final(self).data_of(mode) == old(self).data_of(mode).insert(k, data),
            final(self).data_of(mode.flip()) == old(self).data_of(mode.flip()),
            final(self).mode == old(self).mode,
            final(self).keys_by_id == old(self).keys_by_id,
            final(self).next_key == old(self).next_key,
    {
        match mode {
            Mode::A => {
                self.data_a.insert(k, data);
            },
            Mode::B => {
                self.data_b.insert(k, data);
            },
        }
    }

    /// Removes from the table of the given generation; the other
    /// generation and the index are untouched.
    fn table_remove(&mut self, mode: Mode, k: u64) -> (r: Option<T>)
        ensures
            final(self).data_of(mode) == old(self).data_of(mode).remove(k),
            match r {
                Some(v) => old(self).data_of(mode).contains_key(k) && v == old(self).data_of(
                    mode,
                )[k],
                None => !old(self).data_of(mode).contains_key(k),
            },
            final(self).data_of(mode.flip()) == old(self).data_of(mode.flip()),
            final(self).mode == old(self).mode,
            final(self).keys_by_id == old(self).keys_by_id,
            final(self).next_key == old(self).next_key,
    {
        match mode {
            Mode::A => self.data_a.remove(&k),
            Mode::B => self.data_b.remove(&k),
        }
    }

    /// Whether a value for `id` exists in the given generation.
    fn state_exists(&self, mode: Mode, id: Id) -> (r: bool)
        ensures
            r == self.gen_map(mode).contains_key(id.id),
    {
        match self.key_of(id) {
            Some(k) => self.table_contains(mode, k),
            None => false,
        }
    }

    /// Whether a value for `id` exists in the current or the stale
    /// generation. Does not mutate.
    pub fn state_exists_with_id(&self, id: Id) -> (r: bool)
        ensures
            r == self.exists_spec(id.id),
    {
        let mode = self.mode;
        self.state_exists(mode, id) || self.state_exists(mode.reverse(), id)
    }

    /// Whether `id` is already marked live for this pass: its value is in
    /// the current generation, or there is nothing to move forward from
    /// the stale one. Does not mutate.
    pub fn state_marked_with_id(&self, id: Id) -> (r: bool)
        ensures
            r == self.marked_spec(id.id),
    {
        let mode = self.mode;
        self.state_exists(mode, id) || !self.state_exists(mode.reverse(), id)
    }

    /// Writes `data` for `current_id` into the current generation,
    /// overwriting any value already there, and binds a slot key first if
    /// the identity never had one. Only the current generation changes.
    pub fn set_state_with_id(&mut self, data: T, current_id: Id)
        requires
            old(self).wf(),
            old(self).key_map().contains_key(current_id.id) || old(self).slots() < u64::MAX,
        ensures
            final(self).wf(),
            final(self).cur_map() == old(self).cur_map().insert(current_id.id, data),
            final(self).stale_map() == old(self).stale_map(),
            old(self).key_map().contains_key(current_id.id) ==> final(self).key_map() == old(
                self,
            ).key_map() && final(self).slots() == old(self).slots(),
            !old(self).key_map().contains_key(current_id.id) ==> final(self).key_map() == old(
                self,
            ).key_map().insert(current_id.id, old(self).slots()) && final(self).slots() == old(
                self,
            ).slots() + 1,
    {
        let k: u64 = match self.key_of(current_id) {
            Some(k) => k,
            None => {
                let k = self.next_key;
                self.next_key = self.next_key + 1;
                self.keys_by_id.insert(current_id.id, k);
                k
            },
        };
        let mode = self.mode;
        self.table_insert(mode, k, data);
        proof {
            assert(self.cur_map() =~= old(self).cur_map().insert(current_id.id, data));
            assert(self.stale_map() =~= old(self).stale_map());
        }
    }

    /// Removes and returns the value for `current_id` from the current
    /// generation, if any. The stale generation and the index are kept.
    pub fn remove_state_with_id(&mut self, current_id: Id) -> (r: Option<T>)
        requires
            old(self).wf(),
        ensures
            final(self).wf(),
            final(self).cur_map() == old(self).cur_map().remove(current_id.id),
            final(self).stale_map() == old(self).stale_map(),
            final(self).key_map() == old(self).key_map(),
            final(self).slots() == old(self).slots(),
            match r {
                Some(v) => old(self).cur_map().contains_key(current_id.id) && v == old(
                    self,
                ).cur_map()[current_id.id],
                None => !old(self).cur_map().contains_key(current_id.id),
            },
    {
        let r = match self.key_of(current_id) {
            Some(k) => {
                let mode = self.mode;
                self.table_remove(mode, k)
            },
            None => None,
        };
        proof {
            assert(self.cur_map() =~= old(self).cur_map().remove(current_id.id));
            assert(self.stale_map() =~= old(self).stale_map());
        }
        r
    }

    /// Moves the value for `current_id` from the stale generation into
    /// the current one. The caller must have seen `state_marked_with_id`
    /// return false: a value exists in the stale generation and none in
    /// the current one.
    pub fn mark_state_with_id(&mut self, current_id: Id)
        requires
            old(self).wf(),
            !old(self).marked_spec(current_id.id),
        ensures
            final(self).wf(),
            final(self).cur_map() == old(self).cur_map().insert(
                current_id.id,
                old(self).stale_map()[current_id.id],
            ),
            final(self).stale_map() == old(self).stale_map().remove(current_id.id),
            final(self).key_map() == old(self).key_map(),
            final(self).slots() == old(self).slots(),
    {
        match self.key_of(current_id) {
            Some(k) => {
                let mode = self.mode;
                let taken = self.table_remove(mode.reverse(), k);
                match taken {
                    Some(data) => {
                        self.table_insert(mode, k, data);
                    },
                    None => {
                        proof {
                            assert(false);
                        }
                    },
                }
            },
            None => {
                proof {
                    assert(false);
                }
            },
        }
        proof {
            assert(self.cur_map() =~= old(self).cur_map().insert(
                current_id.id,
                old(self).stale_map()[current_id.id],
            ));
            assert(self.stale_map() =~= old(self).stale_map().remove(current_id.id));
        }
    }

    /// Clears the stale generation, then swaps which generation is
    /// current: everything not touched since the previous sweep is gone,
    /// and what was touched becomes the new stale generation. The
    /// identity-to-slot-key index is kept.
    pub fn sweep(&mut self)
        requires
            old(self).wf(),
        ensures
            final(self).wf(),
            sweep_step(*old(self), *final(self)),
            final(self).key_map() == old(self).key_map(),
            final(self).slots() == old(self).slots(),
    {
        match self.mode {
            Mode::A => {
                self.data_b.clear();
                self.mode = Mode::B;
            },
            Mode::B => {
                self.data_a.clear();
                self.mode = Mode::A;
            },
        }
        proof {
            assert(self.cur_map() =~= Map::<u64, T>::empty());
            assert(self.stale_map() =~= old(self).cur_map());
        }
    }
}

/// An identity with a value in either generation is bound in the
/// identity-to-slot-key index.
pub proof fn lemma_exists_implies_key<T>(s: Store<T>, id: u64)
    requires
        s.exists_spec(id),
    ensures
        s.key_map().contains_key(id),
{
}

} // verus!
