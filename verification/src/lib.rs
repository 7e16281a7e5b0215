//! A positional state store for code that is re-executed in passes.
//!
//! Code that runs once per pass of an outer driver can attach persistent,
//! typed state to a position in its call graph. A position is named by an
//! opaque [`Id`] handed in by an identity provider; the store keeps one
//! value per identity and value type, tracks which identities were touched
//! during the current pass, and [`sweep`] reclaims everything that was not
//! touched since the previous pass.

use vstd::prelude::*;

pub mod context;
pub mod laws;
pub mod state;
pub mod store;

pub use context::create_context;
pub use context::Context;
pub use state::use_state;
pub use state::LocalState;
pub use store::Id;
pub use store::Mode;
pub use store::Store;

verus! {

/// Clears any state which was not accessed since the last sweep.
pub fn sweep<T>(store: &mut Store<T>)
    requires
        old(store).wf(),
    ensures
        final(store).wf(),
        crate::store::sweep_step(*old(store), *final(store)),
        final(store).key_map() == old(store).key_map(),
        final(store).slots() == old(store).slots(),
{
    store.sweep()
}

} // verus!
