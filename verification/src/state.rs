//! Shared application state: version-stamped cells, cached front-ends,
//! scoped mutation keys, lenses, and the manager that issues identities
//! and fans change notifications out to listeners.

pub mod key;
pub mod lens;
pub mod manager;
pub mod clone_state;
pub mod state_inner;

pub use key::Key;
pub use lens::{Lens, Id, Then};
pub use manager::{StateManager, ListenerID, ListenerEntry};
pub use clone_state::CloneState;
pub use state_inner::StateInner;

use vstd::prelude::*;

verus! {

/// A process-wide identity for one state cell; the manager issues them
/// in increasing order and never reuses one.
#[derive(Clone, Copy, PartialEq, Eq, Structural, Hash, Debug)]
pub struct StateID(pub u64);

impl StateID {
    /// Wraps a raw identity; fresh ones come from
    /// [`StateManager::new_state_id`].
    pub fn new(raw: u64) -> (r: StateID)
        ensures
            r.0 == raw,
    {
        StateID(raw)
    }
}

/// Whether `T`'s `clone` can only hand back the value itself. The cached
/// front-ends replicate values by cloning, so their contracts ask for
/// this; it holds of every plain data type.
pub open spec fn clone_faithful<T: Clone>() -> bool {
    forall|a: T, b: T| #[trigger] vstd::pervasive::cloned(a, b) ==> b == a
}

/// The common interface of the state front-ends: an identity, a cached
/// value, and the commit it was refreshed at.
pub trait State<T>: Sized {
    /// The identity of the cell this front-end is bound to.
    spec fn spec_id(&self) -> StateID;

    /// The locally cached value.
    spec fn spec_cache(&self) -> T;

    /// The commit number the cache was refreshed at.
    spec fn spec_commit(&self) -> u64;

    /// The identity of the cell this front-end is bound to.
    fn get_id(&self) -> (r: StateID)
        ensures
            r == self.spec_id(),
    ;

    /// The cached value, without trying to refresh it.
    fn with_value(&self) -> (r: &T)
        ensures
            *r == self.spec_cache(),
    ;
}

} // verus!
