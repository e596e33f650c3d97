//! The cached front-end over a state cell: a local copy of the value,
//! the commit it was refreshed at, and the identity of the cell. Several
//! front-ends over one cell each detect staleness on their own by
//! comparing commits, and re-copy the authoritative value when stale.

use vstd::prelude::*;
use crate::state::{StateID, StateManager, State, clone_faithful};
use crate::state::state_inner::{StateInner, spec_committed};
use crate::state::key::Key;

verus! {

/// A front-end with a cloned local cache for cheap repeated reads.
#[derive(Clone)]
pub struct CloneState<T> {
    cache: T,
    commit: u64,
    id: StateID,
}

/// The cache a front-end holds after refreshing against a cell: the
/// cell's value if the front-end was stale, its own cache otherwise.
pub open spec fn spec_fetched<T: Clone>(fe: CloneState<T>, inner: StateInner<T>) -> T {
    if inner.spec_commit() > fe.spec_commit() {
        inner.spec_value()
    } else {
        fe.spec_cache()
    }
}

/// The commit a front-end records after refreshing.
pub open spec fn spec_fetched_commit<T: Clone>(fe: CloneState<T>, inner: StateInner<T>) -> u64 {
    if inner.spec_commit() > fe.spec_commit() {
        inner.spec_commit()
    } else {
        fe.spec_commit()
    }
}

impl<T: Clone> CloneState<T> {
    /// The commit number the cache was refreshed at.
    pub closed spec fn spec_commit(&self) -> u64 {
        self.commit
    }

    /// The locally cached value.
    pub closed spec fn spec_cache(&self) -> T {
        self.cache
    }

    /// The identity of the cell this front-end is bound to.
    pub closed spec fn spec_id(&self) -> StateID {
        self.id
    }

    /// Creates the authoritative cell for `value` together with its
    /// first front-end; the manager issues the fresh identity.
    pub fn new(mgr: &mut StateManager, value: T) -> (r: (CloneState<T>, StateInner<T>))
        requires
            clone_faithful::<T>(),
            old(mgr).wf(),
            old(mgr).next_state < u64::MAX,
        ensures
            r.0.spec_cache() == value,
            r.0.spec_commit() == 0,
            r.0.spec_id() == r.1.spec_id(),
            r.1.spec_value() == value,
            r.1.spec_commit() == 0,
            r.1.spec_id().0 == old(mgr).next_state,
            final(mgr).next_state == old(mgr).next_state + 1,
            final(mgr).listeners@ == old(mgr).listeners@,
            final(mgr).wf(),
    {
        let id = mgr.new_state_id();
        let cache = value.clone();
        proof {
            assert(vstd::pervasive::cloned(value, cache));
        }
        (CloneState { cache, commit: 0, id }, StateInner::new(id, value))
    }

    /// A second front-end over the same cell, from this one's cache.
    pub fn fork(&self) -> (r: CloneState<T>)
        requires
            clone_faithful::<T>(),
        ensures
            r.spec_cache() == self.spec_cache(),
            r.spec_commit() == self.spec_commit(),
            r.spec_id() == self.spec_id(),
    {
        let cache = self.cache.clone();
        proof {
            assert(vstd::pervasive::cloned(self.cache, cache));
        }
        CloneState { cache, commit: self.commit, id: self.id }
    }

    /// Refreshes the cache if the cell has committed past it, then reads
    /// the (now current) cached value.
    pub fn with_fetched_value(&mut self, inner: &StateInner<T>) -> (r: &T)
        requires
            clone_faithful::<T>(),
            old(self).spec_id() == inner.spec_id(),
        ensures
            final(self).spec_cache() == spec_fetched(*old(self), *inner),
            final(self).spec_commit() == spec_fetched_commit(*old(self), *inner),
            final(self).spec_id() == old(self).spec_id(),
            *r == final(self).spec_cache(),
    {
        let new_commit = inner.commit();
        if new_commit > self.commit {
            self.commit = new_commit;
            let value = inner.use_value().clone();
            proof {
                assert(vstd::pervasive::cloned(inner.spec_value(), value));
            }
            self.cache = value;
        }
        &self.cache
    }

    /// Refreshes the cache, hands a [`Key`] over it to `operation`, and,
    /// if the operation changed the value, commits the new value back to
    /// the cell (bumping its commit and notifying the manager).
    pub fn with_key<F: FnOnce(Key<T>) -> Key<T>>(
        &mut self,
        inner: &mut StateInner<T>,
        mgr: &mut StateManager,
        operation: F,
    )
        requires
            clone_faithful::<T>(),
            old(self).spec_id() == old(inner).spec_id(),
            old(inner).spec_commit() < u64::MAX,
            old(mgr).wf(),
            call_requires(
                operation,
                (Key::spec_key(spec_fetched(*old(self), *old(inner)), false),),
            ),
        ensures
            final(self).spec_id() == old(self).spec_id(),
            final(inner).spec_id() == old(inner).spec_id(),
            final(mgr).wf(),
            final(mgr).next_listener == old(mgr).next_listener,
            final(mgr).next_state == old(mgr).next_state,
            exists|out: Key<T>|
                {
                    &&& #[trigger] call_ensures(
                        operation,
                        (Key::spec_key(spec_fetched(*old(self), *old(inner)), false),),
                        out,
                    )
                    &&& out.spec_changed() ==> {
                        &&& *final(inner) == spec_committed(*old(inner), out.spec_value())
                        &&& final(self).spec_cache() == out.spec_value()
                        &&& final(self).spec_commit() == final(inner).spec_commit()
                        &&& final(mgr).listeners@.len() == old(mgr).listeners@.len()
                        &&& forall|i: int|
                            0 <= i < final(mgr).listeners@.len() ==> {
                                &&& (#[trigger] final(mgr).listeners@[i]).id == old(mgr).listeners@[i].id
                                &&& final(mgr).listeners@[i].pending@ == old(mgr).listeners@[i].pending@.push(old(inner).spec_id())
                            }
                    }
                    &&& final(self).spec_cache() == out.spec_value()
                    &&& !out.spec_changed() ==> {
                        &&& *final(inner) == *old(inner)
                        &&& final(self).spec_commit() == spec_fetched_commit(
                            *old(self),
                            *old(inner),
                        )
                        &&& *final(mgr) == *old(mgr)
                    }
                },
    {
        let new_commit = inner.commit();
        if new_commit > self.commit {
            self.commit = new_commit;
            let value = inner.use_value().clone();
            proof {
                assert(vstd::pervasive::cloned(inner.spec_value(), value));
            }
            self.cache = value;
        }
        let cache = self.cache.clone();
        proof {
            assert(vstd::pervasive::cloned(self.cache, cache));
        }
        let out = operation(Key::new(cache));
        let (new_value, changed) = out.into_parts();
        self.cache = new_value;
        if changed {
            let committed = self.cache.clone();
            proof {
                assert(vstd::pervasive::cloned(self.cache, committed));
            }
            let commit = inner.update_value(mgr, committed);
            self.commit = commit;
        }
    }
}

impl<T: Clone> State<T> for CloneState<T> {
    open spec fn spec_id(&self) -> StateID {
        CloneState::spec_id(self)
    }

    open spec fn spec_cache(&self) -> T {
        CloneState::spec_cache(self)
    }

    open spec fn spec_commit(&self) -> u64 {
        CloneState::spec_commit(self)
    }

    fn get_id(&self) -> (r: StateID) {
        self.id
    }

    fn with_value(&self) -> (r: &T) {
        &self.cache
    }
}

} // verus!
// Owned access to the cache for the state-root machinery.

verus! {

impl<T: Clone> CloneState<T> {
    /// An owned copy of the cached value.
    pub fn cache_clone(&self) -> (r: T)
        requires
            clone_faithful::<T>(),
        ensures
            r == self.spec_cache(),
    {
        let r = self.cache.clone();
        proof {
            assert(vstd::pervasive::cloned(self.cache, r));
        }
        r
    }

    /// Records a value this front-end just committed to the cell.
    pub(crate) fn sync_after_commit(&mut self, value: T, commit: u64)
        ensures
            final(self).spec_cache() == value,
            final(self).spec_commit() == commit,
            final(self).spec_id() == old(self).spec_id(),
    {
        self.cache = value;
        self.commit = commit;
    }

    /// Refreshes the cache against the cell without reading it.
    pub fn fetch(&mut self, inner: &StateInner<T>)
        requires
            clone_faithful::<T>(),
            old(self).spec_id() == inner.spec_id(),
        ensures
            final(self).spec_cache() == spec_fetched(*old(self), *inner),
            final(self).spec_commit() == spec_fetched_commit(*old(self), *inner),
            final(self).spec_id() == old(self).spec_id(),
    {
        let new_commit = inner.commit();
        if new_commit > self.commit {
            self.commit = new_commit;
            let value = inner.use_value().clone();
            proof {
                assert(vstd::pervasive::cloned(inner.spec_value(), value));
            }
            self.cache = value;
        }
    }
}

} // verus!
