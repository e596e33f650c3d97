//! The canonical state cell: a unique identity, a commit counter that
//! grows by exactly one per mutation, and the guarded value. Every
//! committed mutation notifies the manager, so a commit can never happen
//! silently.

use vstd::prelude::*;
use crate::state::{StateID, StateManager};

verus! {

/// The single source of truth for one piece of application state.
pub struct StateInner<T> {
    id: StateID,
    commit: u64,
    value: T,
}

impl<T> StateInner<T> {
    /// The cell's identity.
    pub closed spec fn spec_id(&self) -> StateID {
        self.id
    }

    /// The number of mutations committed so far.
    pub closed spec fn spec_commit(&self) -> u64 {
        self.commit
    }

    /// The current value.
    pub closed spec fn spec_value(&self) -> T {
        self.value
    }

    /// A fresh cell at commit zero; `id` should come from
    /// [`StateManager::new_state_id`].
    pub fn new(id: StateID, value: T) -> (r: StateInner<T>)
        ensures
            r.spec_id() == id,
            r.spec_commit() == 0,
            r.spec_value() == value,
    {
        StateInner { id, commit: 0, value }
    }

    /// The cell's identity.
    pub fn id(&self) -> (r: StateID)
        ensures
            r == self.spec_id(),
    {
        self.id
    }

    /// The commit counter; a front-end is stale exactly while its own
    /// commit number is smaller.
    pub fn commit(&self) -> (r: u64)
        ensures
            r == self.spec_commit(),
    {
        self.commit
    }

    /// Reads the value under the guard.
    pub fn use_value(&self) -> (r: &T)
        ensures
            *r == self.spec_value(),
    {
        &self.value
    }

    /// Commits a new value: stores it, increments the commit counter and
    /// enqueues the change notification; returns the new commit. The
    /// counter and the notification can never fall out of step.
    pub fn update_value(&mut self, mgr: &mut StateManager, value: T) -> (r: u64)
        requires
            old(self).spec_commit() < u64::MAX,
            old(mgr).wf(),
        ensures
            final(self).spec_id() == old(self).spec_id(),
            final(self).spec_commit() == old(self).spec_commit() + 1,
            final(self).spec_value() == value,
            r == final(self).spec_commit(),
            *final(self) == spec_committed(*old(self), value),
            final(mgr).wf(),
            final(mgr).listeners@.len() == old(mgr).listeners@.len(),
            forall|i: int|
                0 <= i < final(mgr).listeners@.len() ==> {
                    &&& (#[trigger] final(mgr).listeners@[i]).id == old(mgr).listeners@[i].id
                    &&& final(mgr).listeners@[i].pending@ == old(mgr).listeners@[i].pending@.push(
                        old(self).spec_id(),
                    )
                },
            final(mgr).next_state == old(mgr).next_state,
            final(mgr).next_listener == old(mgr).next_listener,
    {
        self.value = value;
        self.commit = self.commit + 1;
        let id = self.id;
        mgr.update(id);
        self.commit
    }
}

/// The cell after one committed mutation to `v`.
pub closed spec fn spec_committed<T>(pre: StateInner<T>, v: T) -> StateInner<T> {
    StateInner { id: pre.id, commit: (pre.commit + 1) as u64, value: v }
}

/// The cell after a whole sequence of committed mutations, applied in
/// order.
pub open spec fn spec_commit_all<T>(pre: StateInner<T>, vs: Seq<T>) -> StateInner<T>
    decreases vs.len(),
{
    if vs.len() == 0 {
        pre
    } else {
        spec_committed(spec_commit_all(pre, vs.drop_last()), vs.last())
    }
}

/// Relating a committed cell back to its parts.
pub broadcast proof fn lemma_committed_parts<T>(pre: StateInner<T>, v: T)
    requires
        pre.spec_commit() < u64::MAX,
    ensures
        (#[trigger] spec_committed(pre, v)).spec_id() == pre.spec_id(),
        spec_committed(pre, v).spec_commit() == pre.spec_commit() + 1,
        spec_committed(pre, v).spec_value() == v,
{
}

/// Law: a run of committed mutations drives the commit counter up by
/// exactly its length, so observed commits grow strictly; and the value
/// afterwards is the most recently committed one — no update is lost.
pub proof fn lemma_commit_monotonic<T>(pre: StateInner<T>, vs: Seq<T>)
    requires
        pre.spec_commit() + vs.len() <= u64::MAX,
    ensures
        spec_commit_all(pre, vs).spec_commit() == pre.spec_commit() + vs.len(),
        spec_commit_all(pre, vs).spec_id() == pre.spec_id(),
        vs.len() > 0 ==> spec_commit_all(pre, vs).spec_commit() > pre.spec_commit(),
        vs.len() > 0 ==> spec_commit_all(pre, vs).spec_value() == vs.last(),
    decreases vs.len(),
{
    if vs.len() > 0 {
        lemma_commit_monotonic(pre, vs.drop_last());
        lemma_committed_parts(spec_commit_all(pre, vs.drop_last()), vs.last());
    }
}

/// Law: each extension of a commit run observes a strictly larger
/// counter than every shorter prefix.
pub proof fn lemma_commit_strictly_increasing<T>(pre: StateInner<T>, vs: Seq<T>, i: int, j: int)
    requires
        pre.spec_commit() + vs.len() <= u64::MAX,
        0 <= i < j <= vs.len(),
    ensures
        spec_commit_all(pre, vs.take(i)).spec_commit() < spec_commit_all(
            pre,
            vs.take(j),
        ).spec_commit(),
{
    lemma_commit_monotonic(pre, vs.take(i));
    lemma_commit_monotonic(pre, vs.take(j));
}

} // verus!
