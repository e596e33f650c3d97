//! The state manager: issues state identities, keeps the registered
//! listeners, and fans every committed change out to each listener's
//! pending queue in first-in, first-out order.

use vstd::prelude::*;
use crate::state::StateID;

verus! {

/// Identity of a registered listener.
#[derive(Clone, Copy, PartialEq, Eq, Structural, Debug)]
pub struct ListenerID(pub u64);

/// One registered listener and the identities of the cells that changed
/// since it last drained, oldest first.
pub struct ListenerEntry {
    pub id: u64,
    pub pending: Vec<StateID>,
}

/// The listener entries that survive removing `id`, in order.
pub open spec fn spec_without(s: Seq<ListenerEntry>, id: u64) -> Seq<ListenerEntry>
    decreases s.len(),
{
    if s.len() == 0 {
        s
    } else if s.last().id == id {
        spec_without(s.drop_last(), id)
    } else {
        spec_without(s.drop_last(), id).push(s.last())
    }
}

/// The registry of state identities and change listeners.
pub struct StateManager {
    pub next_state: u64,
    pub next_listener: u64,
    pub listeners: Vec<ListenerEntry>,
}

impl StateManager {
    /// Listener identities are distinct and below the issue counter.
    pub open spec fn wf(self) -> bool {
        &&& forall|i: int|
            0 <= i < self.listeners@.len() ==> (#[trigger] self.listeners@[i]).id
                < self.next_listener
        &&& forall|i: int, j: int|
            0 <= i < j < self.listeners@.len() ==> (#[trigger] self.listeners@[i]).id != (
            #[trigger] self.listeners@[j]).id
    }

    /// A fresh manager with no listeners and no identities issued.
    pub fn new() -> (r: StateManager)
        ensures
            r.next_state == 0,
            r.next_listener == 0,
            r.listeners@.len() == 0,
            r.wf(),
    {
        StateManager { next_state: 0, next_listener: 0, listeners: Vec::new() }
    }

    /// Issues a state identity never handed out before.
    pub fn new_state_id(&mut self) -> (r: StateID)
        requires
            old(self).wf(),
            old(self).next_state < u64::MAX,
        ensures
            r.0 == old(self).next_state,
            final(self).next_state == old(self).next_state + 1,
            final(self).next_listener == old(self).next_listener,
            final(self).listeners@ == old(self).listeners@,
            final(self).wf(),
    {
        let id = self.next_state;
        self.next_state = self.next_state + 1;
        StateID(id)
    }

    /// Registers a listener; it starts with an empty pending queue.
    pub fn register_listener(&mut self) -> (r: ListenerID)
        requires
            old(self).wf(),
            old(self).next_listener < u64::MAX,
        ensures
            r.0 == old(self).next_listener,
            final(self).next_listener == old(self).next_listener + 1,
            final(self).listeners@.len() == old(self).listeners@.len() + 1,
            final(self).listeners@.last().id == r.0,
            final(self).listeners@.last().pending@.len() == 0,
            forall|i: int|
                0 <= i < old(self).listeners@.len() ==> (#[trigger] final(self).listeners@[i])
                    == old(self).listeners@[i],
            final(self).next_state == old(self).next_state,
            final(self).wf(),
    {
        let id = self.next_listener;
        self.next_listener = self.next_listener + 1;
        self.listeners.push(ListenerEntry { id, pending: Vec::new() });
        ListenerID(id)
    }

    /// Removes a listener; identities being unique, at most one entry
    /// leaves.
    pub fn unregister_listener(&mut self, id: ListenerID)
        requires
            old(self).wf(),
        ensures
            final(self).listeners@ == spec_without(old(self).listeners@, id.0),
            final(self).next_state == old(self).next_state,
            final(self).next_listener == old(self).next_listener,
            final(self).wf(),
    {
        let ghost olds = self.listeners@;
        let mut kept: Vec<ListenerEntry> = Vec::new();
        let mut i: usize = 0;
        let n = self.listeners.len();
        while i < n
            invariant
                0 <= i <= n,
                n == olds.len(),
                self.listeners@ == olds.skip(i as int),
                self.next_state == old(self).next_state,
                self.next_listener == old(self).next_listener,
                kept@ == spec_without(olds.take(i as int), id.0),
            decreases n - i,
        {
            proof {
                assert(olds.take(i + 1).drop_last() =~= olds.take(i as int));
                assert(olds.take(i + 1).last() == olds[i as int]);
                assert(olds.skip(i as int)[0] == olds[i as int]);
            }
            let entry = self.listeners.remove(0);
            if entry.id != id.0 {
                kept.push(entry);
            }
            proof {
                assert(self.listeners@ =~= olds.skip(i + 1));
            }
            i += 1;
        }
        proof {
            assert(olds.take(n as int) =~= olds);
        }
        self.listeners = kept;
        proof {
            lemma_without_keeps_wf(olds, id.0, old(self).next_listener);
        }
    }

    /// Appends `state` to every listener's pending queue.
    pub fn update(&mut self, state: StateID)
        requires
            old(self).wf(),
        ensures
            final(self).listeners@.len() == old(self).listeners@.len(),
            forall|i: int|
                0 <= i < final(self).listeners@.len() ==> {
                    &&& (#[trigger] final(self).listeners@[i]).id == old(self).listeners@[i].id
                    &&& final(self).listeners@[i].pending@ == old(self).listeners@[i].pending@.push(state)
                },
            final(self).next_state == old(self).next_state,
            final(self).next_listener == old(self).next_listener,
            final(self).wf(),
    {
        let n = self.listeners.len();
        let mut i: usize = 0;
        while i < n
            invariant
                0 <= i <= n,
                n == self.listeners@.len(),
                n == old(self).listeners@.len(),
                forall|j: int|
                    i <= j < n ==> (#[trigger] self.listeners@[j]) == old(self).listeners@[j],
                forall|j: int|
                    0 <= j < i ==> {
                        &&& (#[trigger] self.listeners@[j]).id == old(self).listeners@[j].id
                        &&& self.listeners@[j].pending@ == old(self).listeners@[j].pending@.push(state)
                    },
                self.next_state == old(self).next_state,
                self.next_listener == old(self).next_listener,
            decreases n - i,
        {
            self.listeners[i].pending.push(state);
            i += 1;
        }
    }

    /// Hands the pending queue of listener `id` over, oldest first, and
    /// leaves it empty; an unknown listener yields nothing.
    pub fn drain(&mut self, id: ListenerID) -> (r: Vec<StateID>)
        requires
            old(self).wf(),
        ensures
            final(self).listeners@.len() == old(self).listeners@.len(),
            forall|i: int|
                0 <= i < final(self).listeners@.len() ==> {
                    &&& (#[trigger] final(self).listeners@[i]).id == old(self).listeners@[i].id
                    &&& (old(self).listeners@[i].id == id.0 ==> final(self).listeners@[i].pending@.len() == 0)
                    &&& (old(self).listeners@[i].id != id.0 ==> final(self).listeners@[i].pending@
                        == old(self).listeners@[i].pending@)
                },
            (exists|i: int|
                0 <= i < old(self).listeners@.len() && (#[trigger] old(self).listeners@[i]).id
                    == id.0 && r@ == old(self).listeners@[i].pending@) || ((forall|i: int|
                0 <= i < old(self).listeners@.len() ==> (#[trigger] old(self).listeners@[i]).id
                    != id.0) && r@.len() == 0),
            final(self).next_state == old(self).next_state,
            final(self).next_listener == old(self).next_listener,
            final(self).wf(),
    {
        let n = self.listeners.len();
        let mut i: usize = 0;
        while i < n
            invariant
                0 <= i <= n,
                n == self.listeners@.len(),
                self.listeners@ == old(self).listeners@,
                self.next_state == old(self).next_state,
                self.next_listener == old(self).next_listener,
                old(self).wf(),
                forall|j: int| 0 <= j < i ==> (#[trigger] old(self).listeners@[j]).id != id.0,
            decreases n - i,
        {
            if self.listeners[i].id == id.0 {
                let mut taken: Vec<StateID> = Vec::new();
                core::mem::swap(&mut self.listeners[i].pending, &mut taken);
                return taken;
            }
            i += 1;
        }
        Vec::new()
    }
}

/// Filtering a well-formed listener sequence keeps it well-formed.
proof fn lemma_without_keeps_wf(s: Seq<ListenerEntry>, id: u64, bound: u64)
    requires
        forall|i: int| 0 <= i < s.len() ==> (#[trigger] s[i]).id < bound,
        forall|i: int, j: int| 0 <= i < j < s.len() ==> (#[trigger] s[i]).id != (#[trigger] s[j]).id,
    ensures
        forall|i: int|
            0 <= i < spec_without(s, id).len() ==> (#[trigger] spec_without(s, id)[i]).id < bound,
        forall|i: int, j: int|
            0 <= i < j < spec_without(s, id).len() ==> (#[trigger] spec_without(s, id)[i]).id != (
            #[trigger] spec_without(s, id)[j]).id,
        forall|i: int|
            0 <= i < spec_without(s, id).len() ==> exists|j: int|
                0 <= j < s.len() && (#[trigger] spec_without(s, id)[i]) == s[j],
    decreases s.len(),
{
    if s.len() > 0 {
        lemma_without_keeps_wf(s.drop_last(), id, bound);
        assert(forall|j: int|
            0 <= j < s.drop_last().len() ==> (#[trigger] s.drop_last()[j]) == s[j]);
        let w = spec_without(s, id);
        let wd = spec_without(s.drop_last(), id);
        if s.last().id != id {
            assert forall|i: int, j: int| 0 <= i < j < w.len() implies (#[trigger] w[i]).id != (
            #[trigger] w[j]).id by {
                if j == w.len() - 1 {
                    let witness = choose|jj: int|
                        0 <= jj < s.drop_last().len() && (#[trigger] wd[i]) == s.drop_last()[jj];
                    assert(w[j] == s.last());
                    assert(w[i] == wd[i]);
                    assert(s[witness] == w[i]);
                    assert(s[s.len() - 1].id != s[witness].id);
                }
            }
        }
    }
}

} // verus!
