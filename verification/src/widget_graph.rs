//! The widget graph: the arena of state roots with parent back-links,
//! the table fanning state changes out to the nodes depending on them,
//! and the window-level dirty-rectangle and relayout bookkeeping.
//!
//! Each node records one state root's position, size, cached size
//! preference and relayout flag; a bounds change climbs the parent links
//! to the root, since an ancestor's layout depends on this child's
//! preference.

use vstd::prelude::*;
use crate::geom::{Vec2, Size, Rect};
use crate::size::PrefSize;
use crate::event::Change;
use crate::context::spec_merge_dirty;
use crate::state::StateID;

verus! {

/// One state root's bookkeeping in the graph.
#[derive(Clone, Copy, PartialEq, Eq, Structural, Debug)]
pub struct StateRoot {
    /// The owning node's index; the root points at itself.
    pub parent: u32,
    /// The state this subtree depends on.
    pub state: StateID,
    /// Where the subtree sits in its parent's coordinates.
    pub position: Vec2,
    /// The size the subtree was last laid out at.
    pub size: Size,
    /// The commit the subtree last saw.
    pub last_update: u64,
    /// The cached size preference.
    pub pref_size: PrefSize,
    /// Whether the cached preference and layout are stale.
    pub re_layout: bool,
}

impl StateRoot {
    /// Geometry within range.
    pub open spec fn wf(self) -> bool {
        self.position.wf() && self.size.wf() && self.pref_size.normalized()
    }

    /// A fresh node for `state` under `parent`, needing layout.
    pub fn new(parent: u32, state: StateID) -> (r: StateRoot)
        ensures
            r.parent == parent,
            r.state == state,
            r.position == (Vec2 { x: 0, y: 0 }),
            r.size == (Size { width: 0, height: 0 }),
            r.last_update == 0,
            r.re_layout,
            r.wf(),
    {
        StateRoot {
            parent,
            state,
            position: Vec2::zero(),
            size: Size::zero(),
            last_update: 0,
            pref_size: PrefSize::zero(),
            re_layout: true,
        }
    }
}

/// The dependency table: which graph nodes to revisit when a state
/// reports a new commit.
pub struct Env {
    /// Pairs of a state identity and the nodes depending on it.
    pub dependent_nodes: Vec<(u64, Vec<u32>)>,
}

impl Env {
    /// An empty table.
    pub fn new() -> (r: Env)
        ensures
            r.dependent_nodes@.len() == 0,
    {
        Env { dependent_nodes: Vec::new() }
    }

    /// Reborrows the table for a nested call.
    pub fn id(&mut self) -> (r: &mut Env)
        ensures
            *r == *old(self),
            *final(self) == *final(r),
    {
        self
    }

    /// Records that `node` depends on `state`: appended to the first
    /// entry for that state, or as a new entry at the end.
    pub fn register(&mut self, state: StateID, node: u32)
        ensures
            (exists|i: int|
                {
                    &&& 0 <= i < old(self).dependent_nodes@.len()
                    &&& (#[trigger] old(self).dependent_nodes@[i]).0 == state.0
                    &&& forall|j: int|
                        0 <= j < i ==> (#[trigger] old(self).dependent_nodes@[j]).0 != state.0
                    &&& final(self).dependent_nodes@.len() == old(self).dependent_nodes@.len()
                    &&& forall|k: int|
                        0 <= k < old(self).dependent_nodes@.len() && k != i ==> (
                        #[trigger] final(self).dependent_nodes@[k]) == old(self).dependent_nodes@[k]
                    &&& final(self).dependent_nodes@[i].0 == state.0
                    &&& final(self).dependent_nodes@[i].1@ == old(self).dependent_nodes@[i].1@.push(node)
                }) || ((forall|j: int|
                0 <= j < old(self).dependent_nodes@.len() ==> (#[trigger] old(self).dependent_nodes@[j]).0 != state.0) && final(self).dependent_nodes@.len() == old(self).dependent_nodes@.len() + 1 && (forall|k: int|
                0 <= k < old(self).dependent_nodes@.len() ==> (#[trigger] final(self).dependent_nodes@[k]) == old(self).dependent_nodes@[k]) && final(self).dependent_nodes@.last().0 == state.0 && final(self).dependent_nodes@.last().1@ == seq![node]),
    {
        let n = self.dependent_nodes.len();
        let mut i: usize = 0;
        while i < n
            invariant
                0 <= i <= n,
                n == self.dependent_nodes@.len(),
                self.dependent_nodes@ == old(self).dependent_nodes@,
                forall|j: int|
                    0 <= j < i ==> (#[trigger] old(self).dependent_nodes@[j]).0 != state.0,
            decreases n - i,
        {
            if self.dependent_nodes[i].0 == state.0 {
                self.dependent_nodes[i].1.push(node);
                return ;
            }
            i += 1;
        }
        let mut nodes: Vec<u32> = Vec::new();
        nodes.push(node);
        self.dependent_nodes.push((state.0, nodes));
        proof {
            assert(self.dependent_nodes@.last().1@ =~= seq![node]);
        }
    }

    /// The nodes depending on `state`, in registration order: the first
    /// entry for that state, or nothing for an unknown one.
    pub fn dependents(&self, state: StateID) -> (r: Vec<u32>)
        ensures
            (exists|i: int|
                {
                    &&& 0 <= i < self.dependent_nodes@.len()
                    &&& (#[trigger] self.dependent_nodes@[i]).0 == state.0
                    &&& forall|j: int|
                        0 <= j < i ==> (#[trigger] self.dependent_nodes@[j]).0 != state.0
                    &&& r@ == self.dependent_nodes@[i].1@
                }) || ((forall|j: int|
                0 <= j < self.dependent_nodes@.len() ==> (#[trigger] self.dependent_nodes@[j]).0
                    != state.0) && r@.len() == 0),
    {
        let n = self.dependent_nodes.len();
        let mut i: usize = 0;
        while i < n
            invariant
                0 <= i <= n,
                n == self.dependent_nodes@.len(),
                forall|j: int|
                    0 <= j < i ==> (#[trigger] self.dependent_nodes@[j]).0 != state.0,
            decreases n - i,
        {
            if self.dependent_nodes[i].0 == state.0 {
                return self.dependent_nodes[i].1.clone();
            }
            i += 1;
        }
        Vec::new()
    }
}

/// Whether node `j` lies on the parent chain of node `start`: `start`
/// itself, its parent, and so on up to the root.
pub open spec fn spec_on_chain(nodes: Seq<StateRoot>, start: int, j: int) -> bool
    decreases start,
{
    j == start || (0 < start && start < nodes.len() && nodes[start].parent < start
        && spec_on_chain(nodes, nodes[start].parent as int, j))
}

/// Parent links that point strictly upward, with the root at index zero.
pub open spec fn spec_parents_wf(nodes: Seq<StateRoot>) -> bool {
    &&& 0 < nodes.len()
    &&& nodes[0].parent == 0
    &&& forall|i: int| 1 <= i < nodes.len() ==> (#[trigger] nodes[i]).parent < i
}

/// Chain members never sit below the root or above their start.
pub proof fn lemma_chain_bounds(nodes: Seq<StateRoot>, start: int, j: int)
    requires
        spec_parents_wf(nodes),
        0 <= start < nodes.len(),
        spec_on_chain(nodes, start, j),
    ensures
        0 <= j <= start,
    decreases start,
{
    if j != start {
        lemma_chain_bounds(nodes, nodes[start].parent as int, j);
    }
}

/// The chain relation is transitive.
pub proof fn lemma_chain_trans(nodes: Seq<StateRoot>, s: int, m: int, j: int)
    requires
        spec_parents_wf(nodes),
        0 <= s < nodes.len(),
        spec_on_chain(nodes, s, m),
        spec_on_chain(nodes, m, j),
    ensures
        spec_on_chain(nodes, s, j),
    decreases s,
{
    if m != s {
        lemma_chain_trans(nodes, nodes[s].parent as int, m, j);
    }
}

/// Every chain reaches the root.
pub proof fn lemma_chain_reaches_root(nodes: Seq<StateRoot>, start: int)
    requires
        spec_parents_wf(nodes),
        0 <= start < nodes.len(),
    ensures
        spec_on_chain(nodes, start, 0),
    decreases start,
{
    if start != 0 {
        lemma_chain_reaches_root(nodes, nodes[start].parent as int);
    }
}

/// The runtime tree of state roots for one window.
pub struct WidgetGraph {
    /// The arena; index zero is the root.
    pub nodes: Vec<StateRoot>,
    /// The dependency table.
    pub env: Env,
    /// The window region known to need repainting.
    pub dirty_rect: Option<Rect>,
    /// The window size of the last layout pass.
    pub size: Size,
    /// The root's size preference of the last layout pass.
    pub pref_size: PrefSize,
    /// Whether the next frame must run layout again.
    pub re_layout: bool,
}

impl WidgetGraph {
    /// A non-empty tree whose parent links all point strictly upward.
    pub open spec fn wf(self) -> bool {
        &&& 1 <= self.nodes@.len() < 0xFFFF_FFFF
        &&& self.nodes@[0].parent == 0
        &&& forall|i: int|
            1 <= i < self.nodes@.len() ==> (#[trigger] self.nodes@[i]).parent < i
        &&& forall|i: int| 0 <= i < self.nodes@.len() ==> (#[trigger] self.nodes@[i]).wf()
        &&& match self.dirty_rect {
            Some(r) => r.wf(),
            None => true,
        }
        &&& self.size.wf()
        &&& self.pref_size.normalized()
    }

    /// A graph holding only the root state, which still needs layout.
    pub fn new(root_state: StateID) -> (r: WidgetGraph)
        ensures
            r.wf(),
            r.nodes@.len() == 1,
            r.nodes@[0].state == root_state,
            r.dirty_rect is None,
            r.re_layout,
    {
        let mut nodes: Vec<StateRoot> = Vec::new();
        nodes.push(StateRoot::new(0, root_state));
        let mut env = Env::new();
        env.register(root_state, 0);
        WidgetGraph {
            nodes,
            env,
            dirty_rect: None,
            size: Size::zero(),
            pref_size: PrefSize::zero(),
            re_layout: true,
        }
    }

    /// Materializes a child state root under `parent` and registers its
    /// dependency; returns the new node's index.
    pub fn insert(&mut self, parent: u32, state: StateID) -> (r: u32)
        requires
            old(self).wf(),
            (parent as int) < old(self).nodes@.len(),
            old(self).nodes@.len() < 0xFFFF_FFFE,
        ensures
            final(self).wf(),
            final(self).nodes@.len() == old(self).nodes@.len() + 1,
            r as int == old(self).nodes@.len(),
            final(self).nodes@[r as int].state == state,
            final(self).nodes@[r as int].parent == parent,
            forall|i: int|
                0 <= i < old(self).nodes@.len() ==> (#[trigger] final(self).nodes@[i]) == old(self).nodes@[i],
    {
        let index = self.nodes.len() as u32;
        self.nodes.push(StateRoot::new(parent, state));
        self.env.register(state, index);
        index
    }

    /// Marks a node and every node on its parent chain as needing
    /// layout, and nothing else: an ancestor's layout depends on this
    /// subtree's preference, a sibling's does not.
    pub fn bounds_changed(&mut self, index: u32)
        requires
            old(self).wf(),
            (index as int) < old(self).nodes@.len(),
        ensures
            final(self).wf(),
            final(self).nodes@.len() == old(self).nodes@.len(),
            forall|i: int|
                0 <= i < final(self).nodes@.len() ==> {
                    let n = #[trigger] final(self).nodes@[i];
                    let o = old(self).nodes@[i];
                    &&& n.parent == o.parent
                    &&& n.state == o.state
                    &&& n.position == o.position
                    &&& n.size == o.size
                    &&& n.last_update == o.last_update
                    &&& n.pref_size == o.pref_size
                    &&& n.re_layout == (o.re_layout || spec_on_chain(
                        old(self).nodes@,
                        index as int,
                        i,
                    ))
                },
            final(self).env == old(self).env,
            final(self).dirty_rect == old(self).dirty_rect,
            final(self).size == old(self).size,
            final(self).pref_size == old(self).pref_size,
            final(self).re_layout == old(self).re_layout,
    {
        let ghost olds = self.nodes@;
        let mut at = index as usize;
        while at != 0
            invariant
                self.wf(),
                at < self.nodes@.len(),
                (index as int) < olds.len(),
                self.nodes@.len() == olds.len(),
                olds == old(self).nodes@,
                spec_parents_wf(olds),
                spec_on_chain(olds, index as int, at as int),
                forall|i: int|
                    0 <= i < olds.len() ==> {
                        let n = #[trigger] self.nodes@[i];
                        let o = olds[i];
                        &&& n.parent == o.parent
                        &&& n.state == o.state
                        &&& n.position == o.position
                        &&& n.size == o.size
                        &&& n.last_update == o.last_update
                        &&& n.pref_size == o.pref_size
                        &&& n.re_layout == (o.re_layout || (spec_on_chain(olds, index as int, i)
                            && !spec_on_chain(olds, at as int, i)))
                    },
                self.env == old(self).env,
                self.dirty_rect == old(self).dirty_rect,
                self.size == old(self).size,
                self.pref_size == old(self).pref_size,
                self.re_layout == old(self).re_layout,
            decreases at,
        {
            self.nodes[at].re_layout = true;
            let parent = self.nodes[at].parent as usize;
            proof {
                let ia = at as int;
                let ip = parent as int;
                assert(spec_on_chain(olds, ip, ip));
                assert(spec_on_chain(olds, ia, ip));
                lemma_chain_trans(olds, index as int, ia, ip);
                if spec_on_chain(olds, ip, ia) {
                    lemma_chain_bounds(olds, ip, ia);
                }
            }
            at = parent;
        }
        self.nodes[0].re_layout = true;
        proof {
            lemma_chain_reaches_root(olds, index as int);
        }
    }

    /// Folds one node's reported change into the window bookkeeping: a
    /// content change moves into window coordinates and joins the dirty
    /// region; a bounds change climbs to the root and forces relayout.
    pub fn record_update(&mut self, index: u32, change: Change) -> (r: Change)
        requires
            old(self).wf(),
            (index as int) < old(self).nodes@.len(),
            change.wf(),
        ensures
            final(self).wf(),
            final(self).nodes@.len() == old(self).nodes@.len(),
            r == change.spec_shift(old(self).nodes@[index as int].position),
            r.wf(),
            final(self).env == old(self).env,
            final(self).size == old(self).size,
            final(self).pref_size == old(self).pref_size,
            match change {
                Change::Nothing => *final(self) == *old(self),
                Change::Content(rect) => {
                    &&& final(self).nodes@ == old(self).nodes@
                    &&& final(self).re_layout == old(self).re_layout
                    &&& final(self).dirty_rect == spec_merge_dirty(
                        old(self).dirty_rect,
                        Some(rect.spec_translate(old(self).nodes@[index as int].position)),
                    )
                },
                Change::Bounds => {
                    &&& final(self).dirty_rect == old(self).dirty_rect
                    &&& final(self).re_layout
                    &&& forall|i: int|
                        0 <= i < final(self).nodes@.len() ==> {
                            let n = #[trigger] final(self).nodes@[i];
                            let o = old(self).nodes@[i];
                            &&& n.parent == o.parent
                            &&& n.state == o.state
                            &&& n.position == o.position
                            &&& n.size == o.size
                            &&& n.pref_size == o.pref_size
                            &&& n.re_layout == (o.re_layout || spec_on_chain(
                                old(self).nodes@,
                                index as int,
                                i,
                            ))
                        }
                },
            },
    {
        let position = self.nodes[index as usize].position;
        if change.bounds_changed() {
            self.bounds_changed(index);
        }
        let shifted = change.shift(position);
        self.apply_change(shifted);
        shifted
    }

    /// Accumulates a window-level change: content joins the dirty
    /// region, bounds forces relayout.
    pub fn apply_change(&mut self, change: Change)
        requires
            old(self).wf(),
            change.wf(),
        ensures
            final(self).wf(),
            final(self).nodes@ == old(self).nodes@,
            match change {
                Change::Nothing => *final(self) == *old(self),
                Change::Content(rect) => final(self).dirty_rect == spec_merge_dirty(
                    old(self).dirty_rect,
                    Some(rect),
                ) && final(self).re_layout == old(self).re_layout,
                Change::Bounds => final(self).re_layout && final(self).dirty_rect == old(self).dirty_rect,
            },
            final(self).size == old(self).size,
            final(self).pref_size == old(self).pref_size,
            final(self).env == old(self).env,
    {
        match change {
            Change::Nothing => {},
            Change::Content(rect) => {
                match &self.dirty_rect {
                    Some(old_rect) => {
                        self.dirty_rect = Some(old_rect.union(rect));
                    },
                    None => {
                        self.dirty_rect = Some(rect);
                    },
                }
            },
            Change::Bounds => {
                self.re_layout = true;
            },
        }
    }

    /// The region to repaint, if any.
    pub fn dirty(&self) -> (r: Option<Rect>)
        ensures
            r == self.dirty_rect,
    {
        self.dirty_rect
    }

    /// Whether the next frame must run layout.
    pub fn needs_layout(&self) -> (r: bool)
        ensures
            r == self.re_layout,
    {
        self.re_layout
    }

    /// Decides whether a layout pass must run for `size`; when it must,
    /// the pass is recorded and the whole window becomes dirty.
    pub fn begin_layout(&mut self, size: Size) -> (run: bool)
        requires
            old(self).wf(),
            size.wf(),
        ensures
            final(self).wf(),
            run == (old(self).size != size || old(self).re_layout),
            run ==> final(self).size == size && !final(self).re_layout && final(self).dirty_rect
                == Some(Rect { x0: 0, y0: 0, x1: size.width, y1: size.height }),
            !run ==> *final(self) == *old(self),
            final(self).nodes@ == old(self).nodes@,
            final(self).env == old(self).env,
    {
        if self.size != size || self.re_layout {
            self.size = size;
            self.re_layout = false;
            self.dirty_rect = Some(size.to_rect());
            true
        } else {
            false
        }
    }

    /// Notes that a paint pass covered `dirty_rect`: when it covers the
    /// tracked dirty region, that region is settled.
    pub fn note_paint(&mut self, dirty_rect: Rect)
        requires
            old(self).wf(),
            dirty_rect.wf(),
        ensures
            final(self).wf(),
            match old(self).dirty_rect {
                None => final(self).dirty_rect is None,
                Some(r) => final(self).dirty_rect == if dirty_rect.spec_covers(r) {
                    None::<Rect>
                } else {
                    Some(r)
                },
            },
            final(self).nodes@ == old(self).nodes@,
            final(self).env == old(self).env,
            final(self).size == old(self).size,
            final(self).pref_size == old(self).pref_size,
            final(self).re_layout == old(self).re_layout,
    {
        let settled = match &self.dirty_rect {
            None => true,
            Some(r) => dirty_rect.covers(r),
        };
        if settled {
            self.dirty_rect = None;
        }
    }

    /// Whether a node's cached preference is stale.
    pub fn needs_pref(&self, index: u32) -> (r: bool)
        requires
            self.wf(),
            (index as int) < self.nodes@.len(),
        ensures
            r == self.nodes@[index as int].re_layout,
    {
        self.nodes[index as usize].re_layout
    }

    /// Caches a node's freshly computed preference.
    pub fn store_pref(&mut self, index: u32, pref: PrefSize)
        requires
            old(self).wf(),
            (index as int) < old(self).nodes@.len(),
            pref.normalized(),
        ensures
            final(self).wf(),
            final(self).nodes@ == old(self).nodes@.update(
                index as int,
                StateRoot { pref_size: pref, ..old(self).nodes@[index as int] },
            ),
    {
        self.nodes[index as usize].pref_size = pref;
    }

    /// Whether a node must be laid out again for `size`.
    pub fn node_needs_layout(&self, index: u32, size: Size) -> (r: bool)
        requires
            self.wf(),
            (index as int) < self.nodes@.len(),
        ensures
            r == (self.nodes@[index as int].re_layout || self.nodes@[index as int].size != size),
    {
        self.nodes[index as usize].re_layout || self.nodes[index as usize].size != size
    }

    /// Records that a node was laid out at `size`.
    pub fn store_layout(&mut self, index: u32, size: Size)
        requires
            old(self).wf(),
            (index as int) < old(self).nodes@.len(),
            size.wf(),
        ensures
            final(self).wf(),
            final(self).nodes@ == old(self).nodes@.update(
                index as int,
                StateRoot {
                    size,
                    re_layout: false,
                    ..old(self).nodes@[index as int]
                },
            ),
    {
        self.nodes[index as usize].size = size;
        self.nodes[index as usize].re_layout = false;
    }
}

} // verus!
