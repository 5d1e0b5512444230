//! Panes: the tabs of a pane, and the tree of split panes.
use vstd::prelude::*;
use crate::geometry::Rect;
use crate::views::SplitDirection;

verus! {

// ---------------------------------------------------------------------------
// Tabs of a pane
// ---------------------------------------------------------------------------
/// The tabs of a pane and which one is active.
pub struct TabList<T> {
    tabs: Vec<T>,
    active: usize,
}

impl<T> TabList<T> {
    /// The tabs.
    pub closed spec fn items(&self) -> Seq<T> {
        self.tabs@
    }

    /// The index of the active tab.
    pub closed spec fn active_index(&self) -> int {
        self.active as int
    }

    /// There is a tab and the active index points at one.
    pub closed spec fn wf(&self) -> bool {
        self.tabs@.len() > 0 && self.active < self.tabs@.len()
    }

    /// A pane with a single tab.
    pub fn new(tab: T) -> (res: Self)
        ensures
            res.wf(),
            res.items() == seq![tab],
            res.active_index() == 0,
    {
        let mut tabs = Vec::new();
        tabs.push(tab);
        TabList { tabs, active: 0 }
    }

    /// Get active tab.
    pub fn active_tab(&self) -> (res: &T)
        requires
            self.wf(),
        ensures
            *res == self.items()[self.active_index()],
    {
        &self.tabs[self.active]
    }

    /// Get tab count.
    pub fn tab_count(&self) -> (res: usize)
        ensures
            res == self.items().len(),
    {
        self.tabs.len()
    }

    /// Get active tab index.
    pub fn active_tab_index(&self) -> (res: usize)
        ensures
            res == self.active_index(),
    {
        self.active
    }

    /// Get tabs (for tab bar display).
    pub fn tabs(&self) -> (res: &[T])
        ensures
            res@ == self.items(),
    {
        self.tabs.as_slice()
    }

    /// Add a new tab at the end and make it active.
    pub fn add_tab(&mut self, tab: T)
        requires
            old(self).wf(),
        ensures
            final(self).wf(),
            final(self).items() == old(self).items().push(tab),
            final(self).active_index() == old(self).items().len(),
    {
        self.tabs.push(tab);
        self.active = self.tabs.len() - 1;
    }

    /// Close the active tab. Returns true if the pane should be removed
    /// instead (it has a single tab, which is kept). The tab after the
    /// closed one becomes active, or the last tab.
    pub fn close_active_tab(&mut self) -> (remove_pane: bool)
        requires
            old(self).wf(),
        ensures
            final(self).wf(),
            remove_pane == (old(self).items().len() <= 1),
            remove_pane ==> final(self).items() == old(self).items() && final(self).active_index() == old(self).active_index(),
            !remove_pane ==> final(self).items() == old(self).items().remove(old(self).active_index())
                && final(self).active_index() == if old(self).active_index() < final(self).items().len() {
                    old(self).active_index()
                } else {
                    final(self).items().len() - 1
                },
    {
        if self.tabs.len() <= 1 {
            return true;
        }
        self.tabs.remove(self.active);
        if self.active >= self.tabs.len() {
            self.active = self.tabs.len() - 1;
        }
        false
    }

    /// Close the tab at `index`. Returns true if the pane should be removed
    /// instead (it has a single tab, which is kept). An index past the tabs
    /// changes nothing. The active tab stays active where it is not the one
    /// closed.
    pub fn close_tab(&mut self, index: usize) -> (remove_pane: bool)
        requires
            old(self).wf(),
        ensures
            final(self).wf(),
            index >= old(self).items().len() ==> !remove_pane && final(self).items() == old(self).items()
                && final(self).active_index() == old(self).active_index(),
            index < old(self).items().len() ==> remove_pane == (old(self).items().len() <= 1),
            (index < old(self).items().len() && remove_pane) ==> final(self).items() == old(self).items()
                && final(self).active_index() == old(self).active_index(),
            (index < old(self).items().len() && !remove_pane) ==> final(self).items() == old(self).items().remove(index as int)
                && final(self).active_index() == if old(self).active_index() >= final(self).items().len() {
                    final(self).items().len() - 1
                } else if old(self).active_index() > index {
                    old(self).active_index() - 1
                } else {
                    old(self).active_index()
                },
    {
        if index >= self.tabs.len() {
            return false;
        }
        if self.tabs.len() <= 1 {
            return true;
        }
        self.tabs.remove(index);
        if self.active >= self.tabs.len() {
            self.active = self.tabs.len() - 1;
        } else if self.active > index {
            self.active = self.active - 1;
        }
        false
    }

    /// Set active tab index (an index past the tabs changes nothing).
    pub fn set_active_tab(&mut self, index: usize)
        requires
            old(self).wf(),
        ensures
            final(self).wf(),
            final(self).items() == old(self).items(),
            final(self).active_index() == if index < old(self).items().len() {
                index as int
            } else {
                old(self).active_index()
            },
    {
        if index < self.tabs.len() {
            self.active = index;
        }
    }

    /// Cycle to next tab (after the last comes the first).
    pub fn next_tab(&mut self)
        requires
            old(self).wf(),
        ensures
            final(self).wf(),
            final(self).items() == old(self).items(),
            final(self).active_index() == (old(self).active_index() + 1) % (old(self).items().len() as int),
    {
        assert(self.active < self.tabs.len());
        self.active = (self.active + 1) % self.tabs.len();
    }

    /// Cycle to previous tab (before the first comes the last).
    pub fn prev_tab(&mut self)
        requires
            old(self).wf(),
        ensures
            final(self).wf(),
            final(self).items() == old(self).items(),
            final(self).active_index() == if old(self).active_index() == 0 {
                old(self).items().len() - 1
            } else {
                old(self).active_index() - 1
            },
    {
        self.active = if self.active == 0 {
            self.tabs.len() - 1
        } else {
            self.active - 1
        };
    }
}

/// The tab after `a` of `n`, cycling.
pub open spec fn next_index(a: int, n: int) -> int {
    (a + 1) % n
}

/// The tab before `a` of `n`, cycling.
pub open spec fn prev_index(a: int, n: int) -> int {
    if a == 0 {
        n - 1
    } else {
        a - 1
    }
}

/// Going to the next tab and back to the previous one (or the other way)
/// comes back to the same tab.
pub proof fn law_next_prev_tab(a: int, n: int)
    requires
        0 <= a < n,
    ensures
        prev_index(next_index(a, n), n) == a,
        next_index(prev_index(a, n), n) == a,
{
    if a + 1 < n {
        assert((a + 1) % n == a + 1) by (nonlinear_arith)
            requires
                0 <= a + 1 < n,
        ;
    } else {
        assert((a + 1) % n == 0) by (nonlinear_arith)
            requires
                a + 1 == n,
                n > 0,
        ;
    }
    if a == 0 {
        assert((n - 1 + 1) % n == 0) by (nonlinear_arith)
            requires
                n > 0,
        ;
    } else {
        assert((a - 1 + 1) % n == a) by (nonlinear_arith)
            requires
                0 <= a < n,
        ;
    }
}

// ---------------------------------------------------------------------------
// Split panes
// ---------------------------------------------------------------------------
/// The layout of the panes: a leaf pane with its id, or a split of two.
#[derive(Debug)]
pub enum PaneTree {
    /// A pane holding tabs.
    Leaf(u32),
    /// Two panes side by side (horizontal) or one above the other (vertical).
    Split(SplitDirection, Box<PaneTree>, Box<PaneTree>),
}

/// The leaf panes' ids, from first (left or top) to last.
pub open spec fn leaves(t: PaneTree) -> Seq<u32>
    decreases t,
{
    match t {
        PaneTree::Leaf(id) => seq![id],
        PaneTree::Split(_, a, b) => leaves(*a) + leaves(*b),
    }
}

/// The number of nodes, a measure that shrinks towards the leaves.
pub open spec fn size(t: PaneTree) -> nat
    decreases t,
{
    match t {
        PaneTree::Leaf(_) => 1,
        PaneTree::Split(_, a, b) => 1 + size(*a) + size(*b),
    }
}

/// The tree after splitting the first leaf with id `target`: it becomes a
/// split of itself and a new leaf `new_id`, in `direction`.
pub open spec fn split_spec(t: PaneTree, target: u32, direction: SplitDirection, new_id: u32) -> PaneTree
    decreases t,
{
    match t {
        PaneTree::Leaf(id) => if id == target {
            PaneTree::Split(direction, Box::new(PaneTree::Leaf(id)), Box::new(PaneTree::Leaf(new_id)))
        } else {
            t
        },
        PaneTree::Split(d, a, b) => if leaves(*a).contains(target) {
            PaneTree::Split(d, Box::new(split_spec(*a, target, direction, new_id)), b)
        } else {
            PaneTree::Split(d, a, Box::new(split_spec(*b, target, direction, new_id)))
        },
    }
}

/// The tree after closing the leaf `target`, and the leaf to focus then:
/// where a split holds the leaf directly, the split gives way to the other
/// side, whose first leaf is focused; else the side holding the leaf (the
/// first side when both do) closes it. The root leaf is never closed.
pub open spec fn remove_spec(t: PaneTree, target: u32) -> (PaneTree, Option<u32>)
    decreases t,
{
    match t {
        PaneTree::Leaf(_) => (t, None),
        PaneTree::Split(d, a, b) => if *a == PaneTree::Leaf(target) {
            (*b, Some(leaves(*b)[0]))
        } else if *b == PaneTree::Leaf(target) {
            (*a, Some(leaves(*a)[0]))
        } else if leaves(*a).contains(target) {
            let (na, r) = remove_spec(*a, target);
            (PaneTree::Split(d, Box::new(na), b), r)
        } else {
            let (nb, r) = remove_spec(*b, target);
            (PaneTree::Split(d, a, Box::new(nb)), r)
        },
    }
}

/// Every tree has a leaf.
pub proof fn lemma_leaves_nonempty(t: PaneTree)
    ensures
        leaves(t).len() > 0,
    decreases t,
{
    match t {
        PaneTree::Leaf(_) => {},
        PaneTree::Split(_, a, b) => {
            lemma_leaves_nonempty(*a);
        },
    }
}

impl PaneTree {
    /// Get pane ID (for leaf panes).
    pub fn id(&self) -> (res: Option<u32>)
        ensures
            res == match *self {
                PaneTree::Leaf(id) => Some(id),
                _ => None,
            },
    {
        match self {
            PaneTree::Leaf(id) => Some(*id),
            PaneTree::Split(..) => None,
        }
    }

    /// Get the first leaf ID in this pane tree.
    pub fn first_leaf_id(&self) -> (res: u32)
        ensures
            leaves(*self).len() > 0,
            res == leaves(*self)[0],
        decreases self,
    {
        proof {
            lemma_leaves_nonempty(*self);
        }
        match self {
            PaneTree::Leaf(id) => *id,
            PaneTree::Split(_, a, _) => {
                let r = a.first_leaf_id();
                r
            },
        }
    }

    /// Get all leaf pane IDs, first to last.
    pub fn leaf_ids(&self) -> (res: Vec<u32>)
        ensures
            res@ == leaves(*self),
        decreases self,
    {
        match self {
            PaneTree::Leaf(id) => {
                let mut v = Vec::new();
                v.push(*id);
                assert(v@ =~= seq![*id]);
                v
            },
            PaneTree::Split(_, a, b) => {
                let mut v = a.leaf_ids();
                let mut w = b.leaf_ids();
                v.append(&mut w);
                v
            },
        }
    }

    /// Whether a leaf has this id.
    pub fn contains(&self, target: u32) -> (res: bool)
        ensures
            res == leaves(*self).contains(target),
        decreases self,
    {
        match self {
            PaneTree::Leaf(id) => {
                assert(leaves(*self) =~= seq![*id]);
                if *id == target {
                    assert(leaves(*self)[0] == target);
                }
                *id == target
            },
            PaneTree::Split(_, a, b) => {
                let ra = a.contains(target);
                let rb = b.contains(target);
                proof {
                    let la = leaves(**a);
                    let lb = leaves(**b);
                    if ra {
                        let k = choose|k: int| 0 <= k < la.len() && la[k] == target;
                        assert((la + lb)[k] == target);
                    } else if rb {
                        let k = choose|k: int| 0 <= k < lb.len() && lb[k] == target;
                        assert((la + lb)[la.len() + k] == target);
                    } else {
                        assert forall|k: int| 0 <= k < (la + lb).len() implies (la + lb)[k] != target by {
                            if k < la.len() {
                                assert((la + lb)[k] == la[k]);
                            } else {
                                assert((la + lb)[k] == lb[k - la.len()]);
                            }
                        }
                    }
                }
                ra || rb
            },
        }
    }

    /// Remove a pane by ID. Returns the ID of a pane to focus instead (the
    /// first leaf of what takes its place), or None where there is no such
    /// pane or it is the only one.
    pub fn remove_pane(&mut self, target: u32) -> (res: Option<u32>)
        ensures
            (*final(self), res) == remove_spec(*old(self), target),
        decreases size(*old(self)),
    {
        let mut t = PaneTree::Leaf(0);
        std::mem::swap(&mut t, self);
        match t {
            PaneTree::Leaf(id) => {
                *self = PaneTree::Leaf(id);
                None
            },
            PaneTree::Split(d, a, b) => {
                if a.id() == Some(target) {
                    let sib = b.first_leaf_id();
                    *self = *b;
                    Some(sib)
                } else if b.id() == Some(target) {
                    let sib = a.first_leaf_id();
                    *self = *a;
                    Some(sib)
                } else if a.contains(target) {
                    let mut na = *a;
                    let r = na.remove_pane(target);
                    *self = PaneTree::Split(d, Box::new(na), b);
                    r
                } else {
                    let mut nb = *b;
                    let r = nb.remove_pane(target);
                    *self = PaneTree::Split(d, a, Box::new(nb));
                    r
                }
            },
        }
    }

    /// Split the first leaf with id `target` into itself and a new leaf
    /// `new_id` after it. Returns whether there was such a leaf.
    pub fn split_leaf(&mut self, target: u32, direction: SplitDirection, new_id: u32) -> (found: bool)
        ensures
            found == leaves(*old(self)).contains(target),
            *final(self) == split_spec(*old(self), target, direction, new_id),
        decreases size(*old(self)),
    {
        let mut t = PaneTree::Leaf(0);
        std::mem::swap(&mut t, self);
        match t {
            PaneTree::Leaf(id) => {
                if id == target {
                    *self = PaneTree::Split(direction, Box::new(PaneTree::Leaf(id)), Box::new(PaneTree::Leaf(new_id)));
                    assert(leaves(PaneTree::Leaf(id))[0] == target);
                    true
                } else {
                    *self = PaneTree::Leaf(id);
                    assert(leaves(PaneTree::Leaf(id)) =~= seq![id]);
                    false
                }
            },
            PaneTree::Split(d, a, b) => {
                let in_a = a.contains(target);
                if in_a {
                    let mut na = *a;
                    let f = na.split_leaf(target, direction, new_id);
                    *self = PaneTree::Split(d, Box::new(na), b);
                    proof {
                        let la = leaves(*old(self)->1);
                        let k = choose|k: int| 0 <= k < la.len() && la[k] == target;
                        assert(leaves(*old(self))[k] == target);
                    }
                    f
                } else {
                    let mut nb = *b;
                    let f = nb.split_leaf(target, direction, new_id);
                    *self = PaneTree::Split(d, a, Box::new(nb));
                    proof {
                        let la = leaves(*old(self)->1);
                        let lb = leaves(*old(self)->2);
                        if f {
                            let k = choose|k: int| 0 <= k < lb.len() && lb[k] == target;
                            assert(leaves(*old(self))[la.len() + k] == target);
                        } else {
                            assert forall|k: int| 0 <= k < (la + lb).len() implies (la + lb)[k] != target by {
                                if k < la.len() {
                                    assert((la + lb)[k] == la[k]);
                                } else {
                                    assert((la + lb)[k] == lb[k - la.len()]);
                                }
                            }
                        }
                    }
                    f
                }
            },
        }
    }
}

/// No two leaves share an id.
pub open spec fn distinct_ids(s: Seq<u32>) -> bool {
    forall|i: int, j: int| 0 <= i < j < s.len() ==> s[i] != s[j]
}

/// `i` is the first position of `x` in `s`.
pub open spec fn first_position(s: Seq<u32>, x: u32, i: int) -> bool {
    &&& 0 <= i < s.len()
    &&& s[i] == x
    &&& forall|j: int| 0 <= j < i ==> s[j] != x
}

/// Splitting a leaf puts the new leaf right after it in the order of the
/// leaves; splitting a leaf that is not there changes nothing.
pub proof fn law_split_adds_leaf(t: PaneTree, target: u32, d: SplitDirection, new_id: u32)
    ensures
        !leaves(t).contains(target) ==> split_spec(t, target, d, new_id) == t,
        leaves(t).contains(target) ==> exists|i: int|
            first_position(leaves(t), target, i) && leaves(split_spec(t, target, d, new_id))
                == #[trigger] leaves(t).insert(i + 1, new_id),
    decreases t,
{
    match t {
        PaneTree::Leaf(id) => {
            if id == target {
                assert(first_position(leaves(t), target, 0));
                assert(leaves(PaneTree::Leaf(id)) =~= seq![id]);
                assert(leaves(PaneTree::Leaf(new_id)) =~= seq![new_id]);
                assert(leaves(split_spec(t, target, d, new_id)) =~= leaves(t).insert(1, new_id));
            } else {
                assert(leaves(t) =~= seq![id]);
                assert(!leaves(t).contains(target));
            }
        },
        PaneTree::Split(dd, a, b) => {
            law_split_adds_leaf(*a, target, d, new_id);
            law_split_adds_leaf(*b, target, d, new_id);
            let la = leaves(*a);
            let lb = leaves(*b);
            if la.contains(target) {
                let i = choose|i: int|
                    first_position(la, target, i) && leaves(split_spec(*a, target, d, new_id))
                        == #[trigger] la.insert(i + 1, new_id);
                assert(first_position(la + lb, target, i));
                assert(la.insert(i + 1, new_id) + lb =~= (la + lb).insert(i + 1, new_id));
            } else if lb.contains(target) {
                let i = choose|i: int|
                    first_position(lb, target, i) && leaves(split_spec(*b, target, d, new_id))
                        == #[trigger] lb.insert(i + 1, new_id);
                assert(first_position(la + lb, target, la.len() + i));
                assert(la + lb.insert(i + 1, new_id) =~= (la + lb).insert(la.len() + i + 1, new_id));
            } else {
                assert forall|k: int| 0 <= k < (la + lb).len() implies (la + lb)[k] != target by {
                    if k < la.len() {
                        assert((la + lb)[k] == la[k]);
                    } else {
                        assert((la + lb)[k] == lb[k - la.len()]);
                    }
                }
            }
        },
    }
}

/// Closing a pane of a split layout whose panes have distinct ids removes
/// exactly that pane from the order of the leaves, and the pane to focus
/// instead is one of those left.
#[verifier::rlimit(40)]
#[verifier::spinoff_prover]
pub proof fn law_remove_drops_leaf(t: PaneTree, target: u32)
    requires
        t is Split,
        distinct_ids(leaves(t)),
        leaves(t).contains(target),
    ensures
        exists|i: int|
            0 <= i < leaves(t).len() && leaves(t)[i] == target && leaves(remove_spec(t, target).0)
                == #[trigger] leaves(t).remove(i),
        remove_spec(t, target).1 matches Some(f) && leaves(remove_spec(t, target).0).contains(f),
    decreases t,
{
    match t {
        PaneTree::Leaf(_) => {},
        PaneTree::Split(d, a, b) => {
            let la = leaves(*a);
            let lb = leaves(*b);
            let all = la + lb;
            lemma_leaves_nonempty(*a);
            lemma_leaves_nonempty(*b);
            assert forall|i: int, j: int| 0 <= i < j < la.len() implies la[i] != la[j] by {
                assert(all[i] == la[i] && all[j] == la[j]);
            }
            assert forall|i: int, j: int| 0 <= i < j < lb.len() implies lb[i] != lb[j] by {
                assert(all[la.len() + i] == lb[i] && all[la.len() + j] == lb[j]);
            }
            if *a == PaneTree::Leaf(target) {
                assert(la =~= seq![target]);
                assert(all.remove(0) =~= lb);
                assert(lb.contains(lb[0]));
            } else if *b == PaneTree::Leaf(target) {
                assert(lb =~= seq![target]);
                assert(all.remove(la.len() as int) =~= la);
                assert(la.contains(la[0]));
            } else if la.contains(target) {
                let k = choose|k: int| 0 <= k < la.len() && la[k] == target;
                assert(*a is Split) by {
                    if let PaneTree::Leaf(x) = *a {
                        assert(la =~= seq![x]);
                        assert(x == target);
                    }
                }
                law_remove_drops_leaf(*a, target);
                let i = choose|i: int|
                    0 <= i < la.len() && la[i] == target && leaves(remove_spec(*a, target).0)
                        == #[trigger] la.remove(i);
                assert(all[i] == target);
                assert(la.remove(i) + lb =~= all.remove(i));
                let f = remove_spec(*a, target).1->0;
                let na = leaves(remove_spec(*a, target).0);
                let m = choose|m: int| 0 <= m < na.len() && na[m] == f;
                assert((na + lb)[m] == f);
            } else {
                let k = choose|k: int| 0 <= k < all.len() && all[k] == target;
                if k < la.len() {
                    assert(all[k] == la[k]);
                }
                assert(all[k] == lb[k - la.len()]);
                assert(lb.contains(target));
                assert(*b is Split) by {
                    if let PaneTree::Leaf(x) = *b {
                        assert(lb =~= seq![x]);
                        assert(lb[0] == target);
                    }
                }
                law_remove_drops_leaf(*b, target);
                let i = choose|i: int|
                    0 <= i < lb.len() && lb[i] == target && leaves(remove_spec(*b, target).0)
                        == #[trigger] lb.remove(i);
                assert(all[la.len() + i] == target);
                assert(la + lb.remove(i) =~= all.remove(la.len() + i));
                let f = remove_spec(*b, target).1->0;
                let nb = leaves(remove_spec(*b, target).0);
                let m = choose|m: int| 0 <= m < nb.len() && nb[m] == f;
                assert((la + nb)[la.len() + m] == f);
            }
        },
    }
}


// ---------------------------------------------------------------------------
// Moving the focus between panes
// ---------------------------------------------------------------------------
/// A direction to look for a neighbouring pane in.
#[derive(Debug, Clone, Copy, PartialEq, Eq, Structural)]
pub enum PaneDirection {
    Left,
    Right,
    Up,
    Down,
}

/// The center of a pane.
pub open spec fn center_of(r: Rect) -> (int, int) {
    (r.x + r.width / 2, r.y + r.height / 2)
}

/// The absolute value.
pub open spec fn abs_of(v: int) -> int {
    if v >= 0 { v } else { -v }
}

/// How good a candidate pane is as the neighbour in a direction (lower is
/// better): it must lie that way (its center beyond the current one's),
/// and is scored by how far it is off the line of that direction (a
/// thousand times) plus how far it is along it. `None` for a pane that does
/// not lie that way.
pub open spec fn neighbour_score(cur: Rect, cand: Rect, d: PaneDirection) -> Option<int> {
    let (cx, cy) = center_of(cur);
    let (px, py) = center_of(cand);
    match d {
        PaneDirection::Left => if px >= cx { None } else { Some(abs_of(cy - py) * 1000 + abs_of(cx - px)) },
        PaneDirection::Right => if px <= cx { None } else { Some(abs_of(cy - py) * 1000 + abs_of(px - cx)) },
        PaneDirection::Up => if py >= cy { None } else { Some(abs_of(cx - px) * 1000 + abs_of(cy - py)) },
        PaneDirection::Down => if py <= cy { None } else { Some(abs_of(cx - px) * 1000 + abs_of(py - cy)) },
    }
}

/// The first leaf with this id.
pub open spec fn leaf_rect(leaves: Seq<(u32, Rect)>, id: u32, k: int) -> Option<Rect>
    decreases leaves.len() - k,
{
    if k < 0 || k >= leaves.len() {
        None
    } else if leaves[k].0 == id {
        Some(leaves[k].1)
    } else {
        leaf_rect(leaves, id, k + 1)
    }
}

/// The best neighbour among the first `k` leaves and its score (the first
/// of equally good ones; `u32::MAX` before any).
pub open spec fn best_among(leaves: Seq<(u32, Rect)>, cur: Rect, current_id: u32, d: PaneDirection, k: int) -> (
    Option<u32>,
    int,
)
    decreases k,
{
    if k <= 0 {
        (None, u32::MAX as int)
    } else {
        let (b, s) = best_among(leaves, cur, current_id, d, k - 1);
        let (id, r) = leaves[k - 1];
        if id == current_id {
            (b, s)
        } else {
            match neighbour_score(cur, r, d) {
                Some(sc) => if sc < s { (Some(id), sc) } else { (b, s) },
                None => (b, s),
            }
        }
    }
}

/// The pane to move the focus to from pane `current_id`, in a direction,
/// among the leaf panes (id and bounds, in the tree's order).
pub open spec fn neighbour(leaves: Seq<(u32, Rect)>, current_id: u32, d: PaneDirection) -> Option<u32> {
    match leaf_rect(leaves, current_id, 0) {
        Some(cur) => best_among(leaves, cur, current_id, d, leaves.len() as int).0,
        None => None,
    }
}

/// Pane rectangles far enough inside `i32` for the scores to fit.
pub open spec fn modest_rect(r: Rect) -> bool {
    -0x10_0000 <= r.x <= 0x10_0000 && -0x10_0000 <= r.y <= 0x10_0000 && r.width <= 0x10_0000 && r.height
        <= 0x10_0000
}

fn center_exec(r: Rect) -> (res: (i64, i64))
    requires
        modest_rect(r),
    ensures
        (res.0 as int, res.1 as int) == center_of(r),
{
    (r.x as i64 + (r.width / 2) as i64, r.y as i64 + (r.height / 2) as i64)
}

fn score_exec(cur: Rect, cand: Rect, d: PaneDirection) -> (res: Option<i64>)
    requires
        modest_rect(cur),
        modest_rect(cand),
    ensures
        match (res, neighbour_score(cur, cand, d)) {
            (Some(a), Some(b)) => a == b,
            (None, None) => true,
            _ => false,
        },
{
    let (cx, cy) = center_exec(cur);
    let (px, py) = center_exec(cand);
    let ax: i64 = if cx - px >= 0 { cx - px } else { px - cx };
    let ay: i64 = if cy - py >= 0 { cy - py } else { py - cy };
    match d {
        PaneDirection::Left => if px >= cx { None } else { Some(ay * 1000 + ax) },
        PaneDirection::Right => if px <= cx { None } else { Some(ay * 1000 + ax) },
        PaneDirection::Up => if py >= cy { None } else { Some(ax * 1000 + ay) },
        PaneDirection::Down => if py <= cy { None } else { Some(ax * 1000 + ay) },
    }
}

fn leaf_rect_exec(leaves: &Vec<(u32, Rect)>, id: u32) -> (res: Option<Rect>)
    requires
        forall|k: int| 0 <= k < leaves@.len() ==> modest_rect(#[trigger] leaves@[k].1),
    ensures
        res == leaf_rect(leaves@, id, 0),
        res matches Some(r) ==> modest_rect(r),
{
    let mut k: usize = 0;
    while k < leaves.len()
        invariant
            k <= leaves@.len(),
            forall|j: int| 0 <= j < leaves@.len() ==> modest_rect(#[trigger] leaves@[j].1),
            leaf_rect(leaves@, id, 0) == leaf_rect(leaves@, id, k as int),
        decreases leaves@.len() - k,
    {
        if leaves[k].0 == id {
            assert(modest_rect(leaves@[k as int].1));
            return Some(leaves[k].1);
        }
        k = k + 1;
    }
    None
}

/// The pane to move the focus to from pane `current_id` in a direction:
/// the leaf whose center lies that way, closest to the line of that
/// direction and then closest along it (the first of equally good ones).
pub fn neighbour_pane(leaves: &Vec<(u32, Rect)>, current_id: u32, d: PaneDirection) -> (res: Option<u32>)
    requires
        forall|k: int| 0 <= k < leaves@.len() ==> modest_rect(#[trigger] leaves@[k].1),
    ensures
        res == neighbour(leaves@, current_id, d),
{
    let cur = leaf_rect_exec(leaves, current_id);
    let cur = match cur {
        Some(r) => r,
        None => {
            return None;
        },
    };
    assert(leaf_rect(leaves@, current_id, 0) == Some(cur));
    let mut best: Option<u32> = None;
    let mut best_score: i64 = u32::MAX as i64;
    let mut i: usize = 0;
    while i < leaves.len()
        invariant
            i <= leaves@.len(),
            modest_rect(cur),
            forall|k: int| 0 <= k < leaves@.len() ==> modest_rect(#[trigger] leaves@[k].1),
            (best, best_score as int) == best_among(leaves@, cur, current_id, d, i as int),
            best_score <= u32::MAX,
        decreases leaves@.len() - i,
    {
        let (id, r) = leaves[i];
        if id != current_id {
            match score_exec(cur, r, d) {
                Some(sc) => {
                    if sc < best_score {
                        best_score = sc;
                        best = Some(id);
                    }
                },
                None => {},
            }
        }
        i = i + 1;
    }
    best
}


proof fn lemma_best_among(leaves: Seq<(u32, Rect)>, cur: Rect, current_id: u32, d: PaneDirection, k: int)
    requires
        0 <= k <= leaves.len(),
    ensures
        best_among(leaves, cur, current_id, d, k).0 matches Some(n) ==> (n != current_id && exists|j: int|
            0 <= j < k && (#[trigger] leaves[j]).0 == n && neighbour_score(cur, leaves[j].1, d) is Some),
    decreases k,
{
    if k > 0 {
        lemma_best_among(leaves, cur, current_id, d, k - 1);
    }
}

/// The pane the focus moves to is another pane, and it lies in the
/// direction asked for.
pub proof fn law_neighbour_lies_that_way(leaves: Seq<(u32, Rect)>, current_id: u32, d: PaneDirection)
    ensures
        neighbour(leaves, current_id, d) matches Some(n) ==> (n != current_id && (leaf_rect(leaves, current_id, 0)
            matches Some(cur) && exists|j: int|
            0 <= j < leaves.len() && (#[trigger] leaves[j]).0 == n && neighbour_score(cur, leaves[j].1, d) is Some)),
{
    match leaf_rect(leaves, current_id, 0) {
        Some(cur) => lemma_best_among(leaves, cur, current_id, d, leaves.len() as int),
        None => {},
    }
}

} // verus!
