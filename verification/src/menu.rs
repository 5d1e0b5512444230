//! Context menu items, their layout height and keyboard focus.
use vstd::prelude::*;
use crate::text::copy_string;

verus! {

/// Menu item height.
pub const ITEM_HEIGHT: u32 = 28;

/// Separator height.
pub const SEPARATOR_HEIGHT: u32 = 9;

/// Minimum menu width.
pub const MIN_MENU_WIDTH: u32 = 200;

/// Padding inside menu.
pub const MENU_PADDING: u32 = 4;

/// Context type determining which menu items to show.
#[derive(Debug, Clone, Copy, PartialEq, Eq, Structural)]
pub enum ContextType {
    /// Right-click on a file.
    File,
    /// Right-click on a folder.
    Folder,
    /// Right-click on empty space in file view.
    EmptySpace,
    /// Multi-selection context.
    MultiSelection,
}

/// A context menu action.
#[derive(Debug)]
pub enum ContextMenuAction {
    Open,
    OpenWith(String),
    OpenInNewTab,
    Copy,
    Cut,
    Duplicate,
    Rename,
    Trash,
    Delete,
    Properties,
    NewFile,
    NewFolder,
    Paste,
    Refresh,
    ViewList,
    ViewGrid,
    ViewColumns,
    SortByName,
    SortBySize,
    SortByDate,
    SortByType,
    CopyAll,
    CutAll,
    TrashAll,
    DeleteAll,
}

/// A single menu item.
#[derive(Debug)]
pub enum MenuItem {
    /// Regular action item.
    Action { label: String, action: ContextMenuAction, shortcut: Option<String>, enabled: bool },
    /// Separator line.
    Separator,
    /// Submenu with nested items.
    Submenu { label: String, items: Vec<MenuItem> },
}

/// Height an item takes in the menu.
pub open spec fn item_height(item: MenuItem) -> u32 {
    match item {
        MenuItem::Separator => SEPARATOR_HEIGHT,
        _ => ITEM_HEIGHT,
    }
}

impl MenuItem {
    /// Create a new action item (enabled, no shortcut).
    pub fn action(label: &str, action: ContextMenuAction) -> (res: Self)
        ensures
            res matches MenuItem::Action { label: l, action: a, shortcut, enabled } && l@ == label@
                && a == action && shortcut is None && enabled,
    {
        MenuItem::Action { label: copy_string(label), action, shortcut: None, enabled: true }
    }

    /// Add a keyboard shortcut hint (other items are returned unchanged).
    pub fn with_shortcut(self, shortcut: &str) -> (res: Self)
        ensures
            match self {
                MenuItem::Action { label, action, enabled, .. } => res matches MenuItem::Action {
                    label: l,
                    action: a,
                    shortcut: Some(s),
                    enabled: e,
                } && l == label && a == action && e == enabled && s@ == shortcut@,
                _ => res == self,
            },
    {
        match self {
            MenuItem::Action { label, action, enabled, .. } => MenuItem::Action {
                label,
                action,
                shortcut: Some(copy_string(shortcut)),
                enabled,
            },
            other => other,
        }
    }

    /// Set enabled state (other items are returned unchanged).
    pub fn with_enabled(self, enabled: bool) -> (res: Self)
        ensures
            match self {
                MenuItem::Action { label, action, shortcut, .. } => res == (MenuItem::Action {
                    label,
                    action,
                    shortcut,
                    enabled,
                }),
                _ => res == self,
            },
    {
        match self {
            MenuItem::Action { label, action, shortcut, .. } => MenuItem::Action {
                label,
                action,
                shortcut,
                enabled,
            },
            other => other,
        }
    }

    /// Create a submenu.
    pub fn submenu(label: &str, items: Vec<MenuItem>) -> (res: Self)
        ensures
            res matches MenuItem::Submenu { label: l, items: i } && l@ == label@ && i == items,
    {
        MenuItem::Submenu { label: copy_string(label), items }
    }

    /// Create a separator.
    pub fn separator() -> (res: Self)
        ensures
            res is Separator,
    {
        MenuItem::Separator
    }

    /// Check if this is a separator.
    pub fn is_separator(&self) -> (res: bool)
        ensures
            res == (*self is Separator),
    {
        match self {
            MenuItem::Separator => true,
            _ => false,
        }
    }

    /// Get the height of this item.
    pub fn height(&self) -> (res: u32)
        ensures
            res == item_height(*self),
    {
        match self {
            MenuItem::Separator => SEPARATOR_HEIGHT,
            _ => ITEM_HEIGHT,
        }
    }
}

/// Sum of the heights of the items.
pub open spec fn items_height(items: Seq<MenuItem>) -> nat
    decreases items.len(),
{
    if items.len() == 0 {
        0
    } else {
        items_height(items.drop_last()) + item_height(items.last()) as nat
    }
}

/// Width and height of a menu with these items: a fixed width, the items'
/// heights plus padding above and below.
pub fn menu_size(items: &Vec<MenuItem>) -> (res: (u32, u32))
    requires
        items@.len() <= 100_000_000,
    ensures
        res.0 == MIN_MENU_WIDTH + 60,
        res.1 == items_height(items@) + 2 * MENU_PADDING,
{
    let mut h: u32 = 0;
    let mut i: usize = 0;
    while i < items.len()
        invariant
            i <= items.len() <= 100_000_000,
            h == items_height(items@.take(i as int)),
            h <= 28 * i,
        decreases items.len() - i,
    {
        assert(items@.take(i + 1).drop_last() == items@.take(i as int));
        h = h + items[i].height();
        i = i + 1;
    }
    assert(items@.take(items@.len() as int) == items@);
    (MIN_MENU_WIDTH + 60, h + 2 * MENU_PADDING)
}

/// The item focused after moving by one among the non-separator items
/// (`forward` or back, wrapping around); a focus that is not on such an item
/// counts as being on the first one. `None` when every item is a separator.
pub open spec fn moved_focus(seps: Seq<bool>, focused: Option<int>, forward: bool) -> Option<int> {
    let act = actionable(seps);
    if act.len() == 0 {
        None
    } else {
        let cur = match focused {
            Some(f) => if act.contains(f) {
                act.index_of(f)
            } else {
                0
            },
            None => 0,
        };
        let next = if forward {
            (cur + 1) % (act.len() as int)
        } else if cur == 0 {
            act.len() - 1
        } else {
            cur - 1
        };
        Some(act[next])
    }
}

/// Indices of the items that are not separators, in order.
pub open spec fn actionable(seps: Seq<bool>) -> Seq<int>
    decreases seps.len(),
{
    if seps.len() == 0 {
        Seq::empty()
    } else {
        let n = seps.len() - 1;
        let rest = actionable(seps.take(n));
        if seps[n] {
            rest
        } else {
            rest.push(n)
        }
    }
}

proof fn lemma_actionable_props(seps: Seq<bool>)
    ensures
        forall|k: int| 0 <= k < actionable(seps).len() ==> 0 <= #[trigger] actionable(seps)[k] < seps.len(),
        forall|k: int, l: int| 0 <= k < l < actionable(seps).len() ==> actionable(seps)[k] < actionable(seps)[l],
    decreases seps.len(),
{
    if seps.len() > 0 {
        let n = seps.len() - 1;
        let rest = actionable(seps.take(n));
        lemma_actionable_props(seps.take(n));
        assert(seps.take(n).len() == n);
        assert(actionable(seps) == if seps[n] {
            rest
        } else {
            rest.push(n)
        });
    }
}

/// Moves the keyboard focus among the non-separator items.
pub fn move_focus(items: &Vec<MenuItem>, focused: Option<usize>, forward: bool) -> (res: Option<usize>)
    ensures
        match (res, moved_focus(items@.map_values(|m: MenuItem| m is Separator), match focused {
            Some(f) => Some(f as int),
            None => None,
        }, forward)) {
            (Some(a), Some(b)) => a as int == b,
            (None, None) => true,
            _ => false,
        },
{
    let ghost seps = items@.map_values(|m: MenuItem| m is Separator);
    let mut act: Vec<usize> = Vec::new();
    let mut i: usize = 0;
    while i < items.len()
        invariant
            i <= items.len(),
            seps == items@.map_values(|m: MenuItem| m is Separator),
            act@.map_values(|v: usize| v as int) == actionable(seps.take(i as int)),
        decreases items.len() - i,
    {
        assert(seps.take(i + 1).take(i as int) == seps.take(i as int));
        assert(seps.take(i + 1)[i as int] == (items@[i as int] is Separator));
        let ghost before = act@;
        if !items[i].is_separator() {
            act.push(i);
            assert(act@.map_values(|v: usize| v as int) =~= before.map_values(|v: usize| v as int).push(
                i as int,
            ));
        }
        i = i + 1;
    }
    assert(seps.take(items@.len() as int) == seps);
    let ghost av = act@.map_values(|v: usize| v as int);
    assert(av == actionable(seps));
    if act.len() == 0 {
        return None;
    }
    proof {
        lemma_actionable_props(seps);
    }
    let mut cur: usize = 0;
    let mut found = false;
    if let Some(f) = focused {
        let mut k: usize = 0;
        while k < act.len() && !found
            invariant
                k <= act.len(),
                av == act@.map_values(|v: usize| v as int),
                cur < act.len(),
                !found ==> cur == 0,
                found ==> act@[cur as int] == f,
                !found ==> forall|j: int| 0 <= j < k ==> act@[j] != f,
                found ==> forall|j: int| 0 <= j < cur ==> act@[j] != f,
            decreases act.len() - k,
        {
            if act[k] == f {
                cur = k;
                found = true;
            }
            k = k + 1;
        }
        proof {
            if found {
                assert(av[cur as int] == f as int);
                assert(av.contains(f as int));
                assert forall|j: int| 0 <= j < av.len() && av[j] == f as int implies j == cur by {
                    if j < cur {
                        assert(act@[j] != f);
                    } else if j > cur {
                        assert(av[cur as int] < av[j]);
                    }
                }
                assert(av.index_of(f as int) == cur);
            } else {
                assert(!av.contains(f as int)) by {
                    if av.contains(f as int) {
                        let j = choose|j: int| 0 <= j < av.len() && av[j] == f as int;
                        assert(act@[j] == f);
                    }
                }
            }
        }
        assert(cur as int == if av.contains(f as int) {
            av.index_of(f as int)
        } else {
            0
        });
    }
    let ghost fo: Option<int> = match focused {
        Some(f) => Some(f as int),
        None => None,
    };
    assert(cur as int == (match fo {
        Some(f) => if av.contains(f) {
            av.index_of(f)
        } else {
            0
        },
        None => 0,
    }));
    let n = act.len();
    let next: usize = if forward {
        (cur + 1) % n
    } else if cur == 0 {
        n - 1
    } else {
        cur - 1
    };
    assert(av[next as int] == act@[next as int] as int);
    Some(act[next])
}


/// The items that are not separators are exactly those in `actionable`.
proof fn lemma_actionable_member(seps: Seq<bool>, k: int)
    ensures
        actionable(seps).contains(k) <==> 0 <= k < seps.len() && !seps[k],
    decreases seps.len(),
{
    if seps.len() > 0 {
        let n = seps.len() - 1;
        let rest = actionable(seps.take(n));
        lemma_actionable_member(seps.take(n), k);
        lemma_actionable_props(seps.take(n));
        if !seps[n] {
            assert(actionable(seps) == rest.push(n));
            if rest.contains(k) {
                let j = choose|j: int| 0 <= j < rest.len() && rest[j] == k;
                assert(rest.push(n)[j] == k);
            }
            if k == n {
                assert(rest.push(n)[rest.len() as int] == k);
            }
            if rest.push(n).contains(k) && k != n {
                let j = choose|j: int| 0 <= j < rest.push(n).len() && rest.push(n)[j] == k;
                assert(j < rest.len());
                assert(rest[j] == k);
            }
        } else {
            assert(actionable(seps) == rest);
        }
    }
}

/// In a list of distinct positions, a position found at `i` is found
/// nowhere else.
proof fn lemma_index_of_increasing(act: Seq<int>, i: int)
    requires
        0 <= i < act.len(),
        forall|k: int, l: int| 0 <= k < l < act.len() ==> act[k] < act[l],
    ensures
        act.contains(act[i]),
        act.index_of(act[i]) == i,
{
    assert(act.contains(act[i]));
    let j = act.index_of(act[i]);
    assert(0 <= j < act.len() && act[j] == act[i]);
    if j < i {
        assert(act[j] < act[i]);
    } else if j > i {
        assert(act[i] < act[j]);
    }
}

/// Moving the keyboard focus forward and then back, or back and then
/// forward, returns to the item one started on, when that item is not a
/// separator.
pub proof fn law_focus_there_and_back(seps: Seq<bool>, f: int, forward: bool)
    requires
        0 <= f < seps.len(),
        !seps[f],
    ensures
        moved_focus(seps, Some(f), forward) matches Some(k) && 0 <= k < seps.len(),
        moved_focus(seps, moved_focus(seps, Some(f), forward), !forward) == Some(f),
{
    let act = actionable(seps);
    lemma_actionable_member(seps, f);
    lemma_actionable_props(seps);
    let n = act.len() as int;
    let cur = act.index_of(f);
    assert(0 <= cur < n && act[cur] == f);
    let next = if forward {
        (cur + 1) % n
    } else if cur == 0 {
        n - 1
    } else {
        cur - 1
    };
    assert(0 <= next < n);
    assert(moved_focus(seps, Some(f), forward) == Some(act[next]));
    lemma_index_of_increasing(act, next);
    lemma_index_of_increasing(act, cur);
    if forward {
        if cur == n - 1 {
            vstd::arithmetic::div_mod::lemma_mod_self_0(n);
            assert(next == 0);
        } else {
            vstd::arithmetic::div_mod::lemma_small_mod((cur + 1) as nat, n as nat);
            assert(next == cur + 1);
        }
    } else {
        if cur == 0 {
            vstd::arithmetic::div_mod::lemma_mod_self_0(n);
            assert((next + 1) % n == 0);
        } else {
            vstd::arithmetic::div_mod::lemma_small_mod(cur as nat, n as nat);
            assert((next + 1) % n == cur);
        }
    }
}

} // verus!
