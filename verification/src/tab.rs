//! A tab: one directory shown in one of three views (list, grid, columns),
//! with its navigation history, its listing order and inline renaming.
//! Reading directories and renaming on disk are left to the caller: the tab
//! says when the current directory is to be listed (again), and is handed
//! the entries.
use vstd::prelude::*;
use crate::column_view::{
    column_click, column_hovered, column_nav, column_toggled, columns_at_path, columns_filled, entry_under,
    fresh_columns, previewed, ColumnView, ColumnViewState,
};
use crate::entry::{sort_entries, stable_sorting, EntryType, FileEntry, SortDirection, SortOrder};
use crate::geometry::{Point, Rect};
use crate::grid_view::{cell_hit, fresh_grid, grid_click, grid_filled, grid_moved, grid_nav, grid_toggled, GridView, GridViewState};
use crate::history::{go_back_spec, go_forward_spec, navigate_spec, new_history, History, HistoryState};
use crate::keys::{Key, Modifiers};
use crate::list_view::{
    divider_hit, fresh_list, header_click, list_filled, list_nav, list_toggled, pointer_moved, row_click, row_hit,
    shown, ListView, ListViewState,
};
use crate::path::{file_name, file_name_of, parent_of, path_ends_with, path_eq, same_path, std_parent, std_path_ends_with};
use crate::selection::Nav;
use crate::text::{chars_of, copy_string, eq_ignore_ascii_case, is_ascii_char, same_ignoring_ascii_case, string_of, trim, trim_chars};
use crate::views::{edit_wf, ColumnClickResult, IconSize, RenameState, ViewMode, CELL_PADDING};

verus! {

/// What a click in a tab asks of the caller.
#[derive(Debug, Clone, PartialEq, Eq)]
pub enum TabClick {
    /// The click did nothing.
    Ignored,
    /// The click changed what is focused or selected.
    Handled,
    /// A column header was clicked and the listing order changed: the
    /// directory is to be listed again (`refresh`).
    Sorted,
    /// A directory in the column view was clicked: the tab is to go there
    /// (`navigate_to`).
    Navigate(String),
}

/// What confirming a rename asks of the caller.
#[derive(Debug, Clone, PartialEq, Eq)]
pub enum RenameRequest {
    /// The name did not change: nothing is to be done.
    Unchanged { path: String, name: String },
    /// The entry at `from` is to be renamed to `new_name`, in its directory.
    Rename { from: String, new_name: String },
}

/// What a tab holds.
pub struct TabState {
    pub history: HistoryState,
    pub mode: ViewMode,
    pub list: ListViewState,
    pub grid: GridViewState,
    pub columns: ColumnViewState,
    pub sort_order: SortOrder,
    pub sort_direction: SortDirection,
    pub entries: Seq<FileEntry>,
    pub bounds: Rect,
    pub renaming: Option<RenameState>,
    /// The parent directory the column view waits for, not asked for yet.
    pub pending_parent: Option<Seq<char>>,
}

/// Bounds every view can be laid out in.
pub open spec fn tab_bounds_ok(b: Rect) -> bool {
    &&& -0x2000_0000 <= b.x <= 0x2000_0000
    &&& -0x2000_0000 <= b.y <= 0x2000_0000
    &&& CELL_PADDING <= b.width <= 0x10_0000
    &&& b.height <= 0x10_0000
}

/// The entries the view in use shows.
pub open spec fn tab_visible(s: TabState) -> Seq<FileEntry> {
    match s.mode {
        ViewMode::List => shown(s.list.entries, s.list.show_hidden),
        ViewMode::Grid => shown(s.grid.entries, s.grid.show_hidden),
        ViewMode::Columns => shown(s.columns.entries, s.columns.show_hidden),
    }
}

/// The focus of the view in use.
pub open spec fn tab_focus(s: TabState) -> int {
    match s.mode {
        ViewMode::List => s.list.focus,
        ViewMode::Grid => s.grid.focus,
        ViewMode::Columns => s.columns.focus,
    }
}

/// The selection of the view in use.
pub open spec fn tab_chosen(s: TabState) -> Set<usize> {
    match s.mode {
        ViewMode::List => s.list.chosen,
        ViewMode::Grid => s.grid.chosen,
        ViewMode::Columns => s.columns.chosen,
    }
}

/// The entry in focus in the view in use, if one is shown there.
pub open spec fn tab_focused_entry(s: TabState) -> Option<FileEntry> {
    let vis = tab_visible(s);
    if 0 <= tab_focus(s) < vis.len() {
        Some(vis[tab_focus(s)])
    } else {
        None
    }
}

/// The tab after a move of the focus in the view in use.
pub open spec fn tab_nav(s: TabState, nav: Nav) -> TabState {
    match s.mode {
        ViewMode::List => TabState { list: list_nav(s.list, nav), ..s },
        ViewMode::Grid => TabState { grid: grid_nav(s.grid, nav), ..s },
        ViewMode::Columns => TabState { columns: column_nav(s.columns, nav), ..s },
    }
}

/// The tab with entry `index` of the view in use focused and alone
/// selected, where there is an entry there.
pub open spec fn tab_focused_on(s: TabState, index: usize) -> TabState {
    match s.mode {
        ViewMode::List => if index < s.list.entries.len() {
            TabState { list: ListViewState { focus: index as int, chosen: set![index], ..s.list }, ..s }
        } else {
            s
        },
        ViewMode::Grid => if index < s.grid.entries.len() {
            TabState { grid: GridViewState { focus: index as int, chosen: set![index], ..s.grid }, ..s }
        } else {
            s
        },
        ViewMode::Columns => if index < s.columns.entries.len() {
            TabState {
                columns: previewed(ColumnViewState { focus: index as int, chosen: set![index], ..s.columns }),
                ..s
            }
        } else {
            s
        },
    }
}

/// The first of the entries from the `i`th on that `pred` holds of.
pub open spec fn first_where(es: Seq<FileEntry>, pred: spec_fn(FileEntry) -> bool, i: int) -> Option<int>
    decreases es.len() - i,
{
    if i < 0 || i >= es.len() {
        None
    } else if pred(es[i]) {
        Some(i)
    } else {
        first_where(es, pred, i + 1)
    }
}

/// The entry a name picks out: the first named exactly so, else the first
/// named so without regard to ASCII case, else the first whose path ends
/// with it.
pub open spec fn name_match(es: Seq<FileEntry>, name: Seq<char>) -> Option<int> {
    match first_where(es, |e: FileEntry| e.name@ == name, 0) {
        Some(k) => Some(k),
        None => match first_where(es, |e: FileEntry| same_ignoring_ascii_case(e.name@, name), 0) {
            Some(k) => Some(k),
            None => first_where(es, |e: FileEntry| std_path_ends_with(e.path@, name), 0),
        },
    }
}

/// A position as an index.
pub open spec fn as_index(o: Option<int>) -> Option<usize> {
    match o {
        Some(k) => Some(k as usize),
        None => None,
    }
}

/// The total size of some entries.
pub open spec fn total_size(es: Seq<FileEntry>) -> int
    decreases es.len(),
{
    if es.len() == 0 {
        0
    } else {
        total_size(es.drop_last()) + es.last().size
    }
}

/// The tab listing the current directory anew with these entries (sorted
/// in the tab's order): every view shows them from the first, and the
/// column view waits for the parent directory.
pub open spec fn tab_refreshed(s: TabState, sorted: Seq<FileEntry>) -> TabState {
    TabState {
        entries: sorted,
        list: list_filled(s.list, sorted),
        grid: grid_filled(s.grid, sorted),
        columns: columns_at_path(
            columns_filled(s.columns, sorted),
            s.history.current@,
            s.sort_order,
            s.sort_direction,
        ),
        pending_parent: std_parent(s.history.current@),
        ..s
    }
}

/// Copies a listing.
fn copy_entries(v: &Vec<FileEntry>) -> (res: Vec<FileEntry>)
    ensures
        res@ == v@,
{
    let mut out: Vec<FileEntry> = Vec::new();
    let mut i: usize = 0;
    while i < v.len()
        invariant
            i <= v@.len(),
            out@ == v@.take(i as int),
        decreases v@.len() - i,
    {
        out.push(v[i].duplicate());
        proof {
            assert(v@.take(i + 1) =~= v@.take(i as int).push(v@[i as int]));
        }
        i = i + 1;
    }
    proof {
        assert(v@.take(i as int) =~= v@);
    }
    out
}

/// A directory shown in one of three views.
pub struct Tab {
    history: History,
    view_mode: ViewMode,
    list_view: ListView,
    grid_view: GridView,
    column_view: ColumnView,
    sort_order: SortOrder,
    sort_direction: SortDirection,
    entries: Vec<FileEntry>,
    bounds: Rect,
    renaming: Option<RenameState>,
    pending_parent: Option<String>,
}

impl View for Tab {
    type V = TabState;

    closed spec fn view(&self) -> TabState {
        TabState {
            history: self.history.state(),
            mode: self.view_mode,
            list: self.list_view@,
            grid: self.grid_view@,
            columns: self.column_view@,
            sort_order: self.sort_order,
            sort_direction: self.sort_direction,
            entries: self.entries@,
            bounds: self.bounds,
            renaming: self.renaming,
            pending_parent: match self.pending_parent {
                Some(p) => Some(p@),
                None => None,
            },
        }
    }
}

impl Tab {
    /// The tab's parts are consistent.
    pub closed spec fn wf(&self) -> bool {
        &&& self.history.wf()
        &&& self.list_view.wf()
        &&& self.grid_view.wf()
        &&& self.column_view.wf()
        &&& tab_bounds_ok(self.bounds)
    }

    /// A new tab showing the directory `path`, whose entries the caller
    /// read: listed by name ascending in the list view, the column view
    /// waiting for the parent directory.
    pub fn new(path: String, bounds: Rect, entries: Vec<FileEntry>) -> (res: Self)
        requires
            tab_bounds_ok(bounds),
        ensures
            res.wf(),
            exists|sorted: Seq<FileEntry>, perm: Seq<int>|
                stable_sorting(entries@, sorted, perm, SortOrder::Name, SortDirection::Ascending) && res@ == (
                TabState {
                    history: new_history(path),
                    mode: ViewMode::List,
                    list: list_filled(fresh_list(bounds), sorted),
                    grid: grid_filled(fresh_grid(bounds), sorted),
                    columns: columns_at_path(
                        columns_filled(fresh_columns(bounds), sorted),
                        path@,
                        SortOrder::Name,
                        SortDirection::Ascending,
                    ),
                    sort_order: SortOrder::Name,
                    sort_direction: SortDirection::Ascending,
                    entries: sorted,
                    bounds,
                    renaming: None,
                    pending_parent: std_parent(path@),
                }),
    {
        let history = History::new(path.clone());
        let mut list_view = ListView::new(bounds);
        let mut grid_view = GridView::new(bounds);
        let mut column_view = ColumnView::new(bounds);
        let mut entries = entries;
        sort_entries(&mut entries, SortOrder::Name, SortDirection::Ascending);
        list_view.set_entries(copy_entries(&entries));
        grid_view.set_entries(copy_entries(&entries));
        column_view.set_entries(copy_entries(&entries));
        let parent = column_view.set_path(path, SortOrder::Name, SortDirection::Ascending);
        Tab {
            history,
            view_mode: ViewMode::List,
            list_view,
            grid_view,
            column_view,
            sort_order: SortOrder::Name,
            sort_direction: SortDirection::Ascending,
            entries,
            bounds,
            renaming: None,
            pending_parent: parent,
        }
    }

    /// List the current directory anew with the entries the caller read:
    /// they are sorted in the tab's order and every view shows them from
    /// the first; the column view waits for the parent directory.
    pub fn refresh(&mut self, entries: Vec<FileEntry>)
        requires
            old(self).wf(),
        ensures
            final(self).wf(),
            exists|sorted: Seq<FileEntry>, perm: Seq<int>|
                stable_sorting(entries@, sorted, perm, old(self)@.sort_order, old(self)@.sort_direction)
                    && final(self)@ == tab_refreshed(old(self)@, sorted),
    {
        let mut entries = entries;
        sort_entries(&mut entries, self.sort_order, self.sort_direction);
        self.list_view.set_entries(copy_entries(&entries));
        self.grid_view.set_entries(copy_entries(&entries));
        self.column_view.set_entries(copy_entries(&entries));
        let path = self.history.current().clone();
        self.pending_parent = self.column_view.set_path(path, self.sort_order, self.sort_direction);
        self.entries = entries;
    }

    /// The tab's title: the directory's name, or "/" where it has none.
    pub fn title(&self) -> (res: String)
        ensures
            res@ == match file_name(self@.history.current@) {
                Some(n) => n,
                None => seq!['/'],
            },
    {
        match file_name_of(self.history.current()) {
            Some(n) => n,
            None => {
                proof {
                    reveal_strlit("/");
                }
                let r = copy_string("/");
                assert(r@ =~= seq!['/']);
                r
            },
        }
    }

    /// The directory shown.
    pub fn current_path(&self) -> (res: &String)
        ensures
            *res == self@.history.current,
    {
        self.history.current()
    }

    /// The view in use.
    pub fn view_mode(&self) -> (res: ViewMode)
        ensures
            res == self@.mode,
    {
        self.view_mode
    }

    /// Switch to another view.
    pub fn set_view_mode(&mut self, mode: ViewMode)
        requires
            old(self).wf(),
        ensures
            final(self).wf(),
            final(self)@ == (TabState { mode, ..old(self)@ }),
    {
        self.view_mode = mode;
    }

    /// Cycle the icon size of the grid view.
    pub fn cycle_icon_size(&mut self)
        requires
            old(self).wf(),
        ensures
            final(self).wf(),
            final(self)@.grid.icon_size == crate::views::next_size(old(self)@.grid.icon_size),
            final(self)@ == (TabState { grid: final(self)@.grid, ..old(self)@ }),
            final(self)@.grid == (GridViewState {
                icon_size: final(self)@.grid.icon_size,
                columns: final(self)@.grid.columns,
                ..old(self)@.grid
            }),
    {
        self.grid_view.cycle_icon_size();
    }

    /// The navigation history.
    pub fn history(&self) -> (res: &History)
        ensures
            res.state() == self@.history,
    {
        &self.history
    }

    /// Whether there is a location to go back to.
    pub fn can_go_back(&self) -> (res: bool)
        ensures
            res == (self@.history.back.len() > 0),
    {
        self.history.can_go_back()
    }

    /// Whether there is a location to go forward to.
    pub fn can_go_forward(&self) -> (res: bool)
        ensures
            res == (self@.history.forward.len() > 0),
    {
        self.history.can_go_forward()
    }

    /// Go to the directory `path` (`is_dir` says whether it is one): only a
    /// directory other than the current one is gone to. Gives whether the
    /// tab went there, after which the caller lists it (`refresh`).
    pub fn navigate_to(&mut self, path: String, is_dir: bool) -> (res: bool)
        requires
            old(self).wf(),
        ensures
            final(self).wf(),
            res == (is_dir && !same_path(path@, old(self)@.history.current@)),
            res ==> final(self)@ == (TabState { history: navigate_spec(old(self)@.history, path), ..old(self)@ }),
            !res ==> final(self)@ == old(self)@,
    {
        if is_dir && !path_eq(&path, self.history.current()) {
            self.history.navigate(path);
            true
        } else {
            false
        }
    }

    /// Go back in history; gives whether it did, after which the caller
    /// lists the directory (`refresh`).
    pub fn go_back(&mut self) -> (res: bool)
        requires
            old(self).wf(),
        ensures
            final(self).wf(),
            res == (old(self)@.history.back.len() > 0),
            final(self)@ == (TabState { history: go_back_spec(old(self)@.history).1, ..old(self)@ }),
    {
        self.history.go_back().is_some()
    }

    /// Go forward in history; gives whether it did, after which the caller
    /// lists the directory (`refresh`).
    pub fn go_forward(&mut self) -> (res: bool)
        requires
            old(self).wf(),
        ensures
            final(self).wf(),
            res == (old(self)@.history.forward.len() > 0),
            final(self)@ == (TabState { history: go_forward_spec(old(self)@.history).1, ..old(self)@ }),
    {
        self.history.go_forward().is_some()
    }

    /// Go up to the parent directory (`parent_is_dir` says whether it is a
    /// directory); gives whether the tab went there.
    pub fn go_up(&mut self, parent_is_dir: bool) -> (res: bool)
        requires
            old(self).wf(),
        ensures
            final(self).wf(),
            match std_parent(old(self)@.history.current@) {
                Some(q) => {
                    &&& res == (parent_is_dir && !same_path(q, old(self)@.history.current@))
                    &&& res ==> exists|ps: String|
                        #![trigger navigate_spec(old(self)@.history, ps)]
                        ps@ == q && final(self)@ == (TabState {
                            history: navigate_spec(old(self)@.history, ps),
                            ..old(self)@
                        })
                    &&& !res ==> final(self)@ == old(self)@
                },
                None => !res && final(self)@ == old(self)@,
            },
    {
        match parent_of(self.history.current()) {
            Some(q) => self.navigate_to(q, parent_is_dir),
            None => false,
        }
    }

    /// The entries of the directory, in the listing order.
    pub fn entries(&self) -> (res: &Vec<FileEntry>)
        ensures
            res@ == self@.entries,
    {
        &self.entries
    }

    /// The number of entries the view in use shows.
    pub fn visible_count(&self) -> (res: usize)
        ensures
            res == tab_visible(self@).len(),
    {
        self.visible_entries().len()
    }

    /// The entries the view in use shows.
    pub fn visible_entries(&self) -> (res: Vec<FileEntry>)
        ensures
            res@ == tab_visible(self@),
    {
        match self.view_mode {
            ViewMode::List => self.list_view.visible_entries(),
            ViewMode::Grid => self.grid_view.visible_entries(),
            ViewMode::Columns => self.column_view.visible_entries(),
        }
    }

    /// The number of entries selected in the view in use.
    pub fn selection_count(&self) -> (res: usize)
        requires
            self.wf(),
        ensures
            res == tab_chosen(self@).len(),
    {
        match self.view_mode {
            ViewMode::List => self.list_view.selection_count(),
            ViewMode::Grid => self.grid_view.selection_count(),
            ViewMode::Columns => self.column_view.selection_count(),
        }
    }

    /// The selected entries of the view in use that are shown, each once.
    pub fn selected_entries(&self) -> (res: Vec<FileEntry>)
        requires
            self.wf(),
        ensures
            exists|order: Seq<usize>|
                order.to_set() == tab_chosen(self@) && crate::selection::no_repeats(order) && res@
                    == crate::list_view::picked(tab_visible(self@), order),
    {
        match self.view_mode {
            ViewMode::List => self.list_view.selected_entries(),
            ViewMode::Grid => self.grid_view.selected_entries(),
            ViewMode::Columns => self.column_view.selected_entries(),
        }
    }

    /// The total size of the selected entries (at most the largest `u64`).
    pub fn selected_size(&self) -> (res: u64)
        requires
            self.wf(),
        ensures
            exists|order: Seq<usize>|
                order.to_set() == tab_chosen(self@) && crate::selection::no_repeats(order) && res == ({
                    let t = total_size(crate::list_view::picked(tab_visible(self@), order));
                    if t <= u64::MAX { t } else { u64::MAX as int }
                }),
    {
        let sel = self.selected_entries();
        let mut total: u64 = 0;
        let mut i: usize = 0;
        while i < sel.len()
            invariant
                i <= sel@.len(),
                total == ({
                    let t = total_size(sel@.take(i as int));
                    if t <= u64::MAX { t } else { u64::MAX as int }
                }),
            decreases sel@.len() - i,
        {
            proof {
                assert(sel@.take(i + 1).drop_last() =~= sel@.take(i as int));
                assert(total_size(sel@.take(i as int)) >= 0) by {
                    lemma_total_size_nonneg(sel@.take(i as int));
                }
            }
            let size = sel[i].size;
            total = if total as u128 + size as u128 >= u64::MAX as u128 {
                u64::MAX
            } else {
                total + size
            };
            i = i + 1;
        }
        proof {
            assert(sel@.take(i as int) =~= sel@);
        }
        total
    }

    /// The entry in focus in the view in use.
    pub fn selected_entry(&self) -> (res: Option<FileEntry>)
        ensures
            res == tab_focused_entry(self@),
    {
        match self.view_mode {
            ViewMode::List => self.list_view.selected_entry(),
            ViewMode::Grid => self.grid_view.selected_entry(),
            ViewMode::Columns => self.column_view.selected_entry(),
        }
    }

    /// The paths of the selected entries of the view in use.
    pub fn selected_paths(&self) -> (res: Vec<String>)
        requires
            self.wf(),
        ensures
            exists|order: Seq<usize>|
                order.to_set() == tab_chosen(self@) && crate::selection::no_repeats(order) && res@
                    == crate::list_view::picked(tab_visible(self@), order).map_values(|e: FileEntry| e.path),
    {
        let sel = self.selected_entries();
        let mut out: Vec<String> = Vec::new();
        let mut i: usize = 0;
        while i < sel.len()
            invariant
                i <= sel@.len(),
                out@ == sel@.take(i as int).map_values(|e: FileEntry| e.path),
            decreases sel@.len() - i,
        {
            out.push(sel[i].path.clone());
            proof {
                assert(sel@.take(i + 1) =~= sel@.take(i as int).push(sel@[i as int]));
                assert(out@ =~= sel@.take(i + 1).map_values(|e: FileEntry| e.path));
            }
            i = i + 1;
        }
        proof {
            assert(sel@.take(i as int) =~= sel@);
        }
        out
    }

    /// The entry under a point in the view in use.
    pub fn entry_at_point(&self, p: Point) -> (res: Option<FileEntry>)
        requires
            self.wf(),
        ensures
            res == match self@.mode {
                ViewMode::List => match row_hit(self@.list, tab_visible(self@).len() as int, p) {
                    Some(k) => Some(tab_visible(self@)[k as int]),
                    None => None,
                },
                ViewMode::Grid => match cell_hit(self@.grid, tab_visible(self@).len() as int, p) {
                    Some(k) => Some(tab_visible(self@)[k as int]),
                    None => None,
                },
                ViewMode::Columns => entry_under(self@.columns, p),
            },
    {
        match self.view_mode {
            ViewMode::List => self.list_view.entry_at_point(p),
            ViewMode::Grid => self.grid_view.entry_at_point(p),
            ViewMode::Columns => self.column_view.entry_at_point(p),
        }
    }

    /// The directory to enter: the entry in focus, when it is a directory
    /// (the caller then goes there with `navigate_to`).
    pub fn enter_selected(&self) -> (res: Option<String>)
        ensures
            res == match tab_focused_entry(self@) {
                Some(e) => if e.entry_type == EntryType::Directory {
                    Some(e.path)
                } else {
                    None
                },
                None => None,
            },
    {
        match self.selected_entry() {
            Some(e) => {
                if e.is_dir() {
                    Some(e.path)
                } else {
                    None
                }
            },
            None => None,
        }
    }

    /// Give the tab new bounds; the list view's column widths (scaled to
    /// the new width by the caller) come along. The column view waits for
    /// the parent directory again.
    pub fn set_bounds(&mut self, bounds: Rect, list_widths: (u32, u32, u32))
        requires
            old(self).wf(),
            tab_bounds_ok(bounds),
            list_widths.0 + list_widths.1 + list_widths.2 <= 0x2000_0000,
        ensures
            final(self).wf(),
            final(self)@ == (TabState {
                bounds,
                list: ListViewState { bounds, widths: list_widths, ..old(self)@.list },
                grid: GridViewState {
                    bounds,
                    columns: crate::selection::grid_columns_spec(bounds.width, old(self)@.grid.icon_size),
                    ..old(self)@.grid
                },
                columns: crate::column_view::relaid(ColumnViewState { bounds, ..old(self)@.columns }),
                pending_parent: std_parent(old(self)@.columns.path),
                ..old(self)@
            }),
    {
        self.bounds = bounds;
        self.list_view.set_bounds(bounds, list_widths);
        self.grid_view.set_bounds(bounds);
        self.pending_parent = self.column_view.set_bounds(bounds);
    }

    /// Change the listing order; the caller then lists the directory again
    /// (`refresh`).
    pub fn set_sort(&mut self, order: SortOrder, direction: SortDirection)
        requires
            old(self).wf(),
        ensures
            final(self).wf(),
            final(self)@ == (TabState { sort_order: order, sort_direction: direction, ..old(self)@ }),
    {
        self.sort_order = order;
        self.sort_direction = direction;
    }

    /// The listing order.
    pub fn sort_order(&self) -> (res: SortOrder)
        ensures
            res == self@.sort_order,
    {
        self.sort_order
    }

    /// The listing direction.
    pub fn sort_direction(&self) -> (res: SortDirection)
        ensures
            res == self@.sort_direction,
    {
        self.sort_direction
    }

    /// Clear the selection of the view in use.
    pub fn clear_selection(&mut self)
        requires
            old(self).wf(),
        ensures
            final(self).wf(),
            final(self)@ == match old(self)@.mode {
                ViewMode::List => TabState { list: ListViewState { chosen: Set::empty(), ..old(self)@.list }, ..old(self)@ },
                ViewMode::Grid => TabState { grid: GridViewState { chosen: Set::empty(), ..old(self)@.grid }, ..old(self)@ },
                ViewMode::Columns => TabState {
                    columns: ColumnViewState { chosen: Set::empty(), ..old(self)@.columns },
                    ..old(self)@
                },
            },
    {
        match self.view_mode {
            ViewMode::List => self.list_view.clear_selection(),
            ViewMode::Grid => self.grid_view.clear_selection(),
            ViewMode::Columns => self.column_view.clear_selection(),
        }
    }

    /// Move the focus in the view in use.
    fn navigate(&mut self, nav: Nav)
        requires
            old(self).wf(),
        ensures
            final(self).wf(),
            final(self)@ == tab_nav(old(self)@, nav),
    {
        match self.view_mode {
            ViewMode::List => match nav {
                Nav::Prev => self.list_view.select_prev(),
                Nav::Next => self.list_view.select_next(),
                Nav::First => self.list_view.select_first(),
                Nav::Last => self.list_view.select_last(),
                Nav::PageUp => self.list_view.page_up(),
                Nav::PageDown => self.list_view.page_down(),
                Nav::Left | Nav::Right => {},
            },
            ViewMode::Grid => match nav {
                Nav::Prev => self.grid_view.select_prev(),
                Nav::Next => self.grid_view.select_next(),
                Nav::Left => self.grid_view.select_left(),
                Nav::Right => self.grid_view.select_right(),
                Nav::First => self.grid_view.select_first(),
                Nav::Last => self.grid_view.select_last(),
                Nav::PageUp => self.grid_view.page_up(),
                Nav::PageDown => self.grid_view.page_down(),
            },
            ViewMode::Columns => match nav {
                Nav::Prev => self.column_view.select_prev(),
                Nav::Next => self.column_view.select_next(),
                Nav::First => self.column_view.select_first(),
                Nav::Last => self.column_view.select_last(),
                Nav::PageUp => self.column_view.page_up(),
                Nav::PageDown => self.column_view.page_down(),
                Nav::Left | Nav::Right => {},
            },
        }
    }

    /// Move the focus up.
    pub fn select_prev(&mut self)
        requires
            old(self).wf(),
        ensures
            final(self).wf(),
            final(self)@ == tab_nav(old(self)@, Nav::Prev),
    {
        self.navigate(Nav::Prev);
    }

    /// Move the focus down.
    pub fn select_next(&mut self)
        requires
            old(self).wf(),
        ensures
            final(self).wf(),
            final(self)@ == tab_nav(old(self)@, Nav::Next),
    {
        self.navigate(Nav::Next);
    }

    /// Move the focus left (in the grid view).
    pub fn select_left(&mut self)
        requires
            old(self).wf(),
        ensures
            final(self).wf(),
            final(self)@ == tab_nav(old(self)@, Nav::Left),
    {
        self.navigate(Nav::Left);
    }

    /// Move the focus right (in the grid view).
    pub fn select_right(&mut self)
        requires
            old(self).wf(),
        ensures
            final(self).wf(),
            final(self)@ == tab_nav(old(self)@, Nav::Right),
    {
        self.navigate(Nav::Right);
    }

    /// Jump to the first entry.
    pub fn select_first(&mut self)
        requires
            old(self).wf(),
        ensures
            final(self).wf(),
            final(self)@ == tab_nav(old(self)@, Nav::First),
    {
        self.navigate(Nav::First);
    }

    /// Jump to the last entry.
    pub fn select_last(&mut self)
        requires
            old(self).wf(),
        ensures
            final(self).wf(),
            final(self)@ == tab_nav(old(self)@, Nav::Last),
    {
        self.navigate(Nav::Last);
    }

    /// Page up.
    pub fn page_up(&mut self)
        requires
            old(self).wf(),
        ensures
            final(self).wf(),
            final(self)@ == tab_nav(old(self)@, Nav::PageUp),
    {
        self.navigate(Nav::PageUp);
    }

    /// Page down.
    pub fn page_down(&mut self)
        requires
            old(self).wf(),
        ensures
            final(self).wf(),
            final(self)@ == tab_nav(old(self)@, Nav::PageDown),
    {
        self.navigate(Nav::PageDown);
    }

    /// Select all entries shown in the view in use.
    pub fn select_all(&mut self)
        requires
            old(self).wf(),
        ensures
            final(self).wf(),
            ({
                let all = Set::new(|k: usize| k < tab_visible(old(self)@).len());
                final(self)@ == match old(self)@.mode {
                    ViewMode::List => TabState { list: ListViewState { chosen: all, ..old(self)@.list }, ..old(self)@ },
                    ViewMode::Grid => TabState { grid: GridViewState { chosen: all, ..old(self)@.grid }, ..old(self)@ },
                    ViewMode::Columns => TabState {
                        columns: ColumnViewState { chosen: all, ..old(self)@.columns },
                        ..old(self)@
                    },
                }
            }),
    {
        match self.view_mode {
            ViewMode::List => self.list_view.select_all(),
            ViewMode::Grid => self.grid_view.select_all(),
            ViewMode::Columns => self.column_view.select_all(),
        }
    }

    /// Show or hide hidden files in the view in use.
    pub fn toggle_hidden(&mut self)
        requires
            old(self).wf(),
        ensures
            final(self).wf(),
            final(self)@ == match old(self)@.mode {
                ViewMode::List => TabState { list: list_toggled(old(self)@.list), ..old(self)@ },
                ViewMode::Grid => TabState { grid: grid_toggled(old(self)@.grid), ..old(self)@ },
                ViewMode::Columns => TabState { columns: column_toggled(old(self)@.columns), ..old(self)@ },
            },
    {
        match self.view_mode {
            ViewMode::List => self.list_view.toggle_hidden(),
            ViewMode::Grid => self.grid_view.toggle_hidden(),
            ViewMode::Columns => self.column_view.toggle_hidden(),
        }
    }

    /// The pointer moved over the view in use; gives whether to redraw
    /// (always for the list and column views).
    pub fn on_mouse_move(&mut self, p: Point) -> (res: bool)
        requires
            old(self).wf(),
            crate::grid_view::near(p),
        ensures
            final(self).wf(),
            match old(self)@.mode {
                ViewMode::List => res && final(self)@ == (TabState {
                    list: pointer_moved(old(self)@.list, p),
                    ..old(self)@
                }),
                ViewMode::Grid => final(self)@ == (TabState { grid: final(self)@.grid, ..old(self)@ }) && grid_moved(
                    old(self)@.grid,
                    p,
                    final(self)@.grid,
                    res,
                ),
                ViewMode::Columns => res && final(self)@ == (TabState {
                    columns: column_hovered(old(self)@.columns, p),
                    ..old(self)@
                }),
            },
    {
        match self.view_mode {
            ViewMode::List => {
                self.list_view.on_mouse_move(p);
                true
            },
            ViewMode::Grid => self.grid_view.on_mouse_move(p),
            ViewMode::Columns => {
                self.column_view.on_mouse_move(p);
                true
            },
        }
    }

    /// A click in the view in use. In the list view a click on a column's
    /// header changes the listing order (the caller lists the directory
    /// again), else a click on a row selects; in the grid a click on a
    /// cell selects (on empty space a rubber band begins); in the column
    /// view a click selects, or asks to go to a directory of a side column.
    pub fn on_click(&mut self, p: Point, modifiers: &Modifiers) -> (res: TabClick)
        requires
            old(self).wf(),
            crate::grid_view::near(p),
        ensures
            final(self).wf(),
            match old(self)@.mode {
                ViewMode::List => {
                    let (sorting, after_header) = header_click(old(self)@.list, p);
                    match sorting {
                        Some((o, d)) => res == TabClick::Sorted && final(self)@ == (TabState {
                            list: after_header,
                            sort_order: o,
                            sort_direction: d,
                            ..old(self)@
                        }),
                        None => {
                            let (row, after_row) = row_click(old(self)@.list, p, *modifiers);
                            &&& res == (if row is Some { TabClick::Handled } else { TabClick::Ignored })
                            &&& final(self)@ == (TabState { list: after_row, ..old(self)@ })
                        },
                    }
                },
                ViewMode::Grid => {
                    let (cell, after) = grid_click(old(self)@.grid, p, *modifiers);
                    &&& res == (if cell is Some { TabClick::Handled } else { TabClick::Ignored })
                    &&& final(self)@ == (TabState { grid: after, ..old(self)@ })
                },
                ViewMode::Columns => {
                    let (r, after) = column_click(old(self)@.columns, p, *modifiers);
                    &&& final(self)@ == (TabState { columns: after, ..old(self)@ })
                    &&& res == match r {
                        ColumnClickResult::Selected(_) => TabClick::Handled,
                        ColumnClickResult::Navigate(q) => TabClick::Navigate(q),
                        ColumnClickResult::Nothing => TabClick::Ignored,
                    }
                },
            },
    {
        match self.view_mode {
            ViewMode::List => {
                match self.list_view.on_header_click(p) {
                    Some((o, d)) => {
                        self.sort_order = o;
                        self.sort_direction = d;
                        return TabClick::Sorted;
                    },
                    None => {},
                }
                if self.list_view.on_row_click(p, modifiers).is_some() {
                    TabClick::Handled
                } else {
                    TabClick::Ignored
                }
            },
            ViewMode::Grid => {
                if self.grid_view.on_click(p, modifiers).is_some() {
                    TabClick::Handled
                } else {
                    TabClick::Ignored
                }
            },
            ViewMode::Columns => match self.column_view.on_click(p, modifiers) {
                ColumnClickResult::Selected(_) => TabClick::Handled,
                ColumnClickResult::Navigate(q) => TabClick::Navigate(q),
                ColumnClickResult::Nothing => TabClick::Ignored,
            },
        }
    }

    /// Clear the hover state of the view in use (in the grid, a rubber band
    /// ends too).
    pub fn clear_hover(&mut self)
        requires
            old(self).wf(),
        ensures
            final(self).wf(),
            old(self)@.mode == ViewMode::List ==> final(self)@ == (TabState {
                list: ListViewState { hovered: None, ..old(self)@.list },
                ..old(self)@
            }),
            old(self)@.mode == ViewMode::Grid ==> final(self)@ == (TabState { grid: final(self)@.grid, ..old(self)@ })
                && final(self)@.grid.hovered is None && final(self)@.grid.drag_start is None,
            old(self)@.mode == ViewMode::Columns ==> final(self)@ == (TabState {
                columns: ColumnViewState {
                    parent: match old(self)@.columns.parent {
                        Some(c) => Some(crate::column_view::ColumnState { hovered: None, ..c }),
                        None => None,
                    },
                    hovered: None,
                    preview: match old(self)@.columns.preview {
                        Some(c) => Some(crate::column_view::ColumnState { hovered: None, ..c }),
                        None => None,
                    },
                    ..old(self)@.columns
                },
                ..old(self)@
            }),
    {
        match self.view_mode {
            ViewMode::List => self.list_view.clear_hover(),
            ViewMode::Grid => self.grid_view.clear_hover(),
            ViewMode::Columns => self.column_view.clear_hover(),
        }
    }

    /// The list view's column divider near a point (only in the list view).
    pub fn divider_at(&self, p: Point) -> (res: Option<usize>)
        requires
            self.wf(),
        ensures
            res == if self@.mode == ViewMode::List {
                divider_hit(self@.list.bounds, self@.list.widths, p)
            } else {
                None
            },
    {
        if self.view_mode == ViewMode::List {
            self.list_view.divider_at(p)
        } else {
            None
        }
    }

    /// Start dragging a divider of the list view.
    pub fn start_resize(&mut self, divider: usize)
        requires
            old(self).wf(),
        ensures
            final(self).wf(),
            final(self)@ == (TabState {
                list: ListViewState { resizing: Some(divider), ..old(self)@.list },
                ..old(self)@
            }),
    {
        self.list_view.start_resize(divider);
    }

    /// Stop dragging a divider of the list view.
    pub fn stop_resize(&mut self)
        requires
            old(self).wf(),
        ensures
            final(self).wf(),
            final(self)@ == (TabState { list: ListViewState { resizing: None, ..old(self)@.list }, ..old(self)@ }),
    {
        self.list_view.stop_resize();
    }

    /// Whether a divider of the list view is dragged.
    pub fn is_resizing(&self) -> (res: bool)
        ensures
            res == self@.list.resizing is Some,
    {
        self.list_view.is_resizing()
    }

    /// Whether a rubber band is dragged in the grid view.
    pub fn is_dragging(&self) -> (res: bool)
        ensures
            res == self@.grid.drag_start is Some,
    {
        self.grid_view.is_dragging()
    }

    /// End a rubber band in the grid view.
    pub fn stop_drag(&mut self)
        requires
            old(self).wf(),
        ensures
            final(self).wf(),
            final(self)@ == (TabState { grid: final(self)@.grid, ..old(self)@ }),
            final(self)@.grid.drag_start is None,
    {
        self.grid_view.stop_drag();
    }

    /// Focus and alone select the entry at `index` of the view in use.
    fn set_focused(&mut self, index: usize)
        requires
            old(self).wf(),
        ensures
            final(self).wf(),
            final(self)@ == tab_focused_on(old(self)@, index),
    {
        match self.view_mode {
            ViewMode::List => self.list_view.set_focused(index),
            ViewMode::Grid => self.grid_view.set_focused(index),
            ViewMode::Columns => self.column_view.set_focused(index),
        }
    }

    /// Focus the entry a name picks out (see `name_match`); gives whether
    /// one did.
    pub fn select_by_name(&mut self, name: &str) -> (res: bool)
        requires
            old(self).wf(),
        ensures
            final(self).wf(),
            res == (name_match(tab_visible(old(self)@), name@) is Some),
            match name_match(tab_visible(old(self)@), name@) {
                Some(k) => final(self)@ == tab_focused_on(old(self)@, k as usize),
                None => final(self)@ == old(self)@,
            },
    {
        let vis = self.visible_entries();
        let found = match first_index(&vis, name, 0) {
            Some(k) => Some(k),
            None => match first_index(&vis, name, 1) {
                Some(k) => Some(k),
                None => first_index(&vis, name, 2),
            },
        };
        match found {
            Some(k) => {
                self.set_focused(k);
                true
            },
            None => false,
        }
    }

    /// Focus the first entry shown at `path`.
    pub fn select_by_path(&mut self, path: &str)
        requires
            old(self).wf(),
        ensures
            final(self).wf(),
            match first_where(tab_visible(old(self)@), |e: FileEntry| same_path(e.path@, path@), 0) {
                Some(k) => final(self)@ == tab_focused_on(old(self)@, k as usize),
                None => final(self)@ == old(self)@,
            },
    {
        let vis = self.visible_entries();
        let mut i: usize = 0;
        while i < vis.len()
            invariant
                i <= vis@.len(),
                self.wf(),
                self@ == old(self)@,
                vis@ == tab_visible(self@),
                first_where(vis@, |e: FileEntry| same_path(e.path@, path@), 0) == first_where(
                    vis@,
                    |e: FileEntry| same_path(e.path@, path@),
                    i as int,
                ),
            decreases vis@.len() - i,
        {
            if path_eq(&vis[i].path, path) {
                self.set_focused(i);
                return;
            }
            i = i + 1;
        }
    }

    /// Whether a rename is under way.
    pub fn is_renaming(&self) -> (res: bool)
        ensures
            res == self@.renaming is Some,
    {
        self.renaming.is_some()
    }

    /// The rename under way.
    pub fn rename_state(&self) -> (res: Option<&RenameState>)
        ensures
            match res {
                Some(r) => self@.renaming == Some(*r),
                None => self@.renaming is None,
            },
    {
        match &self.renaming {
            Some(r) => Some(r),
            None => None,
        }
    }

    /// Start renaming the entry in focus (all of its name selected); nothing
    /// happens without one.
    pub fn start_rename(&mut self)
        requires
            old(self).wf(),
        ensures
            final(self).wf(),
            match tab_focused_entry(old(self)@) {
                Some(e) => final(self)@.renaming matches Some(r) && r.index == tab_focus(old(self)@) && r.original
                    == e.name && r.text == e.name && r.cursor == e.name@.len() && r.selection_start == Some(0usize)
                    && final(self)@ == (TabState { renaming: final(self)@.renaming, ..old(self)@ }),
                None => final(self)@ == old(self)@,
            },
    {
        let index = self.focused_index();
        match self.selected_entry() {
            Some(e) => {
                self.renaming = Some(RenameState::start(index, e.name));
            },
            None => {},
        }
    }

    /// The focus of the view in use.
    pub fn focused_index(&self) -> (res: usize)
        ensures
            res == tab_focus(self@),
    {
        match self.view_mode {
            ViewMode::List => self.list_view.focused_index(),
            ViewMode::Grid => self.grid_view.focused_index(),
            ViewMode::Columns => self.column_view.focused_index(),
        }
    }

    /// Start renaming the entry in focus with a suggested name (all of it
    /// selected), for a paste that collides.
    pub fn start_rename_with_text(&mut self, suggested_name: &str)
        requires
            old(self).wf(),
        ensures
            final(self).wf(),
            final(self)@.renaming matches Some(r) && r.index == tab_focus(old(self)@) && r.original@ == (match tab_focused_entry(
                old(self)@,
            ) {
                Some(e) => e.name@,
                None => Seq::<char>::empty(),
            }) && r.text@ == suggested_name@ && r.cursor == suggested_name@.len() && r.selection_start == Some(0usize),
            final(self)@ == (TabState { renaming: final(self)@.renaming, ..old(self)@ }),
    {
        let index = self.focused_index();
        let original = match self.selected_entry() {
            Some(e) => e.name,
            None => String::new(),
        };
        let mut r = RenameState::start(index, copy_string(suggested_name));
        r.original = original;
        self.renaming = Some(r);
    }

    /// Give up the rename under way.
    pub fn cancel_rename(&mut self)
        requires
            old(self).wf(),
        ensures
            final(self).wf(),
            final(self)@ == (TabState { renaming: None, ..old(self)@ }),
    {
        self.renaming = None;
    }

    /// Confirm the rename under way (which ends it): the new name is the
    /// text without surrounding white space. It must not be empty, the
    /// entry must still be shown, an unchanged name asks for nothing, and a
    /// name with a path separator is refused; else the caller is asked to
    /// rename the entry, then to list the directory again and focus the
    /// renamed entry (`select_by_path`).
    pub fn confirm_rename(&mut self) -> (res: Result<RenameRequest, String>)
        requires
            old(self).wf(),
        ensures
            final(self).wf(),
            final(self)@ == (TabState { renaming: None, ..old(self)@ }),
            match old(self)@.renaming {
                None => res matches Err(e) && e@ == "No rename in progress"@,
                Some(r) => {
                    let name = trim(r.text@);
                    let vis = tab_visible(old(self)@);
                    if name.len() == 0 {
                        res matches Err(e) && e@ == "Name cannot be empty"@
                    } else if r.index >= vis.len() {
                        res matches Err(e) && e@ == "Entry not found"@
                    } else if name == r.original@ {
                        res == Ok::<RenameRequest, String>(
                            RenameRequest::Unchanged { path: vis[r.index as int].path, name: r.original },
                        )
                    } else if name.contains('/') || name.contains('\u{5c}') {
                        res matches Err(e) && e@ == "Name cannot contain path separators"@
                    } else {
                        res matches Ok(RenameRequest::Rename { from, new_name }) && from == vis[r.index as int].path
                            && new_name@ == name
                    }
                },
            },
    {
        let state = match self.renaming.take() {
            Some(s) => s,
            None => {
                return Err(copy_string("No rename in progress"));
            },
        };
        let name = trim_chars(&chars_of(&state.text));
        if name.len() == 0 {
            return Err(copy_string("Name cannot be empty"));
        }
        let vis = self.visible_entries();
        if state.index >= vis.len() {
            return Err(copy_string("Entry not found"));
        }
        let path = vis[state.index].path.clone();
        let original = chars_of(&state.original);
        if crate::text::chars_eq(&name, &original) {
            return Ok(RenameRequest::Unchanged { path, name: state.original });
        }
        if crate::text::contains_char(&name, '/') || crate::text::contains_char(&name, '\u{5c}') {
            return Err(copy_string("Name cannot contain path separators"));
        }
        Ok(RenameRequest::Rename { from: path, new_name: string_of(&name) })
    }

    /// A key pressed while renaming: Escape gives up the rename, Return is
    /// left to the caller (which confirms), other keys edit the text.
    /// Gives whether the key was taken.
    pub fn handle_rename_key(&mut self, key: Key) -> (res: bool)
        requires
            old(self).wf(),
            old(self)@.renaming matches Some(r) ==> edit_wf(r.edit()),
            key matches Key::Char(c) ==> is_ascii_char(c),
        ensures
            final(self).wf(),
            match old(self)@.renaming {
                None => !res && final(self)@ == old(self)@,
                Some(r) => if key == Key::Escape {
                    res && final(self)@ == (TabState { renaming: None, ..old(self)@ })
                } else {
                    &&& res == (crate::views::edit_key_spec(r.edit(), key) is Some)
                    &&& final(self)@ == (TabState { renaming: final(self)@.renaming, ..old(self)@ })
                    &&& final(self)@.renaming matches Some(t) && t.index == r.index && t.original == r.original
                        && t.edit() == (if res { crate::views::edit_key_spec(r.edit(), key)->0 } else { r.edit() })
                },
            },
    {
        if self.renaming.is_none() {
            return false;
        }
        if key == Key::Escape {
            self.renaming = None;
            return true;
        }
        let mut state = self.renaming.take().unwrap();
        let res = state.handle_key(key);
        self.renaming = Some(state);
        res
    }

    /// Take the preview the column view waits for, when it is in use: the
    /// directory, and the order to list it in.
    pub fn take_pending_preview(&mut self) -> (res: Option<(String, SortOrder, SortDirection)>)
        requires
            old(self).wf(),
        ensures
            final(self).wf(),
            old(self)@.mode != ViewMode::Columns ==> res is None && final(self)@ == old(self)@,
            old(self)@.mode == ViewMode::Columns ==> final(self)@ == (TabState {
                columns: ColumnViewState { pending: None, ..old(self)@.columns },
                ..old(self)@
            }) && match res {
                Some((p, o, d)) => old(self)@.columns.pending == Some(p@) && o == old(self)@.columns.sort_order && d
                    == old(self)@.columns.sort_direction,
                None => old(self)@.columns.pending is None,
            },
    {
        if self.view_mode == ViewMode::Columns {
            self.column_view.take_pending_preview()
        } else {
            None
        }
    }

    /// Hand over the loaded contents of directory `path` for the column
    /// view's preview, when it is in use.
    pub fn set_preview_entries(&mut self, path: &str, entries: Vec<FileEntry>)
        requires
            old(self).wf(),
        ensures
            final(self).wf(),
            old(self)@.mode != ViewMode::Columns ==> final(self)@ == old(self)@,
            old(self)@.mode == ViewMode::Columns ==> final(self)@ == (TabState { columns: final(self)@.columns, ..old(self)@ })
                && ({
                let s = old(self)@.columns;
                match s.preview_path {
                    Some(w) => if same_path(w, path@) {
                        final(self)@.columns == (ColumnViewState {
                            preview: Some(
                                crate::column_view::ColumnState {
                                    entries: entries@,
                                    selected: 0,
                                    scroll: 0,
                                    hovered: None,
                                    bounds: crate::column_view::preview_rect(s.bounds, s.current_bounds),
                                },
                            ),
                            ..s
                        })
                    } else {
                        final(self)@.columns == s
                    },
                    None => final(self)@.columns == s,
                }
            }),
    {
        if self.view_mode == ViewMode::Columns {
            self.column_view.set_preview_entries(path, entries);
        }
    }

    /// Whether the column view, in use, waits for a preview.
    pub fn is_preview_loading(&self) -> (res: bool)
        ensures
            res == (self@.mode == ViewMode::Columns && self@.columns.preview_path is Some
                && self@.columns.preview is None),
    {
        self.view_mode == ViewMode::Columns && self.column_view.is_preview_loading()
    }

    /// Take the parent directory the column view waits for.
    pub fn take_pending_parent(&mut self) -> (res: Option<String>)
        requires
            old(self).wf(),
        ensures
            final(self).wf(),
            final(self)@ == (TabState { pending_parent: None, ..old(self)@ }),
            match res {
                Some(p) => old(self)@.pending_parent == Some(p@),
                None => old(self)@.pending_parent is None,
            },
    {
        self.pending_parent.take()
    }

    /// Hand over the entries of the parent directory for the column view.
    pub fn set_parent_entries(&mut self, entries: Vec<FileEntry>)
        requires
            old(self).wf(),
        ensures
            final(self).wf(),
            old(self)@.columns.parent is None ==> final(self)@ == old(self)@,
            old(self)@.columns.parent is Some ==> exists|sorted: Seq<FileEntry>, perm: Seq<int>|
                stable_sorting(entries@, sorted, perm, old(self)@.columns.sort_order, old(self)@.columns.sort_direction)
                    && final(self)@ == (TabState {
                    columns: crate::column_view::parent_filled(old(self)@.columns, sorted),
                    ..old(self)@
                }),
    {
        self.column_view.set_parent_entries(entries);
    }
}

/// The first entry a name picks out in one way: exactly (0), without regard
/// to ASCII case (1), or by the end of its path (2).
fn first_index(vis: &Vec<FileEntry>, name: &str, how: u8) -> (res: Option<usize>)
    requires
        how <= 2,
    ensures
        how == 0 ==> res == as_index(first_where(vis@, |e: FileEntry| e.name@ == name@, 0)),
        how == 1 ==> res == as_index(first_where(vis@, |e: FileEntry| same_ignoring_ascii_case(e.name@, name@), 0)),
        how == 2 ==> res == as_index(first_where(vis@, |e: FileEntry| std_path_ends_with(e.path@, name@), 0)),
{
    let ghost pred: spec_fn(FileEntry) -> bool = if how == 0 {
        |e: FileEntry| e.name@ == name@
    } else if how == 1 {
        |e: FileEntry| same_ignoring_ascii_case(e.name@, name@)
    } else {
        |e: FileEntry| std_path_ends_with(e.path@, name@)
    };
    let mut i: usize = 0;
    while i < vis.len()
        invariant
            i <= vis@.len(),
            how <= 2,
            pred == (if how == 0 {
                |e: FileEntry| e.name@ == name@
            } else if how == 1 {
                |e: FileEntry| same_ignoring_ascii_case(e.name@, name@)
            } else {
                |e: FileEntry| std_path_ends_with(e.path@, name@)
            }),
            first_where(vis@, pred, 0) == first_where(vis@, pred, i as int),
        decreases vis@.len() - i,
    {
        let hit = if how == 0 {
            crate::text::text_eq(&vis[i].name, name)
        } else if how == 1 {
            eq_ignore_ascii_case(&vis[i].name, name)
        } else {
            path_ends_with(&vis[i].path, name)
        };
        if hit {
            return Some(i);
        }
        i = i + 1;
    }
    None
}

/// A total size is never negative.
proof fn lemma_total_size_nonneg(es: Seq<FileEntry>)
    ensures
        total_size(es) >= 0,
    decreases es.len(),
{
    if es.len() > 0 {
        lemma_total_size_nonneg(es.drop_last());
    }
}

/// Keyboard moves keep the focus on one of the entries shown, whichever
/// view is in use.
pub proof fn law_moves_stay_on_entries(s: TabState, nav: Nav)
    requires
        0 <= tab_focus(s) < tab_visible(s).len(),
        s.grid.columns >= 1,
    ensures
        tab_visible(tab_nav(s, nav)) == tab_visible(s),
        0 <= tab_focus(tab_nav(s, nav)) < tab_visible(s).len(),
{
    let n = tab_visible(s).len() as int;
    match s.mode {
        ViewMode::List => {
            let rows = crate::selection::list_rows_spec(s.list.bounds.height);
            assert(rows >= 1);
            let t = list_nav(s.list, nav);
            assert(tab_focus(tab_nav(s, nav)) == t.focus);
            assert(0 <= t.focus < n);
        },
        ViewMode::Grid => {
            let rows = crate::selection::grid_rows_spec(s.grid.bounds.height, s.grid.icon_size);
            let c = s.grid.columns;
            let page = rows * c;
            assert(rows >= 1);
            assert(page >= 0) by (nonlinear_arith)
                requires
                    rows >= 1,
                    c >= 1,
                    page == rows * c,
            ;
            let t = grid_nav(s.grid, nav);
            assert(tab_focus(tab_nav(s, nav)) == t.focus);
            assert(0 <= t.focus < n);
        },
        ViewMode::Columns => {
            let t = column_nav(s.columns, nav);
            assert(tab_focus(tab_nav(s, nav)) == t.focus);
            assert(0 <= t.focus < n);
        },
    }
}

} // verus!
