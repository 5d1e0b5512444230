//! The column view (Miller columns): the parent directory on the left, the
//! current one in the middle and, for a selected directory, its contents on
//! the right. Directory contents are read by the caller: the view says
//! which directory it needs and is handed the entries.
use vstd::prelude::*;
use crate::entry::{sort_entries, stable_sorting, EntryType, FileEntry, SortDirection, SortOrder};
use crate::geometry::{inside, Point, Rect};
use crate::keys::Modifiers;
use crate::list_view::{picked, shown, shown_entries};
use crate::path::{file_name, file_name_of, parent_of, path_eq, same_path, std_parent};
use crate::selection::{clicked, no_repeats, revalidated, scroll_to, Nav, Selection};
use crate::text::{copy_string, text_eq};
use crate::views::ColumnClickResult;

verus! {

/// Height of a row in a column.
pub const COLUMN_ROW_HEIGHT: u32 = 24;

/// The rows that fit in a column of this height (at least one).
pub open spec fn column_rows(height: u32) -> int {
    let r = height / COLUMN_ROW_HEIGHT;
    if r >= 1 { r as int } else { 1 }
}

/// The row of a column under a point: the column's rows from `scroll` on
/// are stacked from its top, as many as fit, up to the `count` entries
/// shown.
pub open spec fn row_hit_in(b: Rect, scroll: int, count: int, p: Point) -> Option<usize> {
    if inside(b, p) {
        let k = (p.y - b.y) / (COLUMN_ROW_HEIGHT as int);
        if k < column_rows(b.height) && scroll + k < count { Some((scroll + k) as usize) } else { None }
    } else {
        None
    }
}

/// A side column (the parent directory or the preview).
pub struct ColumnState {
    pub entries: Seq<FileEntry>,
    pub selected: int,
    pub scroll: int,
    pub hovered: Option<usize>,
    pub bounds: Rect,
}

/// The row of a side column under a point.
pub open spec fn side_hit(c: ColumnState, show_hidden: bool, p: Point) -> Option<usize> {
    row_hit_in(c.bounds, c.scroll, shown(c.entries, show_hidden).len() as int, p)
}

/// Where the parent column is.
pub open spec fn parent_rect(b: Rect) -> Rect {
    Rect { x: b.x, y: b.y, width: b.width / 3, height: b.height }
}

/// Where the current column is: the middle third with a parent column,
/// else the left two thirds.
pub open spec fn current_rect(b: Rect, has_parent: bool) -> Rect {
    if has_parent {
        Rect { x: (b.x + b.width / 3) as i32, y: b.y, width: b.width / 3, height: b.height }
    } else {
        Rect { x: b.x, y: b.y, width: (b.width / 3 * 2) as u32, height: b.height }
    }
}

/// Where the preview column is: from the current column's right edge to the
/// view's.
pub open spec fn preview_rect(b: Rect, cur: Rect) -> Rect {
    Rect {
        x: (cur.x + cur.width) as i32,
        y: b.y,
        width: (b.x + b.width - (cur.x + cur.width)) as u32,
        height: b.height,
    }
}

/// The first of the entries named `name`, or the first entry.
pub open spec fn name_position(es: Seq<FileEntry>, name: Seq<char>, i: int) -> int
    decreases es.len() - i,
{
    if i >= es.len() {
        0
    } else if es[i].name@ == name {
        i
    } else {
        name_position(es, name, i + 1)
    }
}

/// The view with the focus moved to `f` in the current column: it alone is
/// selected and is the anchor, its row is scrolled into view, and the
/// preview follows it.
pub open spec fn column_at(s: ColumnViewState, f: int) -> ColumnViewState {
    previewed(
        ColumnViewState {
            focus: f,
            chosen: set![f as usize],
            anchor: Some(f as usize),
            scroll: scroll_to(f, s.scroll, column_rows(s.current_bounds.height)),
            ..s
        },
    )
}

/// The view after a move of the focus by the keyboard: up and down a row
/// (nothing at either end), to the first or last entry shown, a page of
/// rows up or down. Left and right do nothing here.
pub open spec fn column_nav(s: ColumnViewState, nav: Nav) -> ColumnViewState {
    let n = shown(s.entries, s.show_hidden).len() as int;
    let rows = column_rows(s.current_bounds.height);
    let last = if n >= 1 { n - 1 } else { 0 };
    match nav {
        Nav::Prev => if s.focus == 0 { s } else { column_at(s, s.focus - 1) },
        Nav::Next => if s.focus + 1 >= n { s } else { column_at(s, s.focus + 1) },
        Nav::First => column_at(s, 0),
        Nav::Last => if n == 0 { s } else { column_at(s, n - 1) },
        Nav::PageUp => column_at(s, if s.focus >= rows { s.focus - rows } else { 0 }),
        Nav::PageDown => column_at(s, if s.focus + rows <= last { s.focus + rows } else { last }),
        Nav::Left | Nav::Right => s,
    }
}

/// The view once hidden files are shown, or hidden, in turn: the preview
/// follows the focus.
pub open spec fn column_toggled(s: ColumnViewState) -> ColumnViewState {
    let count = shown(s.entries, !s.show_hidden).len() as int;
    let (f, chosen) = revalidated(s.focus, s.chosen, count);
    previewed(ColumnViewState { show_hidden: !s.show_hidden, focus: f, chosen, ..s })
}

/// A click. In the parent column or the preview, a click on a directory
/// asks to go there. In the current column it focuses the column and, on
/// an entry, focuses that entry, selecting as `clicked` says, and the
/// preview follows it.
pub open spec fn column_click(s: ColumnViewState, p: Point, m: Modifiers) -> (ColumnClickResult, ColumnViewState) {
    if s.parent matches Some(c) && inside(c.bounds, p) {
        (side_click(s.parent->0, s.show_hidden, p), s)
    } else if s.preview matches Some(c) && inside(c.bounds, p) {
        (side_click(s.preview->0, s.show_hidden, p), s)
    } else if !inside(s.current_bounds, p) {
        (ColumnClickResult::Nothing, s)
    } else {
        match row_hit_in(s.current_bounds, s.scroll, shown(s.entries, s.show_hidden).len() as int, p) {
            Some(k) => {
                let (chosen, anchor) = clicked(s.chosen, s.anchor, k, m.ctrl, m.shift);
                (
                    ColumnClickResult::Selected(k),
                    previewed(ColumnViewState { focus: k as int, chosen, anchor, focused_column: 1, ..s }),
                )
            },
            None => (ColumnClickResult::Nothing, ColumnViewState { focused_column: 1, ..s }),
        }
    }
}

/// The view with each column's row under the pointer hovered.
pub open spec fn column_hovered(s: ColumnViewState, p: Point) -> ColumnViewState {
    ColumnViewState {
        parent: match s.parent {
            Some(c) => Some(ColumnState { hovered: side_hit(c, s.show_hidden, p), ..c }),
            None => None,
        },
        hovered: row_hit_in(s.current_bounds, s.scroll, shown(s.entries, s.show_hidden).len() as int, p),
        preview: match s.preview {
            Some(c) => Some(ColumnState { hovered: side_hit(c, s.show_hidden, p), ..c }),
            None => None,
        },
        ..s
    }
}

/// A new column view at the root, without entries: the current column in
/// the middle third, nothing selected.
pub open spec fn fresh_columns(b: Rect) -> ColumnViewState {
    ColumnViewState {
        path: seq!['/'],
        parent: None,
        entries: Seq::empty(),
        focus: 0,
        chosen: Set::empty(),
        anchor: None,
        scroll: 0,
        hovered: None,
        current_bounds: current_rect(b, true),
        preview: None,
        preview_path: None,
        pending: None,
        bounds: b,
        show_hidden: false,
        sort_order: SortOrder::Name,
        sort_direction: SortDirection::Ascending,
        focused_column: 1,
    }
}

/// The view showing new entries in the current column: the first is
/// focused and selected, at the top, and its preview is wanted.
pub open spec fn columns_filled(s: ColumnViewState, es: Seq<FileEntry>) -> ColumnViewState {
    previewed(
        ColumnViewState {
            entries: es,
            focus: 0,
            chosen: set![0usize],
            anchor: Some(0usize),
            scroll: 0,
            focused_column: 1,
            ..s
        },
    )
}

/// The view showing the directory `path`, listed in this order.
pub open spec fn columns_at_path(s: ColumnViewState, path: Seq<char>, o: SortOrder, d: SortDirection) -> ColumnViewState {
    relaid(ColumnViewState { path, sort_order: o, sort_direction: d, ..s })
}

/// The view with the parent column showing these entries (in the view's
/// order), the current directory selected among them (the first entry
/// where it is not found).
pub open spec fn parent_filled(s: ColumnViewState, sorted: Seq<FileEntry>) -> ColumnViewState {
    ColumnViewState {
        parent: Some(
            ColumnState {
                entries: sorted,
                selected: name_position(
                    sorted,
                    match file_name(s.path) {
                        Some(n) => n,
                        None => Seq::empty(),
                    },
                    0,
                ),
                scroll: 0,
                hovered: None,
                bounds: s.parent->0.bounds,
            },
        ),
        ..s
    }
}

/// What the column view holds.
pub struct ColumnViewState {
    pub path: Seq<char>,
    pub parent: Option<ColumnState>,
    pub entries: Seq<FileEntry>,
    pub focus: int,
    pub chosen: Set<usize>,
    pub anchor: Option<usize>,
    pub scroll: int,
    pub hovered: Option<usize>,
    pub current_bounds: Rect,
    pub preview: Option<ColumnState>,
    /// The directory whose contents the preview column is to show.
    pub preview_path: Option<Seq<char>>,
    /// A preview that the caller has not been asked to load yet.
    pub pending: Option<Seq<char>>,
    pub bounds: Rect,
    pub show_hidden: bool,
    pub sort_order: SortOrder,
    pub sort_direction: SortDirection,
    pub focused_column: int,
}

/// The view lies well inside `i32`.
pub open spec fn columns_ok(s: ColumnViewState) -> bool {
    &&& -0x2000_0000 <= s.bounds.x <= 0x2000_0000
    &&& -0x2000_0000 <= s.bounds.y <= 0x2000_0000
    &&& s.bounds.width <= 0x2000_0000
    &&& s.bounds.height <= 0x2000_0000
    &&& s.current_bounds.height == s.bounds.height
    &&& s.current_bounds.y == s.bounds.y
    &&& s.bounds.x <= s.current_bounds.x
    &&& s.current_bounds.x + s.current_bounds.width <= s.bounds.x + s.bounds.width
    &&& (s.parent matches Some(c) ==> c.bounds == parent_rect(s.bounds))
    &&& (s.preview matches Some(c) ==> c.bounds == preview_rect(s.bounds, s.current_bounds))
}

/// The preview wanted for the entry in focus: the contents of a directory,
/// to be loaded; nothing for anything else.
pub open spec fn previewed(s: ColumnViewState) -> ColumnViewState {
    let vis = shown(s.entries, s.show_hidden);
    if 0 <= s.focus < vis.len() && vis[s.focus].entry_type == EntryType::Directory {
        ColumnViewState { preview: None, preview_path: Some(vis[s.focus].path@), pending: Some(vis[s.focus].path@), ..s }
    } else {
        ColumnViewState { preview: None, preview_path: None, pending: None, ..s }
    }
}

/// The columns laid out anew for the view's bounds: a fresh, empty parent
/// column where the path has a parent (its entries are to be loaded), the
/// current column beside it, and the preview wanted for the focus.
pub open spec fn relaid(s: ColumnViewState) -> ColumnViewState {
    let has_parent = std_parent(s.path) is Some;
    previewed(
        ColumnViewState {
            parent: if has_parent {
                Some(ColumnState { entries: Seq::empty(), selected: 0, scroll: 0, hovered: None, bounds: parent_rect(s.bounds) })
            } else {
                None
            },
            current_bounds: current_rect(s.bounds, has_parent),
            ..s
        },
    )
}

/// The entry the point is on, in the current column first, then in the
/// parent column, then in the preview.
pub open spec fn entry_under(s: ColumnViewState, p: Point) -> Option<FileEntry> {
    let vis = shown(s.entries, s.show_hidden);
    match row_hit_in(s.current_bounds, s.scroll, vis.len() as int, p) {
        Some(k) => Some(vis[k as int]),
        None => {
            let in_parent = match s.parent {
                Some(c) => match side_hit(c, s.show_hidden, p) {
                    Some(k) => Some(shown(c.entries, s.show_hidden)[k as int]),
                    None => None,
                },
                None => None,
            };
            match in_parent {
                Some(e) => Some(e),
                None => match s.preview {
                    Some(c) => match side_hit(c, s.show_hidden, p) {
                        Some(k) => Some(shown(c.entries, s.show_hidden)[k as int]),
                        None => None,
                    },
                    None => None,
                },
            }
        },
    }
}

/// What a click on a side column gives: the directory clicked on to go
/// to, else nothing.
pub open spec fn side_click(c: ColumnState, show_hidden: bool, p: Point) -> ColumnClickResult {
    match side_hit(c, show_hidden, p) {
        Some(k) => {
            let e = shown(c.entries, show_hidden)[k as int];
            if e.entry_type == EntryType::Directory {
                ColumnClickResult::Navigate(e.path)
            } else {
                ColumnClickResult::Nothing
            }
        },
        None => ColumnClickResult::Nothing,
    }
}

struct Column {
    entries: Vec<FileEntry>,
    selected: usize,
    scroll_offset: usize,
    hovered: Option<usize>,
    bounds: Rect,
}

impl Column {
    spec fn state(&self) -> ColumnState {
        ColumnState {
            entries: self.entries@,
            selected: self.selected as int,
            scroll: self.scroll_offset as int,
            hovered: self.hovered,
            bounds: self.bounds,
        }
    }
}

/// The state of a side column, if there is one.
spec fn side_state(c: Option<Column>) -> Option<ColumnState> {
    match c {
        Some(c) => Some(c.state()),
        None => None,
    }
}

/// The row of a column under a point, among `count` entries shown.
fn row_at(b: Rect, scroll: usize, count: usize, p: Point) -> (res: Option<usize>)
    requires
        -0x2000_0000 <= b.y <= 0x2000_0000,
    ensures
        res == row_hit_in(b, scroll as int, count as int, p),
        res matches Some(k) ==> k < count,
{
    if !b.contains_point(p) {
        return None;
    }
    let k = ((p.y as i64 - b.y as i64) / COLUMN_ROW_HEIGHT as i64) as usize;
    let rows = if b.height / COLUMN_ROW_HEIGHT >= 1 {
        (b.height / COLUMN_ROW_HEIGHT) as usize
    } else {
        1
    };
    if k < rows && scroll < count && count - scroll > k {
        Some(scroll + k)
    } else {
        None
    }
}

/// The row of a side column under a point.
fn side_row_at(c: &Column, show_hidden: bool, p: Point) -> (res: Option<usize>)
    requires
        -0x2000_0000 <= c.bounds.y <= 0x2000_0000,
    ensures
        res == side_hit(c.state(), show_hidden, p),
        res matches Some(k) ==> k < shown(c.entries@, show_hidden).len(),
{
    let count = shown_entries(&c.entries, show_hidden).len();
    row_at(c.bounds, c.scroll_offset, count, p)
}

/// Where the first entry named `name` is, or 0.
fn name_index(entries: &Vec<FileEntry>, name: &String) -> (res: usize)
    ensures
        res == name_position(entries@, name@, 0),
{
    let mut i: usize = 0;
    while i < entries.len()
        invariant
            i <= entries@.len(),
            name_position(entries@, name@, 0) == name_position(entries@, name@, i as int),
        decreases entries@.len() - i,
    {
        if text_eq(&entries[i].name, name) {
            return i;
        }
        i = i + 1;
    }
    0
}

/// The Miller columns view.
pub struct ColumnView {
    current_path: String,
    parent_column: Option<Column>,
    entries: Vec<FileEntry>,
    sel: Selection,
    hovered: Option<usize>,
    current_bounds: Rect,
    preview_column: Option<Column>,
    preview_path: Option<String>,
    pending_preview: Option<String>,
    bounds: Rect,
    show_hidden: bool,
    sort_order: SortOrder,
    sort_direction: SortDirection,
    focused_column: usize,
}

impl View for ColumnView {
    type V = ColumnViewState;

    closed spec fn view(&self) -> ColumnViewState {
        ColumnViewState {
            path: self.current_path@,
            parent: side_state(self.parent_column),
            entries: self.entries@,
            focus: self.sel.focus(),
            chosen: self.sel.chosen(),
            anchor: self.sel.anchor_at(),
            scroll: self.sel.scroll(),
            hovered: self.hovered,
            current_bounds: self.current_bounds,
            preview: side_state(self.preview_column),
            preview_path: match self.preview_path {
                Some(p) => Some(p@),
                None => None,
            },
            pending: match self.pending_preview {
                Some(p) => Some(p@),
                None => None,
            },
            bounds: self.bounds,
            show_hidden: self.show_hidden,
            sort_order: self.sort_order,
            sort_direction: self.sort_direction,
            focused_column: self.focused_column as int,
        }
    }
}

impl ColumnView {
    /// The view's parts are consistent.
    pub closed spec fn wf(&self) -> bool {
        self.sel.wf() && columns_ok(self@)
    }

    /// The entries of the current column shown at present.
    pub open spec fn visible(&self) -> Seq<FileEntry> {
        shown(self@.entries, self@.show_hidden)
    }

    /// The rows that fit in the current column.
    pub open spec fn rows(&self) -> int {
        column_rows(self@.current_bounds.height)
    }

    /// Create a new column view at the root, without entries: the current
    /// column in the middle third, nothing selected.
    pub fn new(bounds: Rect) -> (res: Self)
        requires
            -0x2000_0000 <= bounds.x <= 0x2000_0000,
            -0x2000_0000 <= bounds.y <= 0x2000_0000,
            bounds.width <= 0x2000_0000,
            bounds.height <= 0x2000_0000,
        ensures
            res.wf(),
            res@ == fresh_columns(bounds),
    {
        let w = bounds.width / 3;
        let res = ColumnView {
            current_path: copy_string("/"),
            parent_column: None,
            entries: Vec::new(),
            sel: Selection::empty(),
            hovered: None,
            current_bounds: Rect { x: bounds.x + w as i32, y: bounds.y, width: w, height: bounds.height },
            preview_column: None,
            preview_path: None,
            pending_preview: None,
            bounds,
            show_hidden: false,
            sort_order: SortOrder::Name,
            sort_direction: SortDirection::Ascending,
            focused_column: 1,
        };
        proof {
            reveal_strlit("/");
        }
        assert(res@.entries =~= Seq::<FileEntry>::empty());
        assert(res@.path =~= seq!['/']);
        res
    }

    /// Point the preview at the entry in focus.
    fn update_preview(&mut self)
        requires
            old(self).wf(),
        ensures
            final(self).wf(),
            final(self)@ == previewed(old(self)@),
    {
        let visible = self.visible_entries();
        let f = self.sel.focused_index();
        self.preview_column = None;
        if f < visible.len() && visible[f].is_dir() {
            let p = visible[f].path.clone();
            self.preview_path = Some(p.clone());
            self.pending_preview = Some(p);
        } else {
            self.preview_path = None;
            self.pending_preview = None;
        }
    }

    /// Set the entries of the current column: the first is focused and
    /// selected, at the top, and its preview is wanted.
    pub fn set_entries(&mut self, entries: Vec<FileEntry>)
        requires
            old(self).wf(),
        ensures
            final(self).wf(),
            final(self)@ == columns_filled(old(self)@, entries@),
    {
        self.entries = entries;
        self.sel = Selection::new();
        self.focused_column = 1;
        self.update_preview();
    }

    /// Lay the columns out anew; gives the parent directory, whose entries
    /// are to be handed over with `set_parent_entries`.
    fn update_columns(&mut self) -> (res: Option<String>)
        requires
            old(self).wf(),
        ensures
            final(self).wf(),
            final(self)@ == relaid(old(self)@),
            res matches Some(p) ==> std_parent(old(self)@.path) == Some(p@),
            res is None ==> std_parent(old(self)@.path) is None,
    {
        self.preview_column = None;
        let w = self.bounds.width / 3;
        let parent = parent_of(&self.current_path);
        match &parent {
            Some(_) => {
                self.parent_column = Some(
                    Column {
                        entries: Vec::new(),
                        selected: 0,
                        scroll_offset: 0,
                        hovered: None,
                        bounds: Rect { x: self.bounds.x, y: self.bounds.y, width: w, height: self.bounds.height },
                    },
                );
                self.current_bounds = Rect { x: self.bounds.x + w as i32, y: self.bounds.y, width: w, height: self.bounds.height };
            },
            None => {
                self.parent_column = None;
                self.current_bounds = Rect { x: self.bounds.x, y: self.bounds.y, width: w * 2, height: self.bounds.height };
            },
        }
        proof {
            assert(side_state(self.parent_column) matches Some(c) ==> c.entries =~= Seq::<FileEntry>::empty());
        }
        self.update_preview();
        parent
    }

    /// Show the directory `path`, listed in this order; gives its parent
    /// directory, whose entries are to be handed over with
    /// `set_parent_entries`, if it has one.
    pub fn set_path(&mut self, path: String, sort_order: SortOrder, sort_direction: SortDirection) -> (res: Option<String>)
        requires
            old(self).wf(),
        ensures
            final(self).wf(),
            final(self)@ == columns_at_path(old(self)@, path@, sort_order, sort_direction),
            res matches Some(p) ==> std_parent(path@) == Some(p@),
            res is None ==> std_parent(path@) is None,
    {
        self.current_path = path;
        self.sort_order = sort_order;
        self.sort_direction = sort_direction;
        self.update_columns()
    }

    /// Hand over the entries of the parent directory: they are listed in
    /// the view's order, and the current directory is selected among them
    /// (the first entry where it is not found).
    pub fn set_parent_entries(&mut self, entries: Vec<FileEntry>)
        requires
            old(self).wf(),
        ensures
            final(self).wf(),
            old(self)@.parent is None ==> final(self)@ == old(self)@,
            old(self)@.parent is Some ==> exists|sorted: Seq<FileEntry>, perm: Seq<int>|
                stable_sorting(entries@, sorted, perm, old(self)@.sort_order, old(self)@.sort_direction)
                    && final(self)@ == parent_filled(old(self)@, sorted),
    {
        if self.parent_column.is_none() {
            return;
        }
        let mut entries = entries;
        sort_entries(&mut entries, self.sort_order, self.sort_direction);
        let name = match file_name_of(&self.current_path) {
            Some(n) => n,
            None => String::new(),
        };
        let selected = name_index(&entries, &name);
        let bounds = match &self.parent_column {
            Some(c) => c.bounds,
            None => self.bounds,
        };
        self.parent_column = Some(Column { entries, selected, scroll_offset: 0, hovered: None, bounds });
    }

    /// The directory shown.
    pub fn current_path(&self) -> (res: &String)
        ensures
            res@ == self@.path,
    {
        &self.current_path
    }

    /// The entries of the current column shown.
    pub fn visible_entries(&self) -> (res: Vec<FileEntry>)
        ensures
            res@ == self.visible(),
    {
        shown_entries(&self.entries, self.show_hidden)
    }

    /// The entry in focus in the current column.
    pub fn selected_entry(&self) -> (res: Option<FileEntry>)
        ensures
            res == if 0 <= self@.focus < self.visible().len() {
                Some(self.visible()[self@.focus])
            } else {
                None::<FileEntry>
            },
    {
        let visible = self.visible_entries();
        let f = self.sel.focused_index();
        if f < visible.len() {
            Some(visible[f].duplicate())
        } else {
            None
        }
    }

    /// The position of the entry in focus.
    pub fn focused_index(&self) -> (res: usize)
        ensures
            res == self@.focus,
    {
        self.sel.focused_index()
    }

    /// The selected entries of the current column that are shown, each
    /// once, in the order they were selected.
    pub fn selected_entries(&self) -> (res: Vec<FileEntry>)
        requires
            self.wf(),
        ensures
            exists|order: Seq<usize>|
                order.to_set() == self@.chosen && no_repeats(order) && res@ == picked(self.visible(), order),
    {
        let visible = self.visible_entries();
        let order = self.sel.selected_indices();
        let mut out: Vec<FileEntry> = Vec::new();
        let mut i: usize = 0;
        while i < order.len()
            invariant
                i <= order@.len(),
                visible@ == self.visible(),
                out@ == picked(visible@, order@.take(i as int)),
            decreases order@.len() - i,
        {
            proof {
                assert(order@.take(i + 1).drop_last() =~= order@.take(i as int));
            }
            let k = order[i];
            if k < visible.len() {
                out.push(visible[k].duplicate());
            }
            i = i + 1;
        }
        proof {
            assert(order@.take(i as int) =~= order@);
        }
        out
    }

    /// Get selection count.
    pub fn selection_count(&self) -> (res: usize)
        requires
            self.wf(),
        ensures
            res == self@.chosen.len(),
    {
        self.sel.selection_count()
    }

    /// Get current sort settings.
    pub fn sort_settings(&self) -> (res: (SortOrder, SortDirection))
        ensures
            res == (self@.sort_order, self@.sort_direction),
    {
        (self.sort_order, self.sort_direction)
    }

    /// Toggle hidden files visibility; the focus and the selection are
    /// brought back inside the entries now shown, and the preview follows
    /// the focus.
    pub fn toggle_hidden(&mut self)
        requires
            old(self).wf(),
        ensures
            final(self).wf(),
            final(self)@ == column_toggled(old(self)@),
    {
        self.show_hidden = !self.show_hidden;
        let count = self.visible_entries().len();
        self.sel.revalidate(count);
        self.update_preview();
    }

    fn rows_exec(&self) -> (res: usize)
        ensures
            res == self.rows(),
    {
        let r = self.current_bounds.height / COLUMN_ROW_HEIGHT;
        if r >= 1 {
            r as usize
        } else {
            1
        }
    }

    /// Move the focus up. Nothing happens on the first entry.
    pub fn select_prev(&mut self)
        requires
            old(self).wf(),
        ensures
            final(self).wf(),
            final(self)@ == column_nav(old(self)@, Nav::Prev),
    {
        if self.sel.focused_index() > 0 {
            let rows = self.rows_exec();
            self.sel.grid_left(1, rows);
            self.update_preview();
        }
    }

    /// Move the focus down. Nothing happens on the last entry shown.
    pub fn select_next(&mut self)
        requires
            old(self).wf(),
        ensures
            final(self).wf(),
            final(self)@ == column_nav(old(self)@, Nav::Next),
    {
        let count = self.visible_entries().len();
        let f = self.sel.focused_index();
        if f < count && count - f > 1 {
            let rows = self.rows_exec();
            self.sel.grid_right(count, 1, rows);
            self.update_preview();
        }
    }

    /// Jump to the first entry.
    pub fn select_first(&mut self)
        requires
            old(self).wf(),
        ensures
            final(self).wf(),
            final(self)@ == column_nav(old(self)@, Nav::First),
    {
        let rows = self.rows_exec();
        self.sel.grid_first(1, rows);
        self.update_preview();
    }

    /// Jump to the last entry shown.
    pub fn select_last(&mut self)
        requires
            old(self).wf(),
        ensures
            final(self).wf(),
            final(self)@ == column_nav(old(self)@, Nav::Last),
    {
        let count = self.visible_entries().len();
        if count > 0 {
            let rows = self.rows_exec();
            self.sel.grid_last(count, 1, rows);
            self.update_preview();
        }
    }

    /// Page up: a page of rows up, or to the first entry.
    pub fn page_up(&mut self)
        requires
            old(self).wf(),
        ensures
            final(self).wf(),
            final(self)@ == column_nav(old(self)@, Nav::PageUp),
    {
        let rows = self.rows_exec();
        self.sel.grid_page_up(1, rows);
        self.update_preview();
    }

    /// Page down: a page of rows down, or to the last entry shown.
    pub fn page_down(&mut self)
        requires
            old(self).wf(),
        ensures
            final(self).wf(),
            final(self)@ == column_nav(old(self)@, Nav::PageDown),
    {
        let count = self.visible_entries().len();
        let rows = self.rows_exec();
        self.sel.grid_page_down(count, 1, rows);
        self.update_preview();
    }

    /// Select all entries shown (Ctrl+A).
    pub fn select_all(&mut self)
        requires
            old(self).wf(),
        ensures
            final(self).wf(),
            final(self)@ == (ColumnViewState {
                chosen: Set::new(|k: usize| k < old(self).visible().len()),
                ..old(self)@
            }),
    {
        let count = self.visible_entries().len();
        self.sel.select_all(count);
    }

    /// Give the view new bounds; the columns are laid out anew, and the
    /// parent directory, whose entries are to be handed over again, is
    /// given.
    pub fn set_bounds(&mut self, bounds: Rect) -> (res: Option<String>)
        requires
            old(self).wf(),
            -0x2000_0000 <= bounds.x <= 0x2000_0000,
            -0x2000_0000 <= bounds.y <= 0x2000_0000,
            bounds.width <= 0x2000_0000,
            bounds.height <= 0x2000_0000,
        ensures
            final(self).wf(),
            final(self)@ == relaid(ColumnViewState { bounds, ..old(self)@ }),
            res matches Some(p) ==> std_parent(old(self)@.path) == Some(p@),
            res is None ==> std_parent(old(self)@.path) is None,
    {
        self.bounds = bounds;
        self.current_bounds = Rect { x: bounds.x, y: bounds.y, width: 0, height: bounds.height };
        self.parent_column = None;
        self.preview_column = None;
        self.update_columns()
    }

    /// Take the preview that is to be loaded: the directory, and the order
    /// to list it in.
    pub fn take_pending_preview(&mut self) -> (res: Option<(String, SortOrder, SortDirection)>)
        requires
            old(self).wf(),
        ensures
            final(self).wf(),
            final(self)@ == (ColumnViewState { pending: None, ..old(self)@ }),
            match res {
                Some((p, o, d)) => old(self)@.pending == Some(p@) && o == old(self)@.sort_order && d
                    == old(self)@.sort_direction,
                None => old(self)@.pending is None,
            },
    {
        match self.pending_preview.take() {
            Some(p) => Some((p, self.sort_order, self.sort_direction)),
            None => None,
        }
    }

    /// Hand over the loaded contents of directory `path`: they fill the
    /// preview column when that directory is still the one wanted.
    pub fn set_preview_entries(&mut self, path: &str, entries: Vec<FileEntry>)
        requires
            old(self).wf(),
        ensures
            final(self).wf(),
            ({
                let s = old(self)@;
                match s.preview_path {
                    Some(w) => if same_path(w, path@) {
                        final(self)@ == (ColumnViewState {
                            preview: Some(
                                ColumnState {
                                    entries: entries@,
                                    selected: 0,
                                    scroll: 0,
                                    hovered: None,
                                    bounds: preview_rect(s.bounds, s.current_bounds),
                                },
                            ),
                            ..s
                        })
                    } else {
                        final(self)@ == s
                    },
                    None => final(self)@ == s,
                }
            }),
    {
        let wanted = match &self.preview_path {
            Some(w) => path_eq(w, path),
            None => false,
        };
        if wanted {
            let cx = self.current_bounds.x as i64 + self.current_bounds.width as i64;
            let w = self.bounds.x as i64 + self.bounds.width as i64 - cx;
            let b = Rect { x: cx as i32, y: self.bounds.y, width: w as u32, height: self.bounds.height };
            self.preview_column = Some(Column { entries, selected: 0, scroll_offset: 0, hovered: None, bounds: b });
        }
    }

    /// Whether a preview is wanted and not loaded yet.
    pub fn is_preview_loading(&self) -> (res: bool)
        ensures
            res == (self@.preview_path is Some && self@.preview is None),
    {
        self.preview_path.is_some() && self.preview_column.is_none()
    }

    /// The pointer moved: each column's row under it is hovered.
    pub fn on_mouse_move(&mut self, p: Point)
        requires
            old(self).wf(),
        ensures
            final(self).wf(),
            final(self)@ == column_hovered(old(self)@, p),
    {
        let show_hidden = self.show_hidden;
        let mut parent = self.parent_column.take();
        match &mut parent {
            Some(c) => {
                c.hovered = side_row_at(c, show_hidden, p);
            },
            None => {},
        }
        self.parent_column = parent;
        let count = self.visible_entries().len();
        self.hovered = row_at(self.current_bounds, self.sel.scroll_offset(), count, p);
        let mut preview = self.preview_column.take();
        match &mut preview {
            Some(c) => {
                c.hovered = side_row_at(c, show_hidden, p);
            },
            None => {},
        }
        self.preview_column = preview;
    }

    /// The entry under a point: in the current column, else the parent
    /// column, else the preview.
    pub fn entry_at_point(&self, p: Point) -> (res: Option<FileEntry>)
        requires
            self.wf(),
        ensures
            res == entry_under(self@, p),
    {
        let visible = self.visible_entries();
        match row_at(self.current_bounds, self.sel.scroll_offset(), visible.len(), p) {
            Some(k) => {
                return Some(visible[k].duplicate());
            },
            None => {},
        }
        match &self.parent_column {
            Some(c) => {
                let vis = shown_entries(&c.entries, self.show_hidden);
                match row_at(c.bounds, c.scroll_offset, vis.len(), p) {
                    Some(k) => {
                        return Some(vis[k].duplicate());
                    },
                    None => {},
                }
            },
            None => {},
        }
        match &self.preview_column {
            Some(c) => {
                let vis = shown_entries(&c.entries, self.show_hidden);
                match row_at(c.bounds, c.scroll_offset, vis.len(), p) {
                    Some(k) => Some(vis[k].duplicate()),
                    None => None,
                }
            },
            None => None,
        }
    }

    /// What a click on a side column gives.
    fn click_side(c: &Column, show_hidden: bool, p: Point) -> (res: ColumnClickResult)
        requires
            -0x2000_0000 <= c.bounds.y <= 0x2000_0000,
        ensures
            res == side_click(c.state(), show_hidden, p),
    {
        let vis = shown_entries(&c.entries, show_hidden);
        match row_at(c.bounds, c.scroll_offset, vis.len(), p) {
            Some(k) => {
                if vis[k].is_dir() {
                    ColumnClickResult::Navigate(vis[k].path.clone())
                } else {
                    ColumnClickResult::Nothing
                }
            },
            None => ColumnClickResult::Nothing,
        }
    }

    /// A click in the view. In the parent column or the preview, a click
    /// on a directory asks to go there. In the current column it focuses
    /// the column and, on an entry, focuses that entry (with Control
    /// toggling its selection, with Shift selecting the range from the
    /// anchor, else selecting it alone), and the preview follows it.
    pub fn on_click(&mut self, p: Point, modifiers: &Modifiers) -> (res: ColumnClickResult)
        requires
            old(self).wf(),
        ensures
            final(self).wf(),
            (res, final(self)@) == column_click(old(self)@, p, *modifiers),
    {
        match &self.parent_column {
            Some(c) => {
                if c.bounds.contains_point(p) {
                    return ColumnView::click_side(c, self.show_hidden, p);
                }
            },
            None => {},
        }
        match &self.preview_column {
            Some(c) => {
                if c.bounds.contains_point(p) {
                    return ColumnView::click_side(c, self.show_hidden, p);
                }
            },
            None => {},
        }
        if !self.current_bounds.contains_point(p) {
            return ColumnClickResult::Nothing;
        }
        self.focused_column = 1;
        let count = self.visible_entries().len();
        match row_at(self.current_bounds, self.sel.scroll_offset(), count, p) {
            Some(k) => {
                self.sel.click(k, modifiers.ctrl, modifiers.shift);
                self.update_preview();
                ColumnClickResult::Selected(k)
            },
            None => ColumnClickResult::Nothing,
        }
    }

    /// Clear the selection.
    pub fn clear_selection(&mut self)
        requires
            old(self).wf(),
        ensures
            final(self).wf(),
            final(self)@ == (ColumnViewState { chosen: Set::empty(), ..old(self)@ }),
    {
        self.sel.clear_selection();
    }

    /// Focus and alone select the entry at `index` of the current column,
    /// when there is an entry there (hidden ones counted); the anchor and
    /// scrolling stay, and the preview follows the focus.
    pub fn set_focused(&mut self, index: usize)
        requires
            old(self).wf(),
        ensures
            final(self).wf(),
            index >= old(self)@.entries.len() ==> final(self)@ == old(self)@,
            index < old(self)@.entries.len() ==> final(self)@ == previewed(
                ColumnViewState { focus: index as int, chosen: set![index], ..old(self)@ },
            ),
    {
        if index < self.entries.len() {
            self.sel.set_focused(index);
            self.update_preview();
        }
    }

    /// Clear the hovered rows of all columns.
    pub fn clear_hover(&mut self)
        requires
            old(self).wf(),
        ensures
            final(self).wf(),
            ({
                let s = old(self)@;
                final(self)@ == (ColumnViewState {
                    parent: match s.parent {
                        Some(c) => Some(ColumnState { hovered: None, ..c }),
                        None => None,
                    },
                    hovered: None,
                    preview: match s.preview {
                        Some(c) => Some(ColumnState { hovered: None, ..c }),
                        None => None,
                    },
                    ..s
                })
            }),
    {
        let mut parent = self.parent_column.take();
        match &mut parent {
            Some(c) => {
                c.hovered = None;
            },
            None => {},
        }
        self.parent_column = parent;
        self.hovered = None;
        let mut preview = self.preview_column.take();
        match &mut preview {
            Some(c) => {
                c.hovered = None;
            },
            None => {},
        }
        self.preview_column = preview;
    }
}

} // verus!
