//! The grid view: entries as icons in cells, row after row, with hover,
//! clicks, rubber-band selection and scrolling.
use vstd::prelude::*;
use std::time::Instant;
use crate::drag::{instant_now, millis_since};
use crate::entry::{FileEntry, SortDirection, SortOrder};
use crate::geometry::{inside, Point, Rect};
use crate::keys::Modifiers;
use crate::list_view::{picked, shown, shown_entries};
use crate::selection::{
    clicked, grid_columns, grid_columns_spec, grid_rows, grid_rows_spec, no_repeats, revalidated, scroll_to, Nav, Selection,
};
use crate::views::{cell_size_spec, next_size, prev_size, IconSize, CELL_PADDING};

verus! {

/// Milliseconds between two updates of a rubber-band selection, and
/// between two redraws while one is dragged.
pub const DRAG_THROTTLE_MS: u64 = 16;

/// The distance from one cell to the next.
pub open spec fn step(size: IconSize) -> int {
    cell_size_spec(size) + CELL_PADDING
}

/// Where the cell of entry `i` is, the cell of entry `first` being at the
/// top left of the view.
pub open spec fn cell_rect(b: Rect, size: IconSize, columns: int, first: int, i: int) -> Rect {
    let k = i - first;
    Rect {
        x: (b.x + CELL_PADDING + (k % columns) * step(size)) as i32,
        y: (b.y + CELL_PADDING + (k / columns) * step(size)) as i32,
        width: cell_size_spec(size),
        height: cell_size_spec(size),
    }
}

/// The first entry in view.
pub open spec fn first_cell(s: GridViewState) -> int {
    s.scroll * s.columns
}

/// One past the last entry in view, of `count` shown.
pub open spec fn end_cell(s: GridViewState, count: int) -> int {
    let e = first_cell(s) + grid_rows_spec(s.bounds.height, s.icon_size) * s.columns;
    if e <= count { e } else { count }
}

/// The first entry from the `i`th on (before `end`) whose cell holds the
/// point.
pub open spec fn cell_search(s: GridViewState, end: int, p: Point, i: int) -> Option<usize>
    decreases end - i,
{
    if i >= end {
        None
    } else if inside(cell_rect(s.bounds, s.icon_size, s.columns, first_cell(s), i), p) {
        Some(i as usize)
    } else {
        cell_search(s, end, p, i + 1)
    }
}

/// The entry in view, of `count` shown, whose cell holds the point.
pub open spec fn cell_hit(s: GridViewState, count: int, p: Point) -> Option<usize> {
    if inside(s.bounds, p) {
        cell_search(s, end_cell(s, count), p, first_cell(s))
    } else {
        None
    }
}

/// The two rectangles overlap.
pub open spec fn overlap(a: Rect, b: Rect) -> bool {
    a.x < b.x + b.width && a.x + a.width > b.x && a.y < b.y + b.height && a.y + a.height > b.y
}

/// The rectangle spanned by two corners.
pub open spec fn band_rect(a: Point, c: Point) -> Rect {
    Rect {
        x: if a.x <= c.x { a.x } else { c.x },
        y: if a.y <= c.y { a.y } else { c.y },
        width: (if a.x >= c.x { a.x - c.x } else { c.x - a.x }) as u32,
        height: (if a.y >= c.y { a.y - c.y } else { c.y - a.y }) as u32,
    }
}

/// The entries in view, of `count` shown, whose cells the band overlaps.
pub open spec fn band_chosen(s: GridViewState, count: int, band: Rect) -> Set<usize> {
    Set::new(
        |k: usize|
            first_cell(s) <= k < end_cell(s, count) && overlap(
                band,
                cell_rect(s.bounds, s.icon_size, s.columns, first_cell(s), k as int),
            ),
    )
}

/// A point well inside `i32`.
pub open spec fn near(p: Point) -> bool {
    -0x2000_0000 <= p.x <= 0x2000_0000 && -0x2000_0000 <= p.y <= 0x2000_0000
}

/// The first row in view after a scroll of the wheel by `delta` (up when
/// negative), a row per three units and at least one, with `count`
/// entries shown: nothing moves while all rows fit, and the view stops at
/// the top and where the last row comes into view.
pub open spec fn scrolled(s: GridViewState, count: int, delta: int) -> int {
    let total = (count + s.columns - 1) / s.columns;
    let rows = grid_rows_spec(s.bounds.height, s.icon_size);
    if total <= rows {
        s.scroll
    } else if delta < 0 {
        let n = if (-delta) / 3 >= 1 { (-delta) / 3 } else { 1 };
        if s.scroll >= n { s.scroll - n } else { 0 }
    } else if delta > 0 {
        let n = if delta / 3 >= 1 { delta / 3 } else { 1 };
        if s.scroll + n <= total - rows { s.scroll + n } else { total - rows }
    } else {
        s.scroll
    }
}

/// The view with the focus moved to `f`, which alone is selected and is the
/// anchor, its row scrolled into view.
pub open spec fn grid_at(s: GridViewState, f: int) -> GridViewState {
    GridViewState {
        focus: f,
        chosen: set![f as usize],
        anchor: Some(f as usize),
        scroll: scroll_to(f / s.columns, s.scroll, grid_rows_spec(s.bounds.height, s.icon_size)),
        ..s
    }
}

/// The view after a move of the focus by the keyboard: a row up (or to the
/// first entry), a row down (or to the last entry shown), left and right
/// (nothing at either end), to the first or last entry, a page of rows up
/// or down.
pub open spec fn grid_nav(s: GridViewState, nav: Nav) -> GridViewState {
    let n = shown(s.entries, s.show_hidden).len() as int;
    let c = s.columns;
    let page = grid_rows_spec(s.bounds.height, s.icon_size) * c;
    let last = if n >= 1 { n - 1 } else { 0 };
    match nav {
        Nav::Prev => grid_at(s, if s.focus >= c { s.focus - c } else { 0 }),
        Nav::Next => grid_at(
            s,
            if s.focus + c < n { s.focus + c } else if n >= 1 && s.focus < n - 1 { n - 1 } else { s.focus },
        ),
        Nav::Left => if s.focus == 0 { s } else { grid_at(s, s.focus - 1) },
        Nav::Right => if s.focus + 1 >= n { s } else { grid_at(s, s.focus + 1) },
        Nav::First => grid_at(s, 0),
        Nav::Last => if n == 0 { s } else { grid_at(s, n - 1) },
        Nav::PageUp => grid_at(s, if s.focus >= page { s.focus - page } else { 0 }),
        Nav::PageDown => grid_at(s, if s.focus + page <= last { s.focus + page } else { last }),
    }
}

/// The view once hidden files are shown, or hidden, in turn.
pub open spec fn grid_toggled(s: GridViewState) -> GridViewState {
    let count = shown(s.entries, !s.show_hidden).len() as int;
    let (f, chosen) = revalidated(s.focus, s.chosen, count);
    GridViewState { show_hidden: !s.show_hidden, focus: f, chosen, ..s }
}

/// A click: on an entry's cell it focuses the entry, selecting as `clicked`
/// says, and gives it; a plain click on empty space in the view starts a
/// rubber band there.
pub open spec fn grid_click(s: GridViewState, p: Point, m: Modifiers) -> (Option<usize>, GridViewState) {
    match cell_hit(s, shown(s.entries, s.show_hidden).len() as int, p) {
        Some(k) => {
            let (chosen, anchor) = clicked(s.chosen, s.anchor, k, m.ctrl, m.shift);
            (Some(k), GridViewState { focus: k as int, chosen, anchor, ..s })
        },
        None => if inside(s.bounds, p) && !m.ctrl && !m.shift {
            (
                None,
                GridViewState {
                    drag_start: Some(p),
                    drag_current: Some(p),
                    chosen: Set::empty(),
                    band_fresh: true,
                    ..s
                },
            )
        } else {
            (None, s)
        },
    }
}

/// What a move of the pointer to `p` may make of the view, and whether it
/// asks for a redraw: a dragged rubber band follows the pointer and the
/// cells it overlaps are selected (always on the first move of a drag;
/// later ones may be held back by the throttle); else the cell under the
/// pointer is hovered, and the redraw is asked for when that changed.
pub open spec fn grid_moved(s: GridViewState, p: Point, t: GridViewState, redraw: bool) -> bool {
    let n = shown(s.entries, s.show_hidden).len() as int;
    match s.drag_start {
        Some(a) => {
            let moved = GridViewState { drag_current: Some(p), ..s };
            let banded = GridViewState { chosen: band_chosen(moved, n, band_rect(a, p)), band_fresh: false, ..moved };
            (t == banded && redraw) || (!s.band_fresh && t == moved)
        },
        None => {
            &&& t == (GridViewState { hovered: cell_hit(s, n, p), ..s })
            &&& redraw == (cell_hit(s, n, p) != s.hovered)
        },
    }
}

/// A new grid view: medium icons, no entries, nothing selected.
pub open spec fn fresh_grid(b: Rect) -> GridViewState {
    GridViewState {
        entries: Seq::empty(),
        focus: 0,
        chosen: Set::empty(),
        anchor: None,
        scroll: 0,
        bounds: b,
        show_hidden: false,
        columns: grid_columns_spec(b.width, IconSize::Medium),
        hovered: None,
        drag_start: None,
        drag_current: None,
        icon_size: IconSize::Medium,
        band_fresh: true,
    }
}

/// The view showing new entries: the first is focused and selected, at the
/// top.
pub open spec fn grid_filled(s: GridViewState, es: Seq<FileEntry>) -> GridViewState {
    GridViewState { entries: es, focus: 0, chosen: set![0usize], anchor: Some(0usize), scroll: 0, ..s }
}

/// What the grid view holds.
pub struct GridViewState {
    pub entries: Seq<FileEntry>,
    pub focus: int,
    pub chosen: Set<usize>,
    pub anchor: Option<usize>,
    pub scroll: int,
    pub bounds: Rect,
    pub show_hidden: bool,
    pub columns: int,
    pub hovered: Option<usize>,
    pub drag_start: Option<Point>,
    pub drag_current: Option<Point>,
    pub icon_size: IconSize,
    /// No rubber-band update happened since the drag began.
    pub band_fresh: bool,
}

/// The view lies well inside `i32`, is at least a padding wide, and has as
/// many columns as fit in it.
pub open spec fn grid_ok(s: GridViewState) -> bool {
    &&& -0x2000_0000 <= s.bounds.x <= 0x2000_0000
    &&& -0x2000_0000 <= s.bounds.y <= 0x2000_0000
    &&& CELL_PADDING <= s.bounds.width <= 0x10_0000
    &&& s.bounds.height <= 0x10_0000
    &&& s.columns == grid_columns_spec(s.bounds.width, s.icon_size)
    &&& (s.drag_start matches Some(p) ==> near(p))
    &&& (s.drag_current matches Some(p) ==> near(p))
}

/// The grid view.
pub struct GridView {
    entries: Vec<FileEntry>,
    sel: Selection,
    bounds: Rect,
    show_hidden: bool,
    columns: usize,
    hovered: Option<usize>,
    drag_start: Option<Point>,
    drag_current: Option<Point>,
    icon_size: IconSize,
    last_selection_update: Option<Instant>,
    last_drag_render: Option<Instant>,
}

impl View for GridView {
    type V = GridViewState;

    closed spec fn view(&self) -> GridViewState {
        GridViewState {
            entries: self.entries@,
            focus: self.sel.focus(),
            chosen: self.sel.chosen(),
            anchor: self.sel.anchor_at(),
            scroll: self.sel.scroll(),
            bounds: self.bounds,
            show_hidden: self.show_hidden,
            columns: self.columns as int,
            hovered: self.hovered,
            drag_start: self.drag_start,
            drag_current: self.drag_current,
            icon_size: self.icon_size,
            band_fresh: self.last_selection_update is None,
        }
    }
}

impl GridView {
    /// The view's parts are consistent.
    pub closed spec fn wf(&self) -> bool {
        self.sel.wf() && grid_ok(self@)
    }

    /// The entries shown at present.
    pub open spec fn visible(&self) -> Seq<FileEntry> {
        shown(self@.entries, self@.show_hidden)
    }

    /// The rows of cells that fit in the view.
    pub open spec fn rows(&self) -> int {
        grid_rows_spec(self@.bounds.height, self@.icon_size)
    }

    /// Create a new grid view with medium icons, no entries, nothing
    /// selected.
    pub fn new(bounds: Rect) -> (res: Self)
        requires
            -0x2000_0000 <= bounds.x <= 0x2000_0000,
            -0x2000_0000 <= bounds.y <= 0x2000_0000,
            CELL_PADDING <= bounds.width <= 0x10_0000,
            bounds.height <= 0x10_0000,
        ensures
            res.wf(),
            res@ == fresh_grid(bounds),
    {
        let icon_size = IconSize::Medium;
        let res = GridView {
            entries: Vec::new(),
            sel: Selection::empty(),
            bounds,
            show_hidden: false,
            columns: grid_columns(bounds.width, icon_size),
            hovered: None,
            drag_start: None,
            drag_current: None,
            icon_size,
            last_selection_update: None,
            last_drag_render: None,
        };
        assert(res@.entries =~= Seq::<FileEntry>::empty());
        res
    }

    /// The icon size.
    pub fn icon_size(&self) -> (res: IconSize)
        ensures
            res == self@.icon_size,
    {
        self.icon_size
    }

    /// Set the icon size; the columns are laid out anew.
    pub fn set_icon_size(&mut self, size: IconSize)
        requires
            old(self).wf(),
        ensures
            final(self).wf(),
            final(self)@ == (GridViewState {
                icon_size: size,
                columns: grid_columns_spec(old(self)@.bounds.width, size),
                ..old(self)@
            }),
    {
        self.icon_size = size;
        self.columns = grid_columns(self.bounds.width, size);
    }

    /// Cycle to the next icon size (the largest stays).
    pub fn cycle_icon_size(&mut self)
        requires
            old(self).wf(),
        ensures
            final(self).wf(),
            final(self)@ == (GridViewState {
                icon_size: next_size(old(self)@.icon_size),
                columns: grid_columns_spec(old(self)@.bounds.width, next_size(old(self)@.icon_size)),
                ..old(self)@
            }),
    {
        let size = self.icon_size.next();
        self.set_icon_size(size);
    }

    /// Increase the icon size (the largest stays).
    pub fn increase_icon_size(&mut self)
        requires
            old(self).wf(),
        ensures
            final(self).wf(),
            final(self)@ == (GridViewState {
                icon_size: next_size(old(self)@.icon_size),
                columns: grid_columns_spec(old(self)@.bounds.width, next_size(old(self)@.icon_size)),
                ..old(self)@
            }),
    {
        let size = self.icon_size.next();
        self.set_icon_size(size);
    }

    /// Decrease the icon size (the smallest stays).
    pub fn decrease_icon_size(&mut self)
        requires
            old(self).wf(),
        ensures
            final(self).wf(),
            final(self)@ == (GridViewState {
                icon_size: prev_size(old(self)@.icon_size),
                columns: grid_columns_spec(old(self)@.bounds.width, prev_size(old(self)@.icon_size)),
                ..old(self)@
            }),
    {
        let size = self.icon_size.prev();
        self.set_icon_size(size);
    }

    /// Set the entries to display: the first is focused and selected, at
    /// the top.
    pub fn set_entries(&mut self, entries: Vec<FileEntry>)
        requires
            old(self).wf(),
        ensures
            final(self).wf(),
            final(self)@ == grid_filled(old(self)@, entries@),
    {
        self.entries = entries;
        self.sel = Selection::new();
    }

    /// The entries shown (hidden ones only where they are shown).
    pub fn visible_entries(&self) -> (res: Vec<FileEntry>)
        ensures
            res@ == self.visible(),
    {
        shown_entries(&self.entries, self.show_hidden)
    }

    /// The number of entries shown.
    pub fn visible_count(&self) -> (res: usize)
        ensures
            res == self.visible().len(),
    {
        self.visible_entries().len()
    }

    /// The entry shown at a position, if there is one.
    pub fn visible_entry(&self, k: usize) -> (res: Option<FileEntry>)
        ensures
            res == if k < self.visible().len() {
                Some(self.visible()[k as int])
            } else {
                None::<FileEntry>
            },
    {
        let visible = self.visible_entries();
        if k < visible.len() {
            Some(visible[k].duplicate())
        } else {
            None
        }
    }

    /// Get the currently focused entry.
    pub fn selected_entry(&self) -> (res: Option<FileEntry>)
        ensures
            res == if 0 <= self@.focus < self.visible().len() {
                Some(self.visible()[self@.focus])
            } else {
                None::<FileEntry>
            },
    {
        self.visible_entry(self.sel.focused_index())
    }

    /// Get the focused index.
    pub fn focused_index(&self) -> (res: usize)
        ensures
            res == self@.focus,
    {
        self.sel.focused_index()
    }

    /// Focus and alone select the entry at `index`, when there is an entry
    /// there (hidden ones counted); the anchor and scrolling stay.
    pub fn set_focused(&mut self, index: usize)
        requires
            old(self).wf(),
        ensures
            final(self).wf(),
            index >= old(self)@.entries.len() ==> final(self)@ == old(self)@,
            index < old(self)@.entries.len() ==> final(self)@ == (GridViewState {
                focus: index as int,
                chosen: set![index],
                ..old(self)@
            }),
    {
        if index < self.entries.len() {
            self.sel.set_focused(index);
        }
    }

    /// The selected entries that are shown, each once, in the order they
    /// were selected.
    pub fn selected_entries(&self) -> (res: Vec<FileEntry>)
        requires
            self.wf(),
        ensures
            exists|order: Seq<usize>|
                order.to_set() == self@.chosen && no_repeats(order) && res@ == picked(self.visible(), order),
    {
        let visible = self.visible_entries();
        let order = self.sel.selected_indices();
        let mut out: Vec<FileEntry> = Vec::new();
        let mut i: usize = 0;
        while i < order.len()
            invariant
                i <= order@.len(),
                visible@ == self.visible(),
                out@ == picked(visible@, order@.take(i as int)),
            decreases order@.len() - i,
        {
            proof {
                assert(order@.take(i + 1).drop_last() =~= order@.take(i as int));
            }
            let k = order[i];
            if k < visible.len() {
                out.push(visible[k].duplicate());
            }
            i = i + 1;
        }
        proof {
            assert(order@.take(i as int) =~= order@);
        }
        out
    }

    /// Get selection count.
    pub fn selection_count(&self) -> (res: usize)
        requires
            self.wf(),
        ensures
            res == self@.chosen.len(),
    {
        self.sel.selection_count()
    }

    /// The sorting shown: the grid view keeps none of its own, so it is by
    /// name, ascending.
    pub fn sort_settings(&self) -> (res: (SortOrder, SortDirection))
        ensures
            res == (SortOrder::Name, SortDirection::Ascending),
    {
        (SortOrder::Name, SortDirection::Ascending)
    }

    /// Toggle hidden files visibility; the focus and the selection are
    /// brought back inside the entries now shown.
    pub fn toggle_hidden(&mut self)
        requires
            old(self).wf(),
        ensures
            final(self).wf(),
            final(self)@ == grid_toggled(old(self)@),
    {
        self.show_hidden = !self.show_hidden;
        let count = self.visible_count();
        self.sel.revalidate(count);
    }

    /// Move the focus up a row, or to the first entry.
    pub fn select_prev(&mut self)
        requires
            old(self).wf(),
        ensures
            final(self).wf(),
            final(self)@ == grid_nav(old(self)@, Nav::Prev),
    {
        let rows = grid_rows(self.bounds.height, self.icon_size);
        self.sel.grid_up(self.columns, rows);
    }

    /// Move the focus down a row, or to the last entry shown.
    pub fn select_next(&mut self)
        requires
            old(self).wf(),
        ensures
            final(self).wf(),
            final(self)@ == grid_nav(old(self)@, Nav::Next),
    {
        let count = self.visible_count();
        let rows = grid_rows(self.bounds.height, self.icon_size);
        self.sel.grid_down(count, self.columns, rows);
    }

    /// Move the focus left. Nothing happens on the first entry.
    pub fn select_left(&mut self)
        requires
            old(self).wf(),
        ensures
            final(self).wf(),
            final(self)@ == grid_nav(old(self)@, Nav::Left),
    {
        proof {
            self.sel.lemma_positions();
        }
        let rows = grid_rows(self.bounds.height, self.icon_size);
        self.sel.grid_left(self.columns, rows);
    }

    /// Move the focus right. Nothing happens on the last entry shown.
    pub fn select_right(&mut self)
        requires
            old(self).wf(),
        ensures
            final(self).wf(),
            final(self)@ == grid_nav(old(self)@, Nav::Right),
    {
        let count = self.visible_count();
        let rows = grid_rows(self.bounds.height, self.icon_size);
        self.sel.grid_right(count, self.columns, rows);
    }

    /// Jump to the first entry.
    pub fn select_first(&mut self)
        requires
            old(self).wf(),
        ensures
            final(self).wf(),
            final(self)@ == grid_nav(old(self)@, Nav::First),
    {
        let rows = grid_rows(self.bounds.height, self.icon_size);
        self.sel.grid_first(self.columns, rows);
    }

    /// Jump to the last entry shown.
    pub fn select_last(&mut self)
        requires
            old(self).wf(),
        ensures
            final(self).wf(),
            final(self)@ == grid_nav(old(self)@, Nav::Last),
    {
        let count = self.visible_count();
        let rows = grid_rows(self.bounds.height, self.icon_size);
        self.sel.grid_last(count, self.columns, rows);
    }

    /// Page up: a page of rows up, or to the first entry.
    pub fn page_up(&mut self)
        requires
            old(self).wf(),
        ensures
            final(self).wf(),
            final(self)@ == grid_nav(old(self)@, Nav::PageUp),
    {
        let rows = grid_rows(self.bounds.height, self.icon_size);
        proof {
            self.lemma_page_fits();
        }
        self.sel.grid_page_up(self.columns, rows);
    }

    /// Page down: a page of rows down, or to the last entry shown.
    pub fn page_down(&mut self)
        requires
            old(self).wf(),
        ensures
            final(self).wf(),
            final(self)@ == grid_nav(old(self)@, Nav::PageDown),
    {
        let count = self.visible_count();
        let rows = grid_rows(self.bounds.height, self.icon_size);
        proof {
            self.lemma_page_fits();
        }
        self.sel.grid_page_down(count, self.columns, rows);
    }

    /// A page of cells fits in `usize`.
    proof fn lemma_page_fits(&self)
        requires
            self.wf(),
        ensures
            1 <= self.rows() <= 0x4000,
            1 <= self@.columns <= 0x4000,
            self.rows() * self@.columns <= 0x1000_0000,
    {
        let r = self.rows();
        let c = self@.columns;
        let st = step(self@.icon_size);
        let h = self@.bounds.height as int;
        let w = self@.bounds.width as int;
        assert(st >= 78);
        assert(h / st <= 0x4000) by (nonlinear_arith)
            requires
                0 <= h <= 0x10_0000,
                st >= 78,
        ;
        assert((w - 8) / st <= 0x4000) by (nonlinear_arith)
            requires
                0 <= w - 8 <= 0x10_0000,
                st >= 78,
        ;
        assert(r * c <= 0x4000 * 0x4000) by (nonlinear_arith)
            requires
                1 <= r <= 0x4000,
                1 <= c <= 0x4000,
        ;
    }

    /// Select all entries shown (Ctrl+A).
    pub fn select_all(&mut self)
        requires
            old(self).wf(),
        ensures
            final(self).wf(),
            final(self)@ == (GridViewState {
                chosen: Set::new(|k: usize| k < old(self).visible().len()),
                ..old(self)@
            }),
    {
        let count = self.visible_count();
        self.sel.select_all(count);
    }

    /// Clear the selection.
    pub fn clear_selection(&mut self)
        requires
            old(self).wf(),
        ensures
            final(self).wf(),
            final(self)@ == (GridViewState { chosen: Set::empty(), ..old(self)@ }),
    {
        self.sel.clear_selection();
    }

    /// Give the view new bounds; the columns are laid out anew.
    pub fn set_bounds(&mut self, bounds: Rect)
        requires
            old(self).wf(),
            -0x2000_0000 <= bounds.x <= 0x2000_0000,
            -0x2000_0000 <= bounds.y <= 0x2000_0000,
            CELL_PADDING <= bounds.width <= 0x10_0000,
            bounds.height <= 0x10_0000,
        ensures
            final(self).wf(),
            final(self)@ == (GridViewState {
                bounds,
                columns: grid_columns_spec(bounds.width, old(self)@.icon_size),
                ..old(self)@
            }),
    {
        self.bounds = bounds;
        self.columns = grid_columns(bounds.width, self.icon_size);
    }

    /// The first entry in view, as a wide number.
    fn first_in_view(&self) -> (res: u128)
        requires
            self.wf(),
        ensures
            res == first_cell(self@),
    {
        let scroll = self.sel.scroll_offset();
        let c = self.columns;
        proof {
            self.lemma_page_fits();
            assert(scroll as int * c as int <= 0xffff_ffff_ffff_ffff * 0x4000) by (nonlinear_arith)
                requires
                    0 <= scroll <= 0xffff_ffff_ffff_ffff,
                    1 <= c <= 0x4000,
            ;
        }
        scroll as u128 * c as u128
    }

    /// Where the cell of entry `i` is, entry `first` being the first in
    /// view.
    fn cell_bounds(&self, i: usize, first: usize) -> (res: Rect)
        requires
            self.wf(),
            first <= i,
            i - first < self.rows() * self@.columns,
        ensures
            res == cell_rect(self@.bounds, self@.icon_size, self@.columns, first as int, i as int),
    {
        proof {
            self.lemma_page_fits();
        }
        let k = i - first;
        let c = self.columns;
        let col = k % c;
        let row = k / c;
        let st = self.icon_size.cell_size() + CELL_PADDING;
        proof {
            assert(col < c);
            assert(row <= k);
            assert(col as int * st as int <= 0x4000 * 148) by (nonlinear_arith)
                requires
                    0 <= col <= 0x4000,
                    0 <= st <= 148,
            ;
            assert(row as int * st as int <= 0x1000_0000 * 148) by (nonlinear_arith)
                requires
                    0 <= row <= 0x1000_0000,
                    0 <= st <= 148,
            ;
        }
        let x = self.bounds.x as i64 + CELL_PADDING as i64 + col as i64 * st as i64;
        let y = self.bounds.y as i64 + CELL_PADDING as i64 + row as i64 * st as i64;
        let size = self.icon_size.cell_size();
        Rect { x: x as i32, y: y as i32, width: size, height: size }
    }

    /// The entries in view, of `count`: `(first, end)`, empty where the
    /// view is scrolled past them.
    fn cells_in_view(&self, count: usize) -> (res: (usize, usize))
        requires
            self.wf(),
        ensures
            res.0 <= res.1 <= count,
            res.1 - res.0 <= self.rows() * self@.columns,
            res.0 < res.1 ==> res.0 == first_cell(self@) && res.1 == end_cell(self@, count as int),
            res.0 >= res.1 ==> end_cell(self@, count as int) <= first_cell(self@),
    {
        proof {
            self.lemma_page_fits();
        }
        let first = self.first_in_view();
        if first >= count as u128 {
            return (0, 0);
        }
        let first = first as usize;
        let rows = grid_rows(self.bounds.height, self.icon_size);
        let page = rows * self.columns;
        let end = if count - first >= page {
            first + page
        } else {
            count
        };
        (first, end)
    }

    /// The entry in view, of `count` shown, whose cell holds the point.
    fn hit(&self, p: Point, count: usize) -> (res: Option<usize>)
        requires
            self.wf(),
        ensures
            res == cell_hit(self@, count as int, p),
            res matches Some(k) ==> k < count,
    {
        if !self.bounds.contains_point(p) {
            return None;
        }
        let (first, end) = self.cells_in_view(count);
        if first >= end {
            return None;
        }
        let mut i = first;
        while i < end
            invariant
                self.wf(),
                inside(self@.bounds, p),
                first <= i <= end <= count,
                first == first_cell(self@),
                end == end_cell(self@, count as int),
                end - first <= self.rows() * self@.columns,
                cell_search(self@, end as int, p, first as int) == cell_search(self@, end as int, p, i as int),
            decreases end - i,
        {
            if self.cell_bounds(i, first).contains_point(p) {
                proof {
                    assert(cell_search(self@, end as int, p, i as int) == Some(i));
                }
                return Some(i);
            }
            i = i + 1;
        }
        None
    }

    /// The pointer moved. While a rubber band is dragged it follows the
    /// pointer, and the selection is updated to the cells it overlaps, but
    /// at most once per throttle period (the first time always); gives
    /// whether to redraw. Else the cell under the pointer is hovered; gives
    /// whether that changed.
    pub fn on_mouse_move(&mut self, p: Point) -> (res: bool)
        requires
            old(self).wf(),
            near(p),
        ensures
            final(self).wf(),
            grid_moved(old(self)@, p, final(self)@, res),
    {
        if self.drag_start.is_some() {
            self.drag_current = Some(p);
            let update = match &self.last_selection_update {
                Some(t) => millis_since(t) >= DRAG_THROTTLE_MS,
                None => true,
            };
            if update {
                self.update_band();
                self.last_selection_update = Some(instant_now());
                self.last_drag_render = Some(instant_now());
                return true;
            }
            let render = match &self.last_drag_render {
                Some(t) => millis_since(t) >= DRAG_THROTTLE_MS,
                None => true,
            };
            if render {
                self.last_drag_render = Some(instant_now());
                return true;
            }
            return false;
        }
        let before = self.hovered;
        let count = self.visible_count();
        self.hovered = self.hit(p, count);
        self.hovered != before
    }

    /// Select the cells in view that the rubber band overlaps, while one is
    /// dragged.
    fn update_band(&mut self)
        requires
            old(self).wf(),
        ensures
            final(self).wf(),
            ({
                let s = old(self)@;
                match (s.drag_start, s.drag_current) {
                    (Some(a), Some(c)) => final(self)@ == (GridViewState {
                        chosen: band_chosen(s, old(self).visible().len() as int, band_rect(a, c)),
                        ..s
                    }),
                    _ => final(self)@ == s,
                }
            }),
            final(self).last_selection_update == old(self).last_selection_update,
            final(self).last_drag_render == old(self).last_drag_render,
    {
        let band = match self.rubber_band_rect() {
            Some(b) => b,
            None => {
                return;
            },
        };
        let count = self.visible_count();
        let (first, end) = self.cells_in_view(count);
        let ghost s = self@;
        let ghost want = band_chosen(s, count as int, band);
        let mut v: Vec<usize> = Vec::new();
        if first < end {
            let mut i = first;
            while i < end
                invariant
                    self.wf(),
                    self@ == s,
                    first <= i <= end <= count,
                    first == first_cell(s),
                    end == end_cell(s, count as int),
                    end - first <= self.rows() * self@.columns,
                    no_repeats(v@),
                    forall|m: int| 0 <= m < v@.len() ==> first <= #[trigger] v@[m] < i,
                    forall|k: usize|
                        v@.contains(k) <==> (first <= k < i && overlap(
                            band,
                            cell_rect(s.bounds, s.icon_size, s.columns, first as int, k as int),
                        )),
                decreases end - i,
            {
                let cell = self.cell_bounds(i, first);
                let meets = (band.x as i64) < cell.x as i64 + cell.width as i64 && band.x as i64 + band.width as i64
                    > cell.x as i64 && (band.y as i64) < cell.y as i64 + cell.height as i64 && band.y as i64
                    + band.height as i64 > cell.y as i64;
                if meets {
                    let ghost old_v = v@;
                    v.push(i);
                    proof {
                        assert forall|m1: int, m2: int| 0 <= m1 < m2 < v@.len() implies v@[m1] != v@[m2] by {
                            if m2 == old_v.len() {
                                assert(old_v[m1] < i);
                            } else {
                                assert(old_v[m1] != old_v[m2]);
                            }
                        }
                        assert forall|k: usize| v@.contains(k) <==> (first <= k < i + 1 && overlap(
                            band,
                            cell_rect(s.bounds, s.icon_size, s.columns, first as int, k as int),
                        )) by {
                            if v@.contains(k) {
                                let m = choose|m: int| 0 <= m < v@.len() && v@[m] == k;
                                if m < old_v.len() {
                                    assert(old_v[m] == k);
                                    assert(old_v.contains(k));
                                }
                            }
                            if first <= k < i + 1 && overlap(
                                band,
                                cell_rect(s.bounds, s.icon_size, s.columns, first as int, k as int),
                            ) {
                                if k == i {
                                    assert(v@[old_v.len() as int] == i);
                                } else {
                                    assert(old_v.contains(k));
                                    let m = choose|m: int| 0 <= m < old_v.len() && old_v[m] == k;
                                    assert(v@[m] == k);
                                }
                            }
                        }
                    }
                }
                i = i + 1;
            }
            proof {
                assert(v@.to_set() =~= want);
            }
        } else {
            proof {
                assert(v@.to_set() =~= want);
            }
        }
        self.sel.set_chosen(v);
    }

    /// Start a rubber-band selection at a point: nothing is selected.
    pub fn start_drag(&mut self, p: Point)
        requires
            old(self).wf(),
            near(p),
        ensures
            final(self).wf(),
            final(self)@ == (GridViewState {
                drag_start: Some(p),
                drag_current: Some(p),
                chosen: Set::empty(),
                band_fresh: true,
                ..old(self)@
            }),
    {
        self.drag_start = Some(p);
        self.drag_current = Some(p);
        self.sel.clear_selection();
        self.last_selection_update = None;
        self.last_drag_render = None;
    }

    /// Whether a rubber band is dragged.
    pub fn is_dragging(&self) -> (res: bool)
        ensures
            res == self@.drag_start is Some,
    {
        self.drag_start.is_some()
    }

    /// End a rubber-band selection: the cells the band overlaps are
    /// selected a last time.
    pub fn stop_drag(&mut self)
        requires
            old(self).wf(),
        ensures
            final(self).wf(),
            ({
                let s = old(self)@;
                let chosen = match (s.drag_start, s.drag_current) {
                    (Some(a), Some(c)) => band_chosen(s, old(self).visible().len() as int, band_rect(a, c)),
                    _ => s.chosen,
                };
                final(self)@ == (GridViewState {
                    chosen,
                    drag_start: None,
                    drag_current: None,
                    band_fresh: true,
                    ..s
                })
            }),
    {
        self.update_band();
        self.drag_start = None;
        self.drag_current = None;
        self.last_selection_update = None;
        self.last_drag_render = None;
    }

    /// The rubber band's rectangle, while one is dragged.
    pub fn rubber_band_rect(&self) -> (res: Option<Rect>)
        requires
            self.wf(),
        ensures
            res == match (self@.drag_start, self@.drag_current) {
                (Some(a), Some(c)) => Some(band_rect(a, c)),
                _ => None::<Rect>,
            },
    {
        match (self.drag_start, self.drag_current) {
            (Some(a), Some(c)) => {
                let x = if a.x <= c.x {
                    a.x
                } else {
                    c.x
                };
                let y = if a.y <= c.y {
                    a.y
                } else {
                    c.y
                };
                let w = if a.x >= c.x {
                    (a.x as i64 - c.x as i64) as u32
                } else {
                    (c.x as i64 - a.x as i64) as u32
                };
                let h = if a.y >= c.y {
                    (a.y as i64 - c.y as i64) as u32
                } else {
                    (c.y as i64 - a.y as i64) as u32
                };
                Some(Rect { x, y, width: w, height: h })
            },
            _ => None,
        }
    }

    /// The mouse wheel turned by `delta` (up when negative): the view
    /// scrolls by a row per three units, at least one; gives whether it
    /// moved.
    pub fn on_scroll(&mut self, delta: i32) -> (res: bool)
        requires
            old(self).wf(),
            delta > i32::MIN,
        ensures
            final(self).wf(),
            ({
                let s = old(self)@;
                let t = scrolled(s, old(self).visible().len() as int, delta as int);
                &&& final(self)@ == (GridViewState { scroll: t, ..s })
                &&& res == (t != s.scroll)
            }),
    {
        let count = self.visible_count();
        let c = self.columns;
        proof {
            self.lemma_page_fits();
        }
        let total_wide: u128 = (count as u128 + c as u128 - 1) / c as u128;
        proof {
            assert(total_wide <= count) by (nonlinear_arith)
                requires
                    total_wide == (count + c - 1) / (c as int),
                    c >= 1,
                    count >= 0,
            {
                if count >= 1 {
                    assert(count + c - 1 <= c * count);
                }
            }
        }
        let total = total_wide as usize;
        let rows = grid_rows(self.bounds.height, self.icon_size);
        let scroll = self.sel.scroll_offset();
        if total <= rows {
            return false;
        }
        let most = total - rows;
        let next: usize = if delta < 0 {
            let n0 = ((-(delta as i64)) / 3) as usize;
            let n = if n0 >= 1 {
                n0
            } else {
                1
            };
            if scroll >= n {
                scroll - n
            } else {
                0
            }
        } else if delta > 0 {
            let n0 = (delta / 3) as usize;
            let n = if n0 >= 1 {
                n0
            } else {
                1
            };
            if scroll < most && most - scroll > n {
                scroll + n
            } else {
                most
            }
        } else {
            scroll
        };
        self.sel.set_scroll(next);
        next != scroll
    }

    /// The entry shown under a point, if any.
    pub fn entry_at_point(&self, p: Point) -> (res: Option<FileEntry>)
        requires
            self.wf(),
        ensures
            res == match cell_hit(self@, self.visible().len() as int, p) {
                Some(k) => Some(self.visible()[k as int]),
                None => None::<FileEntry>,
            },
    {
        let visible = self.visible_entries();
        match self.hit(p, visible.len()) {
            Some(k) => Some(visible[k].duplicate()),
            None => None,
        }
    }

    /// The entry shown under a point, with its cell.
    pub fn entry_bounds_at_point(&self, p: Point) -> (res: Option<(FileEntry, Rect)>)
        requires
            self.wf(),
        ensures
            res == match cell_hit(self@, self.visible().len() as int, p) {
                Some(k) => Some(
                    (
                        self.visible()[k as int],
                        cell_rect(self@.bounds, self@.icon_size, self@.columns, first_cell(self@), k as int),
                    ),
                ),
                None => None::<(FileEntry, Rect)>,
            },
    {
        let visible = self.visible_entries();
        match self.hit(p, visible.len()) {
            Some(k) => {
                let (first, end) = self.cells_in_view(visible.len());
                proof {
                    self.lemma_hit_in_view(p, visible.len() as int, k);
                }
                Some((visible[k].duplicate(), self.cell_bounds(k, first)))
            },
            None => None,
        }
    }

    /// A cell found under a point lies in view.
    proof fn lemma_hit_in_view(&self, p: Point, count: int, k: usize)
        requires
            self.wf(),
            0 <= count <= usize::MAX,
            cell_hit(self@, count, p) == Some(k),
        ensures
            first_cell(self@) <= k < end_cell(self@, count),
    {
        let s = self@;
        self.sel.lemma_positions();
        assert(first_cell(s) >= 0) by (nonlinear_arith)
            requires
                s.scroll >= 0,
                s.columns >= 1,
                first_cell(s) == s.scroll * s.columns,
        ;
        let end = end_cell(s, count);
        self.lemma_search_range(p, end, first_cell(s), k);
    }

    proof fn lemma_search_range(&self, p: Point, end: int, i: int, k: usize)
        requires
            cell_search(self@, end, p, i) == Some(k),
            0 <= i,
            end <= usize::MAX,
        ensures
            i <= k < end,
        decreases end - i,
    {
        if i < end && !inside(cell_rect(self@.bounds, self@.icon_size, self@.columns, first_cell(self@), i), p) {
            self.lemma_search_range(p, end, i + 1, k);
        }
    }

    /// A click in the view: on an entry's cell it focuses that entry; with
    /// Control it toggles its selection, with Shift it selects the range
    /// from the anchor to it, else it alone is selected; gives the entry.
    /// A plain click on empty space starts a rubber band.
    pub fn on_click(&mut self, p: Point, modifiers: &Modifiers) -> (res: Option<usize>)
        requires
            old(self).wf(),
            near(p),
        ensures
            final(self).wf(),
            (res, final(self)@) == grid_click(old(self)@, p, *modifiers),
    {
        if !self.bounds.contains_point(p) {
            return None;
        }
        let count = self.visible_count();
        match self.hit(p, count) {
            Some(k) => {
                self.sel.click(k, modifiers.ctrl, modifiers.shift);
                Some(k)
            },
            None => {
                if !modifiers.ctrl && !modifiers.shift {
                    self.start_drag(p);
                }
                None
            },
        }
    }

    /// Clear the hovered cell and end any rubber band.
    pub fn clear_hover(&mut self)
        requires
            old(self).wf(),
        ensures
            final(self).wf(),
            ({
                let s = old(self)@;
                let chosen = match (s.drag_start, s.drag_current) {
                    (Some(a), Some(c)) => band_chosen(s, old(self).visible().len() as int, band_rect(a, c)),
                    _ => s.chosen,
                };
                final(self)@ == (GridViewState {
                    chosen,
                    hovered: None,
                    drag_start: None,
                    drag_current: None,
                    band_fresh: true,
                    ..s
                })
            }),
    {
        self.hovered = None;
        self.stop_drag();
    }
}

} // verus!
