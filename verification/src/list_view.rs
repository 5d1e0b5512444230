//! The list view: one row per entry under a header of sortable, resizable
//! columns (name, size, modification time).
use vstd::prelude::*;
use crate::entry::{FileEntry, SortDirection, SortOrder};
use crate::geometry::{inside, Point, Rect};
use crate::keys::Modifiers;
use crate::selection::{clicked, list_rows, list_rows_spec, no_repeats, revalidated, Nav, scroll_to, span, toggled, Selection, HEADER_HEIGHT, ROW_HEIGHT};

verus! {

/// Minimum column width.
pub const MIN_COLUMN_WIDTH: u32 = 60;

/// A column of the list view.
#[derive(Debug, Clone, Copy, PartialEq, Eq, Structural)]
pub enum Column {
    Name,
    Size,
    Modified,
}

/// The order a column sorts by.
pub open spec fn column_order(c: Column) -> SortOrder {
    match c {
        Column::Name => SortOrder::Name,
        Column::Size => SortOrder::Size,
        Column::Modified => SortOrder::Modified,
    }
}

impl Column {
    /// The order this column sorts by.
    pub fn to_sort_order(self) -> (res: SortOrder)
        ensures
            res == column_order(self),
    {
        match self {
            Column::Name => SortOrder::Name,
            Column::Size => SortOrder::Size,
            Column::Modified => SortOrder::Modified,
        }
    }
}

/// The entries shown: all of them, or those that are not hidden.
pub open spec fn shown(entries: Seq<FileEntry>, show_hidden: bool) -> Seq<FileEntry> {
    entries.filter(|e: FileEntry| show_hidden || !e.hidden)
}

/// The entries shown, in their order.
pub fn shown_entries(entries: &Vec<FileEntry>, show_hidden: bool) -> (res: Vec<FileEntry>)
    ensures
        res@ == shown(entries@, show_hidden),
{
    let mut out: Vec<FileEntry> = Vec::new();
    let mut i: usize = 0;
    while i < entries.len()
        invariant
            i <= entries@.len(),
            out@ == shown(entries@.take(i as int), show_hidden),
        decreases entries@.len() - i,
    {
        let ghost before = entries@.take(i + 1);
        proof {
            assert(before.drop_last() =~= entries@.take(i as int));
            assert(before.last() == entries@[i as int]);
        }
        if show_hidden || !entries[i].hidden {
            out.push(entries[i].duplicate());
        }
        proof {
            reveal(Seq::filter);
            assert(shown(before, show_hidden) == out@);
        }
        i = i + 1;
    }
    proof {
        assert(entries@.take(i as int) =~= entries@);
    }
    out
}

/// The entries picked out by these positions among the shown ones, in the
/// order of the positions; positions past the end pick nothing.
pub open spec fn picked(shown: Seq<FileEntry>, order: Seq<usize>) -> Seq<FileEntry>
    decreases order.len(),
{
    if order.len() == 0 {
        Seq::empty()
    } else {
        let rest = picked(shown, order.drop_last());
        let k = order.last();
        if k < shown.len() { rest.push(shown[k as int]) } else { rest }
    }
}

/// `a - b`, or 0 where `b` is larger.
pub open spec fn less(a: int, b: int) -> int {
    if a >= b { a - b } else { 0 }
}

/// The larger of two.
pub open spec fn at_least(a: int, b: int) -> int {
    if a >= b { a } else { b }
}

/// The absolute value.
pub open spec fn distance(a: int, b: int) -> int {
    if a >= b { a - b } else { b - a }
}

/// The header row at the top of the view.
pub open spec fn header_rect(b: Rect) -> Rect {
    Rect { x: b.x, y: b.y, width: b.width, height: HEADER_HEIGHT }
}

/// The rows below the header.
pub open spec fn content_rect(b: Rect) -> Rect {
    Rect { x: b.x, y: (b.y + HEADER_HEIGHT) as i32, width: b.width, height: less(b.height as int, HEADER_HEIGHT as int) as u32 }
}

/// Where a column's header is, for these column widths.
pub open spec fn column_rect(b: Rect, w: (u32, u32, u32), c: Column) -> Rect {
    match c {
        Column::Name => Rect { x: b.x, y: b.y, width: (w.0 + 8) as u32, height: HEADER_HEIGHT },
        Column::Size => Rect { x: (b.x + w.0 + 16) as i32, y: b.y, width: w.1, height: HEADER_HEIGHT },
        Column::Modified => Rect { x: (b.x + w.0 + w.1 + 24) as i32, y: b.y, width: w.2, height: HEADER_HEIGHT },
    }
}

/// Where the divider after the name column (0) or after the size column
/// (1) is.
pub open spec fn divider_pos(b: Rect, w: (u32, u32, u32), i: int) -> int {
    if i == 0 { b.x + w.0 + 12 } else { b.x + w.0 + w.1 + 20 }
}

/// The divider within four pixels of a point in the header, the first
/// one where both are.
pub open spec fn divider_hit(b: Rect, w: (u32, u32, u32), p: Point) -> Option<usize> {
    if !inside(header_rect(b), p) {
        None
    } else if distance(p.x as int, divider_pos(b, w, 0)) < 4 {
        Some(0usize)
    } else if distance(p.x as int, divider_pos(b, w, 1)) < 4 {
        Some(1usize)
    } else {
        None
    }
}

/// The column whose header holds the point, the first one where several do.
pub open spec fn column_hit(b: Rect, w: (u32, u32, u32), p: Point) -> Option<Column> {
    if inside(column_rect(b, w, Column::Name), p) {
        Some(Column::Name)
    } else if inside(column_rect(b, w, Column::Size), p) {
        Some(Column::Size)
    } else if inside(column_rect(b, w, Column::Modified), p) {
        Some(Column::Modified)
    } else {
        None
    }
}

/// The other direction.
pub open spec fn flipped(d: SortDirection) -> SortDirection {
    match d {
        SortDirection::Ascending => SortDirection::Descending,
        SortDirection::Descending => SortDirection::Ascending,
    }
}

/// The sorting after a click on a column's header: the same column again
/// reverses the direction; another column sorts by it, ascending.
pub open spec fn sorted_by(order: SortOrder, dir: SortDirection, c: Column) -> (SortOrder, SortDirection) {
    if order == column_order(c) {
        (order, flipped(dir))
    } else {
        (column_order(c), SortDirection::Ascending)
    }
}

/// The column widths while a divider is dragged to `x`: the two columns
/// beside it share their width anew, each at least the minimum width, the
/// one left of the divider ending 8 pixels before `x`; a drag that would
/// leave either below the minimum changes nothing.
pub open spec fn resized(b: Rect, w: (u32, u32, u32), divider: usize, x: int) -> (u32, u32, u32) {
    if divider == 0 {
        let wanted = at_least(x - b.x - 8, MIN_COLUMN_WIDTH as int);
        let total = w.0 + w.1;
        let right = at_least(less(total, wanted), MIN_COLUMN_WIDTH as int);
        let left = less(total, right);
        if left >= MIN_COLUMN_WIDTH { (left as u32, right as u32, w.2) } else { w }
    } else if divider == 1 {
        let wanted = at_least(x - divider_pos(b, w, 0) - 8, MIN_COLUMN_WIDTH as int);
        let total = w.1 + w.2;
        let right = at_least(less(total, wanted), MIN_COLUMN_WIDTH as int);
        let left = less(total, right);
        if left >= MIN_COLUMN_WIDTH { (w.0, left as u32, right as u32) } else { w }
    } else {
        w
    }
}

/// The view after the pointer moved to `p`: a dragged divider follows it;
/// else the column header under it is hovered (none over a divider or
/// outside the header).
pub open spec fn pointer_moved(s: ListViewState, p: Point) -> ListViewState {
    match s.resizing {
        Some(d) => ListViewState { widths: resized(s.bounds, s.widths, d, p.x as int), ..s },
        None => ListViewState {
            hovered: if inside(s.bounds, p) && inside(header_rect(s.bounds), p) && divider_hit(s.bounds, s.widths, p) is None {
                column_hit(s.bounds, s.widths, p)
            } else {
                None
            },
            ..s
        },
    }
}

/// The row under a point in the rows area, when it holds one of `count`
/// entries shown.
pub open spec fn row_hit(s: ListViewState, count: int, p: Point) -> Option<usize> {
    let c = content_rect(s.bounds);
    if !inside(c, p) {
        None
    } else {
        let row = s.scroll + (p.y - c.y) / (ROW_HEIGHT as int);
        if row < count { Some(row as usize) } else { None }
    }
}

/// The view with the focus moved to `f`, which alone is selected and is
/// the anchor, and the first row in view at `scroll`.
pub open spec fn list_at(s: ListViewState, f: int, scroll: int) -> ListViewState {
    ListViewState { focus: f, chosen: set![f as usize], anchor: Some(f as usize), scroll, ..s }
}

/// The view after a move of the focus by the keyboard: up and down a row
/// (nothing at either end), to the first or last entry shown, a page of
/// rows up or down; the view scrolls as little as needed to show the
/// focus. Left and right do nothing in a list.
pub open spec fn list_nav(s: ListViewState, nav: Nav) -> ListViewState {
    let n = shown(s.entries, s.show_hidden).len() as int;
    let rows = list_rows_spec(s.bounds.height);
    match nav {
        Nav::Prev => if s.focus == 0 {
            s
        } else {
            list_at(s, s.focus - 1, if s.focus - 1 < s.scroll { s.focus - 1 } else { s.scroll })
        },
        Nav::Next => if s.focus + 1 >= n {
            s
        } else {
            list_at(s, s.focus + 1, if s.focus + 1 >= s.scroll + rows { s.focus + 1 - rows + 1 } else { s.scroll })
        },
        Nav::First => list_at(s, 0, 0),
        Nav::Last => if n == 0 {
            s
        } else {
            list_at(s, n - 1, if n - 1 >= rows { n - 1 - rows + 1 } else { s.scroll })
        },
        Nav::PageUp => {
            let f = if s.focus >= rows { s.focus - rows } else { 0 };
            list_at(s, f, if f < s.scroll { f } else { s.scroll })
        },
        Nav::PageDown => {
            let last = if n >= 1 { n - 1 } else { 0 };
            let f = if s.focus + rows <= last { s.focus + rows } else { last };
            list_at(s, f, if f >= s.scroll + rows { f - rows + 1 } else { s.scroll })
        },
        Nav::Left | Nav::Right => s,
    }
}

/// The view once hidden files are shown, or hidden, in turn.
pub open spec fn list_toggled(s: ListViewState) -> ListViewState {
    let count = shown(s.entries, !s.show_hidden).len() as int;
    let (f, chosen) = revalidated(s.focus, s.chosen, count);
    ListViewState { show_hidden: !s.show_hidden, focus: f, chosen, ..s }
}

/// A click in the header: on a column's header (not on a divider) it sorts
/// by that column, or reverses the direction when it already does; gives
/// the new sorting.
pub open spec fn header_click(s: ListViewState, p: Point) -> (Option<(SortOrder, SortDirection)>, ListViewState) {
    if inside(header_rect(s.bounds), p) && divider_hit(s.bounds, s.widths, p) is None && column_hit(
        s.bounds,
        s.widths,
        p,
    ) is Some {
        let sorting = sorted_by(s.sort_order, s.sort_direction, column_hit(s.bounds, s.widths, p)->0);
        (Some(sorting), ListViewState { sort_order: sorting.0, sort_direction: sorting.1, ..s })
    } else {
        (None, s)
    }
}

/// A click in the rows: on an entry's row it focuses the entry, selecting
/// as `clicked` says; gives the row.
pub open spec fn row_click(s: ListViewState, p: Point, m: Modifiers) -> (Option<usize>, ListViewState) {
    match row_hit(s, shown(s.entries, s.show_hidden).len() as int, p) {
        Some(k) => {
            let (chosen, anchor) = clicked(s.chosen, s.anchor, k, m.ctrl, m.shift);
            (Some(k), ListViewState { focus: k as int, chosen, anchor, ..s })
        },
        None => (None, s),
    }
}

/// A new list view: no entries, nothing selected, sorted by name
/// ascending, hidden files not shown; the name column takes half the width,
/// the size column 100 pixels and the date column the rest (less 32 pixels
/// of margins).
pub open spec fn fresh_list(b: Rect) -> ListViewState {
    ListViewState {
        entries: Seq::empty(),
        focus: 0,
        chosen: Set::empty(),
        anchor: None,
        scroll: 0,
        bounds: b,
        show_hidden: false,
        sort_order: SortOrder::Name,
        sort_direction: SortDirection::Ascending,
        widths: ((b.width / 2) as u32, 100u32, (if b.width >= b.width / 2 + 132 {
            b.width - (b.width / 2 + 132)
        } else {
            0
        }) as u32),
        resizing: None,
        hovered: None,
    }
}

/// The view showing new entries: the first is focused and selected, at the
/// top.
pub open spec fn list_filled(s: ListViewState, es: Seq<FileEntry>) -> ListViewState {
    ListViewState { entries: es, focus: 0, chosen: set![0usize], anchor: Some(0usize), scroll: 0, ..s }
}

/// What the list view holds.
pub struct ListViewState {
    pub entries: Seq<FileEntry>,
    pub focus: int,
    pub chosen: Set<usize>,
    pub anchor: Option<usize>,
    pub scroll: int,
    pub bounds: Rect,
    pub show_hidden: bool,
    pub sort_order: SortOrder,
    pub sort_direction: SortDirection,
    pub widths: (u32, u32, u32),
    pub resizing: Option<usize>,
    pub hovered: Option<Column>,
}

/// The view lies well inside `i32` and its columns are not wider in all
/// than that range allows.
pub open spec fn list_ok(s: ListViewState) -> bool {
    &&& -0x2000_0000 <= s.bounds.x <= 0x2000_0000
    &&& -0x2000_0000 <= s.bounds.y <= 0x2000_0000
    &&& s.bounds.height <= 0x2000_0000
    &&& s.widths.0 + s.widths.1 + s.widths.2 <= 0x2000_0000
}

/// The list view.
pub struct ListView {
    entries: Vec<FileEntry>,
    sel: Selection,
    bounds: Rect,
    show_hidden: bool,
    sort_order: SortOrder,
    sort_direction: SortDirection,
    widths: (u32, u32, u32),
    resizing_column: Option<usize>,
    hovered_header: Option<Column>,
}

impl View for ListView {
    type V = ListViewState;

    closed spec fn view(&self) -> ListViewState {
        ListViewState {
            entries: self.entries@,
            focus: self.sel.focus(),
            chosen: self.sel.chosen(),
            anchor: self.sel.anchor_at(),
            scroll: self.sel.scroll(),
            bounds: self.bounds,
            show_hidden: self.show_hidden,
            sort_order: self.sort_order,
            sort_direction: self.sort_direction,
            widths: self.widths,
            resizing: self.resizing_column,
            hovered: self.hovered_header,
        }
    }
}

impl ListView {
    /// The view's parts are consistent.
    pub closed spec fn wf(&self) -> bool {
        self.sel.wf() && list_ok(self@)
    }

    /// The entries shown at present.
    pub open spec fn visible(&self) -> Seq<FileEntry> {
        shown(self@.entries, self@.show_hidden)
    }

    /// The rows that fit in the view.
    pub open spec fn rows(&self) -> int {
        list_rows_spec(self@.bounds.height)
    }

    /// Create a new list view: no entries, the first row focused, sorted by
    /// name ascending, hidden files not shown; the name column takes half
    /// the width, the size column 100 pixels and the date column the rest
    /// (less 32 pixels of margins).
    pub fn new(bounds: Rect) -> (res: Self)
        requires
            -0x2000_0000 <= bounds.x <= 0x2000_0000,
            -0x2000_0000 <= bounds.y <= 0x2000_0000,
            bounds.width <= 0x1000_0000,
            bounds.height <= 0x2000_0000,
        ensures
            res.wf(),
            res@ == fresh_list(bounds),
    {
        let name_width = bounds.width / 2;
        let size_width: u32 = 100;
        let used = name_width + size_width + 32;
        let date_width = if bounds.width >= used {
            bounds.width - used
        } else {
            0
        };
        let sel = Selection::empty();
        let res = ListView {
            entries: Vec::new(),
            sel,
            bounds,
            show_hidden: false,
            sort_order: SortOrder::Name,
            sort_direction: SortDirection::Ascending,
            widths: (name_width, size_width, date_width),
            resizing_column: None,
            hovered_header: None,
        };
        assert(res@.entries =~= Seq::<FileEntry>::empty());
        res
    }

    /// Set the entries to display: the first is focused and selected, at
    /// the top.
    pub fn set_entries(&mut self, entries: Vec<FileEntry>)
        requires
            old(self).wf(),
        ensures
            final(self).wf(),
            final(self)@ == list_filled(old(self)@, entries@),
    {
        self.entries = entries;
        self.sel = Selection::new();
    }

    /// The entries shown (hidden ones only where they are shown).
    pub fn visible_entries(&self) -> (res: Vec<FileEntry>)
        ensures
            res@ == self.visible(),
    {
        shown_entries(&self.entries, self.show_hidden)
    }

    /// Get the currently focused entry.
    pub fn selected_entry(&self) -> (res: Option<FileEntry>)
        ensures
            res == if 0 <= self@.focus < self.visible().len() {
                Some(self.visible()[self@.focus])
            } else {
                None::<FileEntry>
            },
    {
        let visible = self.visible_entries();
        let f = self.sel.focused_index();
        if f < visible.len() {
            Some(visible[f].duplicate())
        } else {
            None
        }
    }

    /// Get the focused index.
    pub fn focused_index(&self) -> (res: usize)
        ensures
            res == self@.focus,
    {
        self.sel.focused_index()
    }

    /// The selected entries that are shown, each once, in the order they
    /// were selected.
    pub fn selected_entries(&self) -> (res: Vec<FileEntry>)
        requires
            self.wf(),
        ensures
            exists|order: Seq<usize>|
                order.to_set() == self@.chosen && no_repeats(order) && res@ == picked(self.visible(), order),
    {
        let visible = self.visible_entries();
        let order = self.sel.selected_indices();
        let mut out: Vec<FileEntry> = Vec::new();
        let mut i: usize = 0;
        while i < order.len()
            invariant
                i <= order@.len(),
                visible@ == self.visible(),
                out@ == picked(visible@, order@.take(i as int)),
            decreases order@.len() - i,
        {
            proof {
                assert(order@.take(i + 1).drop_last() =~= order@.take(i as int));
            }
            let k = order[i];
            if k < visible.len() {
                out.push(visible[k].duplicate());
            }
            i = i + 1;
        }
        proof {
            assert(order@.take(i as int) =~= order@);
        }
        out
    }

    /// Get selection count.
    pub fn selection_count(&self) -> (res: usize)
        requires
            self.wf(),
        ensures
            res == self@.chosen.len(),
    {
        self.sel.selection_count()
    }

    /// Check if an index is selected.
    pub fn is_selected(&self, index: usize) -> (res: bool)
        ensures
            res == self@.chosen.contains(index),
    {
        self.sel.is_selected(index)
    }

    /// Get current sort settings.
    pub fn sort_settings(&self) -> (res: (SortOrder, SortDirection))
        ensures
            res == (self@.sort_order, self@.sort_direction),
    {
        (self.sort_order, self.sort_direction)
    }

    /// Toggle hidden files visibility; the focus and the selection are
    /// brought back inside the entries now shown.
    pub fn toggle_hidden(&mut self)
        requires
            old(self).wf(),
        ensures
            final(self).wf(),
            final(self)@ == list_toggled(old(self)@),
    {
        self.show_hidden = !self.show_hidden;
        let count = self.visible_entries().len();
        self.sel.revalidate(count);
    }

    /// Move selection up: the entry above is focused and alone selected, and
    /// the view scrolls up to it where needed. Nothing happens on the first
    /// entry.
    pub fn select_prev(&mut self)
        requires
            old(self).wf(),
        ensures
            final(self).wf(),
            final(self)@ == list_nav(old(self)@, Nav::Prev),
    {
        proof {
            self.sel.lemma_positions();
        }
        self.sel.list_prev();
    }

    /// Move selection down: the entry below is focused and alone selected,
    /// and the view scrolls down to it where needed. Nothing happens on the
    /// last entry shown.
    pub fn select_next(&mut self)
        requires
            old(self).wf(),
        ensures
            final(self).wf(),
            final(self)@ == list_nav(old(self)@, Nav::Next),
    {
        let count = self.visible_entries().len();
        let rows = list_rows(self.bounds.height);
        self.sel.list_next(count, rows);
    }

    /// Jump to the first entry, at the top.
    pub fn select_first(&mut self)
        requires
            old(self).wf(),
        ensures
            final(self).wf(),
            final(self)@ == list_nav(old(self)@, Nav::First),
    {
        self.sel.list_first();
    }

    /// Jump to the last entry shown, scrolled so that it is the last row in
    /// view where it lies below the first page.
    pub fn select_last(&mut self)
        requires
            old(self).wf(),
        ensures
            final(self).wf(),
            final(self)@ == list_nav(old(self)@, Nav::Last),
    {
        let count = self.visible_entries().len();
        let rows = list_rows(self.bounds.height);
        self.sel.list_last(count, rows);
    }

    /// Page up: a page of rows up, or to the first entry.
    pub fn page_up(&mut self)
        requires
            old(self).wf(),
        ensures
            final(self).wf(),
            final(self)@ == list_nav(old(self)@, Nav::PageUp),
    {
        let rows = list_rows(self.bounds.height);
        self.sel.list_page_up(rows);
    }

    /// Page down: a page of rows down, or to the last entry shown.
    pub fn page_down(&mut self)
        requires
            old(self).wf(),
        ensures
            final(self).wf(),
            final(self)@ == list_nav(old(self)@, Nav::PageDown),
    {
        let count = self.visible_entries().len();
        let rows = list_rows(self.bounds.height);
        self.sel.list_page_down(count, rows);
    }

    /// Select all entries shown (Ctrl+A).
    pub fn select_all(&mut self)
        requires
            old(self).wf(),
        ensures
            final(self).wf(),
            final(self)@ == (ListViewState {
                chosen: Set::new(|k: usize| k < old(self).visible().len()),
                ..old(self)@
            }),
    {
        let count = self.visible_entries().len();
        self.sel.select_all(count);
    }

    /// Give the view new bounds and column widths (the widths scaled to the
    /// new width by the caller).
    pub fn set_bounds(&mut self, bounds: Rect, widths: (u32, u32, u32))
        requires
            old(self).wf(),
            -0x2000_0000 <= bounds.x <= 0x2000_0000,
            -0x2000_0000 <= bounds.y <= 0x2000_0000,
            bounds.height <= 0x2000_0000,
            widths.0 + widths.1 + widths.2 <= 0x2000_0000,
        ensures
            final(self).wf(),
            final(self)@ == (ListViewState { bounds, widths, ..old(self)@ }),
    {
        self.bounds = bounds;
        self.widths = widths;
    }

    /// The column widths (name, size, modified).
    pub fn column_widths(&self) -> (res: (u32, u32, u32))
        ensures
            res == self@.widths,
    {
        self.widths
    }

    fn divider_x(&self, i: usize) -> (res: i64)
        requires
            self.wf(),
        ensures
            res == divider_pos(self@.bounds, self@.widths, i as int),
    {
        if i == 0 {
            self.bounds.x as i64 + self.widths.0 as i64 + 12
        } else {
            self.bounds.x as i64 + self.widths.0 as i64 + self.widths.1 as i64 + 20
        }
    }

    fn header_bounds(&self) -> (res: Rect)
        ensures
            res == header_rect(self@.bounds),
    {
        Rect { x: self.bounds.x, y: self.bounds.y, width: self.bounds.width, height: HEADER_HEIGHT }
    }

    fn content_bounds(&self) -> (res: Rect)
        requires
            self.wf(),
        ensures
            res == content_rect(self@.bounds),
    {
        let h = if self.bounds.height >= HEADER_HEIGHT {
            self.bounds.height - HEADER_HEIGHT
        } else {
            0
        };
        Rect { x: self.bounds.x, y: self.bounds.y + HEADER_HEIGHT as i32, width: self.bounds.width, height: h }
    }

    fn column_header_bounds(&self, c: Column) -> (res: Rect)
        requires
            self.wf(),
        ensures
            res == column_rect(self@.bounds, self@.widths, c),
    {
        match c {
            Column::Name => Rect { x: self.bounds.x, y: self.bounds.y, width: self.widths.0 + 8, height: HEADER_HEIGHT },
            Column::Size => Rect {
                x: (self.bounds.x as i64 + self.widths.0 as i64 + 16) as i32,
                y: self.bounds.y,
                width: self.widths.1,
                height: HEADER_HEIGHT,
            },
            Column::Modified => Rect {
                x: (self.bounds.x as i64 + self.widths.0 as i64 + self.widths.1 as i64 + 24) as i32,
                y: self.bounds.y,
                width: self.widths.2,
                height: HEADER_HEIGHT,
            },
        }
    }

    fn column_at(&self, p: Point) -> (res: Option<Column>)
        requires
            self.wf(),
        ensures
            res == column_hit(self@.bounds, self@.widths, p),
    {
        if self.column_header_bounds(Column::Name).contains_point(p) {
            Some(Column::Name)
        } else if self.column_header_bounds(Column::Size).contains_point(p) {
            Some(Column::Size)
        } else if self.column_header_bounds(Column::Modified).contains_point(p) {
            Some(Column::Modified)
        } else {
            None
        }
    }

    /// The column divider near a point in the header (0 after the name
    /// column, 1 after the size column), if any.
    pub fn divider_at(&self, p: Point) -> (res: Option<usize>)
        requires
            self.wf(),
        ensures
            res == divider_hit(self@.bounds, self@.widths, p),
    {
        if !self.header_bounds().contains_point(p) {
            return None;
        }
        let x = p.x as i64;
        let d0 = self.divider_x(0);
        if (x >= d0 && x - d0 < 4) || (x < d0 && d0 - x < 4) {
            return Some(0);
        }
        let d1 = self.divider_x(1);
        if (x >= d1 && x - d1 < 4) || (x < d1 && d1 - x < 4) {
            return Some(1);
        }
        None
    }

    /// Start dragging a column divider.
    pub fn start_resize(&mut self, divider: usize)
        requires
            old(self).wf(),
        ensures
            final(self).wf(),
            final(self)@ == (ListViewState { resizing: Some(divider), ..old(self)@ }),
    {
        self.resizing_column = Some(divider);
    }

    /// Stop dragging a column divider.
    pub fn stop_resize(&mut self)
        requires
            old(self).wf(),
        ensures
            final(self).wf(),
            final(self)@ == (ListViewState { resizing: None, ..old(self)@ }),
    {
        self.resizing_column = None;
    }

    /// Whether a column divider is being dragged.
    pub fn is_resizing(&self) -> (res: bool)
        ensures
            res == self@.resizing is Some,
    {
        self.resizing_column.is_some()
    }

    /// The pointer moved: a dragged divider follows it, else the hovered
    /// column header is updated.
    pub fn on_mouse_move(&mut self, p: Point)
        requires
            old(self).wf(),
            -0x2000_0000 <= p.x <= 0x2000_0000,
            -0x2000_0000 <= p.y <= 0x2000_0000,
        ensures
            final(self).wf(),
            final(self)@ == pointer_moved(old(self)@, p),
    {
        match self.resizing_column {
            Some(d) => {
                let x = p.x as i64;
                let (a, b, total) = if d == 0 {
                    (self.widths.0, self.widths.1, x - self.bounds.x as i64 - 8)
                } else {
                    (self.widths.1, self.widths.2, x - self.divider_x(0) - 8)
                };
                if d > 1 {
                    return;
                }
                let wanted: u64 = if total >= MIN_COLUMN_WIDTH as i64 {
                    total as u64
                } else {
                    MIN_COLUMN_WIDTH as u64
                };
                let sum: u64 = a as u64 + b as u64;
                let rest: u64 = if sum >= wanted {
                    sum - wanted
                } else {
                    0
                };
                let right: u64 = if rest >= MIN_COLUMN_WIDTH as u64 {
                    rest
                } else {
                    MIN_COLUMN_WIDTH as u64
                };
                let left: u64 = if sum >= right {
                    sum - right
                } else {
                    0
                };
                if left >= MIN_COLUMN_WIDTH as u64 {
                    if d == 0 {
                        self.widths = (left as u32, right as u32, self.widths.2);
                    } else {
                        self.widths = (self.widths.0, left as u32, right as u32);
                    }
                }
            },
            None => {
                let over = self.bounds.contains_point(p) && self.header_bounds().contains_point(p)
                    && self.divider_at(p).is_none();
                self.hovered_header = if over {
                    self.column_at(p)
                } else {
                    None
                };
            },
        }
    }

    /// A click in the header: on a column's header (not on a divider) it
    /// sorts by that column, or reverses the direction when it already
    /// does, and gives the new sorting.
    pub fn on_header_click(&mut self, p: Point) -> (res: Option<(SortOrder, SortDirection)>)
        requires
            old(self).wf(),
        ensures
            final(self).wf(),
            (res, final(self)@) == header_click(old(self)@, p),
    {
        if !self.header_bounds().contains_point(p) {
            return None;
        }
        if self.divider_at(p).is_some() {
            return None;
        }
        match self.column_at(p) {
            Some(c) => {
                let order = c.to_sort_order();
                if self.sort_order == order {
                    self.sort_direction = match self.sort_direction {
                        SortDirection::Ascending => SortDirection::Descending,
                        SortDirection::Descending => SortDirection::Ascending,
                    };
                } else {
                    self.sort_order = order;
                    self.sort_direction = SortDirection::Ascending;
                }
                Some((self.sort_order, self.sort_direction))
            },
            None => None,
        }
    }

    fn row_at(&self, p: Point, count: usize) -> (res: Option<usize>)
        requires
            self.wf(),
        ensures
            res == row_hit(self@, count as int, p),
            res matches Some(k) ==> k < count,
    {
        let c = self.content_bounds();
        if !c.contains_point(p) {
            return None;
        }
        let dy = (p.y as i64 - c.y as i64) as u32;
        crate::selection::list_row_at(dy, self.sel.scroll_offset(), count)
    }

    /// The entry shown under a point in the rows area, if any.
    pub fn entry_at_point(&self, p: Point) -> (res: Option<FileEntry>)
        requires
            self.wf(),
        ensures
            res == match row_hit(self@, self.visible().len() as int, p) {
                Some(k) => Some(self.visible()[k as int]),
                None => None::<FileEntry>,
            },
    {
        let visible = self.visible_entries();
        match self.row_at(p, visible.len()) {
            Some(k) => Some(visible[k].duplicate()),
            None => None,
        }
    }

    /// A click in the rows area: on a row of an entry it focuses that
    /// entry; with Control it toggles its selection, with Shift it selects
    /// the range from the anchor to it, else it alone is selected. Gives
    /// the row clicked.
    pub fn on_row_click(&mut self, p: Point, modifiers: &Modifiers) -> (res: Option<usize>)
        requires
            old(self).wf(),
        ensures
            final(self).wf(),
            (res, final(self)@) == row_click(old(self)@, p, *modifiers),
    {
        let count = self.visible_entries().len();
        match self.row_at(p, count) {
            Some(k) => {
                self.sel.click(k, modifiers.ctrl, modifiers.shift);
                Some(k)
            },
            None => None,
        }
    }

    /// Clear the selection.
    pub fn clear_selection(&mut self)
        requires
            old(self).wf(),
        ensures
            final(self).wf(),
            final(self)@ == (ListViewState { chosen: Set::empty(), ..old(self)@ }),
    {
        self.sel.clear_selection();
    }

    /// Focus and alone select the entry at `index`, when there is an entry
    /// there (hidden ones counted); the anchor and scrolling stay.
    pub fn set_focused(&mut self, index: usize)
        requires
            old(self).wf(),
        ensures
            final(self).wf(),
            index >= old(self)@.entries.len() ==> final(self)@ == old(self)@,
            index < old(self)@.entries.len() ==> final(self)@ == (ListViewState {
                focus: index as int,
                chosen: set![index],
                ..old(self)@
            }),
    {
        if index < self.entries.len() {
            self.sel.set_focused(index);
        }
    }

    /// Clear the hovered column header.
    pub fn clear_hover(&mut self)
        requires
            old(self).wf(),
        ensures
            final(self).wf(),
            final(self)@ == (ListViewState { hovered: None, ..old(self)@ }),
    {
        self.hovered_header = None;
    }
}

/// Clicking twice on the header of the column the view is sorted by gives
/// back the sorting it had.
pub proof fn law_header_click_twice(order: SortOrder, dir: SortDirection, c: Column)
    requires
        order == column_order(c),
    ensures
        ({
            let once = sorted_by(order, dir, c);
            sorted_by(once.0, once.1, c) == (order, dir)
        }),
{
}

/// Dragging a column divider leaves the columns as wide in all as before.
pub proof fn law_resize_keeps_width(b: Rect, w: (u32, u32, u32), divider: usize, x: int)
    requires
        w.0 + w.1 + w.2 <= 0x2000_0000,
    ensures
        ({
            let r = resized(b, w, divider, x);
            r.0 + r.1 + r.2 == w.0 + w.1 + w.2
        }),
{
}

} // verus!
