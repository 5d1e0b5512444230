//! Selection in the list and grid views: the focused entry, the selected
//! entries, the anchor of range selections, and scrolling that follows the
//! focus.
use vstd::prelude::*;
use crate::views::{cell_size_spec, IconSize, CELL_PADDING};

verus! {

/// Height of a row of the list view.
pub const ROW_HEIGHT: u32 = 28;

/// Height of the list view's column header.
pub const HEADER_HEIGHT: u32 = 28;

/// The number of rows that fit in a list view of this height (at least one).
pub open spec fn list_rows_spec(height: u32) -> int {
    let content: int = if height >= HEADER_HEIGHT { height - HEADER_HEIGHT } else { 0 };
    let rows = content / (ROW_HEIGHT as int);
    if rows >= 1 { rows } else { 1 }
}

/// Get the number of visible rows that fit in a list view of this height.
pub fn list_rows(height: u32) -> (res: usize)
    ensures
        res == list_rows_spec(height),
{
    let content: u32 = if height >= HEADER_HEIGHT {
        height - HEADER_HEIGHT
    } else {
        0
    };
    let rows = content / ROW_HEIGHT;
    if rows >= 1 {
        rows as usize
    } else {
        1
    }
}

/// The number of grid columns that fit in this width (at least one).
pub open spec fn grid_columns_spec(width: u32, size: IconSize) -> int {
    let c = (width - CELL_PADDING) / ((cell_size_spec(size) + CELL_PADDING) as int);
    if c >= 1 { c } else { 1 }
}

/// Calculate number of columns that fit in the given width for a specific
/// icon size.
pub fn grid_columns(width: u32, size: IconSize) -> (res: usize)
    requires
        width >= CELL_PADDING,
    ensures
        res == grid_columns_spec(width, size),
{
    let c = (width - CELL_PADDING) / (size.cell_size() + CELL_PADDING);
    if c >= 1 {
        c as usize
    } else {
        1
    }
}

/// The number of grid rows that fit in this height (at least one).
pub open spec fn grid_rows_spec(height: u32, size: IconSize) -> int {
    let r = (height as int) / ((cell_size_spec(size) + CELL_PADDING) as int);
    if r >= 1 { r } else { 1 }
}

/// Get the number of visible grid rows that fit in this height.
pub fn grid_rows(height: u32, size: IconSize) -> (res: usize)
    ensures
        res == grid_rows_spec(height, size),
{
    let r = height / (size.cell_size() + CELL_PADDING);
    if r >= 1 {
        r as usize
    } else {
        1
    }
}

/// The row under a point `dy` pixels below the top of the list's rows,
/// when it holds one of the `count` shown entries.
pub fn list_row_at(dy: u32, scroll: usize, count: usize) -> (res: Option<usize>)
    ensures
        res == if scroll + ((dy / ROW_HEIGHT) as int) < count {
            Some((scroll + (dy / ROW_HEIGHT) as int) as usize)
        } else {
            None::<usize>
        },
{
    let step = dy / ROW_HEIGHT;
    if scroll >= count {
        return None;
    }
    let room = count - scroll;
    if (step as usize) < room {
        Some(scroll + step as usize)
    } else {
        None
    }
}

/// A move of the focus by the keyboard.
#[derive(Debug, Clone, Copy, PartialEq, Eq, Structural)]
pub enum Nav {
    /// Up (a row up in the grid).
    Prev,
    /// Down (a row down in the grid).
    Next,
    /// Left, in the grid.
    Left,
    /// Right, in the grid.
    Right,
    /// To the first entry.
    First,
    /// To the last entry.
    Last,
    /// A page up.
    PageUp,
    /// A page down.
    PageDown,
}

/// The focused entry, the selected ones, the anchor for range selection and
/// the first row in view.
pub struct Selection {
    focused: usize,
    selected: Vec<usize>,
    anchor: Option<usize>,
    scroll_offset: usize,
}

/// No value occurs twice.
pub open spec fn no_repeats(v: Seq<usize>) -> bool {
    forall|i: int, j: int| 0 <= i < j < v.len() ==> v[i] != v[j]
}

/// The positions from `a` to `b`, both included.
pub open spec fn span(a: int, b: int) -> Set<usize> {
    Set::new(|k: usize| a <= k <= b)
}

/// The selection with `index` taken out if it was in, put in if it was not.
pub open spec fn toggled(chosen: Set<usize>, index: usize) -> Set<usize> {
    if chosen.contains(index) {
        chosen.remove(index)
    } else {
        chosen.insert(index)
    }
}

/// The selection and the anchor after a click on entry `k`: with Control
/// the entry's selection is toggled and it becomes the anchor; with Shift
/// the entries from the anchor to it are selected (just it, and it the
/// anchor, where there is none); else it alone is selected and the anchor.
pub open spec fn clicked(chosen: Set<usize>, anchor: Option<usize>, k: usize, ctrl: bool, shift: bool) -> (
    Set<usize>,
    Option<usize>,
) {
    if ctrl {
        (toggled(chosen, k), Some(k))
    } else if shift {
        match anchor {
            Some(a) => (if a <= k { span(a as int, k as int) } else { span(k as int, a as int) }, Some(a)),
            None => (set![k], Some(k)),
        }
    } else {
        (set![k], Some(k))
    }
}

/// The focus and the selection once only `count` entries are shown: a
/// focus past the end goes to the last entry, selected entries past the end
/// are dropped, and an empty selection gets the focused entry.
pub open spec fn revalidated(focus: int, chosen: Set<usize>, count: int) -> (int, Set<usize>) {
    let f = if focus >= count && count > 0 { count - 1 } else { focus };
    let kept = chosen.filter(|k: usize| k < count);
    (f, if kept.is_empty() && count > 0 { set![f as usize] } else { kept })
}

/// The first row in view after moving it as little as needed to show `row`.
pub open spec fn scroll_to(row: int, scroll: int, rows: int) -> int {
    if row < scroll {
        row
    } else if row >= scroll + rows {
        row - rows + 1
    } else {
        scroll
    }
}

impl Selection {
    /// The focused entry.
    pub closed spec fn focus(&self) -> int {
        self.focused as int
    }

    /// The selected entries.
    pub closed spec fn chosen(&self) -> Set<usize> {
        self.selected@.to_set()
    }

    /// The anchor of range selection.
    pub closed spec fn anchor_at(&self) -> Option<usize> {
        self.anchor
    }

    /// The first row in view.
    pub closed spec fn scroll(&self) -> int {
        self.scroll_offset as int
    }

    /// The focus and the first row in view are positions.
    pub proof fn lemma_positions(&self)
        ensures
            0 <= self.focus() <= usize::MAX,
            0 <= self.scroll() <= usize::MAX,
    {
    }

    /// The selected entries are kept without repeats.
    pub closed spec fn wf(&self) -> bool {
        no_repeats(self.selected@)
    }

    /// The selection of a freshly filled view: the first entry focused and
    /// selected, at the top.
    pub fn new() -> (res: Self)
        ensures
            res.wf(),
            res.focus() == 0,
            res.chosen() == set![0usize],
            res.anchor_at() == Some(0usize),
            res.scroll() == 0,
    {
        let mut selected = Vec::new();
        selected.push(0);
        let res = Selection { focused: 0, selected, anchor: Some(0), scroll_offset: 0 };
        assert(res.selected@.to_set() =~= set![0usize]) by {
            assert(res.selected@ =~= seq![0usize]);
            assert(res.selected@[0] == 0);
        }
        res
    }

    /// The selection of a view that has shown nothing yet: the first row
    /// focused, nothing selected, no anchor.
    pub fn empty() -> (res: Self)
        ensures
            res.wf(),
            res.focus() == 0,
            res.chosen() == Set::<usize>::empty(),
            res.anchor_at() is None,
            res.scroll() == 0,
    {
        let res = Selection { focused: 0, selected: Vec::new(), anchor: None, scroll_offset: 0 };
        assert(res.selected@.to_set() =~= Set::<usize>::empty());
        res
    }

    /// Get the focused index.
    pub fn focused_index(&self) -> (res: usize)
        ensures
            res == self.focus(),
    {
        self.focused
    }

    /// Get selection count.
    pub fn selection_count(&self) -> (res: usize)
        requires
            self.wf(),
        ensures
            res == self.chosen().len(),
    {
        proof {
            self.selected@.unique_seq_to_set();
        }
        self.selected.len()
    }

    /// Check if an index is selected.
    pub fn is_selected(&self, index: usize) -> (res: bool)
        ensures
            res == self.chosen().contains(index),
    {
        let mut k: usize = 0;
        while k < self.selected.len()
            invariant
                k <= self.selected.len(),
                forall|m: int| 0 <= m < k ==> self.selected@[m] != index,
            decreases self.selected.len() - k,
        {
            if self.selected[k] == index {
                assert(self.selected@.contains(index));
                return true;
            }
            k = k + 1;
        }
        false
    }

    /// The selected indices, in the order they were selected.
    pub fn selected_indices(&self) -> (res: &Vec<usize>)
        requires
            self.wf(),
        ensures
            res@.to_set() == self.chosen(),
            no_repeats(res@),
    {
        &self.selected
    }

    /// The first row in view.
    pub fn scroll_offset(&self) -> (res: usize)
        ensures
            res == self.scroll(),
    {
        self.scroll_offset
    }

    /// Scroll so that `row` is the first row in view.
    pub fn set_scroll(&mut self, row: usize)
        requires
            old(self).wf(),
        ensures
            final(self).wf(),
            final(self).focus() == old(self).focus(),
            final(self).chosen() == old(self).chosen(),
            final(self).anchor_at() == old(self).anchor_at(),
            final(self).scroll() == row,
    {
        self.scroll_offset = row;
    }

    /// Focus the entry at `index` and select it alone; the anchor and the
    /// scrolling stay.
    pub fn set_focused(&mut self, index: usize)
        requires
            old(self).wf(),
        ensures
            final(self).wf(),
            final(self).focus() == index,
            final(self).chosen() == set![index],
            final(self).anchor_at() == old(self).anchor_at(),
            final(self).scroll() == old(self).scroll(),
    {
        let mut v = Vec::new();
        v.push(index);
        proof {
            assert(v@ =~= seq![index]);
            assert(v@.to_set() =~= set![index]) by {
                assert(v@[0] == index);
            }
        }
        self.focused = index;
        self.selected = v;
    }

    /// Select exactly the entries in `v`; the focus, the anchor and the
    /// scrolling stay.
    pub fn set_chosen(&mut self, v: Vec<usize>)
        requires
            no_repeats(v@),
        ensures
            final(self).wf(),
            final(self).focus() == old(self).focus(),
            final(self).chosen() == v@.to_set(),
            final(self).anchor_at() == old(self).anchor_at(),
            final(self).scroll() == old(self).scroll(),
    {
        self.selected = v;
    }

    /// Select just the focused entry and make it the anchor.
    fn select_only_focused(&mut self)
        ensures
            final(self).wf(),
            final(self).focused == old(self).focused,
            final(self).chosen() == set![old(self).focused],
            final(self).anchor == Some(old(self).focused),
            final(self).scroll_offset == old(self).scroll_offset,
    {
        let mut v = Vec::new();
        v.push(self.focused);
        proof {
            assert(v@ =~= seq![self.focused]);
            assert(v@.to_set() =~= set![self.focused]) by {
                assert(v@[0] == self.focused);
            }
        }
        self.selected = v;
        self.anchor = Some(self.focused);
    }

    // -- list view ---------------------------------------------------------
    /// Move selection up (list view): the entry above is focused and alone
    /// selected; the view scrolls up to it where needed. Nothing happens on
    /// the first entry.
    pub fn list_prev(&mut self)
        requires
            old(self).wf(),
        ensures
            final(self).wf(),
            old(self).focus() == 0 ==> *final(self) == *old(self),
            old(self).focus() > 0 ==> final(self).focus() == old(self).focus() - 1
                && final(self).chosen() == set![(old(self).focus() - 1) as usize]
                && final(self).anchor_at() == Some((old(self).focus() - 1) as usize)
                && final(self).scroll() == if final(self).focus() < old(self).scroll() {
                    final(self).focus()
                } else {
                    old(self).scroll()
                },
    {
        if self.focused > 0 {
            self.focused = self.focused - 1;
            self.select_only_focused();
            if self.focused < self.scroll_offset {
                self.scroll_offset = self.focused;
            }
        }
    }

    /// Move selection down (list view) among `count` entries with `rows`
    /// rows in view. Nothing happens on the last entry.
    pub fn list_next(&mut self, count: usize, rows: usize)
        requires
            old(self).wf(),
        ensures
            final(self).wf(),
            old(self).focus() + 1 >= count ==> *final(self) == *old(self),
            old(self).focus() + 1 < count ==> final(self).focus() == old(self).focus() + 1
                && final(self).chosen() == set![(old(self).focus() + 1) as usize]
                && final(self).anchor_at() == Some((old(self).focus() + 1) as usize)
                && final(self).scroll() == if final(self).focus() >= old(self).scroll() + rows {
                    final(self).focus() - rows + 1
                } else {
                    old(self).scroll()
                },
    {
        if self.focused < count && count - self.focused > 1 {
            self.focused = self.focused + 1;
            self.select_only_focused();
            if self.focused >= self.scroll_offset && self.focused - self.scroll_offset >= rows {
                self.scroll_offset = self.focused - rows + 1;
            }
        }
    }

    /// Jump to first entry (list view): it is focused and alone selected, at
    /// the top.
    pub fn list_first(&mut self)
        requires
            old(self).wf(),
        ensures
            final(self).wf(),
            final(self).focus() == 0,
            final(self).chosen() == set![0usize],
            final(self).anchor_at() == Some(0usize),
            final(self).scroll() == 0,
    {
        self.focused = 0;
        self.select_only_focused();
        self.scroll_offset = 0;
    }

    /// Jump to last entry (list view) of `count` with `rows` in view.
    pub fn list_last(&mut self, count: usize, rows: usize)
        requires
            old(self).wf(),
        ensures
            final(self).wf(),
            count == 0 ==> *final(self) == *old(self),
            count > 0 ==> final(self).focus() == count - 1
                && final(self).chosen() == set![(count - 1) as usize]
                && final(self).anchor_at() == Some((count - 1) as usize)
                && final(self).scroll() == if count - 1 >= rows {
                    count - 1 - rows + 1
                } else {
                    old(self).scroll()
                },
    {
        if count > 0 {
            self.focused = count - 1;
            self.select_only_focused();
            if self.focused >= rows {
                self.scroll_offset = self.focused - rows + 1;
            }
        }
    }

    /// Page up (list view): `rows` entries up, or to the first.
    pub fn list_page_up(&mut self, rows: usize)
        requires
            old(self).wf(),
        ensures
            final(self).wf(),
            final(self).focus() == if old(self).focus() >= rows {
                old(self).focus() - rows
            } else {
                0
            },
            final(self).chosen() == set![final(self).focus() as usize],
            final(self).anchor_at() == Some(final(self).focus() as usize),
            final(self).scroll() == if final(self).focus() < old(self).scroll() {
                final(self).focus()
            } else {
                old(self).scroll()
            },
    {
        if self.focused >= rows {
            self.focused = self.focused - rows;
        } else {
            self.focused = 0;
        }
        self.select_only_focused();
        if self.focused < self.scroll_offset {
            self.scroll_offset = self.focused;
        }
    }

    /// Page down (list view): `rows` entries down, or to the last of `count`.
    pub fn list_page_down(&mut self, count: usize, rows: usize)
        requires
            old(self).wf(),
        ensures
            final(self).wf(),
            ({
                let last = if count >= 1 { count - 1 } else { 0 };
                final(self).focus() == if old(self).focus() + rows <= last {
                    old(self).focus() + rows
                } else {
                    last
                }
            }),
            final(self).chosen() == set![final(self).focus() as usize],
            final(self).anchor_at() == Some(final(self).focus() as usize),
            final(self).scroll() == if final(self).focus() >= old(self).scroll() + rows {
                final(self).focus() - rows + 1
            } else {
                old(self).scroll()
            },
    {
        let last = if count >= 1 {
            count - 1
        } else {
            0
        };
        self.focused = if self.focused <= last && last - self.focused >= rows {
            self.focused + rows
        } else {
            last
        };
        self.select_only_focused();
        if self.focused >= self.scroll_offset && self.focused - self.scroll_offset >= rows {
            self.scroll_offset = self.focused - rows + 1;
        }
    }

    // -- grid view ---------------------------------------------------------
    /// Focus the entry at `f`, select it alone, and scroll its row into view
    /// (`columns` per row, `rows` rows in view).
    fn grid_focus(&mut self, f: usize, columns: usize, rows: usize)
        requires
            columns >= 1,
            rows >= 1,
        ensures
            final(self).wf(),
            final(self).focus() == f,
            final(self).chosen() == set![f],
            final(self).anchor_at() == Some(f),
            final(self).scroll() == scroll_to(f as int / columns as int, old(self).scroll(), rows as int),
    {
        self.focused = f;
        self.select_only_focused();
        let row = f / columns;
        if row < self.scroll_offset {
            self.scroll_offset = row;
        } else if row - self.scroll_offset >= rows {
            self.scroll_offset = row - (rows - 1);
        }
    }

    /// Move selection up a row (grid view), or to the first entry.
    pub fn grid_up(&mut self, columns: usize, rows: usize)
        requires
            old(self).wf(),
            columns >= 1,
            rows >= 1,
        ensures
            final(self).wf(),
            ({
                let f = if old(self).focus() >= columns {
                    old(self).focus() - columns
                } else {
                    0
                };
                &&& final(self).focus() == f
                &&& final(self).chosen() == set![f as usize]
                &&& final(self).anchor_at() == Some(f as usize)
                &&& final(self).scroll() == scroll_to(f / columns as int, old(self).scroll(), rows as int)
            }),
    {
        let f = if self.focused >= columns {
            self.focused - columns
        } else {
            0
        };
        self.grid_focus(f, columns, rows);
    }

    /// Move selection down a row (grid view), or to the last of `count`.
    pub fn grid_down(&mut self, count: usize, columns: usize, rows: usize)
        requires
            old(self).wf(),
            columns >= 1,
            rows >= 1,
        ensures
            final(self).wf(),
            ({
                let f = if old(self).focus() + columns < count {
                    old(self).focus() + columns
                } else if count >= 1 && old(self).focus() < count - 1 {
                    count - 1
                } else {
                    old(self).focus()
                };
                &&& final(self).focus() == f
                &&& final(self).chosen() == set![f as usize]
                &&& final(self).anchor_at() == Some(f as usize)
                &&& final(self).scroll() == scroll_to(f / columns as int, old(self).scroll(), rows as int)
            }),
    {
        let f = if self.focused < count && count - self.focused > columns {
            self.focused + columns
        } else if count >= 1 && self.focused < count - 1 {
            count - 1
        } else {
            self.focused
        };
        self.grid_focus(f, columns, rows);
    }

    /// Move selection left (grid view). Nothing happens on the first entry.
    pub fn grid_left(&mut self, columns: usize, rows: usize)
        requires
            old(self).wf(),
            columns >= 1,
            rows >= 1,
        ensures
            final(self).wf(),
            old(self).focus() == 0 ==> *final(self) == *old(self),
            old(self).focus() > 0 ==> final(self).focus() == old(self).focus() - 1
                && final(self).chosen() == set![(old(self).focus() - 1) as usize]
                && final(self).anchor_at() == Some((old(self).focus() - 1) as usize)
                && final(self).scroll() == scroll_to((old(self).focus() - 1) / columns as int, old(self).scroll(), rows as int),
    {
        if self.focused > 0 {
            let f = self.focused - 1;
            self.grid_focus(f, columns, rows);
        }
    }

    /// Move selection right (grid view). Nothing happens on the last entry.
    pub fn grid_right(&mut self, count: usize, columns: usize, rows: usize)
        requires
            old(self).wf(),
            columns >= 1,
            rows >= 1,
        ensures
            final(self).wf(),
            old(self).focus() + 1 >= count ==> *final(self) == *old(self),
            old(self).focus() + 1 < count ==> final(self).focus() == old(self).focus() + 1
                && final(self).chosen() == set![(old(self).focus() + 1) as usize]
                && final(self).anchor_at() == Some((old(self).focus() + 1) as usize)
                && final(self).scroll() == scroll_to((old(self).focus() + 1) / columns as int, old(self).scroll(), rows as int),
    {
        if self.focused < count && count - self.focused > 1 {
            let f = self.focused + 1;
            self.grid_focus(f, columns, rows);
        }
    }

    /// Jump to first entry (grid view).
    pub fn grid_first(&mut self, columns: usize, rows: usize)
        requires
            old(self).wf(),
            columns >= 1,
            rows >= 1,
        ensures
            final(self).wf(),
            final(self).focus() == 0,
            final(self).chosen() == set![0usize],
            final(self).anchor_at() == Some(0usize),
            final(self).scroll() == scroll_to(0, old(self).scroll(), rows as int),
    {
        self.grid_focus(0, columns, rows);
    }

    /// Jump to last entry (grid view) of `count`.
    pub fn grid_last(&mut self, count: usize, columns: usize, rows: usize)
        requires
            old(self).wf(),
            columns >= 1,
            rows >= 1,
        ensures
            final(self).wf(),
            count == 0 ==> *final(self) == *old(self),
            count > 0 ==> final(self).focus() == count - 1 && final(self).chosen() == set![(count - 1) as usize]
                && final(self).anchor_at() == Some((count - 1) as usize)
                && final(self).scroll() == scroll_to((count - 1) / columns as int, old(self).scroll(), rows as int),
    {
        if count > 0 {
            self.grid_focus(count - 1, columns, rows);
        }
    }

    /// Page up (grid view): a page of rows up, or to the first entry.
    pub fn grid_page_up(&mut self, columns: usize, rows: usize)
        requires
            old(self).wf(),
            columns >= 1,
            rows >= 1,
            rows * columns <= usize::MAX,
        ensures
            final(self).wf(),
            ({
                let page = rows * columns;
                let f = if old(self).focus() >= page { old(self).focus() - page } else { 0 };
                final(self).focus() == f && final(self).chosen() == set![f as usize]
                    && final(self).anchor_at() == Some(f as usize)
                    && final(self).scroll() == scroll_to(f / columns as int, old(self).scroll(), rows as int)
            }),
    {
        let page = rows * columns;
        let f = if self.focused >= page {
            self.focused - page
        } else {
            0
        };
        self.grid_focus(f, columns, rows);
    }

    /// Page down (grid view): a page of rows down, or to the last of `count`.
    pub fn grid_page_down(&mut self, count: usize, columns: usize, rows: usize)
        requires
            old(self).wf(),
            columns >= 1,
            rows >= 1,
            rows * columns <= usize::MAX,
        ensures
            final(self).wf(),
            ({
                let page = rows * columns;
                let last = if count >= 1 { count - 1 } else { 0 };
                let f = if old(self).focus() + page <= last { old(self).focus() + page } else { last };
                final(self).focus() == f && final(self).chosen() == set![f as usize]
                    && final(self).anchor_at() == Some(f as usize)
                    && final(self).scroll() == scroll_to(f / columns as int, old(self).scroll(), rows as int)
            }),
    {
        let page = rows * columns;
        let last = if count >= 1 {
            count - 1
        } else {
            0
        };
        let f = if self.focused <= last && last - self.focused >= page {
            self.focused + page
        } else {
            last
        };
        self.grid_focus(f, columns, rows);
    }

    // -- selecting by pointer and all at once -------------------------------
    /// The entries `from..=to` without repeats.
    fn range_of(from: usize, to: usize) -> (res: Vec<usize>)
        requires
            from <= to,
        ensures
            no_repeats(res@),
            res@.to_set() == span(from as int, to as int),
    {
        let mut v: Vec<usize> = Vec::new();
        let mut k = from;
        while k < to
            invariant
                from <= k <= to,
                v@.len() == k - from,
                forall|m: int| 0 <= m < v@.len() ==> #[trigger] v@[m] == from + m,
            decreases to - k,
        {
            v.push(k);
            k = k + 1;
        }
        v.push(to);
        proof {
            assert forall|x: usize| v@.to_set().contains(x) <==> span(from as int, to as int).contains(x) by {
                if from <= x <= to {
                    assert(v@[x - from] == x);
                }
            }
            assert(v@.to_set() =~= span(from as int, to as int));
        }
        v
    }

    /// Where `x` stands in `v`, if it does.
    fn position_in(v: &Vec<usize>, x: usize) -> (res: Option<usize>)
        ensures
            match res {
                Some(k) => k < v@.len() && v@[k as int] == x,
                None => !v@.contains(x),
            },
    {
        let mut k: usize = 0;
        while k < v.len()
            invariant
                k <= v.len(),
                forall|m: int| 0 <= m < k ==> v@[m] != x,
            decreases v.len() - k,
        {
            if v[k] == x {
                return Some(k);
            }
            k = k + 1;
        }
        None
    }

    /// Handle a click on the entry `index` (among the shown ones): with
    /// Control it toggles that entry's selection; with Shift it selects the
    /// entries between the anchor and it (or just it, without an anchor);
    /// else it selects just that entry. The clicked entry is focused.
    pub fn click(&mut self, index: usize, ctrl: bool, shift: bool)
        requires
            old(self).wf(),
        ensures
            final(self).wf(),
            final(self).focus() == index,
            final(self).scroll() == old(self).scroll(),
            ctrl ==> final(self).anchor_at() == Some(index) && final(self).chosen() == toggled(
                old(self).chosen(),
                index,
            ),
            !ctrl && shift ==> match old(self).anchor_at() {
                Some(a) => final(self).anchor_at() == Some(a) && final(self).chosen() == if a <= index {
                    span(a as int, index as int)
                } else {
                    span(index as int, a as int)
                },
                None => final(self).anchor_at() == Some(index) && final(self).chosen() == set![index],
            },
            !ctrl && !shift ==> final(self).anchor_at() == Some(index) && final(self).chosen() == set![index],
    {
        if ctrl {
            let ghost before = self.selected@;
            match Selection::position_in(&self.selected, index) {
                Some(k) => {
                    self.selected.remove(k);
                    proof {
                        lemma_remove_distinct(before, k as int);
                    }
                },
                None => {
                    self.selected.push(index);
                    proof {
                        lemma_push_distinct(before, index);
                    }
                },
            }
            self.focused = index;
            self.anchor = Some(index);
        } else if shift {
            match self.anchor {
                Some(a) => {
                    let (from, to) = if a <= index {
                        (a, index)
                    } else {
                        (index, a)
                    };
                    self.selected = Selection::range_of(from, to);
                },
                None => {
                    self.focused = index;
                    self.select_only_focused();
                },
            }
            self.focused = index;
        } else {
            self.focused = index;
            self.select_only_focused();
        }
    }

    /// Select all `count` entries (Ctrl+A).
    pub fn select_all(&mut self, count: usize)
        requires
            old(self).wf(),
        ensures
            final(self).wf(),
            final(self).chosen() == Set::new(|k: usize| k < count),
            final(self).focus() == old(self).focus(),
            final(self).anchor_at() == old(self).anchor_at(),
            final(self).scroll() == old(self).scroll(),
    {
        if count == 0 {
            self.selected = Vec::new();
            proof {
                assert(self.selected@.to_set() =~= Set::new(|k: usize| k < count));
            }
        } else {
            self.selected = Selection::range_of(0, count - 1);
            proof {
                assert(span(0, count - 1) =~= Set::new(|k: usize| k < count));
            }
        }
    }

    /// Clear the selection.
    pub fn clear_selection(&mut self)
        requires
            old(self).wf(),
        ensures
            final(self).wf(),
            final(self).chosen() == Set::<usize>::empty(),
            final(self).focus() == old(self).focus(),
            final(self).anchor_at() == old(self).anchor_at(),
            final(self).scroll() == old(self).scroll(),
    {
        self.selected = Vec::new();
        proof {
            assert(self.selected@.to_set() =~= Set::<usize>::empty());
        }
    }

    /// After the number of shown entries changed to `count` (hidden files
    /// shown or hidden): the focus moves onto the last entry where it is
    /// past the end, selected entries past the end are dropped, and an empty
    /// selection gets the focused entry.
    pub fn revalidate(&mut self, count: usize)
        requires
            old(self).wf(),
        ensures
            final(self).wf(),
            final(self).focus() == if old(self).focus() >= count && count > 0 {
                count - 1
            } else {
                old(self).focus()
            },
            ({
                let kept = old(self).chosen().filter(|k: usize| k < count);
                final(self).chosen() == if kept.is_empty() && count > 0 {
                    set![final(self).focus() as usize]
                } else {
                    kept
                }
            }),
            final(self).anchor_at() == old(self).anchor_at(),
            final(self).scroll() == old(self).scroll(),
    {
        if self.focused >= count && count > 0 {
            self.focused = count - 1;
        }
        let ghost before = self.selected@;
        let mut kept: Vec<usize> = Vec::new();
        let mut i: usize = 0;
        while i < self.selected.len()
            invariant
                i <= self.selected.len(),
                self.selected@ == before,
                no_repeats(before),
                no_repeats(kept@),
                forall|x: usize|
                    kept@.contains(x) <==> (before.subrange(0, i as int).contains(x) && x < count),
            decreases self.selected.len() - i,
        {
            let x = self.selected[i];
            proof {
                broadcast use vstd::seq_lib::lemma_seq_contains_after_push;
                assert(before.subrange(0, i + 1) =~= before.subrange(0, i as int).push(x));
                if before.subrange(0, i as int).contains(x) {
                    let m = choose|m: int| 0 <= m < i && before.subrange(0, i as int)[m] == x;
                    assert(before[m] == before[i as int]);
                }
            }
            if x < count {
                proof {
                    lemma_push_distinct(kept@, x);
                }
                kept.push(x);
            }
            proof {
                broadcast use vstd::seq_lib::lemma_seq_contains_after_push;
            }
            i = i + 1;
        }
        let ghost kept_set = before.to_set().filter(|k: usize| k < count);
        proof {
            assert(before.subrange(0, i as int) =~= before);
            assert(kept@.to_set() =~= kept_set);
        }
        if kept.len() == 0 && count > 0 {
            kept.push(self.focused);
            proof {
                assert(kept_set =~= Set::<usize>::empty());
                assert(kept@ =~= seq![self.focused]);
                assert(kept@.to_set() =~= set![self.focused]) by {
                    assert(kept@[0] == self.focused);
                }
            }
        } else {
            proof {
                if kept@.len() == 0 {
                    assert(kept_set =~= Set::<usize>::empty());
                } else {
                    assert(kept_set.contains(kept@[0]));
                }
            }
        }
        self.selected = kept;
    }
}

/// Control-clicking an entry twice leaves the selection as it was.
pub proof fn law_ctrl_click_twice(chosen: Set<usize>, index: usize)
    ensures
        toggled(toggled(chosen, index), index) == chosen,
{
    assert(toggled(toggled(chosen, index), index) =~= chosen);
}

/// A Shift-click selects the same entries whichever end the anchor is at.
pub proof fn law_range_is_symmetric(a: usize, b: usize)
    ensures
        (if a <= b { span(a as int, b as int) } else { span(b as int, a as int) }) == (if b <= a {
            span(b as int, a as int)
        } else {
            span(a as int, b as int)
        }),
{
    if a == b {
        assert(span(a as int, b as int) =~= span(b as int, a as int));
    }
}


/// Taking one entry out of a list without repeats leaves a list without
/// repeats that holds the rest.
proof fn lemma_remove_distinct(s: Seq<usize>, k: int)
    requires
        no_repeats(s),
        0 <= k < s.len(),
    ensures
        no_repeats(s.remove(k)),
        s.remove(k).to_set() == s.to_set().remove(s[k]),
{
    let r = s.remove(k);
    assert forall|i: int| 0 <= i < r.len() implies r[i] == (if i < k { s[i] } else { s[i + 1] }) by {}
    assert forall|i: int, j: int| 0 <= i < j < r.len() implies r[i] != r[j] by {
        let bi = if i < k { i } else { i + 1 };
        let bj = if j < k { j } else { j + 1 };
        assert(r[i] == s[bi] && r[j] == s[bj]);
    }
    assert forall|x: usize| r.to_set().contains(x) <==> s.to_set().remove(s[k]).contains(x) by {
        if r.contains(x) {
            let m = choose|m: int| 0 <= m < r.len() && r[m] == x;
            let bm = if m < k { m } else { m + 1 };
            assert(s[bm] == x);
        }
        if s.to_set().remove(s[k]).contains(x) {
            let m = choose|m: int| 0 <= m < s.len() && s[m] == x;
            if m < k {
                assert(r[m] == x);
            } else {
                assert(r[m - 1] == x);
            }
        }
    }
    assert(r.to_set() =~= s.to_set().remove(s[k]));
}

/// Adding a new entry to a list without repeats keeps it without repeats.
proof fn lemma_push_distinct(s: Seq<usize>, x: usize)
    requires
        no_repeats(s),
        !s.contains(x),
    ensures
        no_repeats(s.push(x)),
        s.push(x).to_set() == s.to_set().insert(x),
{
    s.lemma_push_to_set_commute(x);
    assert forall|i: int, j: int| 0 <= i < j < s.push(x).len() implies s.push(x)[i] != s.push(x)[j] by {
        if j == s.len() {
            assert(s[i] != x);
        }
    }
}

} // verus!
