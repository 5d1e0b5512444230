//! The help overlay listing the keyboard shortcuts, with its scrolling.
use vstd::prelude::*;
use crate::dialogs::{dialog_area, dialog_area_exec, sane};
use crate::geometry::{inside, Point, Rect};

verus! {

/// One line of the overlay: a key and what it does.
pub type Keybind = (&'static str, &'static str);

/// The views of the shortcuts of a section.
pub open spec fn bind_views(v: Seq<Keybind>) -> Seq<(Seq<char>, Seq<char>)> {
    v.map_values(|b: Keybind| (b.0@, b.1@))
}

/// The number of shortcuts in each section of the overlay.
pub open spec fn section_sizes() -> Seq<int> {
    seq![9, 5, 10, 4, 9, 2, 5]
}

/// Height of the overlay's content: per section a header line with a
/// little extra room, a line per shortcut, and a gap.
pub open spec fn content_height_of(sizes: Seq<int>) -> int
    decreases sizes.len(),
{
    if sizes.len() == 0 {
        0
    } else {
        content_height_of(sizes.drop_last()) + 21 + 4 + sizes.last() * 21 + 8
    }
}

fn section(title: &'static str, binds: Vec<Keybind>) -> (res: (&'static str, Vec<Keybind>))
    ensures
        res.0@ == title@,
        res.1@ == binds@,
{
    (title, binds)
}

/// The shortcuts shown, by section.
pub fn keybind_sections() -> (res: Vec<(&'static str, Vec<Keybind>)>)
    ensures
        res@.len() == 7,
        forall|k: int| 0 <= k < 7 ==> #[trigger] res@[k].1@.len() == section_sizes()[k],
        res@[0].0@ == "Navigation"@,
        res@[1].0@ == "Views"@,
        res@[2].0@ == "Tabs & Panes"@,
        res@[3].0@ == "Selection"@,
        res@[4].0@ == "File Operations"@,
        res@[5].0@ == "Bookmarks"@,
        res@[6].0@ == "Other"@,
        bind_views(res@[0].1@) == seq![("Up/Down"@, "Move selection"@), ("Left/Right"@, "Grid navigation"@), ("Enter"@, "Open selected"@), ("Backspace"@, "Go to parent"@), ("Alt+Left"@, "Go back"@), ("Alt+Right"@, "Go forward"@), ("Home"@, "Select first"@), ("End"@, "Select last"@), ("PgUp/PgDn"@, "Page up/down"@)],
        bind_views(res@[1].1@) == seq![("Ctrl+1"@, "List view"@), ("Ctrl+2"@, "Grid view"@), ("Ctrl+3"@, "Column view"@), ("Ctrl+H"@, "Toggle hidden files"@), ("Ctrl+="@, "Cycle icon size"@)],
        bind_views(res@[2].1@) == seq![("Ctrl+T"@, "New tab"@), ("Ctrl+W"@, "Close tab"@), ("Ctrl+Tab"@, "Next tab"@), ("Ctrl+Shift+Tab"@, "Previous tab"@), ("Alt+1-9"@, "Switch to tab N"@), ("Middle-click"@, "Close tab"@), ("Ctrl+Shift+H"@, "Split horizontal"@), ("Ctrl+Shift+V"@, "Split vertical"@), ("Ctrl+Shift+W"@, "Close pane"@), ("Ctrl+Shift+Arrow"@, "Focus pane"@)],
        bind_views(res@[3].1@) == seq![("Ctrl+A"@, "Select all"@), ("Ctrl+Click"@, "Toggle selection"@), ("Shift+Click"@, "Range select"@), ("Shift+Up/Down"@, "Extend selection"@)],
        bind_views(res@[4].1@) == seq![("Ctrl+C"@, "Copy"@), ("Ctrl+X"@, "Cut"@), ("Ctrl+V"@, "Paste"@), ("Ctrl+Z"@, "Undo"@), ("Ctrl+Y"@, "Redo"@), ("Delete"@, "Move to trash"@), ("Shift+Delete"@, "Delete permanently"@), ("F2"@, "Rename"@), ("Ctrl+Shift+N"@, "New folder"@)],
        bind_views(res@[5].1@) == seq![("Ctrl+D"@, "Add bookmark"@), ("Drag folder"@, "Drop on sidebar"@)],
        bind_views(res@[6].1@) == seq![("Ctrl+L"@, "Edit address"@), ("F5"@, "Refresh"@), ("F1"@, "Toggle help"@), ("Escape"@, "Close modal/quit"@), ("q"@, "Quit"@)],
{
    let mut out: Vec<(&'static str, Vec<Keybind>)> = Vec::new();
    let mut v: Vec<Keybind> = Vec::new();
    v.push(("Up/Down", "Move selection"));
    v.push(("Left/Right", "Grid navigation"));
    v.push(("Enter", "Open selected"));
    v.push(("Backspace", "Go to parent"));
    v.push(("Alt+Left", "Go back"));
    v.push(("Alt+Right", "Go forward"));
    v.push(("Home", "Select first"));
    v.push(("End", "Select last"));
    v.push(("PgUp/PgDn", "Page up/down"));
    out.push(section("Navigation", v));
    let mut v: Vec<Keybind> = Vec::new();
    v.push(("Ctrl+1", "List view"));
    v.push(("Ctrl+2", "Grid view"));
    v.push(("Ctrl+3", "Column view"));
    v.push(("Ctrl+H", "Toggle hidden files"));
    v.push(("Ctrl+=", "Cycle icon size"));
    out.push(section("Views", v));
    let mut v: Vec<Keybind> = Vec::new();
    v.push(("Ctrl+T", "New tab"));
    v.push(("Ctrl+W", "Close tab"));
    v.push(("Ctrl+Tab", "Next tab"));
    v.push(("Ctrl+Shift+Tab", "Previous tab"));
    v.push(("Alt+1-9", "Switch to tab N"));
    v.push(("Middle-click", "Close tab"));
    v.push(("Ctrl+Shift+H", "Split horizontal"));
    v.push(("Ctrl+Shift+V", "Split vertical"));
    v.push(("Ctrl+Shift+W", "Close pane"));
    v.push(("Ctrl+Shift+Arrow", "Focus pane"));
    out.push(section("Tabs & Panes", v));
    let mut v: Vec<Keybind> = Vec::new();
    v.push(("Ctrl+A", "Select all"));
    v.push(("Ctrl+Click", "Toggle selection"));
    v.push(("Shift+Click", "Range select"));
    v.push(("Shift+Up/Down", "Extend selection"));
    out.push(section("Selection", v));
    let mut v: Vec<Keybind> = Vec::new();
    v.push(("Ctrl+C", "Copy"));
    v.push(("Ctrl+X", "Cut"));
    v.push(("Ctrl+V", "Paste"));
    v.push(("Ctrl+Z", "Undo"));
    v.push(("Ctrl+Y", "Redo"));
    v.push(("Delete", "Move to trash"));
    v.push(("Shift+Delete", "Delete permanently"));
    v.push(("F2", "Rename"));
    v.push(("Ctrl+Shift+N", "New folder"));
    out.push(section("File Operations", v));
    let mut v: Vec<Keybind> = Vec::new();
    v.push(("Ctrl+D", "Add bookmark"));
    v.push(("Drag folder", "Drop on sidebar"));
    out.push(section("Bookmarks", v));
    let mut v: Vec<Keybind> = Vec::new();
    v.push(("Ctrl+L", "Edit address"));
    v.push(("F5", "Refresh"));
    v.push(("F1", "Toggle help"));
    v.push(("Escape", "Close modal/quit"));
    v.push(("q", "Quit"));
    out.push(section("Other", v));
    assert forall|k: int| 0 <= k < 7 implies #[trigger] out@[k].1@.len() == section_sizes()[k] by {
        if k == 0 {
        } else if k == 1 {
        } else if k == 2 {
        } else if k == 3 {
        } else if k == 4 {
        } else if k == 5 {
        } else {
        }
    }
    out
}

/// Height of the whole list of shortcuts.
pub fn calculate_content_height() -> (res: i32)
    ensures
        res == content_height_of(section_sizes()),
{
    let sections = keybind_sections();
    let mut height: i32 = 0;
    let mut k: usize = 0;
    while k < sections.len()
        invariant
            sections@.len() == 7,
            forall|j: int| 0 <= j < 7 ==> #[trigger] sections@[j].1@.len() == section_sizes()[j],
            k <= 7,
            height == content_height_of(section_sizes().take(k as int)),
            0 <= height <= 243 * k,
        decreases 7 - k,
    {
        assert(section_sizes().take(k + 1).drop_last() == section_sizes().take(k as int));
        assert(section_sizes().take(k + 1).last() == section_sizes()[k as int]);
        assert(section_sizes()[k as int] <= 10);
        let n = sections[k].1.len();
        height = height + 21 + 4;
        height = height + n as i32 * 21;
        height = height + 8;
        k = k + 1;
    }
    assert(section_sizes().take(7) == section_sizes());
    height
}

proof fn lemma_content_height()
    ensures
        content_height_of(section_sizes()) == 1155,
{
    let s = section_sizes();
    assert(s.take(0) =~= Seq::<int>::empty());
    assert(content_height_of(s.take(0)) == 0);
    assert(s.take(1).drop_last() =~= s.take(0));
    assert(s.take(1).last() == 9);
    assert(content_height_of(s.take(1)) == 222);
    assert(s.take(2).drop_last() =~= s.take(1));
    assert(s.take(2).last() == 5);
    assert(content_height_of(s.take(2)) == 360);
    assert(s.take(3).drop_last() =~= s.take(2));
    assert(s.take(3).last() == 10);
    assert(content_height_of(s.take(3)) == 603);
    assert(s.take(4).drop_last() =~= s.take(3));
    assert(s.take(4).last() == 4);
    assert(content_height_of(s.take(4)) == 720);
    assert(s.take(5).drop_last() =~= s.take(4));
    assert(s.take(5).last() == 9);
    assert(content_height_of(s.take(5)) == 942);
    assert(s.take(6).drop_last() =~= s.take(5));
    assert(s.take(6).last() == 2);
    assert(content_height_of(s.take(6)) == 1017);
    assert(s.take(7).drop_last() =~= s.take(6));
    assert(s.take(7).last() == 5);
    assert(content_height_of(s.take(7)) == 1155);
    assert(s.take(7) =~= s);
}

/// Where the overlay is: at most 400 by 500, centered.
pub open spec fn help_area(b: Rect) -> Rect {
    dialog_area(b, 400, 500, 40)
}

/// The furthest the overlay's content can be scrolled.
pub open spec fn max_scroll(b: Rect, content: int) -> int {
    let visible = help_area(b).height - 60;
    if content - visible > 0 { content - visible } else { 0 }
}

/// The help overlay.
pub struct HelpModal {
    bounds: Rect,
    visible: bool,
    scroll_offset: i32,
    content_height: i32,
}

impl HelpModal {
    /// Where the overlay is placed in.
    pub closed spec fn area(&self) -> Rect {
        self.bounds
    }

    /// The overlay is shown.
    pub closed spec fn shown(&self) -> bool {
        self.visible
    }

    /// How far the content is scrolled.
    pub closed spec fn offset(&self) -> int {
        self.scroll_offset as int
    }

    /// Height of the whole content.
    pub closed spec fn content(&self) -> int {
        self.content_height as int
    }

    /// The overlay can be laid out and is scrolled within its content.
    pub closed spec fn wf(&self) -> bool {
        &&& sane(self.bounds)
        &&& 0 <= self.scroll_offset <= 0x1000_0000
        &&& self.content_height == content_height_of(section_sizes())
    }

    /// Create a new help modal, hidden.
    pub fn new(bounds: Rect) -> (res: Self)
        requires
            sane(bounds),
        ensures
            res.wf(),
            res.area() == bounds,
            !res.shown(),
            res.offset() == 0,
            res.content() == content_height_of(section_sizes()),
    {
        HelpModal { bounds, visible: false, scroll_offset: 0, content_height: calculate_content_height() }
    }

    /// Set bounds.
    pub fn set_bounds(&mut self, bounds: Rect)
        requires
            old(self).wf(),
            sane(bounds),
        ensures
            final(self).wf(),
            final(self).area() == bounds,
            final(self).shown() == old(self).shown(),
            final(self).offset() == old(self).offset(),
    {
        self.bounds = bounds;
    }

    /// Check if visible.
    pub fn is_visible(&self) -> (res: bool)
        ensures
            res == self.shown(),
    {
        self.visible
    }

    /// How far the content is scrolled.
    pub fn scroll_offset(&self) -> (res: i32)
        ensures
            res == self.offset(),
    {
        self.scroll_offset
    }

    /// Show the modal, scrolled to the top.
    pub fn show(&mut self)
        requires
            old(self).wf(),
        ensures
            final(self).wf(),
            final(self).shown(),
            final(self).offset() == 0,
            final(self).area() == old(self).area(),
    {
        self.visible = true;
        self.scroll_offset = 0;
    }

    /// Hide the modal.
    pub fn close(&mut self)
        requires
            old(self).wf(),
        ensures
            final(self).wf(),
            !final(self).shown(),
            final(self).offset() == old(self).offset(),
            final(self).area() == old(self).area(),
    {
        self.visible = false;
    }

    /// Toggle visibility (showing scrolls to the top).
    pub fn toggle(&mut self)
        requires
            old(self).wf(),
        ensures
            final(self).wf(),
            final(self).shown() == !old(self).shown(),
            final(self).offset() == if old(self).shown() { old(self).offset() } else { 0 },
            final(self).area() == old(self).area(),
    {
        if self.visible {
            self.close();
        } else {
            self.show();
        }
    }

    /// The overlay's rectangle (centered in bounds).
    pub fn modal_rect(&self) -> (res: Rect)
        requires
            self.wf(),
        ensures
            res == help_area(self.area()),
    {
        dialog_area_exec(self.bounds, 400, 500, 40)
    }

    /// Handle click: while shown it takes every click, and one outside
    /// hides it. Returns whether it took the click.
    pub fn on_click(&mut self, pos: Point) -> (res: bool)
        requires
            old(self).wf(),
        ensures
            final(self).wf(),
            res == old(self).shown(),
            final(self).shown() == (old(self).shown() && inside(help_area(old(self).area()), pos)),
            final(self).offset() == old(self).offset(),
            final(self).area() == old(self).area(),
    {
        if !self.visible {
            return false;
        }
        let modal_rect = self.modal_rect();
        if !modal_rect.contains_point(pos) {
            self.close();
            return true;
        }
        true
    }

    /// Scroll up by 20 pixels, not past the top.
    pub fn scroll_up(&mut self)
        requires
            old(self).wf(),
        ensures
            final(self).wf(),
            final(self).offset() == if old(self).offset() - 20 > 0 { old(self).offset() - 20 } else { 0 },
            final(self).shown() == old(self).shown(),
            final(self).area() == old(self).area(),
    {
        let v = self.scroll_offset - 20;
        self.scroll_offset = if v > 0 {
            v
        } else {
            0
        };
    }

    /// Scroll down by 20 pixels, not past the end of the content.
    pub fn scroll_down(&mut self)
        requires
            old(self).wf(),
        ensures
            final(self).wf(),
            final(self).offset() == if old(self).offset() + 20 < max_scroll(old(self).area(), old(self).content()) {
                old(self).offset() + 20
            } else {
                max_scroll(old(self).area(), old(self).content())
            },
            final(self).shown() == old(self).shown(),
            final(self).area() == old(self).area(),
    {
        proof {
            lemma_content_height();
        }
        let modal_rect = self.modal_rect();
        let visible_height = modal_rect.height as i32 - 60;
        let m = self.content_height - visible_height;
        let max = if m > 0 {
            m
        } else {
            0
        };
        let v = self.scroll_offset + 20;
        self.scroll_offset = if v < max {
            v
        } else {
            max
        };
    }

    /// Handle mouse wheel scroll: up for a positive step, down for a
    /// negative one, while shown.
    pub fn on_scroll(&mut self, delta: i32)
        requires
            old(self).wf(),
        ensures
            final(self).wf(),
            final(self).shown() == old(self).shown(),
            final(self).area() == old(self).area(),
            !old(self).shown() || delta == 0 ==> final(self).offset() == old(self).offset(),
            old(self).shown() && delta > 0 ==> final(self).offset() == if old(self).offset() - 20 > 0 {
                old(self).offset() - 20
            } else {
                0
            },
            old(self).shown() && delta < 0 ==> final(self).offset() == if old(self).offset() + 20 < max_scroll(
                old(self).area(),
                old(self).content(),
            ) {
                old(self).offset() + 20
            } else {
                max_scroll(old(self).area(), old(self).content())
            },
    {
        if !self.visible {
            return;
        }
        if delta > 0 {
            self.scroll_up();
        } else if delta < 0 {
            self.scroll_down();
        }
    }
}

/// Scrolling down and then up from the top, with content taller than the
/// overlay by at least a step, comes back to the top.
pub proof fn law_scroll_down_up(b: Rect, content: int, offset: int)
    requires
        offset == 0,
        max_scroll(b, content) >= 20,
    ensures
        ({
            let down = if offset + 20 < max_scroll(b, content) { offset + 20 } else { max_scroll(b, content) };
            (if down - 20 > 0 { down - 20 } else { 0 }) == offset
        }),
{
}

} // verus!
