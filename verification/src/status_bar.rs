//! The status bar (item and selection counts, free space, view mode) and
//! the picker's Accept/Cancel toolbar.
use vstd::prelude::*;
use crate::entry::{format_bytes, format_bytes_spec};
use crate::geometry::{inside, Point, Rect};
use crate::text::{copy_string, decimal, push_decimal, push_str};
use crate::views::PickerToolbarClick;

verus! {

/// Height of the status bar.
pub const STATUS_BAR_HEIGHT: u32 = 24;

/// What the status bar shows.
pub struct StatusState {
    pub bounds: Rect,
    pub total_items: usize,
    pub selected_count: usize,
    pub selected_size: u64,
    pub view_mode: Seq<char>,
    pub free_space: Option<u64>,
    pub status_message: Option<Seq<char>>,
}

/// The text on the left: a status message where there is one, else the
/// number of items with the selection's count and size.
pub open spec fn left_text(s: StatusState) -> Seq<char> {
    match s.status_message {
        Some(m) => m,
        None => if s.selected_count > 1 {
            decimal(s.total_items as nat) + " items ("@ + decimal(s.selected_count as nat) + " selected, "@
                + format_bytes_spec(s.selected_size as nat) + ")"@
        } else if s.selected_count == 1 {
            decimal(s.total_items as nat) + " items (1 selected, "@ + format_bytes_spec(s.selected_size as nat)
                + ")"@
        } else {
            decimal(s.total_items as nat) + " items"@
        },
    }
}

/// The free space text shown before the view mode, where known.
pub open spec fn free_text(s: StatusState) -> Option<Seq<char>> {
    match s.free_space {
        Some(f) => Some(format_bytes_spec(f as nat) + " free  |  "@),
        None => None,
    }
}

/// The status bar.
pub struct StatusBar {
    bounds: Rect,
    total_items: usize,
    selected_count: usize,
    selected_size: u64,
    view_mode: String,
    free_space: Option<u64>,
    status_message: Option<String>,
}

impl View for StatusBar {
    type V = StatusState;

    closed spec fn view(&self) -> StatusState {
        StatusState {
            bounds: self.bounds,
            total_items: self.total_items,
            selected_count: self.selected_count,
            selected_size: self.selected_size,
            view_mode: self.view_mode@,
            free_space: self.free_space,
            status_message: match self.status_message {
                Some(m) => Some(m@),
                None => None,
            },
        }
    }
}

impl StatusBar {
    /// Create a new status bar: no items, list view.
    pub fn new(bounds: Rect) -> (res: Self)
        ensures
            res@ == (StatusState {
                bounds,
                total_items: 0,
                selected_count: 0,
                selected_size: 0,
                view_mode: "List"@,
                free_space: None,
                status_message: None,
            }),
    {
        StatusBar {
            bounds,
            total_items: 0,
            selected_count: 0,
            selected_size: 0,
            view_mode: copy_string("List"),
            free_space: None,
            status_message: None,
        }
    }

    /// Update bounds.
    pub fn set_bounds(&mut self, bounds: Rect)
        ensures
            final(self)@ == (StatusState { bounds, ..old(self)@ }),
    {
        self.bounds = bounds;
    }

    /// Update the counts and the selection's size.
    pub fn update(&mut self, total_items: usize, selected_count: usize, selected_size: u64)
        ensures
            final(self)@ == (StatusState { total_items, selected_count, selected_size, ..old(self)@ }),
    {
        self.total_items = total_items;
        self.selected_count = selected_count;
        self.selected_size = selected_size;
    }

    /// Update just the selection count.
    pub fn update_selection_count(&mut self, selected_count: usize)
        ensures
            final(self)@ == (StatusState { selected_count, ..old(self)@ }),
    {
        self.selected_count = selected_count;
    }

    /// Set the current view mode name.
    pub fn set_view_mode(&mut self, mode: &str)
        ensures
            final(self)@ == (StatusState { view_mode: mode@, ..old(self)@ }),
    {
        self.view_mode = copy_string(mode);
    }

    /// Set the free space of the file system shown (as measured for it).
    pub fn set_free_space(&mut self, free: Option<u64>)
        ensures
            final(self)@ == (StatusState { free_space: free, ..old(self)@ }),
    {
        self.free_space = free;
    }

    /// Set a status message to show in place of the counts.
    pub fn set_status_message(&mut self, message: String)
        ensures
            final(self)@ == (StatusState { status_message: Some(message@), ..old(self)@ }),
    {
        self.status_message = Some(message);
    }

    /// Clear the status message.
    pub fn clear_status_message(&mut self)
        ensures
            final(self)@ == (StatusState { status_message: None, ..old(self)@ }),
    {
        self.status_message = None;
    }

    /// Get status bar height.
    pub fn height(&self) -> (res: u32)
        ensures
            res == STATUS_BAR_HEIGHT,
    {
        STATUS_BAR_HEIGHT
    }

    /// Whether a status message shows (it is drawn highlighted).
    pub fn has_status_message(&self) -> (res: bool)
        ensures
            res == self@.status_message is Some,
    {
        self.status_message.is_some()
    }

    /// The view mode's name.
    pub fn view_mode(&self) -> (res: &str)
        ensures
            res@ == self@.view_mode,
    {
        self.view_mode.as_str()
    }

    /// The text on the left.
    pub fn left_text(&self) -> (res: String)
        ensures
            res@ == left_text(self@),
    {
        if let Some(m) = &self.status_message {
            return copy_string(m.as_str());
        }
        let mut s = String::new();
        push_decimal(&mut s, self.total_items as u64);
        if self.selected_count > 1 {
            push_str(&mut s, " items (");
            push_decimal(&mut s, self.selected_count as u64);
            push_str(&mut s, " selected, ");
            push_str(&mut s, format_bytes(self.selected_size).as_str());
            push_str(&mut s, ")");
        } else if self.selected_count == 1 {
            push_str(&mut s, " items (1 selected, ");
            push_str(&mut s, format_bytes(self.selected_size).as_str());
            push_str(&mut s, ")");
        } else {
            push_str(&mut s, " items");
        }
        s
    }

    /// The free space text, where known.
    pub fn free_text(&self) -> (res: Option<String>)
        ensures
            match (res, free_text(self@)) {
                (Some(t), Some(u)) => t@ == u,
                (None, None) => true,
                _ => false,
            },
    {
        match self.free_space {
            Some(f) => {
                let mut s = format_bytes(f);
                push_str(&mut s, " free  |  ");
                Some(s)
            },
            None => None,
        }
    }
}

// -- the picker's toolbar ---------------------------------------------------------

/// Height of the picker toolbar (same as normal toolbar).
pub const PICKER_TOOLBAR_HEIGHT: u32 = 36;

/// The picker toolbar's button width and height.
pub const PICKER_BUTTON_WIDTH: u32 = 100;
pub const PICKER_BUTTON_HEIGHT: u32 = 28;

/// What the picker toolbar holds.
pub struct PickerBarState {
    pub bounds: Rect,
    pub accept_label: Seq<char>,
    pub cancel_label: Seq<char>,
    pub accept_bounds: Rect,
    pub cancel_bounds: Rect,
    pub filter_bounds: Rect,
    pub hovered: Option<usize>,
    pub filter_hovered: bool,
    pub focused: int,
    pub accept_enabled: bool,
    pub filter_description: Option<Seq<char>>,
}

/// The toolbar's buttons: Cancel at the right end, Accept to its left, and
/// the filter text from the left up to Accept.
pub open spec fn picker_layout(b: Rect) -> (Rect, Rect, Rect) {
    let cancel_x = b.x + b.width - PICKER_BUTTON_WIDTH - 8;
    let y = b.y + crate::dialogs::half_room(b.height as int, PICKER_BUTTON_HEIGHT as int);
    let accept_x = cancel_x - PICKER_BUTTON_WIDTH - 12;
    let filter_x = b.x + 8;
    let fw = accept_x - 12 - filter_x;
    (
        Rect { x: accept_x as i32, y: y as i32, width: PICKER_BUTTON_WIDTH, height: PICKER_BUTTON_HEIGHT },
        Rect { x: cancel_x as i32, y: y as i32, width: PICKER_BUTTON_WIDTH, height: PICKER_BUTTON_HEIGHT },
        Rect { x: filter_x as i32, y: b.y, width: (if fw > 0 { fw } else { 0 }) as u32, height: b.height },
    )
}

/// The bounds can be laid out and the focus is on a button.
pub open spec fn picker_bar_ok(s: PickerBarState) -> bool {
    &&& -0x2000_0000 <= s.bounds.x <= 0x2000_0000
    &&& -0x2000_0000 <= s.bounds.y <= 0x2000_0000
    &&& s.bounds.width <= 0x2000_0000
    &&& s.bounds.height <= 0x2000_0000
    &&& 0 <= s.focused <= 1
    &&& (s.accept_bounds, s.cancel_bounds, s.filter_bounds) == picker_layout(s.bounds)
}

/// The picker toolbar with Accept and Cancel buttons.
pub struct PickerToolbar {
    bounds: Rect,
    accept_label: String,
    cancel_label: String,
    accept_bounds: Rect,
    cancel_bounds: Rect,
    filter_bounds: Rect,
    hovered: Option<usize>,
    filter_hovered: bool,
    focused: usize,
    accept_enabled: bool,
    filter_description: Option<String>,
}

impl View for PickerToolbar {
    type V = PickerBarState;

    closed spec fn view(&self) -> PickerBarState {
        PickerBarState {
            bounds: self.bounds,
            accept_label: self.accept_label@,
            cancel_label: self.cancel_label@,
            accept_bounds: self.accept_bounds,
            cancel_bounds: self.cancel_bounds,
            filter_bounds: self.filter_bounds,
            hovered: self.hovered,
            filter_hovered: self.filter_hovered,
            focused: self.focused as int,
            accept_enabled: self.accept_enabled,
            filter_description: match self.filter_description {
                Some(d) => Some(d@),
                None => None,
            },
        }
    }
}

fn picker_layout_exec(b: Rect) -> (res: (Rect, Rect, Rect))
    requires
        -0x2000_0000 <= b.x <= 0x2000_0000,
        -0x2000_0000 <= b.y <= 0x2000_0000,
        b.width <= 0x2000_0000,
        b.height <= 0x2000_0000,
    ensures
        res == picker_layout(b),
{
    let cancel_x: i64 = b.x as i64 + b.width as i64 - PICKER_BUTTON_WIDTH as i64 - 8;
    let d: i64 = b.height as i64 - PICKER_BUTTON_HEIGHT as i64;
    let half: i64 = if d >= 0 {
        d / 2
    } else {
        -((-d) / 2)
    };
    let y: i64 = b.y as i64 + half;
    let accept_x: i64 = cancel_x - PICKER_BUTTON_WIDTH as i64 - 12;
    let filter_x: i64 = b.x as i64 + 8;
    let fw: i64 = accept_x - 12 - filter_x;
    (
        Rect { x: accept_x as i32, y: y as i32, width: PICKER_BUTTON_WIDTH, height: PICKER_BUTTON_HEIGHT },
        Rect { x: cancel_x as i32, y: y as i32, width: PICKER_BUTTON_WIDTH, height: PICKER_BUTTON_HEIGHT },
        Rect {
            x: filter_x as i32,
            y: b.y,
            width: (if fw > 0 {
                fw
            } else {
                0
            }) as u32,
            height: b.height,
        },
    )
}

impl PickerToolbar {
    /// Create a new picker toolbar: Accept disabled and focused, no filter
    /// text.
    pub fn new(bounds: Rect, accept_label: String) -> (res: Self)
        requires
            -0x2000_0000 <= bounds.x <= 0x2000_0000,
            -0x2000_0000 <= bounds.y <= 0x2000_0000,
            bounds.width <= 0x2000_0000,
            bounds.height <= 0x2000_0000,
        ensures
            picker_bar_ok(res@),
            res@.bounds == bounds,
            res@.accept_label == accept_label@,
            res@.cancel_label == "Cancel"@,
            res@.hovered is None,
            !res@.filter_hovered,
            res@.focused == 0,
            !res@.accept_enabled,
            res@.filter_description is None,
    {
        let (a, c, f) = picker_layout_exec(bounds);
        PickerToolbar {
            bounds,
            accept_label,
            cancel_label: copy_string("Cancel"),
            accept_bounds: a,
            cancel_bounds: c,
            filter_bounds: f,
            hovered: None,
            filter_hovered: false,
            focused: 0,
            accept_enabled: false,
            filter_description: None,
        }
    }

    /// Set bounds (the buttons are laid out again).
    pub fn set_bounds(&mut self, bounds: Rect)
        requires
            picker_bar_ok(old(self)@),
            -0x2000_0000 <= bounds.x <= 0x2000_0000,
            -0x2000_0000 <= bounds.y <= 0x2000_0000,
            bounds.width <= 0x2000_0000,
            bounds.height <= 0x2000_0000,
        ensures
            picker_bar_ok(final(self)@),
            final(self)@ == (PickerBarState {
                bounds,
                accept_bounds: picker_layout(bounds).0,
                cancel_bounds: picker_layout(bounds).1,
                filter_bounds: picker_layout(bounds).2,
                ..old(self)@
            }),
    {
        self.bounds = bounds;
        let (a, c, f) = picker_layout_exec(bounds);
        self.accept_bounds = a;
        self.cancel_bounds = c;
        self.filter_bounds = f;
    }

    /// Set whether accept button is enabled.
    pub fn set_accept_enabled(&mut self, enabled: bool)
        requires
            picker_bar_ok(old(self)@),
        ensures
            picker_bar_ok(final(self)@),
            final(self)@ == (PickerBarState { accept_enabled: enabled, ..old(self)@ }),
    {
        self.accept_enabled = enabled;
    }

    /// Set filter description shown in toolbar.
    pub fn set_filter_description(&mut self, desc: Option<String>)
        requires
            picker_bar_ok(old(self)@),
        ensures
            picker_bar_ok(final(self)@),
            final(self)@ == (PickerBarState {
                filter_description: match desc {
                    Some(d) => Some(d@),
                    None => None,
                },
                ..old(self)@
            }),
    {
        self.filter_description = desc;
    }

    /// The rectangles of Accept, Cancel and the filter text.
    pub fn layout_rects(&self) -> (res: (Rect, Rect, Rect))
        ensures
            res == (self@.accept_bounds, self@.cancel_bounds, self@.filter_bounds),
    {
        (self.accept_bounds, self.cancel_bounds, self.filter_bounds)
    }

    /// The labels, the hovered and focused button and whether Accept is
    /// enabled, for drawing.
    pub fn state(&self) -> (res: (&str, &str, Option<usize>, usize, bool))
        ensures
            res.0@ == self@.accept_label,
            res.1@ == self@.cancel_label,
            res.2 == self@.hovered,
            res.3 == self@.focused,
            res.4 == self@.accept_enabled,
    {
        (self.accept_label.as_str(), self.cancel_label.as_str(), self.hovered, self.focused, self.accept_enabled)
    }

    /// The filter description.
    pub fn filter_description(&self) -> (res: Option<&str>)
        ensures
            match (res, self@.filter_description) {
                (Some(a), Some(b)) => a@ == b,
                (None, None) => true,
                _ => false,
            },
    {
        match &self.filter_description {
            Some(d) => Some(d.as_str()),
            None => None,
        }
    }

    /// Handle mouse move: the button under the pointer is hovered (0
    /// Accept, 1 Cancel) and the filter text while a description is there.
    /// Returns whether anything changed.
    pub fn on_mouse_move(&mut self, pos: Point) -> (res: bool)
        requires
            picker_bar_ok(old(self)@),
        ensures
            picker_bar_ok(final(self)@),
            ({
                let s = old(self)@;
                let t = if !inside(s.bounds, pos) {
                    PickerBarState { hovered: None, filter_hovered: false, ..s }
                } else {
                    PickerBarState {
                        hovered: if inside(s.accept_bounds, pos) {
                            Some(0usize)
                        } else if inside(s.cancel_bounds, pos) {
                            Some(1usize)
                        } else {
                            None
                        },
                        filter_hovered: inside(s.filter_bounds, pos) && s.filter_description is Some,
                        ..s
                    }
                };
                &&& final(self)@ == t
                &&& res == (t.hovered != s.hovered || t.filter_hovered != s.filter_hovered)
            }),
    {
        let mut changed = false;
        if !self.bounds.contains_point(pos) {
            if self.hovered.is_some() {
                self.hovered = None;
                changed = true;
            }
            if self.filter_hovered {
                self.filter_hovered = false;
                changed = true;
            }
            return changed;
        }
        let new_hovered = if self.accept_bounds.contains_point(pos) {
            Some(0)
        } else if self.cancel_bounds.contains_point(pos) {
            Some(1)
        } else {
            None
        };
        if new_hovered != self.hovered {
            self.hovered = new_hovered;
            changed = true;
        }
        let new_filter_hovered = self.filter_bounds.contains_point(pos) && self.filter_description.is_some();
        if new_filter_hovered != self.filter_hovered {
            self.filter_hovered = new_filter_hovered;
            changed = true;
        }
        changed
    }

    /// The full filter description while its text is hovered.
    pub fn get_tooltip(&self) -> (res: Option<&str>)
        ensures
            match res {
                Some(t) => self@.filter_hovered && self@.filter_description == Some(t@),
                None => !self@.filter_hovered || self@.filter_description is None,
            },
    {
        if self.filter_hovered {
            match &self.filter_description {
                Some(d) => Some(d.as_str()),
                None => None,
            }
        } else {
            None
        }
    }

    /// Check if filter is currently hovered.
    pub fn is_filter_hovered(&self) -> (res: bool)
        ensures
            res == self@.filter_hovered,
    {
        self.filter_hovered
    }

    /// Handle click: Accept where enabled, Cancel.
    pub fn on_click(&self, pos: Point) -> (res: PickerToolbarClick)
        ensures
            res == if inside(self@.accept_bounds, pos) && self@.accept_enabled {
                PickerToolbarClick::Accept
            } else if inside(self@.cancel_bounds, pos) {
                PickerToolbarClick::Cancel
            } else {
                PickerToolbarClick::Nothing
            },
    {
        if self.accept_bounds.contains_point(pos) && self.accept_enabled {
            PickerToolbarClick::Accept
        } else if self.cancel_bounds.contains_point(pos) {
            PickerToolbarClick::Cancel
        } else {
            PickerToolbarClick::Nothing
        }
    }

    /// Cycle focus between the two buttons.
    pub fn cycle_focus(&mut self)
        requires
            picker_bar_ok(old(self)@),
        ensures
            picker_bar_ok(final(self)@),
            final(self)@ == (PickerBarState { focused: 1 - old(self)@.focused, ..old(self)@ }),
    {
        self.focused = 1 - self.focused;
    }

    /// Activate the focused button (Accept only where enabled).
    pub fn activate_focused(&self) -> (res: PickerToolbarClick)
        ensures
            res == if self@.focused == 0 && self@.accept_enabled {
                PickerToolbarClick::Accept
            } else if self@.focused == 1 {
                PickerToolbarClick::Cancel
            } else {
                PickerToolbarClick::Nothing
            },
    {
        if self.focused == 0 && self.accept_enabled {
            PickerToolbarClick::Accept
        } else if self.focused == 1 {
            PickerToolbarClick::Cancel
        } else {
            PickerToolbarClick::Nothing
        }
    }

    /// Check if point is within toolbar bounds.
    pub fn contains_point(&self, pos: Point) -> (res: bool)
        ensures
            res == inside(self@.bounds, pos),
    {
        self.bounds.contains_point(pos)
    }
}

} // verus!
