//! The toolbar: a row of icon buttons in groups (navigation, view mode,
//! tabs and panes, file operations) with help at the right end.
use vstd::prelude::*;
use crate::dialogs::half_room;
use crate::geometry::{inside, Point, Rect};
use crate::views::ToolbarAction;

verus! {

/// Height of the toolbar.
pub const TOOLBAR_HEIGHT: u32 = 36;

/// Size of toolbar buttons.
pub const BUTTON_SIZE: u32 = 28;

/// Padding between buttons.
pub const BUTTON_PADDING: u32 = 4;

/// Button groups separator width.
pub const GROUP_SEPARATOR: u32 = 12;

/// The number of buttons.
pub const BUTTON_COUNT: usize = 15;

/// The action of button `k`, from the left.
pub open spec fn button_action(k: int) -> ToolbarAction {
    if k == 0 {
        ToolbarAction::GoBack
    } else if k == 1 {
        ToolbarAction::GoForward
    } else if k == 2 {
        ToolbarAction::GoUp
    } else if k == 3 {
        ToolbarAction::ViewList
    } else if k == 4 {
        ToolbarAction::ViewGrid
    } else if k == 5 {
        ToolbarAction::ViewColumns
    } else if k == 6 {
        ToolbarAction::NewTab
    } else if k == 7 {
        ToolbarAction::SplitHorizontal
    } else if k == 8 {
        ToolbarAction::SplitVertical
    } else if k == 9 {
        ToolbarAction::Copy
    } else if k == 10 {
        ToolbarAction::Cut
    } else if k == 11 {
        ToolbarAction::Paste
    } else if k == 12 {
        ToolbarAction::Trash
    } else if k == 13 {
        ToolbarAction::NewFolder
    } else {
        ToolbarAction::Help
    }
}

/// The tooltip of button `k`.
pub open spec fn button_tooltip(k: int) -> Seq<char> {
    if k == 0 {
        "Go Back (Alt+Left)"@
    } else if k == 1 {
        "Go Forward (Alt+Right)"@
    } else if k == 2 {
        "Go Up (Backspace)"@
    } else if k == 3 {
        "List View (Ctrl+1)"@
    } else if k == 4 {
        "Grid View (Ctrl+2)"@
    } else if k == 5 {
        "Column View (Ctrl+3)"@
    } else if k == 6 {
        "New Tab (Ctrl+T)"@
    } else if k == 7 {
        "Split Horizontal (Ctrl+Shift+H)"@
    } else if k == 8 {
        "Split Vertical (Ctrl+Shift+V)"@
    } else if k == 9 {
        "Copy (Ctrl+C)"@
    } else if k == 10 {
        "Cut (Ctrl+X)"@
    } else if k == 11 {
        "Paste (Ctrl+V)"@
    } else if k == 12 {
        "Delete (Del)"@
    } else if k == 13 {
        "New Folder (Ctrl+Shift+N)"@
    } else {
        "Help (F1)"@
    }
}

/// The left edge of button `k`: the groups of three, three, three and
/// five buttons from the left, each button and padding after the other and
/// a separator between groups; help at the right end.
pub open spec fn button_x(b: Rect, k: int) -> int {
    let x0 = b.x + BUTTON_PADDING;
    let step = BUTTON_SIZE + BUTTON_PADDING;
    if k < 3 {
        x0 + step * k
    } else if k < 6 {
        x0 + step * 3 + GROUP_SEPARATOR + step * (k - 3)
    } else if k < 9 {
        x0 + step * 6 + 2 * GROUP_SEPARATOR + step * (k - 6)
    } else if k < 14 {
        x0 + step * 9 + 3 * GROUP_SEPARATOR + step * (k - 9)
    } else {
        b.x + b.width - BUTTON_SIZE - BUTTON_PADDING
    }
}

/// Where button `k` is: vertically centered in the toolbar.
pub open spec fn button_rect(b: Rect, k: int) -> Rect {
    Rect {
        x: button_x(b, k) as i32,
        y: (b.y + half_room(b.height as int, BUTTON_SIZE as int)) as i32,
        width: BUTTON_SIZE,
        height: BUTTON_SIZE,
    }
}

/// The first button under the point.
pub open spec fn button_hit(b: Rect, p: Point, k: int) -> Option<usize>
    decreases 15 - k,
{
    if k < 0 || k >= 15 {
        None
    } else if inside(button_rect(b, k), p) {
        Some(k as usize)
    } else {
        button_hit(b, p, k + 1)
    }
}

/// Whether the button's action can run: going back or forward needs
/// history that way, copying, cutting and trashing need a selection,
/// pasting needs something on the clipboard.
pub open spec fn enabled(a: ToolbarAction, back: bool, forward: bool, selection: bool, clipboard: bool) -> bool {
    match a {
        ToolbarAction::GoBack => back,
        ToolbarAction::GoForward => forward,
        ToolbarAction::Copy | ToolbarAction::Cut | ToolbarAction::Trash => selection,
        ToolbarAction::Paste => clipboard,
        _ => true,
    }
}

/// The toolbar's bounds keep its buttons inside `i32`.
pub open spec fn toolbar_ok(b: Rect) -> bool {
    -0x2000_0000 <= b.x <= 0x2000_0000 && -0x2000_0000 <= b.y <= 0x2000_0000 && b.width <= 0x2000_0000
        && b.height <= 0x2000_0000
}

/// A toolbar button.
#[derive(Debug)]
pub struct ToolbarButton {
    pub action: ToolbarAction,
    pub bounds: Rect,
    pub tooltip: &'static str,
}

/// The toolbar.
pub struct Toolbar {
    bounds: Rect,
    buttons: Vec<ToolbarButton>,
    hovered: Option<usize>,
    active_view: ToolbarAction,
    can_go_back: bool,
    can_go_forward: bool,
    has_selection: bool,
    has_clipboard: bool,
}

fn button_at_slot(b: Rect, k: usize) -> (res: ToolbarButton)
    requires
        toolbar_ok(b),
        k < 15,
    ensures
        res.action == button_action(k as int),
        res.bounds == button_rect(b, k as int),
        res.tooltip@ == button_tooltip(k as int),
{
    let x0: i64 = b.x as i64 + BUTTON_PADDING as i64;
    let step: i64 = (BUTTON_SIZE + BUTTON_PADDING) as i64;
    let kk = k as i64;
    let x: i64 = if k < 3 {
        x0 + step * kk
    } else if k < 6 {
        x0 + step * 3 + GROUP_SEPARATOR as i64 + step * (kk - 3)
    } else if k < 9 {
        x0 + step * 6 + 2 * GROUP_SEPARATOR as i64 + step * (kk - 6)
    } else if k < 14 {
        x0 + step * 9 + 3 * GROUP_SEPARATOR as i64 + step * (kk - 9)
    } else {
        b.x as i64 + b.width as i64 - BUTTON_SIZE as i64 - BUTTON_PADDING as i64
    };
    let d: i64 = b.height as i64 - BUTTON_SIZE as i64;
    let half: i64 = if d >= 0 {
        d / 2
    } else {
        -((-d) / 2)
    };
    let y: i64 = b.y as i64 + half;
    let (action, tooltip) = if k == 0 {
        (ToolbarAction::GoBack, "Go Back (Alt+Left)")
    } else if k == 1 {
        (ToolbarAction::GoForward, "Go Forward (Alt+Right)")
    } else if k == 2 {
        (ToolbarAction::GoUp, "Go Up (Backspace)")
    } else if k == 3 {
        (ToolbarAction::ViewList, "List View (Ctrl+1)")
    } else if k == 4 {
        (ToolbarAction::ViewGrid, "Grid View (Ctrl+2)")
    } else if k == 5 {
        (ToolbarAction::ViewColumns, "Column View (Ctrl+3)")
    } else if k == 6 {
        (ToolbarAction::NewTab, "New Tab (Ctrl+T)")
    } else if k == 7 {
        (ToolbarAction::SplitHorizontal, "Split Horizontal (Ctrl+Shift+H)")
    } else if k == 8 {
        (ToolbarAction::SplitVertical, "Split Vertical (Ctrl+Shift+V)")
    } else if k == 9 {
        (ToolbarAction::Copy, "Copy (Ctrl+C)")
    } else if k == 10 {
        (ToolbarAction::Cut, "Cut (Ctrl+X)")
    } else if k == 11 {
        (ToolbarAction::Paste, "Paste (Ctrl+V)")
    } else if k == 12 {
        (ToolbarAction::Trash, "Delete (Del)")
    } else if k == 13 {
        (ToolbarAction::NewFolder, "New Folder (Ctrl+Shift+N)")
    } else {
        (ToolbarAction::Help, "Help (F1)")
    };
    ToolbarButton { action, bounds: Rect { x: x as i32, y: y as i32, width: BUTTON_SIZE, height: BUTTON_SIZE }, tooltip }
}

/// The buttons laid out in a toolbar at `b`.
fn layout_buttons(b: Rect) -> (res: Vec<ToolbarButton>)
    requires
        toolbar_ok(b),
    ensures
        res@.len() == 15,
        forall|k: int|
            0 <= k < 15 ==> (#[trigger] res@[k]).action == button_action(k) && res@[k].bounds == button_rect(b, k)
                && res@[k].tooltip@ == button_tooltip(k),
{
    let mut v: Vec<ToolbarButton> = Vec::new();
    let mut k: usize = 0;
    while k < BUTTON_COUNT
        invariant
            toolbar_ok(b),
            k <= 15,
            v@.len() == k,
            forall|j: int|
                0 <= j < k ==> (#[trigger] v@[j]).action == button_action(j) && v@[j].bounds == button_rect(b, j)
                    && v@[j].tooltip@ == button_tooltip(j),
        decreases 15 - k,
    {
        v.push(button_at_slot(b, k));
        k = k + 1;
    }
    v
}

impl Toolbar {
    /// The toolbar's bounds.
    pub closed spec fn area(&self) -> Rect {
        self.bounds
    }

    /// The buttons, in their order.
    pub closed spec fn buttons_spec(&self) -> Seq<ToolbarButton> {
        self.buttons@
    }

    /// The hovered button.
    pub closed spec fn hover(&self) -> Option<usize> {
        self.hovered
    }

    /// The view mode button shown as active.
    pub closed spec fn view_action(&self) -> ToolbarAction {
        self.active_view
    }

    /// Whether back, forward, the selection and the clipboard are there.
    pub closed spec fn flags(&self) -> (bool, bool, bool, bool) {
        (self.can_go_back, self.can_go_forward, self.has_selection, self.has_clipboard)
    }

    /// The buttons are laid out for the bounds.
    pub closed spec fn wf(&self) -> bool {
        &&& toolbar_ok(self.bounds)
        &&& self.buttons@.len() == 15
        &&& (self.hovered matches Some(i) ==> i < 15)
        &&& forall|k: int|
            0 <= k < 15 ==> (#[trigger] self.buttons@[k]).action == button_action(k) && self.buttons@[k].bounds
                == button_rect(self.bounds, k) && self.buttons@[k].tooltip@ == button_tooltip(k)
    }

    /// Create a new toolbar, list view active, nothing enabled that needs
    /// history, a selection or the clipboard.
    pub fn new(bounds: Rect) -> (res: Self)
        requires
            toolbar_ok(bounds),
        ensures
            res.wf(),
            res.area() == bounds,
            res.hover() is None,
            res.view_action() == ToolbarAction::ViewList,
            res.flags() == (false, false, false, false),
    {
        Toolbar {
            bounds,
            buttons: layout_buttons(bounds),
            hovered: None,
            active_view: ToolbarAction::ViewList,
            can_go_back: false,
            can_go_forward: false,
            has_selection: false,
            has_clipboard: false,
        }
    }

    /// Set bounds (the buttons are laid out again).
    pub fn set_bounds(&mut self, bounds: Rect)
        requires
            old(self).wf(),
            toolbar_ok(bounds),
        ensures
            final(self).wf(),
            final(self).area() == bounds,
            final(self).hover() == old(self).hover(),
            final(self).view_action() == old(self).view_action(),
            final(self).flags() == old(self).flags(),
    {
        self.bounds = bounds;
        self.buttons = layout_buttons(bounds);
    }

    /// Set the active view mode button.
    pub fn set_active_view(&mut self, action: ToolbarAction)
        requires
            old(self).wf(),
        ensures
            final(self).wf(),
            final(self).view_action() == action,
            final(self).area() == old(self).area(),
            final(self).hover() == old(self).hover(),
            final(self).flags() == old(self).flags(),
    {
        self.active_view = action;
    }

    /// Set whether going back and forward is possible.
    pub fn set_nav_state(&mut self, can_back: bool, can_forward: bool)
        requires
            old(self).wf(),
        ensures
            final(self).wf(),
            final(self).flags() == (can_back, can_forward, old(self).flags().2, old(self).flags().3),
            final(self).area() == old(self).area(),
            final(self).hover() == old(self).hover(),
            final(self).view_action() == old(self).view_action(),
    {
        self.can_go_back = can_back;
        self.can_go_forward = can_forward;
    }

    /// Set whether there is a selection and something on the clipboard.
    pub fn set_file_ops_state(&mut self, has_selection: bool, has_clipboard: bool)
        requires
            old(self).wf(),
        ensures
            final(self).wf(),
            final(self).flags() == (old(self).flags().0, old(self).flags().1, has_selection, has_clipboard),
            final(self).area() == old(self).area(),
            final(self).hover() == old(self).hover(),
            final(self).view_action() == old(self).view_action(),
    {
        self.has_selection = has_selection;
        self.has_clipboard = has_clipboard;
    }

    /// The buttons, for drawing.
    pub fn buttons(&self) -> (res: &Vec<ToolbarButton>)
        ensures
            res@ == self.buttons_spec(),
    {
        &self.buttons
    }

    /// The state the buttons are drawn in: the active view, the hovered
    /// button, and whether back, forward, the selection and the clipboard
    /// are there.
    pub fn state(&self) -> (res: (ToolbarAction, Option<usize>, (bool, bool, bool, bool)))
        ensures
            res == (self.view_action(), self.hover(), self.flags()),
    {
        (self.active_view, self.hovered, (self.can_go_back, self.can_go_forward, self.has_selection, self.has_clipboard))
    }

    fn hit(&self, pos: Point) -> (res: Option<usize>)
        requires
            self.wf(),
        ensures
            res == button_hit(self.area(), pos, 0),
            res matches Some(k) ==> k < 15,
    {
        let mut k: usize = 0;
        while k < self.buttons.len()
            invariant
                self.wf(),
                k <= 15,
                button_hit(self.area(), pos, 0) == button_hit(self.area(), pos, k as int),
            decreases 15 - k,
        {
            if self.buttons[k].bounds.contains_point(pos) {
                return Some(k);
            }
            k = k + 1;
        }
        None
    }

    /// Handle mouse move: the button under the pointer is hovered.
    pub fn on_mouse_move(&mut self, pos: Point)
        requires
            old(self).wf(),
        ensures
            final(self).wf(),
            final(self).hover() == button_hit(old(self).area(), pos, 0),
            final(self).area() == old(self).area(),
            final(self).view_action() == old(self).view_action(),
            final(self).flags() == old(self).flags(),
    {
        self.hovered = self.hit(pos);
    }

    /// Clear hover state.
    pub fn clear_hover(&mut self)
        requires
            old(self).wf(),
        ensures
            final(self).wf(),
            final(self).hover() is None,
            final(self).area() == old(self).area(),
            final(self).view_action() == old(self).view_action(),
            final(self).flags() == old(self).flags(),
    {
        self.hovered = None;
    }

    /// Handle click: the action of the button clicked, where it is enabled.
    pub fn on_click(&self, pos: Point) -> (res: Option<ToolbarAction>)
        requires
            self.wf(),
        ensures
            res == match button_hit(self.area(), pos, 0) {
                Some(k) => if enabled(
                    button_action(k as int),
                    self.flags().0,
                    self.flags().1,
                    self.flags().2,
                    self.flags().3,
                ) {
                    Some(button_action(k as int))
                } else {
                    None
                },
                None => None,
            },
    {
        match self.hit(pos) {
            Some(k) => {
                let a = self.buttons[k].action;
                let ok = match a {
                    ToolbarAction::GoBack => self.can_go_back,
                    ToolbarAction::GoForward => self.can_go_forward,
                    ToolbarAction::Copy | ToolbarAction::Cut | ToolbarAction::Trash => self.has_selection,
                    ToolbarAction::Paste => self.has_clipboard,
                    _ => true,
                };
                if ok {
                    Some(a)
                } else {
                    None
                }
            },
            None => None,
        }
    }

    /// Check if point is within toolbar bounds.
    pub fn contains(&self, pos: Point) -> (res: bool)
        ensures
            res == inside(self.area(), pos),
    {
        self.bounds.contains_point(pos)
    }

    /// The hovered button's tooltip.
    pub fn hovered_tooltip(&self) -> (res: Option<&'static str>)
        requires
            self.wf(),
        ensures
            match self.hover() {
                Some(i) => res matches Some(t) && t@ == button_tooltip(i as int),
                None => res is None,
            },
    {
        match self.hovered {
            Some(i) => Some(self.buttons[i].tooltip),
            None => None,
        }
    }
}

} // verus!
