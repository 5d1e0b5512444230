//! Pointer input: telling double clicks from single ones, dragging a folder
//! onto the sidebar, and which part of the window a press goes to.
use vstd::prelude::*;
use std::time::Instant;
use crate::drag::instant_now;
use crate::geometry::Point;

verus! {

/// The longest pause, in milliseconds, between the presses of a double click.
pub const DOUBLE_CLICK_MS: u64 = 400;

/// How far apart, in pixels, the presses of a double click on a file may be.
pub const CLICK_RADIUS: i64 = 5;

/// How far apart, in pixels, the presses of a double click on a pane divider
/// may be.
pub const DIVIDER_CLICK_RADIUS: i64 = 10;

/// How far, in pixels, a pressed folder must be dragged before the drag
/// shows.
pub const LABEL_DRAG_THRESHOLD: i64 = 5;

/// `Instant::duration_since` in whole milliseconds: the time from `earlier`
/// to `later`, 0 where `later` is not later. It depends on the clock, so
/// nothing is claimed of it.
#[verifier::external_body]
fn millis_between(earlier: &Instant, later: &Instant) -> u128 {
    later.duration_since(*earlier).as_millis()
}

/// The square of the distance between two points.
pub open spec fn distance_squared(a: Point, b: Point) -> int {
    let dx = b.x - a.x;
    let dy = b.y - a.y;
    dx * dx + dy * dy
}

fn distance_squared_exec(a: Point, b: Point) -> (res: i128)
    ensures
        res == distance_squared(a, b),
{
    let dx: i128 = b.x as i128 - a.x as i128;
    let dy: i128 = b.y as i128 - a.y as i128;
    assert(dx * dx <= 0x1_0000_0000 * 0x1_0000_0000) by (nonlinear_arith)
        requires
            -0x1_0000_0000 <= dx <= 0x1_0000_0000,
    ;
    assert(dy * dy <= 0x1_0000_0000 * 0x1_0000_0000) by (nonlinear_arith)
        requires
            -0x1_0000_0000 <= dy <= 0x1_0000_0000,
    ;
    assert(dx * dx >= 0) by (nonlinear_arith);
    assert(dy * dy >= 0) by (nonlinear_arith);
    dx * dx + dy * dy
}

/// A press is the second of a double click: it comes less than 400 ms after
/// the first, at a distance below `radius` (the distance compared as its
/// square, which for whole pixel distances decides the same).
pub open spec fn double_click(elapsed_ms: int, last: Point, pos: Point, radius: int) -> bool {
    elapsed_ms < DOUBLE_CLICK_MS && distance_squared(last, pos) < radius * radius
}

/// Whether a press `elapsed_ms` after the last one, at `pos`, completes a
/// double click.
pub fn is_double_click(elapsed_ms: u128, last: Point, pos: Point, radius: i64) -> (res: bool)
    requires
        0 <= radius <= 0x1000,
    ensures
        res == double_click(elapsed_ms as int, last, pos, radius as int),
{
    let r: i128 = radius as i128;
    assert(r * r <= 0x1000 * 0x1000) by (nonlinear_arith)
        requires
            0 <= r <= 0x1000,
    ;
    elapsed_ms < DOUBLE_CLICK_MS as u128 && distance_squared_exec(last, pos) < r * r
}

/// The last press, for telling double clicks apart.
pub struct ClickTracker {
    last: Option<(Instant, Point)>,
}

impl ClickTracker {
    /// Where the last press that may start a double click was.
    pub closed spec fn last_pos(&self) -> Option<Point> {
        match self.last {
            Some((_, p)) => Some(p),
            None => None,
        }
    }

    /// No press yet.
    pub fn new() -> (res: Self)
        ensures
            res.last_pos() is None,
    {
        ClickTracker { last: None }
    }

    /// Records a press at `pos` and tells whether it completes a double
    /// click with the last press (within `radius` pixels and 400 ms). A
    /// double click is forgotten at once, so that a third press starts anew;
    /// any other press is remembered. Whether the time was short enough
    /// depends on the clock.
    pub fn press(&mut self, pos: Point, radius: i64) -> (res: bool)
        requires
            0 <= radius <= 0x1000,
        ensures
            res ==> (old(self).last_pos() matches Some(p) && exists|ms: int| 0 <= ms && #[trigger] double_click(ms, p, pos, radius as int)),
            old(self).last_pos() is None ==> !res,
            res ==> final(self).last_pos() is None,
            !res ==> final(self).last_pos() == Some(pos),
            (old(self).last_pos() matches Some(p) && distance_squared(p, pos) >= radius * radius) ==> !res,
    {
        let now = instant_now();
        let ghost mut waited: int = 0;
        let dbl = match &self.last {
            Some((t, p)) => {
                let ms = millis_between(t, &now);
                proof {
                    waited = ms as int;
                }
                is_double_click(ms, *p, pos, radius)
            },
            None => false,
        };
        proof {
            if dbl {
                assert(double_click(waited, self.last_pos()->0, pos, radius as int));
            }
        }
        if dbl {
            self.last = None;
        } else {
            self.last = Some((now, pos));
        }
        dbl
    }

    /// Forgets the last press.
    pub fn clear(&mut self)
        ensures
            final(self).last_pos() is None,
    {
        self.last = None;
    }
}

/// A folder pressed in the file view, which may be dragged onto the sidebar
/// to bookmark it.
#[derive(Debug)]
pub struct LabelDrag {
    /// The folder's path.
    pub path: String,
    /// The folder's name, shown next to the pointer.
    pub label: String,
    /// Where it was pressed.
    pub start: Point,
    /// Where the pointer is.
    pub current: Point,
    /// The pointer has moved far enough for the drag to show.
    pub active: bool,
}

/// The pointer has moved more than the threshold from the press.
pub open spec fn moved_beyond(start: Point, pos: Point) -> bool {
    distance_squared(start, pos) > LABEL_DRAG_THRESHOLD * LABEL_DRAG_THRESHOLD
}

impl LabelDrag {
    /// A press on a folder: not dragging yet.
    pub fn start(path: String, label: String, pos: Point) -> (res: Self)
        ensures
            res.path == path,
            res.label == label,
            res.start == pos,
            res.current == pos,
            !res.active,
    {
        LabelDrag { path, label, start: pos, current: pos, active: false }
    }

    /// The pointer moved to `pos`: the drag shows once the pointer has moved
    /// more than five pixels from the press, and then stays shown.
    pub fn move_to(&mut self, pos: Point)
        ensures
            final(self).current == pos,
            final(self).active == (old(self).active || moved_beyond(old(self).start, pos)),
            final(self).start == old(self).start,
            final(self).path == old(self).path,
            final(self).label == old(self).label,
    {
        self.current = pos;
        if distance_squared_exec(self.start, pos) > (LABEL_DRAG_THRESHOLD * LABEL_DRAG_THRESHOLD) as i128 {
            self.active = true;
        }
    }
}

/// The sidebar's width while its edge is dragged to `pointer_x`: the
/// distance from its left edge, not below 0.
pub fn sidebar_width_for(pointer_x: i32, sidebar_x: i32) -> (res: u32)
    ensures
        res == if pointer_x - sidebar_x > 0 { pointer_x - sidebar_x } else { 0 },
{
    let d: i64 = pointer_x as i64 - sidebar_x as i64;
    if d > 0 {
        d as u32
    } else {
        0
    }
}

/// A mouse button.
#[derive(Debug, Clone, Copy, PartialEq, Eq, Structural)]
pub enum MouseButton {
    Left,
    Middle,
    Right,
}

/// The parts of the window that may take a press, in the order in which
/// they are asked.
#[derive(Debug, Clone, Copy, PartialEq, Eq, Structural)]
pub enum PressStage {
    ProgressDialog,
    ConfirmDialog,
    ConflictDialog,
    InputDialog,
    AppPicker,
    HelpModal,
    ContextMenu,
    OpenContextMenu,
    CloseTabUnderPointer,
    TabBar,
    PickerToolbar,
    Toolbar,
    PaneToolbar,
    Sidebar,
    BackButton,
    ForwardButton,
    Breadcrumb,
    SidebarResize,
    Divider,
    ColumnResize,
    Content,
}

/// The state that decides which parts may take a press.
#[derive(Debug, Clone, Copy, PartialEq, Eq, Structural)]
pub struct PressContext {
    pub progress_visible: bool,
    pub confirm_visible: bool,
    pub conflict_visible: bool,
    pub input_visible: bool,
    pub app_picker_visible: bool,
    pub help_visible: bool,
    pub context_menu_visible: bool,
    /// The window runs as a file picker (its toolbar replaces the usual one).
    pub picker: bool,
}

/// The place of a stage in the order.
pub open spec fn stage_rank(s: PressStage) -> int {
    match s {
        PressStage::ProgressDialog => 0,
        PressStage::ConfirmDialog => 1,
        PressStage::ConflictDialog => 2,
        PressStage::InputDialog => 3,
        PressStage::AppPicker => 4,
        PressStage::HelpModal => 5,
        PressStage::ContextMenu => 6,
        PressStage::OpenContextMenu => 7,
        PressStage::CloseTabUnderPointer => 8,
        PressStage::TabBar => 9,
        PressStage::PickerToolbar => 10,
        PressStage::Toolbar => 11,
        PressStage::PaneToolbar => 12,
        PressStage::Sidebar => 13,
        PressStage::BackButton => 14,
        PressStage::ForwardButton => 15,
        PressStage::Breadcrumb => 16,
        PressStage::SidebarResize => 17,
        PressStage::Divider => 18,
        PressStage::ColumnResize => 19,
        PressStage::Content => 20,
    }
}

/// The stage of a given place in the order (the last one past the end).
pub open spec fn stage_at(r: int) -> PressStage {
    if r <= 0 {
        PressStage::ProgressDialog
    } else if r == 1 {
        PressStage::ConfirmDialog
    } else if r == 2 {
        PressStage::ConflictDialog
    } else if r == 3 {
        PressStage::InputDialog
    } else if r == 4 {
        PressStage::AppPicker
    } else if r == 5 {
        PressStage::HelpModal
    } else if r == 6 {
        PressStage::ContextMenu
    } else if r == 7 {
        PressStage::OpenContextMenu
    } else if r == 8 {
        PressStage::CloseTabUnderPointer
    } else if r == 9 {
        PressStage::TabBar
    } else if r == 10 {
        PressStage::PickerToolbar
    } else if r == 11 {
        PressStage::Toolbar
    } else if r == 12 {
        PressStage::PaneToolbar
    } else if r == 13 {
        PressStage::Sidebar
    } else if r == 14 {
        PressStage::BackButton
    } else if r == 15 {
        PressStage::ForwardButton
    } else if r == 16 {
        PressStage::Breadcrumb
    } else if r == 17 {
        PressStage::SidebarResize
    } else if r == 18 {
        PressStage::Divider
    } else if r == 19 {
        PressStage::ColumnResize
    } else {
        PressStage::Content
    }
}

/// The stage may take a press in this state: an overlay only while shown,
/// the context menu opens on the right button, the tab under the pointer
/// closes on the middle button, the tab bar takes the left button (or a
/// press without a button), the picker's toolbar replaces the usual one in
/// picker mode; the other parts are always asked.
pub open spec fn stage_open(ctx: PressContext, button: Option<MouseButton>, s: PressStage) -> bool {
    match s {
        PressStage::ProgressDialog => ctx.progress_visible,
        PressStage::ConfirmDialog => ctx.confirm_visible,
        PressStage::ConflictDialog => ctx.conflict_visible,
        PressStage::InputDialog => ctx.input_visible,
        PressStage::AppPicker => ctx.app_picker_visible,
        PressStage::HelpModal => ctx.help_visible,
        PressStage::ContextMenu => ctx.context_menu_visible,
        PressStage::OpenContextMenu => button == Some(MouseButton::Right),
        PressStage::CloseTabUnderPointer => button == Some(MouseButton::Middle),
        PressStage::TabBar => button == Some(MouseButton::Left) || button is None,
        PressStage::PickerToolbar => ctx.picker,
        PressStage::Toolbar => !ctx.picker,
        _ => true,
    }
}

/// The stages whose part takes every press it is asked about.
pub open spec fn takes_all(s: PressStage) -> bool {
    stage_rank(s) <= stage_rank(PressStage::OpenContextMenu)
}

/// The first stage from place `r` on that may take the press.
pub open spec fn first_open(ctx: PressContext, button: Option<MouseButton>, r: int) -> PressStage
    decreases 20 - r,
{
    if r >= 20 || stage_open(ctx, button, stage_at(r)) {
        stage_at(r)
    } else {
        first_open(ctx, button, r + 1)
    }
}

fn stage_of(r: u8) -> (res: PressStage)
    ensures
        res == stage_at(r as int),
{
    match r {
        0 => PressStage::ProgressDialog,
        1 => PressStage::ConfirmDialog,
        2 => PressStage::ConflictDialog,
        3 => PressStage::InputDialog,
        4 => PressStage::AppPicker,
        5 => PressStage::HelpModal,
        6 => PressStage::ContextMenu,
        7 => PressStage::OpenContextMenu,
        8 => PressStage::CloseTabUnderPointer,
        9 => PressStage::TabBar,
        10 => PressStage::PickerToolbar,
        11 => PressStage::Toolbar,
        12 => PressStage::PaneToolbar,
        13 => PressStage::Sidebar,
        14 => PressStage::BackButton,
        15 => PressStage::ForwardButton,
        16 => PressStage::Breadcrumb,
        17 => PressStage::SidebarResize,
        18 => PressStage::Divider,
        19 => PressStage::ColumnResize,
        _ => PressStage::Content,
    }
}

fn rank_of(s: PressStage) -> (res: u8)
    ensures
        res == stage_rank(s),
{
    match s {
        PressStage::ProgressDialog => 0,
        PressStage::ConfirmDialog => 1,
        PressStage::ConflictDialog => 2,
        PressStage::InputDialog => 3,
        PressStage::AppPicker => 4,
        PressStage::HelpModal => 5,
        PressStage::ContextMenu => 6,
        PressStage::OpenContextMenu => 7,
        PressStage::CloseTabUnderPointer => 8,
        PressStage::TabBar => 9,
        PressStage::PickerToolbar => 10,
        PressStage::Toolbar => 11,
        PressStage::PaneToolbar => 12,
        PressStage::Sidebar => 13,
        PressStage::BackButton => 14,
        PressStage::ForwardButton => 15,
        PressStage::Breadcrumb => 16,
        PressStage::SidebarResize => 17,
        PressStage::Divider => 18,
        PressStage::ColumnResize => 19,
        PressStage::Content => 20,
    }
}

fn is_open(ctx: &PressContext, button: Option<MouseButton>, s: PressStage) -> (res: bool)
    ensures
        res == stage_open(*ctx, button, s),
{
    match s {
        PressStage::ProgressDialog => ctx.progress_visible,
        PressStage::ConfirmDialog => ctx.confirm_visible,
        PressStage::ConflictDialog => ctx.conflict_visible,
        PressStage::InputDialog => ctx.input_visible,
        PressStage::AppPicker => ctx.app_picker_visible,
        PressStage::HelpModal => ctx.help_visible,
        PressStage::ContextMenu => ctx.context_menu_visible,
        PressStage::OpenContextMenu => button == Some(MouseButton::Right),
        PressStage::CloseTabUnderPointer => button == Some(MouseButton::Middle),
        PressStage::TabBar => button == Some(MouseButton::Left) || button.is_none(),
        PressStage::PickerToolbar => ctx.picker,
        PressStage::Toolbar => !ctx.picker,
        _ => true,
    }
}

/// The part of the window to ask about a press, starting at `from` (the
/// first stage for a new press; the stage after the last one asked where
/// that part did not take it). The overlays take every press while shown.
pub fn route_press(ctx: &PressContext, button: Option<MouseButton>, from: PressStage) -> (res: PressStage)
    ensures
        res == first_open(*ctx, button, stage_rank(from)),
{
    let mut r: u8 = rank_of(from);
    while r < 20 && !is_open(ctx, button, stage_of(r))
        invariant
            r <= 20,
            first_open(*ctx, button, stage_rank(from)) == first_open(*ctx, button, r as int),
        decreases 20 - r,
    {
        r = r + 1;
    }
    stage_of(r)
}

/// The stage after the given one.
pub fn next_stage(s: PressStage) -> (res: PressStage)
    ensures
        res == stage_at(stage_rank(s) + 1),
{
    let r = rank_of(s);
    if r >= 20 {
        PressStage::Content
    } else {
        stage_of(r + 1)
    }
}

/// A new press goes to the first overlay shown, if any: the progress dialog
/// above the other dialogs, the dialogs above the pickers, help and menus.
pub proof fn law_overlay_takes_press(ctx: PressContext, button: Option<MouseButton>)
    requires
        ctx.progress_visible || ctx.confirm_visible || ctx.conflict_visible || ctx.input_visible
            || ctx.app_picker_visible || ctx.help_visible || ctx.context_menu_visible,
    ensures
        takes_all(first_open(ctx, button, 0)),
        stage_rank(first_open(ctx, button, 0)) <= stage_rank(PressStage::ContextMenu),
        ctx.progress_visible ==> first_open(ctx, button, 0) == PressStage::ProgressDialog,
{
    reveal_with_fuel(first_open, 8);
}

/// With no overlay shown, a right click opens the context menu.
pub proof fn law_right_click_opens_menu(ctx: PressContext)
    requires
        !(ctx.progress_visible || ctx.confirm_visible || ctx.conflict_visible || ctx.input_visible
            || ctx.app_picker_visible || ctx.help_visible || ctx.context_menu_visible),
    ensures
        first_open(ctx, Some(MouseButton::Right), 0) == PressStage::OpenContextMenu,
{
    reveal_with_fuel(first_open, 9);
}

} // verus!
