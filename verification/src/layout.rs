//! The window's layout: the sidebar on the left; to its right, from the top,
//! the tab bar, the toolbar, the breadcrumb (or address bar), the panes,
//! and at the bottom the status bar (or, when picking files, the picker's
//! toolbar); overlays cover the whole window.
use vstd::prelude::*;
use crate::geometry::Rect;
use crate::status_bar::{PICKER_TOOLBAR_HEIGHT, STATUS_BAR_HEIGHT};
use crate::tab_bar::TAB_BAR_HEIGHT;
use crate::toolbar::TOOLBAR_HEIGHT;

verus! {

/// Height of the breadcrumb bar.
pub const BREADCRUMB_HEIGHT: u32 = 40;

/// Width of the sidebar where it has none of its own yet.
pub const SIDEBAR_WIDTH: u32 = 180;

/// Where everything goes in a window.
#[derive(Debug, Clone, Copy, PartialEq, Eq, Structural)]
pub struct Layout {
    pub sidebar: Rect,
    pub tab_bar: Rect,
    pub toolbar: Rect,
    pub breadcrumb: Rect,
    pub content: Rect,
    /// The status bar, or the picker's toolbar when picking files.
    pub footer: Rect,
    /// The whole window, for dialogs and menus.
    pub window: Rect,
}

/// The height of everything above the panes.
pub open spec fn header_height() -> int {
    TAB_BAR_HEIGHT + TOOLBAR_HEIGHT + BREADCRUMB_HEIGHT
}

/// The height of the bar below the panes.
pub open spec fn footer_height(picker: bool) -> int {
    if picker { PICKER_TOOLBAR_HEIGHT as int } else { STATUS_BAR_HEIGHT as int }
}

/// The layout of a window of this size. The sidebar keeps its width
/// (`sidebar_width`), or the default width while hidden, and the rest of
/// the window starts at its right edge (at the left edge while it is
/// hidden).
pub open spec fn layout_spec(width: u32, height: u32, sidebar_visible: bool, sidebar_width: u32, picker: bool) -> Layout {
    let sw = if sidebar_visible { sidebar_width } else { SIDEBAR_WIDTH };
    let left = if sidebar_visible { sidebar_width } else { 0 };
    let rest = (width - left) as u32;
    Layout {
        sidebar: Rect { x: 0, y: 0, width: sw, height },
        tab_bar: Rect { x: left as i32, y: 0, width: rest, height: TAB_BAR_HEIGHT },
        toolbar: Rect { x: left as i32, y: TAB_BAR_HEIGHT as i32, width: rest, height: TOOLBAR_HEIGHT },
        breadcrumb: Rect {
            x: left as i32,
            y: (TAB_BAR_HEIGHT + TOOLBAR_HEIGHT) as i32,
            width: rest,
            height: BREADCRUMB_HEIGHT,
        },
        content: Rect {
            x: left as i32,
            y: header_height() as i32,
            width: rest,
            height: (height - header_height() - footer_height(picker)) as u32,
        },
        footer: Rect {
            x: left as i32,
            y: (height - footer_height(picker)) as i32,
            width: rest,
            height: footer_height(picker) as u32,
        },
        window: Rect { x: 0, y: 0, width, height },
    }
}

/// Lay out a window of this size (see `layout_spec`). The window must be
/// wide enough for the sidebar and tall enough for the bars.
pub fn compute_layout(width: u32, height: u32, sidebar_visible: bool, sidebar_width: u32, picker: bool) -> (res: Layout)
    requires
        width <= 0x7fff_ffff,
        height <= 0x7fff_ffff,
        sidebar_visible ==> sidebar_width <= width,
        height >= header_height() + footer_height(picker),
    ensures
        res == layout_spec(width, height, sidebar_visible, sidebar_width, picker),
{
    let sw = if sidebar_visible {
        sidebar_width
    } else {
        SIDEBAR_WIDTH
    };
    let left = if sidebar_visible {
        sidebar_width
    } else {
        0
    };
    let rest = width - left;
    let header = TAB_BAR_HEIGHT + TOOLBAR_HEIGHT + BREADCRUMB_HEIGHT;
    let footer = if picker {
        PICKER_TOOLBAR_HEIGHT
    } else {
        STATUS_BAR_HEIGHT
    };
    Layout {
        sidebar: Rect { x: 0, y: 0, width: sw, height },
        tab_bar: Rect { x: left as i32, y: 0, width: rest, height: TAB_BAR_HEIGHT },
        toolbar: Rect { x: left as i32, y: TAB_BAR_HEIGHT as i32, width: rest, height: TOOLBAR_HEIGHT },
        breadcrumb: Rect {
            x: left as i32,
            y: (TAB_BAR_HEIGHT + TOOLBAR_HEIGHT) as i32,
            width: rest,
            height: BREADCRUMB_HEIGHT,
        },
        content: Rect { x: left as i32, y: header as i32, width: rest, height: height - header - footer },
        footer: Rect { x: left as i32, y: (height - footer) as i32, width: rest, height: footer },
        window: Rect { x: 0, y: 0, width, height },
    }
}

/// The bars and the panes stack without gaps from the top of the window to
/// its bottom, and all share the width right of the sidebar.
pub proof fn law_layout_stacks(width: u32, height: u32, sidebar_visible: bool, sidebar_width: u32, picker: bool)
    requires
        width <= 0x7fff_ffff,
        height <= 0x7fff_ffff,
        sidebar_visible ==> sidebar_width <= width,
        height >= header_height() + footer_height(picker),
    ensures
        ({
            let l = layout_spec(width, height, sidebar_visible, sidebar_width, picker);
            &&& l.tab_bar.y == 0
            &&& l.toolbar.y == l.tab_bar.y + l.tab_bar.height
            &&& l.breadcrumb.y == l.toolbar.y + l.toolbar.height
            &&& l.content.y == l.breadcrumb.y + l.breadcrumb.height
            &&& l.footer.y == l.content.y + l.content.height
            &&& l.footer.y + l.footer.height == height
            &&& l.tab_bar.x == l.toolbar.x == l.breadcrumb.x == l.content.x == l.footer.x
            &&& l.content.x + l.content.width == width
        }),
{
}

} // verus!
