//! The right-click menu: which items it offers in each context, where it
//! opens, and how the pointer and the keyboard move through it and its
//! submenus.
use vstd::prelude::*;
use crate::drag::{instant_now, millis_since};
use crate::geometry::{inside, Point, Rect};
use crate::keys::Key;
use crate::menu::{
    item_height, items_height, law_focus_there_and_back, move_focus, moved_focus, ContextMenuAction, ContextType, MenuItem,
    ITEM_HEIGHT, MENU_PADDING, MIN_MENU_WIDTH,
};
use crate::text::{copy_string, decimal, push_decimal, push_str};
use std::time::Instant;

verus! {

/// The item is an action with this label, action, shortcut hint and state.
pub open spec fn is_entry(
    item: MenuItem,
    label: Seq<char>,
    action: ContextMenuAction,
    shortcut: Option<Seq<char>>,
    enabled: bool,
) -> bool {
    &&& item matches MenuItem::Action { label: l, action: a, shortcut: s, enabled: e }
    &&& l@ == label
    &&& a == action
    &&& e == enabled
    &&& match shortcut {
        Some(k) => s matches Some(t) && t@ == k,
        None => s is None,
    }
}

/// The item is an enabled action without shortcut that opens the selection
/// with `command`.
pub open spec fn is_open_with(item: MenuItem, label: Seq<char>, command: Seq<char>) -> bool {
    &&& item matches MenuItem::Action {
        label: l,
        action: ContextMenuAction::OpenWith(c),
        shortcut: None,
        enabled: true,
    }
    &&& l@ == label
    &&& c@ == command
}

/// The item is a submenu with this label.
pub open spec fn is_submenu_labelled(item: MenuItem, label: Seq<char>) -> bool {
    item matches MenuItem::Submenu { label: l, .. } && l@ == label
}

/// The items of a submenu (none for other items).
pub open spec fn children(item: MenuItem) -> Seq<MenuItem> {
    match item {
        MenuItem::Submenu { items, .. } => items@,
        _ => Seq::empty(),
    }
}

/// The "Open With" submenu: the default application, a text editor, a
/// separator, and another application to be named.
pub open spec fn open_with_menu(items: Seq<MenuItem>) -> bool {
    &&& items.len() == 4
    &&& is_open_with(items[0], "Default Application"@, "xdg-open"@)
    &&& is_open_with(items[1], "Text Editor"@, "$EDITOR"@)
    &&& items[2] is Separator
    &&& is_open_with(items[3], "Other Application..."@, "$CUSTOM"@)
}

/// The "View" submenu.
pub open spec fn view_menu(items: Seq<MenuItem>) -> bool {
    &&& items.len() == 3
    &&& is_entry(items[0], "List"@, ContextMenuAction::ViewList, Some("Ctrl+1"@), true)
    &&& is_entry(items[1], "Grid"@, ContextMenuAction::ViewGrid, Some("Ctrl+2"@), true)
    &&& is_entry(items[2], "Columns"@, ContextMenuAction::ViewColumns, Some("Ctrl+3"@), true)
}

/// The "Sort By" submenu.
pub open spec fn sort_menu(items: Seq<MenuItem>) -> bool {
    &&& items.len() == 4
    &&& is_entry(items[0], "Name"@, ContextMenuAction::SortByName, None, true)
    &&& is_entry(items[1], "Size"@, ContextMenuAction::SortBySize, None, true)
    &&& is_entry(items[2], "Date Modified"@, ContextMenuAction::SortByDate, None, true)
    &&& is_entry(items[3], "Type"@, ContextMenuAction::SortByType, None, true)
}

/// The items after "Rename" on a file or a folder: "Move to Trash" unless
/// the item is already in the trash, then "Delete Permanently", a separator
/// and "Properties".
pub open spec fn removal_tail(items: Seq<MenuItem>, in_trash: bool) -> bool {
    let t: int = if in_trash { 0 } else { 1 };
    &&& items.len() == 3 + t
    &&& !in_trash ==> is_entry(items[0], "Move to Trash"@, ContextMenuAction::Trash, Some("Del"@), true)
    &&& is_entry(
        items[t],
        "Delete Permanently"@,
        ContextMenuAction::Delete,
        Some("Shift+Del"@),
        true,
    )
    &&& items[t + 1] is Separator
    &&& is_entry(items[t + 2], "Properties"@, ContextMenuAction::Properties, None, true)
}

/// The clipboard entries shared by files and folders: Copy, Cut, Duplicate,
/// a separator and Rename.
pub open spec fn edit_block(items: Seq<MenuItem>) -> bool {
    &&& items.len() == 5
    &&& is_entry(items[0], "Copy"@, ContextMenuAction::Copy, Some("Ctrl+C"@), true)
    &&& is_entry(items[1], "Cut"@, ContextMenuAction::Cut, Some("Ctrl+X"@), true)
    &&& is_entry(items[2], "Duplicate"@, ContextMenuAction::Duplicate, Some("Ctrl+Shift+D"@), true)
    &&& items[3] is Separator
    &&& is_entry(items[4], "Rename"@, ContextMenuAction::Rename, Some("F2"@), true)
}

/// The menu of a file.
pub open spec fn file_menu(items: Seq<MenuItem>, in_trash: bool) -> bool {
    &&& items.len() >= 8
    &&& is_entry(items[0], "Open"@, ContextMenuAction::Open, None, true)
    &&& is_submenu_labelled(items[1], "Open With"@) && open_with_menu(children(items[1]))
    &&& items[2] is Separator
    &&& edit_block(items.subrange(3, 8))
    &&& removal_tail(items.subrange(8, items.len() as int), in_trash)
}

/// The menu of a folder: as that of a file, with "Open in New Tab" after
/// "Open".
pub open spec fn folder_menu(items: Seq<MenuItem>, in_trash: bool) -> bool {
    &&& items.len() >= 9
    &&& is_entry(items[0], "Open"@, ContextMenuAction::Open, None, true)
    &&& is_entry(items[1], "Open in New Tab"@, ContextMenuAction::OpenInNewTab, None, true)
    &&& is_submenu_labelled(items[2], "Open With"@) && open_with_menu(children(items[2]))
    &&& items[3] is Separator
    &&& edit_block(items.subrange(4, 9))
    &&& removal_tail(items.subrange(9, items.len() as int), in_trash)
}

/// The menu of the empty space of a view: new file and folder, paste (only
/// enabled with something on the clipboard), refresh, and the view and sort
/// submenus.
pub open spec fn empty_space_menu(items: Seq<MenuItem>, has_clipboard: bool) -> bool {
    &&& items.len() == 9
    &&& is_entry(items[0], "New File"@, ContextMenuAction::NewFile, Some("Ctrl+Shift+F"@), true)
    &&& is_entry(items[1], "New Folder"@, ContextMenuAction::NewFolder, Some("Ctrl+Shift+N"@), true)
    &&& items[2] is Separator
    &&& is_entry(items[3], "Paste"@, ContextMenuAction::Paste, Some("Ctrl+V"@), has_clipboard)
    &&& items[4] is Separator
    &&& is_entry(items[5], "Refresh"@, ContextMenuAction::Refresh, Some("F5"@), true)
    &&& items[6] is Separator
    &&& is_submenu_labelled(items[7], "View"@) && view_menu(children(items[7]))
    &&& is_submenu_labelled(items[8], "Sort By"@) && sort_menu(children(items[8]))
}

/// "<before><count><after>", as in "Copy 3 items".
pub open spec fn counted(before: Seq<char>, count: usize, after: Seq<char>) -> Seq<char> {
    before + decimal(count as nat) + after
}

/// The menu of several selected entries, each label naming their number.
pub open spec fn multi_selection_menu(items: Seq<MenuItem>, count: usize, in_trash: bool) -> bool {
    let t: int = if in_trash { 0 } else { 1 };
    &&& items.len() == 4 + t
    &&& is_entry(
        items[0],
        counted("Copy "@, count, " items"@),
        ContextMenuAction::CopyAll,
        Some("Ctrl+C"@),
        true,
    )
    &&& is_entry(
        items[1],
        counted("Cut "@, count, " items"@),
        ContextMenuAction::CutAll,
        Some("Ctrl+X"@),
        true,
    )
    &&& items[2] is Separator
    &&& !in_trash ==> is_entry(
        items[3],
        counted("Move "@, count, " items to Trash"@),
        ContextMenuAction::TrashAll,
        Some("Del"@),
        true,
    )
    &&& is_entry(
        items[3 + t],
        counted("Delete "@, count, " items"@),
        ContextMenuAction::DeleteAll,
        Some("Shift+Del"@),
        true,
    )
}

/// No item holds more than a thousand others.
pub open spec fn small_children(items: Seq<MenuItem>) -> bool {
    forall|k: int| 0 <= k < items.len() ==> children(#[trigger] items[k]).len() <= 1000
}

/// The menu offered in a context.
pub open spec fn menu_for(
    items: Seq<MenuItem>,
    context: ContextType,
    selected_count: usize,
    has_clipboard: bool,
    in_trash: bool,
) -> bool {
    match context {
        ContextType::File => file_menu(items, in_trash),
        ContextType::Folder => folder_menu(items, in_trash),
        ContextType::EmptySpace => empty_space_menu(items, has_clipboard),
        ContextType::MultiSelection => multi_selection_menu(items, selected_count, in_trash),
    }
}

/// An enabled action item with a shortcut hint.
fn entry(label: &str, action: ContextMenuAction, shortcut: &str) -> (res: MenuItem)
    ensures
        is_entry(res, label@, action, Some(shortcut@), true),
{
    MenuItem::action(label, action).with_shortcut(shortcut)
}

/// An enabled action item that opens with `command`.
fn open_with_entry(label: &str, command: &str) -> (res: MenuItem)
    ensures
        is_open_with(res, label@, command@),
{
    MenuItem::action(label, ContextMenuAction::OpenWith(copy_string(command)))
}

fn build_open_with_submenu() -> (res: Vec<MenuItem>)
    ensures
        open_with_menu(res@),
{
    let mut v = Vec::new();
    v.push(open_with_entry("Default Application", "xdg-open"));
    v.push(open_with_entry("Text Editor", "$EDITOR"));
    v.push(MenuItem::separator());
    v.push(open_with_entry("Other Application...", "$CUSTOM"));
    v
}

fn build_view_submenu() -> (res: Vec<MenuItem>)
    ensures
        view_menu(res@),
{
    let mut v = Vec::new();
    v.push(entry("List", ContextMenuAction::ViewList, "Ctrl+1"));
    v.push(entry("Grid", ContextMenuAction::ViewGrid, "Ctrl+2"));
    v.push(entry("Columns", ContextMenuAction::ViewColumns, "Ctrl+3"));
    v
}

fn build_sort_submenu() -> (res: Vec<MenuItem>)
    ensures
        sort_menu(res@),
{
    let mut v = Vec::new();
    v.push(MenuItem::action("Name", ContextMenuAction::SortByName));
    v.push(MenuItem::action("Size", ContextMenuAction::SortBySize));
    v.push(MenuItem::action("Date Modified", ContextMenuAction::SortByDate));
    v.push(MenuItem::action("Type", ContextMenuAction::SortByType));
    v
}

/// Appends Copy, Cut, Duplicate, a separator and Rename.
fn push_edit_block(v: &mut Vec<MenuItem>)
    ensures
        final(v)@.len() == old(v)@.len() + 5,
        final(v)@.subrange(0, old(v)@.len() as int) == old(v)@,
        edit_block(final(v)@.subrange(old(v)@.len() as int, final(v)@.len() as int)),
        small_children(old(v)@) ==> small_children(final(v)@),
{
    v.push(entry("Copy", ContextMenuAction::Copy, "Ctrl+C"));
    v.push(entry("Cut", ContextMenuAction::Cut, "Ctrl+X"));
    v.push(entry("Duplicate", ContextMenuAction::Duplicate, "Ctrl+Shift+D"));
    v.push(MenuItem::separator());
    v.push(entry("Rename", ContextMenuAction::Rename, "F2"));
}

/// Appends the removal entries and "Properties".
fn push_removal_tail(v: &mut Vec<MenuItem>, in_trash: bool)
    ensures
        final(v)@.len() >= old(v)@.len(),
        final(v)@.subrange(0, old(v)@.len() as int) == old(v)@,
        removal_tail(final(v)@.subrange(old(v)@.len() as int, final(v)@.len() as int), in_trash),
        small_children(old(v)@) ==> small_children(final(v)@),
{
    if !in_trash {
        v.push(entry("Move to Trash", ContextMenuAction::Trash, "Del"));
    }
    v.push(entry("Delete Permanently", ContextMenuAction::Delete, "Shift+Del"));
    v.push(MenuItem::separator());
    v.push(MenuItem::action("Properties", ContextMenuAction::Properties));
}

/// The menu of a file.
pub fn build_file_menu(in_trash: bool) -> (res: Vec<MenuItem>)
    ensures
        file_menu(res@, in_trash),
        small_children(res@),
{
    let mut v = Vec::new();
    v.push(MenuItem::action("Open", ContextMenuAction::Open));
    v.push(MenuItem::submenu("Open With", build_open_with_submenu()));
    v.push(MenuItem::separator());
    let ghost head = v@;
    push_edit_block(&mut v);
    let ghost mid = v@;
    push_removal_tail(&mut v, in_trash);
    assert(v@.subrange(0, 8) == mid);
    assert(v@.subrange(3, 8) == mid.subrange(3, 8));
    assert(v@[0] == head[0] && v@[1] == head[1] && v@[2] == head[2]);
    v
}

/// The menu of a folder.
pub fn build_folder_menu(in_trash: bool) -> (res: Vec<MenuItem>)
    ensures
        folder_menu(res@, in_trash),
        small_children(res@),
{
    let mut v = Vec::new();
    v.push(MenuItem::action("Open", ContextMenuAction::Open));
    v.push(MenuItem::action("Open in New Tab", ContextMenuAction::OpenInNewTab));
    v.push(MenuItem::submenu("Open With", build_open_with_submenu()));
    v.push(MenuItem::separator());
    let ghost head = v@;
    push_edit_block(&mut v);
    let ghost mid = v@;
    push_removal_tail(&mut v, in_trash);
    assert(v@.subrange(0, 9) == mid);
    assert(v@.subrange(4, 9) == mid.subrange(4, 9));
    assert(v@[0] == head[0] && v@[1] == head[1] && v@[2] == head[2] && v@[3] == head[3]);
    v
}

/// The menu of the empty space of a view.
pub fn build_empty_space_menu(has_clipboard: bool) -> (res: Vec<MenuItem>)
    ensures
        empty_space_menu(res@, has_clipboard),
        small_children(res@),
{
    let mut v = Vec::new();
    v.push(entry("New File", ContextMenuAction::NewFile, "Ctrl+Shift+F"));
    v.push(entry("New Folder", ContextMenuAction::NewFolder, "Ctrl+Shift+N"));
    v.push(MenuItem::separator());
    v.push(MenuItem::action("Paste", ContextMenuAction::Paste).with_shortcut("Ctrl+V").with_enabled(has_clipboard));
    v.push(MenuItem::separator());
    v.push(entry("Refresh", ContextMenuAction::Refresh, "F5"));
    v.push(MenuItem::separator());
    v.push(MenuItem::submenu("View", build_view_submenu()));
    v.push(MenuItem::submenu("Sort By", build_sort_submenu()));
    v
}

/// "<before><count><after>".
fn counted_label(before: &str, count: usize, after: &str) -> (res: String)
    ensures
        res@ == counted(before@, count, after@),
{
    let mut s = copy_string(before);
    push_decimal(&mut s, count as u64);
    push_str(&mut s, after);
    s
}

/// The menu of several selected entries.
pub fn build_multi_selection_menu(count: usize, in_trash: bool) -> (res: Vec<MenuItem>)
    ensures
        multi_selection_menu(res@, count, in_trash),
        small_children(res@),
{
    let mut v = Vec::new();
    v.push(MenuItem::action(counted_label("Copy ", count, " items").as_str(), ContextMenuAction::CopyAll).with_shortcut("Ctrl+C"));
    v.push(MenuItem::action(counted_label("Cut ", count, " items").as_str(), ContextMenuAction::CutAll).with_shortcut("Ctrl+X"));
    v.push(MenuItem::separator());
    if !in_trash {
        v.push(
            MenuItem::action(counted_label("Move ", count, " items to Trash").as_str(), ContextMenuAction::TrashAll)
                .with_shortcut("Del"),
        );
    }
    v.push(MenuItem::action(counted_label("Delete ", count, " items").as_str(), ContextMenuAction::DeleteAll).with_shortcut("Shift+Del"));
    v
}

/// The menu offered in a context.
pub fn build_menu_items(context: ContextType, selected_count: usize, has_clipboard: bool, in_trash: bool) -> (res: Vec<MenuItem>)
    ensures
        menu_for(res@, context, selected_count, has_clipboard, in_trash),
        small_children(res@),
        res@.len() <= 13,
{
    match context {
        ContextType::File => build_file_menu(in_trash),
        ContextType::Folder => build_folder_menu(in_trash),
        ContextType::EmptySpace => build_empty_space_menu(has_clipboard),
        ContextType::MultiSelection => build_multi_selection_menu(selected_count, in_trash),
    }
}


// -- the menu on screen ------------------------------------------------------

/// Hover delay before opening submenu (milliseconds).
pub const SUBMENU_HOVER_DELAY_MS: u64 = 300;

/// Width of a menu and of a submenu (room is left for the shortcut hints).
pub const MENU_WIDTH: u32 = 260;

/// The window and the points the menu is opened at stay within this distance
/// of the origin, and so do all sizes; it keeps every position the menu
/// computes inside `i32`.
pub const REACH: i32 = 0x2000_0000;

/// The window's rectangle is of a size and place the menu can work with.
pub open spec fn within(r: Rect) -> bool {
    -REACH <= r.x <= REACH && -REACH <= r.y <= REACH && r.width <= REACH && r.height <= REACH
}

/// The point is one the menu can open at.
pub open spec fn near(p: Point) -> bool {
    -REACH <= p.x <= REACH && -REACH <= p.y <= REACH
}

/// A rectangle of a menu or submenu lies in the range the layout keeps to.
pub open spec fn roomy(r: Rect) -> bool {
    -0x4000_0000 <= r.x <= 0x4000_0000 && -0x4000_0000 <= r.y <= 0x4000_0000 && r.width
        <= 0x10_0000 && r.height <= 0x10_0000
}

/// What the menu holds and shows.
pub struct MenuState {
    /// The menu is shown.
    pub visible: bool,
    /// The window's rectangle, which the menu keeps inside.
    pub window: Rect,
    /// Where the menu is.
    pub bounds: Rect,
    /// What was right-clicked.
    pub context: ContextType,
    /// The items.
    pub items: Seq<MenuItem>,
    /// The item the keyboard is on.
    pub focused: Option<usize>,
    /// The item under the pointer.
    pub hovered: Option<usize>,
    /// The item whose submenu is open.
    pub open_sub: Option<usize>,
    /// The submenu item the keyboard is on.
    pub sub_focused: Option<usize>,
    /// The submenu item under the pointer.
    pub sub_hovered: Option<usize>,
    /// Where the open submenu is.
    pub sub_bounds: Option<Rect>,
    /// The pointer has started to rest on a submenu item: its waiting time
    /// runs.
    pub hovering: bool,
    /// Number of selected entries (for the labels of several).
    pub selected_count: usize,
    /// Whether the clipboard has content (to enable Paste).
    pub has_clipboard: bool,
    /// Whether the view shows the trash.
    pub in_trash: bool,
}

/// Which items a pointer or key can act on.
#[derive(Debug, Clone, Copy, PartialEq, Eq, Structural)]
pub enum Pick {
    /// Any item but a separator.
    Live,
    /// An enabled action.
    Enabled,
    /// An enabled action or a submenu.
    Opens,
}

/// Whether `kind` picks the item.
pub open spec fn picks(kind: Pick, item: MenuItem) -> bool {
    match kind {
        Pick::Live => !(item is Separator),
        Pick::Enabled => item matches MenuItem::Action { enabled, .. } && enabled,
        Pick::Opens => (item matches MenuItem::Action { enabled, .. } && enabled) || item is Submenu,
    }
}

/// The action of an action item.
pub open spec fn action_of(item: MenuItem) -> ContextMenuAction {
    match item {
        MenuItem::Action { action, .. } => action,
        _ => ContextMenuAction::Open,
    }
}

/// The top of the `i`th item of a menu at `b`.
pub open spec fn slot_top(b: Rect, items: Seq<MenuItem>, i: int) -> int {
    b.y + MENU_PADDING + items_height(items.take(i))
}

/// The `i`th item of a menu at `b` covers the point: the items are stacked
/// inside the padding, each as high as it is.
pub open spec fn in_slot(b: Rect, items: Seq<MenuItem>, i: int, p: Point) -> bool {
    &&& b.x + MENU_PADDING <= p.x < b.x + b.width - MENU_PADDING
    &&& slot_top(b, items, i) <= p.y < slot_top(b, items, i) + item_height(items[i])
}

/// The first item from the `k`th on that covers the point and that `kind`
/// picks.
pub open spec fn first_hit(b: Rect, items: Seq<MenuItem>, p: Point, kind: Pick, k: int) -> Option<usize>
    decreases items.len() - k,
{
    if k < 0 || k >= items.len() {
        None
    } else if in_slot(b, items, k, p) && picks(kind, items[k]) {
        Some(k as usize)
    } else {
        first_hit(b, items, p, kind, k + 1)
    }
}

/// The items of the open submenu.
pub open spec fn sub_items(s: MenuState) -> Seq<MenuItem> {
    match s.open_sub {
        Some(i) => children(s.items[i as int]),
        None => Seq::empty(),
    }
}

/// The menu's own rectangle lies in the range where it opens.
pub open spec fn placed_ok(r: Rect) -> bool {
    -0x2001_0000 <= r.x <= 0x2001_0000 && -0x2001_0000 <= r.y <= 0x2001_0000 && r.width
        <= 0x10_0000 && r.height <= 0x10_0000
}

/// What the menu keeps true of itself.
pub open spec fn menu_ok(s: MenuState) -> bool {
    &&& within(s.window)
    &&& s.items.len() <= 1000
    &&& small_children(s.items)
    &&& s.visible ==> placed_ok(s.bounds) && s.bounds.width == MENU_WIDTH
    &&& s.open_sub is Some <==> s.sub_bounds is Some
    &&& s.open_sub matches Some(i) ==> s.visible && i < s.items.len() && s.items[i as int] is Submenu
    &&& s.sub_bounds matches Some(r) ==> roomy(r) && r.width == MENU_WIDTH
}

/// The menu hidden: it holds no items and no submenu.
pub open spec fn hidden(s: MenuState) -> MenuState {
    MenuState {
        visible: false,
        items: Seq::empty(),
        focused: None,
        hovered: None,
        open_sub: None,
        sub_focused: None,
        sub_hovered: None,
        sub_bounds: None,
        hovering: false,
        ..s
    }
}

/// The menu with its submenu closed.
pub open spec fn sub_closed(s: MenuState) -> MenuState {
    MenuState { open_sub: None, sub_focused: None, sub_hovered: None, sub_bounds: None, ..s }
}

/// Where the submenu of item `i` opens: beside the item, on its right where
/// it fits in the window, else on the menu's left.
pub open spec fn sub_rect(s: MenuState, i: int) -> Rect {
    let right = s.bounds.x + s.bounds.width - 8;
    let x = if right + MENU_WIDTH > s.window.x + s.window.width {
        s.bounds.x - MENU_WIDTH + 4
    } else {
        right
    };
    Rect {
        x: x as i32,
        y: slot_top(s.bounds, s.items, i) as i32,
        width: MENU_WIDTH,
        height: (items_height(children(s.items[i])) + 2 * MENU_PADDING) as u32,
    }
}

/// The menu with the submenu of item `i` open and its first item focused
/// (nothing changes where `i` is no submenu).
pub open spec fn sub_opened(s: MenuState, i: int) -> MenuState {
    if 0 <= i < s.items.len() && s.items[i] is Submenu {
        MenuState {
            sub_bounds: Some(sub_rect(s, i)),
            open_sub: Some(i as usize),
            sub_focused: Some(0),
            sub_hovered: None,
            ..s
        }
    } else {
        s
    }
}

/// Where a menu of this size opens for a click at `p`: at the point, moved
/// to its left or above it where it would leave the window on the right or
/// at the bottom, and never left of or above the window.
pub open spec fn placed(p: Point, w: int, h: int, win: Rect) -> (int, int) {
    let x = if p.x + w > win.x + win.width { p.x - w } else { p.x as int };
    let y = if p.y + h > win.y + win.height { p.y - h } else { p.y as int };
    (if x < win.x { win.x as int } else { x }, if y < win.y { win.y as int } else { y })
}

/// Which items are separators.
pub open spec fn separators(items: Seq<MenuItem>) -> Seq<bool> {
    items.map_values(|m: MenuItem| m is Separator)
}

/// An index as an optional integer.
pub open spec fn as_int(o: Option<usize>) -> Option<int> {
    match o {
        Some(k) => Some(k as int),
        None => None,
    }
}

/// The menu after the keyboard focus moved by one item.
pub open spec fn focus_moved(s: MenuState, forward: bool) -> MenuState {
    match moved_focus(separators(s.items), as_int(s.focused), forward) {
        Some(k) => MenuState { focused: Some(k as usize), hovered: Some(k as usize), ..s },
        None => s,
    }
}

/// The menu after the keyboard focus moved by one item in the submenu.
pub open spec fn sub_focus_moved(s: MenuState, forward: bool) -> MenuState {
    match moved_focus(separators(sub_items(s)), as_int(s.sub_focused), forward) {
        Some(k) => MenuState { sub_focused: Some(k as usize), sub_hovered: Some(k as usize), ..s },
        None => s,
    }
}

/// Return on the menu: the focused item of the open submenu, else of the
/// menu, runs its action where it is an enabled action (and the menu
/// hides); a focused submenu item of the menu opens its submenu.
pub open spec fn activated(s: MenuState) -> (MenuState, Option<ContextMenuAction>) {
    if s.open_sub is Some {
        match s.sub_focused {
            Some(j) => if j < sub_items(s).len() && picks(Pick::Enabled, sub_items(s)[j as int]) {
                (hidden(s), Some(action_of(sub_items(s)[j as int])))
            } else {
                (s, None)
            },
            None => (s, None),
        }
    } else {
        match s.focused {
            Some(i) => if i < s.items.len() && picks(Pick::Enabled, s.items[i as int]) {
                (hidden(s), Some(action_of(s.items[i as int])))
            } else if i < s.items.len() && s.items[i as int] is Submenu {
                (sub_opened(s, i as int), None)
            } else {
                (s, None)
            },
            None => (s, None),
        }
    }
}

/// A key on the menu: Escape closes the submenu, else the menu; Up and
/// Down move the focus in the submenu where one is open, else in the menu;
/// Right opens the focused submenu; Left closes the submenu; Return
/// activates the focused item. Nothing happens while the menu is hidden.
pub open spec fn key_pressed(s: MenuState, key: Key) -> (MenuState, Option<ContextMenuAction>) {
    if !s.visible {
        (s, None)
    } else {
        match key {
            Key::Escape => (if s.open_sub is Some { sub_closed(s) } else { hidden(s) }, None),
            Key::Up => (if s.open_sub is Some { sub_focus_moved(s, false) } else { focus_moved(s, false) }, None),
            Key::Down => (if s.open_sub is Some { sub_focus_moved(s, true) } else { focus_moved(s, true) }, None),
            Key::Right => (match s.focused {
                Some(i) => if i < s.items.len() && s.items[i as int] is Submenu {
                    sub_opened(s, i as int)
                } else {
                    s
                },
                None => s,
            }, None),
            Key::Left => (if s.open_sub is Some { sub_closed(s) } else { s }, None),
            Key::Return => activated(s),
            _ => (s, None),
        }
    }
}

/// A click on the menu: in the open submenu an enabled action runs; in the
/// menu an enabled action runs or a submenu opens; a click outside both
/// hides the menu.
pub open spec fn clicked(s: MenuState, p: Point) -> (MenuState, Option<ContextMenuAction>) {
    if !s.visible {
        (s, None)
    } else if s.sub_bounds is Some && inside(s.sub_bounds->0, p) {
        match first_hit(s.sub_bounds->0, sub_items(s), p, Pick::Enabled, 0) {
            Some(j) => (hidden(s), Some(action_of(sub_items(s)[j as int]))),
            None => (s, None),
        }
    } else {
        match first_hit(s.bounds, s.items, p, Pick::Opens, 0) {
            Some(i) => if s.items[i as int] is Submenu {
                (sub_opened(s, i as int), None)
            } else {
                (hidden(s), Some(action_of(s.items[i as int])))
            },
            None => (if !inside(s.bounds, p) { hidden(s) } else { s }, None),
        }
    }
}

/// Whether what is drawn changed between two states of the menu.
pub open spec fn redraw(a: MenuState, b: MenuState) -> bool {
    a.hovered != b.hovered || a.sub_hovered != b.sub_hovered || a.open_sub != b.open_sub
}

/// The pointer moved to `p`, `waited` milliseconds after it started to rest
/// on a submenu item (where it did): over the submenu it hovers and focuses
/// the item under it; over the menu it hovers and focuses the item under
/// it, where that is a submenu item that is not open the wait starts, or
/// the submenu opens once the wait is over; any other item ends the wait
/// and closes the submenu. The result says whether the menu is to be drawn
/// again.
pub open spec fn pointer_moved(s: MenuState, p: Point, waited: u64) -> (MenuState, bool) {
    if !s.visible {
        (s, false)
    } else if s.sub_bounds is Some && inside(s.sub_bounds->0, p) {
        let h = first_hit(s.sub_bounds->0, sub_items(s), p, Pick::Live, 0);
        let t = MenuState { sub_hovered: h, sub_focused: if h is Some { h } else { s.sub_focused }, ..s };
        (t, h != s.sub_hovered)
    } else {
        let s1 = MenuState { sub_hovered: None, ..s };
        match first_hit(s.bounds, s.items, p, Pick::Live, 0) {
            Some(i) => {
                let s2 = MenuState { hovered: Some(i), focused: Some(i), ..s1 };
                let s3 = if s.items[i as int] is Submenu {
                    if s.open_sub != Some(i) {
                        if !s.hovering {
                            MenuState { hovering: true, ..s2 }
                        } else if waited > SUBMENU_HOVER_DELAY_MS {
                            sub_opened(s2, i as int)
                        } else {
                            s2
                        }
                    } else {
                        s2
                    }
                } else {
                    let s4 = MenuState { hovering: false, ..s2 };
                    if s.open_sub is Some { sub_closed(s4) } else { s4 }
                };
                (s3, redraw(s, s3))
            },
            None => {
                let s2 = MenuState { hovered: None, ..s1 };
                let s3 = if !inside(s.bounds, p) { MenuState { hovering: false, ..s2 } } else { s2 };
                (s3, redraw(s, s3))
            },
        }
    }
}

/// What the first hit is: an item at or after `k` that covers the point
/// and that `kind` picks.
proof fn lemma_first_hit(b: Rect, items: Seq<MenuItem>, p: Point, kind: Pick, k: int)
    requires
        0 <= k,
        items.len() <= usize::MAX,
    ensures
        first_hit(b, items, p, kind, k) matches Some(j) ==> k <= j < items.len() && in_slot(b, items, j as int, p)
            && picks(kind, items[j as int]),
    decreases items.len() - k,
{
    if k < items.len() && !(in_slot(b, items, k, p) && picks(kind, items[k])) {
        lemma_first_hit(b, items, p, kind, k + 1);
    }
}

proof fn lemma_items_height_bound(items: Seq<MenuItem>)
    ensures
        items_height(items) <= ITEM_HEIGHT * items.len(),
    decreases items.len(),
{
    if items.len() > 0 {
        lemma_items_height_bound(items.drop_last());
    }
}

proof fn lemma_items_height_step(items: Seq<MenuItem>, k: int)
    requires
        0 <= k < items.len(),
    ensures
        items_height(items.take(k + 1)) == items_height(items.take(k)) + item_height(items[k]),
{
    assert(items.take(k + 1).drop_last() =~= items.take(k));
}

/// Whether `kind` picks the item.
fn picks_exec(kind: Pick, item: &MenuItem) -> (res: bool)
    ensures
        res == picks(kind, *item),
{
    match item {
        MenuItem::Action { enabled, .. } => match kind {
            Pick::Live => true,
            _ => *enabled,
        },
        MenuItem::Separator => false,
        MenuItem::Submenu { .. } => match kind {
            Pick::Enabled => false,
            _ => true,
        },
    }
}

/// The first item of a menu at `b` that covers the point and that `kind`
/// picks.
pub fn first_hit_exec(b: Rect, items: &Vec<MenuItem>, p: Point, kind: Pick) -> (res: Option<usize>)
    requires
        roomy(b),
        items@.len() <= 1000,
    ensures
        res == first_hit(b, items@, p, kind, 0),
{
    let left: i64 = b.x as i64 + MENU_PADDING as i64;
    let right: i64 = b.x as i64 + b.width as i64 - MENU_PADDING as i64;
    let mut top: i64 = b.y as i64 + MENU_PADDING as i64;
    let mut k: usize = 0;
    while k < items.len()
        invariant
            k <= items@.len() <= 1000,
            roomy(b),
            left == b.x + MENU_PADDING,
            right == b.x + b.width - MENU_PADDING,
            top == slot_top(b, items@, k as int),
            first_hit(b, items@, p, kind, 0) == first_hit(b, items@, p, kind, k as int),
        decreases items@.len() - k,
    {
        proof {
            lemma_items_height_bound(items@.take(k as int));
            lemma_items_height_step(items@, k as int);
        }
        let h = items[k].height();
        let px = p.x as i64;
        let py = p.y as i64;
        if left <= px && px < right && top <= py && py < top + h as i64 && picks_exec(kind, &items[k]) {
            return Some(k);
        }
        top = top + h as i64;
        k = k + 1;
    }
    None
}

/// The right-click menu.
pub struct ContextMenu {
    window_bounds: Rect,
    menu_bounds: Rect,
    visible: bool,
    context_type: ContextType,
    items: Vec<MenuItem>,
    focused_index: Option<usize>,
    hovered_index: Option<usize>,
    open_submenu_index: Option<usize>,
    submenu_focused_index: Option<usize>,
    submenu_hovered_index: Option<usize>,
    submenu_bounds: Option<Rect>,
    submenu_hover_start: Option<Instant>,
    selected_count: usize,
    has_clipboard: bool,
    in_trash: bool,
}

impl View for ContextMenu {
    type V = MenuState;

    closed spec fn view(&self) -> MenuState {
        MenuState {
            visible: self.visible,
            window: self.window_bounds,
            bounds: self.menu_bounds,
            context: self.context_type,
            items: self.items@,
            focused: self.focused_index,
            hovered: self.hovered_index,
            open_sub: self.open_submenu_index,
            sub_focused: self.submenu_focused_index,
            sub_hovered: self.submenu_hovered_index,
            sub_bounds: self.submenu_bounds,
            hovering: self.submenu_hover_start is Some,
            selected_count: self.selected_count,
            has_clipboard: self.has_clipboard,
            in_trash: self.in_trash,
        }
    }
}

impl ContextMenu {
    /// Create a new context menu, hidden.
    pub fn new(window_bounds: Rect) -> (res: Self)
        requires
            within(window_bounds),
        ensures
            menu_ok(res@),
            res@ == (MenuState {
                visible: false,
                window: window_bounds,
                bounds: Rect { x: 0, y: 0, width: MIN_MENU_WIDTH, height: 0 },
                context: ContextType::EmptySpace,
                items: Seq::empty(),
                focused: None,
                hovered: None,
                open_sub: None,
                sub_focused: None,
                sub_hovered: None,
                sub_bounds: None,
                hovering: false,
                selected_count: 0,
                has_clipboard: false,
                in_trash: false,
            }),
    {
        ContextMenu {
            window_bounds,
            menu_bounds: Rect { x: 0, y: 0, width: MIN_MENU_WIDTH, height: 0 },
            visible: false,
            context_type: ContextType::EmptySpace,
            items: Vec::new(),
            focused_index: None,
            hovered_index: None,
            open_submenu_index: None,
            submenu_focused_index: None,
            submenu_hovered_index: None,
            submenu_bounds: None,
            submenu_hover_start: None,
            selected_count: 0,
            has_clipboard: false,
            in_trash: false,
        }
    }

    /// Set window bounds.
    pub fn set_bounds(&mut self, bounds: Rect)
        requires
            menu_ok(old(self)@),
            within(bounds),
        ensures
            menu_ok(final(self)@),
            final(self)@ == (MenuState { window: bounds, ..old(self)@ }),
    {
        self.window_bounds = bounds;
    }

    /// Check if visible.
    pub fn is_visible(&self) -> (res: bool)
        ensures
            res == self@.visible,
    {
        self.visible
    }

    /// Hide the menu.
    pub fn close(&mut self)
        requires
            within(old(self)@.window),
        ensures
            menu_ok(final(self)@),
            final(self)@ == hidden(old(self)@),
    {
        self.visible = false;
        self.items = Vec::new();
        self.focused_index = None;
        self.hovered_index = None;
        self.open_submenu_index = None;
        self.submenu_focused_index = None;
        self.submenu_hovered_index = None;
        self.submenu_bounds = None;
        self.submenu_hover_start = None;
    }

    /// Close the open submenu.
    fn close_submenu(&mut self)
        requires
            menu_ok(old(self)@),
        ensures
            menu_ok(final(self)@),
            final(self)@ == sub_closed(old(self)@),
    {
        self.open_submenu_index = None;
        self.submenu_focused_index = None;
        self.submenu_hovered_index = None;
        self.submenu_bounds = None;
    }

    /// Open the submenu of item `index` (nothing happens where it is no
    /// submenu).
    fn open_submenu(&mut self, index: usize)
        requires
            menu_ok(old(self)@),
            old(self)@.visible,
        ensures
            menu_ok(final(self)@),
            final(self)@ == sub_opened(old(self)@, index as int),
    {
        if index >= self.items.len() {
            return;
        }
        let sub_height: u32 = match &self.items[index] {
            MenuItem::Submenu { items, .. } => {
                let mut h: u32 = 0;
                let mut k: usize = 0;
                proof {
                    assert(children(self.items@[index as int]) == items@);
                }
                while k < items.len()
                    invariant
                        k <= items@.len() <= 1000,
                        h == items_height(items@.take(k as int)),
                    decreases items@.len() - k,
                {
                    proof {
                        lemma_items_height_bound(items@.take(k as int));
                        lemma_items_height_step(items@, k as int);
                    }
                    h = h + items[k].height();
                    k = k + 1;
                }
                proof {
                    assert(items@.take(items@.len() as int) == items@);
                    lemma_items_height_bound(items@);
                }
                h + 2 * MENU_PADDING
            },
            _ => {
                return;
            },
        };
        let mut top: i64 = self.menu_bounds.y as i64 + MENU_PADDING as i64;
        let mut k: usize = 0;
        while k < index
            invariant
                k <= index < self.items@.len() <= 1000,
                placed_ok(self.menu_bounds),
                top == slot_top(self.menu_bounds, self.items@, k as int),
            decreases index - k,
        {
            proof {
                lemma_items_height_bound(self.items@.take(k as int));
                lemma_items_height_step(self.items@, k as int);
            }
            top = top + self.items[k].height() as i64;
            k = k + 1;
        }
        proof {
            lemma_items_height_bound(self.items@.take(index as int));
        }
        let right: i64 = self.menu_bounds.x as i64 + self.menu_bounds.width as i64 - 8;
        let x: i64 = if right + MENU_WIDTH as i64 > self.window_bounds.x as i64 + self.window_bounds.width as i64 {
            self.menu_bounds.x as i64 - MENU_WIDTH as i64 + 4
        } else {
            right
        };
        self.submenu_bounds = Some(Rect { x: x as i32, y: top as i32, width: MENU_WIDTH, height: sub_height });
        self.open_submenu_index = Some(index);
        self.submenu_focused_index = Some(0);
        self.submenu_hovered_index = None;
    }

    /// Show the menu for a right-click at `pos` on what `context_type`
    /// names; it keeps inside the window, the first item has the focus.
    pub fn show(
        &mut self,
        pos: Point,
        context_type: ContextType,
        selected_count: usize,
        has_clipboard: bool,
        in_trash: bool,
    )
        requires
            menu_ok(old(self)@),
            near(pos),
        ensures
            menu_ok(final(self)@),
            menu_for(final(self)@.items, context_type, selected_count, has_clipboard, in_trash),
            ({
                let h = items_height(final(self)@.items) + 2 * MENU_PADDING;
                let (x, y) = placed(pos, MENU_WIDTH as int, h, old(self)@.window);
                final(self)@ == (MenuState {
                    visible: true,
                    bounds: Rect { x: x as i32, y: y as i32, width: MENU_WIDTH, height: h as u32 },
                    context: context_type,
                    items: final(self)@.items,
                    focused: Some(0),
                    hovered: None,
                    open_sub: None,
                    sub_focused: None,
                    sub_hovered: None,
                    sub_bounds: None,
                    selected_count,
                    has_clipboard,
                    in_trash,
                    ..old(self)@
                })
            }),
    {
        self.context_type = context_type;
        self.selected_count = selected_count;
        self.has_clipboard = has_clipboard;
        self.in_trash = in_trash;
        let items = build_menu_items(context_type, selected_count, has_clipboard, in_trash);
        let mut h: u32 = 0;
        let mut k: usize = 0;
        while k < items.len()
            invariant
                k <= items@.len() <= 13,
                h == items_height(items@.take(k as int)),
            decreases items@.len() - k,
        {
            proof {
                lemma_items_height_bound(items@.take(k as int));
                lemma_items_height_step(items@, k as int);
            }
            h = h + items[k].height();
            k = k + 1;
        }
        proof {
            assert(items@.take(items@.len() as int) == items@);
            lemma_items_height_bound(items@);
        }
        let height = h + 2 * MENU_PADDING;
        let win = self.window_bounds;
        let mut x: i64 = pos.x as i64;
        let mut y: i64 = pos.y as i64;
        if x + MENU_WIDTH as i64 > win.x as i64 + win.width as i64 {
            x = pos.x as i64 - MENU_WIDTH as i64;
        }
        if y + height as i64 > win.y as i64 + win.height as i64 {
            y = pos.y as i64 - height as i64;
        }
        if x < win.x as i64 {
            x = win.x as i64;
        }
        if y < win.y as i64 {
            y = win.y as i64;
        }
        self.items = items;
        self.menu_bounds = Rect { x: x as i32, y: y as i32, width: MENU_WIDTH, height };
        self.visible = true;
        self.focused_index = Some(0);
        self.hovered_index = None;
        self.open_submenu_index = None;
        self.submenu_focused_index = None;
        self.submenu_hovered_index = None;
        self.submenu_bounds = None;
    }

    /// Take the action of item `i` (of the menu, or of the open submenu
    /// where `in_sub`) and hide the menu.
    fn take_action(&mut self, i: usize, in_sub: bool) -> (res: Option<ContextMenuAction>)
        requires
            menu_ok(old(self)@),
            in_sub ==> old(self)@.open_sub is Some && i < sub_items(old(self)@).len() && picks(
                Pick::Enabled,
                sub_items(old(self)@)[i as int],
            ),
            !in_sub ==> i < old(self)@.items.len() && picks(Pick::Enabled, old(self)@.items[i as int]),
        ensures
            menu_ok(final(self)@),
            final(self)@ == hidden(old(self)@),
            res == Some(action_of(if in_sub {
                sub_items(old(self)@)[i as int]
            } else {
                old(self)@.items[i as int]
            })),
    {
        let ghost before = self@;
        let mut all: Vec<MenuItem> = Vec::new();
        std::mem::swap(&mut all, &mut self.items);
        let item = if in_sub {
            let o = self.open_submenu_index.unwrap();
            let parent = all.remove(o);
            match parent {
                MenuItem::Submenu { items, .. } => {
                    let mut sub = items;
                    sub.remove(i)
                },
                _ => {
                    proof {
                        assert(false);
                    }
                    MenuItem::Separator
                },
            }
        } else {
            all.remove(i)
        };
        self.close();
        proof {
            assert(self@ == hidden(before));
        }
        match item {
            MenuItem::Action { action, .. } => Some(action),
            _ => {
                proof {
                    assert(false);
                }
                None
            },
        }
    }

    /// Handle keyboard input. Returns the action of an item that was
    /// activated.
    pub fn handle_key(&mut self, key: Key) -> (res: Option<ContextMenuAction>)
        requires
            menu_ok(old(self)@),
        ensures
            menu_ok(final(self)@),
            (final(self)@, res) == key_pressed(old(self)@, key),
    {
        if !self.visible {
            return None;
        }
        match key {
            Key::Escape => {
                if self.open_submenu_index.is_some() {
                    self.close_submenu();
                } else {
                    self.close();
                }
                None
            },
            Key::Up => {
                self.step_focus(false);
                None
            },
            Key::Down => {
                self.step_focus(true);
                None
            },
            Key::Right => {
                if let Some(idx) = self.focused_index {
                    if idx < self.items.len() {
                        if let MenuItem::Submenu { .. } = &self.items[idx] {
                            self.open_submenu(idx);
                        }
                    }
                }
                None
            },
            Key::Left => {
                if self.open_submenu_index.is_some() {
                    self.close_submenu();
                }
                None
            },
            Key::Return => self.activate_focused(),
            _ => None,
        }
    }

    /// Move the keyboard focus by one item, in the submenu where one is
    /// open.
    fn step_focus(&mut self, forward: bool)
        requires
            menu_ok(old(self)@),
            old(self)@.visible,
        ensures
            menu_ok(final(self)@),
            final(self)@ == if old(self)@.open_sub is Some {
                sub_focus_moved(old(self)@, forward)
            } else {
                focus_moved(old(self)@, forward)
            },
    {
        match self.open_submenu_index {
            Some(o) => {
                let moved = match &self.items[o] {
                    MenuItem::Submenu { items, .. } => move_focus(items, self.submenu_focused_index, forward),
                    _ => None,
                };
                if let Some(k) = moved {
                    self.submenu_focused_index = Some(k);
                    self.submenu_hovered_index = Some(k);
                }
            },
            None => {
                if let Some(k) = move_focus(&self.items, self.focused_index, forward) {
                    self.focused_index = Some(k);
                    self.hovered_index = Some(k);
                }
            },
        }
    }

    /// Activate the focused item.
    fn activate_focused(&mut self) -> (res: Option<ContextMenuAction>)
        requires
            menu_ok(old(self)@),
            old(self)@.visible,
        ensures
            menu_ok(final(self)@),
            (final(self)@, res) == activated(old(self)@),
    {
        if let Some(o) = self.open_submenu_index {
            if let Some(j) = self.submenu_focused_index {
                let ok = match &self.items[o] {
                    MenuItem::Submenu { items, .. } => j < items.len() && picks_exec(Pick::Enabled, &items[j]),
                    _ => false,
                };
                if ok {
                    return self.take_action(j, true);
                }
            }
            return None;
        }
        if let Some(idx) = self.focused_index {
            if idx < self.items.len() {
                if picks_exec(Pick::Enabled, &self.items[idx]) {
                    return self.take_action(idx, false);
                }
                if let MenuItem::Submenu { .. } = &self.items[idx] {
                    self.open_submenu(idx);
                }
            }
        }
        None
    }

    /// Handle click. Returns the action of an item that was clicked.
    pub fn on_click(&mut self, pos: Point) -> (res: Option<ContextMenuAction>)
        requires
            menu_ok(old(self)@),
        ensures
            menu_ok(final(self)@),
            (final(self)@, res) == clicked(old(self)@, pos),
    {
        if !self.visible {
            return None;
        }
        if let Some(sb) = self.submenu_bounds {
            if sb.contains_point(pos) {
                let o = self.open_submenu_index.unwrap();
                let hit = match &self.items[o] {
                    MenuItem::Submenu { items, .. } => first_hit_exec(sb, items, pos, Pick::Enabled),
                    _ => None,
                };
                proof {
                    lemma_first_hit(sb, sub_items(self@), pos, Pick::Enabled, 0);
                }
                return match hit {
                    Some(j) => self.take_action(j, true),
                    None => None,
                };
            }
        }
        let hit = first_hit_exec(self.menu_bounds, &self.items, pos, Pick::Opens);
        proof {
            lemma_first_hit(self.menu_bounds, self.items@, pos, Pick::Opens, 0);
        }
        match hit {
            Some(i) => {
                if let MenuItem::Submenu { .. } = &self.items[i] {
                    self.open_submenu(i);
                    None
                } else {
                    self.take_action(i, false)
                }
            },
            None => {
                if !self.menu_bounds.contains_point(pos) {
                    self.close();
                }
                None
            },
        }
    }

    /// Handle the pointer moving to `pos`, `waited` milliseconds after it
    /// started to rest on a submenu item (where it did). Returns whether
    /// the menu is to be drawn again.
    pub fn track_pointer(&mut self, pos: Point, waited: u64) -> (res: bool)
        requires
            menu_ok(old(self)@),
        ensures
            menu_ok(final(self)@),
            (final(self)@, res) == pointer_moved(old(self)@, pos, waited),
    {
        if !self.visible {
            return false;
        }
        let ghost s = self@;
        if let Some(sb) = self.submenu_bounds {
            if sb.contains_point(pos) {
                let o = self.open_submenu_index.unwrap();
                let h = match &self.items[o] {
                    MenuItem::Submenu { items, .. } => first_hit_exec(sb, items, pos, Pick::Live),
                    _ => None,
                };
                let changed = h != self.submenu_hovered_index;
                self.submenu_hovered_index = h;
                if h.is_some() {
                    self.submenu_focused_index = h;
                }
                return changed;
            }
        }
        let old_hovered = self.hovered_index;
        let old_sub_hovered = self.submenu_hovered_index;
        let old_open = self.open_submenu_index;
        self.submenu_hovered_index = None;
        let hit = first_hit_exec(self.menu_bounds, &self.items, pos, Pick::Live);
        proof {
            lemma_first_hit(self.menu_bounds, self.items@, pos, Pick::Live, 0);
        }
        match hit {
            Some(i) => {
                self.hovered_index = Some(i);
                self.focused_index = Some(i);
                let is_sub = match &self.items[i] {
                    MenuItem::Submenu { .. } => true,
                    _ => false,
                };
                if is_sub {
                    if self.open_submenu_index != Some(i) {
                        if self.submenu_hover_start.is_none() {
                            self.submenu_hover_start = Some(instant_now());
                        } else if waited > SUBMENU_HOVER_DELAY_MS {
                            self.open_submenu(i);
                        }
                    }
                } else {
                    self.submenu_hover_start = None;
                    if self.open_submenu_index.is_some() {
                        self.close_submenu();
                    }
                }
            },
            None => {
                self.hovered_index = None;
                if !self.menu_bounds.contains_point(pos) {
                    self.submenu_hover_start = None;
                }
            },
        }
        self.hovered_index != old_hovered || self.submenu_hovered_index != old_sub_hovered
            || self.open_submenu_index != old_open
    }

    /// Handle mouse move: the pointer moved to `pos`. Returns whether the
    /// menu is to be drawn again. How long the pointer has rested on a
    /// submenu item is read from the clock, so the contract holds for some
    /// waiting time.
    pub fn on_mouse_move(&mut self, pos: Point) -> (res: bool)
        requires
            menu_ok(old(self)@),
        ensures
            menu_ok(final(self)@),
            exists|waited: u64| (final(self)@, res) == pointer_moved(old(self)@, pos, waited),
    {
        let waited = match &self.submenu_hover_start {
            Some(t) => millis_since(t),
            None => 0,
        };
        self.track_pointer(pos, waited)
    }
}


/// Whenever a key or a click on the menu runs an action, the menu is
/// hidden afterwards.
pub proof fn law_action_hides_menu(s: MenuState, key: Key, p: Point)
    ensures
        key_pressed(s, key).1 is Some ==> !key_pressed(s, key).0.visible,
        clicked(s, p).1 is Some ==> !clicked(s, p).0.visible,
{
}

/// Escape pressed twice on a shown menu hides it, submenu or not.
pub proof fn law_escape_twice_hides(s: MenuState)
    requires
        menu_ok(s),
    ensures
        !key_pressed(key_pressed(s, Key::Escape).0, Key::Escape).0.visible,
{
}

/// A menu opens inside the window on its left and top, and exactly at the
/// point where it fits there.
pub proof fn law_menu_opens_in_window(p: Point, w: int, h: int, win: Rect)
    requires
        w >= 0,
        h >= 0,
    ensures
        placed(p, w, h, win).0 >= win.x,
        placed(p, w, h, win).1 >= win.y,
        win.x <= p.x && p.x + w <= win.x + win.width ==> placed(p, w, h, win).0 == p.x,
        win.y <= p.y && p.y + h <= win.y + win.height ==> placed(p, w, h, win).1 == p.y,
{
}


/// Down and then Up (or Up and then Down) bring the keyboard focus back to
/// the item it was on, when no submenu is open and that item is no
/// separator.
pub proof fn law_down_up_returns(s: MenuState, down_first: bool)
    requires
        menu_ok(s),
        s.visible,
        s.open_sub is None,
        s.focused matches Some(f) && f < s.items.len() && !(s.items[f as int] is Separator),
    ensures
        ({
            let (first, second) = if down_first { (Key::Down, Key::Up) } else { (Key::Up, Key::Down) };
            key_pressed(key_pressed(s, first).0, second).0.focused == s.focused
        }),
{
    let f = s.focused->0;
    let seps = separators(s.items);
    assert(!seps[f as int]);
    law_focus_there_and_back(seps, f as int, down_first);
    let k = moved_focus(seps, Some(f as int), down_first)->0;
    assert(as_int(s.focused) == Some(f as int));
    assert(seps.len() == s.items.len());
    let t = focus_moved(s, down_first);
    assert(t.focused == Some(k as usize));
    assert(as_int(t.focused) == Some(k));
    assert(separators(t.items) == seps);
    assert(focus_moved(t, !down_first).focused == Some(f));
}

} // verus!
