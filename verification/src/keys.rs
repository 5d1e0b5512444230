//! Keyboard input: keys, modifiers, and the decision which command a key
//! press stands for in the current state of the window.
use vstd::prelude::*;
use crate::views::ViewMode;

verus! {

/// A key on the keyboard, as the window system reports it.
#[derive(Debug, Clone, Copy, PartialEq, Eq, Structural)]
pub enum Key {
    Escape,
    Return,
    Backspace,
    Delete,
    Tab,
    Left,
    Right,
    Up,
    Down,
    Home,
    End,
    PageUp,
    PageDown,
    F1,
    F2,
    F5,
    /// A key that produces a character.
    Char(char),
    /// Any other key.
    Other,
}

/// Modifier keys held during a key press.
#[derive(Debug, Clone, Copy, PartialEq, Eq, Structural)]
pub struct Modifiers {
    /// Shift is held.
    pub shift: bool,
    /// Control is held.
    pub ctrl: bool,
    /// Alt is held.
    pub alt: bool,
}

/// What the window shows and does at the moment a key is pressed: the state
/// that decides which command the key stands for.
#[derive(Debug, Clone, Copy, PartialEq, Eq, Structural)]
pub struct KeyContext {
    /// The progress dialog is shown.
    pub progress_visible: bool,
    /// The confirmation dialog is shown.
    pub confirm_visible: bool,
    /// The name-conflict dialog is shown.
    pub conflict_visible: bool,
    /// The text-input dialog is shown.
    pub input_visible: bool,
    /// The "Open With" application picker is shown.
    pub app_picker_visible: bool,
    /// The help overlay is shown.
    pub help_visible: bool,
    /// The context menu is shown.
    pub context_menu_visible: bool,
    /// A drag of files is pending or under way.
    pub file_drag_active: bool,
    /// The window runs as a file picker.
    pub picker: bool,
    /// The address bar is being edited.
    pub address_bar_active: bool,
    /// The address bar was offered this key already and did not take it.
    pub address_bar_passed: bool,
    /// An entry is being renamed inline.
    pub renaming: bool,
    /// The focused tab shows the grid view.
    pub grid_view: bool,
    /// A drag onto the sidebar (with its floating label) is pending or under way.
    pub drag_label_active: bool,
}

/// The command a key press stands for.
#[derive(Debug, Clone, Copy, PartialEq, Eq, Structural)]
pub enum KeyCommand {
    /// Hand the key to the progress dialog.
    ProgressDialogKey,
    /// Hand the key to the confirmation dialog.
    ConfirmDialogKey,
    /// Hand the key to the name-conflict dialog.
    ConflictDialogKey,
    /// Hand the key to the text-input dialog.
    InputDialogKey,
    /// Hand the key to the application picker.
    AppPickerKey,
    /// Close the help overlay.
    HideHelp,
    /// Scroll the help overlay up.
    HelpScrollUp,
    /// Scroll the help overlay down.
    HelpScrollDown,
    /// Hand the key to the context menu.
    ContextMenuKey,
    /// Abandon the drag of files.
    CancelFileDrag,
    /// Close the picker without a choice.
    CancelPicker,
    /// Open the help overlay.
    ShowHelp,
    /// Go to the path typed in the address bar.
    ConfirmAddress,
    /// Offer the key to the address bar.
    AddressBarKey,
    /// Abandon the inline rename.
    CancelRename,
    /// Apply the inline rename.
    ConfirmRename,
    /// Hand the key to the inline rename editor.
    RenameKey,
    /// Go back in history.
    GoBack,
    /// Go forward in history.
    GoForward,
    /// Make the tab with this index (from 0) the active one.
    SwitchTab(usize),
    /// Create a new folder.
    NewFolder,
    /// Create a new file.
    NewFile,
    /// Duplicate the selection.
    Duplicate,
    /// Split the focused pane side by side.
    SplitHorizontal,
    /// Split the focused pane one above the other.
    SplitVertical,
    /// Close the focused pane.
    ClosePane,
    /// Focus the pane to the left.
    FocusPaneLeft,
    /// Focus the pane to the right.
    FocusPaneRight,
    /// Focus the pane above.
    FocusPaneUp,
    /// Focus the pane below.
    FocusPaneDown,
    /// Show the focused tab in this view mode.
    SetViewMode(ViewMode),
    /// Make the grid icons larger.
    IncreaseIconSize,
    /// Make the grid icons smaller.
    DecreaseIconSize,
    /// Open a new tab.
    NewTab,
    /// Close the active tab.
    CloseTab,
    /// Activate the next tab.
    NextTab,
    /// Activate the previous tab.
    PrevTab,
    /// Select every entry.
    SelectAll,
    /// Show or hide the sidebar.
    ToggleSidebar,
    /// Add or remove a bookmark for the selected folder.
    ToggleBookmark,
    /// Start editing the address bar.
    EditAddress,
    /// Copy the selection to the clipboard.
    Copy,
    /// Cut the selection to the clipboard.
    Cut,
    /// Paste the clipboard.
    Paste,
    /// Undo the last file operation.
    Undo,
    /// Redo the last undone file operation.
    Redo,
    /// Show or hide hidden files.
    ToggleHidden,
    /// Delete the selection without the trash.
    DeletePermanently,
    /// Move the selection to the trash.
    Trash,
    /// Start renaming the selected entry.
    StartRename,
    /// Abandon the drag onto the sidebar.
    CancelDragLabel,
    /// Stop editing the address bar.
    CancelAddress,
    /// Quit the application.
    Quit,
    /// Select the previous entry.
    SelectPrev,
    /// Select the next entry.
    SelectNext,
    /// Select the first entry.
    SelectFirst,
    /// Select the last entry.
    SelectLast,
    /// Move the selection one page up.
    PageUp,
    /// Move the selection one page down.
    PageDown,
    /// Open the selected entry.
    EnterSelected,
    /// Select the entry to the right (grid view).
    SelectRight,
    /// Select the entry to the left (grid view).
    SelectLeft,
    /// Go to the parent folder.
    GoUp,
    /// Go to the home folder.
    GoHome,
    /// Go to the root folder.
    GoRoot,
    /// Read the folder again.
    Refresh,
    /// The key does nothing.
    Nothing,
}

/// The command of a key while one of the overlays (dialogs, pickers, help,
/// menus) is shown; `None` when none is.
pub open spec fn overlay_command(ctx: KeyContext, key: Key) -> Option<KeyCommand> {
    if ctx.progress_visible {
        Some(KeyCommand::ProgressDialogKey)
    } else if ctx.confirm_visible {
        Some(KeyCommand::ConfirmDialogKey)
    } else if ctx.conflict_visible {
        Some(KeyCommand::ConflictDialogKey)
    } else if ctx.input_visible {
        Some(KeyCommand::InputDialogKey)
    } else if ctx.app_picker_visible {
        Some(KeyCommand::AppPickerKey)
    } else if ctx.help_visible {
        Some(
            match key {
                Key::Escape | Key::F1 => KeyCommand::HideHelp,
                Key::Up | Key::Char('k') => KeyCommand::HelpScrollUp,
                Key::Down | Key::Char('j') => KeyCommand::HelpScrollDown,
                _ => KeyCommand::Nothing,
            },
        )
    } else if ctx.context_menu_visible {
        Some(KeyCommand::ContextMenuKey)
    } else {
        None
    }
}

/// The command of a key that leaves the current mode (drag, picker) or opens
/// help, or goes to the address bar or the inline rename editor; `None` when
/// the key is left to the shortcuts.
pub open spec fn mode_command(ctx: KeyContext, key: Key) -> Option<KeyCommand> {
    if key == Key::Escape && ctx.file_drag_active {
        Some(KeyCommand::CancelFileDrag)
    } else if key == Key::Escape && ctx.picker {
        Some(KeyCommand::CancelPicker)
    } else if key == Key::F1 {
        Some(KeyCommand::ShowHelp)
    } else if ctx.address_bar_active && !ctx.address_bar_passed {
        Some(
            if key == Key::Return {
                KeyCommand::ConfirmAddress
            } else {
                KeyCommand::AddressBarKey
            },
        )
    } else if ctx.renaming {
        Some(
            match key {
                Key::Escape => KeyCommand::CancelRename,
                Key::Return => KeyCommand::ConfirmRename,
                _ => KeyCommand::RenameKey,
            },
        )
    } else {
        None
    }
}

/// The digit keys '1' to '9' as a tab index from 0.
pub open spec fn digit_index(c: char) -> Option<usize> {
    if '1' <= c && c <= '9' {
        Some((c as u32 - '1' as u32) as usize)
    } else {
        None
    }
}

/// Shortcuts with Alt held.
pub open spec fn alt_command(key: Key) -> Option<KeyCommand> {
    match key {
        Key::Left => Some(KeyCommand::GoBack),
        Key::Right => Some(KeyCommand::GoForward),
        Key::Char(c) => match digit_index(c) {
            Some(i) => Some(KeyCommand::SwitchTab(i)),
            None => None,
        },
        _ => None,
    }
}

/// A letter key, in either case.
pub open spec fn is_letter(key: Key, lower: char, upper: char) -> bool {
    key == Key::Char(lower) || key == Key::Char(upper)
}

/// Shortcuts with Control and Shift held.
pub open spec fn ctrl_shift_command(key: Key) -> Option<KeyCommand> {
    if is_letter(key, 'n', 'N') {
        Some(KeyCommand::NewFolder)
    } else if is_letter(key, 'f', 'F') {
        Some(KeyCommand::NewFile)
    } else if is_letter(key, 'd', 'D') {
        Some(KeyCommand::Duplicate)
    } else if is_letter(key, 'h', 'H') {
        Some(KeyCommand::SplitHorizontal)
    } else if is_letter(key, 'v', 'V') {
        Some(KeyCommand::SplitVertical)
    } else if is_letter(key, 'w', 'W') {
        Some(KeyCommand::ClosePane)
    } else if key == Key::Left {
        Some(KeyCommand::FocusPaneLeft)
    } else if key == Key::Right {
        Some(KeyCommand::FocusPaneRight)
    } else if key == Key::Up {
        Some(KeyCommand::FocusPaneUp)
    } else if key == Key::Down {
        Some(KeyCommand::FocusPaneDown)
    } else if key == Key::Tab {
        Some(KeyCommand::PrevTab)
    } else {
        None
    }
}

/// Shortcuts with Control held.
pub open spec fn ctrl_command(key: Key) -> Option<KeyCommand> {
    if key == Key::Char('1') {
        Some(KeyCommand::SetViewMode(ViewMode::List))
    } else if key == Key::Char('2') {
        Some(KeyCommand::SetViewMode(ViewMode::Grid))
    } else if key == Key::Char('3') {
        Some(KeyCommand::SetViewMode(ViewMode::Columns))
    } else if is_letter(key, '+', '=') {
        Some(KeyCommand::IncreaseIconSize)
    } else if is_letter(key, '-', '_') {
        Some(KeyCommand::DecreaseIconSize)
    } else if is_letter(key, 't', 'T') {
        Some(KeyCommand::NewTab)
    } else if is_letter(key, 'w', 'W') {
        Some(KeyCommand::CloseTab)
    } else if key == Key::Tab {
        Some(KeyCommand::NextTab)
    } else if is_letter(key, 'a', 'A') {
        Some(KeyCommand::SelectAll)
    } else if is_letter(key, 'b', 'B') {
        Some(KeyCommand::ToggleSidebar)
    } else if is_letter(key, 'd', 'D') {
        Some(KeyCommand::ToggleBookmark)
    } else if is_letter(key, 'h', 'H') {
        Some(KeyCommand::ToggleHidden)
    } else if is_letter(key, 'l', 'L') {
        Some(KeyCommand::EditAddress)
    } else if is_letter(key, 'c', 'C') {
        Some(KeyCommand::Copy)
    } else if is_letter(key, 'x', 'X') {
        Some(KeyCommand::Cut)
    } else if is_letter(key, 'v', 'V') {
        Some(KeyCommand::Paste)
    } else if is_letter(key, 'z', 'Z') {
        Some(KeyCommand::Undo)
    } else if is_letter(key, 'y', 'Y') {
        Some(KeyCommand::Redo)
    } else {
        None
    }
}

/// Shortcuts with modifiers, in the order in which they are tried.
pub open spec fn chord_command(key: Key, mods: Modifiers) -> Option<KeyCommand> {
    let alt = if mods.alt { alt_command(key) } else { None };
    let ctrl_shift = if mods.ctrl && mods.shift { ctrl_shift_command(key) } else { None };
    let ctrl = if mods.ctrl { ctrl_command(key) } else { None };
    if alt is Some {
        alt
    } else if ctrl_shift is Some {
        ctrl_shift
    } else if ctrl is Some {
        ctrl
    } else if mods.shift && key == Key::Delete {
        Some(KeyCommand::DeletePermanently)
    } else {
        None
    }
}

/// The command of a key that no overlay, mode or shortcut took.
pub open spec fn plain_command(ctx: KeyContext, key: Key) -> KeyCommand {
    match key {
        Key::Delete => KeyCommand::Trash,
        Key::F2 => KeyCommand::StartRename,
        Key::Escape => if ctx.drag_label_active {
            KeyCommand::CancelDragLabel
        } else if ctx.address_bar_active {
            KeyCommand::CancelAddress
        } else {
            KeyCommand::Quit
        },
        Key::Up | Key::Char('k') => KeyCommand::SelectPrev,
        Key::Down | Key::Char('j') => KeyCommand::SelectNext,
        Key::Home | Key::Char('g') => KeyCommand::SelectFirst,
        Key::End | Key::Char('G') => KeyCommand::SelectLast,
        Key::PageUp => KeyCommand::PageUp,
        Key::PageDown => KeyCommand::PageDown,
        Key::Return => KeyCommand::EnterSelected,
        Key::Right | Key::Char('l') => if ctx.grid_view {
            KeyCommand::SelectRight
        } else {
            KeyCommand::EnterSelected
        },
        Key::Left => if ctx.grid_view {
            KeyCommand::SelectLeft
        } else {
            KeyCommand::GoUp
        },
        Key::Backspace | Key::Char('h') => KeyCommand::GoUp,
        Key::Char('H') => KeyCommand::ToggleHidden,
        Key::Char('~') => KeyCommand::GoHome,
        Key::Char('/') => KeyCommand::GoRoot,
        Key::Char('q') => KeyCommand::Quit,
        Key::Char('r') | Key::F5 => KeyCommand::Refresh,
        _ => KeyCommand::Nothing,
    }
}

/// The command a key press stands for: overlays first, then modes, then
/// shortcuts with modifiers, then the plain keys.
pub open spec fn key_command(ctx: KeyContext, key: Key, mods: Modifiers) -> KeyCommand {
    match overlay_command(ctx, key) {
        Some(c) => c,
        None => match mode_command(ctx, key) {
            Some(c) => c,
            None => match chord_command(key, mods) {
                Some(c) => c,
                None => plain_command(ctx, key),
            },
        },
    }
}

fn overlay_key(ctx: &KeyContext, key: Key) -> (res: Option<KeyCommand>)
    ensures
        res == overlay_command(*ctx, key),
{
    if ctx.progress_visible {
        Some(KeyCommand::ProgressDialogKey)
    } else if ctx.confirm_visible {
        Some(KeyCommand::ConfirmDialogKey)
    } else if ctx.conflict_visible {
        Some(KeyCommand::ConflictDialogKey)
    } else if ctx.input_visible {
        Some(KeyCommand::InputDialogKey)
    } else if ctx.app_picker_visible {
        Some(KeyCommand::AppPickerKey)
    } else if ctx.help_visible {
        let c = match key {
            Key::Escape | Key::F1 => KeyCommand::HideHelp,
            Key::Up | Key::Char('k') => KeyCommand::HelpScrollUp,
            Key::Down | Key::Char('j') => KeyCommand::HelpScrollDown,
            _ => KeyCommand::Nothing,
        };
        Some(c)
    } else if ctx.context_menu_visible {
        Some(KeyCommand::ContextMenuKey)
    } else {
        None
    }
}

fn mode_key(ctx: &KeyContext, key: Key) -> (res: Option<KeyCommand>)
    ensures
        res == mode_command(*ctx, key),
{
    let escape = key == Key::Escape;
    if escape && ctx.file_drag_active {
        Some(KeyCommand::CancelFileDrag)
    } else if escape && ctx.picker {
        Some(KeyCommand::CancelPicker)
    } else if key == Key::F1 {
        Some(KeyCommand::ShowHelp)
    } else if ctx.address_bar_active && !ctx.address_bar_passed {
        if key == Key::Return {
            Some(KeyCommand::ConfirmAddress)
        } else {
            Some(KeyCommand::AddressBarKey)
        }
    } else if ctx.renaming {
        let c = match key {
            Key::Escape => KeyCommand::CancelRename,
            Key::Return => KeyCommand::ConfirmRename,
            _ => KeyCommand::RenameKey,
        };
        Some(c)
    } else {
        None
    }
}

fn alt_key(key: Key) -> (res: Option<KeyCommand>)
    ensures
        res == alt_command(key),
{
    match key {
        Key::Left => Some(KeyCommand::GoBack),
        Key::Right => Some(KeyCommand::GoForward),
        Key::Char(c) => {
            if '1' <= c && c <= '9' {
                Some(KeyCommand::SwitchTab((c as u32 - '1' as u32) as usize))
            } else {
                None
            }
        },
        _ => None,
    }
}

fn letter(key: Key, lower: char, upper: char) -> (res: bool)
    ensures
        res == is_letter(key, lower, upper),
{
    key == Key::Char(lower) || key == Key::Char(upper)
}

fn ctrl_shift_key(key: Key) -> (res: Option<KeyCommand>)
    ensures
        res == ctrl_shift_command(key),
{
    if letter(key, 'n', 'N') {
        Some(KeyCommand::NewFolder)
    } else if letter(key, 'f', 'F') {
        Some(KeyCommand::NewFile)
    } else if letter(key, 'd', 'D') {
        Some(KeyCommand::Duplicate)
    } else if letter(key, 'h', 'H') {
        Some(KeyCommand::SplitHorizontal)
    } else if letter(key, 'v', 'V') {
        Some(KeyCommand::SplitVertical)
    } else if letter(key, 'w', 'W') {
        Some(KeyCommand::ClosePane)
    } else if key == Key::Left {
        Some(KeyCommand::FocusPaneLeft)
    } else if key == Key::Right {
        Some(KeyCommand::FocusPaneRight)
    } else if key == Key::Up {
        Some(KeyCommand::FocusPaneUp)
    } else if key == Key::Down {
        Some(KeyCommand::FocusPaneDown)
    } else if key == Key::Tab {
        Some(KeyCommand::PrevTab)
    } else {
        None
    }
}

fn ctrl_key(key: Key) -> (res: Option<KeyCommand>)
    ensures
        res == ctrl_command(key),
{
    if key == Key::Char('1') {
        Some(KeyCommand::SetViewMode(ViewMode::List))
    } else if key == Key::Char('2') {
        Some(KeyCommand::SetViewMode(ViewMode::Grid))
    } else if key == Key::Char('3') {
        Some(KeyCommand::SetViewMode(ViewMode::Columns))
    } else if letter(key, '+', '=') {
        Some(KeyCommand::IncreaseIconSize)
    } else if letter(key, '-', '_') {
        Some(KeyCommand::DecreaseIconSize)
    } else if letter(key, 't', 'T') {
        Some(KeyCommand::NewTab)
    } else if letter(key, 'w', 'W') {
        Some(KeyCommand::CloseTab)
    } else if key == Key::Tab {
        Some(KeyCommand::NextTab)
    } else if letter(key, 'a', 'A') {
        Some(KeyCommand::SelectAll)
    } else if letter(key, 'b', 'B') {
        Some(KeyCommand::ToggleSidebar)
    } else if letter(key, 'd', 'D') {
        Some(KeyCommand::ToggleBookmark)
    } else if letter(key, 'h', 'H') {
        Some(KeyCommand::ToggleHidden)
    } else if letter(key, 'l', 'L') {
        Some(KeyCommand::EditAddress)
    } else if letter(key, 'c', 'C') {
        Some(KeyCommand::Copy)
    } else if letter(key, 'x', 'X') {
        Some(KeyCommand::Cut)
    } else if letter(key, 'v', 'V') {
        Some(KeyCommand::Paste)
    } else if letter(key, 'z', 'Z') {
        Some(KeyCommand::Undo)
    } else if letter(key, 'y', 'Y') {
        Some(KeyCommand::Redo)
    } else {
        None
    }
}

fn chord_key(key: Key, mods: Modifiers) -> (res: Option<KeyCommand>)
    ensures
        res == chord_command(key, mods),
{
    if mods.alt {
        let c = alt_key(key);
        if c.is_some() {
            return c;
        }
    }
    if mods.ctrl && mods.shift {
        let c = ctrl_shift_key(key);
        if c.is_some() {
            return c;
        }
    }
    if mods.ctrl {
        let c = ctrl_key(key);
        if c.is_some() {
            return c;
        }
    }
    if mods.shift && key == Key::Delete {
        Some(KeyCommand::DeletePermanently)
    } else {
        None
    }
}

fn plain_key(ctx: &KeyContext, key: Key) -> (res: KeyCommand)
    ensures
        res == plain_command(*ctx, key),
{
    match key {
        Key::Delete => KeyCommand::Trash,
        Key::F2 => KeyCommand::StartRename,
        Key::Escape => {
            if ctx.drag_label_active {
                KeyCommand::CancelDragLabel
            } else if ctx.address_bar_active {
                KeyCommand::CancelAddress
            } else {
                KeyCommand::Quit
            }
        },
        Key::Up | Key::Char('k') => KeyCommand::SelectPrev,
        Key::Down | Key::Char('j') => KeyCommand::SelectNext,
        Key::Home | Key::Char('g') => KeyCommand::SelectFirst,
        Key::End | Key::Char('G') => KeyCommand::SelectLast,
        Key::PageUp => KeyCommand::PageUp,
        Key::PageDown => KeyCommand::PageDown,
        Key::Return => KeyCommand::EnterSelected,
        Key::Right | Key::Char('l') => {
            if ctx.grid_view {
                KeyCommand::SelectRight
            } else {
                KeyCommand::EnterSelected
            }
        },
        Key::Left => {
            if ctx.grid_view {
                KeyCommand::SelectLeft
            } else {
                KeyCommand::GoUp
            }
        },
        Key::Backspace | Key::Char('h') => KeyCommand::GoUp,
        Key::Char('H') => KeyCommand::ToggleHidden,
        Key::Char('~') => KeyCommand::GoHome,
        Key::Char('/') => KeyCommand::GoRoot,
        Key::Char('q') => KeyCommand::Quit,
        Key::Char('r') | Key::F5 => KeyCommand::Refresh,
        _ => KeyCommand::Nothing,
    }
}

/// Decide which command a key press stands for in the given state of the
/// window. An overlay that is shown takes every key; then leaving a drag or
/// the picker, help, the address bar and the inline rename editor come before
/// the shortcuts. Where the address bar does not take a key, the caller asks
/// again with `address_bar_passed` set.
pub fn dispatch_key(ctx: &KeyContext, key: Key, mods: Modifiers) -> (res: KeyCommand)
    ensures
        res == key_command(*ctx, key, mods),
{
    match overlay_key(ctx, key) {
        Some(c) => c,
        None => match mode_key(ctx, key) {
            Some(c) => c,
            None => match chord_key(key, mods) {
                Some(c) => c,
                None => plain_key(ctx, key),
            },
        },
    }
}

/// No overlay is shown.
pub open spec fn no_overlay(ctx: KeyContext) -> bool {
    !ctx.progress_visible && !ctx.confirm_visible && !ctx.conflict_visible && !ctx.input_visible
        && !ctx.app_picker_visible && !ctx.help_visible && !ctx.context_menu_visible
}

/// While the progress dialog is shown, it takes every key.
pub proof fn law_progress_takes_every_key(ctx: KeyContext, key: Key, mods: Modifiers)
    requires
        ctx.progress_visible,
    ensures
        key_command(ctx, key, mods) == KeyCommand::ProgressDialogKey,
{
}

/// No key quits while an overlay is shown.
pub proof fn law_overlay_never_quits(ctx: KeyContext, key: Key, mods: Modifiers)
    requires
        !no_overlay(ctx),
    ensures
        key_command(ctx, key, mods) != KeyCommand::Quit,
{
}

/// Escape quits exactly when nothing else is open or under way: no overlay,
/// no drag, no picker, no address bar editing and no rename.
pub proof fn law_escape_quits_when_idle(ctx: KeyContext, mods: Modifiers)
    ensures
        (key_command(ctx, Key::Escape, mods) == KeyCommand::Quit) <==> (no_overlay(ctx)
            && !ctx.file_drag_active && !ctx.picker && !ctx.address_bar_active && !ctx.renaming
            && !ctx.drag_label_active),
{
}

/// While an entry is renamed, every key that no overlay, drag, picker, help
/// or address bar takes goes to the rename editor: Escape abandons it, Return
/// applies it, and nothing else happens.
pub proof fn law_rename_takes_keys(ctx: KeyContext, key: Key, mods: Modifiers)
    requires
        no_overlay(ctx),
        ctx.renaming,
        !(key == Key::Escape && (ctx.file_drag_active || ctx.picker)),
        key != Key::F1,
        !ctx.address_bar_active || ctx.address_bar_passed,
    ensures
        key_command(ctx, key, mods) == (match key {
            Key::Escape => KeyCommand::CancelRename,
            Key::Return => KeyCommand::ConfirmRename,
            _ => KeyCommand::RenameKey,
        }),
{
}

/// Alt with a digit from 1 to 9 activates the tab with that number, counted
/// from 1, whenever no overlay or mode takes the key.
pub proof fn law_alt_digit_switches_tab(ctx: KeyContext, d: u32, mods: Modifiers)
    requires
        no_overlay(ctx),
        1 <= d <= 9,
        mode_command(ctx, Key::Char(('0' as u32 + d) as char)) is None,
        mods.alt,
    ensures
        key_command(ctx, Key::Char(('0' as u32 + d) as char), mods) == KeyCommand::SwitchTab(
            (d - 1) as usize,
        ),
{
}

/// In the file list, with no overlay shown, no address bar or rename editor
/// taking keys and no modifier held, Down and `j` move the selection down
/// and Up and `k` move it up, Home and End go to the first and last entry,
/// the page keys move by a page, Return opens the selected entry and
/// Backspace goes to the parent folder.
pub proof fn law_arrows_move_selection(ctx: KeyContext, mods: Modifiers)
    requires
        no_overlay(ctx),
        !ctx.address_bar_active || ctx.address_bar_passed,
        !ctx.renaming,
        !mods.shift && !mods.ctrl && !mods.alt,
    ensures
        key_command(ctx, Key::Down, mods) == KeyCommand::SelectNext,
        key_command(ctx, Key::Char('j'), mods) == KeyCommand::SelectNext,
        key_command(ctx, Key::Up, mods) == KeyCommand::SelectPrev,
        key_command(ctx, Key::Char('k'), mods) == KeyCommand::SelectPrev,
        key_command(ctx, Key::Home, mods) == KeyCommand::SelectFirst,
        key_command(ctx, Key::End, mods) == KeyCommand::SelectLast,
        key_command(ctx, Key::PageUp, mods) == KeyCommand::PageUp,
        key_command(ctx, Key::PageDown, mods) == KeyCommand::PageDown,
        key_command(ctx, Key::Return, mods) == KeyCommand::EnterSelected,
        key_command(ctx, Key::Backspace, mods) == KeyCommand::GoUp,
{
}

} // verus!
