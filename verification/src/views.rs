//! View settings, dialog choices and inline text editing.
use vstd::prelude::*;
use crate::keys::Key;
use crate::text::{all_ascii, is_ascii_char};

verus! {

/// Padding around grid cells.
pub const CELL_PADDING: u32 = 8;

/// Icon size setting for grid view.
#[derive(Debug, Clone, Copy, PartialEq, Eq, Structural, Default)]
pub enum IconSize {
    Small,
    #[default]
    Medium,
    Large,
}

/// Size of a grid cell.
pub open spec fn cell_size_spec(s: IconSize) -> u32 {
    match s {
        IconSize::Small => 70,
        IconSize::Medium => 100,
        IconSize::Large => 140,
    }
}

/// Size of an icon within its cell.
pub open spec fn icon_size_spec(s: IconSize) -> u32 {
    match s {
        IconSize::Small => 32,
        IconSize::Medium => 48,
        IconSize::Large => 64,
    }
}

/// The next larger size (the largest stays).
pub open spec fn next_size(s: IconSize) -> IconSize {
    match s {
        IconSize::Small => IconSize::Medium,
        IconSize::Medium => IconSize::Large,
        IconSize::Large => IconSize::Large,
    }
}

/// The next smaller size (the smallest stays).
pub open spec fn prev_size(s: IconSize) -> IconSize {
    match s {
        IconSize::Small => IconSize::Small,
        IconSize::Medium => IconSize::Small,
        IconSize::Large => IconSize::Medium,
    }
}

impl IconSize {
    /// Get the cell size for this icon size.
    pub fn cell_size(&self) -> (res: u32)
        ensures
            res == cell_size_spec(*self),
    {
        match self {
            IconSize::Small => 70,
            IconSize::Medium => 100,
            IconSize::Large => 140,
        }
    }

    /// Get the icon size within the cell.
    pub fn icon_size(&self) -> (res: u32)
        ensures
            res == icon_size_spec(*self),
    {
        match self {
            IconSize::Small => 32,
            IconSize::Medium => 48,
            IconSize::Large => 64,
        }
    }

    /// Cycle to the next (larger) size.
    pub fn next(&self) -> (res: Self)
        ensures
            res == next_size(*self),
    {
        match self {
            IconSize::Small => IconSize::Medium,
            IconSize::Medium => IconSize::Large,
            IconSize::Large => IconSize::Large,
        }
    }

    /// Cycle to the previous (smaller) size.
    pub fn prev(&self) -> (res: Self)
        ensures
            res == prev_size(*self),
    {
        match self {
            IconSize::Small => IconSize::Small,
            IconSize::Medium => IconSize::Small,
            IconSize::Large => IconSize::Medium,
        }
    }

    /// Get display name.
    pub fn name(&self) -> (res: &'static str)
        ensures
            res@ == match *self {
                IconSize::Small => "Small"@,
                IconSize::Medium => "Medium"@,
                IconSize::Large => "Large"@,
            },
    {
        match self {
            IconSize::Small => "Small",
            IconSize::Medium => "Medium",
            IconSize::Large => "Large",
        }
    }
}

/// Growing then shrinking returns to the same size, below the largest; and
/// shrinking then growing, above the smallest.
pub proof fn law_icon_size_steps(s: IconSize)
    ensures
        s != IconSize::Large ==> prev_size(next_size(s)) == s,
        s != IconSize::Small ==> next_size(prev_size(s)) == s,
{
}

/// Larger sizes have larger cells and icons, and the icon fits in its cell.
pub proof fn law_icon_size_monotone(s: IconSize)
    ensures
        s != IconSize::Large ==> cell_size_spec(s) < cell_size_spec(next_size(s)) && icon_size_spec(s)
            < icon_size_spec(next_size(s)),
        icon_size_spec(s) + 2 * CELL_PADDING <= cell_size_spec(s),
{
}

/// View mode for displaying files.
#[derive(Debug, Clone, Copy, PartialEq, Eq, Structural, Default)]
pub enum ViewMode {
    #[default]
    List,
    Grid,
    Columns,
}

impl ViewMode {
    /// Get display name.
    pub fn name(&self) -> (res: &'static str)
        ensures
            res@ == match *self {
                ViewMode::List => "List"@,
                ViewMode::Grid => "Grid"@,
                ViewMode::Columns => "Columns"@,
            },
    {
        match self {
            ViewMode::List => "List",
            ViewMode::Grid => "Grid",
            ViewMode::Columns => "Columns",
        }
    }
}

/// Split direction for panes.
#[derive(Debug, Clone, Copy, PartialEq, Eq, Structural)]
pub enum SplitDirection {
    Horizontal,
    Vertical,
}

/// A toolbar button's action.
#[derive(Debug, Clone, Copy, PartialEq, Eq, Structural)]
pub enum ToolbarAction {
    /// Switch to list view.
    ViewList,
    /// Switch to grid view.
    ViewGrid,
    /// Switch to column view.
    ViewColumns,
    /// Create new tab.
    NewTab,
    /// Split pane horizontally.
    SplitHorizontal,
    /// Split pane vertically.
    SplitVertical,
    /// Go back in history.
    GoBack,
    /// Go forward in history.
    GoForward,
    /// Go up to parent directory.
    GoUp,
    /// Show help modal.
    Help,
    /// Copy selected files.
    Copy,
    /// Cut selected files.
    Cut,
    /// Paste files from clipboard.
    Paste,
    /// Delete selected files to trash.
    Trash,
    /// Create new folder.
    NewFolder,
}

/// What a click on the picker toolbar hit.
#[derive(Debug, Clone, Copy, PartialEq, Eq, Structural)]
pub enum PickerToolbarClick {
    /// Accept button clicked.
    Accept,
    /// Cancel button clicked.
    Cancel,
    /// Nothing clicked.
    Nothing,
}

/// Title and state of a tab in the tab bar.
#[derive(Debug)]
pub struct TabInfo {
    /// Tab title.
    pub title: String,
    /// Whether this tab is active.
    pub active: bool,
}

/// Result of a click in the column view.
#[derive(Debug, Clone, PartialEq, Eq)]
pub enum ColumnClickResult {
    /// Clicked in current column, selected index.
    Selected(usize),
    /// Request to navigate to a path.
    Navigate(String),
    /// No action.
    Nothing,
}

/// A dialog button.
#[derive(Debug, Clone, Copy, PartialEq, Eq, Structural)]
pub enum DialogButton {
    Okay,
    Cancel,
    Yes,
    No,
}

/// Dialog result.
#[derive(Debug, Clone, Copy, PartialEq, Eq, Structural)]
pub enum DialogResult {
    Confirmed,
    Cancelled,
}

/// How to resolve a file name conflict.
#[derive(Debug, Clone, Copy, PartialEq, Eq, Structural)]
pub enum ConflictAction {
    /// Replace the existing file.
    Replace,
    /// Skip this file.
    Skip,
    /// Keep both (auto-rename).
    KeepBoth,
    /// Cancel the entire operation.
    Cancel,
}

/// Result of a text input dialog.
#[derive(Debug)]
pub enum InputResult {
    /// User submitted the input.
    Submitted(String),
    /// User cancelled.
    Cancelled,
}

/// Progress information for an operation.
#[derive(Debug)]
pub struct ProgressInfo {
    /// Current item being processed.
    pub current_item: String,
    /// Current item index (1-based).
    pub current: usize,
    /// Total items.
    pub total: usize,
    /// Bytes processed (for copy/move).
    pub bytes_done: u64,
    /// Total bytes (for copy/move).
    pub bytes_total: u64,
}

impl ProgressInfo {
    /// Create new progress info.
    pub fn new(total: usize) -> (res: Self)
        ensures
            res.current_item@ == Seq::<char>::empty(),
            res.current == 0,
            res.total == total,
            res.bytes_done == 0,
            res.bytes_total == 0,
    {
        ProgressInfo { current_item: String::new(), current: 0, total, bytes_done: 0, bytes_total: 0 }
    }
}

// ---------------------------------------------------------------------------
// Inline rename
// ---------------------------------------------------------------------------
/// State for inline rename operation.
#[derive(Debug)]
pub struct RenameState {
    /// Index of the entry being renamed.
    pub index: usize,
    /// Original filename (for cancel).
    pub original: String,
    /// Current edited text.
    pub text: String,
    /// Cursor position in the text.
    pub cursor: usize,
    /// Selection start (for text selection).
    pub selection_start: Option<usize>,
}

/// The editable part of a rename: text, cursor and selection start.
pub struct EditState {
    /// The text.
    pub text: Seq<char>,
    /// Cursor position.
    pub cursor: int,
    /// Selection start, if text is selected (between it and the cursor).
    pub selection: Option<int>,
}

/// Editing positions are inside the text and the text is ASCII (positions
/// count bytes in the text, which are characters only for ASCII text).
pub open spec fn edit_wf(e: EditState) -> bool {
    &&& all_ascii(e.text)
    &&& 0 <= e.cursor <= e.text.len()
    &&& e.selection matches Some(s) ==> 0 <= s <= e.text.len()
}

/// Removing the selected text: the cursor goes to its start.
pub open spec fn delete_selection_spec(e: EditState) -> EditState {
    match e.selection {
        None => e,
        Some(s) => {
            let (from, to) = if s < e.cursor {
                (s, e.cursor)
            } else {
                (e.cursor, s)
            };
            EditState { text: e.text.take(from) + e.text.skip(to), cursor: from, selection: None }
        },
    }
}

/// The effect of a key on the rename text; `None` for keys that the rename
/// field does not take.
pub open spec fn edit_key_spec(e: EditState, key: Key) -> Option<EditState> {
    match key {
        Key::Return | Key::Escape => Some(e),
        Key::Backspace => if e.selection is Some {
            Some(delete_selection_spec(e))
        } else if e.cursor > 0 {
            Some(EditState { text: e.text.remove(e.cursor - 1), cursor: e.cursor - 1, selection: None })
        } else {
            Some(e)
        },
        Key::Delete => if e.selection is Some {
            Some(delete_selection_spec(e))
        } else if e.cursor < e.text.len() {
            Some(EditState { text: e.text.remove(e.cursor), cursor: e.cursor, selection: None })
        } else {
            Some(e)
        },
        Key::Left => Some(
            EditState {
                text: e.text,
                cursor: if e.cursor > 0 {
                    e.cursor - 1
                } else {
                    0
                },
                selection: None,
            },
        ),
        Key::Right => Some(
            EditState {
                text: e.text,
                cursor: if e.cursor < e.text.len() {
                    e.cursor + 1
                } else {
                    e.cursor
                },
                selection: None,
            },
        ),
        Key::Home => Some(EditState { text: e.text, cursor: 0, selection: None }),
        Key::End => Some(EditState { text: e.text, cursor: e.text.len() as int, selection: None }),
        Key::Char(c) => {
            let d = delete_selection_spec(e);
            Some(EditState { text: d.text.insert(d.cursor, c), cursor: d.cursor + 1, selection: None })
        },
        _ => None,
    }
}

impl RenameState {
    /// The editable part of the state.
    pub open spec fn edit(&self) -> EditState {
        EditState {
            text: self.text@,
            cursor: self.cursor as int,
            selection: match self.selection_start {
                Some(s) => Some(s as int),
                None => None,
            },
        }
    }

    /// Starts renaming the entry at `index` called `name`: all of the text
    /// is selected, the cursor at its end.
    pub fn start(index: usize, name: String) -> (res: Self)
        ensures
            res.index == index,
            res.original == name,
            res.text == name,
            res.cursor == name@.len(),
            res.selection_start == Some(0usize),
    {
        let len = name.as_str().unicode_len();
        RenameState { index, original: name.clone(), text: name, cursor: len, selection_start: Some(0) }
    }

    /// Delete selected text (if any).
    pub fn delete_selection(&mut self)
        requires
            edit_wf(old(self).edit()),
        ensures
            final(self).edit() == delete_selection_spec(old(self).edit()),
            edit_wf(final(self).edit()),
            final(self).index == old(self).index,
            final(self).original == old(self).original,
    {
        if let Some(start) = self.selection_start {
            let (from, to) = if start < self.cursor {
                (start, self.cursor)
            } else {
                (self.cursor, start)
            };
            let v = crate::text::chars_of(self.text.as_str());
            let mut out = crate::text::slice_chars(&v, 0, from);
            let tail = crate::text::slice_chars(&v, to, v.len());
            let mut i: usize = 0;
            while i < tail.len()
                invariant
                    i <= tail.len(),
                    out@ == v@.take(from as int) + tail@.take(i as int),
                decreases tail.len() - i,
            {
                out.push(tail[i]);
                assert(tail@.take(i + 1) == tail@.take(i as int).push(tail@[i as int]));
                i = i + 1;
            }
            assert(tail@.take(tail@.len() as int) == tail@);
            assert(v@.subrange(0, from as int) == v@.take(from as int));
            assert(tail@ == v@.skip(to as int));
            self.text = crate::text::string_of(&out);
            self.cursor = from;
            self.selection_start = None;
            proof {
                assert forall|i: int| 0 <= i < out@.len() implies is_ascii_char(#[trigger] out@[i]) by {
                    if i < from {
                        assert(out@[i] == v@[i]);
                    } else {
                        assert(out@[i] == v@[to + (i - from)]);
                    }
                }
            }
        }
    }

    /// Handle a key while renaming. Returns true if the key was taken
    /// (Escape and Return are left to the caller, which cancels or confirms).
    pub fn handle_key(&mut self, key: Key) -> (res: bool)
        requires
            edit_wf(old(self).edit()),
            key matches Key::Char(c) ==> is_ascii_char(c),
        ensures
            res == (edit_key_spec(old(self).edit(), key) is Some),
            res ==> final(self).edit() == edit_key_spec(old(self).edit(), key)->0,
            !res ==> final(self).edit() == old(self).edit(),
            edit_wf(final(self).edit()),
            final(self).index == old(self).index,
            final(self).original == old(self).original,
    {
        match key {
            Key::Escape | Key::Return => true,
            Key::Backspace => {
                if self.selection_start.is_some() {
                    self.delete_selection();
                } else if self.cursor > 0 {
                    self.cursor = self.cursor - 1;
                    self.remove_at(self.cursor);
                }
                true
            },
            Key::Delete => {
                if self.selection_start.is_some() {
                    self.delete_selection();
                } else if self.cursor < self.text.as_str().unicode_len() {
                    self.remove_at(self.cursor);
                }
                true
            },
            Key::Left => {
                self.selection_start = None;
                if self.cursor > 0 {
                    self.cursor = self.cursor - 1;
                }
                true
            },
            Key::Right => {
                self.selection_start = None;
                if self.cursor < self.text.as_str().unicode_len() {
                    self.cursor = self.cursor + 1;
                }
                true
            },
            Key::Home => {
                self.selection_start = None;
                self.cursor = 0;
                true
            },
            Key::End => {
                self.selection_start = None;
                self.cursor = self.text.as_str().unicode_len();
                true
            },
            Key::Char(c) => {
                if self.selection_start.is_some() {
                    self.delete_selection();
                }
                self.insert_at(self.cursor, c);
                self.cursor = self.cursor + 1;
                true
            },
            _ => false,
        }
    }

    fn remove_at(&mut self, i: usize)
        requires
            i < old(self).text@.len(),
            all_ascii(old(self).text@),
        ensures
            final(self).text@ == old(self).text@.remove(i as int),
            all_ascii(final(self).text@),
            final(self).cursor == old(self).cursor,
            final(self).selection_start == old(self).selection_start,
            final(self).index == old(self).index,
            final(self).original == old(self).original,
    {
        let mut v = crate::text::chars_of(self.text.as_str());
        v.remove(i);
        self.text = crate::text::string_of(&v);
        proof {
            assert forall|k: int| 0 <= k < v@.len() implies is_ascii_char(#[trigger] v@[k]) by {
                if k < i {
                    assert(v@[k] == old(self).text@[k]);
                } else {
                    assert(v@[k] == old(self).text@[k + 1]);
                }
            }
        }
    }

    fn insert_at(&mut self, i: usize, c: char)
        requires
            i <= old(self).text@.len(),
            all_ascii(old(self).text@),
            is_ascii_char(c),
        ensures
            final(self).text@ == old(self).text@.insert(i as int, c),
            final(self).text@.len() <= usize::MAX,
            all_ascii(final(self).text@),
            final(self).cursor == old(self).cursor,
            final(self).selection_start == old(self).selection_start,
            final(self).index == old(self).index,
            final(self).original == old(self).original,
    {
        let mut v = crate::text::chars_of(self.text.as_str());
        v.insert(i, c);
        let n = v.len();
        assert(v@.len() == n);
        self.text = crate::text::string_of(&v);
        proof {
            assert forall|k: int| 0 <= k < v@.len() implies is_ascii_char(#[trigger] v@[k]) by {
                if k < i {
                    assert(v@[k] == old(self).text@[k]);
                } else if k > i {
                    assert(v@[k] == old(self).text@[k - 1]);
                }
            }
        }
    }
}

} // verus!
