//! Clipboard state for copy/cut/paste of files.
use vstd::prelude::*;
use crate::text::{decimal, decimal_string, push_str};

verus! {

/// Operation type for clipboard contents.
#[derive(Debug, Clone, Copy, PartialEq, Eq, Structural)]
pub enum ClipboardOperation {
    /// Files will be copied.
    Copy,
    /// Files will be moved (cut).
    Cut,
}

/// Abstract state of a clipboard.
pub struct ClipboardState {
    /// Paths held.
    pub files: Seq<String>,
    /// Pending operation, if any.
    pub operation: Option<ClipboardOperation>,
}

/// The state after `copy(files)`.
pub open spec fn copy_spec(files: Seq<String>) -> ClipboardState {
    ClipboardState { files, operation: Some(ClipboardOperation::Copy) }
}

/// The state after `cut(files)`.
pub open spec fn cut_spec(files: Seq<String>) -> ClipboardState {
    ClipboardState { files, operation: Some(ClipboardOperation::Cut) }
}

/// The empty clipboard.
pub open spec fn empty_clipboard() -> ClipboardState {
    ClipboardState { files: Seq::empty(), operation: None }
}

/// The clipboard holds files to paste.
pub open spec fn has_files_spec(s: ClipboardState) -> bool {
    s.files.len() > 0 && s.operation is Some
}

/// What `take` returns and leaves behind: a copy stays for further pastes,
/// a cut empties the clipboard.
pub open spec fn take_spec(s: ClipboardState) -> (
    Option<(Seq<String>, ClipboardOperation)>,
    ClipboardState,
) {
    if !has_files_spec(s) {
        (None, s)
    } else {
        let op = s.operation->0;
        if op == ClipboardOperation::Copy {
            (Some((s.files, op)), s)
        } else {
            (Some((s.files, op)), ClipboardState { files: Seq::empty(), operation: None })
        }
    }
}

/// The word used in the status text for an operation.
pub open spec fn op_word(op: ClipboardOperation) -> Seq<char> {
    match op {
        ClipboardOperation::Copy => "copied"@,
        ClipboardOperation::Cut => "cut"@,
    }
}

/// Status text: "1 item copied", "3 items cut", ...
pub open spec fn status_text_spec(s: ClipboardState) -> Option<Seq<char>> {
    if !has_files_spec(s) {
        None
    } else if s.files.len() == 1 {
        Some("1 item "@ + op_word(s.operation->0))
    } else {
        Some(decimal(s.files.len()) + " items "@ + op_word(s.operation->0))
    }
}

/// Clipboard holding files for copy/cut operations.
#[derive(Debug)]
pub struct Clipboard {
    /// Files in the clipboard.
    files: Vec<String>,
    /// Operation to perform.
    operation: Option<ClipboardOperation>,
}

impl Clipboard {
    /// The abstract state of the clipboard.
    pub closed spec fn state(&self) -> ClipboardState {
        ClipboardState { files: self.files@, operation: self.operation }
    }

    /// Create a new empty clipboard.
    pub fn new() -> (res: Self)
        ensures
            res.state() == empty_clipboard(),
    {
        Clipboard { files: Vec::new(), operation: None }
    }

    /// Copy files to clipboard.
    pub fn copy(&mut self, files: Vec<String>)
        ensures
            final(self).state() == copy_spec(files@),
    {
        self.files = files;
        self.operation = Some(ClipboardOperation::Copy);
    }

    /// Cut files to clipboard.
    pub fn cut(&mut self, files: Vec<String>)
        ensures
            final(self).state() == cut_spec(files@),
    {
        self.files = files;
        self.operation = Some(ClipboardOperation::Cut);
    }

    /// Clear the clipboard.
    pub fn clear(&mut self)
        ensures
            final(self).state() == empty_clipboard(),
    {
        self.files.clear();
        self.operation = None;
    }

    /// Get files in the clipboard.
    pub fn files(&self) -> (res: &[String])
        ensures
            res@ == self.state().files,
    {
        self.files.as_slice()
    }

    /// Get the operation type.
    pub fn operation(&self) -> (res: Option<ClipboardOperation>)
        ensures
            res == self.state().operation,
    {
        self.operation
    }

    /// Check if clipboard has files.
    pub fn has_files(&self) -> (res: bool)
        ensures
            res == has_files_spec(self.state()),
    {
        !self.files.is_empty() && self.operation.is_some()
    }

    /// Check if this is a cut operation.
    pub fn is_cut(&self) -> (res: bool)
        ensures
            res == (self.state().operation == Some(ClipboardOperation::Cut)),
    {
        match self.operation {
            Some(ClipboardOperation::Cut) => true,
            _ => false,
        }
    }

    /// Get status text for display.
    pub fn status_text(&self) -> (res: Option<String>)
        ensures
            res matches Some(t) ==> status_text_spec(self.state()) == Some(t@),
            res is None ==> status_text_spec(self.state()) is None,
    {
        if !self.has_files() {
            return None;
        }
        let count = self.files.len();
        let op: &str = match self.operation {
            Some(ClipboardOperation::Copy) => "copied",
            Some(ClipboardOperation::Cut) => "cut",
            None => {
                return None;
            },
        };
        let mut s = String::new();
        if count == 1 {
            push_str(&mut s, "1 item ");
        } else {
            s = decimal_string(count as u64);
            push_str(&mut s, " items ");
        }
        push_str(&mut s, op);
        Some(s)
    }

    /// Take files from clipboard (consumes for cut operations).
    pub fn take(&mut self) -> (res: Option<(Vec<String>, ClipboardOperation)>)
        ensures
            ({
                let (r, s) = take_spec(old(self).state());
                &&& final(self).state() == s
                &&& match res {
                    Some((files, op)) => r == Some((files@, op)),
                    None => r is None,
                }
            }),
    {
        if !self.has_files() {
            return None;
        }
        let mut files: Vec<String> = Vec::new();
        std::mem::swap(&mut files, &mut self.files);
        let op = match self.operation.take() {
            Some(op) => op,
            None => {
                return None;
            },
        };
        if op == ClipboardOperation::Copy {
            self.files = files.clone();
            self.operation = Some(op);
        }
        Some((files, op))
    }
}

/// Copying files and then taking them gives the files back for a copy and
/// leaves them in place, so they can be pasted again.
pub proof fn law_copy_take_keeps(files: Seq<String>)
    requires
        files.len() > 0,
    ensures
        take_spec(copy_spec(files)) == (
            Some((files, ClipboardOperation::Copy)),
            copy_spec(files),
        ),
{
}

/// Cutting files and then taking them gives the files back once and
/// empties the clipboard.
pub proof fn law_cut_take_empties(files: Seq<String>)
    requires
        files.len() > 0,
    ensures
        take_spec(cut_spec(files)) == (Some((files, ClipboardOperation::Cut)), empty_clipboard()),
        !has_files_spec(take_spec(cut_spec(files)).1),
{
}

} // verus!
