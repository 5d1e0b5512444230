//! Requests and replies exchanged with the explorer over its control socket.
use vstd::prelude::*;
use crate::path::{join, join_path};

verus! {

/// IPC request from client to the explorer.
#[derive(Debug)]
pub enum Command {
    /// Open a directory.
    Open {
        path: String,
        /// Open in new tab instead of current view.
        new_tab: bool,
    },
    /// Query current directory.
    CurrentDir,
    /// Query status.
    Status,
    /// Request file picker dialog.
    FilePicker {
        /// Dialog title.
        title: Option<String>,
        /// Starting directory.
        start_dir: Option<String>,
        /// File type filters (e.g., "*.rs", "*.txt").
        filters: Vec<String>,
        /// Allow selecting multiple files.
        multiple: bool,
    },
    /// Request folder picker dialog.
    FolderPicker {
        /// Dialog title.
        title: Option<String>,
        /// Starting directory.
        start_dir: Option<String>,
    },
    /// Quit.
    Quit,
}

/// Status information returned by the Status command.
#[derive(Debug)]
pub struct StatusInfo {
    /// Current working directory.
    pub current_dir: String,
    /// Number of open tabs.
    pub tab_count: usize,
    /// Number of selected files.
    pub selection_count: usize,
}

/// Result of a file picker dialog.
#[derive(Debug)]
pub struct PickerResult {
    /// Selected file paths (empty if cancelled).
    pub paths: Vec<String>,
    /// Whether the dialog was cancelled.
    pub cancelled: bool,
}

/// IPC response from the explorer to a client.
#[derive(Debug)]
pub struct Response {
    /// Whether the command succeeded.
    pub success: bool,
    /// Response data (command-specific), as JSON text.
    pub data: Option<String>,
    /// Error message if failed.
    pub error: Option<String>,
}

impl Response {
    /// Create a successful response with no data.
    pub fn ok() -> (res: Self)
        ensures
            res.success,
            res.data is None,
            res.error is None,
    {
        Response { success: true, data: None, error: None }
    }

    /// Create an error response.
    pub fn err(message: String) -> (res: Self)
        ensures
            !res.success,
            res.data is None,
            res.error == Some(message),
    {
        Response { success: false, data: None, error: Some(message) }
    }
}

/// The control socket under the runtime directory (`/tmp` where it is
/// unknown).
pub open spec fn socket_path_in(runtime_dir: Option<String>) -> Seq<char> {
    match runtime_dir {
        Some(d) => join(d@, "garfield.sock"@),
        None => join("/tmp"@, "garfield.sock"@),
    }
}

/// The control socket under the runtime directory (`/tmp` where it is
/// unknown).
pub fn socket_path_for(runtime_dir: Option<String>) -> (res: String)
    ensures
        res@ == socket_path_in(runtime_dir),
{
    let base = match runtime_dir {
        Some(d) => d,
        None => crate::text::copy_string("/tmp"),
    };
    join_path(base.as_str(), "garfield.sock")
}

} // verus!
