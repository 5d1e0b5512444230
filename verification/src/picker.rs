//! Command-line options and the file-picker configuration derived from them.
use vstd::prelude::*;
use crate::entry::{matches_any_filter, matches_any_spec, split_at_char, split_at_char_exec, EntryType, FileEntry};
use crate::text::{chars_of, copy_string, string_of, trim, trim_chars};

verus! {

/// Command-line arguments of the explorer.
#[derive(Debug)]
pub struct Args {
    /// Starting directory.
    pub start_dir: Option<String>,
    /// Enable file picker mode.
    pub picker: bool,
    /// Select directories only (not files).
    pub directory: bool,
    /// Allow multiple selection.
    pub multiple: bool,
    /// File filter patterns (semicolon-separated, e.g., "*.rs;*.toml").
    pub filter: Option<String>,
    /// Dialog title.
    pub title: Option<String>,
    /// Custom accept button text (default: "Open" or "Save").
    pub accept_label: Option<String>,
    /// Enable save mode (for SaveFile portal requests).
    pub save: bool,
    /// Suggested filename for save mode.
    pub save_filename: Option<String>,
    /// Parent window ID for transient-for hint (X11 window ID).
    pub parent_window: Option<u32>,
}

/// Picker mode configuration parsed from CLI args.
#[derive(Debug)]
pub enum PickerMode {
    /// Normal file browser mode.
    Browser,
    /// Open file picker.
    OpenFile { multiple: bool, filters: Vec<String> },
    /// Open directory picker.
    OpenDirectory { multiple: bool },
    /// Save file picker (with filename input).
    SaveFile {
        /// Suggested filename from the portal.
        suggested_filename: String,
    },
}

impl PickerMode {
    /// Whether this is a picker mode (not normal browser).
    pub fn is_picker(&self) -> (res: bool)
        ensures
            res == !(*self is Browser),
    {
        match self {
            PickerMode::Browser => false,
            _ => true,
        }
    }

    /// Whether multiple selection is allowed (always in the browser, never
    /// when saving).
    pub fn allows_multiple(&self) -> (res: bool)
        ensures
            res == match *self {
                PickerMode::Browser => true,
                PickerMode::OpenFile { multiple, .. } => multiple,
                PickerMode::OpenDirectory { multiple } => multiple,
                PickerMode::SaveFile { .. } => false,
            },
    {
        match self {
            PickerMode::Browser => true,
            PickerMode::OpenFile { multiple, .. } => *multiple,
            PickerMode::OpenDirectory { multiple } => *multiple,
            PickerMode::SaveFile { .. } => false,
        }
    }

    /// Get file filters if any.
    pub fn filters(&self) -> (res: &[String])
        ensures
            res@ == match *self {
                PickerMode::OpenFile { filters, .. } => filters@,
                _ => Seq::empty(),
            },
    {
        match self {
            PickerMode::OpenFile { filters, .. } => filters.as_slice(),
            _ => &[],
        }
    }

    /// Whether we're picking directories only.
    pub fn is_directory_mode(&self) -> (res: bool)
        ensures
            res == (*self is OpenDirectory),
    {
        match self {
            PickerMode::OpenDirectory { .. } => true,
            _ => false,
        }
    }

    /// Whether this is save mode.
    pub fn is_save_mode(&self) -> (res: bool)
        ensures
            res == (*self is SaveFile),
    {
        match self {
            PickerMode::SaveFile { .. } => true,
            _ => false,
        }
    }

    /// Get suggested filename for save mode.
    pub fn suggested_filename(&self) -> (res: Option<&str>)
        ensures
            match *self {
                PickerMode::SaveFile { suggested_filename } => res matches Some(s) && s@
                    == suggested_filename@,
                _ => res is None,
            },
    {
        match self {
            PickerMode::SaveFile { suggested_filename } => Some(suggested_filename.as_str()),
            _ => None,
        }
    }
}

/// Picker configuration derived from Args.
#[derive(Debug)]
pub struct PickerConfig {
    /// The picker mode.
    pub mode: PickerMode,
    /// Dialog title.
    pub title: Option<String>,
    /// Accept button label.
    pub accept_label: String,
    /// Parent window ID for transient-for hint.
    pub parent_window: Option<u32>,
}

/// The trimmed, non-empty pieces of a list, in order.
pub open spec fn nonempty_trimmed(parts: Seq<Seq<char>>) -> Seq<Seq<char>>
    decreases parts.len(),
{
    if parts.len() == 0 {
        Seq::empty()
    } else {
        let n = parts.len() - 1;
        let rest = nonempty_trimmed(parts.take(n));
        if trim(parts[n]).len() > 0 {
            rest.push(trim(parts[n]))
        } else {
            rest
        }
    }
}

/// The filter patterns in a `;`-separated list: each piece trimmed, empty
/// pieces dropped.
pub open spec fn filter_list(f: Seq<char>) -> Seq<Seq<char>> {
    nonempty_trimmed(split_at_char(f, ';'))
}

/// The views of a list of strings.
pub open spec fn string_views(v: Seq<String>) -> Seq<Seq<char>> {
    v.map_values(|s: String| s@)
}

/// Parses a `;`-separated filter list.
pub fn parse_filters(f: &str) -> (res: Vec<String>)
    ensures
        string_views(res@) == filter_list(f@),
{
    let v = chars_of(f);
    let parts = split_at_char_exec(&v, ';');
    let ghost ps = parts@.map_values(|x: Vec<char>| x@);
    let mut res: Vec<String> = Vec::new();
    let mut i: usize = 0;
    while i < parts.len()
        invariant
            ps == parts@.map_values(|x: Vec<char>| x@),
            i <= parts.len(),
            string_views(res@) == nonempty_trimmed(ps.take(i as int)),
        decreases parts.len() - i,
    {
        assert(ps.take(i + 1).take(i as int) == ps.take(i as int));
        assert(ps.take(i + 1)[i as int] == parts@[i as int]@);
        let t = trim_chars(&parts[i]);
        if t.len() > 0 {
            let ghost old_res = res@;
            res.push(string_of(&t));
            assert(string_views(res@) =~= string_views(old_res).push(t@));
        }
        i = i + 1;
    }
    assert(ps.take(parts@.len() as int) == ps);
    res
}

/// The mode that the arguments ask for.
pub open spec fn mode_spec(args: Args, m: PickerMode) -> bool {
    if !args.picker {
        m is Browser
    } else if args.save {
        m matches PickerMode::SaveFile { suggested_filename } && suggested_filename@ == match args.save_filename {
            Some(n) => n@,
            None => "untitled"@,
        }
    } else if args.directory {
        m == PickerMode::OpenDirectory { multiple: args.multiple }
    } else {
        m matches PickerMode::OpenFile { multiple, filters } && multiple == args.multiple
            && string_views(filters@) == match args.filter {
            Some(f) => filter_list(f@),
            None => Seq::empty(),
        }
    }
}

impl PickerConfig {
    /// Create from command line arguments.
    pub fn from_args(args: &Args) -> (res: Self)
        ensures
            mode_spec(*args, res.mode),
            res.title == args.title,
            res.accept_label@ == match args.accept_label {
                Some(l) => l@,
                None => if args.save {
                    "Save"@
                } else {
                    "Open"@
                },
            },
            res.parent_window == args.parent_window,
    {
        let mode = if args.picker {
            if args.save {
                PickerMode::SaveFile {
                    suggested_filename: match &args.save_filename {
                        Some(n) => n.clone(),
                        None => copy_string("untitled"),
                    },
                }
            } else if args.directory {
                PickerMode::OpenDirectory { multiple: args.multiple }
            } else {
                let filters = match &args.filter {
                    Some(f) => parse_filters(f.as_str()),
                    None => Vec::new(),
                };
                assert(string_views(filters@) == match args.filter {
                    Some(f) => filter_list(f@),
                    None => Seq::empty(),
                });
                PickerMode::OpenFile { multiple: args.multiple, filters }
            }
        } else {
            PickerMode::Browser
        };
        assert(mode_spec(*args, mode));
        let default_label = if args.save {
            "Save"
        } else {
            "Open"
        };
        PickerConfig {
            mode,
            title: match &args.title {
                Some(t) => Some(t.clone()),
                None => None,
            },
            accept_label: match &args.accept_label {
                Some(l) => l.clone(),
                None => copy_string(default_label),
            },
            parent_window: args.parent_window,
        }
    }

    /// Whether this is picker mode.
    pub fn is_picker(&self) -> (res: bool)
        ensures
            res == !(self.mode is Browser),
    {
        self.mode.is_picker()
    }
}

// -- what the picker hands back -------------------------------------------------

/// The selected files (not directories) that the mode's filters let
/// through.
pub open spec fn matching_files(mode: PickerMode, selected: Seq<FileEntry>) -> Seq<FileEntry> {
    let filters = match mode {
        PickerMode::OpenFile { filters, .. } => filters@,
        _ => Seq::empty(),
    };
    selected.filter(|e: FileEntry| e.entry_type != EntryType::Directory && matches_any_spec(false, e.name@, filters))
}

/// The selected directories.
pub open spec fn selected_dirs(selected: Seq<FileEntry>) -> Seq<FileEntry> {
    selected.filter(|e: FileEntry| e.entry_type == EntryType::Directory)
}

/// Whether the picker can accept the selection: picking directories, an
/// empty selection (the current directory) or one holding a directory;
/// picking files, at least one file the filters let through, and only one
/// unless several may be picked.
pub open spec fn picker_selection_ok(mode: PickerMode, selected: Seq<FileEntry>) -> bool {
    if mode is OpenDirectory {
        selected.len() == 0 || selected_dirs(selected).len() > 0
    } else {
        let n = matching_files(mode, selected).len();
        n >= 1 && (n <= 1 || match mode {
            PickerMode::Browser => true,
            PickerMode::OpenFile { multiple, .. } => multiple,
            PickerMode::OpenDirectory { multiple } => multiple,
            PickerMode::SaveFile { .. } => false,
        })
    }
}

/// The entries of `es` that `pred` holds of, kept in order, as computed.
fn keep_entries(es: &Vec<FileEntry>, dirs: bool, filters: &[String]) -> (res: Vec<FileEntry>)
    ensures
        dirs ==> res@ == es@.filter(|e: FileEntry| e.entry_type == EntryType::Directory),
        !dirs ==> res@ == es@.filter(
            |e: FileEntry| e.entry_type != EntryType::Directory && matches_any_spec(false, e.name@, filters@),
        ),
{
    let ghost pred: spec_fn(FileEntry) -> bool = if dirs {
        |e: FileEntry| e.entry_type == EntryType::Directory
    } else {
        |e: FileEntry| e.entry_type != EntryType::Directory && matches_any_spec(false, e.name@, filters@)
    };
    let mut out: Vec<FileEntry> = Vec::new();
    let mut i: usize = 0;
    while i < es.len()
        invariant
            i <= es@.len(),
            pred == (if dirs {
                |e: FileEntry| e.entry_type == EntryType::Directory
            } else {
                |e: FileEntry| e.entry_type != EntryType::Directory && matches_any_spec(false, e.name@, filters@)
            }),
            out@ == es@.take(i as int).filter(pred),
        decreases es@.len() - i,
    {
        let ghost before = es@.take(i + 1);
        proof {
            assert(before.drop_last() =~= es@.take(i as int));
            assert(before.last() == es@[i as int]);
        }
        let keep = if dirs {
            es[i].is_dir()
        } else {
            !es[i].is_dir() && matches_any_filter(&es[i], filters)
        };
        if keep {
            out.push(es[i].duplicate());
        }
        proof {
            reveal(Seq::filter);
            assert(before.filter(pred) == out@);
        }
        i = i + 1;
    }
    proof {
        assert(es@.take(i as int) =~= es@);
    }
    out
}

/// Whether the picker can accept the selected entries (see
/// `picker_selection_ok`).
pub fn has_valid_picker_selection(mode: &PickerMode, selected: &Vec<FileEntry>) -> (res: bool)
    ensures
        res == picker_selection_ok(*mode, selected@),
{
    if mode.is_directory_mode() {
        if selected.len() == 0 {
            return true;
        }
        return keep_entries(selected, true, &[]).len() > 0;
    }
    let n = keep_entries(selected, false, mode.filters()).len();
    if n == 0 {
        return false;
    }
    if !mode.allows_multiple() && n > 1 {
        return false;
    }
    true
}

/// What the picker hands back: picking directories, the selected ones, or
/// the current directory where none is selected; picking files, the
/// selected files the filters let through.
pub fn get_picker_selection(mode: &PickerMode, selected: &Vec<FileEntry>, current: &str) -> (res: Vec<String>)
    ensures
        mode is OpenDirectory ==> res@.map_values(|s: String| s@) == if selected_dirs(selected@).len() == 0 {
            seq![current@]
        } else {
            selected_dirs(selected@).map_values(|e: FileEntry| e.path@)
        },
        !(mode is OpenDirectory) ==> res@.map_values(|s: String| s@) == matching_files(*mode, selected@).map_values(
            |e: FileEntry| e.path@,
        ),
{
    let kept = if mode.is_directory_mode() {
        keep_entries(selected, true, &[])
    } else {
        keep_entries(selected, false, mode.filters())
    };
    if mode.is_directory_mode() && kept.len() == 0 {
        let mut v: Vec<String> = Vec::new();
        v.push(copy_string(current));
        proof {
            assert(v@.map_values(|s: String| s@) =~= seq![current@]);
        }
        return v;
    }
    let mut out: Vec<String> = Vec::new();
    let mut i: usize = 0;
    while i < kept.len()
        invariant
            i <= kept@.len(),
            out@.map_values(|s: String| s@) == kept@.take(i as int).map_values(|e: FileEntry| e.path@),
        decreases kept@.len() - i,
    {
        let t = kept[i].path.clone();
        let ghost before = out@;
        out.push(t);
        proof {
            assert(t@ == kept@[i as int].path@);
            assert(out@ =~= before.push(t));
            assert(kept@.take(i + 1) =~= kept@.take(i as int).push(kept@[i as int]));
            assert(out@.map_values(|s: String| s@) =~= before.map_values(|s: String| s@).push(t@));
            assert(out@.map_values(|s: String| s@) =~= kept@.take(i + 1).map_values(|e: FileEntry| e.path@));
        }
        i = i + 1;
    }
    proof {
        assert(kept@.take(i as int) =~= kept@);
    }
    out
}

} // verus!
