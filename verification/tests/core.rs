use garfield::clipboard::{Clipboard, ClipboardOperation};
use garfield::entry::{format_bytes, matches_any_filter, matches_filter, sort_entries, EntryType, FileEntry, MetaInfo, SortDirection, SortOrder};
use garfield::history::History;
use garfield::operations::{copy_files, delete_files, make_unique_name, move_files, numbered, pick_unique_name, stamped, OperationResult};
use garfield::trash::{dotted, parse_trash_info_path, pick_trash_name, trash_dir_in, trash_info_content};
use garfield::undo::{FileOperation, UndoStack};

fn paths(v: &[&str]) -> Vec<String> {
    v.iter().map(|s| s.to_string()).collect()
}

#[test]
fn clipboard_copy_is_kept_after_take() {
    let mut c = Clipboard::new();
    assert!(!c.has_files());
    assert_eq!(c.status_text(), None);
    c.copy(paths(&["/a/x.txt", "/a/y.txt"]));
    assert!(c.has_files());
    assert!(!c.is_cut());
    assert_eq!(c.status_text(), Some("2 items copied".to_string()));
    let (files, op) = c.take().unwrap();
    assert_eq!(files, paths(&["/a/x.txt", "/a/y.txt"]));
    assert_eq!(op, ClipboardOperation::Copy);
    assert!(c.has_files());
    assert_eq!(c.operation(), Some(ClipboardOperation::Copy));
}

#[test]
fn clipboard_cut_is_emptied_by_take() {
    let mut c = Clipboard::new();
    c.cut(paths(&["/a/x.txt"]));
    assert!(c.is_cut());
    assert_eq!(c.status_text(), Some("1 item cut".to_string()));
    let (files, op) = c.take().unwrap();
    assert_eq!(files, paths(&["/a/x.txt"]));
    assert_eq!(op, ClipboardOperation::Cut);
    assert!(!c.has_files());
    assert_eq!(c.take(), None);
}

#[test]
fn clipboard_clear() {
    let mut c = Clipboard::new();
    c.copy(paths(&["/a"]));
    c.clear();
    assert!(!c.has_files());
    assert_eq!(c.operation(), None);
    assert!(c.files().is_empty());
}

#[test]
fn history_back_and_forward() {
    let mut h = History::new("/home".to_string());
    assert!(!h.can_go_back());
    h.navigate("/home/docs".to_string());
    h.navigate("/home/docs/a".to_string());
    assert_eq!(h.current(), "/home/docs/a");
    assert_eq!(h.go_back().cloned(), Some("/home/docs".to_string()));
    assert!(h.can_go_forward());
    assert_eq!(h.go_forward().cloned(), Some("/home/docs/a".to_string()));
    assert_eq!(h.go_forward(), None);
    h.go_back();
    h.navigate("/tmp".to_string());
    assert!(!h.can_go_forward());
    assert_eq!(h.current(), "/tmp");
}

#[test]
fn history_same_path_is_ignored() {
    let mut h = History::new("/home".to_string());
    h.navigate("/home/".to_string());
    assert!(!h.can_go_back());
    assert_eq!(h.current(), "/home");
}

#[test]
fn history_keeps_one_hundred_back_entries() {
    let mut h = History::new("/0".to_string());
    for i in 1..=150 {
        h.navigate(format!("/{}", i));
    }
    let mut n = 0;
    while h.go_back().is_some() {
        n += 1;
    }
    assert_eq!(n, 100);
    assert_eq!(h.current(), "/50");
}

#[test]
fn undo_descriptions() {
    let one = FileOperation::Copy { sources: paths(&["/a/x.txt"]), destinations: paths(&["/b/x.txt"]) };
    assert_eq!(one.description(), "Copy 'x.txt'");
    let two = FileOperation::Move { sources: paths(&["/a/x", "/a/y"]), destinations: paths(&["/b/x", "/b/y"]) };
    assert_eq!(two.description(), "Move 2 items");
    let ren = FileOperation::Rename { original: "/a/old.txt".to_string(), renamed: "/a/new.txt".to_string() };
    assert_eq!(ren.description(), "Rename 'old.txt' to 'new.txt'");
    let mk = FileOperation::CreateDir { path: "/a/New Folder".to_string() };
    assert_eq!(mk.description(), "Create folder 'New Folder'");
    let tr = FileOperation::Trash { originals: paths(&["/a/x"]), trash_names: paths(&["x"]) };
    assert_eq!(tr.description(), "Trash 'x'");
}

#[test]
fn undo_then_redo() {
    let mut u = UndoStack::new();
    assert!(!u.can_undo());
    u.push(FileOperation::CreateDir { path: "/a/d".to_string() });
    assert_eq!(u.undo_description(), Some("Create folder 'd'".to_string()));
    let op = u.pop_undo().unwrap();
    assert!(!u.can_undo());
    u.push_redo(op);
    assert!(u.can_redo());
    assert_eq!(u.redo_description(), Some("Create folder 'd'".to_string()));
    let again = u.pop_redo().unwrap();
    assert_eq!(again.description(), "Create folder 'd'");
    u.push(again);
    u.clear();
    assert!(!u.can_undo() && !u.can_redo());
}

#[test]
fn undo_push_clears_redo_and_is_bounded() {
    let mut u = UndoStack::new();
    u.push(FileOperation::CreateDir { path: "/a".to_string() });
    let op = u.pop_undo().unwrap();
    u.push_redo(op);
    u.push(FileOperation::CreateDir { path: "/b".to_string() });
    assert!(!u.can_redo());
    for i in 0..150 {
        u.push(FileOperation::CreateDir { path: format!("/d{}", i) });
    }
    let mut n = 0;
    while u.pop_undo().is_some() {
        n += 1;
    }
    assert_eq!(n, 100);
}

fn meta(is_dir: bool, is_file: bool, is_symlink: bool, len: u64) -> MetaInfo {
    MetaInfo { is_dir, is_file, is_symlink, len, modified: None }
}

fn file(path: &str, size: u64) -> FileEntry {
    FileEntry::from_parts(path.to_string(), meta(false, true, false, size), None, None)
}

fn dir(path: &str) -> FileEntry {
    FileEntry::from_parts(path.to_string(), meta(true, false, false, 4096), None, None)
}

#[test]
fn entry_from_parts() {
    let e = file("/home/u/.bashrc", 12);
    assert_eq!(e.name, ".bashrc");
    assert!(e.hidden);
    assert!(e.is_file());
    assert_eq!(e.size, 12);
    let d = dir("/home/u/docs");
    assert!(d.is_dir());
    assert_eq!(d.size, 0);
    assert_eq!(d.format_size(), "");
    let l = FileEntry::from_parts("/x/link".to_string(), meta(false, false, true, 3), Some(meta(false, true, false, 77)), Some("/y".to_string()));
    assert_eq!(l.entry_type, EntryType::Symlink);
    assert_eq!(l.size, 77);
    assert_eq!(l.symlink_target, Some("/y".to_string()));
    assert_eq!(EntryType::from_metadata(&meta(false, false, false, 0)), EntryType::Other);
}

#[test]
fn entry_extension_is_lower_case() {
    assert_eq!(file("/a/Photo.JPG", 1).extension(), Some("jpg".to_string()));
    assert_eq!(file("/a/README", 1).extension(), None);
}

#[test]
fn filter_patterns() {
    assert!(matches_filter("Photo.JPG", "*.jpg"));
    assert!(!matches_filter("photo.png", "*.jpg"));
    assert!(matches_filter("report.pdf", "report.*"));
    assert!(matches_filter("anything", "*"));
    assert!(matches_filter("abcxyz", "ab*yz"));
    assert!(!matches_filter("abcxy", "ab*yz"));
    assert!(matches_filter("Exact", "exact"));
    assert!(!matches_filter("exact2", "exact"));
}

#[test]
fn filters_keep_directories() {
    let d = dir("/a/docs");
    let f = file("/a/x.txt", 1);
    let filters = vec!["*.pdf".to_string()];
    assert!(matches_any_filter(&d, &filters));
    assert!(!matches_any_filter(&f, &filters));
    assert!(matches_any_filter(&f, &[]));
}

#[test]
fn sort_directories_first_by_name() {
    let mut v = vec![file("/a/b.txt", 1), dir("/a/Zeta"), file("/a/A.txt", 5), dir("/a/alpha")];
    sort_entries(&mut v, SortOrder::Name, SortDirection::Ascending);
    let names: Vec<&str> = v.iter().map(|e| e.name.as_str()).collect();
    assert_eq!(names, vec!["alpha", "Zeta", "A.txt", "b.txt"]);
    sort_entries(&mut v, SortOrder::Size, SortDirection::Descending);
    let names: Vec<&str> = v.iter().map(|e| e.name.as_str()).collect();
    assert_eq!(names, vec!["alpha", "Zeta", "A.txt", "b.txt"]);
}

#[test]
fn format_bytes_matches_one_decimal_rounding() {
    for b in [0u64, 1, 1023, 1024, 1280, 1536, 1126, 1127, 10_000, 1_048_576, 1_572_864, 5_000_000_000, 1_099_511_627_776, 3_000_000_000_000] {
        let expected = if b >= 1_099_511_627_776 {
            format!("{:.1} TB", b as f64 / 1_099_511_627_776.0)
        } else if b >= 1_073_741_824 {
            format!("{:.1} GB", b as f64 / 1_073_741_824.0)
        } else if b >= 1_048_576 {
            format!("{:.1} MB", b as f64 / 1_048_576.0)
        } else if b >= 1024 {
            format!("{:.1} KB", b as f64 / 1024.0)
        } else {
            format!("{} B", b)
        };
        assert_eq!(format_bytes(b), expected, "bytes {}", b);
    }
    assert_eq!(format_bytes(1536), "1.5 KB");
    assert_eq!(format_bytes(500), "500 B");
}

#[test]
fn operation_results() {
    let r = copy_files(&paths(&["/a/x", "/a/y"]), vec![Ok("/b/x".to_string()), Err("denied".to_string())]);
    assert!(!r.success);
    assert_eq!(r.processed, paths(&["/b/x"]));
    assert_eq!(r.failed, vec![("/a/y".to_string(), "denied".to_string())]);
    assert_eq!(r.error, Some("1 files failed".to_string()));
    let m = move_files(&paths(&["/a/x"]), vec![Ok("/b/x".to_string())]);
    assert!(m.success);
    assert_eq!(m.error, None);
    let d = delete_files(&paths(&["/a/x", "/a/y"]), vec![Ok(()), Ok(())]);
    assert!(d.success);
    assert_eq!(d.processed, paths(&["/a/x", "/a/y"]));
    let f = OperationResult::failure("boom".to_string());
    assert!(!f.success);
    assert_eq!(f.error, Some("boom".to_string()));
}

#[test]
fn unique_names() {
    assert_eq!(numbered("report.pdf", 2), "report (2).pdf");
    assert_eq!(numbered("README", 1), "README (1)");
    assert_eq!(numbered(".bashrc", 3), " (3).bashrc");
    assert_eq!(stamped("a.txt", 99), "a_99.txt");
    let dir = "/nonexistent-garfield-test-dir";
    assert_eq!(make_unique_name(dir, "x.txt"), "x.txt");
    assert_eq!(dotted("a.tar.gz", 2), "a.tar.2.gz");
    assert_eq!(dotted("noext", 4), "noext.4");
}

#[test]
fn trash_info_round_trip() {
    let text = trash_info_content("/home/u/100%\nsure.txt", "2024-01-02T03:04:05");
    assert_eq!(text, "[Trash Info]\nPath=/home/u/100%25%0Asure.txt\nDeletionDate=2024-01-02T03:04:05\n");
    assert_eq!(parse_trash_info_path(&text), Some("/home/u/100%\nsure.txt".to_string()));
    assert_eq!(parse_trash_info_path("[Trash Info]\nDeletionDate=x\n"), None);
}

#[test]
fn trash_dir_under_data_dir() {
    assert_eq!(trash_dir_in(Some(String::from("/home/u/.local/share"))), Some(String::from("/home/u/.local/share/Trash")));
    assert_eq!(trash_dir_in(None), None);
}

#[test]
fn first_free_numbered_name() {
    assert_eq!(pick_unique_name("report.txt", &vec![false], 7), "report.txt");
    assert_eq!(pick_unique_name("report.txt", &vec![true, true, false], 7), "report (2).txt");
    assert_eq!(pick_unique_name("notes", &vec![true, false], 7), "notes (1)");
    assert_eq!(pick_unique_name("report.txt", &vec![true; 1000], 42), "report_42.txt");
}

#[test]
fn first_free_trash_name() {
    assert_eq!(pick_trash_name("a.txt", &vec![false], 9), "a.txt");
    assert_eq!(pick_trash_name("a.txt", &vec![true, true, true, false], 9), "a.3.txt");
    assert_eq!(pick_trash_name("a.txt", &vec![true; 10000], 1234), "a.txt.1234");
}

#[test]
fn trash_info_without_path_line() {
    assert_eq!(parse_trash_info_path("[Trash Info]\nXPath=/a\n Path=/b\n"), None);
    assert_eq!(parse_trash_info_path(""), None);
}

#[test]
fn undo_keeps_newest_hundred() {
    let mut u = UndoStack::new();
    for i in 1..=101 {
        u.push(FileOperation::CreateDir { path: format!("/d{}", i) });
    }
    for i in (2..=101).rev() {
        assert_eq!(u.pop_undo().map(|op| op.description()), Some(format!("Create folder 'd{}'", i)));
    }
    assert!(u.pop_undo().is_none());
}
