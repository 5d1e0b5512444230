use garfield::drag::{detect_file_drag_target, DragTarget};
use garfield::entry::{FileEntry, MetaInfo};
use garfield::geometry::Rect;
use garfield::layout::{compute_layout, Layout};
use garfield::operations::{duplicated_message, new_folder_name};
use garfield::picker::{get_picker_selection, has_valid_picker_selection, PickerMode};
use garfield::undo::{FileOperation, FileStep};

fn entry(path: &str, is_dir: bool) -> FileEntry {
    FileEntry::from_parts(
        path.to_string(),
        MetaInfo { is_dir, is_file: !is_dir, is_symlink: false, len: 1, modified: None },
        None,
        None,
    )
}

fn strings(v: &[&str]) -> Vec<String> {
    v.iter().map(|s| s.to_string()).collect()
}

#[test]
fn picker_selection_in_directory_mode() {
    let mode = PickerMode::OpenDirectory { multiple: false };
    assert!(has_valid_picker_selection(&mode, &Vec::new()));
    assert!(!has_valid_picker_selection(&mode, &vec![entry("/d/a.txt", false)]));
    assert!(has_valid_picker_selection(&mode, &vec![entry("/d/a.txt", false), entry("/d/sub", true)]));
    assert_eq!(get_picker_selection(&mode, &Vec::new(), "/d"), strings(&["/d"]));
    assert_eq!(get_picker_selection(&mode, &vec![entry("/d/a.txt", false)], "/d"), strings(&["/d"]));
    assert_eq!(
        get_picker_selection(&mode, &vec![entry("/d/x", true), entry("/d/a.txt", false), entry("/d/y", true)], "/d"),
        strings(&["/d/x", "/d/y"])
    );
}

#[test]
fn picker_selection_in_file_mode() {
    let single = PickerMode::OpenFile { multiple: false, filters: strings(&["*.png"]) };
    let many = PickerMode::OpenFile { multiple: true, filters: strings(&["*.png"]) };
    let sel = vec![entry("/d/a.png", false), entry("/d/b.txt", false), entry("/d/c.png", false), entry("/d/e", true)];
    assert!(!has_valid_picker_selection(&single, &sel));
    assert!(has_valid_picker_selection(&many, &sel));
    assert!(has_valid_picker_selection(&single, &vec![entry("/d/a.png", false)]));
    assert!(!has_valid_picker_selection(&single, &vec![entry("/d/b.txt", false)]));
    assert!(!has_valid_picker_selection(&single, &Vec::new()));
    assert_eq!(get_picker_selection(&many, &sel, "/d"), strings(&["/d/a.png", "/d/c.png"]));
    let save = PickerMode::SaveFile { suggested_filename: String::from("x.txt") };
    assert!(has_valid_picker_selection(&save, &vec![entry("/d/b.txt", false)]));
    assert!(!has_valid_picker_selection(&save, &vec![entry("/d/b.txt", false), entry("/d/a.png", false)]));
}

#[test]
fn window_layout() {
    let l: Layout = compute_layout(1200, 800, true, 200, false);
    assert_eq!(l.sidebar, Rect { x: 0, y: 0, width: 200, height: 800 });
    assert_eq!(l.tab_bar, Rect { x: 200, y: 0, width: 1000, height: 32 });
    assert_eq!(l.toolbar, Rect { x: 200, y: 32, width: 1000, height: 36 });
    assert_eq!(l.breadcrumb, Rect { x: 200, y: 68, width: 1000, height: 40 });
    assert_eq!(l.content, Rect { x: 200, y: 108, width: 1000, height: 668 });
    assert_eq!(l.footer, Rect { x: 200, y: 776, width: 1000, height: 24 });
    assert_eq!(l.window, Rect { x: 0, y: 0, width: 1200, height: 800 });
    let p = compute_layout(1200, 800, false, 250, true);
    assert_eq!(p.sidebar, Rect { x: 0, y: 0, width: 180, height: 800 });
    assert_eq!(p.content, Rect { x: 0, y: 108, width: 1200, height: 656 });
    assert_eq!(p.footer, Rect { x: 0, y: 764, width: 1200, height: 36 });
}

#[test]
fn drop_targets() {
    let b = Rect { x: 1, y: 2, width: 3, height: 4 };
    // A tab showing another directory wins.
    match detect_file_drag_target(Some((2, String::from("/other"))), "/cur", None, None, &Vec::new()) {
        Some(DragTarget::Tab { index, target_path }) => {
            assert_eq!(index, 2);
            assert_eq!(target_path, "/other");
        },
        _ => panic!("expected a tab"),
    }
    // The current directory's own tab is no target; a breadcrumb is.
    match detect_file_drag_target(
        Some((0, String::from("/cur/"))),
        "/cur",
        Some((String::from("/"), b)),
        None,
        &Vec::new(),
    ) {
        Some(DragTarget::Breadcrumb { path, bounds }) => {
            assert_eq!(path, "/");
            assert_eq!(bounds, b);
        },
        _ => panic!("expected a breadcrumb"),
    }
    // A directory entry, unless it is being dragged.
    match detect_file_drag_target(None, "/cur", None, Some((String::from("/cur/sub"), true, b)), &strings(&["/cur/a"])) {
        Some(DragTarget::Directory { path, .. }) => assert_eq!(path, "/cur/sub"),
        _ => panic!("expected a directory"),
    }
    assert!(detect_file_drag_target(None, "/cur", None, Some((String::from("/cur/sub"), true, b)), &strings(&["/cur/sub"]))
        .is_none());
    assert!(detect_file_drag_target(None, "/cur", None, Some((String::from("/cur/f"), false, b)), &Vec::new()).is_none());
    assert!(detect_file_drag_target(None, "/cur", Some((String::from("/cur"), b)), None, &Vec::new()).is_none());
}

#[test]
fn undo_and_redo_steps() {
    let copy = FileOperation::Copy { sources: strings(&["/a/x", "/a/y"]), destinations: strings(&["/b/x", "/b/y"]) };
    assert_eq!(
        copy.undo_steps(),
        vec![FileStep::DeleteIfExists(String::from("/b/x")), FileStep::DeleteIfExists(String::from("/b/y"))]
    );
    assert_eq!(
        copy.redo_steps(),
        vec![
            FileStep::CopyIfExists { path: String::from("/a/x"), dir: String::from("/b") },
            FileStep::CopyIfExists { path: String::from("/a/y"), dir: String::from("/b") },
        ]
    );
    assert_eq!(copy.undo_message(), "Deleted 2 copied item(s)");
    assert_eq!(copy.redo_message(0), "Copied 2 item(s)");

    let mv = FileOperation::Move { sources: strings(&["/a/x"]), destinations: strings(&["/b/x"]) };
    assert_eq!(mv.undo_steps(), vec![FileStep::MoveIfExists { path: String::from("/b/x"), dir: String::from("/a") }]);
    assert_eq!(mv.redo_steps(), vec![FileStep::MoveIfExists { path: String::from("/a/x"), dir: String::from("/b") }]);
    assert_eq!(mv.undo_message(), "Moved 1 item(s) back");
    assert_eq!(mv.redo_message(0), "Moved 1 item(s)");

    let trash = FileOperation::Trash { originals: strings(&["/a/x"]), trash_names: strings(&["x.2"]) };
    assert_eq!(trash.undo_steps(), vec![FileStep::Restore(String::from("x.2"))]);
    assert_eq!(trash.redo_steps(), vec![FileStep::Trash(String::from("/a/x"))]);
    assert_eq!(trash.undo_message(), "Restored 1 item(s) from trash");
    assert_eq!(trash.redo_message(1), "Trashed 1 item(s)");

    let rename = FileOperation::Rename { original: String::from("/a/old.txt"), renamed: String::from("/a/new.txt") };
    assert_eq!(
        rename.undo_steps(),
        vec![FileStep::RenameIfExists { path: String::from("/a/new.txt"), name: String::from("old.txt") }]
    );
    assert_eq!(
        rename.redo_steps(),
        vec![FileStep::RenameIfExists { path: String::from("/a/old.txt"), name: String::from("new.txt") }]
    );
    assert_eq!(rename.undo_message(), "Renamed back");
    assert_eq!(rename.redo_message(0), "Renamed");

    let mk = FileOperation::CreateDir { path: String::from("/a/d") };
    assert_eq!(mk.undo_steps(), vec![FileStep::RemoveDirIfDir(String::from("/a/d"))]);
    assert_eq!(mk.redo_steps(), vec![FileStep::CreateDir(String::from("/a/d"))]);
    assert_eq!(mk.undo_message(), "Deleted folder");
    assert_eq!(mk.redo_message(0), "Created folder");
}

#[test]
fn folder_names_and_duplicate_messages() {
    assert_eq!(new_folder_name(0), "New Folder");
    assert_eq!(new_folder_name(3), "New Folder (3)");
    assert_eq!(duplicated_message(0, ""), "Failed to duplicate items");
    assert_eq!(duplicated_message(1, "a (1).txt"), "Duplicated as 'a (1).txt'");
    assert_eq!(duplicated_message(4, "x"), "Duplicated 4 items");
}
