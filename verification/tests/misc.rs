use garfield::ipc::{socket_path_for, Response};
use garfield::apps::{app_directories, apps_from_files, clean_exec_command, select_desktop_files, AppEntry};
use garfield::clipboard::ClipboardOperation;
use garfield::portal::{build_file_chooser_response, ResponseCode};
use garfield::operations::OperationResult;
use garfield::paste::{done_message, movable_files, non_conflicting, paste_outcome, paste_record, pasted_as_message, plan_paste, remaining_paste, settled_message, PastePlan, PendingPaste};
use garfield::picker::{parse_filters, Args, PickerConfig, PickerMode};
use garfield::previews::{is_pdf, is_supported_image, RequestIds};
use garfield::text::parse_u32;
use garfield::undo::FileOperation;

fn strings(v: &[&str]) -> Vec<String> {
    v.iter().map(|s| s.to_string()).collect()
}

fn args() -> Args {
    Args {
        start_dir: None,
        picker: true,
        directory: false,
        multiple: true,
        filter: Some(" *.rs ; ;*.toml".to_string()),
        title: Some("Pick".to_string()),
        accept_label: None,
        save: false,
        save_filename: None,
        parent_window: Some(7),
    }
}

#[test]
fn picker_config_from_args() {
    assert_eq!(parse_filters(" *.rs ; ;*.toml"), strings(&["*.rs", "*.toml"]));
    let c = PickerConfig::from_args(&args());
    assert!(c.is_picker());
    assert_eq!(c.accept_label, "Open");
    assert!(c.mode.allows_multiple());
    assert_eq!(c.mode.filters(), &strings(&["*.rs", "*.toml"])[..]);
    assert!(!c.mode.is_directory_mode());
    let mut a = args();
    a.save = true;
    let s = PickerConfig::from_args(&a);
    assert!(s.mode.is_save_mode());
    assert_eq!(s.accept_label, "Save");
    assert_eq!(s.mode.suggested_filename(), Some("untitled"));
    let mut b = args();
    b.picker = false;
    assert!(matches!(PickerConfig::from_args(&b).mode, PickerMode::Browser));
    let mut d = args();
    d.directory = true;
    assert!(PickerConfig::from_args(&d).mode.is_directory_mode());
}

#[test]
fn ipc_values() {
    assert_eq!(ResponseCode::Success.code(), 0);
    assert_eq!(ResponseCode::Cancelled.code(), 1);
    assert_eq!(ResponseCode::Error.code(), 2);
    assert_eq!(build_file_chooser_response(strings(&["/a b", "/c"])), strings(&["file:///a%20b", "file:///c"]));
}

#[test]
fn preview_kinds_and_requests() {
    assert!(is_supported_image(Some("PNG")));
    assert!(is_supported_image(Some("jpeg")));
    assert!(!is_supported_image(Some("svg")));
    assert!(!is_supported_image(None));
    assert!(is_pdf(Some("Pdf")));
    assert!(!is_pdf(Some("pdfx")));
    let mut r = RequestIds::new();
    assert!(!r.is_loading());
    let first = r.begin();
    let second = r.begin();
    assert!(!r.accepts(first));
    assert!(r.accepts(second));
    r.cancel();
    assert!(!r.is_loading());
    assert!(!r.accepts(second));
}

#[test]
fn exec_field_codes() {
    assert_eq!(clean_exec_command("firefox %u"), "firefox");
    assert_eq!(clean_exec_command("  app --x=100%% %F "), "app --x=100%");
    assert_eq!(clean_exec_command("a %z b"), "a %z b");
    assert_eq!(clean_exec_command("%"), "%");
}

#[test]
fn desktop_files_are_taken_once() {
    let found = strings(&[
        "/usr/share/applications/a.desktop",
        "/usr/share/applications/readme.txt",
        "/home/u/.local/share/applications/a.desktop",
        "/usr/share/applications/sub/b.desktop",
    ]);
    assert_eq!(select_desktop_files(&found), strings(&["/usr/share/applications/a.desktop", "/usr/share/applications/sub/b.desktop"]));
    let dirs = app_directories();
    assert!(dirs.contains(&"/usr/share/applications".to_string()));
    assert!(dirs.contains(&"/var/lib/snapd/desktop/applications".to_string()));
}

#[test]
fn desktop_entries_to_apps() {
    let files = vec![
        ("/x/zed.desktop".to_string(), b"[Desktop Entry]\nName=zed\nExec=zed %F\nComment=Editor\n".to_vec()),
        ("/x/hidden.desktop".to_string(), b"[Desktop Entry]\nName=Hidden\nExec=h\nNoDisplay=true\n".to_vec()),
        ("/x/noexec.desktop".to_string(), b"[Desktop Entry]\nName=NoExec\n".to_vec()),
        ("/x/alpha.desktop".to_string(), b"[Desktop Entry]\nName=Alpha\nExec=alpha --new %u\nIcon=alpha\n".to_vec()),
    ];
    let apps = apps_from_files(&files);
    let names: Vec<&str> = apps.iter().map(|a| a.name.as_str()).collect();
    assert_eq!(names, vec!["Alpha", "zed"]);
    assert_eq!(apps[0].command, "alpha --new");
    assert_eq!(apps[0].icon, Some("alpha".to_string()));
    assert_eq!(apps[1].description, Some("Editor".to_string()));
    assert_eq!(apps[1].desktop_path, "/x/zed.desktop");
    assert!(AppEntry::from_desktop(b"not a desktop file [", "/x/bad.desktop").is_none());
}

#[test]
fn decimal_parsing_like_std() {
    for s in ["0", "42", "+7", "4294967295", "4294967296", "", "+", "-1", "1a", " 1", "007"] {
        assert_eq!(parse_u32(s), s.parse::<u32>().ok(), "text {:?}", s);
    }
}

#[test]
fn paste_conflicts_and_messages() {
    let files = strings(&["/a/x", "/a/y", "/a/z"]);
    let conflicts = strings(&["/a/y/", "/a/z"]);
    assert_eq!(non_conflicting(&files, &conflicts), strings(&["/a/x"]));
    let pending = PendingPaste { files: files.clone(), operation: ClipboardOperation::Cut, dest_dir: "/b".to_string(), conflicts };
    let rest = remaining_paste(&pending).unwrap();
    assert_eq!(rest.conflicts, strings(&["/a/z"]));
    assert_eq!(rest.files, strings(&["/a/z"]));
    assert!(remaining_paste(&rest).is_none());
    assert_eq!(done_message(1, ClipboardOperation::Copy), "1 item copied");
    assert_eq!(done_message(3, ClipboardOperation::Cut), "3 items moved");
    assert_eq!(settled_message(2, ClipboardOperation::Copy, false, 1), "2 copied (skipped 1)");
    assert_eq!(settled_message(4, ClipboardOperation::Cut, true, 2), "4 moved (replaced 2)");
    assert_eq!(pasted_as_message("a (1).txt"), "Pasted as 'a (1).txt' - press F2 to rename");
    assert!(matches!(plan_paste(strings(&["/nonexistent-garfield/q"]), ClipboardOperation::Copy, "/nonexistent-garfield-dest"), PastePlan::Proceed));
    assert_eq!(movable_files(&strings(&["/a/x", "/b/y", "/a/sub/z"]), "/a/"), strings(&["/b/y", "/a/sub/z"]));
}

#[test]
fn paste_outcomes() {
    let ok = OperationResult::success(strings(&["/b/x", "/b/y"]));
    let (msg, rec) = paste_outcome(ClipboardOperation::Copy, strings(&["/a/x", "/a/y"]), &ok, false);
    assert_eq!(msg, Some("2 items copied".to_string()));
    match rec {
        Some(FileOperation::Copy { sources, destinations }) => {
            assert_eq!(sources, strings(&["/a/x", "/a/y"]));
            assert_eq!(destinations, strings(&["/b/x", "/b/y"]));
        }
        _ => panic!("expected a copy record"),
    }
    let bad = OperationResult::failure("disk full".to_string());
    let (msg, rec) = paste_outcome(ClipboardOperation::Cut, strings(&["/a/x"]), &bad, true);
    assert_eq!(msg, Some("Move failed: disk full".to_string()));
    assert!(rec.is_none());
    let none = OperationResult::success(vec![]);
    let (msg, rec) = paste_outcome(ClipboardOperation::Cut, vec![], &none, false);
    assert!(msg.is_none() && rec.is_none());
    assert!(matches!(paste_record(ClipboardOperation::Cut, vec![], vec![]), FileOperation::Move { .. }));
}

#[test]
fn ipc_replies_and_socket() {
    let ok = Response::ok();
    assert!(ok.success && ok.data.is_none() && ok.error.is_none());
    let e = Response::err("no such tab".to_string());
    assert!(!e.success && e.data.is_none());
    assert_eq!(e.error, Some("no such tab".to_string()));
    assert_eq!(socket_path_for(Some("/run/user/1000".to_string())), "/run/user/1000/garfield.sock");
    assert_eq!(socket_path_for(None), "/tmp/garfield.sock");
}
