use garfield::portal::{
    build_file_chooser_response, parse_current_folder, parse_filters, parse_parent_window, picker_args, picker_paths,
    picker_response, save_picker_args, ResponseCode,
};

fn strings(v: &[&str]) -> Vec<String> {
    v.iter().map(|s| s.to_string()).collect()
}

#[test]
fn parent_window_ids() {
    assert_eq!(parse_parent_window("x11:1a2b"), Some(0x1a2b));
    assert_eq!(parse_parent_window("x11:FFFFFFFF"), Some(u32::MAX));
    assert_eq!(parse_parent_window("x11:+ff"), Some(255));
    assert_eq!(parse_parent_window("x11:"), None);
    assert_eq!(parse_parent_window("x11:+"), None);
    assert_eq!(parse_parent_window("x11:zz"), None);
    assert_eq!(parse_parent_window("x11:100000000"), None);
    assert_eq!(parse_parent_window("wayland:abc"), None);
}

#[test]
fn open_picker_arguments() {
    let args = picker_args("Open", false, true, &strings(&["*.png", "*.jpg"]), Some(String::from("/home/u")), Some(42));
    assert_eq!(
        args,
        strings(&["--picker", "--title", "Open", "--multiple", "--filter", "*.png;*.jpg", "--parent-window", "42", "/home/u"])
    );
    assert_eq!(picker_args("", true, false, &Vec::new(), None, None), strings(&["--picker", "--directory"]));
}

#[test]
fn save_picker_arguments() {
    assert_eq!(
        save_picker_args("Save", Some(String::from("a.txt")), None, None),
        strings(&["--picker", "--save", "--save-filename", "a.txt", "--title", "Save"])
    );
    assert_eq!(
        save_picker_args("", None, Some(String::from("/tmp")), Some(7)),
        strings(&["--picker", "--save", "--parent-window", "7", "/tmp"])
    );
}

#[test]
fn portal_options() {
    let filters = vec![
        (String::from("Images"), vec![(0u32, String::from("*.png")), (1u32, String::from("image/jpeg"))]),
        (String::from("Docs"), vec![(0u32, String::from("*.pdf"))]),
    ];
    assert_eq!(parse_filters(&filters), strings(&["*.png", "*.pdf"]));
    assert_eq!(parse_current_folder(&b"/home/u\0".to_vec()), Some(String::from("/home/u")));
    assert_eq!(parse_current_folder(&b"/tmp".to_vec()), Some(String::from("/tmp")));
    assert_eq!(parse_current_folder(&vec![0xffu8, 0x2f]), None);
    assert_eq!(parse_current_folder(&vec![0u8, 0xff]), Some(String::new()));
}

#[test]
fn picker_answers() {
    assert_eq!(picker_paths(strings(&["/a", "", "/b"])), strings(&["/a", "/b"]));
    assert_eq!(build_file_chooser_response(strings(&["/a b"])), strings(&["file:///a%20b"]));
    let (code, uris) = picker_response(true, strings(&["/a"]));
    assert_eq!(code, ResponseCode::Cancelled);
    assert!(uris.is_empty());
    let (code, uris) = picker_response(false, Vec::new());
    assert_eq!(code, ResponseCode::Cancelled);
    assert!(uris.is_empty());
    let (code, uris) = picker_response(false, strings(&["/a"]));
    assert_eq!(code, ResponseCode::Success);
    assert_eq!(uris, strings(&["file:///a"]));
    assert_eq!(ResponseCode::Success.code(), 0);
    assert_eq!(ResponseCode::Cancelled.code(), 1);
    assert_eq!(ResponseCode::Error.code(), 2);
}
