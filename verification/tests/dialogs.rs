use garfield::dialogs::{wrap_text, ConfirmDialog, ConflictDialog, InputDialog, ProgressDialog};
use garfield::geometry::{Point, Rect};
use garfield::keys::Key;
use garfield::views::{ConflictAction, DialogResult, InputResult};

fn window() -> Rect {
    Rect { x: 0, y: 0, width: 800, height: 600 }
}

#[test]
fn confirm_dialog_is_centered_with_two_buttons() {
    let d = ConfirmDialog::new(window());
    assert_eq!(d.dialog_rect(), Rect { x: 160, y: 180, width: 480, height: 240 });
    assert_eq!(
        d.button_rects(),
        (Rect { x: 292, y: 360, width: 100, height: 36 }, Rect { x: 408, y: 360, width: 100, height: 36 })
    );
    let small = ConfirmDialog::new(Rect { x: 0, y: 0, width: 100, height: 50 });
    assert_eq!(small.dialog_rect(), Rect { x: 10, y: 10, width: 80, height: 30 });
    assert_eq!(small.button_rects().0, Rect { x: -58, y: -20, width: 100, height: 36 });
}

#[test]
fn confirm_dialog_keys() {
    let mut d = ConfirmDialog::new(window());
    assert_eq!(d.handle_key(Key::Return), None);
    d.show("T", "M", "Yes", "No");
    assert_eq!(d.focused_button(), 1);
    assert_eq!(d.handle_key(Key::Tab), None);
    assert_eq!(d.focused_button(), 0);
    assert_eq!(d.handle_key(Key::Return), Some(DialogResult::Confirmed));
    assert!(!d.is_visible());
    d.show("T", "M", "Yes", "No");
    d.handle_key(Key::Left);
    d.handle_key(Key::Right);
    assert_eq!(d.handle_key(Key::Return), Some(DialogResult::Cancelled));
    d.show("T", "M", "Yes", "No");
    assert_eq!(d.handle_key(Key::Char('x')), None);
    assert_eq!(d.handle_key(Key::Escape), Some(DialogResult::Cancelled));
}

#[test]
fn confirm_dialog_clicks() {
    let mut d = ConfirmDialog::new(window());
    d.show_delete_confirm(1);
    assert_eq!(d.title(), "Confirm Delete");
    assert_eq!(d.message(), "Are you sure you want to permanently delete this item?\nThis action cannot be undone.");
    assert_eq!(d.labels(), ("Delete", "Cancel"));
    d.on_mouse_move(Point { x: 300, y: 370 });
    assert_eq!(d.hovered_button(), Some(0));
    d.on_mouse_move(Point { x: 500, y: 370 });
    assert_eq!(d.hovered_button(), Some(1));
    assert_eq!(d.on_click(Point { x: 400, y: 200 }), None);
    assert_eq!(d.on_click(Point { x: 300, y: 370 }), Some(DialogResult::Confirmed));
    d.show_delete_confirm(3);
    assert_eq!(d.message(), "Are you sure you want to permanently delete 3 items?\nThis action cannot be undone.");
    assert_eq!(d.on_click(Point { x: 5, y: 5 }), Some(DialogResult::Cancelled));
    assert!(!d.is_visible());
}

#[test]
fn text_wraps_at_words() {
    assert_eq!(wrap_text("short", 10), vec!["short"]);
    assert_eq!(wrap_text("one two three four", 9), vec!["one two", "three", "four"]);
    assert_eq!(wrap_text("abcdefghijkl xy", 8), vec!["abcde...", "xy"]);
    assert_eq!(wrap_text("a\r\nb\n", 10), vec!["a", "b"]);
    assert_eq!(wrap_text("", 10), Vec::<String>::new());
    assert_eq!(wrap_text("x\n\ny", 10), vec!["x", "", "y"]);
    assert_eq!(
        wrap_text("Are you sure you want to permanently delete 3 items?\nThis action cannot be undone.", 30),
        vec!["Are you sure you want to", "permanently delete 3 items?", "This action cannot be undone."]
    );
}

#[test]
fn progress_dialog_reports_and_cancels() {
    let mut d = ProgressDialog::new(window());
    assert!(!d.handle_key(Key::Escape));
    d.show("Copying", 10, true);
    assert!(d.start_time().is_some());
    assert_eq!(d.item_text(), "Preparing...");
    d.update(3, "a.txt");
    assert_eq!(d.progress().current, 3);
    assert_eq!(d.item_text(), "a.txt");
    assert_eq!(d.progress_text(), "3 of 10");
    let long = "x".repeat(60);
    d.update(4, &long);
    assert_eq!(d.item_text(), format!("...{}", "x".repeat(50)));
    d.update_bytes(5, 9);
    assert_eq!(d.progress().bytes_total, 9);
    assert_eq!(d.dialog_rect(), Rect { x: 175, y: 220, width: 450, height: 160 });
    assert_eq!(d.cancel_button_rect(), Rect { x: 360, y: 336, width: 80, height: 28 });
    assert_eq!(d.progress_bar_rect(), Rect { x: 195, y: 300, width: 410, height: 8 });
    d.on_mouse_move(Point { x: 370, y: 340 });
    assert_eq!(d.cancel_state(), (true, true));
    assert!(d.handle_key(Key::Char('z')));
    assert!(!d.is_cancel_requested());
    assert!(d.on_click(Point { x: 10, y: 10 }));
    assert!(!d.is_cancel_requested());
    assert!(d.on_click(Point { x: 370, y: 340 }));
    assert!(d.is_cancel_requested());
    d.show("Moving", 2, false);
    assert!(d.handle_key(Key::Escape));
    assert!(!d.is_cancel_requested());
    d.close();
    assert!(!d.is_visible());
    assert!(d.start_time().is_none());
}

#[test]
fn conflict_dialog_keys_and_clicks() {
    let mut d = ConflictDialog::new(window());
    d.show("a.txt");
    assert_eq!(d.filename(), "a.txt");
    assert_eq!(d.buttons_state(), (2, None));
    d.handle_key(Key::Left);
    d.handle_key(Key::Left);
    d.handle_key(Key::Left);
    assert_eq!(d.buttons_state().0, 3);
    d.handle_key(Key::Right);
    d.handle_key(Key::Tab);
    assert_eq!(d.buttons_state().0, 1);
    d.handle_key(Key::Char('a'));
    assert!(d.apply_to_all());
    assert_eq!(d.handle_key(Key::Return), Some(ConflictAction::Skip));
    assert!(!d.is_visible());
    d.show("b.txt");
    assert!(!d.apply_to_all());
    let b = d.button_rects();
    assert_eq!(b[0], Rect { x: 218, y: 346, width: 85, height: 28 });
    assert_eq!(b[3], Rect { x: 497, y: 346, width: 85, height: 28 });
    assert_eq!(d.checkbox_rect(), Rect { x: 210, y: 305, width: 16, height: 16 });
    d.on_mouse_move(Point { x: 320, y: 350 });
    assert_eq!(d.buttons_state().1, Some(1));
    assert_eq!(d.on_click(Point { x: 212, y: 307 }), None);
    assert!(d.apply_to_all());
    assert_eq!(d.on_click(Point { x: 220, y: 350 }), Some(ConflictAction::Replace));
    d.show("c.txt");
    assert_eq!(d.on_click(Point { x: 1, y: 1 }), Some(ConflictAction::Cancel));
    d.show("d.txt");
    assert_eq!(d.handle_key(Key::Escape), Some(ConflictAction::Cancel));
}

#[test]
fn input_dialog_edits_and_answers() {
    let mut d = InputDialog::new(window());
    d.show("New Folder", "Name:", "untitled");
    assert_eq!(d.focus_state(), (8, 0, None));
    d.handle_key(Key::Backspace);
    d.handle_key(Key::Home);
    d.handle_key(Key::Delete);
    d.handle_key(Key::Char('U'));
    d.handle_key(Key::End);
    d.handle_key(Key::Char('s'));
    d.handle_key(Key::Left);
    d.handle_key(Key::Right);
    assert_eq!(d.texts().2, "Untitles");
    assert!(matches!(d.handle_key(Key::Return), Some(InputResult::Submitted(ref t)) if t == "Untitles"));
    d.show("New Folder", "Name:", "x");
    d.handle_key(Key::Tab);
    d.handle_key(Key::Tab);
    d.handle_key(Key::Char('q'));
    assert_eq!(d.texts().2, "x");
    assert!(matches!(d.handle_key(Key::Return), Some(InputResult::Cancelled)));
    d.show("T", "P", "y");
    assert_eq!(d.input_rect(), Rect { x: 220, y: 290, width: 360, height: 32 });
    assert_eq!(
        d.button_rects(),
        (Rect { x: 312, y: 336, width: 80, height: 28 }, Rect { x: 408, y: 336, width: 80, height: 28 })
    );
    d.on_mouse_move(Point { x: 410, y: 340 });
    assert_eq!(d.focus_state().2, Some(2));
    d.handle_key(Key::Tab);
    assert_eq!(d.on_click(Point { x: 230, y: 300 }).is_none(), true);
    assert_eq!(d.focus_state().1, 0);
    assert!(matches!(d.on_click(Point { x: 320, y: 340 }), Some(InputResult::Submitted(ref t)) if t == "y"));
    d.show("T", "P", "z");
    assert!(matches!(d.on_click(Point { x: 410, y: 340 }), Some(InputResult::Cancelled)));
    d.show("T", "P", "z");
    assert!(matches!(d.handle_key(Key::Escape), Some(InputResult::Cancelled)));
    d.close();
    assert!(!d.is_visible());
}
