use garfield::context_menu::{
    build_empty_space_menu, build_file_menu, build_folder_menu, build_menu_items, build_multi_selection_menu,
    ContextMenu,
};
use garfield::geometry::{Point, Rect};
use garfield::keys::Key;
use garfield::menu::{ContextMenuAction, ContextType, MenuItem};

fn window() -> Rect {
    Rect { x: 0, y: 0, width: 800, height: 600 }
}

fn label(item: &MenuItem) -> String {
    match item {
        MenuItem::Action { label, .. } => label.clone(),
        MenuItem::Submenu { label, .. } => label.clone(),
        MenuItem::Separator => String::from("-"),
    }
}

fn labels(items: &[MenuItem]) -> Vec<String> {
    items.iter().map(label).collect()
}

#[test]
fn file_menu_lists_its_actions() {
    let items = build_file_menu(false);
    assert_eq!(
        labels(&items),
        vec![
            "Open", "Open With", "-", "Copy", "Cut", "Duplicate", "-", "Rename", "Move to Trash",
            "Delete Permanently", "-", "Properties"
        ]
    );
    match &items[1] {
        MenuItem::Submenu { items: sub, .. } => {
            assert_eq!(labels(sub), vec!["Default Application", "Text Editor", "-", "Other Application..."]);
            assert!(matches!(&sub[0], MenuItem::Action { action: ContextMenuAction::OpenWith(c), .. } if c == "xdg-open"));
        },
        _ => panic!("expected the Open With submenu"),
    }
    match &items[5] {
        MenuItem::Action { shortcut, enabled, .. } => {
            assert_eq!(shortcut.as_deref(), Some("Ctrl+Shift+D"));
            assert!(*enabled);
        },
        _ => panic!("expected Duplicate"),
    }
}

#[test]
fn trash_leaves_out_move_to_trash() {
    let items = build_file_menu(true);
    assert_eq!(items.len(), 11);
    assert!(!labels(&items).contains(&String::from("Move to Trash")));
    let folder = build_folder_menu(true);
    assert_eq!(labels(&folder)[1], "Open in New Tab");
    assert!(!labels(&folder).contains(&String::from("Move to Trash")));
    let multi = build_multi_selection_menu(2, true);
    assert_eq!(labels(&multi), vec!["Copy 2 items", "Cut 2 items", "-", "Delete 2 items"]);
}

#[test]
fn multi_selection_labels_name_the_count() {
    let items = build_multi_selection_menu(3, false);
    assert_eq!(labels(&items), vec!["Copy 3 items", "Cut 3 items", "-", "Move 3 items to Trash", "Delete 3 items"]);
    let items = build_menu_items(ContextType::MultiSelection, 12, false, false);
    assert_eq!(labels(&items)[0], "Copy 12 items");
}

#[test]
fn paste_is_enabled_only_with_clipboard() {
    let with = build_empty_space_menu(true);
    let without = build_empty_space_menu(false);
    assert_eq!(labels(&with), vec!["New File", "New Folder", "-", "Paste", "-", "Refresh", "-", "View", "Sort By"]);
    assert!(matches!(&with[3], MenuItem::Action { enabled: true, .. }));
    assert!(matches!(&without[3], MenuItem::Action { enabled: false, .. }));
}

#[test]
fn click_runs_an_action_and_hides() {
    let mut m = ContextMenu::new(window());
    m.show(Point { x: 100, y: 100 }, ContextType::File, 1, false, false);
    assert!(m.is_visible());
    // Open, Open With and a separator lie above Copy: 100 + 4 + 28 + 28 + 9.
    let a = m.on_click(Point { x: 150, y: 169 });
    assert!(matches!(a, Some(ContextMenuAction::Copy)));
    assert!(!m.is_visible());
}

#[test]
fn menu_flips_near_the_edges() {
    let mut m = ContextMenu::new(window());
    // The file menu is 287 high: it opens above and to the left of (700, 500).
    m.show(Point { x: 700, y: 500 }, ContextType::File, 1, false, false);
    let a = m.on_click(Point { x: 445, y: 218 });
    assert!(matches!(a, Some(ContextMenuAction::Open)));
}

#[test]
fn disabled_paste_does_nothing_and_outside_click_hides() {
    let mut m = ContextMenu::new(window());
    m.show(Point { x: 10, y: 10 }, ContextType::EmptySpace, 0, false, false);
    // Paste: 10 + 4 + 28 + 28 + 9 = 79.
    assert!(m.on_click(Point { x: 20, y: 80 }).is_none());
    assert!(m.is_visible());
    assert!(m.on_click(Point { x: 500, y: 500 }).is_none());
    assert!(!m.is_visible());
}

#[test]
fn keyboard_walks_into_a_submenu() {
    let mut m = ContextMenu::new(window());
    m.show(Point { x: 100, y: 100 }, ContextType::File, 1, false, false);
    assert!(m.handle_key(Key::Down).is_none());
    assert!(m.handle_key(Key::Right).is_none());
    assert!(m.handle_key(Key::Down).is_none());
    let a = m.handle_key(Key::Return);
    assert!(matches!(a, Some(ContextMenuAction::OpenWith(ref c)) if c == "$EDITOR"));
    assert!(!m.is_visible());
}

#[test]
fn focus_skips_separators_and_wraps() {
    let mut m = ContextMenu::new(window());
    m.show(Point { x: 100, y: 100 }, ContextType::File, 1, false, false);
    m.handle_key(Key::Up);
    assert!(matches!(m.handle_key(Key::Return), Some(ContextMenuAction::Properties)));
    m.show(Point { x: 100, y: 100 }, ContextType::File, 1, false, false);
    m.handle_key(Key::Down);
    m.handle_key(Key::Down);
    assert!(matches!(m.handle_key(Key::Return), Some(ContextMenuAction::Copy)));
    m.show(Point { x: 100, y: 100 }, ContextType::File, 1, false, false);
    m.handle_key(Key::Down);
    m.handle_key(Key::Up);
    assert!(matches!(m.handle_key(Key::Return), Some(ContextMenuAction::Open)));
}

#[test]
fn escape_closes_submenu_then_menu() {
    let mut m = ContextMenu::new(window());
    m.show(Point { x: 100, y: 100 }, ContextType::EmptySpace, 0, true, false);
    for _ in 0..4 {
        m.handle_key(Key::Down);
    }
    m.handle_key(Key::Return);
    assert!(m.is_visible());
    m.handle_key(Key::Escape);
    assert!(m.is_visible());
    m.handle_key(Key::Escape);
    assert!(!m.is_visible());
    assert!(m.handle_key(Key::Return).is_none());
}

#[test]
fn resting_on_a_submenu_item_opens_it_after_the_delay() {
    let mut m = ContextMenu::new(window());
    m.show(Point { x: 100, y: 100 }, ContextType::EmptySpace, 0, true, false);
    // "View" starts at 100 + 4 + 28 * 4 + 9 * 3 = 243.
    let on_view = Point { x: 150, y: 250 };
    assert!(m.track_pointer(on_view, 0));
    assert!(!m.track_pointer(on_view, 100));
    assert!(m.track_pointer(on_view, 400));
    // The submenu opens beside the item: x from 100 + 252, y from 243.
    let a = m.on_click(Point { x: 360, y: 247 + 28 });
    assert!(matches!(a, Some(ContextMenuAction::ViewGrid)));
}

#[test]
fn pointer_over_nothing_is_no_change() {
    let mut m = ContextMenu::new(window());
    assert!(!m.on_mouse_move(Point { x: 1, y: 1 }));
    m.show(Point { x: 100, y: 100 }, ContextType::File, 1, false, false);
    assert!(m.on_mouse_move(Point { x: 150, y: 110 }));
    assert!(!m.on_mouse_move(Point { x: 151, y: 111 }));
    assert!(m.on_mouse_move(Point { x: 600, y: 10 }));
    m.close();
    assert!(!m.is_visible());
}
