use garfield::geometry::{Point, Rect};
use garfield::status_bar::{PickerToolbar, StatusBar};
use garfield::views::PickerToolbarClick;
use garfield::sidebar::{bookmark_place, default_places, parse_bookmarks, Sidebar, StandardDirs};
use garfield::tab_bar::TabBar;
use garfield::toolbar::Toolbar;
use garfield::views::{TabInfo, ToolbarAction};

fn dirs() -> StandardDirs {
    StandardDirs {
        home: Some(String::from("/home/u")),
        desktop: Some(String::from("/home/u/Desktop")),
        documents: None,
        downloads: None,
        music: None,
        pictures: None,
        videos: None,
        trash_files: Some(String::from("/home/u/.local/share/Trash/files")),
    }
}

#[test]
fn default_places_skip_missing_and_repeated() {
    let vols = vec![String::from("/media/usb"), String::from("/"), String::from("/media/usb/")];
    let places = default_places(&dirs(), &vols);
    let names: Vec<&str> = places.iter().map(|p| p.name.as_str()).collect();
    assert_eq!(names, vec!["Home", "Desktop", "Filesystem", "Trash", "usb"]);
    let icons: Vec<&str> = places.iter().map(|p| p.icon.as_str()).collect();
    assert_eq!(icons, vec!["~", "D", "/", "x", "#"]);
    assert_eq!(places[4].path, "/media/usb");
    assert!(places.iter().all(|p| !p.is_bookmark));
}

#[test]
fn bookmarks_file_lines() {
    assert_eq!(parse_bookmarks("# saved\n /a/b \n\n/c\n"), vec!["/a/b", "/c"]);
    let p = bookmark_place("/a/b");
    assert_eq!((p.name.as_str(), p.icon.as_str(), p.is_bookmark), ("b", "*", true));
    assert_eq!(bookmark_place("/").name, "/");
}

fn sidebar() -> Sidebar {
    let places = default_places(&dirs(), &Vec::new());
    Sidebar::new(Rect { x: 0, y: 0, width: 200, height: 600 }, places, Vec::new(), String::from("/tmp/bookmarks"))
}

#[test]
fn bookmarks_are_added_once_and_removed() {
    let mut s = sidebar();
    let place_keys: Vec<String> = s.places().iter().map(|p| p.path.clone()).collect();
    assert!(!s.add_bookmark("/home/u/", &Vec::new(), &place_keys));
    assert!(s.add_bookmark("/x/y", &Vec::new(), &place_keys));
    assert_eq!(s.bookmarks_text(), "/x/y\n");
    let keys = vec![String::from("/x/y")];
    assert!(s.is_bookmarked("/x/y/", &keys));
    assert!(!s.add_bookmark("/x/y", &keys, &place_keys));
    assert!(!s.toggle_bookmark("/x/y", &keys, &place_keys));
    assert!(s.bookmarks().is_empty());
    assert!(s.toggle_bookmark("/z", &Vec::new(), &place_keys));
    assert_eq!(s.bookmarks().len(), 1);
    assert!(!s.remove_bookmark("/w", &vec![String::from("/z")]));
    assert_eq!(s.bookmarks_path(), "/tmp/bookmarks");
}

#[test]
fn layout_and_clicks() {
    let mut s = sidebar();
    let place_keys: Vec<String> = s.places().iter().map(|p| p.path.clone()).collect();
    s.add_bookmark("/b1", &Vec::new(), &place_keys);
    s.layout(20);
    assert_eq!(s.places()[1].bounds, Rect { x: 0, y: 36, width: 200, height: 28 });
    assert_eq!(s.bookmarks_section_y(), 8 + 28 * 4 + 16);
    assert_eq!(s.bookmarks()[0].bounds.y, 136 + 20);
    assert_eq!(s.on_click(Point { x: 10, y: 40 }), Some(String::from("/home/u/Desktop")));
    assert_eq!(s.on_click(Point { x: 10, y: 160 }), Some(String::from("/b1")));
    assert!(s.on_mouse_move(Point { x: 10, y: 40 }));
    assert_eq!(s.hovered(), Some(1));
    assert!(s.is_bookmark_drop_zone(Point { x: 10, y: 140 }));
    assert!(!s.is_bookmark_drop_zone(Point { x: 10, y: 100 }));
    s.toggle();
    assert_eq!(s.width(), 0);
    assert_eq!(s.on_click(Point { x: 10, y: 40 }), None);
    s.toggle();
    s.set_width(50);
    assert_eq!(s.width(), 120);
    s.set_width(1000);
    assert_eq!(s.width(), 400);
    assert!(s.is_resize_handle(Point { x: 398, y: 10 }));
    assert!(!s.is_resize_handle(Point { x: 390, y: 10 }));
    assert!(!s.on_scroll(3));
}

#[test]
fn bookmarks_reorder_by_dragging() {
    let mut s = sidebar();
    let place_keys: Vec<String> = s.places().iter().map(|p| p.path.clone()).collect();
    s.add_bookmark("/a", &Vec::new(), &place_keys);
    s.add_bookmark("/b", &vec![String::from("/a")], &place_keys);
    s.add_bookmark("/c", &vec![String::from("/a"), String::from("/b")], &place_keys);
    s.layout(20);
    let a_y = s.bookmarks()[0].bounds.y;
    let c_y = s.bookmarks()[2].bounds.y;
    assert!(s.start_bookmark_drag(Point { x: 10, y: a_y + 2 }));
    assert!(!s.update_bookmark_drag(Point { x: 12, y: a_y + 4 }));
    assert!(s.update_bookmark_drag(Point { x: 10, y: c_y + 20 }));
    assert!(s.is_bookmark_dragging());
    assert_eq!(s.bookmark_drop_index(), Some(3));
    assert_eq!(s.bookmark_path_at_index(), Some(String::from("/a")));
    assert!(s.complete_bookmark_drag());
    let order: Vec<&str> = s.bookmarks().iter().map(|p| p.path.as_str()).collect();
    assert_eq!(order, vec!["/b", "/c", "/a"]);
    assert_eq!(s.bookmark_drag_index(), None);
    assert!(!s.complete_bookmark_drag());
}

fn tabs(n: usize) -> Vec<TabInfo> {
    (0..n).map(|i| TabInfo { title: format!("t{}", i), active: i == 0 }).collect()
}

#[test]
fn tabs_share_the_bar() {
    let mut b = TabBar::new(Rect { x: 0, y: 0, width: 400, height: 32 });
    assert_eq!(b.on_click(Point { x: 10, y: 10 }), None);
    b.set_tabs(tabs(3), 0);
    assert_eq!(b.tab_count(), 3);
    assert_eq!(b.tab_bounds()[2], Rect { x: 266, y: 0, width: 133, height: 32 });
    assert_eq!(b.on_click(Point { x: 10, y: 10 }), Some((0, false)));
    assert_eq!(b.close_button_bounds(0), Some(Rect { x: 109, y: 6, width: 20, height: 20 }));
    assert_eq!(b.on_click(Point { x: 115, y: 10 }), Some((0, true)));
    b.on_mouse_move(Point { x: 140, y: 5 });
    assert_eq!(b.hover_state(), (Some(1), None));
    b.on_mouse_move(Point { x: 115, y: 10 });
    assert_eq!(b.hover_state(), (None, Some(0)));
    b.clear_hover();
    assert_eq!(b.hover_state(), (None, None));
    b.set_tabs(tabs(10), 4);
    assert_eq!(b.tab_bounds()[1].x, 80);
    b.set_bounds(Rect { x: 0, y: 0, width: 4000, height: 32 });
    assert_eq!(b.tab_bounds()[1].x, 200);
    assert_eq!(b.close_button_bounds(10), None);
}

#[test]
fn toolbar_buttons_in_groups() {
    let mut t = Toolbar::new(Rect { x: 0, y: 0, width: 800, height: 36 });
    let xs: Vec<i32> = t.buttons().iter().map(|b| b.bounds.x).collect();
    assert_eq!(xs, vec![4, 36, 68, 112, 144, 176, 220, 252, 284, 328, 360, 392, 424, 456, 768]);
    assert_eq!(t.buttons()[0].bounds.y, 4);
    assert_eq!(t.on_click(Point { x: 5, y: 5 }), None);
    t.set_nav_state(true, false);
    assert_eq!(t.on_click(Point { x: 5, y: 5 }), Some(ToolbarAction::GoBack));
    assert_eq!(t.on_click(Point { x: 40, y: 5 }), None);
    assert_eq!(t.on_click(Point { x: 330, y: 5 }), None);
    t.set_file_ops_state(true, false);
    assert_eq!(t.on_click(Point { x: 330, y: 5 }), Some(ToolbarAction::Copy));
    assert_eq!(t.on_click(Point { x: 394, y: 5 }), None);
    assert_eq!(t.on_click(Point { x: 770, y: 5 }), Some(ToolbarAction::Help));
    assert_eq!(t.on_click(Point { x: 100, y: 5 }), None);
    t.on_mouse_move(Point { x: 150, y: 10 });
    assert_eq!(t.hovered_tooltip(), Some("Grid View (Ctrl+2)"));
    t.clear_hover();
    assert_eq!(t.hovered_tooltip(), None);
    t.set_active_view(ToolbarAction::ViewGrid);
    assert_eq!(t.state().0, ToolbarAction::ViewGrid);
    assert!(t.contains(Point { x: 799, y: 35 }));
}

#[test]
fn status_bar_texts() {
    let mut s = StatusBar::new(Rect { x: 0, y: 576, width: 800, height: 24 });
    assert_eq!(s.left_text(), "0 items");
    assert_eq!(s.view_mode(), "List");
    s.update(10, 2, 1536);
    assert_eq!(s.left_text(), "10 items (2 selected, 1.5 KB)");
    s.update(10, 1, 100);
    assert_eq!(s.left_text(), "10 items (1 selected, 100 B)");
    s.update_selection_count(0);
    assert_eq!(s.left_text(), "10 items");
    s.set_status_message(String::from("3 files copied"));
    assert!(s.has_status_message());
    assert_eq!(s.left_text(), "3 files copied");
    s.clear_status_message();
    assert_eq!(s.left_text(), "10 items");
    assert_eq!(s.free_text(), None);
    s.set_free_space(Some(2048));
    assert_eq!(s.free_text(), Some(String::from("2.0 KB free  |  ")));
    s.set_view_mode("Grid");
    assert_eq!(s.view_mode(), "Grid");
    assert_eq!(s.height(), 24);
}

#[test]
fn picker_toolbar_buttons() {
    let mut t = PickerToolbar::new(Rect { x: 0, y: 0, width: 800, height: 36 }, String::from("Open"));
    assert_eq!(
        t.layout_rects(),
        (
            Rect { x: 580, y: 4, width: 100, height: 28 },
            Rect { x: 692, y: 4, width: 100, height: 28 },
            Rect { x: 8, y: 0, width: 560, height: 36 }
        )
    );
    assert_eq!(t.on_click(Point { x: 590, y: 10 }), PickerToolbarClick::Nothing);
    t.set_accept_enabled(true);
    assert_eq!(t.on_click(Point { x: 590, y: 10 }), PickerToolbarClick::Accept);
    assert_eq!(t.on_click(Point { x: 700, y: 10 }), PickerToolbarClick::Cancel);
    assert_eq!(t.activate_focused(), PickerToolbarClick::Accept);
    t.cycle_focus();
    assert_eq!(t.activate_focused(), PickerToolbarClick::Cancel);
    assert!(t.on_mouse_move(Point { x: 700, y: 10 }));
    assert_eq!(t.state().2, Some(1));
    assert!(!t.on_mouse_move(Point { x: 701, y: 10 }));
    assert!(!t.on_mouse_move(Point { x: 20, y: 10 }) || t.state().2.is_none());
    assert_eq!(t.get_tooltip(), None);
    t.set_filter_description(Some(String::from("Rust files (*.rs)")));
    t.on_mouse_move(Point { x: 21, y: 10 });
    assert!(t.is_filter_hovered());
    assert_eq!(t.get_tooltip(), Some("Rust files (*.rs)"));
    assert!(t.on_mouse_move(Point { x: 900, y: 10 }));
    assert!(!t.is_filter_hovered());
    assert_eq!(t.state().0, "Open");
    assert!(t.contains_point(Point { x: 0, y: 0 }));
}
