use garfield::geometry::{Point, Rect};
use garfield::help::{calculate_content_height, keybind_sections, HelpModal};

fn window() -> Rect {
    Rect { x: 0, y: 0, width: 800, height: 600 }
}

#[test]
fn shortcuts_are_listed_by_section() {
    let s = keybind_sections();
    let titles: Vec<&str> = s.iter().map(|x| x.0).collect();
    assert_eq!(
        titles,
        vec!["Navigation", "Views", "Tabs & Panes", "Selection", "File Operations", "Bookmarks", "Other"]
    );
    assert_eq!(s[1].1[3], ("Ctrl+H", "Toggle hidden files"));
    assert_eq!(s[6].1[4], ("q", "Quit"));
    assert_eq!(calculate_content_height(), 1155);
}

#[test]
fn help_toggles_and_closes_on_outside_click() {
    let mut h = HelpModal::new(window());
    assert!(!h.is_visible());
    assert_eq!(h.modal_rect(), Rect { x: 200, y: 50, width: 400, height: 500 });
    h.toggle();
    assert!(h.is_visible());
    assert!(h.on_click(Point { x: 300, y: 100 }));
    assert!(h.is_visible());
    assert!(h.on_click(Point { x: 10, y: 10 }));
    assert!(!h.is_visible());
    assert!(!h.on_click(Point { x: 10, y: 10 }));
    h.toggle();
    h.toggle();
    assert!(!h.is_visible());
}

#[test]
fn help_scrolls_within_its_content() {
    let mut h = HelpModal::new(window());
    h.on_scroll(-1);
    assert_eq!(h.scroll_offset(), 0);
    h.show();
    h.on_scroll(-1);
    h.on_scroll(-1);
    assert_eq!(h.scroll_offset(), 40);
    h.on_scroll(1);
    assert_eq!(h.scroll_offset(), 20);
    h.scroll_up();
    h.scroll_up();
    assert_eq!(h.scroll_offset(), 0);
    for _ in 0..100 {
        h.scroll_down();
    }
    assert_eq!(h.scroll_offset(), 715);
    h.on_scroll(0);
    assert_eq!(h.scroll_offset(), 715);
    h.show();
    assert_eq!(h.scroll_offset(), 0);
}
