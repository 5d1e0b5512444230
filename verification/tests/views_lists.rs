use garfield::entry::{FileEntry, MetaInfo, SortDirection, SortOrder};
use garfield::geometry::{Point, Rect};
use garfield::grid_view::GridView;
use garfield::keys::Modifiers;
use garfield::list_view::{Column, ListView};
use garfield::views::IconSize;

fn plain_file(path: &str) -> FileEntry {
    FileEntry::from_parts(
        path.to_string(),
        MetaInfo { is_dir: false, is_file: true, is_symlink: false, len: 10, modified: None },
        None,
        None,
    )
}

fn entries(n: usize) -> Vec<FileEntry> {
    let mut v = Vec::new();
    for i in 0..n {
        if i % 4 == 3 {
            v.push(plain_file(&format!("/d/.hidden{}", i)));
        } else {
            v.push(plain_file(&format!("/d/f{}", i)));
        }
    }
    v
}

fn no_mods() -> Modifiers {
    Modifiers { shift: false, ctrl: false, alt: false }
}

#[test]
fn list_view_starts_empty() {
    let v = ListView::new(Rect { x: 0, y: 0, width: 600, height: 300 });
    assert_eq!(v.column_widths(), (300, 100, 168));
    assert_eq!(v.sort_settings(), (SortOrder::Name, SortDirection::Ascending));
    assert_eq!(v.selection_count(), 0);
    assert!(v.selected_entry().is_none());
    assert!(!v.is_resizing());
}

#[test]
fn list_view_hides_hidden_files() {
    let mut v = ListView::new(Rect { x: 0, y: 0, width: 600, height: 300 });
    v.set_entries(entries(8));
    assert_eq!(v.visible_entries().len(), 6);
    assert_eq!(v.selection_count(), 1);
    assert!(v.is_selected(0));
    v.select_last();
    assert_eq!(v.focused_index(), 5);
    v.toggle_hidden();
    assert_eq!(v.visible_entries().len(), 8);
    v.select_last();
    assert_eq!(v.focused_index(), 7);
    v.toggle_hidden();
    assert_eq!(v.focused_index(), 5);
    assert_eq!(v.selection_count(), 1);
    assert!(v.is_selected(5));
}

#[test]
fn list_view_navigation_scrolls() {
    // 300 - 28 header = 272 px of rows: 9 rows of 28 px.
    let mut v = ListView::new(Rect { x: 0, y: 0, width: 600, height: 300 });
    let mut all = Vec::new();
    for i in 0..40 {
        all.push(plain_file(&format!("/d/f{:02}", i)));
    }
    v.set_entries(all);
    for _ in 0..10 {
        v.select_next();
    }
    assert_eq!(v.focused_index(), 10);
    assert_eq!(v.selected_entry().unwrap().name, "f10");
    v.page_down();
    assert_eq!(v.focused_index(), 19);
    v.page_up();
    assert_eq!(v.focused_index(), 10);
    v.select_prev();
    assert_eq!(v.focused_index(), 9);
    v.select_first();
    assert_eq!(v.focused_index(), 0);
    v.select_prev();
    assert_eq!(v.focused_index(), 0);
    v.select_all();
    assert_eq!(v.selection_count(), 40);
    assert_eq!(v.selected_entries().len(), 40);
}

#[test]
fn list_view_row_clicks() {
    let mut v = ListView::new(Rect { x: 0, y: 0, width: 600, height: 300 });
    v.set_entries(entries(8));
    // Row 2 spans y 84..112.
    assert_eq!(v.on_row_click(Point { x: 50, y: 90 }, &no_mods()), Some(2));
    assert_eq!(v.focused_index(), 2);
    let ctrl = Modifiers { shift: false, ctrl: true, alt: false };
    assert_eq!(v.on_row_click(Point { x: 50, y: 40 }, &ctrl), Some(0));
    assert_eq!(v.selection_count(), 2);
    assert_eq!(v.on_row_click(Point { x: 50, y: 40 }, &ctrl), Some(0));
    assert_eq!(v.selection_count(), 1);
    let shift = Modifiers { shift: true, ctrl: false, alt: false };
    assert_eq!(v.on_row_click(Point { x: 50, y: 150 }, &shift), Some(4));
    assert_eq!(v.selection_count(), 5);
    // Below the last of the 6 shown rows.
    assert_eq!(v.on_row_click(Point { x: 50, y: 250 }, &no_mods()), None);
    // In the header.
    assert_eq!(v.on_row_click(Point { x: 50, y: 10 }, &no_mods()), None);
    assert_eq!(v.entry_at_point(Point { x: 50, y: 90 }).unwrap().name, "f2");
}

#[test]
fn list_view_header_sorting() {
    let mut v = ListView::new(Rect { x: 0, y: 0, width: 600, height: 300 });
    // Name header spans x 0..308, size 316..416, modified 424..592.
    assert_eq!(v.on_header_click(Point { x: 100, y: 10 }), Some((SortOrder::Name, SortDirection::Descending)));
    assert_eq!(v.on_header_click(Point { x: 100, y: 10 }), Some((SortOrder::Name, SortDirection::Ascending)));
    assert_eq!(v.on_header_click(Point { x: 350, y: 10 }), Some((SortOrder::Size, SortDirection::Ascending)));
    assert_eq!(v.on_header_click(Point { x: 500, y: 10 }), Some((SortOrder::Modified, SortDirection::Ascending)));
    // On the divider after the name column (x = 312).
    assert_eq!(v.on_header_click(Point { x: 313, y: 10 }), None);
    assert_eq!(v.on_header_click(Point { x: 100, y: 100 }), None);
    assert_eq!(Column::Size.to_sort_order(), SortOrder::Size);
}

#[test]
fn list_view_column_resize() {
    let mut v = ListView::new(Rect { x: 0, y: 0, width: 600, height: 300 });
    assert_eq!(v.divider_at(Point { x: 312, y: 5 }), Some(0));
    assert_eq!(v.divider_at(Point { x: 420, y: 5 }), Some(1));
    assert_eq!(v.divider_at(Point { x: 200, y: 5 }), None);
    v.start_resize(0);
    assert!(v.is_resizing());
    v.on_mouse_move(Point { x: 258, y: 5 });
    assert_eq!(v.column_widths(), (250, 150, 168));
    // The size column cannot go below the minimum width.
    v.on_mouse_move(Point { x: 500, y: 5 });
    assert_eq!(v.column_widths(), (340, 60, 168));
    v.stop_resize();
    assert!(!v.is_resizing());
    v.set_bounds(Rect { x: 0, y: 0, width: 800, height: 300 }, (400, 120, 248));
    assert_eq!(v.column_widths(), (400, 120, 248));
}

#[test]
fn grid_view_layout_and_navigation() {
    // Medium cells: 100 px plus 8 px padding; (800 - 8) / 108 = 7 columns,
    // 300 / 108 = 2 rows.
    let mut g = GridView::new(Rect { x: 0, y: 0, width: 800, height: 300 });
    assert_eq!(g.icon_size(), IconSize::Medium);
    let mut all = Vec::new();
    for i in 0..30 {
        all.push(plain_file(&format!("/d/f{:02}", i)));
    }
    g.set_entries(all);
    assert_eq!(g.visible_count(), 30);
    g.select_next();
    assert_eq!(g.focused_index(), 7);
    g.select_right();
    assert_eq!(g.focused_index(), 8);
    g.select_left();
    g.select_left();
    assert_eq!(g.focused_index(), 6);
    g.select_prev();
    assert_eq!(g.focused_index(), 0);
    g.page_down();
    assert_eq!(g.focused_index(), 14);
    g.select_last();
    assert_eq!(g.focused_index(), 29);
    g.select_next();
    assert_eq!(g.focused_index(), 29);
    g.page_up();
    assert_eq!(g.focused_index(), 15);
    g.select_first();
    assert_eq!(g.selected_entry().unwrap().name, "f00");
    g.set_focused(3);
    assert_eq!(g.focused_index(), 3);
    assert_eq!(g.selection_count(), 1);
    g.set_focused(99);
    assert_eq!(g.focused_index(), 3);
    assert_eq!(g.sort_settings(), (SortOrder::Name, SortDirection::Ascending));
}

#[test]
fn grid_view_icon_sizes() {
    let mut g = GridView::new(Rect { x: 0, y: 0, width: 800, height: 300 });
    g.increase_icon_size();
    assert_eq!(g.icon_size(), IconSize::Large);
    g.cycle_icon_size();
    assert_eq!(g.icon_size(), IconSize::Large);
    g.decrease_icon_size();
    g.decrease_icon_size();
    assert_eq!(g.icon_size(), IconSize::Small);
    g.set_icon_size(IconSize::Medium);
    assert_eq!(g.icon_size(), IconSize::Medium);
}

#[test]
fn grid_view_clicks_and_rubber_band() {
    let mut g = GridView::new(Rect { x: 0, y: 0, width: 800, height: 300 });
    g.set_entries(entries(10));
    assert_eq!(g.visible_count(), 8);
    // Cell 1 spans x 116..216, y 8..108.
    assert_eq!(g.on_click(Point { x: 150, y: 50 }, &no_mods()), Some(1));
    assert_eq!(g.focused_index(), 1);
    assert_eq!(g.entry_at_point(Point { x: 150, y: 50 }).unwrap().name, "f1");
    let (e, r) = g.entry_bounds_at_point(Point { x: 150, y: 50 }).unwrap();
    assert_eq!(e.name, "f1");
    assert_eq!(r, Rect { x: 116, y: 8, width: 100, height: 100 });
    // The gap between cells is empty space: a rubber band starts.
    assert_eq!(g.on_click(Point { x: 112, y: 50 }, &no_mods()), None);
    assert!(g.is_dragging());
    assert_eq!(g.selection_count(), 0);
    assert!(g.on_mouse_move(Point { x: 250, y: 150 }));
    assert_eq!(g.rubber_band_rect(), Some(Rect { x: 112, y: 50, width: 138, height: 100 }));
    g.stop_drag();
    assert!(!g.is_dragging());
    // The band overlaps the cells of entries 1 and 2 in the first row; the
    // cells below them would hold entries 8 and 9, past the 8 shown.
    assert_eq!(g.selection_count(), 2);
    let names: Vec<String> = g.selected_entries().iter().map(|e| e.name.clone()).collect();
    assert!(names.contains(&String::from("f1")));
    assert!(names.contains(&String::from("f2")));
    g.clear_hover();
    assert!(!g.is_dragging());
}

#[test]
fn grid_view_scrolling() {
    let mut g = GridView::new(Rect { x: 0, y: 0, width: 800, height: 300 });
    let mut all = Vec::new();
    for i in 0..40 {
        all.push(plain_file(&format!("/d/f{:02}", i)));
    }
    g.set_entries(all);
    // 40 entries in 7 columns: 6 rows, 2 in view, so at most 4 rows down.
    assert!(g.on_scroll(3));
    assert!(g.on_scroll(30));
    assert!(!g.on_scroll(3));
    assert!(g.on_scroll(-6));
    assert!(g.on_scroll(-100));
    assert!(!g.on_scroll(-1));
    assert!(!g.on_scroll(0));
}
