use garfield::column_view::ColumnView;
use garfield::entry::{FileEntry, MetaInfo, SortDirection, SortOrder};
use garfield::geometry::{Point, Rect};
use garfield::keys::{Key, Modifiers};
use garfield::operations::rename_target;
use garfield::tab::{RenameRequest, Tab, TabClick};
use garfield::views::{ColumnClickResult, ViewMode};

fn meta(is_dir: bool, len: u64) -> MetaInfo {
    MetaInfo { is_dir, is_file: !is_dir, is_symlink: false, len, modified: None }
}

fn file(path: &str, len: u64) -> FileEntry {
    FileEntry::from_parts(path.to_string(), meta(false, len), None, None)
}

fn dir(path: &str) -> FileEntry {
    FileEntry::from_parts(path.to_string(), meta(true, 0), None, None)
}

fn home_entries() -> Vec<FileEntry> {
    vec![
        file("/home/u/notes.txt", 100),
        dir("/home/u/docs"),
        file("/home/u/.profile", 10),
        file("/home/u/Alpha.md", 50),
        dir("/home/u/music"),
    ]
}

fn bounds() -> Rect {
    Rect { x: 0, y: 0, width: 900, height: 480 }
}

fn no_mods() -> Modifiers {
    Modifiers { shift: false, ctrl: false, alt: false }
}

fn names(es: &[FileEntry]) -> Vec<String> {
    es.iter().map(|e| e.name.clone()).collect()
}

#[test]
fn tab_lists_directories_first_by_name() {
    let t = Tab::new(String::from("/home/u"), bounds(), home_entries());
    assert_eq!(t.title(), "u");
    assert_eq!(t.current_path(), "/home/u");
    assert_eq!(t.view_mode(), ViewMode::List);
    assert_eq!(names(t.entries()), vec!["docs", "music", ".profile", "Alpha.md", "notes.txt"]);
    assert_eq!(t.visible_count(), 4);
    assert_eq!(t.selected_entry().unwrap().name, "docs");
    assert_eq!(t.sort_order(), SortOrder::Name);
    assert_eq!(t.sort_direction(), SortDirection::Ascending);
}

#[test]
fn tab_history_navigation() {
    let mut t = Tab::new(String::from("/home/u"), bounds(), home_entries());
    assert!(!t.can_go_back());
    assert!(!t.navigate_to(String::from("/home/u"), true));
    assert!(!t.navigate_to(String::from("/home/u/notes.txt"), false));
    assert!(t.navigate_to(String::from("/home/u/docs"), true));
    t.refresh(vec![file("/home/u/docs/a.pdf", 5)]);
    assert_eq!(t.current_path(), "/home/u/docs");
    assert_eq!(t.title(), "docs");
    assert!(t.can_go_back());
    assert!(t.go_back());
    assert_eq!(t.current_path(), "/home/u");
    assert!(t.can_go_forward());
    assert!(t.go_forward());
    assert_eq!(t.current_path(), "/home/u/docs");
    assert!(!t.go_forward());
    assert!(t.go_up(true));
    assert_eq!(t.current_path(), "/home/u");
    assert!(t.go_up(true));
    assert!(t.go_up(true));
    assert_eq!(t.current_path(), "/");
    assert_eq!(t.title(), "/");
    assert!(!t.go_up(true));
    assert_eq!(t.history().current(), "/");
}

#[test]
fn tab_enter_selected_gives_directory() {
    let mut t = Tab::new(String::from("/home/u"), bounds(), home_entries());
    assert_eq!(t.enter_selected(), Some(String::from("/home/u/docs")));
    t.select_last();
    assert_eq!(t.selected_entry().unwrap().name, "notes.txt");
    assert_eq!(t.enter_selected(), None);
}

#[test]
fn tab_selection_sizes_and_paths() {
    let mut t = Tab::new(String::from("/home/u"), bounds(), home_entries());
    t.select_all();
    assert_eq!(t.selection_count(), 4);
    assert_eq!(t.selected_size(), 150);
    let mut paths = t.selected_paths();
    paths.sort();
    assert_eq!(paths, vec!["/home/u/Alpha.md", "/home/u/docs", "/home/u/music", "/home/u/notes.txt"]);
    t.clear_selection();
    assert_eq!(t.selection_count(), 0);
    t.toggle_hidden();
    assert_eq!(t.visible_count(), 5);
}

#[test]
fn tab_select_by_name() {
    let mut t = Tab::new(String::from("/home/u"), bounds(), home_entries());
    assert!(t.select_by_name("music"));
    assert_eq!(t.focused_index(), 1);
    assert!(t.select_by_name("alpha.MD"));
    assert_eq!(t.selected_entry().unwrap().name, "Alpha.md");
    assert!(t.select_by_name("u/notes.txt"));
    assert_eq!(t.selected_entry().unwrap().name, "notes.txt");
    assert!(!t.select_by_name("missing"));
    t.select_by_path("/home/u/docs");
    assert_eq!(t.focused_index(), 0);
}

#[test]
fn tab_rename_flow() {
    let mut t = Tab::new(String::from("/home/u"), bounds(), home_entries());
    t.select_last();
    t.start_rename();
    assert!(t.is_renaming());
    assert_eq!(t.rename_state().unwrap().text, "notes.txt");
    // The whole name is selected: typing replaces it.
    assert!(t.handle_rename_key(Key::Char('a')));
    assert!(t.handle_rename_key(Key::Char('b')));
    assert_eq!(t.rename_state().unwrap().text, "ab");
    assert!(t.handle_rename_key(Key::Backspace));
    assert!(t.handle_rename_key(Key::Char('/')));
    assert_eq!(t.confirm_rename(), Err(String::from("Name cannot contain path separators")));
    assert!(!t.is_renaming());
    assert_eq!(t.confirm_rename(), Err(String::from("No rename in progress")));

    t.start_rename();
    assert!(t.handle_rename_key(Key::End));
    assert!(t.handle_rename_key(Key::Char('2')));
    assert_eq!(
        t.confirm_rename(),
        Ok(RenameRequest::Rename { from: String::from("/home/u/notes.txt"), new_name: String::from("notes.txt2") })
    );
    assert_eq!(rename_target("/home/u/notes.txt", "notes.txt2"), Some(String::from("/home/u/notes.txt2")));

    t.start_rename();
    assert_eq!(
        t.confirm_rename(),
        Ok(RenameRequest::Unchanged { path: String::from("/home/u/notes.txt"), name: String::from("notes.txt") })
    );

    t.start_rename_with_text("  ");
    assert_eq!(t.rename_state().unwrap().original, "notes.txt");
    assert_eq!(t.confirm_rename(), Err(String::from("Name cannot be empty")));

    t.start_rename();
    assert!(t.handle_rename_key(Key::Escape));
    assert!(!t.is_renaming());
    assert!(!t.handle_rename_key(Key::Char('x')));
}

#[test]
fn tab_header_click_sorts() {
    let mut t = Tab::new(String::from("/home/u"), bounds(), home_entries());
    // The name header covers x 0..458 of the 28 px high header.
    assert_eq!(t.on_click(Point { x: 100, y: 10 }, &no_mods()), TabClick::Sorted);
    assert_eq!(t.sort_direction(), SortDirection::Descending);
    t.refresh(home_entries());
    assert_eq!(t.entries()[0].name, "music");
    // Row 1 (y 56..84).
    assert_eq!(t.on_click(Point { x: 100, y: 60 }, &no_mods()), TabClick::Handled);
    assert_eq!(t.focused_index(), 1);
    assert_eq!(t.on_click(Point { x: 100, y: 400 }, &no_mods()), TabClick::Ignored);
    t.set_sort(SortOrder::Size, SortDirection::Ascending);
    assert_eq!(t.sort_order(), SortOrder::Size);
}

#[test]
fn tab_column_view_loading() {
    let mut t = Tab::new(String::from("/home/u"), bounds(), home_entries());
    assert_eq!(t.take_pending_parent(), Some(String::from("/home")));
    assert_eq!(t.take_pending_parent(), None);
    t.set_parent_entries(vec![dir("/home/u"), dir("/home/a")]);
    t.set_view_mode(ViewMode::Columns);
    assert!(t.is_preview_loading());
    let (p, o, d) = t.take_pending_preview().unwrap();
    assert_eq!(p, "/home/u/docs");
    assert_eq!(o, SortOrder::Name);
    assert_eq!(d, SortDirection::Ascending);
    assert!(t.take_pending_preview().is_none());
    t.set_preview_entries("/home/u/docs", vec![file("/home/u/docs/a.pdf", 5)]);
    assert!(!t.is_preview_loading());
    // The preview column spans x 600..900.
    assert_eq!(t.entry_at_point(Point { x: 650, y: 5 }).unwrap().name, "a.pdf");
    // A click on a directory in the parent column asks to go there.
    assert_eq!(t.on_click(Point { x: 50, y: 5 }, &no_mods()), TabClick::Navigate(String::from("/home/a")));
    // In the current column, row 1.
    assert_eq!(t.on_click(Point { x: 350, y: 30 }, &no_mods()), TabClick::Handled);
    assert_eq!(t.selected_entry().unwrap().name, "music");
    assert!(t.is_preview_loading());
}

#[test]
fn column_view_parent_selection() {
    let mut c = ColumnView::new(bounds());
    c.set_entries(home_entries());
    let parent = c.set_path(String::from("/home/u"), SortOrder::Name, SortDirection::Ascending);
    assert_eq!(parent, Some(String::from("/home")));
    c.set_parent_entries(vec![dir("/home/z"), dir("/home/u"), dir("/home/a")]);
    // The parent column lists a, u, z: "u" is selected; a click on "z" asks
    // to go there.
    assert_eq!(c.on_click(Point { x: 50, y: 50 }, &no_mods()), ColumnClickResult::Navigate(String::from("/home/z")));
    assert_eq!(c.current_path(), "/home/u");
    assert_eq!(c.set_path(String::from("/"), SortOrder::Name, SortDirection::Ascending), None);
    // Without a parent, the current column takes the left two thirds.
    assert_eq!(c.on_click(Point { x: 50, y: 30 }, &no_mods()), ColumnClickResult::Selected(1));
    assert_eq!(c.selection_count(), 1);
    c.select_next();
    assert_eq!(c.focused_index(), 2);
    c.select_first();
    assert_eq!(c.focused_index(), 0);
    c.page_down();
    assert_eq!(c.focused_index(), 3);
    c.page_up();
    assert_eq!(c.focused_index(), 0);
    c.select_all();
    assert_eq!(c.selected_entries().len(), 4);
    c.toggle_hidden();
    assert_eq!(c.visible_entries().len(), 5);
    assert_eq!(c.sort_settings(), (SortOrder::Name, SortDirection::Ascending));
}
