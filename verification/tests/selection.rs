use garfield::selection::{grid_columns, grid_rows, list_row_at, list_rows, Selection};
use garfield::views::IconSize;

fn sorted(s: &Selection) -> Vec<usize> {
    let mut v = s.selected_indices().clone();
    v.sort();
    v
}

#[test]
fn rows_and_columns_fit_the_view() {
    assert_eq!(list_rows(28 + 28 * 10), 10);
    assert_eq!(list_rows(30), 1);
    assert_eq!(list_rows(0), 1);
    assert_eq!(grid_columns(8 + 108 * 3, IconSize::Medium), 3);
    assert_eq!(grid_columns(20, IconSize::Large), 1);
    assert_eq!(grid_rows(216, IconSize::Medium), 2);
    assert_eq!(grid_rows(10, IconSize::Small), 1);
}

#[test]
fn row_under_the_pointer() {
    assert_eq!(list_row_at(0, 0, 5), Some(0));
    assert_eq!(list_row_at(57, 2, 5), Some(4));
    assert_eq!(list_row_at(84, 2, 5), None);
    assert_eq!(list_row_at(0, 7, 5), None);
}

#[test]
fn new_selection_starts_on_first_entry() {
    let s = Selection::new();
    assert_eq!(s.focused_index(), 0);
    assert_eq!(sorted(&s), vec![0]);
    assert_eq!(s.selection_count(), 1);
    assert!(s.is_selected(0));
    assert!(!s.is_selected(1));
    assert_eq!(s.scroll_offset(), 0);
}

#[test]
fn list_moves_keep_focus_in_view() {
    let mut s = Selection::new();
    for _ in 0..5 {
        s.list_next(10, 3);
    }
    assert_eq!(s.focused_index(), 5);
    assert_eq!(s.scroll_offset(), 3);
    assert_eq!(sorted(&s), vec![5]);
    s.list_last(10, 3);
    assert_eq!(s.focused_index(), 9);
    assert_eq!(s.scroll_offset(), 7);
    s.list_next(10, 3);
    assert_eq!(s.focused_index(), 9);
    s.list_page_up(3);
    assert_eq!(s.focused_index(), 6);
    assert_eq!(s.scroll_offset(), 6);
    s.list_first();
    assert_eq!(s.focused_index(), 0);
    assert_eq!(s.scroll_offset(), 0);
    s.list_prev();
    assert_eq!(s.focused_index(), 0);
    s.list_page_down(10, 4);
    assert_eq!(s.focused_index(), 4);
    assert_eq!(s.scroll_offset(), 1);
}

#[test]
fn grid_moves_by_rows_and_columns() {
    let mut s = Selection::new();
    s.grid_right(10, 4, 2);
    assert_eq!(s.focused_index(), 1);
    s.grid_down(10, 4, 2);
    assert_eq!(s.focused_index(), 5);
    s.grid_down(10, 4, 2);
    assert_eq!(s.focused_index(), 9);
    assert_eq!(s.scroll_offset(), 1);
    s.grid_down(10, 4, 2);
    assert_eq!(s.focused_index(), 9);
    s.grid_up(4, 2);
    assert_eq!(s.focused_index(), 5);
    s.grid_left(4, 2);
    assert_eq!(s.focused_index(), 4);
    s.grid_first(4, 2);
    assert_eq!(s.focused_index(), 0);
    assert_eq!(s.scroll_offset(), 0);
    s.grid_last(10, 4, 2);
    assert_eq!(s.focused_index(), 9);
    s.grid_page_up(4, 2);
    assert_eq!(s.focused_index(), 1);
    s.grid_page_down(10, 4, 2);
    assert_eq!(s.focused_index(), 9);
    assert_eq!(sorted(&s), vec![9]);
}

#[test]
fn ctrl_click_toggles_and_twice_restores() {
    let mut s = Selection::new();
    s.click(3, true, false);
    assert_eq!(sorted(&s), vec![0, 3]);
    assert_eq!(s.focused_index(), 3);
    s.click(3, true, false);
    assert_eq!(sorted(&s), vec![0]);
    s.click(0, true, false);
    assert_eq!(s.selection_count(), 0);
}

#[test]
fn shift_click_selects_a_range_from_the_anchor() {
    let mut s = Selection::new();
    s.click(2, false, false);
    s.click(5, false, true);
    assert_eq!(sorted(&s), vec![2, 3, 4, 5]);
    assert_eq!(s.focused_index(), 5);
    s.click(0, false, true);
    assert_eq!(sorted(&s), vec![0, 1, 2]);
}

#[test]
fn plain_click_selects_one() {
    let mut s = Selection::new();
    s.select_all(4);
    assert_eq!(sorted(&s), vec![0, 1, 2, 3]);
    s.click(2, false, false);
    assert_eq!(sorted(&s), vec![2]);
    s.clear_selection();
    assert_eq!(s.selection_count(), 0);
    s.select_all(0);
    assert_eq!(s.selection_count(), 0);
}

#[test]
fn revalidate_drops_entries_past_the_end() {
    let mut s = Selection::new();
    s.select_all(6);
    s.click(5, true, false);
    s.click(5, true, false);
    assert_eq!(s.focused_index(), 5);
    s.revalidate(3);
    assert_eq!(s.focused_index(), 2);
    assert_eq!(sorted(&s), vec![0, 1, 2]);
    s.click(2, false, false);
    s.revalidate(2);
    assert_eq!(s.focused_index(), 1);
    assert_eq!(sorted(&s), vec![1]);
}
