use garfield::apps::{AppEntry, AppPickerResult};
use garfield::app_picker::{match_score_of, AppPickerDialog};
use garfield::drag::{DragTarget, FileDragController, FileDragState, FlashState};
use garfield::geometry::{Point, Rect};
use garfield::keys::{dispatch_key, Key, KeyCommand, KeyContext, Modifiers};
use garfield::menu::{menu_size, move_focus, ContextMenuAction, MenuItem};
use garfield::panes::{PaneTree, TabList};
use garfield::pointer::{is_double_click, next_stage, route_press, sidebar_width_for, LabelDrag, MouseButton, PressContext, PressStage};
use garfield::views::{IconSize, RenameState, SplitDirection, ViewMode};

fn idle() -> KeyContext {
    KeyContext {
        progress_visible: false,
        confirm_visible: false,
        conflict_visible: false,
        input_visible: false,
        app_picker_visible: false,
        help_visible: false,
        context_menu_visible: false,
        file_drag_active: false,
        picker: false,
        address_bar_active: false,
        address_bar_passed: false,
        renaming: false,
        grid_view: false,
        drag_label_active: false,
    }
}

const NONE: Modifiers = Modifiers { shift: false, ctrl: false, alt: false };
const CTRL: Modifiers = Modifiers { shift: false, ctrl: true, alt: false };
const CTRL_SHIFT: Modifiers = Modifiers { shift: true, ctrl: true, alt: false };
const ALT: Modifiers = Modifiers { shift: false, ctrl: false, alt: true };
const SHIFT: Modifiers = Modifiers { shift: true, ctrl: false, alt: false };

#[test]
fn documented_shortcuts() {
    let c = idle();
    assert_eq!(dispatch_key(&c, Key::Char('1'), CTRL), KeyCommand::SetViewMode(ViewMode::List));
    assert_eq!(dispatch_key(&c, Key::Char('3'), CTRL), KeyCommand::SetViewMode(ViewMode::Columns));
    assert_eq!(dispatch_key(&c, Key::Char('h'), CTRL), KeyCommand::ToggleHidden);
    assert_eq!(dispatch_key(&c, Key::Char('='), CTRL), KeyCommand::IncreaseIconSize);
    assert_eq!(dispatch_key(&c, Key::Char('t'), CTRL), KeyCommand::NewTab);
    assert_eq!(dispatch_key(&c, Key::Char('w'), CTRL), KeyCommand::CloseTab);
    assert_eq!(dispatch_key(&c, Key::Tab, CTRL), KeyCommand::NextTab);
    assert_eq!(dispatch_key(&c, Key::Tab, CTRL_SHIFT), KeyCommand::PrevTab);
    assert_eq!(dispatch_key(&c, Key::Char('3'), ALT), KeyCommand::SwitchTab(2));
    assert_eq!(dispatch_key(&c, Key::Char('H'), CTRL_SHIFT), KeyCommand::SplitHorizontal);
    assert_eq!(dispatch_key(&c, Key::Char('V'), CTRL_SHIFT), KeyCommand::SplitVertical);
    assert_eq!(dispatch_key(&c, Key::Char('W'), CTRL_SHIFT), KeyCommand::ClosePane);
    assert_eq!(dispatch_key(&c, Key::Left, CTRL_SHIFT), KeyCommand::FocusPaneLeft);
    assert_eq!(dispatch_key(&c, Key::Char('a'), CTRL), KeyCommand::SelectAll);
    assert_eq!(dispatch_key(&c, Key::Char('c'), CTRL), KeyCommand::Copy);
    assert_eq!(dispatch_key(&c, Key::Char('x'), CTRL), KeyCommand::Cut);
    assert_eq!(dispatch_key(&c, Key::Char('v'), CTRL), KeyCommand::Paste);
    assert_eq!(dispatch_key(&c, Key::Char('z'), CTRL), KeyCommand::Undo);
    assert_eq!(dispatch_key(&c, Key::Char('y'), CTRL), KeyCommand::Redo);
    assert_eq!(dispatch_key(&c, Key::Delete, NONE), KeyCommand::Trash);
    assert_eq!(dispatch_key(&c, Key::Delete, SHIFT), KeyCommand::DeletePermanently);
    assert_eq!(dispatch_key(&c, Key::F2, NONE), KeyCommand::StartRename);
    assert_eq!(dispatch_key(&c, Key::Char('N'), CTRL_SHIFT), KeyCommand::NewFolder);
    assert_eq!(dispatch_key(&c, Key::Char('d'), CTRL), KeyCommand::ToggleBookmark);
    assert_eq!(dispatch_key(&c, Key::Char('l'), CTRL), KeyCommand::EditAddress);
    assert_eq!(dispatch_key(&c, Key::F5, NONE), KeyCommand::Refresh);
    assert_eq!(dispatch_key(&c, Key::F1, NONE), KeyCommand::ShowHelp);
    assert_eq!(dispatch_key(&c, Key::Escape, NONE), KeyCommand::Quit);
    assert_eq!(dispatch_key(&c, Key::Char('q'), NONE), KeyCommand::Quit);
    assert_eq!(dispatch_key(&c, Key::Left, ALT), KeyCommand::GoBack);
    assert_eq!(dispatch_key(&c, Key::Right, ALT), KeyCommand::GoForward);
    assert_eq!(dispatch_key(&c, Key::Backspace, NONE), KeyCommand::GoUp);
    assert_eq!(dispatch_key(&c, Key::Home, NONE), KeyCommand::SelectFirst);
    assert_eq!(dispatch_key(&c, Key::PageDown, NONE), KeyCommand::PageDown);
}

#[test]
fn plain_keys_depend_on_view() {
    let mut c = idle();
    assert_eq!(dispatch_key(&c, Key::Right, NONE), KeyCommand::EnterSelected);
    assert_eq!(dispatch_key(&c, Key::Left, NONE), KeyCommand::GoUp);
    c.grid_view = true;
    assert_eq!(dispatch_key(&c, Key::Right, NONE), KeyCommand::SelectRight);
    assert_eq!(dispatch_key(&c, Key::Left, NONE), KeyCommand::SelectLeft);
    assert_eq!(dispatch_key(&c, Key::Char('h'), NONE), KeyCommand::GoUp);
    assert_eq!(dispatch_key(&c, Key::Char('~'), NONE), KeyCommand::GoHome);
    assert_eq!(dispatch_key(&c, Key::Char('/'), NONE), KeyCommand::GoRoot);
    assert_eq!(dispatch_key(&c, Key::Other, NONE), KeyCommand::Nothing);
}

#[test]
fn overlays_and_modes_take_keys_first() {
    let mut c = idle();
    c.progress_visible = true;
    c.confirm_visible = true;
    assert_eq!(dispatch_key(&c, Key::Escape, NONE), KeyCommand::ProgressDialogKey);
    let mut c = idle();
    c.help_visible = true;
    assert_eq!(dispatch_key(&c, Key::Char('j'), NONE), KeyCommand::HelpScrollDown);
    assert_eq!(dispatch_key(&c, Key::F1, NONE), KeyCommand::HideHelp);
    assert_eq!(dispatch_key(&c, Key::Char('q'), NONE), KeyCommand::Nothing);
    let mut c = idle();
    c.file_drag_active = true;
    assert_eq!(dispatch_key(&c, Key::Escape, NONE), KeyCommand::CancelFileDrag);
    let mut c = idle();
    c.picker = true;
    assert_eq!(dispatch_key(&c, Key::Escape, NONE), KeyCommand::CancelPicker);
    let mut c = idle();
    c.address_bar_active = true;
    assert_eq!(dispatch_key(&c, Key::Return, NONE), KeyCommand::ConfirmAddress);
    assert_eq!(dispatch_key(&c, Key::Char('x'), NONE), KeyCommand::AddressBarKey);
    c.address_bar_passed = true;
    assert_eq!(dispatch_key(&c, Key::Escape, NONE), KeyCommand::CancelAddress);
    let mut c = idle();
    c.renaming = true;
    assert_eq!(dispatch_key(&c, Key::Escape, NONE), KeyCommand::CancelRename);
    assert_eq!(dispatch_key(&c, Key::Return, NONE), KeyCommand::ConfirmRename);
    assert_eq!(dispatch_key(&c, Key::Char('q'), CTRL), KeyCommand::RenameKey);
    let mut c = idle();
    c.drag_label_active = true;
    assert_eq!(dispatch_key(&c, Key::Escape, NONE), KeyCommand::CancelDragLabel);
}

#[test]
fn icon_sizes() {
    assert_eq!(IconSize::Small.cell_size(), 70);
    assert_eq!(IconSize::Large.icon_size(), 64);
    assert_eq!(IconSize::Large.next(), IconSize::Large);
    assert_eq!(IconSize::Small.prev(), IconSize::Small);
    assert_eq!(IconSize::Medium.next().prev(), IconSize::Medium);
    assert_eq!(IconSize::Medium.name(), "Medium");
    assert_eq!(ViewMode::Columns.name(), "Columns");
}

#[test]
fn rename_editing() {
    let mut r = RenameState::start(3, "old.txt".to_string());
    assert_eq!(r.cursor, 7);
    assert!(r.handle_key(Key::Char('n')));
    assert_eq!(r.text, "n");
    assert_eq!(r.cursor, 1);
    r.handle_key(Key::Char('e'));
    r.handle_key(Key::Char('w'));
    r.handle_key(Key::Home);
    r.handle_key(Key::Delete);
    assert_eq!(r.text, "ew");
    r.handle_key(Key::End);
    r.handle_key(Key::Backspace);
    assert_eq!(r.text, "e");
    assert!(!r.handle_key(Key::F1));
    assert_eq!(r.original, "old.txt");
}

#[test]
fn menu_focus_skips_separators() {
    let items = vec![
        MenuItem::action("Open", ContextMenuAction::Open),
        MenuItem::separator(),
        MenuItem::action("Copy", ContextMenuAction::Copy).with_shortcut("Ctrl+C"),
        MenuItem::action("Paste", ContextMenuAction::Paste).with_enabled(false),
    ];
    assert_eq!(move_focus(&items, None, true), Some(2));
    assert_eq!(move_focus(&items, Some(0), true), Some(2));
    assert_eq!(move_focus(&items, Some(0), false), Some(3));
    assert!(items[1].is_separator());
    let (_, h) = menu_size(&items);
    assert_eq!(h, 28 * 3 + 9 + 4 * 2);
}

#[test]
fn flash_completes_after_six_toggles() {
    let mut f = FlashState::new();
    assert!(f.is_highlighted());
    let mut done = false;
    for i in 0..6 {
        assert!(!done, "done too early at {}", i);
        done = f.advance(150);
    }
    assert!(done);
    assert_eq!(f.count(), 3);
    assert!(f.is_highlighted());
    assert!(f.advance(1000));
    assert_eq!(f.count(), 3);
    let mut g = FlashState::new();
    assert!(!g.advance(149));
    assert!(g.is_highlighted());
    assert!(!g.advance(150));
    assert!(!g.is_highlighted());
}

#[test]
fn drag_state_machine() {
    let mut d = FileDragController::new();
    assert!(!d.is_active());
    d.start_pending(Point { x: 10, y: 10 }, vec![]);
    assert!(!d.is_active());
    d.start_pending(Point { x: 10, y: 10 }, vec!["/a/x".to_string()]);
    assert!(d.is_active() && !d.is_dragging());
    assert!(!d.update_position(Point { x: 15, y: 5 }));
    assert!(d.update_position(Point { x: 16, y: 10 }));
    assert!(d.is_dragging());
    assert_eq!(d.current_pos(), Some(Point { x: 16, y: 10 }));
    d.set_hover_target(Some(DragTarget::Tab { index: 2, target_path: "/b".to_string() }));
    assert!(d.is_hovering());
    assert_eq!(d.target_tab_index(), Some(2));
    assert!(d.is_target_path("/b/"));
    assert!(d.should_show_highlight());
    d.set_hover_target(None);
    assert!(!d.is_hovering() && d.is_dragging());
    d.set_hover_target(Some(DragTarget::Directory { path: "/c".to_string(), bounds: Rect { x: 0, y: 0, width: 1, height: 1 } }));
    let (paths, target) = d.complete().unwrap();
    assert_eq!(paths, vec!["/a/x".to_string()]);
    assert_eq!(target.path(), "/c");
    assert!(matches!(d.state(), FileDragState::Idle));
    assert!(d.complete().is_none());
}

#[test]
fn drag_continue_after_enter() {
    let mut d = FileDragController::new();
    d.start_pending(Point { x: 0, y: 0 }, vec!["/a/x".to_string()]);
    d.update_position(Point { x: 0, y: 20 });
    d.set_hover_target(Some(DragTarget::Breadcrumb { path: "/c".to_string(), bounds: Rect { x: 0, y: 0, width: 1, height: 1 } }));
    assert!(d.get_auto_enter_target().is_some());
    d.continue_after_enter();
    assert!(d.is_dragging() && !d.is_hovering());
    assert_eq!(d.dragged_paths().map(|v| v.len()), Some(1));
    d.cancel();
    assert!(!d.is_active());
}

#[test]
fn double_clicks_and_label_drag() {
    let a = Point { x: 100, y: 100 };
    assert!(is_double_click(100, a, Point { x: 103, y: 103 }, 5));
    assert!(!is_double_click(100, a, Point { x: 104, y: 103 }, 5));
    assert!(!is_double_click(400, a, a, 5));
    assert!(is_double_click(399, a, Point { x: 109, y: 100 }, 10));
    let mut l = LabelDrag::start("/a/docs".to_string(), "docs".to_string(), a);
    l.move_to(Point { x: 103, y: 104 });
    assert!(!l.active);
    l.move_to(Point { x: 104, y: 104 });
    assert!(l.active);
    l.move_to(a);
    assert!(l.active);
    assert_eq!(sidebar_width_for(250, 10), 240);
    assert_eq!(sidebar_width_for(5, 10), 0);
}

#[test]
fn press_routing() {
    let mut c = PressContext {
        progress_visible: false,
        confirm_visible: false,
        conflict_visible: false,
        input_visible: false,
        app_picker_visible: false,
        help_visible: false,
        context_menu_visible: false,
        picker: false,
    };
    assert_eq!(route_press(&c, Some(MouseButton::Right), PressStage::ProgressDialog), PressStage::OpenContextMenu);
    assert_eq!(route_press(&c, Some(MouseButton::Left), PressStage::ProgressDialog), PressStage::TabBar);
    assert_eq!(route_press(&c, Some(MouseButton::Left), next_stage(PressStage::TabBar)), PressStage::Toolbar);
    assert_eq!(route_press(&c, Some(MouseButton::Middle), PressStage::ProgressDialog), PressStage::CloseTabUnderPointer);
    assert_eq!(route_press(&c, Some(MouseButton::Middle), next_stage(PressStage::CloseTabUnderPointer)), PressStage::Toolbar);
    c.picker = true;
    assert_eq!(route_press(&c, None, next_stage(PressStage::TabBar)), PressStage::PickerToolbar);
    assert_eq!(route_press(&c, None, next_stage(PressStage::PickerToolbar)), PressStage::PaneToolbar);
    c.help_visible = true;
    assert_eq!(route_press(&c, Some(MouseButton::Right), PressStage::ProgressDialog), PressStage::HelpModal);
    c.conflict_visible = true;
    assert_eq!(route_press(&c, None, PressStage::ProgressDialog), PressStage::ConflictDialog);
    assert_eq!(next_stage(PressStage::Content), PressStage::Content);
}

fn app(name: &str, desc: Option<&str>, command: &str) -> AppEntry {
    AppEntry {
        name: name.to_string(),
        description: desc.map(|d| d.to_string()),
        command: command.to_string(),
        icon: None,
        desktop_path: format!("/usr/share/applications/{}.desktop", command),
    }
}

fn bounds() -> Rect {
    Rect { x: 0, y: 0, width: 1000, height: 800 }
}

#[test]
fn app_picker_keys_and_search() {
    let mut p = AppPickerDialog::new(bounds());
    assert!(!p.has_apps());
    p.reload(vec![app("Firefox", Some("Web Browser"), "firefox"), app("Files", None, "nautilus"), app("Gimp", Some("Image editor"), "gimp")]);
    assert!(p.has_apps());
    assert_eq!(p.handle_key(Key::Down), None);
    p.show();
    assert!(p.is_visible());
    p.handle_key(Key::Down);
    p.handle_key(Key::Down);
    p.handle_key(Key::Down);
    assert_eq!(p.handle_key(Key::Return), Some(AppPickerResult::Selected("gimp".to_string())));
    assert!(!p.is_visible());
    p.show();
    for c in "gimp".chars() {
        p.handle_key(Key::Char(c));
    }
    assert_eq!(p.handle_key(Key::Return), Some(AppPickerResult::Selected("gimp".to_string())));
    p.show();
    for c in "zzzzqqq".chars() {
        p.handle_key(Key::Char(c));
    }
    assert_eq!(p.handle_key(Key::Return), None);
    assert!(p.is_visible());
    assert_eq!(p.handle_key(Key::Escape), Some(AppPickerResult::Cancelled));
}

#[test]
fn app_picker_clicks() {
    let mut p = AppPickerDialog::new(bounds());
    p.reload(vec![app("Alpha", None, "alpha"), app("Beta", None, "beta")]);
    p.show();
    let d = p.dialog_rect();
    assert_eq!(d.width, 500);
    assert_eq!(d.height, 464);
    assert_eq!(d.x, 250);
    assert_eq!(d.y, 112);
    let second_row = Point { x: d.x + 50, y: d.y + 16 + 40 + 8 + 36 + 5 };
    p.on_mouse_move(second_row);
    assert_eq!(p.on_click(second_row), Some(AppPickerResult::Selected("beta".to_string())));
    p.show();
    assert_eq!(p.on_click(Point { x: 1, y: 1 }), Some(AppPickerResult::Cancelled));
    p.show();
    assert_eq!(p.on_click(Point { x: d.x + 50, y: d.y + 20 }), None);
    assert!(p.is_visible());
    p.close();
    assert!(!p.is_visible());
}

#[test]
fn tabs_of_a_pane() {
    let mut t = TabList::new("a");
    t.add_tab("b");
    t.add_tab("c");
    assert_eq!(t.active_tab_index(), 2);
    t.next_tab();
    assert_eq!(*t.active_tab(), "a");
    t.prev_tab();
    assert_eq!(*t.active_tab(), "c");
    t.set_active_tab(1);
    assert!(!t.close_tab(0));
    assert_eq!(*t.active_tab(), "b");
    assert_eq!(t.tabs(), &["b", "c"]);
    assert!(!t.close_active_tab());
    assert_eq!(*t.active_tab(), "c");
    assert!(t.close_active_tab());
    assert_eq!(t.tab_count(), 1);
    assert!(!t.close_tab(5));
}

#[test]
fn pane_tree_split_and_remove() {
    let mut t = PaneTree::Leaf(1);
    assert!(t.split_leaf(1, SplitDirection::Horizontal, 2));
    assert!(t.split_leaf(1, SplitDirection::Vertical, 3));
    assert!(!t.split_leaf(9, SplitDirection::Vertical, 4));
    assert_eq!(t.leaf_ids(), vec![1, 3, 2]);
    assert_eq!(t.first_leaf_id(), 1);
    assert!(t.contains(3));
    assert_eq!(t.remove_pane(1), Some(3));
    assert_eq!(t.leaf_ids(), vec![3, 2]);
    assert_eq!(t.remove_pane(2), Some(3));
    assert_eq!(t.leaf_ids(), vec![3]);
    assert_eq!(t.remove_pane(3), None);
    assert_eq!(t.id(), Some(3));
}

#[test]
fn fuzzy_match_scores() {
    assert!(match_score_of("fox", "Firefox").is_some());
    assert!(match_score_of("zzq", "Firefox").is_none());
    assert!(match_score_of("fire", "Firefox").unwrap() > match_score_of("fx", "Firefox").unwrap());
}
