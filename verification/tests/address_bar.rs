use garfield::address_bar::{
    completion_candidates, display_of, expand_for_completion, expand_target, find_completion_search, AddressBar,
    BarKey,
};
use garfield::geometry::Rect;
use garfield::keys::Key;

fn bar() -> AddressBar {
    AddressBar::new(Rect { x: 0, y: 0, width: 400, height: 30 })
}

fn home() -> Option<String> {
    Some(String::from("/home/u"))
}

#[test]
fn inactive_bar_ignores_keys() {
    let mut b = bar();
    assert!(!b.is_active());
    assert_eq!(b.handle_key(Key::Char('a')), BarKey::Ignored);
    assert_eq!(b.text(), "");
    assert_eq!(b.confirm(), None);
}

#[test]
fn typing_and_moving_the_cursor() {
    let mut b = bar();
    b.activate("/tmp");
    assert!(b.is_active());
    assert_eq!(b.cursor(), 4);
    assert_eq!(b.handle_key(Key::Char('/')), BarKey::Handled);
    assert_eq!(b.handle_key(Key::Char('x')), BarKey::Handled);
    assert_eq!(b.text(), "/tmp/x");
    b.handle_key(Key::Home);
    assert_eq!(b.cursor(), 0);
    b.handle_key(Key::Delete);
    assert_eq!(b.text(), "tmp/x");
    b.handle_key(Key::End);
    b.handle_key(Key::Backspace);
    assert_eq!(b.text(), "tmp/");
    b.handle_key(Key::Left);
    b.handle_key(Key::Left);
    assert_eq!(b.cursor(), 2);
    b.handle_key(Key::Char('e'));
    assert_eq!(b.text(), "tmep/");
    b.handle_key(Key::Right);
    b.handle_key(Key::Right);
    b.handle_key(Key::Right);
    assert_eq!(b.cursor(), 5);
    assert_eq!(b.handle_key(Key::Return), BarKey::Handled);
    assert_eq!(b.handle_key(Key::F5), BarKey::Ignored);
    assert_eq!(b.handle_key(Key::Tab), BarKey::Complete);
    assert_eq!(b.handle_key(Key::Escape), BarKey::Handled);
    assert!(!b.is_active());
    assert_eq!(b.text(), "");
}

#[test]
fn tilde_stands_for_home() {
    assert_eq!(expand_target("~", home()), "/home/u");
    assert_eq!(expand_target("~/docs", home()), "/home/u/docs");
    assert_eq!(expand_target("~x/docs", home()), "~x/docs");
    assert_eq!(expand_target("/tmp", home()), "/tmp");
    assert_eq!(expand_target("~/docs", None), "~/docs");
    assert_eq!(expand_for_completion("~/do", home()), "/home/u/do");
    assert_eq!(expand_for_completion("~x", home()), "/home/ux");
    assert_eq!(expand_for_completion("/a", home()), "/a");
}

#[test]
fn completion_looks_in_the_parent_or_the_directory() {
    assert_eq!(
        find_completion_search("/home/u/do", false),
        Some((String::from("/home/u"), String::from("do")))
    );
    assert_eq!(find_completion_search("/tmp/", true), Some((String::from("/tmp/"), String::new())));
    assert_eq!(find_completion_search("/tmp/", false), Some((String::from("/"), String::from("tmp"))));
    assert_eq!(find_completion_search("/", false), None);
}

#[test]
fn completions_are_displayed_and_sorted() {
    assert_eq!(display_of("/home/u", "docs", true, &home()), "~/docs");
    assert_eq!(display_of("/tmp", "a", false, &home()), "/tmp/a");
    let entries = vec![
        (String::from("docs"), true),
        (String::from("Desktop"), true),
        (String::from("dl"), false),
        (String::from("x"), false),
    ];
    assert_eq!(completion_candidates("/home/u", "d", &entries, &home()), vec!["~/dl", "~/docs"]);
    assert_eq!(
        completion_candidates("/home/u", "", &entries, &None),
        vec!["/home/u/Desktop/", "/home/u/dl", "/home/u/docs/", "/home/u/x"]
    );
}

#[test]
fn tab_again_cycles_through_completions() {
    let mut b = bar();
    b.activate("~/d");
    assert!(!b.cycle_completion());
    b.apply_completions(vec![String::from("~/a"), String::from("~/b")]);
    assert_eq!(b.text(), "~/a");
    assert_eq!(b.cursor(), 3);
    assert!(b.cycle_completion());
    assert_eq!(b.text(), "~/b");
    assert!(b.cycle_completion());
    assert_eq!(b.text(), "~/a");
    b.handle_key(Key::Char('x'));
    assert!(!b.cycle_completion());
    b.apply_completions(Vec::new());
    assert_eq!(b.text(), "~/ax");
}

#[test]
fn confirm_goes_to_a_directory_or_the_parent() {
    let mut b = bar();
    b.activate("/");
    assert_eq!(b.confirm(), Some(String::from("/")));
    assert!(!b.is_active());
    b.activate("/surely-not-a-directory-here");
    assert_eq!(b.confirm(), Some(String::from("/")));
    b.activate("/surely/not/here");
    assert_eq!(b.confirm(), None);
    let mut c = bar();
    c.activate("/x");
    assert_eq!(c.take_text(), Some(String::from("/x")));
    assert_eq!(c.take_text(), None);
}
