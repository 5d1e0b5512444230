use garfield::breadcrumb::{plan_truncation, Breadcrumb};
use garfield::geometry::{Point, Rect};

fn area() -> Rect {
    Rect { x: 0, y: 0, width: 600, height: 30 }
}

fn texts(b: &Breadcrumb) -> Vec<String> {
    (0..b.segment_count()).map(|i| b.segment_text(i).to_string()).collect()
}

#[test]
fn absolute_path_starts_at_the_root() {
    let mut b = Breadcrumb::new(area());
    b.set_path("/home/u/docs");
    assert_eq!(texts(&b), vec!["/", "home", "u", "docs"]);
    for i in 0..4 {
        b.set_segment_bounds(i, Rect { x: 100 * i as i32, y: 0, width: 90, height: 30 });
    }
    assert_eq!(b.on_click(Point { x: 5, y: 5 }), Some(String::from("/")));
    assert_eq!(b.on_click(Point { x: 150, y: 5 }), Some(String::from("/home")));
    assert_eq!(b.on_click(Point { x: 250, y: 5 }), Some(String::from("/home/u")));
    assert_eq!(b.on_click(Point { x: 350, y: 5 }), Some(String::from("/home/u/docs")));
    assert_eq!(b.on_click(Point { x: 395, y: 5 }), None);
    assert_eq!(b.on_click(Point { x: 350, y: 40 }), None);
    let (p, r) = b.segment_at_point(Point { x: 210, y: 1 }).unwrap();
    assert_eq!(p, "/home/u");
    assert_eq!(r, Rect { x: 200, y: 0, width: 90, height: 30 });
}

#[test]
fn relative_and_odd_paths() {
    let mut b = Breadcrumb::new(area());
    b.set_path("a/../b");
    assert_eq!(texts(&b), vec!["a", "..", "b"]);
    b.set_segment_bounds(1, Rect { x: 0, y: 0, width: 10, height: 10 });
    assert_eq!(b.on_click(Point { x: 1, y: 1 }), Some(String::from("a/..")));
    b.set_path("./x//y/");
    assert_eq!(texts(&b), vec!["x", "y"]);
    b.set_path("/");
    assert_eq!(texts(&b), vec!["/"]);
    assert_eq!(b.on_click(Point { x: 1, y: 1 }), None);
}

#[test]
fn hover_follows_the_pointer() {
    let mut b = Breadcrumb::new(area());
    b.set_path("/tmp");
    b.set_segment_bounds(0, Rect { x: 60, y: 0, width: 20, height: 30 });
    b.set_segment_bounds(1, Rect { x: 88, y: 0, width: 40, height: 30 });
    assert!(b.on_mouse_move(Point { x: 90, y: 10 }));
    assert_eq!(b.hovered(), Some(1));
    assert!(!b.on_mouse_move(Point { x: 91, y: 10 }));
    assert!(b.on_mouse_move(Point { x: 700, y: 10 }));
    assert_eq!(b.hovered(), None);
    b.on_mouse_move(Point { x: 61, y: 1 });
    b.clear_hover();
    assert_eq!(b.hovered(), None);
    assert_eq!(b.separator(), " / ");
}

#[test]
fn buttons_sit_at_the_left() {
    let b = Breadcrumb::new(Rect { x: 10, y: 20, width: 600, height: 30 });
    assert_eq!(b.back_button_bounds(), Rect { x: 10, y: 20, width: 24, height: 30 });
    assert_eq!(b.forward_button_bounds(), Rect { x: 34, y: 20, width: 24, height: 30 });
}

#[test]
fn long_paths_are_shortened_from_the_left() {
    let widths = vec![10, 50, 50, 50];
    assert_eq!(plan_truncation(&widths, 20, 15, 150, true), (2, true));
    assert_eq!(plan_truncation(&widths, 20, 15, 300, true), (0, false));
    assert_eq!(plan_truncation(&widths, 20, 15, 50, true), (3, true));
    assert_eq!(plan_truncation(&widths, 20, 15, 205, true), (1, true));
    assert_eq!(plan_truncation(&vec![500, 500], 20, 15, 100, true), (0, false));
}
