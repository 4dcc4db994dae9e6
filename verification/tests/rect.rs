use geometry::{Align, Point, Rect};

#[test]
fn rect_new_keeps_corners() {
    let a = Point::new(2, 3);
    let b = Point::new(40, 50);
    let r = Rect::new(a, b);
    assert_eq!(r, Rect { x0: 2, y0: 3, x1: 40, y1: 50 });
    assert_eq!(r.top_left(), a);
    assert_eq!(r.bottom_right(), b);
}

#[test]
fn rect_new_keeps_corners_of_inverted_pair() {
    let a = Point::new(40, 50);
    let b = Point::new(2, 3);
    let r = Rect::new(a, b);
    assert_eq!(r.top_left(), a);
    assert_eq!(r.bottom_right(), b);
    assert_eq!(r.width(), -38);
    assert_eq!(r.height(), -47);
}

#[test]
fn rect_screen_starts_at_origin() {
    let r = Rect::screen(240, 320);
    assert_eq!(r, Rect { x0: 0, y0: 0, x1: 240, y1: 320 });
    assert_eq!(r.width(), 240);
    assert_eq!(r.height(), 320);
}

#[test]
fn rect_width_and_height() {
    let r = Rect::new(Point::new(-10, 5), Point::new(30, 25));
    assert_eq!(r.width(), 40);
    assert_eq!(r.height(), 20);
    let empty = Rect::new(Point::new(7, 7), Point::new(7, 7));
    assert_eq!(empty.width(), 0);
    assert_eq!(empty.height(), 0);
}

#[test]
fn rect_corners() {
    let r = Rect::new(Point::new(1, 2), Point::new(30, 40));
    assert_eq!(r.top_left(), Point::new(1, 2));
    assert_eq!(r.top_right(), Point::new(30, 2));
    assert_eq!(r.bottom_left(), Point::new(1, 40));
    assert_eq!(r.bottom_right(), Point::new(30, 40));
}

#[test]
fn rect_midpoint_rounds_toward_zero() {
    assert_eq!(Rect::new(Point::new(0, 0), Point::new(10, 10)).midpoint(), Point::new(5, 5));
    assert_eq!(Rect::new(Point::new(0, 0), Point::new(3, 3)).midpoint(), Point::new(1, 1));
    assert_eq!(Rect::new(Point::new(-3, -7), Point::new(0, 0)).midpoint(), Point::new(-1, -3));
    let r = Rect::new(Point::new(4, -9), Point::new(9, 2));
    assert_eq!(r.midpoint(), r.top_left().midpoint(r.bottom_right()));
}

#[test]
fn rect_contains_is_half_open() {
    let r = Rect::new(Point::new(0, 0), Point::new(10, 10));
    assert!(r.contains(Point::new(0, 0)));
    assert!(r.contains(Point::new(9, 9)));
    assert!(!r.contains(Point::new(10, 10)));
    assert!(!r.contains(Point::new(10, 0)));
    assert!(!r.contains(Point::new(0, 10)));
    assert!(r.contains(Point::new(9, 0)));
    assert!(r.contains(Point::new(0, 9)));
    assert!(!r.contains(Point::new(-1, 5)));
    assert!(!r.contains(Point::new(5, -1)));
}

#[test]
fn rect_contains_nothing_when_empty_or_inverted() {
    let empty = Rect::new(Point::new(5, 5), Point::new(5, 5));
    assert!(!empty.contains(Point::new(5, 5)));
    let inverted = Rect::new(Point::new(10, 10), Point::new(0, 0));
    assert!(!inverted.contains(Point::new(5, 5)));
    assert!(!inverted.contains(Point::new(0, 0)));
    assert!(!inverted.contains(Point::new(10, 10)));
}

#[test]
fn rect_inset_shrinks_and_grows() {
    let r = Rect::new(Point::new(10, 20), Point::new(110, 220));
    assert_eq!(r.inset(5), Rect { x0: 15, y0: 25, x1: 105, y1: 215 });
    assert_eq!(r.inset(-5), Rect { x0: 5, y0: 15, x1: 115, y1: 225 });
}

#[test]
fn rect_inset_by_zero_is_identity() {
    let rects = [
        Rect::new(Point::new(0, 0), Point::new(240, 240)),
        Rect::new(Point::new(-5, 7), Point::new(3, 8)),
        Rect::new(Point::new(9, 9), Point::new(1, 1)),
        Rect::new(Point::new(i32::MIN, i32::MIN), Point::new(i32::MAX, i32::MAX)),
    ];
    for r in rects {
        assert_eq!(r.inset(0), r);
    }
}

#[test]
fn rect_inset_round_trip() {
    let r = Rect::new(Point::new(10, 20), Point::new(110, 220));
    for n in [-30, -1, 0, 1, 7, 49] {
        assert_eq!(r.inset(n).inset(-n), r);
    }
}

#[test]
fn rect_inset_round_trip_through_inverted_rect() {
    let r = Rect::new(Point::new(0, 0), Point::new(10, 4));
    let inner = r.inset(3);
    assert_eq!(inner, Rect { x0: 3, y0: 3, x1: 7, y1: 1 });
    assert_eq!(inner.height(), -2);
    assert_eq!(inner.inset(-3), r);
}

#[test]
fn align_variants_are_distinct() {
    assert_eq!(Align::Left, Align::Left);
    assert_ne!(Align::Left, Align::Right);
    assert_ne!(Align::Right, Align::Center);
    assert_ne!(Align::Center, Align::Left);
    let a = Align::Center;
    let b = a;
    assert_eq!(a, b);
}
