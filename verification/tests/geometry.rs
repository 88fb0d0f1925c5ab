use snake_game::{Point, Rect};

#[test]
fn point_new_keeps_coordinates() {
    let p = Point::new(3, 7);
    assert_eq!(p.x, 3);
    assert_eq!(p.y, 7);
    assert_eq!(p, Point { x: 3, y: 7 });
}

#[test]
fn points_are_ordered_by_column_then_row() {
    assert!(Point::new(1, 5) < Point::new(2, 0));
    assert!(Point::new(1, 2) < Point::new(1, 3));
    assert!(Point::new(4, 4) <= Point::new(4, 4));
    let mut cells = vec![Point::new(2, 1), Point::new(1, 9), Point::new(1, 2)];
    cells.sort();
    assert_eq!(cells, vec![Point::new(1, 2), Point::new(1, 9), Point::new(2, 1)]);
}

#[test]
fn rect_edges() {
    let r = Rect { x: 1, y: 2, width: 10, height: 5 };
    assert_eq!(r.left(), 1);
    assert_eq!(r.right(), 11);
    assert_eq!(r.top(), 2);
    assert_eq!(r.bottom(), 7);
    assert_eq!(r.x1(), 1);
    assert_eq!(r.x2(), 11);
    assert_eq!(r.y1(), 2);
    assert_eq!(r.y2(), 7);
}

#[test]
fn rect_contains_left_and_top_but_not_right_and_bottom() {
    let r = Rect { x: 1, y: 2, width: 10, height: 5 };
    assert!(r.contains(&Point::new(1, 2)));
    assert!(r.contains(&Point::new(10, 6)));
    assert!(r.contains(&Point::new(5, 4)));
    assert!(!r.contains(&Point::new(11, 4)));
    assert!(!r.contains(&Point::new(5, 7)));
    assert!(!r.contains(&Point::new(0, 4)));
    assert!(!r.contains(&Point::new(5, 1)));
    assert!(!r.contains(&Point::new(11, 7)));
}

#[test]
fn empty_rect_contains_nothing() {
    let flat = Rect { x: 3, y: 3, width: 0, height: 4 };
    assert!(!flat.contains(&Point::new(3, 3)));
    let thin = Rect { x: 3, y: 3, width: 4, height: 0 };
    assert!(!thin.contains(&Point::new(3, 3)));
}

#[test]
fn rect_contains_does_not_overflow() {
    let r = Rect { x: usize::MAX - 1, y: usize::MAX, width: 5, height: 5 };
    assert!(r.contains(&Point::new(usize::MAX, usize::MAX)));
    assert!(r.contains(&Point::new(usize::MAX - 1, usize::MAX)));
    assert!(!r.contains(&Point::new(usize::MAX - 2, usize::MAX)));
    assert!(!r.contains(&Point::new(usize::MAX, usize::MAX - 1)));
}

#[test]
fn rect_area_is_width_times_height() {
    assert_eq!(Rect { x: 1, y: 1, width: 78, height: 22 }.area(), 1716);
    assert_eq!(Rect { x: 9, y: 9, width: 0, height: 22 }.area(), 0);
    assert_eq!(Rect { x: 0, y: 0, width: 1, height: 1 }.area(), 1);
}
