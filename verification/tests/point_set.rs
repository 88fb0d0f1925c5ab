use snake_game::{Point, PointSet};

#[test]
fn new_point_set_is_empty() {
    let set = PointSet::new();
    assert_eq!(set.len(), 0);
    assert!(!set.contains(&Point::new(0, 0)));
    assert_eq!(set.to_vec(), Vec::<Point>::new());
}

#[test]
fn insert_says_whether_the_cell_is_new() {
    let mut set = PointSet::new();
    assert!(set.insert(Point::new(2, 3)));
    assert!(!set.insert(Point::new(2, 3)));
    assert!(set.insert(Point::new(3, 2)));
    assert_eq!(set.len(), 2);
    assert!(set.contains(&Point::new(2, 3)));
    assert!(set.contains(&Point::new(3, 2)));
    assert!(!set.contains(&Point::new(2, 2)));
}

#[test]
fn remove_says_whether_the_cell_was_there() {
    let mut set = PointSet::new();
    set.insert(Point::new(2, 3));
    set.insert(Point::new(4, 4));
    assert!(set.remove(&Point::new(2, 3)));
    assert!(!set.remove(&Point::new(2, 3)));
    assert!(!set.remove(&Point::new(9, 9)));
    assert_eq!(set.len(), 1);
    assert!(!set.contains(&Point::new(2, 3)));
    assert!(set.contains(&Point::new(4, 4)));
}

#[test]
fn to_vec_goes_by_column_then_row() {
    let mut set = PointSet::new();
    for (x, y) in [(5, 1), (2, 9), (2, 3), (7, 0), (2, 3), (0, 8)] {
        set.insert(Point::new(x, y));
    }
    assert_eq!(
        set.to_vec(),
        vec![
            Point::new(0, 8),
            Point::new(2, 3),
            Point::new(2, 9),
            Point::new(5, 1),
            Point::new(7, 0),
        ]
    );
    let mut sorted = set.to_vec();
    sorted.sort();
    assert_eq!(sorted, set.to_vec());
}
