use declarator::rect::{partial_max, partial_min, Point_, Rect_, Size_};

#[test]
fn test_partial() {
    assert_eq!(1., partial_min(1., 2.));
    assert_eq!(1., partial_min(2., 1.));
    assert_eq!(1., partial_min(1., 1.));
    assert_eq!(1, partial_min(1, 2));
    assert_eq!(1, partial_min(2, 1));
    assert_eq!(1, partial_min(1, 1));

    assert_eq!(2., partial_max(1., 2.));
    assert_eq!(2., partial_max(2., 1.));
    assert_eq!(2., partial_max(2., 2.));
    assert_eq!(2, partial_max(1, 2));
    assert_eq!(2, partial_max(2, 1));
    assert_eq!(2, partial_max(2, 2));
}

#[test]
fn test_rect_constructors() {
    let r = Rect_::new(1, 2, 10, 20);
    assert_eq!(r.x, 1);
    assert_eq!(r.y, 2);
    assert_eq!(r.width, 10);
    assert_eq!(r.height, 20);

    let r2 = Rect_::from_point_size(Point_::new(3, 4), Size_::new(5, 6));
    assert_eq!(r2, Rect_::new(3, 4, 5, 6));

    let r3 = Rect_::from_points(Point_::new(7, 1), Point_::new(2, 9));
    assert_eq!(r3, Rect_::new(2, 1, 5, 8));

    let r4 = Rect_::from_points(Point_::new(0, 0), Point_::new(0, 0));
    assert_eq!(r4, Rect_::new(0, 0, 0, 0));
}

#[test]
fn test_rect_queries() {
    let r = Rect_::new(1, 2, 10, 20);
    assert_eq!(r.tl(), Point_::new(1, 2));
    assert_eq!(r.br(), Point_::new(11, 22));
    assert_eq!(r.size(), Size_::new(10, 20));
    assert_eq!(r.area(), 200);
    assert!(!r.empty());
    assert!(Rect_::new(1, 2, 0, 5).empty());
    assert!(Rect_::new(1, 2, 5, -1).empty());

    assert!(r.contains(Point_::new(1, 2)));
    assert!(r.contains(Point_::new(10, 21)));
    assert!(!r.contains(Point_::new(11, 2)));
    assert!(!r.contains(Point_::new(0, 2)));
    assert!(!r.contains(Point_::new(1, 22)));

    assert_eq!(Rect_::default(), Rect_::new(0, 0, 0, 0));
}

#[test]
fn test_rect_arithmetic() {
    let r = Rect_::new(1, 2, 10, 20);
    assert_eq!(r + Point_::new(3, 4), Rect_::new(4, 6, 10, 20));
    assert_eq!(r - Point_::new(1, 1), Rect_::new(0, 1, 10, 20));
    assert_eq!(r + Size_::new(5, 6), Rect_::new(1, 2, 15, 26));
    assert_eq!(r - Size_::new(10, 20), Rect_::new(1, 2, 0, 0));
}
