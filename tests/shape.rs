use packing::shape::{boundary_pairs, outlines_intersect, Line, Point, ShapeIter};

#[test]
fn iter_values() {
    let radial_points: Vec<f64> = vec![1., 2., 3., 4.];
    let manual = vec![(1., 2.), (2., 3.), (3., 4.), (4., 1.)];
    assert_eq!(boundary_pairs(&radial_points), manual);
}

#[test]
fn boundary_of_single_point_and_empty() {
    assert_eq!(boundary_pairs(&vec![7u8]), vec![(7u8, 7u8)]);
    assert!(boundary_pairs::<u8>(&vec![]).is_empty());
}

#[test]
fn shape_iter_cursor() {
    let mut it = ShapeIter::new(3);
    assert_eq!(it.next(), Some((0, 1)));
    assert_eq!(it.next(), Some((1, 2)));
    assert_eq!(it.next(), Some((2, 0)));
    assert_eq!(it.next(), None);
    assert_eq!(it.next(), None);
}

#[test]
fn new() {
    let line = Line::new((1, 0), (0, 1));
    assert_eq!(line.start, Point { x: 1, y: 0 });
    assert_eq!(line.end, Point { x: 0, y: 1 });
}

#[test]
fn intersects_radial() {
    // Lines to the same point don't intersect
    let values: Vec<i32> = vec![-1, 0, 1];
    let points: Vec<(i32, i32)> = values.iter().zip(values.iter()).map(|(a, b)| (*a, *b)).collect();
    for start1 in points.iter() {
        for start2 in points.iter() {
            let l1 = Line::new(*start1, (0, 0));
            let l2 = Line::new(*start2, (0, 0));
            assert!(!l1.intersects(&l2), "{:?} {:?}", start1, start2);
        }
    }
}

#[test]
fn intersects() {
    let line1 = Line::new((-1, 0), (0, -1));
    let line2 = Line::new((-1, -1), (0, 0));
    assert!(line1.intersects(&line2));
    assert!(line2.intersects(&line1));

    let line3 = Line::new((-2, -1), (1, 0));
    assert!(line2.intersects(&line3));
    assert!(line3.intersects(&line2));
    assert!(line1.intersects(&line3));
    assert!(line3.intersects(&line1));
}

#[test]
fn parallel_segments_do_not_intersect() {
    let a = Line::new((0, 0), (2, 0));
    let b = Line::new((0, 1), (2, 1));
    assert!(!a.intersects(&b));
    let c = Line::new((1, 0), (3, 0));
    assert!(!a.intersects(&c));
}

#[test]
fn touching_end_points_intersect() {
    let a = Line::new((1, 0), (0, 0));
    let b = Line::new((0, 1), (0, 0));
    assert!(a.intersects(&b));
    assert!(b.intersects(&a));
    let c = Line::new((3, 3), (4, 5));
    assert!(!a.intersects(&c));
}

#[test]
fn line_differences() {
    let l = Line::new((-3, 4), (5, -6));
    assert_eq!(l.dx(), 8);
    assert_eq!(l.dy(), -10);
    let wide = Line::new((i32::MIN, i32::MIN), (i32::MAX, i32::MAX));
    assert_eq!(wide.dx(), u32::MAX as i64);
    let other = Line::new((i32::MIN, i32::MAX), (i32::MAX, i32::MIN));
    assert!(wide.intersects(&other));
}

#[test]
fn outline_pairs() {
    let diamond = vec![
        Line::new((0, 2), (2, 0)),
        Line::new((2, 0), (0, -2)),
        Line::new((0, -2), (-2, 0)),
        Line::new((-2, 0), (0, 2)),
    ];
    let far: Vec<Line> = diamond
        .iter()
        .map(|l| Line::new((l.start.x + 10, l.start.y), (l.end.x + 10, l.end.y)))
        .collect();
    let near: Vec<Line> = diamond
        .iter()
        .map(|l| Line::new((l.start.x + 1, l.start.y), (l.end.x + 1, l.end.y)))
        .collect();
    assert!(!outlines_intersect(false, &diamond, &far));
    assert!(outlines_intersect(true, &diamond, &far));
    assert!(outlines_intersect(false, &diamond, &near));
    assert!(!outlines_intersect(false, &diamond, &vec![]));
}
