use layered_canvas::outline::{create_react_shape, PathSegment};
use layered_canvas::types::{Point, Rect, RectRound};

fn seg_to(seg: &PathSegment) -> Point {
    match seg {
        PathSegment::Line { to } => *to,
        PathSegment::Arc { to, .. } => *to,
    }
}

#[test]
fn plain_rectangle_is_four_lines() {
    let rect = Rect { left: 0, top: 0, right: 100, bottom: 50 };
    let f = create_react_shape(rect, RectRound::default());
    assert_eq!(f.start, Point::new(0, 0));
    assert!(f.closed);
    assert_eq!(
        f.segments,
        vec![
            PathSegment::Line { to: Point::new(100, 0) },
            PathSegment::Line { to: Point::new(100, 50) },
            PathSegment::Line { to: Point::new(0, 50) },
            PathSegment::Line { to: Point::new(0, 0) },
        ]
    );
}

#[test]
fn fully_rounded_rectangle_alternates_arcs_and_lines() {
    let rect = Rect { left: 0, top: 0, right: 100, bottom: 50 };
    let round = RectRound::new(10, 10, 10, 10);
    let f = create_react_shape(rect, round);
    assert_eq!(f.start, Point::new(0, 10));
    assert_eq!(
        f.segments,
        vec![
            PathSegment::Arc { to: Point::new(10, 0), radius: 10, rotation: -90 },
            PathSegment::Line { to: Point::new(90, 0) },
            PathSegment::Arc { to: Point::new(100, 10), radius: 10, rotation: 90 },
            PathSegment::Line { to: Point::new(100, 40) },
            PathSegment::Arc { to: Point::new(90, 50), radius: 10, rotation: 90 },
            PathSegment::Line { to: Point::new(10, 50) },
            PathSegment::Arc { to: Point::new(0, 40), radius: 10, rotation: 90 },
            PathSegment::Line { to: Point::new(0, 10) },
        ]
    );
}

#[test]
fn outline_is_closed_and_within_bounds() {
    let rect = Rect { left: -20, top: 30, right: 80, bottom: 90 };
    let round = RectRound::new(5, 0, 12, 7);
    let f = create_react_shape(rect, round);
    // Closed: the last segment returns to the start point.
    assert_eq!(seg_to(f.segments.last().unwrap()), f.start);
    // 4 edges plus one arc per rounded corner.
    assert_eq!(f.segments.len(), 4 + 3);
    // The bounding box of the vertices is exactly the rectangle.
    let mut xs: Vec<i64> = f.segments.iter().map(|s| seg_to(s).x).collect();
    let mut ys: Vec<i64> = f.segments.iter().map(|s| seg_to(s).y).collect();
    xs.push(f.start.x);
    ys.push(f.start.y);
    assert_eq!(xs.iter().min().copied().unwrap(), rect.left);
    assert_eq!(xs.iter().max().copied().unwrap(), rect.right);
    assert_eq!(ys.iter().min().copied().unwrap(), rect.top);
    assert_eq!(ys.iter().max().copied().unwrap(), rect.bottom);
}

#[test]
fn oversized_radii_clamp_to_half_short_side() {
    // Half the short side of a 100 x 50 rectangle is 25.
    let rect = Rect { left: 0, top: 0, right: 100, bottom: 50 };
    let round = RectRound::new(100, 60, 26, 9999);
    let f = create_react_shape(rect, round);
    let radii: Vec<i64> = f
        .segments
        .iter()
        .filter_map(|s| match s {
            PathSegment::Arc { radius, .. } => Some(*radius),
            _ => None,
        })
        .collect();
    assert_eq!(radii, vec![25, 25, 25, 25]);
    // The clamped outline still stays within the rectangle.
    for s in &f.segments {
        let p = seg_to(s);
        assert!(rect.left <= p.x && p.x <= rect.right);
        assert!(rect.top <= p.y && p.y <= rect.bottom);
    }
    // Adjacent tangent points do not cross on any edge.
    assert_eq!(f.segments[1], PathSegment::Line { to: Point::new(75, 0) });
    assert_eq!(seg_to(&f.segments[0]), Point::new(25, 0));
}

#[test]
fn zero_and_negative_radii_are_sharp_corners() {
    let rect = Rect { left: 0, top: 0, right: 40, bottom: 40 };
    let round = RectRound::new(-5, 0, 8, 0);
    let f = create_react_shape(rect, round);
    // Only the bottom-right corner gets an arc.
    assert_eq!(f.segments.len(), 5);
    assert_eq!(f.start, Point::new(0, 0));
    assert_eq!(
        f.segments,
        vec![
            PathSegment::Line { to: Point::new(40, 0) },
            PathSegment::Line { to: Point::new(40, 32) },
            PathSegment::Arc { to: Point::new(32, 40), radius: 8, rotation: 90 },
            PathSegment::Line { to: Point::new(0, 40) },
            PathSegment::Line { to: Point::new(0, 0) },
        ]
    );
}

#[test]
fn degenerate_rectangle_collapses_rounding() {
    // A zero-height rectangle clamps every radius to zero.
    let rect = Rect { left: 10, top: 20, right: 60, bottom: 20 };
    let round = RectRound::new(10, 10, 10, 10);
    let f = create_react_shape(rect, round);
    assert_eq!(f.segments.len(), 4);
    assert_eq!(f.start, Point::new(10, 20));
}

#[test]
fn rect_new_spans_from_place() {
    let r = Rect::new(Point::from((5, 6)), 20, 10);
    assert_eq!((r.left, r.top, r.right, r.bottom), (5, 6, 25, 16));
}
