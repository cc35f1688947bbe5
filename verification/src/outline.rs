//! The rounded-rectangle outline builder.
//!
//! A rectangle with per-corner rounding becomes a closed path: starting at
//! the top-left corner (dropped down by that corner's radius when rounded),
//! the builder emits, clockwise, an optional arc for each rounded corner and
//! one line per edge, ending with the line back to the start.  Every radius
//! is first clamped to half the rectangle's shorter side so adjacent arcs
//! can never overlap; a non-positive radius degenerates to a sharp corner.
//! The same outline serves as both stroke and fill geometry.

use vstd::arithmetic::div_mod::lemma_div_is_ordered;
use vstd::arithmetic::div_mod::lemma_div_nonincreasing;
use vstd::arithmetic::div_mod::lemma_div_pos_is_pos;
use vstd::arithmetic::div_mod::lemma_fundamental_div_mod;
use vstd::arithmetic::div_mod::lemma_mod_division_less_than_divisor;
use vstd::prelude::*;

use crate::types::{Point, Rect, RectRound};

verus! {

/// One step of a path outline: a straight line, or a small clockwise
/// circular arc with the given radius and axis rotation in degrees.
#[derive(Debug, Clone, Copy, PartialEq, Eq, Structural)]
pub enum PathSegment {
    Line { to: Point },
    Arc { to: Point, radius: i64, rotation: i64 },
}

/// The endpoint a segment leads to.
pub open spec fn seg_to(seg: PathSegment) -> Point {
    match seg {
        PathSegment::Line { to } => to,
        PathSegment::Arc { to, .. } => to,
    }
}

/// A path figure: a start point, the segments that follow it, and whether
/// the figure is closed (filled with a winding rule by the renderer).
#[derive(Debug, Clone, PartialEq)]
pub struct PathFigure {
    pub start: Point,
    pub segments: Vec<PathSegment>,
    pub closed: bool,
}

/// Mathematical image of a figure: the segment list becomes a sequence.
pub struct FigureModel {
    pub start: Point,
    pub segments: Seq<PathSegment>,
    pub closed: bool,
}

impl View for PathFigure {
    type V = FigureModel;

    open spec fn view(&self) -> FigureModel {
        FigureModel { start: self.start, segments: self.segments@, closed: self.closed }
    }
}

/// Half the shorter side: the largest corner radius the rectangle admits.
pub open spec fn spec_max_corner_radius(rect: Rect) -> int {
    (if rect.width() <= rect.height() {
        rect.width()
    } else {
        rect.height()
    }) / 2
}

/// A requested radius after clamping.
pub open spec fn spec_clamped_radius(requested: i64, max_radius: int) -> int {
    if requested <= max_radius {
        requested as int
    } else {
        max_radius
    }
}

/// The corner offset actually applied: the clamped radius when it calls for
/// an arc, zero for a sharp corner.
pub open spec fn spec_corner_offset(requested: i64, max_radius: int) -> int {
    let c = spec_clamped_radius(requested, max_radius);
    if c > 0 {
        c
    } else {
        0
    }
}

/// How many corners of the rectangle get an arc.
pub open spec fn spec_arc_count(rect: Rect, round: RectRound) -> int {
    let max_radius = spec_max_corner_radius(rect);
    (if spec_clamped_radius(round.top_left, max_radius) > 0 {
        1int
    } else {
        0int
    }) + (if spec_clamped_radius(round.top_right, max_radius) > 0 {
        1int
    } else {
        0int
    }) + (if spec_clamped_radius(round.bottom_right, max_radius) > 0 {
        1int
    } else {
        0int
    }) + (if spec_clamped_radius(round.bottom_left, max_radius) > 0 {
        1int
    } else {
        0int
    })
}

/// Start point of the outline: the top-left corner, moved down by the
/// corner's radius when it is rounded.
pub open spec fn spec_shape_start(rect: Rect, round: RectRound) -> Point {
    let tl = spec_clamped_radius(round.top_left, spec_max_corner_radius(rect));
    if tl > 0 {
        Point { x: rect.left, y: (rect.top + tl) as i64 }
    } else {
        Point { x: rect.left, y: rect.top }
    }
}

/// The outline's segments in clockwise order from the start point: for each
/// corner, its arc when rounded, and after each corner the straight edge to
/// the next corner, closing with the left edge back to the start.
pub open spec fn spec_shape_segments(rect: Rect, round: RectRound) -> Seq<PathSegment> {
    let max_radius = spec_max_corner_radius(rect);
    let tl = spec_clamped_radius(round.top_left, max_radius);
    let tr = spec_clamped_radius(round.top_right, max_radius);
    let br = spec_clamped_radius(round.bottom_right, max_radius);
    let bl = spec_clamped_radius(round.bottom_left, max_radius);
    let s0: Seq<PathSegment> = Seq::empty();
    let s1 = if tl > 0 {
        s0.push(
            PathSegment::Arc {
                to: Point { x: (rect.left + tl) as i64, y: rect.top },
                radius: tl as i64,
                rotation: -90i64,
            },
        )
    } else {
        s0
    };
    let s2 = s1.push(
        PathSegment::Line {
            to: if tr > 0 {
                Point { x: (rect.right - tr) as i64, y: rect.top }
            } else {
                Point { x: rect.right, y: rect.top }
            },
        },
    );
    let s3 = if tr > 0 {
        s2.push(
            PathSegment::Arc {
                to: Point { x: rect.right, y: (rect.top + tr) as i64 },
                radius: tr as i64,
                rotation: 90i64,
            },
        )
    } else {
        s2
    };
    let s4 = s3.push(
        PathSegment::Line {
            to: if br > 0 {
                Point { x: rect.right, y: (rect.bottom - br) as i64 }
            } else {
                Point { x: rect.right, y: rect.bottom }
            },
        },
    );
    let s5 = if br > 0 {
        s4.push(
            PathSegment::Arc {
                to: Point { x: (rect.right - br) as i64, y: rect.bottom },
                radius: br as i64,
                rotation: 90i64,
            },
        )
    } else {
        s4
    };
    let s6 = s5.push(
        PathSegment::Line {
            to: if bl > 0 {
                Point { x: (rect.left + bl) as i64, y: rect.bottom }
            } else {
                Point { x: rect.left, y: rect.bottom }
            },
        },
    );
    let s7 = if bl > 0 {
        s6.push(
            PathSegment::Arc {
                to: Point { x: rect.left, y: (rect.bottom - bl) as i64 },
                radius: bl as i64,
                rotation: 90i64,
            },
        )
    } else {
        s6
    };
    s7.push(PathSegment::Line { to: spec_shape_start(rect, round) })
}

/// The full outline figure, always closed.
pub open spec fn spec_react_shape(rect: Rect, round: RectRound) -> FigureModel {
    FigureModel {
        start: spec_shape_start(rect, round),
        segments: spec_shape_segments(rect, round),
        closed: true,
    }
}

/// Builds the rounded-rectangle outline for both stroke and fill.
#[verifier::rlimit(50)]
pub fn create_react_shape(rect: Rect, round: RectRound) -> (f: PathFigure)
    requires
        rect.wf(),
        round.wf(),
    ensures
        f@ == spec_react_shape(rect, round),
{
    let width: i64 = rect.right - rect.left;
    let height: i64 = rect.bottom - rect.top;
    let min_side: i64 = if width <= height {
        width
    } else {
        height
    };
    let max_radius: i64 = ((min_side as u64) / 2) as i64;
    proof {
        lemma_div_is_ordered(0, min_side as int, 2);
        lemma_div_nonincreasing(min_side as int, 2);
        assert(max_radius == spec_max_corner_radius(rect));
    }
    let tl: i64 = if round.top_left <= max_radius {
        round.top_left
    } else {
        max_radius
    };
    let tr: i64 = if round.top_right <= max_radius {
        round.top_right
    } else {
        max_radius
    };
    let br: i64 = if round.bottom_right <= max_radius {
        round.bottom_right
    } else {
        max_radius
    };
    let bl: i64 = if round.bottom_left <= max_radius {
        round.bottom_left
    } else {
        max_radius
    };
    let start: Point = if tl > 0 {
        Point { x: rect.left, y: rect.top + tl }
    } else {
        Point { x: rect.left, y: rect.top }
    };
    let mut segments: Vec<PathSegment> = Vec::new();
    if tl > 0 {
        segments.push(
            PathSegment::Arc {
                to: Point { x: rect.left + tl, y: rect.top },
                radius: tl,
                rotation: -90,
            },
        );
    }
    segments.push(
        PathSegment::Line {
            to: if tr > 0 {
                Point { x: rect.right - tr, y: rect.top }
            } else {
                Point { x: rect.right, y: rect.top }
            },
        },
    );
    if tr > 0 {
        segments.push(
            PathSegment::Arc {
                to: Point { x: rect.right, y: rect.top + tr },
                radius: tr,
                rotation: 90,
            },
        );
    }
    segments.push(
        PathSegment::Line {
            to: if br > 0 {
                Point { x: rect.right, y: rect.bottom - br }
            } else {
                Point { x: rect.right, y: rect.bottom }
            },
        },
    );
    if br > 0 {
        segments.push(
            PathSegment::Arc {
                to: Point { x: rect.right - br, y: rect.bottom },
                radius: br,
                rotation: 90,
            },
        );
    }
    segments.push(
        PathSegment::Line {
            to: if bl > 0 {
                Point { x: rect.left + bl, y: rect.bottom }
            } else {
                Point { x: rect.left, y: rect.bottom }
            },
        },
    );
    if bl > 0 {
        segments.push(
            PathSegment::Arc {
                to: Point { x: rect.left, y: rect.bottom - bl },
                radius: bl,
                rotation: 90,
            },
        );
    }
    segments.push(PathSegment::Line { to: start });
    PathFigure { start, segments, closed: true }
}

/// A point inside or on the boundary of the rectangle.
pub open spec fn point_within(rect: Rect, p: Point) -> bool {
    rect.left <= p.x <= rect.right && rect.top <= p.y <= rect.bottom
}

/// Every segment endpoint lies within the rectangle.
pub open spec fn segments_within(rect: Rect, segs: Seq<PathSegment>) -> bool {
    forall|i: int| 0 <= i < segs.len() ==> point_within(rect, seg_to(#[trigger] segs[i]))
}

/// Twice half of a non-negative value never exceeds the value.
proof fn lemma_twice_half_le(x: int)
    requires
        0 <= x,
    ensures
        0 <= x / 2,
        2 * (x / 2) <= x,
{
    lemma_div_pos_is_pos(x, 2);
    lemma_fundamental_div_mod(x, 2);
    lemma_mod_division_less_than_divisor(x, 2);
}

/// The outline is a well-formed closed figure: it holds one line per edge
/// plus one arc per rounded corner, its last segment returns to the start
/// point, every vertex lies within the rectangle, and each of the four
/// edges of the rectangle is touched, so the outline's bounding box is
/// exactly the input rectangle.
#[verifier::rlimit(50)]
pub proof fn lemma_react_shape_outline(rect: Rect, round: RectRound)
    requires
        rect.wf(),
        round.wf(),
    ensures
        ({
            let f = spec_react_shape(rect, round);
            &&& f.closed
            &&& f.segments.len() == 4 + spec_arc_count(rect, round)
            &&& 4 <= f.segments.len() <= 8
            &&& f.segments.last() == PathSegment::Line { to: f.start }
            &&& point_within(rect, f.start)
            &&& segments_within(rect, f.segments)
            &&& f.start.x == rect.left
            &&& exists|i: int|
                0 <= i < f.segments.len() && seg_to(#[trigger] f.segments[i]).y == rect.top
            &&& exists|i: int|
                0 <= i < f.segments.len() && seg_to(#[trigger] f.segments[i]).x == rect.right
            &&& exists|i: int|
                0 <= i < f.segments.len() && seg_to(#[trigger] f.segments[i]).y == rect.bottom
        }),
{
    let f = spec_react_shape(rect, round);
    let max_radius = spec_max_corner_radius(rect);
    let tl = spec_clamped_radius(round.top_left, max_radius);
    let tr = spec_clamped_radius(round.top_right, max_radius);
    let br = spec_clamped_radius(round.bottom_right, max_radius);
    let bl = spec_clamped_radius(round.bottom_left, max_radius);
    let side = if rect.width() <= rect.height() {
        rect.width()
    } else {
        rect.height()
    };
    lemma_twice_half_le(side);
    assert(0 <= max_radius && max_radius <= rect.width() && max_radius <= rect.height());
    let i_top = if tl > 0 {
        1int
    } else {
        0int
    };
    let i_right = i_top + 1 + (if tr > 0 {
        1int
    } else {
        0int
    });
    let i_bottom = i_right + 1 + (if br > 0 {
        1int
    } else {
        0int
    });
    assert(seg_to(f.segments[i_top]).y == rect.top);
    assert(seg_to(f.segments[i_right]).x == rect.right);
    assert(seg_to(f.segments[i_bottom]).y == rect.bottom);
}

/// Radii beyond half the shorter side are clamped to exactly that bound,
/// and on every edge the two corner offsets never overlap (their sum stays
/// within the edge length), so the outline cannot self-intersect.
pub proof fn lemma_react_shape_clamping(rect: Rect, round: RectRound)
    requires
        rect.wf(),
        round.wf(),
    ensures
        ({
            let max_radius = spec_max_corner_radius(rect);
            let tl = spec_corner_offset(round.top_left, max_radius);
            let tr = spec_corner_offset(round.top_right, max_radius);
            let br = spec_corner_offset(round.bottom_right, max_radius);
            let bl = spec_corner_offset(round.bottom_left, max_radius);
            &&& 0 <= max_radius
            &&& round.top_left > max_radius ==> spec_clamped_radius(round.top_left, max_radius)
                == max_radius
            &&& round.top_right > max_radius ==> spec_clamped_radius(round.top_right, max_radius)
                == max_radius
            &&& round.bottom_right > max_radius ==> spec_clamped_radius(
                round.bottom_right,
                max_radius,
            ) == max_radius
            &&& round.bottom_left > max_radius ==> spec_clamped_radius(
                round.bottom_left,
                max_radius,
            ) == max_radius
            &&& tl + tr <= rect.width()
            &&& br + bl <= rect.width()
            &&& tr + br <= rect.height()
            &&& bl + tl <= rect.height()
        }),
{
    let side = if rect.width() <= rect.height() {
        rect.width()
    } else {
        rect.height()
    };
    lemma_twice_half_le(side);
}

} // verus!
