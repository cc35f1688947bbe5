//! Derivation of gradient brush endpoints from a shape's bounding box.
//!
//! A linear gradient's endpoints are a chord of the box's bounding circle:
//! the angle (whole degrees, 0 meaning bottom-to-top, growing clockwise in a
//! y-down coordinate system) is reduced into `[0, 360)` and classified into
//! one of four 90-degree bands; the two reflected bands reuse the first two
//! at `angle - 180` with start and end swapped.  A radial gradient is a
//! circle over the box's center with no origin offset.

use vstd::arithmetic::div_mod::lemma_add_mod_noop;
use vstd::arithmetic::div_mod::lemma_mod_add_multiples_vanish;
use vstd::arithmetic::div_mod::lemma_div_is_ordered;
use vstd::arithmetic::div_mod::lemma_div_multiples_vanish;
use vstd::arithmetic::div_mod::lemma_fundamental_div_mod;
use vstd::arithmetic::div_mod::lemma_fundamental_div_mod_converse_mod;
use vstd::arithmetic::div_mod::lemma_mod_division_less_than_divisor;
use vstd::arithmetic::div_mod::lemma_mod_sub_multiples_vanish;
use vstd::arithmetic::div_mod::lemma_small_mod;
use vstd::arithmetic::mul::lemma_mul_inequality;
use vstd::prelude::*;

use crate::color::{Color, ColorModel};
use crate::math::{
    cos_milli, isqrt, sin_milli, spec_cos_milli, spec_isqrt, spec_sin_milli, COORD_LIMIT,
};
use crate::types::Point;

verus! {

/// Endpoints of a linear gradient brush in device space.
#[derive(Debug, Clone, Copy, PartialEq, Eq, Structural)]
pub struct LinearGradientProperty {
    pub start: Point,
    pub end: Point,
}

impl LinearGradientProperty {
    pub fn new(start: Point, end: Point) -> (r: Self)
        ensures
            r == (LinearGradientProperty { start, end }),
    {
        Self { start, end }
    }
}

/// Geometry of a radial gradient brush: center, highlight origin offset and
/// the two ellipse radii.
#[derive(Debug, Clone, Copy, PartialEq, Eq, Structural)]
pub struct RadialGradientProperty {
    pub center: Point,
    pub offset: Point,
    pub radius_x: i64,
    pub radius_y: i64,
}

impl RadialGradientProperty {
    pub fn new(center: Point, offset: Point, radius_x: i64, radius_y: i64) -> (r: Self)
        ensures
            r == (RadialGradientProperty { center, offset, radius_x, radius_y }),
    {
        Self { center, offset, radius_x, radius_y }
    }

    pub fn new_circle(center: Point, offset: Point, radius: i64) -> (r: Self)
        ensures
            r == (RadialGradientProperty { center, offset, radius_x: radius, radius_y: radius }),
    {
        Self { center, offset, radius_x: radius, radius_y: radius }
    }
}

/// The resolved gradient descriptor handed to brush creation.
#[derive(Debug, Clone, Copy, PartialEq, Eq, Structural)]
pub enum GradientColorProperty {
    LinearGradient(LinearGradientProperty),
    RadialGradient(RadialGradientProperty),
    NoGradient,
}

impl From<LinearGradientProperty> for GradientColorProperty {
    fn from(property: LinearGradientProperty) -> (r: Self) {
        Self::LinearGradient(property)
    }
}

impl vstd::std_specs::convert::FromSpecImpl<LinearGradientProperty> for GradientColorProperty {
    open spec fn obeys_from_spec() -> bool {
        true
    }

    open spec fn from_spec(property: LinearGradientProperty) -> Self {
        Self::LinearGradient(property)
    }
}

impl From<RadialGradientProperty> for GradientColorProperty {
    fn from(property: RadialGradientProperty) -> (r: Self) {
        Self::RadialGradient(property)
    }
}

impl vstd::std_specs::convert::FromSpecImpl<RadialGradientProperty> for GradientColorProperty {
    open spec fn obeys_from_spec() -> bool {
        true
    }

    open spec fn from_spec(property: RadialGradientProperty) -> Self {
        Self::RadialGradient(property)
    }
}

/// The angle brought into `[0, 360)` (mathematical remainder, so negative
/// angles wrap upwards).
pub open spec fn spec_reduce_angle(angle: int) -> int {
    angle % 360
}

pub fn reduce_angle(angle: i64) -> (m: u64)
    ensures
        m == spec_reduce_angle(angle as int),
        m < 360,
{
    if angle >= 0 {
        let m: u64 = (angle as u64) % 360;
        proof {
            lemma_mod_division_less_than_divisor(angle as int, 360);
        }
        m
    } else {
        let k: u64 = (-(angle + 1)) as u64;
        let m: u64 = 359 - (k % 360);
        proof {
            let b = k as int;
            lemma_fundamental_div_mod(b, 360);
            lemma_mod_division_less_than_divisor(b, 360);
            let q = b / 360;
            let r = b % 360;
            assert(angle as int == 360 * (-q - 1) + (359 - r));
            lemma_fundamental_div_mod_converse_mod(angle as int, 360, -q - 1, 359 - r);
        }
        m
    }
}

/// Chord endpoints for a band angle in `[0, 90]`: the offset from the center
/// is `radius` scaled by the complementary angle's cosine and sine; the
/// start lies below the center (y grows downwards), the end above.
pub open spec fn spec_acute_calc(center: Point, radius: int, angle: int) -> (Point, Point) {
    let a = 90 - angle;
    let dx = radius * spec_cos_milli(a) / 1000;
    let dy = radius * spec_sin_milli(a) / 1000;
    (
        Point { x: (center.x - dx) as i64, y: (center.y + dy) as i64 },
        Point { x: (center.x + dx) as i64, y: (center.y - dy) as i64 },
    )
}

/// Chord endpoints for a band angle in `(90, 180)`: measured from the
/// horizontal, with the start above the center.
pub open spec fn spec_obtuse_calc(center: Point, radius: int, angle: int) -> (Point, Point) {
    let a = angle - 90;
    let dx = radius * spec_cos_milli(a) / 1000;
    let dy = radius * spec_sin_milli(a) / 1000;
    (
        Point { x: (center.x - dx) as i64, y: (center.y - dy) as i64 },
        Point { x: (center.x + dx) as i64, y: (center.y + dy) as i64 },
    )
}

/// Gradient chord for any angle: reduce into `[0, 360)`, pick the band, and
/// for the two reflected bands reuse the opposite band with the endpoints
/// swapped.
pub open spec fn spec_calc_gradient_start_end(center: Point, radius: int, angle: int) -> (
    Point,
    Point,
) {
    let m = spec_reduce_angle(angle);
    if m <= 90 {
        spec_acute_calc(center, radius, m)
    } else if m < 180 {
        spec_obtuse_calc(center, radius, m)
    } else if m <= 270 {
        let p = spec_acute_calc(center, radius, m - 180);
        (p.1, p.0)
    } else {
        let p = spec_obtuse_calc(center, radius, m - 180);
        (p.1, p.0)
    }
}

/// The scaled chord offset never exceeds the radius.
proof fn lemma_chord_offset_bounded(radius: int, milli: int)
    requires
        0 <= radius,
        0 <= milli <= 1000,
    ensures
        0 <= radius * milli / 1000 <= radius,
{
    lemma_mul_inequality(milli, 1000, radius);
    assert(radius * milli == milli * radius) by (nonlinear_arith);
    assert(radius * 1000 == 1000 * radius) by (nonlinear_arith);
    lemma_div_is_ordered(radius * milli, radius * 1000, 1000);
    lemma_div_multiples_vanish(radius, 1000);
    assert(radius * milli >= 0) by (nonlinear_arith)
        requires
            radius >= 0,
            milli >= 0,
        ;
    lemma_div_is_ordered(0, radius * milli, 1000);
}

fn acute_calc(center: &Point, radius: i64, angle: u64) -> (r: (Point, Point))
    requires
        center.wf(),
        0 <= radius <= 2 * COORD_LIMIT,
        angle <= 90,
    ensures
        r == spec_acute_calc(*center, radius as int, angle as int),
        r.0.x + r.1.x == 2 * center.x,
        r.0.y + r.1.y == 2 * center.y,
{
    let a: u64 = 90 - angle;
    let c: u64 = cos_milli(a);
    let s: u64 = sin_milli(a);
    proof {
        lemma_chord_offset_bounded(radius as int, c as int);
        lemma_chord_offset_bounded(radius as int, s as int);
    }
    let dx: i64 = ((radius as u64 * c) / 1000) as i64;
    let dy: i64 = ((radius as u64 * s) / 1000) as i64;
    let start = Point { x: center.x - dx, y: center.y + dy };
    let end = Point { x: center.x + dx, y: center.y - dy };
    (start, end)
}

fn obtuse_calc(center: &Point, radius: i64, angle: u64) -> (r: (Point, Point))
    requires
        center.wf(),
        0 <= radius <= 2 * COORD_LIMIT,
        90 < angle < 180,
    ensures
        r == spec_obtuse_calc(*center, radius as int, angle as int),
        r.0.x + r.1.x == 2 * center.x,
        r.0.y + r.1.y == 2 * center.y,
{
    let a: u64 = angle - 90;
    let c: u64 = cos_milli(a);
    let s: u64 = sin_milli(a);
    proof {
        lemma_chord_offset_bounded(radius as int, c as int);
        lemma_chord_offset_bounded(radius as int, s as int);
    }
    let dx: i64 = ((radius as u64 * c) / 1000) as i64;
    let dy: i64 = ((radius as u64 * s) / 1000) as i64;
    let start = Point { x: center.x - dx, y: center.y - dy };
    let end = Point { x: center.x + dx, y: center.y + dy };
    (start, end)
}

/// Computes the linear gradient chord for a circle of `radius` around
/// `center` at `angle` degrees.  The two endpoints are always symmetric
/// about the center.
pub fn calc_gradient_start_end(center: Point, radius: i64, angle: i64) -> (r: (Point, Point))
    requires
        center.wf(),
        0 <= radius <= 2 * COORD_LIMIT,
    ensures
        r == spec_calc_gradient_start_end(center, radius as int, angle as int),
        r.0.x + r.1.x == 2 * center.x,
        r.0.y + r.1.y == 2 * center.y,
{
    let m: u64 = reduce_angle(angle);
    if m <= 90 {
        acute_calc(&center, radius, m)
    } else if m < 180 {
        obtuse_calc(&center, radius, m)
    } else if m <= 270 {
        let (start, end) = acute_calc(&center, radius, m - 180);
        (end, start)
    } else {
        let (start, end) = obtuse_calc(&center, radius, m - 180);
        (end, start)
    }
}

/// Reflecting the angle by a half turn swaps the two gradient endpoints:
/// `calc(angle + 180)` is `calc(angle)` with start and end exchanged.
pub proof fn lemma_angle_reflection(center: Point, radius: int, angle: int)
    ensures
        ({
            let first = spec_calc_gradient_start_end(center, radius, angle);
            let second = spec_calc_gradient_start_end(center, radius, angle + 180);
            second.0 == first.1 && second.1 == first.0
        }),
{
    let m = angle % 360;
    let m2 = (angle + 180) % 360;
    lemma_mod_division_less_than_divisor(angle, 360);
    lemma_add_mod_noop(angle, 180, 360);
    lemma_small_mod(180nat, 360nat);
    assert(m2 == (m + 180) % 360);
    if m < 180 {
        lemma_small_mod((m + 180) as nat, 360nat);
        assert(m2 == m + 180);
    } else {
        lemma_mod_sub_multiples_vanish(m + 180, 360);
        lemma_small_mod((m - 180) as nat, 360nat);
        assert(m2 == m - 180);
    }
}

/// A full turn changes nothing: the chord depends on the angle only
/// through its remainder modulo 360 degrees.
pub proof fn lemma_angle_periodic(center: Point, radius: int, angle: int)
    ensures
        spec_calc_gradient_start_end(center, radius, angle + 360) == spec_calc_gradient_start_end(
            center,
            radius,
            angle,
        ),
{
    lemma_mod_add_multiples_vanish(angle, 360);
}

/// Center of the box spanned by a top-left and a bottom-right corner.
pub open spec fn spec_box_center(p1: Point, p2: Point) -> Point {
    Point {
        x: (p1.x + (p2.x - p1.x) / 2) as i64,
        y: (p1.y + (p2.y - p1.y) / 2) as i64,
    }
}

/// Half the diagonal of the box: the radius of its bounding circle.
pub open spec fn spec_half_diagonal(p1: Point, p2: Point) -> int {
    spec_isqrt((p2.x - p1.x) * (p2.x - p1.x) + (p2.y - p1.y) * (p2.y - p1.y)) / 2
}

/// Radius of the radial gradient circle: half the larger box side.
pub open spec fn spec_radial_radius(p1: Point, p2: Point) -> int {
    let half_width = (p2.x - p1.x) / 2;
    let half_height = (p2.y - p1.y) / 2;
    if half_width >= half_height {
        half_width
    } else {
        half_height
    }
}

/// The gradient descriptor derived from a color and the shape's bounding
/// box: a bounding-circle chord for linear gradients, a centered circle with
/// no origin offset for radial ones, nothing for solid colors.
pub open spec fn spec_build_gradient_color_property(
    color: ColorModel,
    p1: Point,
    p2: Point,
) -> GradientColorProperty {
    match color {
        ColorModel::Linear(_, angle) => {
            let center = spec_box_center(p1, p2);
            let chord = spec_calc_gradient_start_end(
                center,
                spec_half_diagonal(p1, p2),
                angle as int,
            );
            GradientColorProperty::LinearGradient(
                LinearGradientProperty { start: chord.0, end: chord.1 },
            )
        },
        ColorModel::Radial(_) => {
            let center = spec_box_center(p1, p2);
            let radius = spec_radial_radius(p1, p2);
            GradientColorProperty::RadialGradient(
                RadialGradientProperty {
                    center,
                    offset: Point { x: 0, y: 0 },
                    radius_x: radius as i64,
                    radius_y: radius as i64,
                },
            )
        },
        ColorModel::Solid(_) => GradientColorProperty::NoGradient,
    }
}

/// Resolves a color against the bounding box with corners `point1`
/// (top-left) and `point2` (bottom-right) into the gradient descriptor that
/// brush creation consumes.
pub fn build_gradient_color_property(color: &Color, point1: Point, point2: Point) -> (r:
    GradientColorProperty)
    requires
        point1.wf(),
        point2.wf(),
        point1.x <= point2.x,
        point1.y <= point2.y,
    ensures
        r == spec_build_gradient_color_property(color@, point1, point2),
{
    match color {
        Color::LinearGradient(_, angle) => {
            let width: i64 = point2.x - point1.x;
            let height: i64 = point2.y - point1.y;
            let half_width: i64 = ((width as u64) / 2) as i64;
            let half_height: i64 = ((height as u64) / 2) as i64;
            let center = Point { x: point1.x + half_width, y: point1.y + half_height };
            proof {
                lemma_div_is_ordered(0, width as int, 2);
                lemma_div_is_ordered(0, height as int, 2);
                assert(half_width <= width) by {
                    lemma_div_is_ordered(width as int, width as int, 2);
                    vstd::arithmetic::div_mod::lemma_div_nonincreasing(width as int, 2);
                };
                assert(half_height <= height) by {
                    vstd::arithmetic::div_mod::lemma_div_nonincreasing(height as int, 2);
                };
            }
            let w64: u64 = width as u64;
            let h64: u64 = height as u64;
            proof {
                assert(w64 * w64 <= 33554432 * 33554432 && h64 * h64 <= 33554432 * 33554432)
                    by (nonlinear_arith)
                    requires
                        w64 <= 33554432u64,
                        h64 <= 33554432u64,
                    ;
            }
            let sq: u64 = w64 * w64 + h64 * h64;
            let root: u64 = isqrt(sq);
            proof {
                assert(root < 67108864) by (nonlinear_arith)
                    requires
                        root * root <= sq,
                        sq <= 2 * 33554432 * 33554432,
                    ;
            }
            let radius: i64 = (root / 2) as i64;
            let (start, end) = calc_gradient_start_end(center, radius, *angle);
            GradientColorProperty::LinearGradient(LinearGradientProperty { start, end })
        },
        Color::RadialGradient(_) => {
            let width: i64 = point2.x - point1.x;
            let height: i64 = point2.y - point1.y;
            let half_width: i64 = ((width as u64) / 2) as i64;
            let half_height: i64 = ((height as u64) / 2) as i64;
            let center = Point { x: point1.x + half_width, y: point1.y + half_height };
            let offset = Point { x: 0, y: 0 };
            let radius: i64 = if half_width >= half_height {
                half_width
            } else {
                half_height
            };
            GradientColorProperty::RadialGradient(
                RadialGradientProperty {
                    center,
                    offset,
                    radius_x: radius,
                    radius_y: radius,
                },
            )
        },
        Color::SolidColor(_) => GradientColorProperty::NoGradient,
    }
}

} // verus!
