//! Brush resolution: pairing a color with the gradient descriptor derived
//! from a shape's bounding box.  A solid color ignores the descriptor; a
//! gradient color must meet the matching descriptor kind, and any other
//! pairing is a programming error reported as a distinct failure rather
//! than absorbed by a catch-all.

use vstd::prelude::*;

use crate::color::{Color, ColorModel, GradientColor, GradientStop, SolidColor};
use crate::gradient::{
    spec_build_gradient_color_property, GradientColorProperty, LinearGradientProperty,
    RadialGradientProperty,
};
use crate::types::Point;

verus! {

/// A fully resolved brush: everything the renderer needs to create the
/// native brush object.
#[derive(Debug, Clone, PartialEq)]
pub enum Brush {
    SolidColor(SolidColor),
    LinearGradient(GradientColor, LinearGradientProperty),
    RadialGradient(GradientColor, RadialGradientProperty),
}

/// Mathematical image of a brush: stop lists become sequences.
pub enum BrushModel {
    Solid(SolidColor),
    Linear(Seq<GradientStop>, LinearGradientProperty),
    Radial(Seq<GradientStop>, RadialGradientProperty),
}

impl View for Brush {
    type V = BrushModel;

    open spec fn view(&self) -> BrushModel {
        match self {
            Brush::SolidColor(c) => BrushModel::Solid(*c),
            Brush::LinearGradient(gc, p) => BrushModel::Linear(gc@, *p),
            Brush::RadialGradient(gc, p) => BrushModel::Radial(gc@, *p),
        }
    }
}

#[derive(Debug, Clone, Copy, PartialEq, Eq, Structural)]
pub enum BrushError {
    UnsupportedCombination,
}

/// Which color/descriptor pairings resolve, and to what: a solid color
/// stands alone, a linear gradient needs linear endpoints, a radial
/// gradient needs a radial descriptor, and nothing else is supported.
pub open spec fn spec_create_brush(color: ColorModel, property: GradientColorProperty) -> Result<
    BrushModel,
    BrushError,
> {
    match color {
        ColorModel::Solid(c) => Ok(BrushModel::Solid(c)),
        ColorModel::Linear(stops, _) => match property {
            GradientColorProperty::LinearGradient(p) => Ok(BrushModel::Linear(stops, p)),
            _ => Err(BrushError::UnsupportedCombination),
        },
        ColorModel::Radial(stops) => match property {
            GradientColorProperty::RadialGradient(p) => Ok(BrushModel::Radial(stops, p)),
            _ => Err(BrushError::UnsupportedCombination),
        },
    }
}

/// Resolves a color and a gradient descriptor into a brush, rejecting the
/// mismatched pairings exactly as `spec_create_brush` lays them out.
pub fn create_brush(color: Color, property: GradientColorProperty) -> (r: Result<Brush, BrushError>)
    ensures
        r matches Ok(b) ==> spec_create_brush(color@, property) == Ok::<BrushModel, BrushError>(
            b@,
        ),
        r matches Err(e) ==> spec_create_brush(color@, property) == Err::<BrushModel, BrushError>(
            e,
        ),
        r is Ok <==> spec_create_brush(color@, property) is Ok,
{
    match (color, property) {
        (Color::SolidColor(c), _) => Ok(Brush::SolidColor(c)),
        (
            Color::LinearGradient(gc, _),
            GradientColorProperty::LinearGradient(p),
        ) => Ok(Brush::LinearGradient(gc, p)),
        (
            Color::RadialGradient(gc),
            GradientColorProperty::RadialGradient(p),
        ) => Ok(Brush::RadialGradient(gc, p)),
        _ => Err(BrushError::UnsupportedCombination),
    }
}

/// A descriptor derived from the color itself always matches it: resolving
/// a brush against the gradient descriptor built for the same color can
/// never hit the unsupported-combination error.
pub proof fn lemma_brush_resolution_total(color: ColorModel, p1: Point, p2: Point)
    ensures
        spec_create_brush(color, spec_build_gradient_color_property(color, p1, p2)) is Ok,
{
}

} // verus!
