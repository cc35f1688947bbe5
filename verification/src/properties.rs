//! Value objects describing the shapes a context can draw: lines,
//! rectangles with optional per-corner rounding, circles and ellipses, and
//! text runs with their font attributes.  Each combines geometry with an
//! optional fill color, an optional solid stroke color with a stroke width,
//! and, for text, font configuration.

use vstd::prelude::*;

use crate::color::{Color, SolidColor};
use crate::math::COORD_LIMIT;
use crate::types::{Point, Rect, RectRound};

verus! {

#[derive(Debug, Clone, PartialEq)]
pub struct LineProperty {
    pub start: Point,
    pub end: Point,
    pub width: i64,
    pub color: Color,
}

impl LineProperty {
    /// Any gradient in the line's color is valid.
    pub open spec fn wf(self) -> bool {
        self.color.wf()
    }
}

impl Default for LineProperty {
    fn default() -> (r: Self)
        ensures
            r.start == (Point { x: 0, y: 0 }),
            r.end == (Point { x: 0, y: 0 }),
            r.width == 1,
            r.color == Color::SolidColor(SolidColor { r: 0, g: 0, b: 0, a: 255 }),
    {
        Self {
            start: Point { x: 0, y: 0 },
            end: Point { x: 0, y: 0 },
            width: 1,
            color: Color::default(),
        }
    }
}

#[derive(Debug, Clone, PartialEq)]
pub struct RectProperty {
    pub rect: Rect,
    pub fill_color: Option<Color>,
    pub stroke_color: Option<SolidColor>,
    pub stroke_width: i64,
    pub round: RectRound,
}

impl RectProperty {
    /// Geometry in range and any gradient in the fill valid.
    pub open spec fn wf(self) -> bool {
        &&& self.rect.wf()
        &&& self.round.wf()
        &&& match self.fill_color {
            Some(c) => c.wf(),
            None => true,
        }
    }
}

impl Default for RectProperty {
    fn default() -> (r: Self)
        ensures
            r.rect == (Rect { left: 0, top: 0, right: 0, bottom: 0 }),
            r.fill_color is None,
            r.stroke_color is None,
            r.stroke_width == 1,
            r.round == (RectRound { top_left: 0, top_right: 0, bottom_right: 0, bottom_left: 0 }),
    {
        Self {
            rect: Rect::default(),
            fill_color: None,
            stroke_color: None,
            stroke_width: 1,
            round: RectRound::default(),
        }
    }
}

#[derive(Debug, Clone, PartialEq)]
pub struct CircleProperty {
    pub center: Point,
    pub radius: i64,
    pub fill_color: Option<Color>,
    pub stroke_color: Option<SolidColor>,
    pub stroke_width: i64,
}

impl CircleProperty {
    /// The circle's bounding box stays within the coordinate range.
    pub open spec fn wf(self) -> bool {
        &&& self.center.wf()
        &&& 0 <= self.radius
        &&& -COORD_LIMIT <= self.center.x - self.radius
        &&& self.center.x + self.radius <= COORD_LIMIT
        &&& -COORD_LIMIT <= self.center.y - self.radius
        &&& self.center.y + self.radius <= COORD_LIMIT
        &&& match self.fill_color {
            Some(c) => c.wf(),
            None => true,
        }
    }
}

impl Default for CircleProperty {
    fn default() -> (r: Self)
        ensures
            r.center == (Point { x: 0, y: 0 }),
            r.radius == 1,
            r.fill_color is None,
            r.stroke_color is None,
            r.stroke_width == 1,
    {
        Self {
            center: Point { x: 0, y: 0 },
            radius: 1,
            fill_color: None,
            stroke_color: None,
            stroke_width: 1,
        }
    }
}

#[derive(Debug, Clone, PartialEq)]
pub struct EllipseProperty {
    pub center: Point,
    pub radius_x: i64,
    pub radius_y: i64,
    pub fill_color: Option<Color>,
    pub stroke_color: Option<SolidColor>,
    pub stroke_width: i64,
}

impl EllipseProperty {
    /// The ellipse's bounding box stays within the coordinate range.
    pub open spec fn wf(self) -> bool {
        &&& self.center.wf()
        &&& 0 <= self.radius_x
        &&& 0 <= self.radius_y
        &&& -COORD_LIMIT <= self.center.x - self.radius_x
        &&& self.center.x + self.radius_x <= COORD_LIMIT
        &&& -COORD_LIMIT <= self.center.y - self.radius_y
        &&& self.center.y + self.radius_y <= COORD_LIMIT
        &&& match self.fill_color {
            Some(c) => c.wf(),
            None => true,
        }
    }
}

impl Default for EllipseProperty {
    fn default() -> (r: Self)
        ensures
            r.center == (Point { x: 0, y: 0 }),
            r.radius_x == 1,
            r.radius_y == 1,
            r.fill_color is None,
            r.stroke_color is None,
            r.stroke_width == 1,
    {
        Self {
            center: Point { x: 0, y: 0 },
            radius_x: 1,
            radius_y: 1,
            fill_color: None,
            stroke_color: None,
            stroke_width: 1,
        }
    }
}

/// A circle as the degenerate ellipse with both radii equal; the conversion
/// keeps center, colors and stroke width unchanged.
pub open spec fn spec_ellipse_from_circle(circle: CircleProperty) -> EllipseProperty {
    EllipseProperty {
        center: circle.center,
        radius_x: circle.radius,
        radius_y: circle.radius,
        fill_color: circle.fill_color,
        stroke_color: circle.stroke_color,
        stroke_width: circle.stroke_width,
    }
}

impl From<CircleProperty> for EllipseProperty {
    fn from(circle: CircleProperty) -> (r: Self) {
        Self {
            center: circle.center,
            radius_x: circle.radius,
            radius_y: circle.radius,
            fill_color: circle.fill_color,
            stroke_color: circle.stroke_color,
            stroke_width: circle.stroke_width,
        }
    }
}

impl vstd::std_specs::convert::FromSpecImpl<CircleProperty> for EllipseProperty {
    open spec fn obeys_from_spec() -> bool {
        true
    }

    open spec fn from_spec(circle: CircleProperty) -> Self {
        spec_ellipse_from_circle(circle)
    }
}

/// Converting a circle to an ellipse is lossless: both radii carry the
/// circle's radius, and center, fill, stroke and width are identical.
pub proof fn lemma_circle_to_ellipse(circle: CircleProperty)
    ensures
        ({
            let e = spec_ellipse_from_circle(circle);
            &&& e.radius_x == circle.radius
            &&& e.radius_y == circle.radius
            &&& e.center == circle.center
            &&& e.fill_color == circle.fill_color
            &&& e.stroke_color == circle.stroke_color
            &&& e.stroke_width == circle.stroke_width
            &&& circle.wf() ==> e.wf()
        }),
{
}

#[derive(Debug, Clone, Copy, PartialEq, Eq, Structural)]
pub enum FontWeight {
    Thin,
    ExtraLight,
    UltraLight,
    Light,
    SemiLight,
    Normal,
    Regular,
    Medium,
    DemiBold,
    SemiBold,
    Bold,
    ExtraBold,
    UltraBold,
    Black,
    Heavy,
    ExtraBlack,
    UltraBlack,
    Custom(i32),
}

/// The numeric weight the text renderer understands (the OpenType scale,
/// 100 for thin up to 950 for ultra-black).
pub open spec fn spec_font_weight_value(w: FontWeight) -> i32 {
    match w {
        FontWeight::Thin => 100,
        FontWeight::ExtraLight => 200,
        FontWeight::UltraLight => 200,
        FontWeight::Light => 300,
        FontWeight::SemiLight => 350,
        FontWeight::Normal => 400,
        FontWeight::Regular => 400,
        FontWeight::Medium => 500,
        FontWeight::DemiBold => 600,
        FontWeight::SemiBold => 600,
        FontWeight::Bold => 700,
        FontWeight::ExtraBold => 800,
        FontWeight::UltraBold => 800,
        FontWeight::Black => 900,
        FontWeight::Heavy => 900,
        FontWeight::ExtraBlack => 950,
        FontWeight::UltraBlack => 950,
        FontWeight::Custom(value) => value,
    }
}

impl FontWeight {
    pub fn value(self) -> (r: i32)
        ensures
            r == spec_font_weight_value(self),
    {
        match self {
            FontWeight::Thin => 100,
            FontWeight::ExtraLight => 200,
            FontWeight::UltraLight => 200,
            FontWeight::Light => 300,
            FontWeight::SemiLight => 350,
            FontWeight::Normal => 400,
            FontWeight::Regular => 400,
            FontWeight::Medium => 500,
            FontWeight::DemiBold => 600,
            FontWeight::SemiBold => 600,
            FontWeight::Bold => 700,
            FontWeight::ExtraBold => 800,
            FontWeight::UltraBold => 800,
            FontWeight::Black => 900,
            FontWeight::Heavy => 900,
            FontWeight::ExtraBlack => 950,
            FontWeight::UltraBlack => 950,
            FontWeight::Custom(value) => value,
        }
    }
}

impl Default for FontWeight {
    fn default() -> (r: Self)
        ensures
            r == FontWeight::Normal,
    {
        FontWeight::Normal
    }
}

impl From<i32> for FontWeight {
    fn from(value: i32) -> (r: Self) {
        FontWeight::Custom(value)
    }
}

impl vstd::std_specs::convert::FromSpecImpl<i32> for FontWeight {
    open spec fn obeys_from_spec() -> bool {
        true
    }

    open spec fn from_spec(value: i32) -> Self {
        FontWeight::Custom(value)
    }
}

#[derive(Debug, Clone, Copy, PartialEq, Eq, Structural)]
pub enum FontStyle {
    Normal,
    Oblique,
    Italic,
}

/// The numeric style slant the text renderer understands.
pub open spec fn spec_font_style_value(s: FontStyle) -> i32 {
    match s {
        FontStyle::Normal => 0,
        FontStyle::Oblique => 1,
        FontStyle::Italic => 2,
    }
}

impl FontStyle {
    pub fn value(self) -> (r: i32)
        ensures
            r == spec_font_style_value(self),
    {
        match self {
            FontStyle::Normal => 0,
            FontStyle::Oblique => 1,
            FontStyle::Italic => 2,
        }
    }
}

impl Default for FontStyle {
    fn default() -> (r: Self)
        ensures
            r == FontStyle::Normal,
    {
        FontStyle::Normal
    }
}

#[derive(Debug, Clone, Copy, PartialEq, Eq, Structural)]
pub enum FontStretch {
    UltraCondensed,
    ExtraCondensed,
    Condensed,
    SemiCondensed,
    Normal,
    Medium,
    SemiExpanded,
    Expanded,
    ExtraExpanded,
    UltraExpanded,
    Custom(i32),
}

/// The numeric stretch class the text renderer understands (1 for
/// ultra-condensed up to 9 for ultra-expanded; medium equals normal).
pub open spec fn spec_font_stretch_value(s: FontStretch) -> i32 {
    match s {
        FontStretch::UltraCondensed => 1,
        FontStretch::ExtraCondensed => 2,
        FontStretch::Condensed => 3,
        FontStretch::SemiCondensed => 4,
        FontStretch::Normal => 5,
        FontStretch::Medium => 5,
        FontStretch::SemiExpanded => 6,
        FontStretch::Expanded => 7,
        FontStretch::ExtraExpanded => 8,
        FontStretch::UltraExpanded => 9,
        FontStretch::Custom(value) => value,
    }
}

impl FontStretch {
    pub fn value(self) -> (r: i32)
        ensures
            r == spec_font_stretch_value(self),
    {
        match self {
            FontStretch::UltraCondensed => 1,
            FontStretch::ExtraCondensed => 2,
            FontStretch::Condensed => 3,
            FontStretch::SemiCondensed => 4,
            FontStretch::Normal => 5,
            FontStretch::Medium => 5,
            FontStretch::SemiExpanded => 6,
            FontStretch::Expanded => 7,
            FontStretch::ExtraExpanded => 8,
            FontStretch::UltraExpanded => 9,
            FontStretch::Custom(value) => value,
        }
    }
}

impl Default for FontStretch {
    fn default() -> (r: Self)
        ensures
            r == FontStretch::Normal,
    {
        FontStretch::Normal
    }
}

impl From<i32> for FontStretch {
    fn from(value: i32) -> (r: Self) {
        FontStretch::Custom(value)
    }
}

impl vstd::std_specs::convert::FromSpecImpl<i32> for FontStretch {
    open spec fn obeys_from_spec() -> bool {
        true
    }

    open spec fn from_spec(value: i32) -> Self {
        FontStretch::Custom(value)
    }
}

#[derive(Debug, Clone, PartialEq)]
pub struct TextProperty {
    pub text: String,
    pub font_size: u32,
    pub font_weight: FontWeight,
    pub position: Point,
    pub font_family: Option<String>,
    pub color: Color,
    pub font_style: FontStyle,
    pub font_stretch: FontStretch,
    pub width: Option<u32>,
    pub height: Option<u32>,
    pub line_height: Option<u32>,
    pub underline: bool,
}

impl TextProperty {
    /// Text is drawn with a solid brush, so the color must be solid.
    pub open spec fn wf(self) -> bool {
        self.color is SolidColor
    }
}

/// Mathematical image of a text run: strings become character sequences.
pub struct TextModel {
    pub text: Seq<char>,
    pub font_size: u32,
    pub font_weight: FontWeight,
    pub position: Point,
    pub font_family: Option<Seq<char>>,
    pub color: crate::color::ColorModel,
    pub font_style: FontStyle,
    pub font_stretch: FontStretch,
    pub width: Option<u32>,
    pub height: Option<u32>,
    pub line_height: Option<u32>,
    pub underline: bool,
}

impl View for TextProperty {
    type V = TextModel;

    open spec fn view(&self) -> TextModel {
        TextModel {
            text: self.text@,
            font_size: self.font_size,
            font_weight: self.font_weight,
            position: self.position,
            font_family: match &self.font_family {
                Some(f) => Some(f@),
                None => None,
            },
            color: self.color@,
            font_style: self.font_style,
            font_stretch: self.font_stretch,
            width: self.width,
            height: self.height,
            line_height: self.line_height,
            underline: self.underline,
        }
    }
}

} // verus!
