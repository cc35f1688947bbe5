//! Colors: solid colors, gradient stop lists with their validity checks, and
//! the tagged color type that drawing properties carry.
//!
//! Channels are 8-bit; gradient stop positions are thousandths of the
//! normalized gradient axis.  A stop list is valid when its positions are
//! strictly ascending and sum to exactly one (1000 thousandths).  Working
//! in thousandths makes the sum check exact, where a floating-point
//! implementation would have to choose between bit-exact and epsilon
//! comparison.

use vstd::prelude::*;

verus! {

#[derive(Debug, Clone, Copy, PartialEq, Eq, Structural)]
pub struct SolidColor {
    pub r: u8,
    pub g: u8,
    pub b: u8,
    pub a: u8,
}

impl SolidColor {
    pub fn from_rgba(r: u8, g: u8, b: u8, a: u8) -> (c: Self)
        ensures
            c == (SolidColor { r, g, b, a }),
    {
        SolidColor { r, g, b, a }
    }

    pub fn from_rgb(r: u8, g: u8, b: u8) -> (c: Self)
        ensures
            c == (SolidColor { r, g, b, a: 255 }),
    {
        SolidColor { r, g, b, a: 255 }
    }
}

/// One gradient stop: a color at a position along the gradient axis, in
/// thousandths.
#[derive(Debug, Clone, Copy, PartialEq, Eq, Structural)]
pub struct GradientStop {
    pub color: SolidColor,
    pub position: u16,
}

impl GradientStop {
    pub fn new(color: SolidColor, position: u16) -> (s: Self)
        ensures
            s == (GradientStop { color, position }),
    {
        GradientStop { color, position }
    }
}

/// Sum of the stop positions, in thousandths.
pub open spec fn stops_sum(stops: Seq<GradientStop>) -> int
    decreases stops.len(),
{
    if stops.len() == 0 {
        0
    } else {
        stops_sum(stops.drop_last()) + stops.last().position
    }
}

/// The positions are strictly ascending.
pub open spec fn stops_ascending(stops: Seq<GradientStop>) -> bool {
    forall|i: int| 1 <= i < stops.len() ==> (#[trigger] stops[i].position) > stops[i - 1].position
}

/// A valid stop list: ascending positions whose sum is exactly one.
pub open spec fn stops_wf(stops: Seq<GradientStop>) -> bool {
    stops_sum(stops) == 1000 && stops_ascending(stops)
}

#[derive(Debug, Clone, Copy, PartialEq, Eq, Structural)]
pub enum GradientColorError {
    SumNotOne,
    NotAscending,
}

#[derive(Debug, PartialEq)]
pub struct GradientColor {
    pub stops: Vec<GradientStop>,
}

impl View for GradientColor {
    type V = Seq<GradientStop>;

    open spec fn view(&self) -> Seq<GradientStop> {
        self.stops@
    }
}

impl Clone for GradientColor {
    fn clone(&self) -> (r: Self)
        ensures
            r@ == self@,
    {
        let stops = self.stops.clone();
        proof {
            assert(stops@ =~= self.stops@);
        }
        GradientColor { stops }
    }
}

proof fn lemma_sum_take_one_more(stops: Seq<GradientStop>, i: int)
    requires
        0 <= i < stops.len(),
    ensures
        stops_sum(stops.take(i + 1)) == stops_sum(stops.take(i)) + stops[i].position,
{
    assert(stops.take(i + 1).drop_last() =~= stops.take(i));
    assert(stops.take(i + 1).last() == stops[i]);
}

/// Positions are unsigned, so the sum over a prefix never exceeds the sum
/// over the whole list.
proof fn lemma_sum_prefix_le(stops: Seq<GradientStop>, i: int)
    requires
        0 <= i <= stops.len(),
    ensures
        stops_sum(stops.take(i)) <= stops_sum(stops),
    decreases stops.len() - i,
{
    if i < stops.len() {
        lemma_sum_take_one_more(stops, i);
        lemma_sum_prefix_le(stops, i + 1);
    } else {
        assert(stops.take(i) =~= stops);
    }
}

impl GradientColor {
    pub fn new(stops: Vec<GradientStop>) -> (c: Self)
        ensures
            c.stops == stops,
    {
        Self { stops }
    }

    /// Full validity check: the sum check runs first, so an invalid sum is
    /// reported even when the positions are also out of order.
    pub fn check(&self) -> (r: Result<(), GradientColorError>)
        ensures
            r is Ok <==> stops_wf(self@),
            stops_sum(self@) != 1000 ==> r == Result::<(), GradientColorError>::Err(
                GradientColorError::SumNotOne,
            ),
            stops_sum(self@) == 1000 && !stops_ascending(self@) ==> r == Result::<
                (),
                GradientColorError,
            >::Err(GradientColorError::NotAscending),
    {
        match self.check_sum() {
            Ok(_) => self.check_positions(),
            Err(e) => Err(e),
        }
    }

    /// Checks that the positions sum to exactly one (1000 thousandths).
    pub fn check_sum(&self) -> (r: Result<(), GradientColorError>)
        ensures
            r is Ok <==> stops_sum(self@) == 1000,
            r is Err ==> r == Result::<(), GradientColorError>::Err(GradientColorError::SumNotOne),
    {
        let n: usize = self.stops.len();
        let mut acc: u32 = 0;
        let mut i: usize = 0;
        while i < n
            invariant
                n == self@.len(),
                0 <= i <= n,
                acc == stops_sum(self@.take(i as int)),
                acc <= 1000,
            decreases n - i,
        {
            let pos: u16 = self.stops[i].position;
            proof {
                lemma_sum_take_one_more(self@, i as int);
            }
            if acc + pos as u32 > 1000 {
                proof {
                    lemma_sum_prefix_le(self@, i as int + 1);
                }
                return Err(GradientColorError::SumNotOne);
            }
            acc = acc + pos as u32;
            i = i + 1;
        }
        proof {
            assert(self@.take(n as int) =~= self@);
        }
        if acc == 1000 {
            Ok(())
        } else {
            Err(GradientColorError::SumNotOne)
        }
    }

    /// Checks that the positions are strictly ascending: each stop after
    /// the first must lie strictly beyond its predecessor.
    pub fn check_positions(&self) -> (r: Result<(), GradientColorError>)
        ensures
            r is Ok <==> stops_ascending(self@),
            r is Err ==> r == Result::<(), GradientColorError>::Err(
                GradientColorError::NotAscending,
            ),
    {
        let n: usize = self.stops.len();
        let mut i: usize = 1;
        while i < n
            invariant
                n == self@.len(),
                1 <= i,
                forall|j: int| 1 <= j < i ==> (#[trigger] self@[j].position) > self@[j - 1].position,
            decreases n - i,
        {
            let pos: u16 = self.stops[i].position;
            let prev: u16 = self.stops[i - 1].position;
            if pos <= prev {
                return Err(GradientColorError::NotAscending);
            }
            i = i + 1;
        }
        Ok(())
    }

    pub fn as_slice(&self) -> (r: &[GradientStop])
        ensures
            r@ == self@,
    {
        self.stops.as_slice()
    }
}

/// The color of a shape: solid, or a gradient with its stop list (and, for
/// linear gradients, the gradient angle in whole degrees).
#[derive(Debug, PartialEq)]
pub enum Color {
    SolidColor(SolidColor),
    LinearGradient(GradientColor, i64),
    RadialGradient(GradientColor),
}

/// Mathematical image of a `Color`: the stop list becomes a sequence.
pub enum ColorModel {
    Solid(SolidColor),
    Linear(Seq<GradientStop>, i64),
    Radial(Seq<GradientStop>),
}

impl View for Color {
    type V = ColorModel;

    open spec fn view(&self) -> ColorModel {
        match self {
            Color::SolidColor(c) => ColorModel::Solid(*c),
            Color::LinearGradient(gc, angle) => ColorModel::Linear(gc@, *angle),
            Color::RadialGradient(gc) => ColorModel::Radial(gc@),
        }
    }
}

impl Clone for Color {
    fn clone(&self) -> (r: Self)
        ensures
            r@ == self@,
    {
        match self {
            Color::SolidColor(c) => Color::SolidColor(*c),
            Color::LinearGradient(gc, angle) => Color::LinearGradient(gc.clone(), *angle),
            Color::RadialGradient(gc) => Color::RadialGradient(gc.clone()),
        }
    }
}

/// Any gradient carried by the color is a valid stop list.
pub open spec fn color_model_wf(c: ColorModel) -> bool {
    match c {
        ColorModel::Solid(_) => true,
        ColorModel::Linear(stops, _) => stops_wf(stops),
        ColorModel::Radial(stops) => stops_wf(stops),
    }
}

impl Color {
    /// Any gradient carried by the color is a valid stop list.
    pub open spec fn wf(self) -> bool {
        color_model_wf(self@)
    }
}

impl Default for Color {
    fn default() -> (c: Self)
        ensures
            c == Color::SolidColor(SolidColor { r: 0, g: 0, b: 0, a: 255 }),
    {
        Color::SolidColor(SolidColor { r: 0, g: 0, b: 0, a: 255 })
    }
}

impl From<SolidColor> for Color {
    fn from(color: SolidColor) -> (c: Self) {
        Color::SolidColor(color)
    }
}

impl vstd::std_specs::convert::FromSpecImpl<SolidColor> for Color {
    open spec fn obeys_from_spec() -> bool {
        true
    }

    open spec fn from_spec(color: SolidColor) -> Self {
        Color::SolidColor(color)
    }
}

impl From<(u8, u8, u8)> for Color {
    fn from(color: (u8, u8, u8)) -> (c: Self) {
        let (r, g, b) = color;
        Color::SolidColor(SolidColor { r, g, b, a: 255 })
    }
}

impl vstd::std_specs::convert::FromSpecImpl<(u8, u8, u8)> for Color {
    open spec fn obeys_from_spec() -> bool {
        true
    }

    open spec fn from_spec(color: (u8, u8, u8)) -> Self {
        Color::SolidColor(SolidColor { r: color.0, g: color.1, b: color.2, a: 255 })
    }
}

impl From<(u8, u8, u8, u8)> for Color {
    fn from(color: (u8, u8, u8, u8)) -> (c: Self) {
        let (r, g, b, a) = color;
        Color::SolidColor(SolidColor { r, g, b, a })
    }
}

impl vstd::std_specs::convert::FromSpecImpl<(u8, u8, u8, u8)> for Color {
    open spec fn obeys_from_spec() -> bool {
        true
    }

    open spec fn from_spec(color: (u8, u8, u8, u8)) -> Self {
        Color::SolidColor(SolidColor { r: color.0, g: color.1, b: color.2, a: color.3 })
    }
}

} // verus!
