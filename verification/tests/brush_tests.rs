use layered_canvas::brush::{create_brush, Brush, BrushError};
use layered_canvas::color::{Color, GradientColor, GradientStop, SolidColor};
use layered_canvas::gradient::{
    build_gradient_color_property, GradientColorProperty, LinearGradientProperty,
    RadialGradientProperty,
};
use layered_canvas::types::Point;

fn gradient() -> GradientColor {
    GradientColor::new(vec![
        GradientStop::new(SolidColor::from_rgb(255, 0, 0), 300),
        GradientStop::new(SolidColor::from_rgb(0, 255, 0), 700),
    ])
}

#[test]
fn solid_color_ignores_descriptor() {
    let c = SolidColor::from_rgb(10, 20, 30);
    let r = create_brush(Color::SolidColor(c), GradientColorProperty::NoGradient);
    assert_eq!(r, Ok(Brush::SolidColor(c)));
    let p = RadialGradientProperty::new_circle(Point::new(0, 0), Point::new(0, 0), 5);
    let r = create_brush(
        Color::SolidColor(c),
        GradientColorProperty::RadialGradient(p),
    );
    assert_eq!(r, Ok(Brush::SolidColor(c)));
}

#[test]
fn matching_linear_pairing_resolves() {
    let p = LinearGradientProperty::new(Point::new(0, 0), Point::new(10, 10));
    let r = create_brush(
        Color::LinearGradient(gradient(), 45),
        GradientColorProperty::LinearGradient(p),
    );
    assert_eq!(r, Ok(Brush::LinearGradient(gradient(), p)));
}

#[test]
fn matching_radial_pairing_resolves() {
    let p = RadialGradientProperty::new(Point::new(3, 4), Point::new(0, 0), 7, 9);
    let r = create_brush(
        Color::RadialGradient(gradient()),
        GradientColorProperty::RadialGradient(p),
    );
    assert_eq!(r, Ok(Brush::RadialGradient(gradient(), p)));
}

#[test]
fn mismatched_pairings_are_rejected() {
    let lp = LinearGradientProperty::new(Point::new(0, 0), Point::new(1, 1));
    let rp = RadialGradientProperty::new_circle(Point::new(0, 0), Point::new(0, 0), 1);
    let r = create_brush(
        Color::LinearGradient(gradient(), 0),
        GradientColorProperty::RadialGradient(rp),
    );
    assert_eq!(r, Err(BrushError::UnsupportedCombination));
    let r = create_brush(
        Color::LinearGradient(gradient(), 0),
        GradientColorProperty::NoGradient,
    );
    assert_eq!(r, Err(BrushError::UnsupportedCombination));
    let r = create_brush(
        Color::RadialGradient(gradient()),
        GradientColorProperty::LinearGradient(lp),
    );
    assert_eq!(r, Err(BrushError::UnsupportedCombination));
    let r = create_brush(
        Color::RadialGradient(gradient()),
        GradientColorProperty::NoGradient,
    );
    assert_eq!(r, Err(BrushError::UnsupportedCombination));
}

#[test]
fn descriptor_built_from_same_color_always_matches() {
    let p1 = Point::new(0, 0);
    let p2 = Point::new(64, 64);
    for color in [
        Color::SolidColor(SolidColor::from_rgb(1, 1, 1)),
        Color::LinearGradient(gradient(), 123),
        Color::RadialGradient(gradient()),
    ] {
        let property = build_gradient_color_property(&color, p1, p2);
        assert!(create_brush(color, property).is_ok());
    }
}
