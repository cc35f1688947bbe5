use layered_canvas::color::{
    Color, GradientColor, GradientColorError, GradientStop, SolidColor,
};

fn grey() -> SolidColor {
    SolidColor::from_rgb(128, 128, 128)
}

fn stops(positions: &[u16]) -> GradientColor {
    let mut v: Vec<GradientStop> = Vec::new();
    for p in positions {
        v.push(GradientStop::new(grey(), *p));
    }
    GradientColor::new(v)
}

#[test]
fn valid_stop_list_constructs() {
    let gc = stops(&[300, 700]);
    assert_eq!(gc.check_sum(), Ok(()));
    assert_eq!(gc.check_positions(), Ok(()));
    assert_eq!(gc.check(), Ok(()));
}

#[test]
fn single_full_stop_is_valid() {
    let gc = stops(&[1000]);
    assert_eq!(gc.check(), Ok(()));
}

#[test]
fn non_ascending_list_fails() {
    // The sum is off too (900), and the sum check runs first.
    let gc = stops(&[500, 400]);
    assert_eq!(gc.check(), Err(GradientColorError::SumNotOne));
    assert_eq!(gc.check_positions(), Err(GradientColorError::NotAscending));
}

#[test]
fn sum_below_one_fails() {
    let gc = stops(&[300, 300]);
    assert_eq!(gc.check_sum(), Err(GradientColorError::SumNotOne));
    assert_eq!(gc.check(), Err(GradientColorError::SumNotOne));
}

#[test]
fn descending_with_correct_sum_fails_on_order() {
    let gc = stops(&[600, 400]);
    assert_eq!(gc.check_sum(), Ok(()));
    assert_eq!(gc.check(), Err(GradientColorError::NotAscending));
}

#[test]
fn first_stop_at_zero_is_accepted() {
    // Position zero lies on the gradient axis; only the order between
    // stops is constrained.
    let gc = stops(&[0, 1000]);
    assert_eq!(gc.check_positions(), Ok(()));
    assert_eq!(gc.check(), Ok(()));
}

#[test]
fn empty_stop_list_fails_on_sum() {
    let gc = stops(&[]);
    assert_eq!(gc.check(), Err(GradientColorError::SumNotOne));
}

#[test]
fn solid_color_channels() {
    let c = SolidColor::from_rgba(1, 2, 3, 4);
    assert_eq!((c.r, c.g, c.b, c.a), (1, 2, 3, 4));
    let c = SolidColor::from_rgb(9, 8, 7);
    assert_eq!((c.r, c.g, c.b, c.a), (9, 8, 7, 255));
}

#[test]
fn color_default_is_opaque_black() {
    let c = Color::default();
    assert_eq!(c, Color::SolidColor(SolidColor::from_rgba(0, 0, 0, 255)));
}

#[test]
fn color_from_channel_tuples() {
    assert_eq!(
        Color::from((1u8, 2u8, 3u8)),
        Color::SolidColor(SolidColor::from_rgb(1, 2, 3))
    );
    assert_eq!(
        Color::from((1u8, 2u8, 3u8, 4u8)),
        Color::SolidColor(SolidColor::from_rgba(1, 2, 3, 4))
    );
}

#[test]
fn gradient_color_as_slice_exposes_stops() {
    let gc = stops(&[300, 700]);
    let s = gc.as_slice();
    assert_eq!(s.len(), 2);
    assert_eq!(s[0].position, 300);
    assert_eq!(s[1].position, 700);
}
