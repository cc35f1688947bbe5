use layered_canvas::color::{Color, GradientColor, GradientStop, SolidColor};
use layered_canvas::brush::Brush;
use layered_canvas::context::ContextHolder;
use layered_canvas::gradient::LinearGradientProperty;
use layered_canvas::properties::{
    CircleProperty, EllipseProperty, FontStretch, FontStyle, FontWeight, LineProperty,
    RectProperty, TextProperty,
};
use layered_canvas::surface::BackendOp;
use layered_canvas::types::{Point, Rect, RectRound};

fn ops_tail(holder: &ContextHolder, n: usize) -> Vec<BackendOp> {
    let ops = holder.surface.ops();
    ops[ops.len() - n..].to_vec()
}

#[test]
fn starting_a_frame_brackets_and_clears() {
    let mut holder = ContextHolder::new();
    let ctx = holder.start_draw();
    assert_eq!(
        holder.surface.ops().as_slice(),
        &[
            BackendOp::BeginDraw,
            BackendOp::PushLayer { opacity: 1000 },
            BackendOp::Clear,
        ]
    );
    assert_eq!(holder.surface.layer_count(), 1);
    ctx.close(&mut holder.surface);
    assert_eq!(
        ops_tail(&holder, 3),
        vec![BackendOp::PopLayer, BackendOp::EndDraw, BackendOp::Present]
    );
    assert_eq!(holder.surface.layer_count(), 0);
}

#[test]
fn nested_scopes_restore_the_layer_stack() {
    // Opening and closing N nested sub-layer scopes with no draw calls
    // leaves the compositing stack exactly as it was.
    let mut holder = ContextHolder::new();
    let frame = holder.start_draw();
    let before = holder.surface.layer_count();
    let a = frame.new_layer(&mut holder.surface, 500);
    let b = a.new_layer(&mut holder.surface, 250);
    let c = b.new_layer(&mut holder.surface, 0);
    assert_eq!(holder.surface.layer_count(), before + 3);
    c.close(&mut holder.surface);
    b.close(&mut holder.surface);
    a.close(&mut holder.surface);
    assert_eq!(holder.surface.layer_count(), before);
    assert_eq!(
        ops_tail(&holder, 9),
        vec![
            BackendOp::PushLayer { opacity: 500 },
            BackendOp::Clear,
            BackendOp::PushLayer { opacity: 250 },
            BackendOp::Clear,
            BackendOp::PushLayer { opacity: 0 },
            BackendOp::Clear,
            BackendOp::PopLayer,
            BackendOp::PopLayer,
            BackendOp::PopLayer,
        ]
    );
    frame.close(&mut holder.surface);
    assert_eq!(holder.surface.layer_count(), 0);
}

#[test]
fn failed_draw_still_unwinds_in_order() {
    // A draw failure inside the doubly-nested scope: the unwind still pops
    // both layers and then attempts end-draw and present, in that order.
    let mut holder = ContextHolder::new();
    let frame = holder.start_draw();
    let inner = frame.new_layer(&mut holder.surface, 700);
    inner.draw_rect(
        &mut holder.surface,
        RectProperty {
            rect: Rect { left: 0, top: 0, right: 10, bottom: 10 },
            stroke_color: Some(SolidColor::from_rgb(1, 2, 3)),
            ..RectProperty::default()
        },
    );
    // The backend reports that executing the draw failed.
    holder.surface.note_draw_failure();
    assert!(holder.surface.is_faulted());
    let before = holder.surface.op_count();
    inner.close(&mut holder.surface);
    frame.close(&mut holder.surface);
    assert_eq!(holder.surface.op_count(), before + 4);
    assert_eq!(
        ops_tail(&holder, 4),
        vec![
            BackendOp::PopLayer,
            BackendOp::PopLayer,
            BackendOp::EndDraw,
            BackendOp::Present,
        ]
    );
    assert_eq!(holder.surface.layer_count(), 0);
    // The next frame starts cleanly.
    let next = holder.start_draw();
    assert!(!holder.surface.is_faulted());
    next.close(&mut holder.surface);
}

#[test]
fn resize_is_logged_between_frames() {
    let mut holder = ContextHolder::new();
    holder.resize();
    assert_eq!(holder.surface.ops().as_slice(), &[BackendOp::Resize]);
}

#[test]
fn stroke_and_fill_share_one_outline() {
    let mut holder = ContextHolder::new();
    let frame = holder.start_draw();
    frame.draw_rect(
        &mut holder.surface,
        RectProperty {
            rect: Rect { left: 0, top: 0, right: 100, bottom: 50 },
            stroke_color: Some(SolidColor::from_rgb(9, 9, 9)),
            fill_color: Some(Color::SolidColor(SolidColor::from_rgb(7, 7, 7))),
            stroke_width: 3,
            round: RectRound::new(10, 10, 10, 10),
        },
    );
    let tail = ops_tail(&holder, 2);
    match (&tail[0], &tail[1]) {
        (
            BackendOp::StrokePath { figure: stroke_fig, brush: stroke_brush, width },
            BackendOp::FillPath { figure: fill_fig, brush: fill_brush },
        ) => {
            assert_eq!(stroke_fig, fill_fig);
            assert_eq!(*width, 3);
            assert_eq!(stroke_brush, &Brush::SolidColor(SolidColor::from_rgb(9, 9, 9)));
            assert_eq!(fill_brush, &Brush::SolidColor(SolidColor::from_rgb(7, 7, 7)));
            assert_eq!(stroke_fig.segments.len(), 8);
        }
        other => panic!("expected stroke then fill, got {other:?}"),
    }
    frame.close(&mut holder.surface);
}

#[test]
fn gradient_fill_spans_the_rectangle() {
    let gradient = GradientColor::new(vec![
        GradientStop::new(SolidColor::from_rgb(255, 0, 0), 300),
        GradientStop::new(SolidColor::from_rgb(0, 0, 255), 700),
    ]);
    let mut holder = ContextHolder::new();
    let frame = holder.start_draw();
    frame.draw_rect(
        &mut holder.surface,
        RectProperty {
            rect: Rect { left: 0, top: 0, right: 100, bottom: 50 },
            fill_color: Some(Color::LinearGradient(gradient.clone(), 0)),
            ..RectProperty::default()
        },
    );
    let tail = ops_tail(&holder, 1);
    match &tail[0] {
        BackendOp::FillPath { brush: Brush::LinearGradient(stops, p), .. } => {
            assert_eq!(stops, &gradient);
            // Angle 0 runs bottom-to-top through the rectangle's center.
            assert_eq!(p.start, Point::new(50, 80));
            assert_eq!(p.end, Point::new(50, -30));
        }
        other => panic!("expected gradient fill, got {other:?}"),
    }
    frame.close(&mut holder.surface);
}

#[test]
fn line_uses_its_own_endpoints_as_gradient_axis() {
    let gradient = GradientColor::new(vec![
        GradientStop::new(SolidColor::from_rgb(0, 0, 0), 1000),
    ]);
    let mut holder = ContextHolder::new();
    let frame = holder.start_draw();
    frame.draw_line(
        &mut holder.surface,
        LineProperty {
            start: Point::new(1, 2),
            end: Point::new(30, 40),
            width: 2,
            color: Color::LinearGradient(gradient.clone(), 77),
        },
    );
    let tail = ops_tail(&holder, 1);
    assert_eq!(
        tail[0],
        BackendOp::StrokeLine {
            start: Point::new(1, 2),
            end: Point::new(30, 40),
            brush: Brush::LinearGradient(
                gradient,
                LinearGradientProperty::new(Point::new(1, 2), Point::new(30, 40)),
            ),
            width: 2,
        }
    );
    frame.close(&mut holder.surface);
}

#[test]
fn circle_draws_as_degenerate_ellipse() {
    let circle = CircleProperty {
        center: Point::new(10, 10),
        radius: 5,
        fill_color: Some(Color::SolidColor(SolidColor::from_rgb(1, 1, 1))),
        stroke_color: Some(SolidColor::from_rgb(2, 2, 2)),
        stroke_width: 1,
    };
    let mut holder = ContextHolder::new();
    let frame = holder.start_draw();
    frame.draw_circle(&mut holder.surface, circle.clone());
    let via_circle = ops_tail(&holder, 2);
    frame.draw_ellipse(&mut holder.surface, EllipseProperty::from(circle));
    let via_ellipse = ops_tail(&holder, 2);
    assert_eq!(via_circle, via_ellipse);
    match &via_circle[0] {
        BackendOp::StrokeEllipse { center, radius_x, radius_y, .. } => {
            assert_eq!(*center, Point::new(10, 10));
            assert_eq!((*radius_x, *radius_y), (5, 5));
        }
        other => panic!("expected ellipse stroke, got {other:?}"),
    }
    frame.close(&mut holder.surface);
}

#[test]
fn radial_fill_in_nested_scope() {
    let gradient = GradientColor::new(vec![
        GradientStop::new(SolidColor::from_rgb(0, 0, 0), 400),
        GradientStop::new(SolidColor::from_rgb(255, 255, 255), 600),
    ]);
    let mut holder = ContextHolder::new();
    let frame = holder.start_draw();
    let inner = frame.new_layer(&mut holder.surface, 800);
    inner.draw_ellipse(
        &mut holder.surface,
        EllipseProperty {
            center: Point::new(100, 200),
            radius_x: 40,
            radius_y: 20,
            fill_color: Some(Color::RadialGradient(gradient.clone())),
            stroke_color: None,
            stroke_width: 1,
        },
    );
    let tail = ops_tail(&holder, 1);
    match &tail[0] {
        BackendOp::FillEllipse { center, brush: Brush::RadialGradient(stops, p), .. } => {
            assert_eq!(*center, Point::new(100, 200));
            assert_eq!(stops, &gradient);
            assert_eq!(p.center, Point::new(100, 200));
            assert_eq!(p.offset, Point::new(0, 0));
            // Half the larger side of the 80 x 40 bounding box.
            assert_eq!((p.radius_x, p.radius_y), (40, 40));
        }
        other => panic!("expected a radial ellipse fill, got {other:?}"),
    }
    inner.close(&mut holder.surface);
    frame.close(&mut holder.surface);
}

#[test]
fn circle_to_ellipse_conversion_is_lossless() {
    let circle = CircleProperty {
        center: Point::new(-3, 8),
        radius: 11,
        fill_color: Some(Color::SolidColor(SolidColor::from_rgb(5, 6, 7))),
        stroke_color: Some(SolidColor::from_rgb(8, 9, 10)),
        stroke_width: 4,
    };
    let e = EllipseProperty::from(circle.clone());
    assert_eq!(e.radius_x, 11);
    assert_eq!(e.radius_y, 11);
    assert_eq!(e.center, circle.center);
    assert_eq!(e.fill_color, circle.fill_color);
    assert_eq!(e.stroke_color, circle.stroke_color);
    assert_eq!(e.stroke_width, circle.stroke_width);
}

#[test]
fn text_draws_with_a_solid_brush() {
    let text = TextProperty {
        text: String::from("hello"),
        font_size: 14,
        font_weight: FontWeight::Bold,
        position: Point::new(4, 5),
        font_family: None,
        color: Color::SolidColor(SolidColor::from_rgb(20, 30, 40)),
        font_style: FontStyle::Normal,
        font_stretch: FontStretch::Normal,
        width: None,
        height: None,
        line_height: None,
        underline: true,
    };
    let mut holder = ContextHolder::new();
    let frame = holder.start_draw();
    frame.draw_text(&mut holder.surface, text.clone());
    let tail = ops_tail(&holder, 1);
    assert_eq!(
        tail[0],
        BackendOp::DrawText {
            text,
            brush: Brush::SolidColor(SolidColor::from_rgb(20, 30, 40)),
        }
    );
    frame.close(&mut holder.surface);
}

#[test]
fn font_attribute_values_match_the_renderer_scale() {
    assert_eq!(FontWeight::Thin.value(), 100);
    assert_eq!(FontWeight::Normal.value(), 400);
    assert_eq!(FontWeight::Regular.value(), 400);
    assert_eq!(FontWeight::Bold.value(), 700);
    assert_eq!(FontWeight::UltraBlack.value(), 950);
    assert_eq!(FontWeight::from(425).value(), 425);
    assert_eq!(FontWeight::default(), FontWeight::Normal);
    assert_eq!(FontStyle::default().value(), 0);
    assert_eq!(FontStyle::Italic.value(), 2);
    assert_eq!(FontStretch::default().value(), 5);
    assert_eq!(FontStretch::Medium.value(), 5);
    assert_eq!(FontStretch::UltraExpanded.value(), 9);
    assert_eq!(FontStretch::from(3).value(), 3);
}
