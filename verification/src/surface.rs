//! The shared drawing surface, modeled as a stack of compositing layers and
//! an append-only log of the commands handed to the rendering backend.
//!
//! Every operation is a pure state transition: opening a layer pushes its
//! opacity and logs a push-and-clear, closing pops exactly one layer and
//! logs one pop, and the draw calls resolve their colors into brushes and
//! log the resulting stroke/fill commands without touching the layer stack.
//! The backend (which executes the log) reports a draw failure through
//! `note_draw_failure`; a faulted frame accepts no further draw calls, but
//! layer bookkeeping is unaffected, so the unwind of open scopes always
//! balances the stack.

use vstd::prelude::*;

use crate::brush::{create_brush, spec_create_brush, Brush, BrushError, BrushModel};
use crate::color::{Color, ColorModel, SolidColor};
use crate::gradient::{
    build_gradient_color_property, spec_build_gradient_color_property, GradientColorProperty,
    LinearGradientProperty,
};
use crate::outline::{create_react_shape, spec_react_shape, FigureModel, PathFigure};
use crate::properties::{
    spec_ellipse_from_circle, CircleProperty, EllipseProperty, LineProperty, RectProperty,
    TextModel, TextProperty,
};
use crate::types::{create_point, Point};

verus! {

/// One command for the rendering backend, in the order the backend must
/// execute them.
#[derive(Debug, Clone, PartialEq)]
pub enum BackendOp {
    BeginDraw,
    PushLayer { opacity: u16 },
    Clear,
    PopLayer,
    EndDraw,
    Present,
    Resize,
    StrokeLine { start: Point, end: Point, brush: Brush, width: i64 },
    StrokePath { figure: PathFigure, brush: Brush, width: i64 },
    FillPath { figure: PathFigure, brush: Brush },
    StrokeEllipse { center: Point, radius_x: i64, radius_y: i64, brush: Brush, width: i64 },
    FillEllipse { center: Point, radius_x: i64, radius_y: i64, brush: Brush },
    DrawText { text: TextProperty, brush: Brush },
}

/// Mathematical image of a backend command.
pub enum OpModel {
    BeginDraw,
    PushLayer { opacity: u16 },
    Clear,
    PopLayer,
    EndDraw,
    Present,
    Resize,
    StrokeLine { start: Point, end: Point, brush: BrushModel, width: i64 },
    StrokePath { figure: FigureModel, brush: BrushModel, width: i64 },
    FillPath { figure: FigureModel, brush: BrushModel },
    StrokeEllipse { center: Point, radius_x: i64, radius_y: i64, brush: BrushModel, width: i64 },
    FillEllipse { center: Point, radius_x: i64, radius_y: i64, brush: BrushModel },
    DrawText { text: TextModel, brush: BrushModel },
}

impl View for BackendOp {
    type V = OpModel;

    open spec fn view(&self) -> OpModel {
        match self {
            BackendOp::BeginDraw => OpModel::BeginDraw,
            BackendOp::PushLayer { opacity } => OpModel::PushLayer { opacity: *opacity },
            BackendOp::Clear => OpModel::Clear,
            BackendOp::PopLayer => OpModel::PopLayer,
            BackendOp::EndDraw => OpModel::EndDraw,
            BackendOp::Present => OpModel::Present,
            BackendOp::Resize => OpModel::Resize,
            BackendOp::StrokeLine { start, end, brush, width } => OpModel::StrokeLine {
                start: *start,
                end: *end,
                brush: brush@,
                width: *width,
            },
            BackendOp::StrokePath { figure, brush, width } => OpModel::StrokePath {
                figure: figure@,
                brush: brush@,
                width: *width,
            },
            BackendOp::FillPath { figure, brush } => OpModel::FillPath {
                figure: figure@,
                brush: brush@,
            },
            BackendOp::StrokeEllipse { center, radius_x, radius_y, brush, width } => {
                OpModel::StrokeEllipse {
                    center: *center,
                    radius_x: *radius_x,
                    radius_y: *radius_y,
                    brush: brush@,
                    width: *width,
                }
            },
            BackendOp::FillEllipse { center, radius_x, radius_y, brush } => {
                OpModel::FillEllipse {
                    center: *center,
                    radius_x: *radius_x,
                    radius_y: *radius_y,
                    brush: brush@,
                }
            },
            BackendOp::DrawText { text, brush } => OpModel::DrawText {
                text: text@,
                brush: brush@,
            },
        }
    }
}

/// The command log seen mathematically.
pub open spec fn ops_model(ops: Seq<BackendOp>) -> Seq<OpModel> {
    ops.map_values(|op: BackendOp| op@)
}

/// The abstract state of a surface: the opacities of the open layers
/// (bottom first), everything logged for the backend so far, and whether a
/// draw of the current frame has failed.
#[verifier::ext_equal]
pub struct SurfaceModel {
    pub layers: Seq<u16>,
    pub ops: Seq<OpModel>,
    pub fault: bool,
}

impl SurfaceModel {
    /// A frame is in progress whenever at least one layer is open.
    pub open spec fn frame_active(self) -> bool {
        self.layers.len() > 0
    }

    /// Draw calls are accepted only inside a frame that has not faulted.
    pub open spec fn can_draw(self) -> bool {
        self.frame_active() && !self.fault
    }
}

/// Starting a draw pass: logged, and any fault of an earlier frame is
/// forgotten.
pub open spec fn spec_begin_draw(s: SurfaceModel) -> SurfaceModel {
    SurfaceModel { layers: s.layers, ops: s.ops.push(OpModel::BeginDraw), fault: false }
}

/// Opening a layer pushes its opacity and logs a push followed by the
/// implicit clear of the fresh layer.
pub open spec fn spec_create_layer(s: SurfaceModel, opacity: u16) -> SurfaceModel {
    SurfaceModel {
        layers: s.layers.push(opacity),
        ops: s.ops + seq![OpModel::PushLayer { opacity }, OpModel::Clear],
        fault: s.fault,
    }
}

/// Closing a layer pops exactly the topmost one and logs one pop.
pub open spec fn spec_exit_layer(s: SurfaceModel) -> SurfaceModel {
    SurfaceModel {
        layers: s.layers.drop_last(),
        ops: s.ops.push(OpModel::PopLayer),
        fault: s.fault,
    }
}

pub open spec fn spec_end_draw(s: SurfaceModel) -> SurfaceModel {
    SurfaceModel { layers: s.layers, ops: s.ops.push(OpModel::EndDraw), fault: s.fault }
}

pub open spec fn spec_present(s: SurfaceModel) -> SurfaceModel {
    SurfaceModel { layers: s.layers, ops: s.ops.push(OpModel::Present), fault: s.fault }
}

pub open spec fn spec_resize(s: SurfaceModel) -> SurfaceModel {
    SurfaceModel { layers: s.layers, ops: s.ops.push(OpModel::Resize), fault: s.fault }
}

/// The backend reported a failed draw: the frame is marked faulted and
/// nothing else changes.
pub open spec fn spec_note_failure(s: SurfaceModel) -> SurfaceModel {
    SurfaceModel { layers: s.layers, ops: s.ops, fault: true }
}

/// A draw call only appends its commands; layers and fault are untouched.
pub open spec fn spec_record_draw(s: SurfaceModel, draw_ops: Seq<OpModel>) -> SurfaceModel {
    SurfaceModel { layers: s.layers, ops: s.ops + draw_ops, fault: s.fault }
}

/// The brush a fill color resolves to against the bounding box `p1`..`p2`.
/// The mismatch arm can never be taken for a descriptor built from the same
/// color (`lemma_brush_resolution_total`); it is given a harmless value.
pub open spec fn spec_resolved_fill_brush(color: ColorModel, p1: Point, p2: Point) -> BrushModel {
    match spec_create_brush(color, spec_build_gradient_color_property(color, p1, p2)) {
        Ok(b) => b,
        Err(_) => BrushModel::Solid(SolidColor { r: 0, g: 0, b: 0, a: 0 }),
    }
}

/// A line's brush: its own endpoints serve as the gradient axis; a radial
/// color is rejected before drawing, so that arm is never reached.
pub open spec fn spec_line_brush(p: LineProperty) -> BrushModel {
    match p.color@ {
        ColorModel::Solid(c) => BrushModel::Solid(c),
        ColorModel::Linear(stops, _) => BrushModel::Linear(
            stops,
            LinearGradientProperty { start: p.start, end: p.end },
        ),
        ColorModel::Radial(_) => BrushModel::Solid(SolidColor { r: 0, g: 0, b: 0, a: 0 }),
    }
}

/// Commands of one line draw.
pub open spec fn spec_line_ops(p: LineProperty) -> Seq<OpModel> {
    seq![
        OpModel::StrokeLine {
            start: p.start,
            end: p.end,
            brush: spec_line_brush(p),
            width: p.width,
        },
    ]
}

/// Commands of one rectangle draw: the stroke (if any) and the fill (if
/// any) both use the same rounded outline, so they render identical shapes.
pub open spec fn spec_rect_ops(p: RectProperty) -> Seq<OpModel> {
    let figure = spec_react_shape(p.rect, p.round);
    let stroke: Seq<OpModel> = match p.stroke_color {
        Some(c) => seq![
            OpModel::StrokePath { figure, brush: BrushModel::Solid(c), width: p.stroke_width },
        ],
        None => seq![],
    };
    let fill: Seq<OpModel> = match p.fill_color {
        Some(color) => seq![
            OpModel::FillPath {
                figure,
                brush: spec_resolved_fill_brush(
                    color@,
                    Point { x: p.rect.left, y: p.rect.top },
                    Point { x: p.rect.right, y: p.rect.bottom },
                ),
            },
        ],
        None => seq![],
    };
    stroke + fill
}

/// Commands of one ellipse draw; the fill gradient's bounding box is the
/// ellipse's own.
pub open spec fn spec_ellipse_ops(p: EllipseProperty) -> Seq<OpModel> {
    let stroke: Seq<OpModel> = match p.stroke_color {
        Some(c) => seq![
            OpModel::StrokeEllipse {
                center: p.center,
                radius_x: p.radius_x,
                radius_y: p.radius_y,
                brush: BrushModel::Solid(c),
                width: p.stroke_width,
            },
        ],
        None => seq![],
    };
    let fill: Seq<OpModel> = match p.fill_color {
        Some(color) => seq![
            OpModel::FillEllipse {
                center: p.center,
                radius_x: p.radius_x,
                radius_y: p.radius_y,
                brush: spec_resolved_fill_brush(
                    color@,
                    Point {
                        x: (p.center.x - p.radius_x) as i64,
                        y: (p.center.y - p.radius_y) as i64,
                    },
                    Point {
                        x: (p.center.x + p.radius_x) as i64,
                        y: (p.center.y + p.radius_y) as i64,
                    },
                ),
            },
        ],
        None => seq![],
    };
    stroke + fill
}

/// A circle draws as its degenerate ellipse.
pub open spec fn spec_circle_ops(p: CircleProperty) -> Seq<OpModel> {
    spec_ellipse_ops(spec_ellipse_from_circle(p))
}

/// Commands of one text draw: text is drawn with a solid brush.
pub open spec fn spec_text_ops(p: TextProperty) -> Seq<OpModel> {
    let brush = match p.color@ {
        ColorModel::Solid(c) => BrushModel::Solid(c),
        _ => BrushModel::Solid(SolidColor { r: 0, g: 0, b: 0, a: 0 }),
    };
    seq![OpModel::DrawText { text: p@, brush }]
}

/// The shared rendering surface: the layer stack, the command log and the
/// fault flag.  All mutation goes through the scoped-context protocol.
#[derive(Debug)]
pub struct Surface {
    layers: Vec<u16>,
    ops: Vec<BackendOp>,
    fault: bool,
}

impl View for Surface {
    type V = SurfaceModel;

    closed spec fn view(&self) -> SurfaceModel {
        SurfaceModel { layers: self.layers@, ops: ops_model(self.ops@), fault: self.fault }
    }
}

proof fn lemma_ops_model_push(ops: Seq<BackendOp>, op: BackendOp)
    ensures
        ops_model(ops.push(op)) == ops_model(ops).push(op@),
{
    assert(ops_model(ops.push(op)) =~= ops_model(ops).push(op@));
}

impl Surface {
    pub(crate) fn new() -> (s: Self)
        ensures
            s@.layers == Seq::<u16>::empty(),
            s@.ops == Seq::<OpModel>::empty(),
            !s@.fault,
    {
        let s = Surface { layers: Vec::new(), ops: Vec::new(), fault: false };
        proof {
            assert(ops_model(s.ops@) =~= Seq::<OpModel>::empty());
        }
        s
    }

    /// How many layers are currently open.
    pub fn layer_count(&self) -> (n: usize)
        ensures
            n == self@.layers.len(),
    {
        self.layers.len()
    }

    /// How many backend commands have been logged.
    pub fn op_count(&self) -> (n: usize)
        ensures
            n == self@.ops.len(),
    {
        self.ops.len()
    }

    /// The backend command log, oldest first.
    pub fn ops(&self) -> (r: &Vec<BackendOp>)
        ensures
            ops_model(r@) == self@.ops,
    {
        &self.ops
    }

    /// Whether a draw of the current frame has failed.
    pub fn is_faulted(&self) -> (r: bool)
        ensures
            r == self@.fault,
    {
        self.fault
    }

    /// The backend reports that executing a draw command failed.  The frame
    /// accepts no further draws, but open layers still unwind normally.
    pub fn note_draw_failure(&mut self)
        requires
            old(self)@.frame_active(),
        ensures
            final(self)@ == spec_note_failure(old(self)@),
    {
        self.fault = true;
    }

    pub(crate) fn begin_draw(&mut self)
        requires
            !old(self)@.frame_active(),
        ensures
            final(self)@ == spec_begin_draw(old(self)@),
    {
        proof {
            lemma_ops_model_push(self.ops@, BackendOp::BeginDraw);
        }
        self.ops.push(BackendOp::BeginDraw);
        self.fault = false;
    }

    pub(crate) fn create_layer(&mut self, opacity: u16)
        requires
            opacity <= 1000,
        ensures
            final(self)@ == spec_create_layer(old(self)@, opacity),
    {
        self.ops.push(BackendOp::PushLayer { opacity });
        self.ops.push(BackendOp::Clear);
        self.layers.push(opacity);
        proof {
            assert(ops_model(self.ops@) =~= old(self)@.ops + seq![
                OpModel::PushLayer { opacity },
                OpModel::Clear,
            ]);
            assert(final(self)@ =~= spec_create_layer(old(self)@, opacity));
        }
    }

    pub(crate) fn exit_layer(&mut self)
        requires
            old(self)@.frame_active(),
        ensures
            final(self)@ == spec_exit_layer(old(self)@),
    {
        proof {
            lemma_ops_model_push(self.ops@, BackendOp::PopLayer);
        }
        self.ops.push(BackendOp::PopLayer);
        self.layers.pop();
    }

    pub(crate) fn end_draw(&mut self)
        ensures
            final(self)@ == spec_end_draw(old(self)@),
    {
        proof {
            lemma_ops_model_push(self.ops@, BackendOp::EndDraw);
        }
        self.ops.push(BackendOp::EndDraw);
    }

    pub(crate) fn present(&mut self)
        ensures
            final(self)@ == spec_present(old(self)@),
    {
        proof {
            lemma_ops_model_push(self.ops@, BackendOp::Present);
        }
        self.ops.push(BackendOp::Present);
    }

    /// Recreating the presentable target; never during a frame.
    pub(crate) fn resize(&mut self)
        requires
            !old(self)@.frame_active(),
        ensures
            final(self)@ == spec_resize(old(self)@),
    {
        proof {
            lemma_ops_model_push(self.ops@, BackendOp::Resize);
        }
        self.ops.push(BackendOp::Resize);
    }

    pub(crate) fn draw_line(&mut self, p: LineProperty)
        requires
            old(self)@.can_draw(),
            p.wf(),
            !(p.color is RadialGradient),
        ensures
            final(self)@ == spec_record_draw(old(self)@, spec_line_ops(p)),
    {
        let ghost p0 = p;
        let start = p.start;
        let end = p.end;
        let width = p.width;
        let property = LinearGradientProperty::new(p.start, p.end);
        match create_brush(p.color, GradientColorProperty::LinearGradient(property)) {
            Ok(brush) => {
                proof {
                    lemma_ops_model_push(
                        self.ops@,
                        BackendOp::StrokeLine { start, end, brush, width },
                    );
                }
                self.ops.push(BackendOp::StrokeLine { start, end, brush, width });
                proof {
                    assert(final(self)@ =~= spec_record_draw(old(self)@, spec_line_ops(p0)));
                }
            },
            Err(_) => {
                proof {
                    assert(false);
                }
            },
        }
    }

    pub(crate) fn draw_rect(&mut self, p: RectProperty)
        requires
            old(self)@.can_draw(),
            p.wf(),
        ensures
            final(self)@ == spec_record_draw(old(self)@, spec_rect_ops(p)),
    {
        let ghost p0 = p;
        match p.stroke_color {
            Some(c) => {
                let figure = create_react_shape(p.rect, p.round);
                match create_brush(
                    Color::SolidColor(c),
                    GradientColorProperty::NoGradient,
                ) {
                    Ok(brush) => {
                        proof {
                            lemma_ops_model_push(
                                self.ops@,
                                BackendOp::StrokePath { figure, brush, width: p.stroke_width },
                            );
                        }
                        let width = p.stroke_width;
                        self.ops.push(BackendOp::StrokePath { figure, brush, width });
                    },
                    Err(_) => {
                        proof {
                            assert(false);
                        }
                    },
                }
            },
            None => {},
        }
        match p.fill_color {
            Some(color) => {
                let figure = create_react_shape(p.rect, p.round);
                let corner1 = create_point(p.rect.left, p.rect.top);
                let corner2 = create_point(p.rect.right, p.rect.bottom);
                let property = build_gradient_color_property(&color, corner1, corner2);
                proof {
                    crate::brush::lemma_brush_resolution_total(color@, corner1, corner2);
                }
                match create_brush(color, property) {
                    Ok(brush) => {
                        proof {
                            lemma_ops_model_push(
                                self.ops@,
                                BackendOp::FillPath { figure, brush },
                            );
                        }
                        self.ops.push(BackendOp::FillPath { figure, brush });
                    },
                    Err(_) => {
                        proof {
                            assert(false);
                        }
                    },
                }
            },
            None => {},
        }
        proof {
            assert(final(self)@ =~= spec_record_draw(old(self)@, spec_rect_ops(p0)));
        }
    }

    pub(crate) fn draw_circle(&mut self, p: CircleProperty)
        requires
            old(self)@.can_draw(),
            p.wf(),
        ensures
            final(self)@ == spec_record_draw(old(self)@, spec_circle_ops(p)),
    {
        self.draw_ellipse(EllipseProperty::from(p));
    }

    pub(crate) fn draw_ellipse(&mut self, p: EllipseProperty)
        requires
            old(self)@.can_draw(),
            p.wf(),
        ensures
            final(self)@ == spec_record_draw(old(self)@, spec_ellipse_ops(p)),
    {
        let ghost p0 = p;
        let center = p.center;
        let radius_x = p.radius_x;
        let radius_y = p.radius_y;
        match p.stroke_color {
            Some(c) => {
                match create_brush(
                    Color::SolidColor(c),
                    GradientColorProperty::NoGradient,
                ) {
                    Ok(brush) => {
                        proof {
                            lemma_ops_model_push(
                                self.ops@,
                                BackendOp::StrokeEllipse {
                                    center,
                                    radius_x,
                                    radius_y,
                                    brush,
                                    width: p.stroke_width,
                                },
                            );
                        }
                        let width = p.stroke_width;
                        self.ops.push(
                            BackendOp::StrokeEllipse { center, radius_x, radius_y, brush, width },
                        );
                    },
                    Err(_) => {
                        proof {
                            assert(false);
                        }
                    },
                }
            },
            None => {},
        }
        match p.fill_color {
            Some(color) => {
                let corner1 = create_point(center.x - radius_x, center.y - radius_y);
                let corner2 = create_point(center.x + radius_x, center.y + radius_y);
                let property = build_gradient_color_property(&color, corner1, corner2);
                proof {
                    crate::brush::lemma_brush_resolution_total(color@, corner1, corner2);
                }
                match create_brush(color, property) {
                    Ok(brush) => {
                        proof {
                            lemma_ops_model_push(
                                self.ops@,
                                BackendOp::FillEllipse { center, radius_x, radius_y, brush },
                            );
                        }
                        self.ops.push(
                            BackendOp::FillEllipse { center, radius_x, radius_y, brush },
                        );
                    },
                    Err(_) => {
                        proof {
                            assert(false);
                        }
                    },
                }
            },
            None => {},
        }
        proof {
            assert(final(self)@ =~= spec_record_draw(old(self)@, spec_ellipse_ops(p0)));
        }
    }

    pub(crate) fn draw_text(&mut self, p: TextProperty)
        requires
            old(self)@.can_draw(),
            p.wf(),
        ensures
            final(self)@ == spec_record_draw(old(self)@, spec_text_ops(p)),
    {
        let ghost p0 = p;
        let color = p.color.clone();
        match create_brush(color, GradientColorProperty::NoGradient) {
            Ok(brush) => {
                proof {
                    lemma_ops_model_push(self.ops@, BackendOp::DrawText { text: p, brush });
                }
                self.ops.push(BackendOp::DrawText { text: p, brush });
                proof {
                    assert(final(self)@ =~= spec_record_draw(old(self)@, spec_text_ops(p0)));
                }
            },
            Err(_) => {
                proof {
                    assert(false);
                }
            },
        }
    }
}

/// `n` nested layer scopes opened over `s`, innermost last.
pub open spec fn spec_open_n(s: SurfaceModel, opacity: u16, n: nat) -> SurfaceModel
    decreases n,
{
    if n == 0 {
        s
    } else {
        spec_create_layer(spec_open_n(s, opacity, (n - 1) as nat), opacity)
    }
}

/// `n` layer scopes closed over `s`, innermost first.
pub open spec fn spec_close_n(s: SurfaceModel, n: nat) -> SurfaceModel
    decreases n,
{
    if n == 0 {
        s
    } else {
        spec_close_n(spec_exit_layer(s), (n - 1) as nat)
    }
}

/// The commands logged by opening `n` layer scopes: a push and a clear for
/// each.
pub open spec fn spec_open_n_ops(opacity: u16, n: nat) -> Seq<OpModel>
    decreases n,
{
    if n == 0 {
        Seq::empty()
    } else {
        spec_open_n_ops(opacity, (n - 1) as nat) + seq![
            OpModel::PushLayer { opacity },
            OpModel::Clear,
        ]
    }
}

/// The commands logged by closing `n` layer scopes: one pop for each.
pub open spec fn spec_close_n_ops(n: nat) -> Seq<OpModel>
    decreases n,
{
    if n == 0 {
        Seq::empty()
    } else {
        seq![OpModel::PopLayer] + spec_close_n_ops((n - 1) as nat)
    }
}

proof fn lemma_open_n_ops(s: SurfaceModel, opacity: u16, n: nat)
    ensures
        spec_open_n(s, opacity, n).ops == s.ops + spec_open_n_ops(opacity, n),
    decreases n,
{
    if n == 0 {
        assert(s.ops + spec_open_n_ops(opacity, 0) =~= s.ops);
    } else {
        lemma_open_n_ops(s, opacity, (n - 1) as nat);
        assert((s.ops + spec_open_n_ops(opacity, (n - 1) as nat)) + seq![
            OpModel::PushLayer { opacity },
            OpModel::Clear,
        ] =~= s.ops + spec_open_n_ops(opacity, n));
    }
}

proof fn lemma_close_n_ops(s: SurfaceModel, n: nat)
    ensures
        spec_close_n(s, n).ops == s.ops + spec_close_n_ops(n),
    decreases n,
{
    if n == 0 {
        assert(s.ops + spec_close_n_ops(0) =~= s.ops);
    } else {
        lemma_close_n_ops(spec_exit_layer(s), (n - 1) as nat);
        assert((s.ops + seq![OpModel::PopLayer]) + spec_close_n_ops((n - 1) as nat) =~= s.ops
            + spec_close_n_ops(n));
        assert(spec_exit_layer(s).ops =~= s.ops + seq![OpModel::PopLayer]);
    }
}

proof fn lemma_close_n_layers(s: SurfaceModel, n: nat)
    requires
        n <= s.layers.len(),
    ensures
        spec_close_n(s, n).layers == s.layers.take((s.layers.len() - n) as int),
        spec_close_n(s, n).fault == s.fault,
    decreases n,
{
    if n == 0 {
        assert(s.layers.take(s.layers.len() as int) =~= s.layers);
    } else {
        let t = spec_exit_layer(s);
        assert(t.layers =~= s.layers.take(s.layers.len() - 1));
        lemma_close_n_layers(t, (n - 1) as nat);
        assert(t.layers.take((t.layers.len() - (n - 1)) as int) =~= s.layers.take(
            (s.layers.len() - n) as int,
        ));
    }
}

proof fn lemma_open_n_layers(s: SurfaceModel, opacity: u16, n: nat)
    ensures
        spec_open_n(s, opacity, n).layers.len() == s.layers.len() + n,
        spec_open_n(s, opacity, n).layers.take(s.layers.len() as int) == s.layers,
        spec_open_n(s, opacity, n).fault == s.fault,
    decreases n,
{
    if n == 0 {
        assert(s.layers.take(s.layers.len() as int) =~= s.layers);
    } else {
        let t = spec_open_n(s, opacity, (n - 1) as nat);
        lemma_open_n_layers(s, opacity, (n - 1) as nat);
        assert(t.layers.push(opacity).take(s.layers.len() as int) =~= t.layers.take(
            s.layers.len() as int,
        ));
    }
}

/// Layer-stack idempotence: opening `n` nested layer scopes and closing all
/// of them, with no draw calls in between, restores the layer stack (and
/// the fault state) exactly; all that remains is the log of the n
/// push-and-clear pairs followed by the n pops.
pub proof fn lemma_scopes_idempotent(s: SurfaceModel, opacity: u16, n: nat)
    ensures
        spec_close_n(spec_open_n(s, opacity, n), n).layers == s.layers,
        spec_close_n(spec_open_n(s, opacity, n), n).fault == s.fault,
        spec_close_n(spec_open_n(s, opacity, n), n).ops == s.ops + spec_open_n_ops(opacity, n)
            + spec_close_n_ops(n),
{
    let t = spec_open_n(s, opacity, n);
    lemma_open_n_layers(s, opacity, n);
    lemma_close_n_layers(t, n);
    lemma_open_n_ops(s, opacity, n);
    lemma_close_n_ops(t, n);
    assert((s.ops + spec_open_n_ops(opacity, n)) + spec_close_n_ops(n) =~= s.ops
        + spec_open_n_ops(opacity, n) + spec_close_n_ops(n));
}

/// Unwinding after a failure deep in a doubly-nested scope: closing the
/// inner layer scope and then the frame scope appends exactly two pops,
/// one end-draw and one present, in that order, and leaves no layer open.
/// This holds whatever the fault state, so a failed draw still unwinds the
/// stack completely.
pub proof fn lemma_failure_unwind(s: SurfaceModel)
    requires
        s.layers.len() == 2,
    ensures
        ({
            let t = spec_present(spec_end_draw(spec_exit_layer(spec_exit_layer(s))));
            &&& t.ops == s.ops + seq![
                OpModel::PopLayer,
                OpModel::PopLayer,
                OpModel::EndDraw,
                OpModel::Present,
            ]
            &&& t.layers.len() == 0
            &&& t.fault == s.fault
        }),
{
    let t = spec_present(spec_end_draw(spec_exit_layer(spec_exit_layer(s))));
    assert(t.ops =~= s.ops + seq![
        OpModel::PopLayer,
        OpModel::PopLayer,
        OpModel::EndDraw,
        OpModel::Present,
    ]);
}

} // verus!
