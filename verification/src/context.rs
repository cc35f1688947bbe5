//! Scoped drawing contexts over the shared surface.
//!
//! A `ContextHolder` owns the surface.  `start_draw` begins a frame: it
//! logs the begin-draw command and opens the frame's own full-opacity
//! layer, handing back the frame-owning context.  Each context can open a
//! nested sub-layer scope with its own opacity.  Contexts nest strictly:
//! only the innermost scope may draw, open a child, or close.  Closing a
//! context releases exactly the one layer it pushed — on every exit path,
//! including after a failed draw — and the frame-owning context then also
//! finalizes the draw pass and presents the frame, in that order.

use vstd::prelude::*;

use crate::properties::{
    CircleProperty, EllipseProperty, LineProperty, RectProperty, TextProperty,
};
use crate::surface::{
    spec_begin_draw, spec_circle_ops, spec_create_layer, spec_ellipse_ops, spec_end_draw,
    spec_exit_layer, spec_line_ops, spec_present, spec_record_draw, spec_rect_ops, spec_resize,
    spec_text_ops, Surface,
};

verus! {

/// A scope over the surface's layer stack.  The context remembers which
/// depth its layer occupies and whether it owns the frame bracket.
#[derive(Debug)]
pub struct Context {
    level: usize,
    end_draw: bool,
}

impl Context {
    /// The depth this context's layer occupies on the surface's stack.
    pub closed spec fn scope_level(self) -> int {
        self.level as int
    }

    /// Whether closing this context finalizes and presents the frame.
    pub closed spec fn frame_owning(self) -> bool {
        self.end_draw
    }

    /// The depth this context's layer occupies, for callers that must test
    /// the nesting discipline at run time.
    pub fn level(&self) -> (r: usize)
        ensures
            r == self.scope_level(),
    {
        self.level
    }

    /// Whether this is the frame-owning context, at run time.
    pub fn owns_frame(&self) -> (r: bool)
        ensures
            r == self.frame_owning(),
    {
        self.end_draw
    }

    /// Opens a new layer scope on the surface.
    pub(crate) fn new(surface: &mut Surface, opacity: u16, end_draw: bool) -> (ctx: Context)
        requires
            opacity <= 1000,
        ensures
            final(surface)@ == spec_create_layer(old(surface)@, opacity),
            ctx.scope_level() == old(surface)@.layers.len() + 1,
            ctx.frame_owning() == end_draw,
    {
        surface.create_layer(opacity);
        let level = surface.layer_count();
        Context { level, end_draw }
    }

    /// Opens a nested sub-layer scope of the given opacity (in
    /// thousandths) under this one.  Only the innermost scope may nest
    /// further.
    pub fn new_layer(&self, surface: &mut Surface, opacity: u16) -> (ctx: Context)
        requires
            opacity <= 1000,
            old(surface)@.frame_active(),
            self.scope_level() == old(surface)@.layers.len(),
        ensures
            final(surface)@ == spec_create_layer(old(surface)@, opacity),
            ctx.scope_level() == old(surface)@.layers.len() + 1,
            !ctx.frame_owning(),
    {
        Context::new(surface, opacity, false)
    }

    /// Draws a line; its own endpoints serve as the gradient axis, so a
    /// radial color is not accepted here.
    pub fn draw_line(&self, surface: &mut Surface, line_property: LineProperty)
        requires
            old(surface)@.can_draw(),
            self.scope_level() == old(surface)@.layers.len(),
            line_property.wf(),
            !(line_property.color is RadialGradient),
        ensures
            final(surface)@ == spec_record_draw(old(surface)@, spec_line_ops(line_property)),
    {
        surface.draw_line(line_property);
    }

    /// Draws a rectangle with optional rounded corners: the stroke and the
    /// fill share one outline, and a gradient fill spans the rectangle.
    pub fn draw_rect(&self, surface: &mut Surface, rect_property: RectProperty)
        requires
            old(surface)@.can_draw(),
            self.scope_level() == old(surface)@.layers.len(),
            rect_property.wf(),
        ensures
            final(surface)@ == spec_record_draw(old(surface)@, spec_rect_ops(rect_property)),
    {
        surface.draw_rect(rect_property);
    }

    /// Draws a circle as the degenerate ellipse with equal radii.
    pub fn draw_circle(&self, surface: &mut Surface, circle_property: CircleProperty)
        requires
            old(surface)@.can_draw(),
            self.scope_level() == old(surface)@.layers.len(),
            circle_property.wf(),
        ensures
            final(surface)@ == spec_record_draw(old(surface)@, spec_circle_ops(circle_property)),
    {
        surface.draw_circle(circle_property);
    }

    /// Draws an ellipse; a gradient fill spans its bounding box.
    pub fn draw_ellipse(&self, surface: &mut Surface, ellipse_property: EllipseProperty)
        requires
            old(surface)@.can_draw(),
            self.scope_level() == old(surface)@.layers.len(),
            ellipse_property.wf(),
        ensures
            final(surface)@ == spec_record_draw(old(surface)@, spec_ellipse_ops(ellipse_property)),
    {
        surface.draw_ellipse(ellipse_property);
    }

    /// Draws a text run with a solid brush.
    pub fn draw_text(&self, surface: &mut Surface, text_property: TextProperty)
        requires
            old(surface)@.can_draw(),
            self.scope_level() == old(surface)@.layers.len(),
            text_property.wf(),
        ensures
            final(surface)@ == spec_record_draw(old(surface)@, spec_text_ops(text_property)),
    {
        surface.draw_text(text_property);
    }

    /// Ends this scope: pops exactly the layer this context pushed — also
    /// after a failed draw — and, for the frame-owning context, then
    /// finalizes the draw pass and presents the frame.
    pub fn close(self, surface: &mut Surface)
        requires
            old(surface)@.frame_active(),
            self.scope_level() == old(surface)@.layers.len(),
            self.frame_owning() ==> old(surface)@.layers.len() == 1,
        ensures
            final(surface)@ == if self.frame_owning() {
                spec_present(spec_end_draw(spec_exit_layer(old(surface)@)))
            } else {
                spec_exit_layer(old(surface)@)
            },
    {
        surface.exit_layer();
        if self.end_draw {
            surface.end_draw();
            surface.present();
        }
    }
}

/// Owner of the shared surface; frames are started here.
#[derive(Debug)]
pub struct ContextHolder {
    pub surface: Surface,
}

impl ContextHolder {
    pub fn new() -> (h: Self)
        ensures
            h.surface@.layers.len() == 0,
            h.surface@.ops.len() == 0,
            !h.surface@.fault,
    {
        ContextHolder { surface: Surface::new() }
    }

    /// Begins a frame: marks the surface as drawing, opens the frame's
    /// full-opacity layer (clearing it), and returns the frame-owning
    /// context.
    pub fn start_draw(&mut self) -> (ctx: Context)
        requires
            !old(self).surface@.frame_active(),
        ensures
            final(self).surface@ == spec_create_layer(
                spec_begin_draw(old(self).surface@),
                1000,
            ),
            ctx.scope_level() == 1,
            ctx.frame_owning(),
    {
        self.surface.begin_draw();
        Context::new(&mut self.surface, 1000, true)
    }

    /// Recreates the presentable target.  The caller must not draw during
    /// a resize, so no frame may be active.
    pub fn resize(&mut self)
        requires
            !old(self).surface@.frame_active(),
        ensures
            final(self).surface@ == spec_resize(old(self).surface@),
    {
        self.surface.resize();
    }
}

} // verus!
