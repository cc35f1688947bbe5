//! A verified model of a layered 2D drawing stack.
//!
//! The library covers the parts of such a stack that are pure bookkeeping and
//! geometry: the scoped-layer drawing protocol (push/pop discipline over a
//! shared surface, frame begin/end/present bracketing), the rounded-rectangle
//! outline builder, and the derivation of linear/radial gradient brush
//! endpoints from a bounding box and an angle.  All coordinates are integer
//! device units; angles are integer degrees; opacities and gradient stop
//! positions are in thousandths.  The platform renderer itself (device,
//! swap chain, text shaping) is a collaborator that executes the command
//! stream this library produces; it lives outside the verified core.

pub mod brush;
pub mod color;
pub mod context;
pub mod gradient;
pub mod math;
pub mod outline;
pub mod properties;
pub mod surface;
pub mod types;
