//! Primitive storage with a stable depth order, the transform pair of a
//! plotter, the tiling of grids, colors in text form, and the router that
//! hands host events to the one active sketch.

pub mod color;
pub mod grid;
pub mod order;
pub mod primitives;
pub mod router;
pub mod transform;

pub use color::Rgb;
pub use grid::grid_line_offsets;
pub use order::draw_order_of;
pub use primitives::PrimitiveStore;
pub use router::{sketch_kind, EventTarget, SketchKind, Sketchbook};
pub use transform::TransformPair;
