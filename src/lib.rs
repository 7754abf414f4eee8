//! Flat, boundary-friendly exchange of polygon shapes and triangulations.
//!
//! Hierarchical geometry (shapes made of contours made of points) is carried
//! across the boundary as parallel arrays: interleaved coordinates plus two
//! layers of half-open index ranges. The boolean-overlay and triangulation
//! engines are reached through a small set of trusted calls in `engine`.
use vstd::prelude::*;

pub mod accumulator;
pub mod engine;
pub mod geometry;
pub mod laws;
pub mod overlay;
pub mod range;
pub mod shape_buffer;
pub mod triangulation;
pub mod triangulator;
pub mod types;

pub use accumulator::ContourAccumulator;
pub use geometry::{Contour, Point, Shape, Shapes};
pub use overlay::IntOverlay;
pub use range::RangeFFI;
pub use shape_buffer::FlatShapesBuffer;
pub use triangulation::{
    FlatIntTriangulation, FlatTriangulation, IntTriangulationIndex, Triangulation,
};
pub use triangulator::IntTriangulator;
pub use types::{
    AddContourError, IntContourDirection, IntFillRule, IntOverlayOptions, IntOverlayRule,
    IntShapeType, IntTriangulatorValidation, TriangulateContourError,
};
