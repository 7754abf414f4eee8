use vstd::prelude::*;

verus! {

/// The role of a contour in a boolean operation.
#[derive(Clone, Copy, Debug, PartialEq, Eq, Structural)]
pub enum IntShapeType {
    Subject,
    Clip,
}

/// Winding direction forced on output contours.
#[derive(Clone, Copy, Debug, PartialEq, Eq, Structural)]
pub enum IntContourDirection {
    CounterClockwise,
    Clockwise,
}

/// Options of a boolean operation.
#[derive(Clone, Copy, Debug, PartialEq, Eq, Structural)]
pub struct IntOverlayOptions {
    /// Keep collinear points of the input.
    pub preserve_input_collinear: bool,
    /// Winding of outer output contours (holes take the other one).
    pub output_direction: IntContourDirection,
    /// Keep collinear points of the output.
    pub preserve_output_collinear: bool,
    /// Output contours enclosing less area than this are dropped.
    pub min_output_area: u64,
}

impl IntOverlayOptions {
    /// Simplify input and output, counter-clockwise outer contours, no area
    /// filter.
    pub fn standard() -> (r: Self)
        ensures
            !r.preserve_input_collinear,
            r.output_direction == IntContourDirection::CounterClockwise,
            !r.preserve_output_collinear,
            r.min_output_area == 0,
    {
        IntOverlayOptions {
            preserve_input_collinear: false,
            output_direction: IntContourDirection::CounterClockwise,
            preserve_output_collinear: false,
            min_output_area: 0,
        }
    }

    /// Like `standard`, but collinear points of the output are kept.
    pub fn keep_output_points() -> (r: Self)
        ensures
            !r.preserve_input_collinear,
            r.output_direction == IntContourDirection::CounterClockwise,
            r.preserve_output_collinear,
            r.min_output_area == 0,
    {
        IntOverlayOptions {
            preserve_input_collinear: false,
            output_direction: IntContourDirection::CounterClockwise,
            preserve_output_collinear: true,
            min_output_area: 0,
        }
    }
}

impl Default for IntOverlayOptions {
    fn default() -> (r: Self)
        ensures
            r == (IntOverlayOptions {
                preserve_input_collinear: false,
                output_direction: IntContourDirection::CounterClockwise,
                preserve_output_collinear: false,
                min_output_area: 0,
            }),
    {
        IntOverlayOptions::standard()
    }
}

/// The boolean operation applied to subject and clip.
#[derive(Clone, Copy, Debug, PartialEq, Eq, Structural)]
pub enum IntOverlayRule {
    Subject,
    Clip,
    Intersect,
    Union,
    Difference,
    InverseDifference,
    Xor,
}

/// How overlapping or self-intersecting contours decide what is inside.
#[derive(Clone, Copy, Debug, PartialEq, Eq, Structural)]
pub enum IntFillRule {
    EvenOdd,
    NonZero,
    Positive,
    Negative,
}

/// How a triangulator checks its input before triangulating it.
#[derive(Clone, Copy, Debug, PartialEq, Eq, Structural)]
pub struct IntTriangulatorValidation {
    pub fill_rule: IntFillRule,
    pub options: IntOverlayOptions,
}

impl Default for IntTriangulatorValidation {
    fn default() -> (r: Self)
        ensures
            r.fill_rule == IntFillRule::NonZero,
            !r.options.preserve_input_collinear,
            r.options.output_direction == IntContourDirection::CounterClockwise,
            r.options.preserve_output_collinear,
            r.options.min_output_area == 0,
    {
        IntTriangulatorValidation {
            fill_rule: IntFillRule::NonZero,
            options: IntOverlayOptions::keep_output_points(),
        }
    }
}

/// Why a coordinate buffer could not become a contour.
#[derive(Clone, Copy, Debug, PartialEq, Eq, Structural)]
pub enum AddContourError {
    /// The buffer holds an odd number of coordinates.
    OddCoordinateCount,
}

/// Why a coordinate buffer could not be triangulated as a contour.
#[derive(Clone, Copy, Debug, PartialEq, Eq, Structural)]
pub enum TriangulateContourError {
    /// The buffer holds an odd number of coordinates.
    OddCoordinateCount,
}

} // verus!
