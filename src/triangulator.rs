use vstd::prelude::*;

use crate::engine::{
    engine_fill_rule, shapes_in_range, shapes_within_range, single_threaded_solver, to_engine_direction,
    to_engine_fill_rule, triangulation_of, TriangulationEngine,
};
use crate::geometry::{shapes_view, Point, Shapes};
use crate::shape_buffer::FlatShapesBuffer;
use crate::triangulation::{FlatTriangulation, IntTriangulationIndex, Triangulation};
use crate::types::IntTriangulatorValidation;

verus! {

/// Triangulates integer shapes, reusing the engine's buffers across calls.
pub struct IntTriangulator {
    engine: TriangulationEngine,
    validation: IntTriangulatorValidation,
}

impl IntTriangulator {
    /// How input is validated before it is triangulated.
    pub closed spec fn validation(&self) -> IntTriangulatorValidation {
        self.validation
    }

    /// What the engine gives for non-empty `shapes` under this validation.
    pub open spec fn result(&self, shapes: Seq<Seq<Seq<Point<i32>>>>) -> (
        Seq<Point<i32>>,
        Seq<IntTriangulationIndex>,
    ) {
        triangulation_of(
            shapes,
            engine_fill_rule(self.validation().fill_rule),
            self.validation().options,
        )
    }

    /// A triangulator sized for up to `max_points_count` points.
    pub fn new(max_points_count: usize, validation: IntTriangulatorValidation) -> (r: Self)
        ensures
            r.validation() == validation,
    {
        IntTriangulator { engine: TriangulationEngine::new(max_points_count, single_threaded_solver()), validation }
    }

    /// Triangulates `shapes`; empty input gives an empty triangulation
    /// without running the engine.
    pub fn triangulate(&mut self, shapes: Shapes<i32>) -> (r: Triangulation<i32>)
        requires
            shapes_in_range(shapes_view(shapes)),
        ensures
            final(self).validation() == old(self).validation(),
            shapes@.len() == 0 ==> r.points@.len() == 0 && r.indices@.len() == 0,
            shapes@.len() > 0 ==> r.model() == old(self).result(shapes_view(shapes)),
    {
        if shapes.len() == 0 {
            return Triangulation::empty();
        }
        let fill = to_engine_fill_rule(self.validation.fill_rule);
        let direction = to_engine_direction(self.validation.options.output_direction);
        self.engine.triangulate(&shapes, fill, self.validation.options, direction)
    }

    /// Triangulates the shapes stored in `input` into `output`.
    ///
    /// Returns `false`, leaving `output` untouched, when `input` is not
    /// well formed or a stored coordinate lies outside the range the engine
    /// accepts.
    pub fn triangulate_into(
        &mut self,
        input: &FlatShapesBuffer<i32>,
        output: &mut FlatTriangulation<i32>,
    ) -> (r: bool)
        ensures
            final(self).validation() == old(self).validation(),
            r == (input.wf() && shapes_in_range(input@)),
            r && input@.len() == 0 ==> final(output).wf() && final(output)@.0.len() == 0
                && final(output)@.1.len() == 0,
            r && input@.len() > 0 ==> final(output).wf() && final(output)@ == old(self).result(
                input@,
            ),
            !r ==> *final(output) == *old(output),
    {
        if !input.is_well_formed() {
            return false;
        }
        let shapes = input.to_shapes();
        if !shapes_within_range(&shapes) {
            return false;
        }
        let triangulation = self.triangulate(shapes);
        output.set_triangulation(&triangulation);
        true
    }
}

} // verus!
