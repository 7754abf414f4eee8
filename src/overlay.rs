use vstd::prelude::*;

use crate::accumulator::ContourAccumulator;
use crate::engine::{
    contours_in_range, contours_within_range, engine_fill_rule, engine_overlay_rule, overlay_of,
    run_overlay, single_threaded_solver, to_engine_direction, to_engine_fill_rule, to_engine_overlay_rule,
};
use crate::geometry::{Point, Shapes};
use crate::shape_buffer::FlatShapesBuffer;
use crate::types::{AddContourError, IntFillRule, IntOverlayOptions, IntOverlayRule, IntShapeType};

verus! {

/// A boolean operation on integer contours: subject and clip contours are
/// gathered first, then combined under any rule, as often as needed.
pub struct IntOverlay {
    contours: ContourAccumulator<i32>,
    capacity: usize,
    options: IntOverlayOptions,
}

impl IntOverlay {
    /// The subject contours, in the order they were added.
    pub closed spec fn subject(&self) -> Seq<Seq<Point<i32>>> {
        self.contours.subject()
    }

    /// The clip contours, in the order they were added.
    pub closed spec fn clip(&self) -> Seq<Seq<Point<i32>>> {
        self.contours.clip()
    }

    /// The options every operation runs with.
    pub closed spec fn options(&self) -> IntOverlayOptions {
        self.options
    }

    /// Every gathered coordinate is one the engine accepts.
    pub open spec fn in_range(&self) -> bool {
        contours_in_range(self.subject()) && contours_in_range(self.clip())
    }

    /// The shapes the engine gives for the gathered contours under `rule`
    /// and `fill`.
    pub open spec fn result(&self, rule: IntOverlayRule, fill: IntFillRule) -> Seq<
        Seq<Seq<Point<i32>>>,
    > {
        overlay_of(
            self.subject(),
            self.clip(),
            self.options(),
            engine_overlay_rule(rule),
            engine_fill_rule(fill),
        )
    }

    /// An overlay without contours; `capacity` hints how many contours of
    /// each role will come.
    pub fn new(capacity: usize, options: IntOverlayOptions) -> (r: Self)
        ensures
            r.subject().len() == 0,
            r.clip().len() == 0,
            r.options() == options,
    {
        IntOverlay { contours: ContourAccumulator::new(capacity), capacity, options }
    }

    /// Adds the contour `[x0, y0, x1, y1, ...]` in the given role.
    ///
    /// An odd number of coordinates is refused and changes nothing; an empty
    /// buffer is accepted and adds nothing.
    pub fn add_contour(&mut self, points: &[i32], shape_type: IntShapeType) -> (r: Result<
        (),
        AddContourError,
    >)
        ensures
            final(self).options() == old(self).options(),
            points@.len() % 2 == 1 ==> r == Err::<(), AddContourError>(
                AddContourError::OddCoordinateCount,
            ) && final(self).subject() == old(self).subject() && final(self).clip() == old(
                self,
            ).clip(),
            points@.len() % 2 == 0 ==> r == Ok::<(), AddContourError>(()) && (
                if shape_type == IntShapeType::Subject {
                    final(self).subject() == crate::accumulator::with_contour(
                        old(self).subject(),
                        points@,
                    ) && final(self).clip() == old(self).clip()
                } else {
                    final(self).clip() == crate::accumulator::with_contour(
                        old(self).clip(),
                        points@,
                    ) && final(self).subject() == old(self).subject()
                }
            ),
    {
        self.contours.add_contour(points, shape_type)
    }

    /// Combines the gathered contours under `overlay_rule` and `fill_rule`.
    /// The gathered contours stay as they are.
    pub fn overlay(&self, overlay_rule: IntOverlayRule, fill_rule: IntFillRule) -> (r: Shapes<i32>)
        requires
            self.in_range(),
        ensures
            crate::geometry::shapes_view(r) == self.result(overlay_rule, fill_rule),
            self.subject().len() == 0 && self.clip().len() == 0 ==> r@.len() == 0,
    {
        run_overlay(
            self.contours.subject_contours(),
            self.contours.clip_contours(),
            self.capacity,
            self.options,
            to_engine_direction(self.options.output_direction),
            single_threaded_solver(),
            to_engine_overlay_rule(overlay_rule),
            to_engine_fill_rule(fill_rule),
        )
    }

    /// Combines the gathered contours and stores the shapes in `output`.
    ///
    /// Returns `false`, leaving `output` untouched, when a gathered
    /// coordinate lies outside the range the engine accepts.
    pub fn overlay_into(
        &self,
        overlay_rule: IntOverlayRule,
        fill_rule: IntFillRule,
        output: &mut FlatShapesBuffer<i32>,
    ) -> (r: bool)
        ensures
            r == self.in_range(),
            r ==> final(output).wf() && final(output)@ == self.result(overlay_rule, fill_rule),
            !r ==> *final(output) == *old(output),
    {
        if !contours_within_range(self.contours.subject_contours())
            || !contours_within_range(self.contours.clip_contours()) {
            return false;
        }
        let shapes = self.overlay(overlay_rule, fill_rule);
        output.set_shapes(&shapes);
        true
    }
}

} // verus!
