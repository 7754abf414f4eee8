//! The boolean-overlay and triangulation engines, as this library sees them.
use vstd::prelude::*;

use i_overlay::i_float::int::point::IntPoint;

use crate::geometry::{contours_view, shapes_view, Contour, Point, Shapes};
use crate::triangulation::Triangulation;
use crate::types::{IntContourDirection, IntFillRule, IntOverlayOptions, IntOverlayRule};

verus! {

/// The engine's fill rule.
pub type EngineFillRule = i_overlay::core::fill_rule::FillRule;

/// The engine's boolean operation.
pub type EngineOverlayRule = i_overlay::core::overlay_rule::OverlayRule;

/// The engine's winding direction.
pub type EngineDirection = i_overlay::core::overlay::ContourDirection;

/// The engine's solver settings.
pub type EngineSolver = i_overlay::core::solver::Solver;

type EngineOptions = i_overlay::core::overlay::IntOverlayOptions<u64>;

type Overlay = i_overlay::core::overlay::Overlay<i32>;

type Role = i_overlay::core::overlay::ShapeType;

#[verifier::external_type_specification]
#[verifier::external_body]
pub struct ExSolver(i_overlay::core::solver::Solver);

#[verifier::external_type_specification]
pub struct ExFillRule(i_overlay::core::fill_rule::FillRule);

#[verifier::external_type_specification]
pub struct ExOverlayRule(i_overlay::core::overlay_rule::OverlayRule);

#[verifier::external_type_specification]
pub struct ExContourDirection(i_overlay::core::overlay::ContourDirection);

/// The engine's fill rule of the same name.
pub open spec fn engine_fill_rule(r: IntFillRule) -> EngineFillRule {
    match r {
        IntFillRule::EvenOdd => EngineFillRule::EvenOdd,
        IntFillRule::NonZero => EngineFillRule::NonZero,
        IntFillRule::Positive => EngineFillRule::Positive,
        IntFillRule::Negative => EngineFillRule::Negative,
    }
}

/// The engine's boolean operation of the same name.
pub open spec fn engine_overlay_rule(r: IntOverlayRule) -> EngineOverlayRule {
    match r {
        IntOverlayRule::Subject => EngineOverlayRule::Subject,
        IntOverlayRule::Clip => EngineOverlayRule::Clip,
        IntOverlayRule::Intersect => EngineOverlayRule::Intersect,
        IntOverlayRule::Union => EngineOverlayRule::Union,
        IntOverlayRule::Difference => EngineOverlayRule::Difference,
        IntOverlayRule::InverseDifference => EngineOverlayRule::InverseDifference,
        IntOverlayRule::Xor => EngineOverlayRule::Xor,
    }
}

/// The engine's winding direction of the same name.
pub open spec fn engine_direction(d: IntContourDirection) -> EngineDirection {
    match d {
        IntContourDirection::CounterClockwise => EngineDirection::CounterClockwise,
        IntContourDirection::Clockwise => EngineDirection::Clockwise,
    }
}

/// Maps a fill rule to the engine's.
pub fn to_engine_fill_rule(r: IntFillRule) -> (e: EngineFillRule)
    ensures
        e == engine_fill_rule(r),
{
    match r {
        IntFillRule::EvenOdd => EngineFillRule::EvenOdd,
        IntFillRule::NonZero => EngineFillRule::NonZero,
        IntFillRule::Positive => EngineFillRule::Positive,
        IntFillRule::Negative => EngineFillRule::Negative,
    }
}

/// Maps an engine fill rule back.
pub fn from_engine_fill_rule(e: EngineFillRule) -> (r: IntFillRule)
    ensures
        engine_fill_rule(r) == e,
{
    match e {
        EngineFillRule::EvenOdd => IntFillRule::EvenOdd,
        EngineFillRule::NonZero => IntFillRule::NonZero,
        EngineFillRule::Positive => IntFillRule::Positive,
        EngineFillRule::Negative => IntFillRule::Negative,
    }
}

/// Maps a boolean operation to the engine's.
pub fn to_engine_overlay_rule(r: IntOverlayRule) -> (e: EngineOverlayRule)
    ensures
        e == engine_overlay_rule(r),
{
    match r {
        IntOverlayRule::Subject => EngineOverlayRule::Subject,
        IntOverlayRule::Clip => EngineOverlayRule::Clip,
        IntOverlayRule::Intersect => EngineOverlayRule::Intersect,
        IntOverlayRule::Union => EngineOverlayRule::Union,
        IntOverlayRule::Difference => EngineOverlayRule::Difference,
        IntOverlayRule::InverseDifference => EngineOverlayRule::InverseDifference,
        IntOverlayRule::Xor => EngineOverlayRule::Xor,
    }
}

/// Maps an engine boolean operation back.
pub fn from_engine_overlay_rule(e: EngineOverlayRule) -> (r: IntOverlayRule)
    ensures
        engine_overlay_rule(r) == e,
{
    match e {
        EngineOverlayRule::Subject => IntOverlayRule::Subject,
        EngineOverlayRule::Clip => IntOverlayRule::Clip,
        EngineOverlayRule::Intersect => IntOverlayRule::Intersect,
        EngineOverlayRule::Union => IntOverlayRule::Union,
        EngineOverlayRule::Difference => IntOverlayRule::Difference,
        EngineOverlayRule::InverseDifference => IntOverlayRule::InverseDifference,
        EngineOverlayRule::Xor => IntOverlayRule::Xor,
    }
}

/// Maps a winding direction to the engine's.
pub fn to_engine_direction(d: IntContourDirection) -> (e: EngineDirection)
    ensures
        e == engine_direction(d),
{
    match d {
        IntContourDirection::CounterClockwise => EngineDirection::CounterClockwise,
        IntContourDirection::Clockwise => EngineDirection::Clockwise,
    }
}

/// Maps an engine winding direction back.
pub fn from_engine_direction(e: EngineDirection) -> (d: IntContourDirection)
    ensures
        engine_direction(d) == e,
{
    match e {
        EngineDirection::CounterClockwise => IntContourDirection::CounterClockwise,
        EngineDirection::Clockwise => IntContourDirection::Clockwise,
    }
}

/// The shapes the overlay engine produces from subject and clip contours,
/// options, a boolean rule and a fill rule.
pub uninterp spec fn overlay_of(
    subject: Seq<Seq<Point<i32>>>,
    clip: Seq<Seq<Point<i32>>>,
    options: IntOverlayOptions,
    rule: EngineOverlayRule,
    fill: EngineFillRule,
) -> Seq<Seq<Seq<Point<i32>>>>;

/// The vertices and indices the triangulation engine produces from shapes
/// it first validates with a fill rule and options.
pub uninterp spec fn triangulation_of(
    shapes: Seq<Seq<Seq<Point<i32>>>>,
    fill: EngineFillRule,
    options: IntOverlayOptions,
) -> (Seq<Point<i32>>, Seq<u32>);

/// Coordinates the integer engines accept: within `[-2^30, 2^30 - 1]`.
pub open spec fn coord_in_range(v: i32) -> bool {
    -0x4000_0000 <= v <= 0x3fff_ffff
}

/// Both coordinates of `p` are ones the engines accept.
pub open spec fn point_in_range(p: Point<i32>) -> bool {
    coord_in_range(p.x) && coord_in_range(p.y)
}

/// Every point of every contour has coordinates the engines accept.
pub open spec fn contours_in_range(cs: Seq<Seq<Point<i32>>>) -> bool {
    forall|i: int, j: int| 0 <= i < cs.len() && 0 <= j < cs[i].len() ==> point_in_range(#[trigger] cs[i][j])
}

/// Every point of every shape has coordinates the engines accept.
pub open spec fn shapes_in_range(ss: Seq<Seq<Seq<Point<i32>>>>) -> bool {
    forall|s: int| 0 <= s < ss.len() ==> contours_in_range(#[trigger] ss[s])
}

/// Relies on i_overlay's `Solver::default`, with multithreading switched
/// off so that results do not depend on thread scheduling.
#[verifier::external_body]
pub(crate) fn single_threaded_solver() -> (r: EngineSolver) {
    let mut solver = EngineSolver::default();
    solver.multithreading = None;
    solver
}

/// Relies on i_overlay's `Overlay::overlay`, with the contours added by
/// `Overlay::add_path_iter` and the solver of `single_threaded_solver` (the
/// only one verified code can obtain): the shapes depend on the contours,
/// the options and the two rules alone; without contours there are no
/// segments and no shapes. The engine takes coordinates in its documented
/// range only.
#[verifier::external_body]
pub(crate) fn run_overlay(
    subject: &Vec<Contour<i32>>,
    clip: &Vec<Contour<i32>>,
    capacity: usize,
    options: IntOverlayOptions,
    direction: EngineDirection,
    solver: EngineSolver,
    rule: EngineOverlayRule,
    fill: EngineFillRule,
) -> (r: Shapes<i32>)
    requires
        direction == engine_direction(options.output_direction),
        contours_in_range(contours_view(subject@)),
        contours_in_range(contours_view(clip@)),
    ensures
        shapes_view(r) == overlay_of(
            contours_view(subject@),
            contours_view(clip@),
            options,
            rule,
            fill,
        ),
        subject@.len() == 0 && clip@.len() == 0 ==> r@.len() == 0,
{
    let o = EngineOptions { preserve_input_collinear: options.preserve_input_collinear, output_direction: direction, preserve_output_collinear: options.preserve_output_collinear, min_output_area: options.min_output_area, ogc: false };
    let mut overlay = Overlay::new_custom(capacity, o, solver);
    for (contours, role) in [(subject, Role::Subject), (clip, Role::Clip)] {
        for c in contours.iter() {
            overlay.add_path_iter(c.iter().map(|p| IntPoint::new(p.x, p.y)), role);
        }
    }
    let shapes = overlay.overlay(rule, fill);
    shapes.iter().map(|s| s.iter().map(|c| c.iter().map(|p| Point { x: p.x, y: p.y }).collect()).collect()).collect()
}

/// The triangulation engine with its scratch buffers, kept between calls.
#[verifier::external_body]
pub struct TriangulationEngine {
    inner: i_triangle::int::triangulator::IntTriangulator<i32, u32>,
}

impl TriangulationEngine {
    /// Relies on i_triangle's `IntTriangulator::new`, sized for
    /// `max_points_count` points, with the solver of `single_threaded_solver`.
    #[verifier::external_body]
    pub(crate) fn new(max_points_count: usize, solver: EngineSolver) -> (r: Self) {
        let validation = i_triangle::int::validation::Validation::default();
        TriangulationEngine { inner: i_triangle::int::triangulator::IntTriangulator::new(max_points_count, validation, solver) }
    }

    /// Relies on i_triangle's `IntTriangulator::triangulate_shapes`, run with
    /// the given fill rule and options: the result depends on the shapes, the
    /// fill rule and the options alone, not on the scratch buffers. The
    /// engine takes coordinates in its documented range only.
    #[verifier::external_body]
    pub(crate) fn triangulate(
        &mut self,
        shapes: &Shapes<i32>,
        fill: EngineFillRule,
        options: IntOverlayOptions,
        direction: EngineDirection,
    ) -> (r: Triangulation<i32>)
        requires
            direction == engine_direction(options.output_direction),
            shapes_in_range(shapes_view(*shapes)),
        ensures
            r.model() == triangulation_of(shapes_view(*shapes), fill, options),
    {
        self.inner.fill_rule = fill;
        self.inner.overlay.options = EngineOptions { preserve_input_collinear: options.preserve_input_collinear, output_direction: direction, preserve_output_collinear: options.preserve_output_collinear, min_output_area: options.min_output_area, ogc: false };
        let input: Vec<Vec<Vec<IntPoint<i32>>>> = shapes.iter().map(|s| s.iter().map(|c| c.iter().map(|p| IntPoint::new(p.x, p.y)).collect()).collect()).collect();
        let t = self.inner.triangulate_shapes(&input);
        Triangulation { points: t.points.iter().map(|p| Point { x: p.x, y: p.y }).collect(), indices: t.indices }
    }
}

/// Checks that every coordinate of `c` is one the engines accept.
pub fn contour_within_range(c: &Contour<i32>) -> (r: bool)
    ensures
        r == (forall|j: int| 0 <= j < c@.len() ==> point_in_range(#[trigger] c@[j])),
{
    let mut j: usize = 0;
    while j < c.len()
        invariant
            j <= c@.len(),
            forall|i: int| 0 <= i < j ==> point_in_range(#[trigger] c@[i]),
        decreases c@.len() - j,
    {
        let p = c[j];
        if p.x < -0x4000_0000 || p.x > 0x3fff_ffff || p.y < -0x4000_0000 || p.y > 0x3fff_ffff {
            assert(!point_in_range(c@[j as int]));
            return false;
        }
        assert(point_in_range(c@[j as int]));
        j = j + 1;
    }
    true
}

/// Checks that every coordinate of every contour is one the engines accept.
pub fn contours_within_range(cs: &Vec<Contour<i32>>) -> (r: bool)
    ensures
        r == contours_in_range(contours_view(cs@)),
{
    let ghost v = contours_view(cs@);
    let mut i: usize = 0;
    while i < cs.len()
        invariant
            i <= cs@.len(),
            v == contours_view(cs@),
            forall|k: int, j: int| 0 <= k < i && 0 <= j < v[k].len() ==> point_in_range(#[trigger] v[k][j]),
        decreases cs@.len() - i,
    {
        let ok = contour_within_range(&cs[i]);
        assert(v[i as int] == cs@[i as int]@);
        if !ok {
            return false;
        }
        i = i + 1;
    }
    true
}

/// Checks that every coordinate of every shape is one the engines accept.
pub fn shapes_within_range(ss: &Shapes<i32>) -> (r: bool)
    ensures
        r == shapes_in_range(shapes_view(*ss)),
{
    let mut s: usize = 0;
    while s < ss.len()
        invariant
            s <= ss@.len(),
            forall|k: int| 0 <= k < s ==> contours_in_range(#[trigger] shapes_view(*ss)[k]),
        decreases ss@.len() - s,
    {
        let ok = contours_within_range(&ss[s]);
        assert(shapes_view(*ss)[s as int] == contours_view(ss@[s as int]@));
        if !ok {
            return false;
        }
        s = s + 1;
    }
    true
}

} // verus!
