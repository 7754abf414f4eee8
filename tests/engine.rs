use ishape::{
    AddContourError, ContourAccumulator, FlatIntTriangulation, FlatShapesBuffer, IntContourDirection,
    IntFillRule, IntOverlay, IntOverlayOptions, IntOverlayRule, IntShapeType, IntTriangulator,
    IntTriangulatorValidation, Point,
};

fn twice_area(c: &[Point<i32>]) -> i64 {
    let mut sum = 0i64;
    for i in 0..c.len() {
        let a = c[i];
        let b = c[(i + 1) % c.len()];
        sum += a.x as i64 * b.y as i64 - b.x as i64 * a.y as i64;
    }
    sum
}

fn squares(rule_subject: &[i32], rule_clip: &[i32]) -> IntOverlay {
    let mut overlay = IntOverlay::new(8, IntOverlayOptions::default());
    assert_eq!(overlay.add_contour(rule_subject, IntShapeType::Subject), Ok(()));
    assert_eq!(overlay.add_contour(rule_clip, IntShapeType::Clip), Ok(()));
    overlay
}

const SUBJECT: [i32; 8] = [0, 0, 10, 0, 10, 10, 0, 10];
const CLIP: [i32; 8] = [5, 5, 15, 5, 15, 15, 5, 15];

#[test]
fn union_of_overlapping_squares() {
    let overlay = squares(&SUBJECT, &CLIP);
    let shapes = overlay.overlay(IntOverlayRule::Union, IntFillRule::NonZero);
    assert_eq!(shapes.len(), 1);
    assert_eq!(shapes[0].len(), 1);
    assert_eq!(shapes[0][0].len(), 8);
    // 100 + 100 - 25 square units.
    assert_eq!(twice_area(&shapes[0][0]).abs(), 350);
}

#[test]
fn intersection_of_overlapping_squares() {
    let overlay = squares(&SUBJECT, &CLIP);
    let shapes = overlay.overlay(IntOverlayRule::Intersect, IntFillRule::NonZero);
    assert_eq!(shapes.len(), 1);
    assert_eq!(shapes[0].len(), 1);
    let contour = &shapes[0][0];
    assert_eq!(contour.len(), 4);
    for corner in [(5, 5), (10, 5), (10, 10), (5, 10)] {
        assert!(contour.contains(&Point { x: corner.0, y: corner.1 }));
    }
    assert_eq!(twice_area(contour).abs(), 50);
}

#[test]
fn difference_of_overlapping_squares() {
    let overlay = squares(&SUBJECT, &CLIP);
    let shapes = overlay.overlay(IntOverlayRule::Difference, IntFillRule::NonZero);
    assert_eq!(shapes.len(), 1);
    assert_eq!(shapes[0].len(), 1);
    assert_eq!(shapes[0][0].len(), 6);
    assert_eq!(twice_area(&shapes[0][0]).abs(), 150);
}

#[test]
fn subject_rule_with_empty_clip_returns_subject() {
    let mut overlay = IntOverlay::new(4, IntOverlayOptions::default());
    assert_eq!(overlay.add_contour(&SUBJECT, IntShapeType::Subject), Ok(()));
    let shapes = overlay.overlay(IntOverlayRule::Subject, IntFillRule::NonZero);
    assert_eq!(shapes.len(), 1);
    assert_eq!(shapes[0].len(), 1);
    let contour = &shapes[0][0];
    assert_eq!(contour.len(), 4);
    for corner in [(0, 0), (10, 0), (10, 10), (0, 10)] {
        assert!(contour.contains(&Point { x: corner.0, y: corner.1 }));
    }
    assert_eq!(twice_area(contour), 200);
}

#[test]
fn clockwise_output_direction_is_honoured() {
    let options = IntOverlayOptions {
        output_direction: IntContourDirection::Clockwise,
        ..IntOverlayOptions::default()
    };
    let mut overlay = IntOverlay::new(4, options);
    assert_eq!(overlay.add_contour(&SUBJECT, IntShapeType::Subject), Ok(()));
    let shapes = overlay.overlay(IntOverlayRule::Subject, IntFillRule::NonZero);
    assert_eq!(twice_area(&shapes[0][0]), -200);
}

#[test]
fn overlay_can_run_repeatedly() {
    let overlay = squares(&SUBJECT, &CLIP);
    let first = overlay.overlay(IntOverlayRule::Xor, IntFillRule::EvenOdd);
    let union = overlay.overlay(IntOverlayRule::Union, IntFillRule::EvenOdd);
    let again = overlay.overlay(IntOverlayRule::Xor, IntFillRule::EvenOdd);
    assert_eq!(first, again);
    assert_eq!(union.len(), 1);
    assert_eq!(first.len(), 2);
}

#[test]
fn overlay_into_flat_buffer() {
    let overlay = squares(&SUBJECT, &CLIP);
    let mut out = FlatShapesBuffer::new();
    assert!(overlay.overlay_into(IntOverlayRule::Intersect, IntFillRule::NonZero, &mut out));
    assert_eq!(out.shape_ranges.len(), 1);
    assert_eq!(out.contour_ranges.len(), 1);
    assert_eq!(out.flat_points.len(), 8);
    assert_eq!(
        out.to_shapes(),
        overlay.overlay(IntOverlayRule::Intersect, IntFillRule::NonZero)
    );
}

#[test]
fn overlay_into_refuses_coordinates_out_of_range() {
    let mut overlay = IntOverlay::new(4, IntOverlayOptions::default());
    let far = [0, 0, 0x4000_0000, 0, 0, 10];
    assert_eq!(overlay.add_contour(&far, IntShapeType::Clip), Ok(()));
    let mut out = FlatShapesBuffer::new();
    out.set_shapes(&vec![vec![vec![Point { x: 1, y: 2 }]]]);
    assert!(!overlay.overlay_into(IntOverlayRule::Union, IntFillRule::NonZero, &mut out));
    assert_eq!(out.flat_points, vec![1, 2]);
}

#[test]
fn odd_coordinate_count_is_refused() {
    let mut acc = ContourAccumulator::new(2);
    assert_eq!(acc.add_contour(&[1, 2, 3, 4], IntShapeType::Subject), Ok(()));
    assert_eq!(
        acc.add_contour(&[1, 2, 3], IntShapeType::Subject),
        Err(AddContourError::OddCoordinateCount)
    );
    assert_eq!(
        acc.add_contour(&[7], IntShapeType::Clip),
        Err(AddContourError::OddCoordinateCount)
    );
    assert_eq!(acc.subject_contours().len(), 1);
    assert_eq!(acc.clip_contours().len(), 0);
    let mut overlay = IntOverlay::new(2, IntOverlayOptions::default());
    assert_eq!(
        overlay.add_contour(&[0, 0, 1], IntShapeType::Subject),
        Err(AddContourError::OddCoordinateCount)
    );
}

#[test]
fn empty_contour_is_accepted_and_not_added() {
    let mut acc: ContourAccumulator<i32> = ContourAccumulator::new(2);
    assert_eq!(acc.add_contour(&[], IntShapeType::Subject), Ok(()));
    assert_eq!(acc.add_contour(&[], IntShapeType::Clip), Ok(()));
    assert_eq!(acc.subject_contours().len(), 0);
    assert_eq!(acc.clip_contours().len(), 0);
}

#[test]
fn contours_are_paired_and_sorted_by_role() {
    let mut acc = ContourAccumulator::new(2);
    assert_eq!(acc.add_contour(&[1.5f64, 2.5, 3.5, 4.5], IntShapeType::Clip), Ok(()));
    assert_eq!(acc.add_contour(&[9.0, 8.0], IntShapeType::Subject), Ok(()));
    assert_eq!(
        acc.clip_contours()[0],
        vec![Point { x: 1.5, y: 2.5 }, Point { x: 3.5, y: 4.5 }]
    );
    assert_eq!(acc.subject_contours()[0], vec![Point { x: 9.0, y: 8.0 }]);
}

#[test]
fn triangulating_nothing_gives_nothing() {
    let mut triangulator = IntTriangulator::new(16, IntTriangulatorValidation::default());
    let t = triangulator.triangulate(vec![]);
    assert!(t.points.is_empty());
    assert!(t.indices.is_empty());
}

#[test]
fn triangulating_a_square() {
    let mut triangulator = IntTriangulator::new(16, IntTriangulatorValidation::default());
    let square = vec![vec![vec![
        Point { x: 0, y: 0 },
        Point { x: 10, y: 0 },
        Point { x: 10, y: 10 },
        Point { x: 0, y: 10 },
    ]]];
    let t = triangulator.triangulate(square);
    assert_eq!(t.points.len(), 4);
    assert_eq!(t.indices.len(), 6);
    assert!(t.indices.iter().all(|&i| (i as usize) < t.points.len()));
    let again = triangulator.triangulate(vec![vec![vec![
        Point { x: 0, y: 0 },
        Point { x: 10, y: 0 },
        Point { x: 0, y: 10 },
    ]]]);
    assert_eq!(again.indices.len(), 3);
}

#[test]
fn triangulate_into_flat_buffers() {
    let mut triangulator = IntTriangulator::new(16, IntTriangulatorValidation::default());
    let mut input = FlatShapesBuffer::new();
    input.set_shapes(&vec![vec![vec![
        Point { x: 0, y: 0 },
        Point { x: 10, y: 0 },
        Point { x: 10, y: 10 },
        Point { x: 0, y: 10 },
    ]]]);
    let mut output = FlatIntTriangulation::new();
    assert!(triangulator.triangulate_into(&input, &mut output));
    assert_eq!(output.flat_points.len(), 8);
    assert_eq!(output.indices.len(), 6);
    input.clear();
    assert!(triangulator.triangulate_into(&input, &mut output));
    assert!(output.is_empty());
    assert!(output.indices.is_empty());
}

#[test]
fn default_options_and_validation() {
    let options = IntOverlayOptions::default();
    assert!(!options.preserve_input_collinear);
    assert_eq!(options.output_direction, IntContourDirection::CounterClockwise);
    assert!(!options.preserve_output_collinear);
    assert_eq!(options.min_output_area, 0);
    let validation = IntTriangulatorValidation::default();
    assert_eq!(validation.fill_rule, IntFillRule::NonZero);
    assert!(validation.options.preserve_output_collinear);
}

#[test]
fn overlay_without_contours_is_empty() {
    let overlay = IntOverlay::new(0, IntOverlayOptions::default());
    assert!(overlay.overlay(IntOverlayRule::Union, IntFillRule::NonZero).is_empty());
    let mut out = FlatShapesBuffer::new();
    out.set_shapes(&vec![vec![vec![Point { x: 1, y: 1 }]]]);
    assert!(overlay.overlay_into(IntOverlayRule::Xor, IntFillRule::EvenOdd, &mut out));
    assert!(out.is_empty());
    assert!(out.shape_ranges.is_empty());
}

#[test]
fn triangulate_into_refuses_malformed_input() {
    let mut triangulator = IntTriangulator::new(16, IntTriangulatorValidation::default());
    let mut input = FlatShapesBuffer::new();
    input.set_shapes(&vec![vec![vec![
        Point { x: 0, y: 0 },
        Point { x: 10, y: 0 },
        Point { x: 0, y: 10 },
    ]]]);
    input.shape_ranges[0].end = 3;
    let mut output = FlatIntTriangulation::new();
    output.flat_points.push(42);
    output.flat_points.push(43);
    assert!(!triangulator.triangulate_into(&input, &mut output));
    assert_eq!(output.flat_points, vec![42, 43]);
}
