use ishape::{
    FlatIntTriangulation, FlatShapesBuffer, FlatTriangulation, Point, RangeFFI, Triangulation,
};

fn p<T>(x: T, y: T) -> Point<T> {
    Point { x, y }
}

fn sample_shapes() -> Vec<Vec<Vec<Point<i32>>>> {
    vec![
        vec![
            vec![p(0, 0), p(10, 0), p(10, 10), p(0, 10)],
            vec![p(2, 2), p(2, 4), p(4, 4)],
        ],
        vec![],
        vec![vec![], vec![p(-5, 7)]],
    ]
}

fn range(start: u64, end: u64) -> RangeFFI {
    RangeFFI { start, end }
}

#[test]
fn shapes_round_trip_int() {
    let shapes = sample_shapes();
    let mut buffer = FlatShapesBuffer::new();
    buffer.set_shapes(&shapes);
    assert_eq!(buffer.to_shapes(), shapes);
}

#[test]
fn shapes_flat_layout_is_exact() {
    let shapes = sample_shapes();
    let mut buffer = FlatShapesBuffer::new();
    buffer.set_shapes(&shapes);
    assert_eq!(
        buffer.flat_points,
        vec![0, 0, 10, 0, 10, 10, 0, 10, 2, 2, 2, 4, 4, 4, -5, 7]
    );
    assert_eq!(
        buffer.contour_ranges,
        vec![range(0, 8), range(8, 14), range(14, 14), range(14, 16)]
    );
    assert_eq!(buffer.shape_ranges, vec![range(0, 2), range(2, 2), range(2, 4)]);
}

#[test]
fn shapes_round_trip_f32() {
    let shapes = vec![vec![vec![p(0.5f32, -1.25), p(3.0, 4.0), p(f32::MAX, f32::MIN)]]];
    let mut buffer = FlatShapesBuffer::with_capacity(6, 1, 1);
    buffer.set_shapes(&shapes);
    let back = buffer.to_shapes();
    assert_eq!(back.len(), 1);
    for (a, b) in back[0][0].iter().zip(shapes[0][0].iter()) {
        assert_eq!(a.x.to_bits(), b.x.to_bits());
        assert_eq!(a.y.to_bits(), b.y.to_bits());
    }
}

#[test]
fn shapes_round_trip_f64() {
    let shapes = vec![
        vec![vec![p(0.1f64, 0.2), p(1e300, -1e-300)]],
        vec![vec![p(-0.0f64, 7.5)]],
    ];
    let mut buffer = FlatShapesBuffer::new();
    buffer.set_shapes(&shapes);
    let back = buffer.to_shapes();
    assert_eq!(back.len(), 2);
    assert_eq!(back[0][0][1].x.to_bits(), 1e300f64.to_bits());
    assert_eq!(back[1][0][0].x.to_bits(), (-0.0f64).to_bits());
    assert_eq!(back, shapes);
}

#[test]
fn partition_holds_after_set_and_push() {
    let mut buffer = FlatShapesBuffer::new();
    buffer.set_shapes(&sample_shapes());
    buffer.push_shapes(&vec![vec![vec![p(1, 1), p(2, 2)]], vec![]]);
    let contours = &buffer.contour_ranges;
    let shapes = &buffer.shape_ranges;
    let mut expected_start = 0u64;
    for r in contours.iter() {
        assert!(r.start <= r.end);
        assert_eq!(r.start, expected_start);
        assert_eq!((r.end - r.start) % 2, 0);
        expected_start = r.end;
    }
    assert_eq!(expected_start as usize, buffer.flat_points.len());
    let mut expected_start = 0u64;
    for r in shapes.iter() {
        assert!(r.start <= r.end);
        assert_eq!(r.start, expected_start);
        expected_start = r.end;
    }
    assert_eq!(expected_start as usize, contours.len());
    let mut all = sample_shapes();
    all.push(vec![vec![p(1, 1), p(2, 2)]]);
    all.push(vec![]);
    assert_eq!(buffer.to_shapes(), all);
}

#[test]
fn clear_empties_and_set_after_clear_matches_fresh_buffer() {
    let mut used = FlatShapesBuffer::new();
    used.set_shapes(&vec![vec![vec![p(9, 9), p(8, 8), p(7, 7)]]]);
    used.clear();
    assert!(used.is_empty());
    assert!(used.contour_ranges.is_empty());
    assert!(used.shape_ranges.is_empty());
    used.set_shapes(&sample_shapes());
    let mut fresh = FlatShapesBuffer::new();
    fresh.set_shapes(&sample_shapes());
    assert_eq!(used.flat_points, fresh.flat_points);
    assert_eq!(used.contour_ranges, fresh.contour_ranges);
    assert_eq!(used.shape_ranges, fresh.shape_ranges);
}

#[test]
fn set_shapes_replaces_previous_contents() {
    let mut buffer = FlatShapesBuffer::new();
    buffer.set_shapes(&sample_shapes());
    let single = vec![vec![vec![p(3, 4)]]];
    buffer.set_shapes(&single);
    assert_eq!(buffer.flat_points, vec![3, 4]);
    assert_eq!(buffer.to_shapes(), single);
}

#[test]
fn empty_shapes_give_empty_buffer() {
    let mut buffer = FlatShapesBuffer::<i32>::with_capacity(10, 2, 1);
    buffer.set_shapes(&vec![]);
    assert!(buffer.is_empty());
    assert_eq!(buffer.to_shapes(), Vec::<Vec<Vec<Point<i32>>>>::new());
}

#[test]
fn triangulation_round_trip_int() {
    let t = Triangulation {
        points: vec![p(0, 0), p(10, 0), p(10, 10), p(0, 10)],
        indices: vec![0, 1, 2, 0, 2, 3],
    };
    let mut flat = FlatIntTriangulation::new();
    flat.set_triangulation(&t);
    assert_eq!(flat.flat_points, vec![0, 0, 10, 0, 10, 10, 0, 10]);
    assert_eq!(flat.indices, vec![0, 1, 2, 0, 2, 3]);
    assert_eq!(flat.to_triangulation(), t);
}

#[test]
fn triangulation_round_trip_f64() {
    let t = Triangulation {
        points: vec![p(0.25f64, 0.5), p(1.0, 0.0), p(0.0, 1.0)],
        indices: vec![2, 1, 0],
    };
    let mut flat = FlatTriangulation::with_capacity(3, 1);
    flat.set_triangulation(&t);
    assert_eq!(flat.to_triangulation(), t);
}

#[test]
fn triangulation_push_keeps_indices_as_given() {
    let a = Triangulation { points: vec![p(0, 0), p(1, 0), p(0, 1)], indices: vec![0, 1, 2] };
    let b = Triangulation { points: vec![p(5, 5), p(6, 5), p(5, 6)], indices: vec![0, 1, 2] };
    let mut flat = FlatIntTriangulation::new();
    flat.set_triangulation(&a);
    flat.push_triangulation(&b);
    assert_eq!(flat.indices, vec![0, 1, 2, 0, 1, 2]);
    assert_eq!(flat.flat_points, vec![0, 0, 1, 0, 0, 1, 5, 5, 6, 5, 5, 6]);
}

#[test]
fn triangulation_clear_and_fill() {
    let t = Triangulation { points: vec![p(1, 2)], indices: vec![7] };
    let mut flat = FlatIntTriangulation::new();
    flat.set_triangulation(&t);
    let mut target = Triangulation { points: vec![p(9, 9), p(8, 8)], indices: vec![1, 2, 3] };
    flat.fill_triangulation(&mut target);
    assert_eq!(target, t);
    flat.clear();
    assert!(flat.is_empty());
    assert!(flat.indices.is_empty());
}

#[test]
fn from_shapes_matches_set_shapes() {
    let built = FlatShapesBuffer::from_shapes(&sample_shapes());
    let mut set = FlatShapesBuffer::new();
    set.set_shapes(&sample_shapes());
    assert_eq!(built.flat_points, set.flat_points);
    assert_eq!(built.contour_ranges, set.contour_ranges);
    assert_eq!(built.shape_ranges, set.shape_ranges);
    assert_eq!(built.to_shapes(), sample_shapes());
}

#[test]
fn from_triangulation_flattens() {
    let t = Triangulation { points: vec![p(1, -1), p(2, -2), p(3, -3)], indices: vec![2, 0, 1] };
    let flat = FlatIntTriangulation::from_triangulation(&t);
    assert_eq!(flat.flat_points, vec![1, -1, 2, -2, 3, -3]);
    assert_eq!(flat.indices, vec![2, 0, 1]);
    assert_eq!(flat.to_triangulation(), t);
}

#[test]
fn range_from_std_range() {
    assert_eq!(RangeFFI::from(2..5), range(2, 5));
    assert_eq!(RangeFFI::from_bounds(7, 7), range(7, 7));
    assert_eq!(RangeFFI::default(), range(0, 0));
}

#[test]
fn well_formedness_is_checked() {
    let mut buffer = FlatShapesBuffer::from_shapes(&sample_shapes());
    assert!(buffer.is_well_formed());
    buffer.contour_ranges[1] = range(8, 13);
    assert!(!buffer.is_well_formed());
    buffer.contour_ranges[1] = range(9, 14);
    assert!(!buffer.is_well_formed());
    let mut other = FlatShapesBuffer::from_shapes(&sample_shapes());
    other.shape_ranges[2] = range(2, 5);
    assert!(!other.is_well_formed());
    other.shape_ranges.clear();
    assert!(!other.is_well_formed());
    assert!(FlatShapesBuffer::<i32>::new().is_well_formed());
}
