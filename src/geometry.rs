use vstd::prelude::*;

verus! {

/// A point with coordinates of one numeric kind.
#[derive(Clone, Copy, Debug, PartialEq, Eq)]
pub struct Point<T> {
    pub x: T,
    pub y: T,
}

/// An ordered sequence of points; the order gives the winding.
pub type Contour<T> = Vec<Point<T>>;

/// An outer contour followed by its holes.
pub type Shape<T> = Vec<Contour<T>>;

/// The top-level unit of input and output.
pub type Shapes<T> = Vec<Shape<T>>;

pub open spec fn shape_view<T>(s: Shape<T>) -> Seq<Seq<Point<T>>> {
    s@.map_values(|c: Contour<T>| c@)
}

pub open spec fn shapes_view<T>(s: Shapes<T>) -> Seq<Seq<Seq<Point<T>>>> {
    s@.map_values(|sh: Shape<T>| shape_view(sh))
}

/// Contours given as vectors, seen as sequences of points.
pub open spec fn contours_view<T>(cs: Seq<Contour<T>>) -> Seq<Seq<Point<T>>> {
    cs.map_values(|c: Contour<T>| c@)
}

/// Interleaved coordinates `[x0, y0, x1, y1, ...]` of a point sequence.
pub open spec fn interleave<T>(c: Seq<Point<T>>) -> Seq<T> {
    Seq::new(2 * c.len(), |i: int| if i % 2 == 0 { c[i / 2].x } else { c[i / 2].y })
}

/// Points read pairwise from interleaved coordinates.
pub open spec fn pair_up<T>(coords: Seq<T>) -> Seq<Point<T>> {
    Seq::new(coords.len() / 2, |p: int| Point { x: coords[2 * p], y: coords[2 * p + 1] })
}

} // verus!
