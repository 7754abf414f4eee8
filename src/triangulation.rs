use vstd::prelude::*;

use crate::geometry::{interleave, pair_up, Point};

verus! {

/// Index of a vertex within a triangulation.
pub type IntTriangulationIndex = u32;

/// A triangulation: vertices, and three vertex indices per triangle.
#[derive(Clone, Debug, PartialEq)]
pub struct Triangulation<T> {
    pub points: Vec<Point<T>>,
    pub indices: Vec<IntTriangulationIndex>,
}

impl<T> Triangulation<T> {
    /// The vertices and the index list.
    pub open spec fn model(&self) -> (Seq<Point<T>>, Seq<IntTriangulationIndex>) {
        (self.points@, self.indices@)
    }
}

impl<T: Copy> Triangulation<T> {
    /// A triangulation without vertices or triangles.
    pub fn empty() -> (r: Self)
        ensures
            r.points@.len() == 0,
            r.indices@.len() == 0,
    {
        Triangulation { points: Vec::new(), indices: Vec::new() }
    }
}

/// A triangulation stored as interleaved coordinates `[x0, y0, x1, y1, ...]`
/// and the flat index list.
#[derive(Clone, Debug)]
pub struct FlatTriangulation<T> {
    pub flat_points: Vec<T>,
    pub indices: Vec<IntTriangulationIndex>,
}

/// The triangulation buffer for integer coordinates.
pub type FlatIntTriangulation = FlatTriangulation<i32>;

impl<T> FlatTriangulation<T> {
    /// The coordinates form whole points.
    pub open spec fn wf(&self) -> bool {
        self.flat_points@.len() % 2 == 0
    }
}

impl<T> View for FlatTriangulation<T> {
    type V = (Seq<Point<T>>, Seq<IntTriangulationIndex>);

    /// The vertices and the index list the buffer describes.
    open spec fn view(&self) -> (Seq<Point<T>>, Seq<IntTriangulationIndex>) {
        (pair_up(self.flat_points@), self.indices@)
    }
}

/// Interleaving points and pairing them up again gives them back; on
/// whole points, pairing up and interleaving gives back the coordinates.
pub proof fn lemma_interleave_pair_up<T>(coords: Seq<T>)
    requires
        coords.len() % 2 == 0,
    ensures
        interleave(pair_up(coords)) == coords,
{
    assert(interleave(pair_up(coords)) =~= coords);
}

impl<T: Copy> FlatTriangulation<T> {
    /// Constructs an empty buffer.
    pub fn new() -> (r: Self)
        ensures
            r.flat_points@.len() == 0,
            r.indices@.len() == 0,
            r.wf(),
    {
        FlatTriangulation { flat_points: Vec::new(), indices: Vec::new() }
    }

    /// Constructs an empty buffer with room for `points` vertices and
    /// `triangles` triangles.
    pub fn with_capacity(points: usize, triangles: usize) -> (r: Self)
        ensures
            r.flat_points@.len() == 0,
            r.indices@.len() == 0,
            r.wf(),
    {
        let mut r = FlatTriangulation::new();
        r.reserve(points, triangles);
        r
    }

    /// Returns `true` when no vertices are stored.
    pub fn is_empty(&self) -> (r: bool)
        ensures
            r == (self.flat_points@.len() == 0),
    {
        self.flat_points.is_empty()
    }

    /// Removes the stored vertices and indices, keeping the allocations.
    pub fn clear(&mut self)
        ensures
            final(self).flat_points@.len() == 0,
            final(self).indices@.len() == 0,
            final(self).wf(),
    {
        self.flat_points.clear();
        self.indices.clear();
    }

    /// A buffer holding `triangulation`, allocated once at its full size.
    pub fn from_triangulation(triangulation: &Triangulation<T>) -> (r: Self)
        ensures
            r.wf(),
            r.flat_points@ == interleave(triangulation.points@),
            r@ == triangulation.model(),
    {
        let mut flat = FlatTriangulation::with_capacity(
            triangulation.points.len(),
            triangulation.indices.len() / 3,
        );
        flat.push_triangulation(triangulation);
        assert(flat.flat_points@ =~= interleave(triangulation.points@));
        assert(flat.indices@ =~= triangulation.indices@);
        flat
    }

    /// Replaces the contents with `triangulation`.
    pub fn set_triangulation(&mut self, triangulation: &Triangulation<T>)
        ensures
            final(self).wf(),
            final(self).flat_points@ == interleave(triangulation.points@),
            final(self)@ == triangulation.model(),
    {
        self.clear_and_reserve(triangulation.points.len(), triangulation.indices.len() / 3);
        self.push_triangulation(triangulation);
        assert(self.flat_points@ =~= interleave(triangulation.points@));
        assert(self.indices@ =~= triangulation.indices@);
    }

    /// Appends the vertices and indices of `triangulation` as they are;
    /// indices are not shifted.
    pub fn push_triangulation(&mut self, triangulation: &Triangulation<T>)
        requires
            old(self).wf(),
        ensures
            final(self).wf(),
            final(self).flat_points@ == old(self).flat_points@ + interleave(
                triangulation.points@,
            ),
            final(self).indices@ == old(self).indices@ + triangulation.indices@,
            final(self)@ == (
                old(self)@.0 + triangulation.points@,
                old(self)@.1 + triangulation.indices@,
            ),
    {
        let points = &triangulation.points;
        let mut i: usize = 0;
        while i < points.len()
            invariant
                i <= points@.len(),
                self.flat_points@ == old(self).flat_points@ + interleave(points@.take(i as int)),
                self.indices@ == old(self).indices@,
            decreases points@.len() - i,
        {
            let point = points[i];
            self.flat_points.push(point.x);
            self.flat_points.push(point.y);
            assert(interleave(points@.take(i + 1)) =~= interleave(points@.take(i as int)).push(
                point.x,
            ).push(point.y));
            i = i + 1;
        }
        assert(points@.take(points@.len() as int) =~= points@);
        let mut j: usize = 0;
        while j < triangulation.indices.len()
            invariant
                j <= triangulation.indices@.len(),
                self.flat_points@ == old(self).flat_points@ + interleave(points@),
                self.indices@ == old(self).indices@ + triangulation.indices@.take(j as int),
            decreases triangulation.indices@.len() - j,
        {
            self.indices.push(triangulation.indices[j]);
            assert(triangulation.indices@.take(j + 1) =~= triangulation.indices@.take(
                j as int,
            ).push(triangulation.indices@[j as int]));
            j = j + 1;
        }
        assert(triangulation.indices@.take(j as int) =~= triangulation.indices@);
        proof {
            let old_pts = old(self).flat_points@;
            lemma_pair_up_concat(old_pts, interleave(points@));
        }
    }

    /// Rebuilds the triangulation the buffer describes.
    pub fn to_triangulation(&self) -> (r: Triangulation<T>)
        requires
            self.wf(),
        ensures
            r.model() == self@,
    {
        let mut triangulation = Triangulation {
            points: Vec::with_capacity(self.flat_points.len() / 2),
            indices: Vec::new(),
        };
        self.fill_triangulation(&mut triangulation);
        triangulation
    }

    /// Overwrites `triangulation` with the stored vertices and indices.
    pub fn fill_triangulation(&self, triangulation: &mut Triangulation<T>)
        requires
            self.wf(),
        ensures
            final(triangulation).model() == self@,
    {
        triangulation.points.clear();
        let _ = triangulation.points.try_reserve(self.flat_points.len() / 2);
        let total = self.flat_points.len();
        let count = total / 2;
        let mut p: usize = 0;
        while p < count
            invariant
                total == self.flat_points@.len(),
                count == total / 2,
                p <= count,
                triangulation.points@ == pair_up(self.flat_points@).take(p as int),
            decreases count - p,
        {
            triangulation.points.push(
                Point { x: self.flat_points[2 * p], y: self.flat_points[2 * p + 1] },
            );
            assert(triangulation.points@ =~= pair_up(self.flat_points@).take(p + 1));
            p = p + 1;
        }
        assert(pair_up(self.flat_points@).take(count as int) =~= pair_up(self.flat_points@));
        triangulation.indices.clear();
        let _ = triangulation.indices.try_reserve(self.indices.len());
        let mut j: usize = 0;
        while j < self.indices.len()
            invariant
                j <= self.indices@.len(),
                triangulation.points@ == pair_up(self.flat_points@),
                triangulation.indices@ == self.indices@.take(j as int),
            decreases self.indices@.len() - j,
        {
            triangulation.indices.push(self.indices[j]);
            assert(triangulation.indices@ =~= self.indices@.take(j + 1));
            j = j + 1;
        }
        assert(self.indices@.take(j as int) =~= self.indices@);
    }

    /// Empties the buffer, then reserves room for the given counts.
    fn clear_and_reserve(&mut self, points: usize, triangles: usize)
        ensures
            final(self).flat_points@.len() == 0,
            final(self).indices@.len() == 0,
            final(self).wf(),
    {
        self.clear();
        self.reserve(points, triangles);
    }

    /// Reserves room for more vertices and triangles without changing the
    /// contents.
    fn reserve(&mut self, points: usize, triangles: usize)
        ensures
            final(self).flat_points@ == old(self).flat_points@,
            final(self).indices@ == old(self).indices@,
    {
        let _ = self.flat_points.try_reserve(points.saturating_add(points));
        let _ = self.indices.try_reserve(triangles.saturating_add(triangles).saturating_add(
            triangles,
        ));
    }
}

/// Pairing up a concatenation of whole-point coordinate runs pairs up each run.
proof fn lemma_pair_up_concat<T>(a: Seq<T>, b: Seq<T>)
    requires
        a.len() % 2 == 0,
    ensures
        pair_up(a + b) == pair_up(a) + pair_up(b),
{
    assert(pair_up(a + b) =~= pair_up(a) + pair_up(b));
}

} // verus!
