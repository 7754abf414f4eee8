use vstd::prelude::*;

use crate::geometry::{interleave, pair_up, shape_view, shapes_view, Contour, Point, Shape, Shapes};
use crate::range::{boundary, even_spans, has_even_spans, is_partition, partitions, RangeFFI};

verus! {

/// Shapes stored as three parallel arrays:
/// - `flat_points` holds the coordinates as `[x0, y0, x1, y1, ...]`;
/// - `contour_ranges` holds, per contour, its span of `flat_points`;
/// - `shape_ranges` holds, per shape, its span of `contour_ranges`.
#[derive(Clone, Debug)]
pub struct FlatShapesBuffer<T> {
    pub flat_points: Vec<T>,
    pub contour_ranges: Vec<RangeFFI>,
    pub shape_ranges: Vec<RangeFFI>,
}

impl<T> FlatShapesBuffer<T> {
    /// Both range layers partition the layer below them, and every contour
    /// spans whole points.
    pub open spec fn wf(&self) -> bool {
        &&& partitions(self.contour_ranges@, self.flat_points@.len() as int)
        &&& even_spans(self.contour_ranges@)
        &&& partitions(self.shape_ranges@, self.contour_ranges@.len() as int)
    }

    /// The points of the `k`-th stored contour.
    pub open spec fn contour_at(&self, k: int) -> Seq<Point<T>> {
        let r = self.contour_ranges@[k];
        pair_up(self.flat_points@.subrange(r.start as int, r.end as int))
    }

    /// The contours of the `s`-th stored shape.
    pub open spec fn shape_at(&self, s: int) -> Seq<Seq<Point<T>>> {
        let r = self.shape_ranges@[s];
        Seq::new(r.span() as nat, |j: int| self.contour_at(r.start + j))
    }

    /// All three arrays are empty.
    pub open spec fn is_blank(&self) -> bool {
        &&& self.flat_points@.len() == 0
        &&& self.contour_ranges@.len() == 0
        &&& self.shape_ranges@.len() == 0
    }

    /// `b` holds everything `self` holds, at the same positions.
    pub open spec fn extended_by(&self, b: &Self) -> bool {
        &&& self.flat_points@.len() <= b.flat_points@.len()
        &&& b.flat_points@.subrange(0, self.flat_points@.len() as int) == self.flat_points@
        &&& self.contour_ranges@.len() <= b.contour_ranges@.len()
        &&& b.contour_ranges@.subrange(0, self.contour_ranges@.len() as int)
            == self.contour_ranges@
        &&& self.shape_ranges@.len() <= b.shape_ranges@.len()
        &&& b.shape_ranges@.subrange(0, self.shape_ranges@.len() as int) == self.shape_ranges@
    }
}

impl<T> View for FlatShapesBuffer<T> {
    type V = Seq<Seq<Seq<Point<T>>>>;

    /// The shapes the buffer describes.
    open spec fn view(&self) -> Seq<Seq<Seq<Point<T>>>> {
        Seq::new(self.shape_ranges@.len(), |s: int| self.shape_at(s))
    }
}

/// Appending to the arrays leaves every contour already described unchanged.
proof fn lemma_contours_kept<T>(a: FlatShapesBuffer<T>, b: FlatShapesBuffer<T>)
    requires
        partitions(a.contour_ranges@, a.flat_points@.len() as int),
        a.extended_by(&b),
    ensures
        forall|k: int|
            0 <= k < a.contour_ranges@.len() ==> #[trigger] b.contour_at(k) == a.contour_at(k),
{
    assert forall|k: int| 0 <= k < a.contour_ranges@.len() implies #[trigger] b.contour_at(k)
        == a.contour_at(k) by {
        assert(b.contour_ranges@[k] == a.contour_ranges@[k]);
        let r = a.contour_ranges@[k];
        assert(b.flat_points@.subrange(r.start as int, r.end as int) =~= a.flat_points@.subrange(
            r.start as int,
            r.end as int,
        ));
    }
}

/// Appending to the arrays of a well-formed buffer leaves every shape
/// already described unchanged.
proof fn lemma_shapes_kept<T>(a: FlatShapesBuffer<T>, b: FlatShapesBuffer<T>)
    requires
        a.wf(),
        a.extended_by(&b),
    ensures
        forall|k: int|
            0 <= k < a.contour_ranges@.len() ==> #[trigger] b.contour_at(k) == a.contour_at(k),
        forall|s: int| 0 <= s < a.shape_ranges@.len() ==> #[trigger] b.shape_at(s) == a.shape_at(s),
{
    lemma_contours_kept(a, b);
    assert forall|s: int| 0 <= s < a.shape_ranges@.len() implies #[trigger] b.shape_at(s)
        == a.shape_at(s) by {
        assert(b.shape_ranges@[s] == a.shape_ranges@[s]);
        let r = a.shape_ranges@[s];
        assert forall|j: int| 0 <= j < r.span() implies #[trigger] b.contour_at(r.start + j)
            == a.contour_at(r.start + j) by {
            assert(0 <= r.start + j < a.contour_ranges@.len());
        }
        assert(b.shape_at(s) =~= a.shape_at(s));
    }
}

/// Every buffer extends itself.
proof fn lemma_extended_by_self<T>(a: FlatShapesBuffer<T>)
    ensures
        a.extended_by(&a),
{
    assert(a.flat_points@.subrange(0, a.flat_points@.len() as int) =~= a.flat_points@);
    assert(a.contour_ranges@.subrange(0, a.contour_ranges@.len() as int) =~= a.contour_ranges@);
    assert(a.shape_ranges@.subrange(0, a.shape_ranges@.len() as int) =~= a.shape_ranges@);
}

/// Extension is transitive.
proof fn lemma_extended_by_trans<T>(
    a: FlatShapesBuffer<T>,
    b: FlatShapesBuffer<T>,
    c: FlatShapesBuffer<T>,
)
    requires
        a.extended_by(&b),
        b.extended_by(&c),
    ensures
        a.extended_by(&c),
{
    assert(c.flat_points@.subrange(0, a.flat_points@.len() as int) =~= b.flat_points@.subrange(
        0,
        a.flat_points@.len() as int,
    ));
    assert(c.contour_ranges@.subrange(0, a.contour_ranges@.len() as int)
        =~= b.contour_ranges@.subrange(0, a.contour_ranges@.len() as int));
    assert(c.shape_ranges@.subrange(0, a.shape_ranges@.len() as int) =~= b.shape_ranges@.subrange(
        0,
        a.shape_ranges@.len() as int,
    ));
}

/// Appending `p.x, p.y` to the interleaving of a prefix gives the
/// interleaving of the prefix one point longer.
proof fn lemma_interleave_step<T>(c: Seq<Point<T>>, i: int)
    requires
        0 <= i < c.len(),
    ensures
        interleave(c.take(i + 1)) == interleave(c.take(i)).push(c[i].x).push(c[i].y),
{
    assert(interleave(c.take(i + 1)) =~= interleave(c.take(i)).push(c[i].x).push(c[i].y));
}

/// Pairing up interleaved coordinates gives back the points.
pub proof fn lemma_pair_up_interleave<T>(c: Seq<Point<T>>)
    ensures
        pair_up(interleave(c)) == c,
{
    assert(pair_up(interleave(c)) =~= c);
}

impl<T: Copy> FlatShapesBuffer<T> {
    /// Constructs an empty buffer.
    pub fn new() -> (r: Self)
        ensures
            r.is_blank(),
            r.wf(),
            r@ == Seq::<Seq<Seq<Point<T>>>>::empty(),
    {
        let r = FlatShapesBuffer {
            flat_points: Vec::new(),
            contour_ranges: Vec::new(),
            shape_ranges: Vec::new(),
        };
        reveal(boundary);
        assert(r@ =~= Seq::<Seq<Seq<Point<T>>>>::empty());
        r
    }

    /// Constructs an empty buffer reserving the requested capacities for reuse.
    pub fn with_capacity(points: usize, contours: usize, shapes: usize) -> (r: Self)
        ensures
            r.is_blank(),
            r.wf(),
            r@ == Seq::<Seq<Seq<Point<T>>>>::empty(),
    {
        let mut buffer = FlatShapesBuffer::new();
        buffer.reserve(points, contours, shapes);
        buffer
    }

    /// Checks that both range layers partition the layer below them and
    /// that every contour spans whole points.
    pub fn is_well_formed(&self) -> (r: bool)
        ensures
            r == self.wf(),
    {
        is_partition(&self.contour_ranges, self.flat_points.len()) && has_even_spans(
            &self.contour_ranges,
        ) && is_partition(&self.shape_ranges, self.contour_ranges.len())
    }

    /// Returns `true` when no coordinates are stored.
    pub fn is_empty(&self) -> (r: bool)
        ensures
            r == (self.flat_points@.len() == 0),
    {
        self.flat_points.is_empty()
    }

    /// Removes all stored data while keeping the allocations.
    pub fn clear(&mut self)
        ensures
            final(self).is_blank(),
            final(self).wf(),
            final(self)@ == Seq::<Seq<Seq<Point<T>>>>::empty(),
    {
        self.flat_points.clear();
        self.contour_ranges.clear();
        self.shape_ranges.clear();
        reveal(boundary);
        assert(self@ =~= Seq::<Seq<Seq<Point<T>>>>::empty());
    }

    /// A buffer holding `shapes`, allocated once at their full size.
    pub fn from_shapes(shapes: &Shapes<T>) -> (r: Self)
        ensures
            r.wf(),
            r@ == shapes_view(*shapes),
    {
        let (points, contours) = Self::sizes(shapes);
        let mut buffer = FlatShapesBuffer::with_capacity(points, contours, shapes.len());
        buffer.push_shapes(shapes);
        assert(shapes_view(*shapes) =~= Seq::<Seq<Seq<Point<T>>>>::empty() + shapes_view(*shapes));
        buffer
    }

    /// Replaces the contents with `shapes`, reserving their full size once.
    pub fn set_shapes(&mut self, shapes: &Shapes<T>)
        ensures
            final(self).wf(),
            final(self)@ == shapes_view(*shapes),
    {
        let (points, contours) = Self::sizes(shapes);
        self.clear_and_reserve(points, contours, shapes.len());
        self.push_shapes(shapes);
        assert(shapes_view(*shapes) =~= Seq::<Seq<Seq<Point<T>>>>::empty() + shapes_view(*shapes));
    }

    /// How many coordinates and contours `shapes` hold, saturating at
    /// `usize::MAX`; only used to size allocations.
    fn sizes(shapes: &Shapes<T>) -> (usize, usize) {
        let mut point_count: usize = 0;
        let mut contour_count: usize = 0;
        let mut s: usize = 0;
        while s < shapes.len()
            invariant
                s <= shapes@.len(),
            decreases shapes@.len() - s,
        {
            let shape = &shapes[s];
            contour_count = contour_count.saturating_add(shape.len());
            let mut k: usize = 0;
            while k < shape.len()
                invariant
                    k <= shape@.len(),
                decreases shape@.len() - k,
            {
                point_count = point_count.saturating_add(shape[k].len());
                k = k + 1;
            }
            s = s + 1;
        }
        (point_count.saturating_add(point_count), contour_count)
    }

    /// Appends `shapes` after what is stored; capacity is the caller's concern.
    pub fn push_shapes(&mut self, shapes: &Shapes<T>)
        requires
            old(self).wf(),
        ensures
            final(self).wf(),
            final(self)@ == old(self)@ + shapes_view(*shapes),
            old(self).extended_by(final(self)),
    {
        let ghost start = *self;
        proof {
            lemma_extended_by_self(start);
        }
        let mut s: usize = 0;
        while s < shapes.len()
            invariant
                s <= shapes@.len(),
                self.wf(),
                self@ == start@ + shapes_view(*shapes).take(s as int),
                start.extended_by(self),
            decreases shapes@.len() - s,
        {
            let ghost before = *self;
            self.push_shape(&shapes[s]);
            proof {
                lemma_extended_by_trans(start, before, *self);
                assert(shapes_view(*shapes).take(s + 1) =~= shapes_view(*shapes).take(
                    s as int,
                ).push(shape_view(shapes@[s as int])));
                assert(self@ =~= start@ + shapes_view(*shapes).take(s + 1));
            }
            s = s + 1;
        }
        assert(shapes_view(*shapes).take(shapes@.len() as int) =~= shapes_view(*shapes));
    }

    /// Appends one shape: its contours, then the range that groups them.
    fn push_shape(&mut self, shape: &Shape<T>)
        requires
            old(self).wf(),
        ensures
            final(self).wf(),
            final(self)@ == old(self)@.push(shape_view(*shape)),
            old(self).extended_by(final(self)),
    {
        let ghost start = *self;
        proof {
            lemma_extended_by_self(start);
        }
        let shape_start = self.contour_ranges.len();
        let mut k: usize = 0;
        while k < shape.len()
            invariant
                k <= shape@.len(),
                start.wf(),
                shape_start == start.contour_ranges@.len(),
                start.extended_by(self),
                self.shape_ranges@ == start.shape_ranges@,
                partitions(self.contour_ranges@, self.flat_points@.len() as int),
                even_spans(self.contour_ranges@),
                self.contour_ranges@.len() == shape_start + k,
                forall|j: int| 0 <= j < k ==> #[trigger] self.contour_at(shape_start + j) == shape@[j]@,
            decreases shape@.len() - k,
        {
            let ghost before = *self;
            let range = self.push_contour(&shape[k]);
            self.contour_ranges.push(range);
            proof {
                reveal(boundary);
                let cr = self.contour_ranges@;
                assert(cr.subrange(0, before.contour_ranges@.len() as int)
                    =~= before.contour_ranges@);
                assert(self.flat_points@.subrange(0, before.flat_points@.len() as int)
                    =~= before.flat_points@);
                assert(before.extended_by(self));
                lemma_contours_kept(before, *self);
                assert(boundary(cr, cr.len() - 1) == before.flat_points@.len()) by {
                    assert(boundary(before.contour_ranges@, before.contour_ranges@.len() as int)
                        == before.flat_points@.len());
                    if cr.len() > 1 {
                        assert(cr[cr.len() - 2] == before.contour_ranges@[cr.len() - 2]);
                    }
                }
                assert(partitions(cr, self.flat_points@.len() as int)) by {
                    assert forall|i: int| 0 <= i < cr.len() implies (#[trigger] cr[i]).start
                        == boundary(cr, i) by {
                        if i < cr.len() - 1 {
                            assert(cr[i] == before.contour_ranges@[i]);
                            if i > 0 {
                                assert(cr[i - 1] == before.contour_ranges@[i - 1]);
                            }
                        }
                    }
                }
                assert(self.flat_points@.subrange(range.start as int, range.end as int)
                    =~= interleave(shape@[k as int]@));
                lemma_pair_up_interleave(shape@[k as int]@);
                assert(self.contour_at(shape_start + k) == shape@[k as int]@);
                assert(start.extended_by(self)) by {
                    assert(self.flat_points@.subrange(0, start.flat_points@.len() as int)
                        =~= before.flat_points@.subrange(0, start.flat_points@.len() as int));
                    assert(self.contour_ranges@.subrange(0, start.contour_ranges@.len() as int)
                        =~= before.contour_ranges@.subrange(0, start.contour_ranges@.len() as int));
                }
                assert forall|j: int| 0 <= j < k + 1 implies #[trigger] self.contour_at(
                    shape_start + j,
                ) == shape@[j]@ by {
                    if j < k {
                        assert(before.contour_at(shape_start + j) == shape@[j]@);
                    }
                }
            }
            k = k + 1;
        }
        let ghost mid = *self;
        let shape_range = RangeFFI::from_bounds(shape_start, self.contour_ranges.len());
        self.shape_ranges.push(shape_range);
        proof {
            reveal(boundary);
            let sr = self.shape_ranges@;
            assert(sr.subrange(0, mid.shape_ranges@.len() as int) =~= mid.shape_ranges@);
            assert(self.flat_points@.subrange(0, mid.flat_points@.len() as int)
                =~= mid.flat_points@);
            assert(self.contour_ranges@.subrange(0, mid.contour_ranges@.len() as int)
                =~= mid.contour_ranges@);
            assert(mid.extended_by(self));
            lemma_shapes_kept(start, *self);
            assert(boundary(sr, sr.len() - 1) == shape_start) by {
                if sr.len() > 1 {
                    assert(sr[sr.len() - 2] == start.shape_ranges@[sr.len() - 2]);
                }
            }
            assert(partitions(sr, self.contour_ranges@.len() as int)) by {
                assert forall|i: int| 0 <= i < sr.len() implies (#[trigger] sr[i]).start
                    == boundary(sr, i) by {
                    if i < sr.len() - 1 {
                        assert(sr[i] == start.shape_ranges@[i]);
                        if i > 0 {
                            assert(sr[i - 1] == start.shape_ranges@[i - 1]);
                        }
                    }
                }
            }
            assert(self.shape_at(sr.len() - 1) =~= shape_view(*shape)) by {
                assert forall|j: int| 0 <= j < shape@.len() implies #[trigger] self.contour_at(
                    shape_start + j,
                ) == shape@[j]@ by {
                    assert(mid.contour_at(shape_start + j) == shape@[j]@);
                    lemma_contours_kept(mid, *self);
                }
            }
            assert(start.extended_by(self)) by {
                assert(self.shape_ranges@.subrange(0, start.shape_ranges@.len() as int)
                    =~= start.shape_ranges@);
            }
            assert(self@ =~= start@.push(shape_view(*shape)));
        }
    }

    /// Appends the coordinates of one contour and returns the span they take.
    fn push_contour(&mut self, contour: &Contour<T>) -> (r: RangeFFI)
        ensures
            final(self).flat_points@ == old(self).flat_points@ + interleave(contour@),
            final(self).contour_ranges@ == old(self).contour_ranges@,
            final(self).shape_ranges@ == old(self).shape_ranges@,
            r.start == old(self).flat_points@.len(),
            r.end == final(self).flat_points@.len(),
            r.span() % 2 == 0,
    {
        let start = self.flat_points.len();
        let _ = self.flat_points.try_reserve(contour.len().saturating_add(contour.len()));
        let mut i: usize = 0;
        while i < contour.len()
            invariant
                i <= contour@.len(),
                start == old(self).flat_points@.len(),
                self.flat_points@ == old(self).flat_points@ + interleave(contour@.take(i as int)),
                self.contour_ranges@ == old(self).contour_ranges@,
                self.shape_ranges@ == old(self).shape_ranges@,
            decreases contour@.len() - i,
        {
            let point = contour[i];
            self.flat_points.push(point.x);
            self.flat_points.push(point.y);
            proof {
                lemma_interleave_step(contour@, i as int);
            }
            i = i + 1;
        }
        assert(contour@.take(contour@.len() as int) =~= contour@);
        RangeFFI::from_bounds(start, self.flat_points.len())
    }

    /// Rebuilds the shapes the buffer describes.
    pub fn to_shapes(&self) -> (r: Shapes<T>)
        requires
            self.wf(),
        ensures
            shapes_view(r) == self@,
    {
        let mut shapes: Shapes<T> = Vec::with_capacity(self.shape_ranges.len());
        let contour_total = self.contour_ranges.len();
        let point_total = self.flat_points.len();
        let mut s: usize = 0;
        while s < self.shape_ranges.len()
            invariant
                self.wf(),
                contour_total == self.contour_ranges@.len(),
                point_total == self.flat_points@.len(),
                s <= self.shape_ranges@.len(),
                shapes_view(shapes) == self@.take(s as int),
            decreases self.shape_ranges@.len() - s,
        {
            let shape_range = self.shape_ranges[s];
            assert(shape_range.start <= shape_range.end <= self.contour_ranges@.len());
            let start = shape_range.start as usize;
            let end = shape_range.end as usize;
            let mut shape: Shape<T> = Vec::with_capacity(end - start);
            let mut k: usize = start;
            while k < end
                invariant
                    self.wf(),
                    contour_total == self.contour_ranges@.len(),
                    point_total == self.flat_points@.len(),
                    s < self.shape_ranges@.len(),
                    shape_range == self.shape_ranges@[s as int],
                    start == shape_range.start,
                    end == shape_range.end,
                    start <= k <= end,
                    end <= self.contour_ranges@.len(),
                    shape_view(shape) == self.shape_at(s as int).take(k - start),
                decreases end - k,
            {
                let contour_range = self.contour_ranges[k];
                assert(contour_range.start <= contour_range.end <= self.flat_points@.len());
                assert(contour_range.span() % 2 == 0);
                let contour = self.slice_to_contour(
                    contour_range.start as usize,
                    contour_range.end as usize,
                );
                let ghost prev = shape_view(shape);
                shape.push(contour);
                proof {
                    let whole = self.shape_at(s as int);
                    assert(contour@ == self.contour_at(k as int));
                    assert(whole[k - start] == self.contour_at(k as int));
                    assert(shape_view(shape) =~= prev.push(contour@));
                    assert(whole.take(k - start + 1) =~= whole.take(k - start).push(
                        whole[k - start],
                    ));
                }
                k = k + 1;
            }
            assert(shape_view(shape) =~= self.shape_at(s as int));
            let ghost prev = shapes_view(shapes);
            let ghost added = shape_view(shape);
            shapes.push(shape);
            proof {
                assert(self@[s as int] == self.shape_at(s as int));
                assert(shapes_view(shapes) =~= prev.push(added));
                assert(self@.take(s + 1) =~= self@.take(s as int).push(self@[s as int]));
            }
            s = s + 1;
        }
        assert(self@.take(s as int) =~= self@);
        shapes
    }

    /// Reads the points stored in `flat_points[start..end]`.
    fn slice_to_contour(&self, start: usize, end: usize) -> (r: Contour<T>)
        requires
            start <= end <= self.flat_points@.len(),
            (end - start) % 2 == 0,
        ensures
            r@ == pair_up(self.flat_points@.subrange(start as int, end as int)),
    {
        let count = (end - start) / 2;
        let mut contour: Contour<T> = Vec::with_capacity(count);
        let mut p: usize = 0;
        while p < count
            invariant
                start <= end <= self.flat_points@.len(),
                count == (end - start) / 2,
                p <= count,
                contour@ == pair_up(self.flat_points@.subrange(start as int, end as int)).take(
                    p as int,
                ),
            decreases count - p,
        {
            let at = start + 2 * p;
            contour.push(Point { x: self.flat_points[at], y: self.flat_points[at + 1] });
            assert(contour@ =~= pair_up(self.flat_points@.subrange(start as int, end as int)).take(
                p + 1,
            ));
            p = p + 1;
        }
        assert(contour@ =~= pair_up(self.flat_points@.subrange(start as int, end as int)));
        contour
    }

    /// Empties the buffer, then reserves the given capacities.
    fn clear_and_reserve(&mut self, points: usize, contours: usize, shapes: usize)
        ensures
            final(self).is_blank(),
            final(self).wf(),
            final(self)@ == Seq::<Seq<Seq<Point<T>>>>::empty(),
    {
        self.clear();
        self.reserve(points, contours, shapes);
    }

    /// Reserves room for more items without changing the contents.
    fn reserve(&mut self, points: usize, contours: usize, shapes: usize)
        ensures
            final(self).flat_points@ == old(self).flat_points@,
            final(self).contour_ranges@ == old(self).contour_ranges@,
            final(self).shape_ranges@ == old(self).shape_ranges@,
            final(self)@ == old(self)@,
    {
        let _ = self.flat_points.try_reserve(points);
        let _ = self.contour_ranges.try_reserve(contours);
        let _ = self.shape_ranges.try_reserve(shapes);
        assert(self@ =~~= old(self)@);
    }
}

} // verus!
