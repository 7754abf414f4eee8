//! Laws of the flat codecs.
use vstd::prelude::*;

use crate::geometry::{interleave, shape_view, shapes_view, Shapes};
use crate::range::{boundary, partitions, RangeFFI};
use crate::shape_buffer::{lemma_pair_up_interleave, FlatShapesBuffer};
use crate::triangulation::{lemma_interleave_pair_up, FlatTriangulation, Triangulation};

verus! {

/// Some range of a partition of `[0, boundary(r, n))` holds `k`.
proof fn lemma_covered(r: Seq<RangeFFI>, total: int, n: int, k: int)
    requires
        partitions(r, total),
        0 <= n <= r.len(),
        0 <= k < boundary(r, n),
    ensures
        exists|i: int| 0 <= i < n && (#[trigger] r[i]).start <= k < r[i].end,
    decreases n,
{
    reveal(boundary);
    if n > 0 {
        if k >= r[n - 1].start {
            assert(r[n - 1].start <= k < r[n - 1].end);
        } else {
            assert(r[n - 1].start == boundary(r, n - 1));
            lemma_covered(r, total, n - 1, k);
            let i = choose|i: int| 0 <= i < n - 1 && (#[trigger] r[i]).start <= k < r[i].end;
            assert(0 <= i < n && r[i].start <= k < r[i].end);
        }
    }
}

/// Two partitions with the same number of ranges and the same span at every
/// position are the same partition.
proof fn lemma_partitions_equal(a: Seq<RangeFFI>, ta: int, b: Seq<RangeFFI>, tb: int, n: int)
    requires
        partitions(a, ta),
        partitions(b, tb),
        a.len() == b.len(),
        forall|i: int| 0 <= i < a.len() ==> (#[trigger] a[i]).span() == b[i].span(),
        0 <= n <= a.len(),
    ensures
        forall|i: int| 0 <= i < n ==> #[trigger] a[i] == b[i],
    decreases n,
{
    if n > 0 {
        lemma_partitions_equal(a, ta, b, tb, n - 1);
        let i = n - 1;
        let start_a = a[i].start;
        let start_b = b[i].start;
        assert(start_a == start_b) by {
            reveal(boundary);
            assert(a[i].start == boundary(a, i));
            assert(b[i].start == boundary(b, i));
            if i > 0 {
                assert(a[i - 1] == b[i - 1]);
            }
        }
        assert(a[i].end == b[i].end) by {
            assert(a[i].span() == b[i].span());
        }
    }
}

/// The `k`-th contour of a well-formed buffer is a contour of one of its
/// shapes.
proof fn lemma_contour_in_shape<T>(a: FlatShapesBuffer<T>, k: int) -> (s: int)
    requires
        a.wf(),
        0 <= k < a.contour_ranges@.len(),
    ensures
        0 <= s < a.shape_ranges@.len(),
        a.shape_ranges@[s].start <= k < a.shape_ranges@[s].end,
        a@[s][k - a.shape_ranges@[s].start] == a.contour_at(k),
{
    let sr = a.shape_ranges@;
    lemma_covered(sr, a.contour_ranges@.len() as int, sr.len() as int, k);
    let s = choose|i: int| 0 <= i < sr.len() && (#[trigger] sr[i]).start <= k < sr[i].end;
    assert(a@[s] == a.shape_at(s));
    s
}

/// A well-formed shape buffer is determined by the shapes it describes:
/// two buffers that describe the same shapes hold the same three arrays.
/// So re-flattening what `to_shapes` reads back gives the buffer it was
/// read from, and `set_shapes` gives the same arrays whatever the buffer
/// held before.
pub proof fn lemma_layout_determined<T>(a: FlatShapesBuffer<T>, b: FlatShapesBuffer<T>)
    requires
        a.wf(),
        b.wf(),
        a@ == b@,
    ensures
        a.flat_points@ == b.flat_points@,
        a.contour_ranges@ == b.contour_ranges@,
        a.shape_ranges@ == b.shape_ranges@,
{
    let sa = a.shape_ranges@;
    let sb = b.shape_ranges@;
    assert(sa.len() == a@.len());
    assert forall|i: int| 0 <= i < sa.len() implies (#[trigger] sa[i]).span() == sb[i].span() by {
        assert(a@[i] == a.shape_at(i));
        assert(b@[i] == b.shape_at(i));
    }
    lemma_partitions_equal(
        sa,
        a.contour_ranges@.len() as int,
        sb,
        b.contour_ranges@.len() as int,
        sa.len() as int,
    );
    assert(sa =~= sb);
    if sa.len() > 0 {
        assert(sa[sa.len() - 1] == sb[sb.len() - 1]);
    }
    let ca = a.contour_ranges@;
    let cb = b.contour_ranges@;
    assert(ca.len() == cb.len());
    assert forall|k: int| 0 <= k < ca.len() implies #[trigger] a.contour_at(k) == b.contour_at(k)
        by {
        let s = lemma_contour_in_shape(a, k);
        let t = lemma_contour_in_shape(b, k);
        assert(sa[s].start <= k < sa[s].end);
        assert(sa[t].start <= k < sa[t].end);
        lemma_same_range(sa, a.contour_ranges@.len() as int, s, t, k);
    }
    assert forall|k: int| 0 <= k < ca.len() implies (#[trigger] ca[k]).span() == cb[k].span() by {
        assert(a.contour_at(k) == b.contour_at(k));
        assert(ca[k].span() % 2 == 0);
        assert(cb[k].span() % 2 == 0);
    }
    lemma_partitions_equal(
        ca,
        a.flat_points@.len() as int,
        cb,
        b.flat_points@.len() as int,
        ca.len() as int,
    );
    assert(ca =~= cb);
    if ca.len() > 0 {
        assert(ca[ca.len() - 1] == cb[cb.len() - 1]);
    }
    let pa = a.flat_points@;
    let pb = b.flat_points@;
    assert(pa.len() == pb.len());
    assert forall|p: int| 0 <= p < pa.len() implies #[trigger] pa[p] == pb[p] by {
        lemma_covered(ca, pa.len() as int, ca.len() as int, p);
        let k = choose|i: int| 0 <= i < ca.len() && (#[trigger] ca[i]).start <= p < ca[i].end;
        let r = ca[k];
        let o = p - r.start;
        assert(a.contour_at(k) == b.contour_at(k));
        assert(0 <= o / 2 < r.span() / 2);
        assert(a.contour_at(k)[o / 2] == b.contour_at(k)[o / 2]);
        assert(pa.subrange(r.start as int, r.end as int)[o] == pa[p]);
        assert(pb.subrange(r.start as int, r.end as int)[o] == pb[p]);
    }
    assert(pa =~= pb);
}

/// Clearing leaves a buffer that reports itself empty, and setting shapes
/// on a cleared buffer gives the same arrays as setting them on a fresh one:
/// `cleared` is a buffer as `clear` leaves it, `reused` and `fresh` are
/// buffers as `set_shapes(shapes)` leaves them.
pub proof fn lemma_clear_then_set<T>(
    cleared: FlatShapesBuffer<T>,
    shapes: Shapes<T>,
    reused: FlatShapesBuffer<T>,
    fresh: FlatShapesBuffer<T>,
)
    requires
        cleared.is_blank(),
        reused.wf(),
        reused@ == shapes_view(shapes),
        fresh.wf(),
        fresh@ == shapes_view(shapes),
    ensures
        cleared.flat_points@.len() == 0,
        cleared@.len() == 0,
        reused.flat_points@ == fresh.flat_points@,
        reused.contour_ranges@ == fresh.contour_ranges@,
        reused.shape_ranges@ == fresh.shape_ranges@,
{
    lemma_layout_determined(reused, fresh);
}

/// Ranges of a partition that share an index are the same range.
proof fn lemma_same_range(r: Seq<RangeFFI>, total: int, s: int, t: int, k: int)
    requires
        partitions(r, total),
        0 <= s < r.len(),
        0 <= t < r.len(),
        r[s].start <= k < r[s].end,
        r[t].start <= k < r[t].end,
    ensures
        s == t,
{
    if s < t {
        lemma_ends_ordered(r, total, s, t);
    } else if t < s {
        lemma_ends_ordered(r, total, t, s);
    }
}

/// In a partition, a range ends no later than any later range starts.
proof fn lemma_ends_ordered(r: Seq<RangeFFI>, total: int, s: int, t: int)
    requires
        partitions(r, total),
        0 <= s < t < r.len(),
    ensures
        r[s].end <= r[t].start,
    decreases t - s,
{
    reveal(boundary);
    assert(r[t].start == boundary(r, t));
    if s < t - 1 {
        lemma_ends_ordered(r, total, s, t - 1);
    }
}

/// Flattening shapes and reading them back gives the same shapes: a buffer
/// left describing `shapes` (as `set_shapes` leaves it) reads back, through
/// `to_shapes`, as the same shapes, contour by contour and point by point.
pub proof fn lemma_shapes_round_trip<T>(shapes: Shapes<T>, b: FlatShapesBuffer<T>, r: Shapes<T>)
    requires
        b.wf(),
        b@ == shapes_view(shapes),
        shapes_view(r) == b@,
    ensures
        shapes_view(r) == shapes_view(shapes),
        r@.len() == shapes@.len(),
        forall|s: int| 0 <= s < r@.len() ==> (#[trigger] r@[s])@.len() == shapes@[s]@.len(),
        forall|s: int, c: int|
            0 <= s < r@.len() && 0 <= c < r@[s]@.len() ==> (#[trigger] r@[s]@[c])@ == shapes@[s]@[c]@,
{
    assert(shapes_view(r).len() == r@.len());
    assert(shapes_view(shapes).len() == shapes@.len());
    assert forall|s: int| 0 <= s < r@.len() implies (#[trigger] r@[s])@.len() == shapes@[s]@.len() by {
        assert(shapes_view(r)[s] == shape_view(r@[s]));
        assert(shapes_view(shapes)[s] == shape_view(shapes@[s]));
    }
    assert forall|s: int, c: int| 0 <= s < r@.len() && 0 <= c < r@[s]@.len() implies (
    #[trigger] r@[s]@[c])@ == shapes@[s]@[c]@ by {
        assert(shapes_view(r)[s] == shape_view(r@[s]));
        assert(shapes_view(shapes)[s] == shape_view(shapes@[s]));
        assert(shape_view(r@[s])[c] == r@[s]@[c]@);
        assert(shape_view(shapes@[s])[c] == shapes@[s]@[c]@);
    }
}

/// Flattening a triangulation and reading it back gives it back: the
/// coordinates `interleave` makes of the vertices, with the indices as they
/// are, describe exactly that triangulation.
pub proof fn lemma_triangulation_round_trip<T>(t: Triangulation<T>, flat: FlatTriangulation<T>)
    requires
        flat.flat_points@ == interleave(t.points@),
        flat.indices@ == t.indices@,
    ensures
        flat.wf(),
        flat@ == t.model(),
{
    lemma_pair_up_interleave(t.points@);
}

/// A well-formed triangulation buffer holds exactly the coordinates that
/// flattening the triangulation it describes would give.
pub proof fn lemma_triangulation_layout<T>(flat: FlatTriangulation<T>)
    requires
        flat.wf(),
    ensures
        flat.flat_points@ == interleave(flat@.0),
{
    lemma_interleave_pair_up(flat.flat_points@);
}

} // verus!
