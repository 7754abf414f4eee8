use vstd::prelude::*;

verus! {

/// Half-open index range `[start, end)` with a fixed layout.
#[derive(Clone, Copy, Debug, PartialEq, Eq, Default)]
pub struct RangeFFI {
    pub start: u64,
    pub end: u64,
}

impl RangeFFI {
    /// Number of indices the range spans.
    pub open spec fn span(self) -> int {
        self.end - self.start
    }

    /// Builds the range `[start, end)` from two in-memory offsets.
    pub fn from_bounds(start: usize, end: usize) -> (r: RangeFFI)
        requires
            start <= end,
        ensures
            r.start == start,
            r.end == end,
    {
        RangeFFI { start: start as u64, end: end as u64 }
    }
}

impl From<std::ops::Range<usize>> for RangeFFI {
    fn from(value: std::ops::Range<usize>) -> (r: RangeFFI) {
        RangeFFI { start: value.start as u64, end: value.end as u64 }
    }
}

impl vstd::std_specs::convert::FromSpecImpl<std::ops::Range<usize>> for RangeFFI {
    open spec fn obeys_from_spec() -> bool {
        true
    }

    open spec fn from_spec(value: std::ops::Range<usize>) -> RangeFFI {
        RangeFFI { start: value.start as u64, end: value.end as u64 }
    }
}

/// Where the `i`-th range of a partition must begin: at zero for the first
/// range, at the end of its predecessor otherwise.
#[verifier::opaque]
pub open spec fn boundary(r: Seq<RangeFFI>, i: int) -> int {
    if i <= 0 {
        0
    } else {
        r[i - 1].end as int
    }
}

/// `r` splits `[0, total)` into consecutive, non-overlapping spans in order.
pub open spec fn partitions(r: Seq<RangeFFI>, total: int) -> bool {
    &&& forall|i: int| 0 <= i < r.len() ==> (#[trigger] r[i]).start <= r[i].end
    &&& forall|i: int| 0 <= i < r.len() ==> (#[trigger] r[i]).start == boundary(r, i)
    &&& forall|i: int| 0 <= i < r.len() ==> (#[trigger] r[i]).end <= total
    &&& boundary(r, r.len() as int) == total
}

/// Every span of `r` has even length.
pub open spec fn even_spans(r: Seq<RangeFFI>) -> bool {
    forall|i: int| 0 <= i < r.len() ==> (#[trigger] r[i]).span() % 2 == 0
}

/// Checks that `r` splits `[0, total)` into consecutive spans in order.
pub fn is_partition(r: &Vec<RangeFFI>, total: usize) -> (ok: bool)
    ensures
        ok == partitions(r@, total as int),
{
    reveal(boundary);
    let mut expected: u64 = 0;
    let mut i: usize = 0;
    while i < r.len()
        invariant
            i <= r@.len(),
            expected == boundary(r@, i as int),
            expected <= total,
            forall|j: int| 0 <= j < i ==> (#[trigger] r@[j]).start <= r@[j].end,
            forall|j: int| 0 <= j < i ==> (#[trigger] r@[j]).start == boundary(r@, j),
            forall|j: int| 0 <= j < i ==> (#[trigger] r@[j]).end <= total,
        decreases r@.len() - i,
    {
        let range = r[i];
        if range.start != expected || range.start > range.end || range.end > total as u64 {
            assert(!partitions(r@, total as int)) by {
                assert(r@[i as int] == range);
            }
            return false;
        }
        proof {
            reveal(boundary);
        }
        assert(r@[i as int] == range);
        expected = range.end;
        i = i + 1;
    }
    expected == total as u64
}

/// Checks that every span of `r` has even length.
pub fn has_even_spans(r: &Vec<RangeFFI>) -> (ok: bool)
    requires
        forall|i: int| 0 <= i < r@.len() ==> (#[trigger] r@[i]).start <= r@[i].end,
    ensures
        ok == even_spans(r@),
{
    let mut i: usize = 0;
    while i < r.len()
        invariant
            i <= r@.len(),
            forall|j: int| 0 <= j < r@.len() ==> (#[trigger] r@[j]).start <= r@[j].end,
            forall|j: int| 0 <= j < i ==> (#[trigger] r@[j]).span() % 2 == 0,
        decreases r@.len() - i,
    {
        let range = r[i];
        if (range.end - range.start) % 2 != 0 {
            assert(r@[i as int] == range);
            return false;
        }
        i = i + 1;
    }
    true
}

} // verus!
