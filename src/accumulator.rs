use vstd::prelude::*;

use crate::geometry::{contours_view, pair_up, Contour, Point};
use crate::types::{AddContourError, IntShapeType};

verus! {

/// The contours in `bucket` after a flat coordinate buffer was accepted:
/// an empty buffer adds nothing, any other adds its points as one contour.
pub open spec fn with_contour<T>(bucket: Seq<Seq<Point<T>>>, coords: Seq<T>) -> Seq<Seq<Point<T>>> {
    if coords.len() == 0 {
        bucket
    } else {
        bucket.push(pair_up(coords))
    }
}

/// Subject and clip contours gathered from flat coordinate buffers.
pub struct ContourAccumulator<T> {
    subject: Vec<Contour<T>>,
    clip: Vec<Contour<T>>,
}

impl<T> ContourAccumulator<T> {
    /// The subject contours, in the order they were added.
    pub closed spec fn subject(&self) -> Seq<Seq<Point<T>>> {
        contours_view(self.subject@)
    }

    /// The clip contours, in the order they were added.
    pub closed spec fn clip(&self) -> Seq<Seq<Point<T>>> {
        contours_view(self.clip@)
    }
}

impl<T: Copy> ContourAccumulator<T> {
    /// An accumulator without contours, with room for `capacity` of each role.
    pub fn new(capacity: usize) -> (r: Self)
        ensures
            r.subject().len() == 0,
            r.clip().len() == 0,
    {
        ContourAccumulator { subject: Vec::with_capacity(capacity), clip: Vec::with_capacity(capacity) }
    }

    /// The subject contours.
    pub fn subject_contours(&self) -> (r: &Vec<Contour<T>>)
        ensures
            contours_view(r@) == self.subject(),
    {
        &self.subject
    }

    /// The clip contours.
    pub fn clip_contours(&self) -> (r: &Vec<Contour<T>>)
        ensures
            contours_view(r@) == self.clip(),
    {
        &self.clip
    }

    /// Adds the contour `[x0, y0, x1, y1, ...]` in the given role.
    ///
    /// An odd number of coordinates is refused and changes nothing; an empty
    /// buffer is accepted and adds nothing.
    pub fn add_contour(&mut self, points: &[T], shape_type: IntShapeType) -> (r: Result<
        (),
        AddContourError,
    >)
        ensures
            points@.len() % 2 == 1 ==> r == Err::<(), AddContourError>(
                AddContourError::OddCoordinateCount,
            ) && final(self).subject() == old(self).subject() && final(self).clip() == old(
                self,
            ).clip(),
            points@.len() % 2 == 0 ==> r == Ok::<(), AddContourError>(()) && (
                if shape_type == IntShapeType::Subject {
                    final(self).subject() == with_contour(old(self).subject(), points@)
                        && final(self).clip() == old(self).clip()
                } else {
                    final(self).clip() == with_contour(old(self).clip(), points@)
                        && final(self).subject() == old(self).subject()
                }
            ),
    {
        if points.len() % 2 != 0 {
            return Err(AddContourError::OddCoordinateCount);
        }
        if points.len() == 0 {
            return Ok(());
        }
        let contour = pair_coordinates(points);
        match shape_type {
            IntShapeType::Subject => {
                self.subject.push(contour);
                assert(contours_view(self.subject@) =~= contours_view(old(self).subject@).push(
                    contour@,
                ));
            },
            IntShapeType::Clip => {
                self.clip.push(contour);
                assert(contours_view(self.clip@) =~= contours_view(old(self).clip@).push(
                    contour@,
                ));
            },
        }
        Ok(())
    }
}

/// Reads `[x0, y0, x1, y1, ...]` as points.
pub fn pair_coordinates<T: Copy>(coords: &[T]) -> (r: Contour<T>)
    requires
        coords@.len() % 2 == 0,
    ensures
        r@ == pair_up(coords@),
{
    let total = coords.len();
    let count = total / 2;
    let mut contour: Contour<T> = Vec::with_capacity(count);
    let mut p: usize = 0;
    while p < count
        invariant
            total == coords@.len(),
            count == total / 2,
            p <= count,
            contour@ == pair_up(coords@).take(p as int),
        decreases count - p,
    {
        contour.push(Point { x: coords[2 * p], y: coords[2 * p + 1] });
        assert(contour@ =~= pair_up(coords@).take(p + 1));
        p = p + 1;
    }
    assert(pair_up(coords@).take(count as int) =~= pair_up(coords@));
    contour
}

} // verus!
