//! Putting a sequence of pixels in ascending order of a metric.

use rayon::slice::ParallelSliceMut;
use vstd::prelude::*;
use crate::args::Method;
use crate::metric::{ascending, Metric, UnmappedMethodError};
use crate::pixel::Pixel;

verus! {

/// `rayon`'s `par_sort_unstable_by` on the pixels, comparing with
/// [`Metric::compare`].
///
/// Taken on trust from its documentation: the slice is sorted in place by the
/// comparator, which here is a total order by key, so afterwards the same pixels
/// are there and no key is followed by a smaller one. Pixels of equal key may
/// come out in any order.
#[verifier::external_body]
pub(crate) fn par_sort_by_metric(pixels: &mut Vec<Pixel>, metric: Metric)
    ensures
        final(pixels)@.to_multiset() == old(pixels)@.to_multiset(),
        ascending(final(pixels)@, metric),
{
    pixels.par_sort_unstable_by(|a, b| metric.compare(a, b));
}

/// Sorts the pixels in place, ascending by the metric of `method`.
///
/// The sort is not stable and runs in parallel: which of two pixels of equal
/// key comes first is not fixed, and two runs on one input need not agree on
/// it. A method without a metric is refused before anything is moved.
pub fn sort_pixels(pixels: &mut Vec<Pixel>, method: Method) -> (r: Result<(), UnmappedMethodError>)
    ensures
        match method.metric_of() {
            Some(metric) => {
                &&& r is Ok
                &&& final(pixels)@.len() == old(pixels)@.len()
                &&& final(pixels)@.to_multiset() == old(pixels)@.to_multiset()
                &&& ascending(final(pixels)@, metric)
            },
            None => {
                &&& r == Err::<(), UnmappedMethodError>(UnmappedMethodError { method })
                &&& final(pixels)@ == old(pixels)@
            },
        },
{
    match method.metric() {
        Ok(metric) => {
            par_sort_by_metric(pixels, metric);
            proof {
                pixels@.to_multiset_ensures();
                old(pixels)@.to_multiset_ensures();
            }
            Ok(())
        },
        Err(e) => Err(e),
    }
}

/// Among pixels of equal key the order is open: exchanging two of them in a
/// sorted sequence gives a sequence that is sorted just as well and holds the
/// same pixels. So where keys tie, more than one outcome of a sort is right.
pub proof fn lemma_ties_may_swap(sorted: Seq<Pixel>, metric: Metric, i: int, j: int)
    requires
        ascending(sorted, metric),
        0 <= i <= j < sorted.len(),
        metric.key(sorted[i].color) == metric.key(sorted[j].color),
    ensures
        ascending(sorted.update(i, sorted[j]).update(j, sorted[i]), metric),
        sorted.update(i, sorted[j]).update(j, sorted[i]).to_multiset() == sorted.to_multiset(),
{
    broadcast use vstd::seq_lib::group_to_multiset_ensures;
}

} // verus!
