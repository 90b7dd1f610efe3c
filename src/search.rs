use vstd::prelude::*;

use roaring::RoaringBitmap;

use crate::bitmap::{bitmap_contains, bitmap_ids};

verus! {

/// How many candidates a backend that cannot apply a filter itself is asked
/// for, per result wanted, before the filter removes some of them.
pub const OVERSAMPLE_FACTOR: usize = 4;

/// The candidate pool for `k` filtered results: `k` times the oversampling
/// factor, saturating at the largest `usize`.
pub open spec fn pool_size(k: usize) -> usize {
    if k * OVERSAMPLE_FACTOR <= usize::MAX {
        (k * OVERSAMPLE_FACTOR) as usize
    } else {
        usize::MAX
    }
}

pub fn candidate_pool(k: usize) -> (r: usize)
    ensures
        r == pool_size(k),
        r >= k,
{
    if k <= usize::MAX / OVERSAMPLE_FACTOR {
        k * OVERSAMPLE_FACTOR
    } else {
        usize::MAX
    }
}

/// The filter lets the id through: it fits in 32 bits and the bitmap holds it.
pub open spec fn allowed(ids: Set<u32>, label: u64) -> bool {
    label <= u32::MAX && ids.contains(label as u32)
}

/// Whether the filter `allowed_ids` lets the id `label` through.
pub fn id_allowed(allowed_ids: &RoaringBitmap, label: u64) -> (r: bool)
    ensures
        r == allowed(bitmap_ids(*allowed_ids), label),
{
    label <= 0xffff_ffff && bitmap_contains(allowed_ids, label as u32)
}

/// The positions of `labels` whose id the filter lets through, in order.
pub open spec fn kept(labels: Seq<u64>, ids: Set<u32>) -> Seq<usize>
    decreases labels.len(),
{
    if labels.len() == 0 {
        Seq::empty()
    } else {
        let last = (labels.len() - 1) as int;
        let before = kept(labels.subrange(0, last), ids);
        if allowed(ids, labels[last]) {
            before.push(last as usize)
        } else {
            before
        }
    }
}

/// The first `limit` positions of `kept`.
pub open spec fn kept_up_to(labels: Seq<u64>, ids: Set<u32>, limit: usize) -> Seq<usize> {
    let all = kept(labels, ids);
    if all.len() <= limit {
        all
    } else {
        all.subrange(0, limit as int)
    }
}

/// Post-filters the results of an unfiltered search: the positions, in order,
/// of the first `limit` results whose id `allowed_ids` holds. The caller keeps
/// the ids and distances at those positions.
pub fn filter_positions(labels: &Vec<u64>, allowed_ids: &RoaringBitmap, limit: usize) -> (r: Vec<
    usize,
>)
    ensures
        r@ == kept_up_to(labels@, bitmap_ids(*allowed_ids), limit),
{
    let ghost ids = bitmap_ids(*allowed_ids);
    let mut r: Vec<usize> = Vec::new();
    let mut i: usize = 0;
    while i < labels.len()
        invariant
            0 <= i <= labels@.len(),
            ids == bitmap_ids(*allowed_ids),
            r@ == kept(labels@.subrange(0, i as int), ids),
        decreases labels.len() - i,
    {
        assert(labels@.subrange(0, i as int) =~= labels@.subrange(0, (i + 1) as int).subrange(
            0,
            i as int,
        ));
        let label = labels[i];
        if id_allowed(allowed_ids, label) {
            r.push(i);
        }
        i = i + 1;
    }
    assert(labels@.subrange(0, labels@.len() as int) =~= labels@);
    if r.len() > limit {
        r.truncate(limit);
        assert(r@ =~= kept(labels@, ids).subrange(0, limit as int));
    }
    r
}

} // verus!
