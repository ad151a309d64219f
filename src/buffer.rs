//! Caller-supplied output buffers: what a call leaves in them.
use vstd::prelude::*;

verus! {

/// The buffer `before` once `items` has been copied to its front.
pub open spec fn with_prefix<T>(before: Seq<T>, items: Seq<T>) -> Seq<T> {
    items + before.subrange(items.len() as int, before.len() as int)
}

/// Copies `items` to the front of `out`, leaving the rest of it as it was.
pub fn write_prefix<T: Copy>(out: &mut [T], items: &Vec<T>)
    requires
        items@.len() <= old(out)@.len(),
    ensures
        final(out)@ == with_prefix(old(out)@, items@),
{
    let n = items.len();
    let mut i: usize = 0;
    while i < n
        invariant
            n == items@.len(),
            i <= n,
            n <= out@.len(),
            out@.len() == old(out)@.len(),
            forall|j: int| 0 <= j < i ==> out@[j] == items@[j],
            forall|j: int| i <= j < out@.len() ==> out@[j] == old(out)@[j],
        decreases n - i,
    {
        out[i] = items[i];
        i = i + 1;
    }
    assert(out@ =~= with_prefix(old(out)@, items@));
}

} // verus!

verus! {

use crate::error::{code, success, H3Error, H3ErrorCodes};

/// What a call that hands `items` to the caller leaves: the items at the
/// front of the buffer on success, or the buffer untouched and a
/// bounds error where they do not fit.
pub open spec fn delivered<T>(before: Seq<T>, after: Seq<T>, items: Seq<T>, r: H3Error) -> bool {
    if items.len() <= before.len() {
        r == success() && after == with_prefix(before, items)
    } else {
        r == code(H3ErrorCodes::EMemoryBounds) && after == before
    }
}

/// Copies `items` to the front of `out` where they fit.
pub fn deliver<T: Copy>(out: &mut [T], items: &Vec<T>) -> (r: H3Error)
    ensures
        delivered(old(out)@, final(out)@, items@, r),
{
    if items.len() > out.len() {
        return H3Error::of(H3ErrorCodes::EMemoryBounds);
    }
    write_prefix(out, items);
    H3Error::of(H3ErrorCodes::ESuccess)
}

/// The cells of a sequence of (cell, distance) pairs.
pub open spec fn cells_of(items: Seq<(u64, u32)>) -> Seq<u64> {
    items.map_values(|p: (u64, u32)| p.0)
}

/// The distances of a sequence of (cell, distance) pairs, as signed values.
pub open spec fn distances_of(items: Seq<(u64, u32)>) -> Seq<i32> {
    items.map_values(|p: (u64, u32)| p.1 as i32)
}

/// What a call that hands (cell, distance) pairs to the caller leaves in its
/// two buffers.
pub open spec fn delivered_pairs(
    cells_before: Seq<u64>,
    cells_after: Seq<u64>,
    dists_before: Seq<i32>,
    dists_after: Seq<i32>,
    items: Seq<(u64, u32)>,
    r: H3Error,
) -> bool {
    if items.len() <= cells_before.len() && items.len() <= dists_before.len() {
        &&& r == success()
        &&& cells_after == with_prefix(cells_before, cells_of(items))
        &&& dists_after == with_prefix(dists_before, distances_of(items))
    } else {
        &&& r == code(H3ErrorCodes::EMemoryBounds)
        &&& cells_after == cells_before
        &&& dists_after == dists_before
    }
}

/// Copies (cell, distance) pairs to the fronts of `cells` and `dists` where
/// they fit in both.
pub fn deliver_pairs(cells: &mut [u64], dists: &mut [i32], items: &Vec<(u64, u32)>) -> (r: H3Error)
    requires
        forall|i: int| 0 <= i < items@.len() ==> #[trigger] items@[i].1 <= i32::MAX,
    ensures
        delivered_pairs(old(cells)@, final(cells)@, old(dists)@, final(dists)@, items@, r),
{
    let n = items.len();
    if n > cells.len() || n > dists.len() {
        return H3Error::of(H3ErrorCodes::EMemoryBounds);
    }
    let mut i: usize = 0;
    while i < n
        invariant
            n == items@.len(),
            i <= n,
            n <= cells@.len(),
            n <= dists@.len(),
            cells@.len() == old(cells)@.len(),
            dists@.len() == old(dists)@.len(),
            forall|i: int| 0 <= i < items@.len() ==> #[trigger] items@[i].1 <= i32::MAX,
            forall|j: int| 0 <= j < i ==> cells@[j] == items@[j].0,
            forall|j: int| 0 <= j < i ==> dists@[j] == items@[j].1 as i32,
            forall|j: int| i <= j < cells@.len() ==> cells@[j] == old(cells)@[j],
            forall|j: int| i <= j < dists@.len() ==> dists@[j] == old(dists)@[j],
        decreases n - i,
    {
        let (cell, dist) = items[i];
        cells[i] = cell;
        dists[i] = dist as i32;
        i = i + 1;
    }
    assert(cells@ =~= with_prefix(old(cells)@, cells_of(items@)));
    assert(dists@ =~= with_prefix(old(dists)@, distances_of(items@)));
    H3Error::of(H3ErrorCodes::ESuccess)
}

} // verus!
