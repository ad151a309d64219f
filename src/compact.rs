//! Compaction: merging complete sibling groups of same-resolution cells into
//! their parents, recursively, and expanding such a set back.
use crate::buffer::{deliver, with_prefix};
use crate::convert::{all_cells, h3ptr_to_h3oslice, h3res_to_resolution, valid_res};
use crate::engine::{
    cell_res, children_count, compact, compacted,
    is_cell, parent_bits, same_resolution, uncompact, uncompact_size_of, uncompacted,
};
use crate::error::{code, success, H3Error, H3ErrorCodes};
use crate::H3Index;
use vstd::prelude::*;

verus! {

/// Compacts the first `numHexes` cells of `h3Set`, which must all have the
/// same resolution and hold no duplicate, into `compactedSet`.
///
/// The result replaces every complete group of siblings by its parent,
/// recursively; it holds distinct valid cells, never more than the input,
/// and expands back to exactly the input's cells, each once.
pub fn compactCells(h3Set: &[H3Index], compactedSet: &mut [H3Index], numHexes: i64) -> (r: H3Error)
    requires
        0 <= numHexes <= h3Set@.len(),
        numHexes <= old(compactedSet)@.len(),
    ensures
        ({
            let cells = h3Set@.subrange(0, numHexes as int);
            &&& numHexes == 0 ==> r == success()
            &&& numHexes > 0 && !all_cells(h3Set@, numHexes as int) ==> r == code(H3ErrorCodes::ECellInvalid)
            &&& numHexes > 0 && all_cells(h3Set@, numHexes as int) && !same_resolution(cells)
                ==> r == code(H3ErrorCodes::EResMismatch)
            &&& numHexes > 0 && all_cells(h3Set@, numHexes as int) && same_resolution(cells)
                && !cells.no_duplicates() ==> r == code(H3ErrorCodes::EDuplicateInput)
            &&& numHexes > 0 && all_cells(h3Set@, numHexes as int) && same_resolution(cells)
                && cells.no_duplicates() ==> r == success()
            &&& r != success() || numHexes == 0 ==> final(compactedSet)@ == old(compactedSet)@
            &&& r == success() && numHexes > 0 ==> final(compactedSet)@ == with_prefix(old(compactedSet)@, compacted(cells))
            &&& r == success() && numHexes > 0 ==> compacted(cells).len() <= numHexes
            &&& r == success() && numHexes > 0 ==> uncompacted(compacted(cells), cell_res(cells[0])).to_set()
                == cells.to_set()
            &&& r == success() && numHexes > 0 ==> uncompacted(compacted(cells), cell_res(cells[0])).len()
                == numHexes
            &&& r == success() && numHexes > 0 ==> compacted(cells).no_duplicates() && forall|i: int|
                0 <= i < compacted(cells).len() ==> is_cell(#[trigger] compacted(cells)[i])
        }),
{
    if numHexes == 0 {
        return H3Error::of(H3ErrorCodes::ESuccess);
    }
    let cells = match h3ptr_to_h3oslice(h3Set, numHexes) {
        Ok(cells) => cells,
        Err(e) => return e,
    };
    match compact(cells) {
        Ok(merged) => {
            proof {
                let back = uncompacted(merged@, cell_res(cells@[0]));
                back.unique_seq_to_set();
                cells@.unique_seq_to_set();
            }
            deliver(compactedSet, &merged)
        },
        Err(e) => H3Error::from(e),
    }
}

/// Expands the first `numCompacted` cells of `compactedSet` into their
/// descendants at resolution `res`, placed at the front of `outSet`.
///
/// Fails with a bounds error, writing nothing, where they number more than
/// `numOut`.
pub fn uncompactCells(
    compactedSet: &[H3Index],
    numCompacted: i64,
    outSet: &mut [H3Index],
    numOut: i64,
    res: i32,
) -> (r: H3Error)
    requires
        0 <= numCompacted <= compactedSet@.len(),
        numCompacted > 0 ==> 0 <= numOut <= old(outSet)@.len(),
    ensures
        r != success() || numCompacted == 0 ==> final(outSet)@ == old(outSet)@,
        numCompacted == 0 ==> r == success(),
        numCompacted > 0 && !valid_res(res) ==> r == code(H3ErrorCodes::EResDomain),
        numCompacted > 0 && valid_res(res) && !all_cells(compactedSet@, numCompacted as int) ==> r
            == code(H3ErrorCodes::ECellInvalid),
        numCompacted > 0 && valid_res(res) && all_cells(compactedSet@, numCompacted as int) ==> ({
            let cells = uncompacted(compactedSet@.subrange(0, numCompacted as int), res as u8);
            &&& cells.len() == uncompact_size_of(compactedSet@.subrange(0, numCompacted as int), res as u8)
            &&& forall|i: int|
                0 <= i < cells.len() ==> is_cell(#[trigger] cells[i]) && cell_res(cells[i]) == res && exists|j: int|
                    0 <= j < numCompacted && parent_bits(cells[i], cell_res(compactedSet@[j])) == compactedSet@[j]
            &&& if cells.len() <= numOut {
                r == success() && final(outSet)@ == with_prefix(old(outSet)@, cells)
            } else {
                r == code(H3ErrorCodes::EMemoryBounds)
            }
        }),
{
    if numCompacted == 0 {
        return H3Error::of(H3ErrorCodes::ESuccess);
    }
    let res = match h3res_to_resolution(res) {
        Ok(res) => res,
        Err(e) => return H3Error::from(e),
    };
    let cells = match h3ptr_to_h3oslice(compactedSet, numCompacted) {
        Ok(cells) => cells,
        Err(e) => return e,
    };
    let expanded = uncompact(cells, res);
    let capacity = outSet.len();
    assert(numOut <= capacity);
    if expanded.len() > numOut as usize {
        return H3Error::of(H3ErrorCodes::EMemoryBounds);
    }
    deliver(outSet, &expanded)
}

/// The exact number of cells that the first `numCompacted` cells of
/// `compactedSet` expand to at resolution `res`, to size the buffer of
/// `uncompactCells`.
///
/// A count too large for an `i64` is reported as a failure.
pub fn uncompactCellsSize(compactedSet: &[H3Index], numCompacted: i64, res: i32, out: &mut i64) -> (r:
    H3Error)
    requires
        0 <= numCompacted <= compactedSet@.len(),
    ensures
        r != success() ==> *final(out) == *old(out),
        numCompacted == 0 ==> r == success() && *final(out) == 0,
        numCompacted > 0 && !valid_res(res) ==> r == code(H3ErrorCodes::EResDomain),
        numCompacted > 0 && valid_res(res) && !all_cells(compactedSet@, numCompacted as int) ==> r
            == code(H3ErrorCodes::ECellInvalid),
        numCompacted > 0 && valid_res(res) && all_cells(compactedSet@, numCompacted as int) ==> ({
            let size = uncompact_size_of(compactedSet@.subrange(0, numCompacted as int), res as u8);
            if size <= i64::MAX {
                r == success() && *final(out) == size
            } else {
                r == code(H3ErrorCodes::EFailed)
            }
        }),
{
    if numCompacted == 0 {
        *out = 0;
        return H3Error::of(H3ErrorCodes::ESuccess);
    }
    let target = match h3res_to_resolution(res) {
        Ok(target) => target,
        Err(e) => return H3Error::from(e),
    };
    let cells = match h3ptr_to_h3oslice(compactedSet, numCompacted) {
        Ok(cells) => cells,
        Err(e) => return e,
    };
    assert(all_cells(cells@, cells@.len() as int));
    let n = cells.len();
    let mut total: u64 = 0;
    let mut i: usize = 0;
    while i < n
        invariant
            n == cells@.len(),
            i <= n,
            all_cells(cells@, n as int),
            cells@ == compactedSet@.subrange(0, numCompacted as int),
            all_cells(compactedSet@, numCompacted as int),
            numCompacted > 0,
            valid_res(res),
            target == res,
            *out == *old(out),
            total == uncompact_size_of(cells@.subrange(0, i as int), target),
            total <= i64::MAX,
        decreases n - i,
    {
        assert(cells@.subrange(0, i as int + 1).drop_last() =~= cells@.subrange(0, i as int));
        let count = children_count(cells[i], target);
        if count > i64::MAX as u64 - total {
            proof {
                lemma_uncompact_size_grows(cells@, target, i as int + 1, n as int);
                assert(cells@.subrange(0, n as int) =~= cells@);
            }
            return H3Error::of(H3ErrorCodes::EFailed);
        }
        total = total + count;
        i = i + 1;
    }
    assert(cells@.subrange(0, n as int) =~= cells@);
    *out = total as i64;
    H3Error::of(H3ErrorCodes::ESuccess)
}

/// The expanded size of a prefix never exceeds that of a longer prefix.
proof fn lemma_uncompact_size_grows(cells: Seq<u64>, res: u8, i: int, j: int)
    requires
        0 <= i <= j <= cells.len(),
    ensures
        uncompact_size_of(cells.subrange(0, i), res) <= uncompact_size_of(cells.subrange(0, j), res),
    decreases j - i,
{
    if i < j {
        lemma_uncompact_size_grows(cells, res, i, j - 1);
        assert(cells.subrange(0, j).drop_last() =~= cells.subrange(0, j - 1));
    }
}

} // verus!
