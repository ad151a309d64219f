//! Per-resolution facts of the grid.
use crate::buffer::{deliver, delivered};
use crate::convert::{h3res_to_resolution, valid_res};
use crate::engine::{
    base_cell_count, base_cell_index, base_cells, cell_count, cell_count_of, cell_is_valid,
    cell_res, cell_resolution, is_cell, is_class3, lemma_pow7_bound, pentagon_count, pentagons, pentagons_of, pow7,
};
use crate::error::{code, success, H3Error, H3ErrorCodes};
use crate::H3Index;
use vstd::prelude::*;

verus! {

/// The number of cells (hexagons and pentagons) at a resolution:
/// `2 + 120 * 7^res`.
pub fn getNumCells(res: i32, out: &mut i64) -> (r: H3Error)
    ensures
        !valid_res(res) ==> r == code(H3ErrorCodes::EResDomain) && *final(out) == *old(out),
        valid_res(res) ==> r == success() && *final(out) == cell_count_of(res as u8),
{
    let res = match h3res_to_resolution(res) {
        Ok(res) => res,
        Err(e) => return H3Error::from(e),
    };
    let count = cell_count(res);
    proof {
        lemma_cell_count_bound(res);
    }
    *out = count as i64;
    H3Error::of(H3ErrorCodes::ESuccess)
}

/// No resolution has more cells than an `i64` holds.
proof fn lemma_cell_count_bound(res: u8)
    requires
        res <= 15,
    ensures
        cell_count_of(res) <= i64::MAX,
{
    reveal_with_fuel(pow7, 16);
    assert(pow7(15) == 4_747_561_509_943);
    lemma_pow7_bound(res as nat);
}

/// Writes the twelve pentagons of a resolution to the front of `out`.
pub fn getPentagons(res: i32, out: &mut [H3Index]) -> (r: H3Error)
    ensures
        r != success() ==> final(out)@ == old(out)@,
        !valid_res(res) ==> r == code(H3ErrorCodes::EResDomain),
        valid_res(res) ==> delivered(old(out)@, final(out)@, pentagons_of(res as u8), r),
        valid_res(res) ==> pentagons_of(res as u8).len() == 12,
{
    let res = match h3res_to_resolution(res) {
        Ok(res) => res,
        Err(e) => return H3Error::from(e),
    };
    let found = pentagons(res);
    deliver(out, &found)
}

/// Writes the 122 resolution 0 cells to the front of `out`, by base cell
/// number.
pub fn getRes0Cells(out: &mut [H3Index]) -> (r: H3Error)
    ensures
        delivered(old(out)@, final(out)@, Seq::new(122, |b: int| base_cell_index(b)), r),
{
    let found = base_cells();
    deliver(out, &found)
}

/// 1 for a valid cell of a Class III (odd) resolution, else 0.
pub fn isResClassIII(h: H3Index) -> (r: i32)
    ensures
        r == (if is_cell(h) && cell_res(h) % 2 == 1 { 1i32 } else { 0i32 }),
{
    if cell_is_valid(h) && is_class3(cell_resolution(h)) {
        1
    } else {
        0
    }
}

/// The number of pentagons at every resolution: twelve.
pub fn pentagonCount() -> (r: i32)
    ensures
        r == 12,
{
    pentagon_count() as i32
}

/// The number of resolution 0 cells: 122.
pub fn res0CellCount() -> (r: i32)
    ensures
        r == 122,
{
    base_cell_count() as i32
}

} // verus!
