//! Local IJ coordinates: a 2D integer system anchored at an origin cell.
use crate::engine::{
    cell_is_valid, from_local_ij, is_cell, local_ij_cell_of, local_ij_in_range, local_ij_of,
    to_local_ij, LOCAL_IJ_LIMIT,
};
use crate::error::{code, local_ij_code, success, H3Error, H3ErrorCodes};
use crate::H3Index;
use vstd::prelude::*;

verus! {

/// IJ hexagon coordinates; the two axes are 120 degrees apart.
#[derive(Debug, Copy, Clone, PartialEq, Eq, Structural)]
pub struct CoordIJ {
    /// i component.
    pub i: i32,
    /// j component.
    pub j: i32,
}

/// Produces the IJ coordinates of `h3` in the system anchored at `origin`.
///
/// `mode` is reserved and must be 0. Fails where the cell is too far from
/// the origin or on the other side of a pentagon.
pub fn cellToLocalIj(origin: H3Index, h3: H3Index, mode: u32, out: &mut CoordIJ) -> (r: H3Error)
    ensures
        r != success() ==> *final(out) == *old(out),
        mode != 0 ==> r == code(H3ErrorCodes::EOptionInvalid),
        mode == 0 && (!is_cell(origin) || !is_cell(h3)) ==> r == code(H3ErrorCodes::ECellInvalid),
        mode == 0 && is_cell(origin) && is_cell(h3) ==> match local_ij_of(origin, h3) {
            Ok((i, j)) => r == success() && *final(out) == (CoordIJ { i, j }),
            Err(e) => r == local_ij_code(e),
        },
{
    if mode != 0 {
        return H3Error::of(H3ErrorCodes::EOptionInvalid);
    }
    if !cell_is_valid(origin) || !cell_is_valid(h3) {
        return H3Error::of(H3ErrorCodes::ECellInvalid);
    }
    match to_local_ij(origin, h3) {
        Ok((i, j)) => {
            *out = CoordIJ { i, j };
            H3Error::of(H3ErrorCodes::ESuccess)
        },
        Err(e) => H3Error::from(e),
    }
}

/// Produces the cell at IJ coordinates `ij` of the system anchored at
/// `origin`.
///
/// `mode` is reserved and must be 0. Coordinates beyond `LOCAL_IJ_LIMIT`
/// in magnitude lie farther than any cell can be and fail.
pub fn localIjToCell(origin: H3Index, ij: &CoordIJ, mode: u32, out: &mut H3Index) -> (r: H3Error)
    ensures
        r != success() ==> *final(out) == *old(out),
        mode != 0 ==> r == code(H3ErrorCodes::EOptionInvalid),
        mode == 0 && !is_cell(origin) ==> r == code(H3ErrorCodes::ECellInvalid),
        mode == 0 && is_cell(origin) && !local_ij_in_range(ij.i, ij.j) ==> r == code(
            H3ErrorCodes::EFailed,
        ),
        mode == 0 && is_cell(origin) && local_ij_in_range(ij.i, ij.j) ==> match local_ij_cell_of(
            origin,
            ij.i,
            ij.j,
        ) {
            Ok(c) => r == success() && *final(out) == c && is_cell(c),
            Err(e) => r == local_ij_code(e),
        },
{
    if mode != 0 {
        return H3Error::of(H3ErrorCodes::EOptionInvalid);
    }
    if !cell_is_valid(origin) {
        return H3Error::of(H3ErrorCodes::ECellInvalid);
    }
    if ij.i < -LOCAL_IJ_LIMIT || ij.i > LOCAL_IJ_LIMIT || ij.j < -LOCAL_IJ_LIMIT || ij.j
        > LOCAL_IJ_LIMIT {
        return H3Error::of(H3ErrorCodes::EFailed);
    }
    match from_local_ij(origin, ij.i, ij.j) {
        Ok(c) => {
            *out = c;
            H3Error::of(H3ErrorCodes::ESuccess)
        },
        Err(e) => H3Error::from(e),
    }
}

} // verus!
