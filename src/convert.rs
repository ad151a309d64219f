//! Validation of the scalar and bulk inputs that every operation receives.
use crate::engine::{cell_is_valid, is_cell};
use crate::error::{code, H3Error, H3ErrorCodes};
use crate::H3Index;
use vstd::prelude::*;

verus! {

/// Whether a resolution argument names one of the sixteen resolutions.
pub open spec fn valid_res(res: i32) -> bool {
    0 <= res <= 15
}

/// Converts a resolution argument, rejecting any outside `0..=15`.
pub fn h3res_to_resolution(res: i32) -> (r: Result<u8, H3ErrorCodes>)
    ensures
        valid_res(res) ==> (r matches Ok(v) && v == res),
        !valid_res(res) ==> r matches Err(H3ErrorCodes::EResDomain),
{
    if 0 <= res && res <= 15 {
        Ok(res as u8)
    } else {
        Err(H3ErrorCodes::EResDomain)
    }
}

/// Whether every one of the first `n` values is a valid cell.
pub open spec fn all_cells(s: Seq<u64>, n: int) -> bool {
    forall|i: int| 0 <= i < n ==> is_cell(#[trigger] s[i])
}

/// Checks that every one of the first `n` values is a valid cell.
pub fn check_cells(indexes: &[H3Index], n: usize) -> (r: bool)
    requires
        n <= indexes@.len(),
    ensures
        r == all_cells(indexes@, n as int),
{
    let mut i: usize = 0;
    while i < n
        invariant
            i <= n,
            n <= indexes@.len(),
            all_cells(indexes@, i as int),
        decreases n - i,
    {
        if !cell_is_valid(indexes[i]) {
            return false;
        }
        i = i + 1;
    }
    true
}

/// Takes the first `len` indexes as cells, after checking every one of
/// them: the whole input is refused if any is not a valid cell.
pub fn h3ptr_to_h3oslice<'a>(indexes: &'a [H3Index], len: i64) -> (r: Result<&'a [H3Index], H3Error>)
    requires
        0 <= len <= indexes@.len(),
    ensures
        all_cells(indexes@, len as int) ==> (r matches Ok(s) && s@ == indexes@.subrange(0, len as int)),
        !all_cells(indexes@, len as int) ==> r == Err::<&[H3Index], H3Error>(code(H3ErrorCodes::ECellInvalid)),
{
    let available = indexes.len();
    assert(len <= available);
    let n = len as usize;
    if !check_cells(indexes, n) {
        return Err(H3Error::of(H3ErrorCodes::ECellInvalid));
    }
    Ok(vstd::slice::slice_subrange(indexes, 0, n))
}

/// As `h3ptr_to_h3oslice`, for a count given as a C `int`.
pub fn h3ptr_to_h3oslice_mut<'a>(indexes: &'a [H3Index], len: i32) -> (r: Result<&'a [H3Index], H3Error>)
    requires
        0 <= len <= indexes@.len(),
    ensures
        all_cells(indexes@, len as int) ==> (r matches Ok(s) && s@ == indexes@.subrange(0, len as int)),
        !all_cells(indexes@, len as int) ==> r == Err::<&[H3Index], H3Error>(code(H3ErrorCodes::ECellInvalid)),
{
    h3ptr_to_h3oslice(indexes, len as i64)
}

} // verus!
