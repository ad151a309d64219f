//! Cell vertexes.
use crate::buffer::{deliver, delivered};
use crate::engine::{cell_is_valid, is_cell, is_vertex, vertex, vertex_is_valid, vertex_of, vertexes, vertexes_of};
use crate::error::{code, success, H3Error, H3ErrorCodes};
use crate::H3Index;
use vstd::prelude::*;

verus! {

/// Produces vertex number `vertexNum` (0 to 5) of a cell.
pub fn cellToVertex(origin: H3Index, vertexNum: i32, out: &mut H3Index) -> (r: H3Error)
    ensures
        r != success() ==> *final(out) == *old(out),
        !is_cell(origin) ==> r == code(H3ErrorCodes::ECellInvalid),
        is_cell(origin) && !(0 <= vertexNum <= 5) ==> r == code(H3ErrorCodes::EDomain),
        is_cell(origin) && 0 <= vertexNum <= 5 ==> match vertex_of(origin, vertexNum as u8) {
            None => r == code(H3ErrorCodes::EDomain),
            Some(v) => r == success() && *final(out) == v && is_vertex(v),
        },
{
    if !cell_is_valid(origin) {
        return H3Error::of(H3ErrorCodes::ECellInvalid);
    }
    if vertexNum < 0 || vertexNum > 5 {
        return H3Error::of(H3ErrorCodes::EDomain);
    }
    match vertex(origin, vertexNum as u8) {
        Some(v) => {
            *out = v;
            H3Error::of(H3ErrorCodes::ESuccess)
        },
        None => H3Error::of(H3ErrorCodes::EDomain),
    }
}

/// Writes the vertexes of a cell (six, five for a pentagon) to the front of
/// `vertexes_out`.
pub fn cellToVertexes(origin: H3Index, vertexes_out: &mut [H3Index]) -> (r: H3Error)
    ensures
        r != success() ==> final(vertexes_out)@ == old(vertexes_out)@,
        !is_cell(origin) ==> r == code(H3ErrorCodes::ECellInvalid),
        is_cell(origin) ==> delivered(old(vertexes_out)@, final(vertexes_out)@, vertexes_of(origin), r),
{
    if !cell_is_valid(origin) {
        return H3Error::of(H3ErrorCodes::ECellInvalid);
    }
    let found = vertexes(origin);
    deliver(vertexes_out, &found)
}

/// 1 for a valid vertex, else 0.
pub fn isValidVertex(v: H3Index) -> (r: i32)
    ensures
        r == (if is_vertex(v) { 1i32 } else { 0i32 }),
{
    if vertex_is_valid(v) {
        1
    } else {
        0
    }
}

} // verus!
