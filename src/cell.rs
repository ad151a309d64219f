//! Queries on a single cell: validity, resolution, hierarchy, faces.
use crate::buffer::{deliver, delivered, with_prefix};
use crate::convert::{h3res_to_resolution, valid_res};
use crate::engine::{
    base_cell, base_cell_of, cell_is_pentagon, cell_is_valid, cell_res, cell_resolution,
    center_child, center_child_bits, child_at, child_at_of, child_position, child_position_of,
    children, children_count, children_count_of, children_of, faces_of, icosahedron_faces,
    is_cell, is_pentagon, max_face_count, parent, parent_bits, pow7,
};
use crate::error::{code, success, H3Error, H3ErrorCodes};
use crate::H3Index;
use vstd::prelude::*;

verus! {

/// Produces the center child of a cell at the given finer resolution.
pub fn cellToCenterChild(h: H3Index, childRes: i32, child: &mut H3Index) -> (r: H3Error)
    ensures
        r != success() ==> *final(child) == *old(child),
        !is_cell(h) ==> r == code(H3ErrorCodes::ECellInvalid),
        is_cell(h) && (!valid_res(childRes) || childRes < cell_res(h)) ==> r == code(
            H3ErrorCodes::EResDomain,
        ),
        is_cell(h) && valid_res(childRes) && childRes >= cell_res(h) ==> r == success() && *final(
            child) == center_child_bits(h, childRes as u8),
{
    if !cell_is_valid(h) {
        return H3Error::of(H3ErrorCodes::ECellInvalid);
    }
    let res = match h3res_to_resolution(childRes) {
        Ok(res) => res,
        Err(e) => return H3Error::from(e),
    };
    match center_child(h, res) {
        Some(c) => {
            *child = c;
            H3Error::of(H3ErrorCodes::ESuccess)
        },
        None => H3Error::of(H3ErrorCodes::EResDomain),
    }
}

/// Produces all the children of a cell at the given resolution, placed at
/// the front of `children`.
///
/// There are exactly `cellToChildrenSize(h, childRes)` of them, all
/// distinct, and each is a cell at `childRes` whose ancestor at the
/// resolution of `h` is `h`.
pub fn cellToChildren(h: H3Index, childRes: i32, children_out: &mut [H3Index]) -> (r: H3Error)
    ensures
        r != success() ==> final(children_out)@ == old(children_out)@,
        !is_cell(h) ==> r == code(H3ErrorCodes::ECellInvalid),
        is_cell(h) && !valid_res(childRes) ==> r == code(H3ErrorCodes::EResDomain),
        is_cell(h) && valid_res(childRes) ==> delivered(
            old(children_out)@,
            final(children_out)@,
            children_of(h, childRes as u8),
            r,
        ),
        r == success() ==> children_of(h, childRes as u8).len() == children_count_of(
            h,
            childRes as u8,
        ),
        r == success() ==> forall|i: int|
            0 <= i < children_of(h, childRes as u8).len() ==> is_cell(
                #[trigger] children_of(h, childRes as u8)[i],
            ) && cell_res(children_of(h, childRes as u8)[i]) == childRes && parent_bits(
                children_of(h, childRes as u8)[i],
                cell_res(h),
            ) == h,
        r == success() ==> children_of(h, childRes as u8).no_duplicates(),
{
    if !cell_is_valid(h) {
        return H3Error::of(H3ErrorCodes::ECellInvalid);
    }
    let res = match h3res_to_resolution(childRes) {
        Ok(res) => res,
        Err(e) => return H3Error::from(e),
    };
    let found = children(h, res);
    deliver(children_out, &found)
}

/// Seven to the power `n` grows with `n`.
proof fn lemma_pow7_monotone(n: nat, m: nat)
    requires
        n <= m,
    ensures
        1 <= pow7(n) <= pow7(m),
    decreases m,
{
    if n < m {
        lemma_pow7_monotone(n, (m - 1) as nat);
    } else if n > 0 {
        lemma_pow7_monotone((n - 1) as nat, (n - 1) as nat);
    }
}

/// No cell has more children than `7^15`.
pub proof fn lemma_children_count_bound(h: u64, res: u8)
    requires
        res <= 15,
    ensures
        children_count_of(h, res) <= 4_747_561_509_943,
{
    reveal_with_fuel(pow7, 16);
    assert(pow7(15) == 4_747_561_509_943);
    if res >= cell_res(h) {
        let d = (res - cell_res(h)) as nat;
        lemma_pow7_monotone(d, 15);
        let p = pow7(d);
        assert(1 + 5 * ((p - 1) as nat / 6) <= p) by (nonlinear_arith)
            requires
                p >= 1,
        ;
    }
}

/// The exact number of children of a cell at the given resolution: `7^d`
/// for a hexagon and `1 + 5 (7^d - 1) / 6` for a pentagon, `d` levels down;
/// none at a coarser resolution.
///
/// An invalid cell is reported as a resolution error.
pub fn cellToChildrenSize(h: H3Index, childRes: i32, out: &mut i64) -> (r: H3Error)
    ensures
        !is_cell(h) || !valid_res(childRes) ==> r == code(H3ErrorCodes::EResDomain) && *final(out)
            == *old(out),
        is_cell(h) && valid_res(childRes) ==> r == success() && *final(out) == children_count_of(
            h,
            childRes as u8,
        ),
{
    if !cell_is_valid(h) {
        return H3Error::of(H3ErrorCodes::EResDomain);
    }
    let res = match h3res_to_resolution(childRes) {
        Ok(res) => res,
        Err(e) => return H3Error::from(e),
    };
    let count = children_count(h, res);
    proof {
        lemma_children_count_bound(h, res);
    }
    *out = count as i64;
    H3Error::of(H3ErrorCodes::ESuccess)
}

/// Produces the ancestor of a cell at the given coarser resolution.
pub fn cellToParent(h: H3Index, parentRes: i32, parent_out: &mut H3Index) -> (r: H3Error)
    ensures
        r != success() ==> *final(parent_out) == *old(parent_out),
        !is_cell(h) ==> r == code(H3ErrorCodes::ECellInvalid),
        is_cell(h) && !valid_res(parentRes) ==> r == code(H3ErrorCodes::EResDomain),
        is_cell(h) && valid_res(parentRes) && parentRes > cell_res(h) ==> r == code(
            H3ErrorCodes::EResMismatch,
        ),
        is_cell(h) && valid_res(parentRes) && parentRes <= cell_res(h) ==> r == success() && *final(
            parent_out) == parent_bits(h, parentRes as u8),
{
    if !cell_is_valid(h) {
        return H3Error::of(H3ErrorCodes::ECellInvalid);
    }
    let res = match h3res_to_resolution(parentRes) {
        Ok(res) => res,
        Err(e) => return H3Error::from(e),
    };
    match parent(h, res) {
        Some(p) => {
            *parent_out = p;
            H3Error::of(H3ErrorCodes::ESuccess)
        },
        None => H3Error::of(H3ErrorCodes::EResMismatch),
    }
}

/// The base cell number of a cell, or -1 for an invalid one.
pub fn getBaseCellNumber(h: H3Index) -> (r: i32)
    ensures
        is_cell(h) ==> r == base_cell_of(h),
        !is_cell(h) ==> r == -1,
{
    if cell_is_valid(h) {
        base_cell(h) as i32
    } else {
        -1
    }
}

/// The sparse face array of a cell: its faces first, then -1 in every
/// unused slot up to `slots`.
pub open spec fn face_slots(faces: Seq<u8>, slots: int) -> Seq<i32> {
    Seq::new(slots as nat, |i: int| if i < faces.len() { faces[i] as i32 } else { -1i32 })
}

/// Writes the icosahedron faces that a cell intersects, numbered 0 to 19,
/// to the first `maxFaceCount(h3)` slots of `out`; unused slots hold -1.
pub fn getIcosahedronFaces(h3: H3Index, out: &mut [i32]) -> (r: H3Error)
    ensures
        r != success() ==> final(out)@ == old(out)@,
        !is_cell(h3) ==> r == code(H3ErrorCodes::ECellInvalid),
        is_cell(h3) ==> ({
            let slots = if is_pentagon(h3) { 5int } else { 2int };
            &&& 1 <= faces_of(h3).len() <= slots && faces_of(h3).no_duplicates()
                && (forall|i: int| 0 <= i < faces_of(h3).len() ==> #[trigger] faces_of(h3)[i] < 20)
            &&& if slots <= old(out)@.len() {
                r == success() && final(out)@ == with_prefix(old(out)@, face_slots(faces_of(h3), slots))
            } else {
                r == code(H3ErrorCodes::EMemoryBounds)
            }
        }),
{
    if !cell_is_valid(h3) {
        return H3Error::of(H3ErrorCodes::ECellInvalid);
    }
    let slots = max_face_count(h3);
    let faces = icosahedron_faces(h3);
    if slots > out.len() {
        return H3Error::of(H3ErrorCodes::EMemoryBounds);
    }
    let mut i: usize = 0;
    while i < slots
        invariant
            i <= slots,
            slots <= out@.len(),
            faces@.len() <= slots,
            out@.len() == old(out)@.len(),
            forall|j: int| 0 <= j < i ==> out@[j] == face_slots(faces@, slots as int)[j],
            forall|j: int| i <= j < out@.len() ==> out@[j] == old(out)@[j],
        decreases slots - i,
    {
        if i < faces.len() {
            out[i] = faces[i] as i32;
        } else {
            out[i] = -1;
        }
        i = i + 1;
    }
    assert(out@ =~= with_prefix(old(out)@, face_slots(faces@, slots as int)));
    H3Error::of(H3ErrorCodes::ESuccess)
}

/// The resolution of a cell, or 33 for an invalid one.
pub fn getResolution(h: H3Index) -> (r: i32)
    ensures
        is_cell(h) ==> r == cell_res(h),
        !is_cell(h) ==> r == 33,
{
    if cell_is_valid(h) {
        cell_resolution(h) as i32
    } else {
        33
    }
}

/// 1 for a valid cell that is a pentagon, else 0.
pub fn isPentagon(h: H3Index) -> (r: i32)
    ensures
        r == (if is_cell(h) && is_pentagon(h) { 1i32 } else { 0i32 }),
{
    if cell_is_valid(h) && cell_is_pentagon(h) {
        1
    } else {
        0
    }
}

/// 1 for a valid cell, else 0.
pub fn isValidCell(h: H3Index) -> (r: i32)
    ensures
        r == (if is_cell(h) { 1i32 } else { 0i32 }),
{
    if cell_is_valid(h) {
        1
    } else {
        0
    }
}

/// The largest number of icosahedron faces a cell may intersect: 5 for a
/// pentagon, else 2.
pub fn maxFaceCount(h3: H3Index, out: &mut i32) -> (r: H3Error)
    ensures
        !is_cell(h3) ==> r == code(H3ErrorCodes::ECellInvalid) && *final(out) == *old(out),
        is_cell(h3) ==> r == success() && *final(out) == (if is_pentagon(h3) { 5i32 } else { 2i32 }),
{
    if !cell_is_valid(h3) {
        return H3Error::of(H3ErrorCodes::ECellInvalid);
    }
    *out = max_face_count(h3) as i32;
    H3Error::of(H3ErrorCodes::ESuccess)
}

/// The position of a cell among the children of its ancestor at
/// `parentRes`.
pub fn cellToChildPos(child: H3Index, parentRes: i32, out: &mut i64) -> (r: H3Error)
    ensures
        r != success() ==> *final(out) == *old(out),
        !is_cell(child) ==> r == code(H3ErrorCodes::ECellInvalid),
        is_cell(child) && !valid_res(parentRes) ==> r == code(H3ErrorCodes::EResDomain),
        is_cell(child) && valid_res(parentRes) ==> match child_position_of(child, parentRes as u8) {
            None => r == code(H3ErrorCodes::EResMismatch),
            Some(p) => if p <= i64::MAX {
                r == success() && *final(out) == p
            } else {
                r == code(H3ErrorCodes::EFailed)
            },
        },
{
    if !cell_is_valid(child) {
        return H3Error::of(H3ErrorCodes::ECellInvalid);
    }
    let res = match h3res_to_resolution(parentRes) {
        Ok(res) => res,
        Err(e) => return H3Error::from(e),
    };
    match child_position(child, res) {
        Some(p) => {
            if p > i64::MAX as u64 {
                return H3Error::of(H3ErrorCodes::EFailed);
            }
            *out = p as i64;
            H3Error::of(H3ErrorCodes::ESuccess)
        },
        None => H3Error::of(H3ErrorCodes::EResMismatch),
    }
}

/// The child of `parent` at position `childPos` among its children at
/// `childRes`.
pub fn childPosToCell(childPos: i64, parent_cell: H3Index, childRes: i32, out: &mut H3Index) -> (r:
    H3Error)
    ensures
        r != success() ==> *final(out) == *old(out),
        !is_cell(parent_cell) ==> r == code(H3ErrorCodes::ECellInvalid),
        is_cell(parent_cell) && childPos < 0 ==> r == code(H3ErrorCodes::EDomain),
        is_cell(parent_cell) && childPos >= 0 && !valid_res(childRes) ==> r == code(
            H3ErrorCodes::EResDomain,
        ),
        is_cell(parent_cell) && childPos >= 0 && valid_res(childRes) ==> match child_at_of(
            parent_cell,
            childPos as u64,
            childRes as u8,
        ) {
            None => r == code(H3ErrorCodes::EResMismatch),
            Some(c) => r == success() && *final(out) == c,
        },
{
    if !cell_is_valid(parent_cell) {
        return H3Error::of(H3ErrorCodes::ECellInvalid);
    }
    if childPos < 0 {
        return H3Error::of(H3ErrorCodes::EDomain);
    }
    let res = match h3res_to_resolution(childRes) {
        Ok(res) => res,
        Err(e) => return H3Error::from(e),
    };
    match child_at(parent_cell, childPos as u64, res) {
        Some(c) => {
            *out = c;
            H3Error::of(H3ErrorCodes::ESuccess)
        },
        None => H3Error::of(H3ErrorCodes::EResMismatch),
    }
}

} // verus!
