//! Neighborhood traversal: disks, rings, distances and paths, each with a
//! fast closed-form traversal and, where the operation allows it, a fallback
//! on the always-correct breadth-first one.
use crate::buffer::{deliver, deliver_pairs, delivered, delivered_pairs};
use crate::engine::{
    cell_is_valid, cell_res, is_pentagon, disk_distances_fast_of, disk_distances_safe_of, disk_fast_of, disk_safe_of,
    disks_fast_of, grid_disk_distances_fast, grid_disk_distances_safe, grid_disk_fast,
    grid_disk_safe, grid_disks_fast, grid_distance, grid_distance_of, grid_path_cells,
    grid_path_cells_size, grid_ring_fast, is_cell, max_grid_disk_size, max_grid_disk_size_of,
    neighbors_of, path_of, path_size_of, ring_fast_of,
};
use crate::convert::{all_cells, h3ptr_to_h3oslice_mut};
use crate::error::{code, local_ij_code, success, H3Error, H3ErrorCodes};
use crate::H3Index;
use vstd::prelude::*;

verus! {

/// The cells that `gridDisk` hands back: those of the fast traversal where
/// it succeeds, else those of the breadth-first one.
pub open spec fn disk_cells(origin: u64, k: u32) -> Seq<u64> {
    match disk_fast_of(origin, k) {
        Some(cells) => if cells.len() > 0 {
            cells
        } else {
            disk_safe_of(origin, k)
        },
        None => disk_safe_of(origin, k),
    }
}

/// The (cell, distance) pairs that `gridDiskDistances` hands back.
pub open spec fn disk_distance_pairs(origin: u64, k: u32) -> Seq<(u64, u32)> {
    match disk_distances_fast_of(origin, k) {
        Some(items) => if items.len() > 0 {
            items
        } else {
            disk_distances_safe_of(origin, k)
        },
        None => disk_distances_safe_of(origin, k),
    }
}

/// Produces the cells within grid distance `k` of the origin cell.
///
/// The fast traversal is tried first; where it meets pentagon distortion
/// the breadth-first one is used instead. The cells are placed at the front
/// of `out`, in no particular order; the rest of `out` is left as it was.
pub fn gridDisk(origin: H3Index, k: i32, out: &mut [H3Index]) -> (r: H3Error)
    ensures
        k < 0 ==> r == code(H3ErrorCodes::EDomain) && final(out)@ == old(out)@,
        k >= 0 && !is_cell(origin) ==> r == code(H3ErrorCodes::ECellInvalid) && final(out)@
            == old(out)@,
        k >= 0 && is_cell(origin) ==> delivered(
            old(out)@,
            final(out)@,
            disk_cells(origin, k as u32),
            r,
        ),
        k == 0 && is_cell(origin) && old(out)@.len() >= 1 ==> r == success() && final(out)@
            == old(out)@.update(0, origin),
        k >= 0 && is_cell(origin) ==> forall|i: int|
            0 <= i < disk_cells(origin, k as u32).len() ==> is_cell(
                #[trigger] disk_cells(origin, k as u32)[i],
            ) && cell_res(disk_cells(origin, k as u32)[i]) == cell_res(origin),
{
    if k < 0 {
        return H3Error::of(H3ErrorCodes::EDomain);
    }
    let k = k as u32;
    if !cell_is_valid(origin) {
        return H3Error::of(H3ErrorCodes::ECellInvalid);
    }
    // Try the fast traversal first.
    let cells = match grid_disk_fast(origin, k) {
        Some(cells) if cells.len() > 0 => cells,
        // It failed: fall back on the slower but always correct one.
        _ => grid_disk_safe(origin, k),
    };
    let r = deliver(out, &cells);
    proof {
        if k == 0 && old(out)@.len() >= 1 {
            assert(out@ =~= old(out)@.update(0, origin));
        }
    }
    r
}

/// Produces the cells within grid distance `k` of the origin cell, and the
/// distance of each.
///
/// As `gridDisk`, with each cell's distance placed in `distances` at the
/// same position.
pub fn gridDiskDistances(
    origin: H3Index,
    k: i32,
    out: &mut [H3Index],
    distances: &mut [i32],
) -> (r: H3Error)
    ensures
        k < 0 || !is_cell(origin) ==> final(out)@ == old(out)@ && final(distances)@ == old(distances)@,
        k < 0 ==> r == code(H3ErrorCodes::EDomain),
        k >= 0 && !is_cell(origin) ==> r == code(H3ErrorCodes::ECellInvalid),
        k >= 0 && is_cell(origin) ==> delivered_pairs(
            old(out)@,
            final(out)@,
            old(distances)@,
            final(distances)@,
            disk_distance_pairs(origin, k as u32),
            r,
        ),
{
    if k < 0 {
        return H3Error::of(H3ErrorCodes::EDomain);
    }
    let k = k as u32;
    if !cell_is_valid(origin) {
        return H3Error::of(H3ErrorCodes::ECellInvalid);
    }
    let items = match grid_disk_distances_fast(origin, k) {
        Some(items) if items.len() > 0 => items,
        _ => grid_disk_distances_safe(origin, k),
    };
    deliver_pairs(out, distances, &items)
}

/// Produces the cells within grid distance `k` of the origin cell, and the
/// distance of each, by the breadth-first traversal alone.
pub fn gridDiskDistancesSafe(
    origin: H3Index,
    k: i32,
    out: &mut [H3Index],
    distances: &mut [i32],
) -> (r: H3Error)
    ensures
        !is_cell(origin) || k < 0 ==> final(out)@ == old(out)@ && final(distances)@ == old(distances)@,
        !is_cell(origin) ==> r == code(H3ErrorCodes::ECellInvalid),
        is_cell(origin) && k < 0 ==> r == code(H3ErrorCodes::EDomain),
        is_cell(origin) && k >= 0 ==> delivered_pairs(
            old(out)@,
            final(out)@,
            old(distances)@,
            final(distances)@,
            disk_distances_safe_of(origin, k as u32),
            r,
        ),
{
    if !cell_is_valid(origin) {
        return H3Error::of(H3ErrorCodes::ECellInvalid);
    }
    if k < 0 {
        return H3Error::of(H3ErrorCodes::EDomain);
    }
    let items = grid_disk_distances_safe(origin, k as u32);
    deliver_pairs(out, distances, &items)
}

/// Produces the cells within grid distance `k` of the origin cell, and the
/// distance of each, by the fast traversal alone: where it meets pentagon
/// distortion the call fails and the buffers are left as they were.
pub fn gridDiskDistancesUnsafe(
    origin: H3Index,
    k: i32,
    out: &mut [H3Index],
    distances: &mut [i32],
) -> (r: H3Error)
    ensures
        r != success() ==> final(out)@ == old(out)@ && final(distances)@ == old(distances)@,
        !is_cell(origin) ==> r == code(H3ErrorCodes::ECellInvalid),
        is_cell(origin) && k < 0 ==> r == code(H3ErrorCodes::EDomain),
        is_cell(origin) && k >= 0 ==> match disk_distances_fast_of(origin, k as u32) {
            None => r == code(H3ErrorCodes::EPentagon),
            Some(items) => delivered_pairs(
                old(out)@,
                final(out)@,
                old(distances)@,
                final(distances)@,
                items,
                r,
            ),
        },
        is_cell(origin) && k >= 0 && is_pentagon(origin) ==> r == code(H3ErrorCodes::EPentagon),
{
    if !cell_is_valid(origin) {
        return H3Error::of(H3ErrorCodes::ECellInvalid);
    }
    if k < 0 {
        return H3Error::of(H3ErrorCodes::EDomain);
    }
    match grid_disk_distances_fast(origin, k as u32) {
        Some(items) => deliver_pairs(out, distances, &items),
        None => H3Error::of(H3ErrorCodes::EPentagon),
    }
}

/// Produces the cells within grid distance `k` of the origin cell by the
/// fast traversal alone: where it meets pentagon distortion the call fails
/// and `out` is left as it was.
pub fn gridDiskUnsafe(origin: H3Index, k: i32, out: &mut [H3Index]) -> (r: H3Error)
    ensures
        r != success() ==> final(out)@ == old(out)@,
        !is_cell(origin) ==> r == code(H3ErrorCodes::ECellInvalid),
        is_cell(origin) && k < 0 ==> r == code(H3ErrorCodes::EDomain),
        is_cell(origin) && k >= 0 ==> match disk_fast_of(origin, k as u32) {
            None => r == code(H3ErrorCodes::EPentagon),
            Some(cells) => delivered(old(out)@, final(out)@, cells, r),
        },
        is_cell(origin) && k >= 0 && is_pentagon(origin) ==> r == code(H3ErrorCodes::EPentagon),
{
    if !cell_is_valid(origin) {
        return H3Error::of(H3ErrorCodes::ECellInvalid);
    }
    if k < 0 {
        return H3Error::of(H3ErrorCodes::EDomain);
    }
    match grid_disk_fast(origin, k as u32) {
        Some(cells) => deliver(out, &cells),
        None => H3Error::of(H3ErrorCodes::EPentagon),
    }
}

/// Produces, for each of the first `length` cells of `h3Set` in turn, the
/// cells within grid distance `k` of it, by the fast traversal alone: where
/// it meets pentagon distortion the call fails and `out` is left as it was.
pub fn gridDisksUnsafe(h3Set: &[H3Index], length: i32, k: i32, out: &mut [H3Index]) -> (r:
    H3Error)
    requires
        0 <= length <= h3Set@.len(),
    ensures
        r != success() ==> final(out)@ == old(out)@,
        length == 0 ==> r == success() && final(out)@ == old(out)@,
        length > 0 && !all_cells(h3Set@, length as int) ==> r == code(H3ErrorCodes::ECellInvalid),
        length > 0 && all_cells(h3Set@, length as int) && k < 0 ==> r == code(
            H3ErrorCodes::EDomain,
        ),
        length > 0 && all_cells(h3Set@, length as int) && k >= 0 ==> match disks_fast_of(
            h3Set@.subrange(0, length as int),
            k as u32,
        ) {
            None => r == code(H3ErrorCodes::EPentagon),
            Some(cells) => delivered(old(out)@, final(out)@, cells, r),
        },
{
    if length == 0 {
        return H3Error::of(H3ErrorCodes::ESuccess);
    }
    let cells = match h3ptr_to_h3oslice_mut(h3Set, length) {
        Ok(cells) => cells,
        Err(e) => return e,
    };
    if k < 0 {
        return H3Error::of(H3ErrorCodes::EDomain);
    }
    match grid_disks_fast(cells, k as u32) {
        Some(found) => deliver(out, &found),
        None => H3Error::of(H3ErrorCodes::EPentagon),
    }
}

/// Produces the grid distance between two cells.
///
/// Fails where the cells are too far apart, or on opposite sides of a
/// pentagon; `distance` is written only on success.
pub fn gridDistance(origin: H3Index, h3: H3Index, distance: &mut i64) -> (r: H3Error)
    ensures
        !is_cell(origin) || !is_cell(h3) ==> r == code(H3ErrorCodes::ECellInvalid) && *final(distance) == *old(distance),
        is_cell(origin) && is_cell(h3) ==> match grid_distance_of(origin, h3) {
            Ok(d) => r == success() && *final(distance) == d as i64,
            Err(e) => r == local_ij_code(e) && *final(distance) == *old(distance),
        },
        is_cell(origin) && origin == h3 ==> r == success() && *final(distance) == 0,
        is_cell(origin) && is_cell(h3) && cell_res(origin) != cell_res(h3) ==> r == code(
            H3ErrorCodes::EResMismatch,
        ),
        r == success() ==> *final(distance) >= 0,
{
    if !cell_is_valid(origin) || !cell_is_valid(h3) {
        return H3Error::of(H3ErrorCodes::ECellInvalid);
    }
    match grid_distance(origin, h3) {
        Ok(d) => {
            *distance = d as i64;
            H3Error::of(H3ErrorCodes::ESuccess)
        },
        Err(e) => H3Error::from(e),
    }
}

/// Produces the line of cells from `start` to `end`, both included.
///
/// The line has `gridDistance(start, end) + 1` cells, each a neighbor of the
/// one before it. They are placed at the front of `out`.
pub fn gridPathCells(start: H3Index, end: H3Index, out: &mut [H3Index]) -> (r: H3Error)
    ensures
        r != success() ==> final(out)@ == old(out)@,
        !is_cell(start) || !is_cell(end) ==> r == code(H3ErrorCodes::ECellInvalid),
        is_cell(start) && is_cell(end) ==> match path_size_of(start, end) {
            Err(e) => r == local_ij_code(e),
            Ok(_) => match path_of(start, end) {
                Err(e) => r == local_ij_code(e),
                Ok(cells) => delivered(old(out)@, final(out)@, cells, r),
            },
        },
        r == success() ==> path_of(start, end) is Ok && grid_distance_of(start, end) is Ok
            && path_of(start, end)->Ok_0.len() == grid_distance_of(start, end)->Ok_0 + 1,
        r == success() ==> forall|i: int|
            0 <= i < path_of(start, end)->Ok_0.len() - 1 ==> neighbors_of(
                #[trigger] path_of(start, end)->Ok_0[i],
                path_of(start, end)->Ok_0[i + 1],
            ) == Some(true),
        r == success() ==> path_of(start, end)->Ok_0[0] == start && path_of(start, end)->Ok_0.last()
            == end,
        r == success() ==> forall|i: int|
            0 <= i < path_of(start, end)->Ok_0.len() ==> is_cell(#[trigger] path_of(start, end)->Ok_0[i]),
{
    if !cell_is_valid(start) || !cell_is_valid(end) {
        return H3Error::of(H3ErrorCodes::ECellInvalid);
    }
    if let Err(e) = grid_path_cells_size(start, end) {
        return H3Error::from(e);
    }
    match grid_path_cells(start, end) {
        Ok(cells) => deliver(out, &cells),
        Err(e) => H3Error::from(e),
    }
}

/// Number of cells on the line from `start` to `end`, to size the buffer of
/// `gridPathCells`.
pub fn gridPathCellsSize(start: H3Index, end: H3Index, size: &mut i64) -> (r: H3Error)
    ensures
        !is_cell(start) || !is_cell(end) ==> r == code(H3ErrorCodes::ECellInvalid) && *final(size)
            == *old(size),
        is_cell(start) && is_cell(end) ==> match path_size_of(start, end) {
            Ok(n) => r == success() && *final(size) == n as i64,
            Err(e) => r == local_ij_code(e) && *final(size) == *old(size),
        },
{
    if !cell_is_valid(start) || !cell_is_valid(end) {
        return H3Error::of(H3ErrorCodes::ECellInvalid);
    }
    match grid_path_cells_size(start, end) {
        Ok(n) => {
            *size = n as i64;
            H3Error::of(H3ErrorCodes::ESuccess)
        },
        Err(e) => H3Error::from(e),
    }
}

/// Produces the "hollow" ring of cells at exactly grid distance `k` of the
/// origin; `k == 0` gives the origin alone.
///
/// Uses the fast traversal alone: where it meets pentagon distortion the
/// call fails and `out` is left as it was. A ring it completes has `6 * k`
/// cells.
pub fn gridRingUnsafe(origin: H3Index, k: i32, out: &mut [H3Index]) -> (r: H3Error)
    ensures
        r != success() ==> final(out)@ == old(out)@,
        !is_cell(origin) ==> r == code(H3ErrorCodes::ECellInvalid),
        is_cell(origin) && k < 0 ==> r == code(H3ErrorCodes::EDomain),
        is_cell(origin) && k >= 0 ==> match ring_fast_of(origin, k as u32) {
            None => r == code(H3ErrorCodes::EPentagon),
            Some(cells) => delivered(old(out)@, final(out)@, cells, r),
        },
        is_cell(origin) && k == 0 && old(out)@.len() >= 1 ==> r == success() && final(out)@
            == old(out)@.update(0, origin),
        k > 0 && r == success() ==> ring_fast_of(origin, k as u32)->0.len() == 6 * k,
        r == success() ==> forall|i: int|
            0 <= i < ring_fast_of(origin, k as u32)->0.len() ==> is_cell(
                #[trigger] ring_fast_of(origin, k as u32)->0[i],
            ) && cell_res(ring_fast_of(origin, k as u32)->0[i]) == cell_res(origin),
        is_cell(origin) && k > 0 && is_pentagon(origin) ==> r == code(H3ErrorCodes::EPentagon),
{
    if !cell_is_valid(origin) {
        return H3Error::of(H3ErrorCodes::ECellInvalid);
    }
    if k < 0 {
        return H3Error::of(H3ErrorCodes::EDomain);
    }
    let r = match grid_ring_fast(origin, k as u32) {
        Some(cells) => deliver(out, &cells),
        None => H3Error::of(H3ErrorCodes::EPentagon),
    };
    proof {
        if k == 0 && old(out)@.len() >= 1 {
            assert(out@ =~= old(out)@.update(0, origin));
        }
    }
    r
}

/// The disk bound never exceeds the number of cells of the finest
/// resolution.
pub proof fn lemma_max_grid_disk_size_bound(k: u32)
    ensures
        0 < max_grid_disk_size_of(k) <= 569_707_381_193_162,
{
    if k < 13_780_510 {
        let kk = k as int;
        assert(3 * kk * (kk + 1) + 1 <= 569_707_381_193_162) by (nonlinear_arith)
            requires
                0 <= kk < 13_780_510,
        ;
        assert(0 < 3 * kk * (kk + 1) + 1) by (nonlinear_arith)
            requires
                0 <= kk,
        ;
    }
}

/// Maximum number of cells that `gridDisk` produces for the given `k`:
/// `3k(k+1) + 1`, capped at the number of cells of the finest resolution.
pub fn maxGridDiskSize(k: i32, out: &mut i64) -> (r: H3Error)
    ensures
        k < 0 ==> r == code(H3ErrorCodes::EDomain) && *final(out) == *old(out),
        k >= 0 ==> r == success() && *final(out) == max_grid_disk_size_of(k as u32),
{
    if k < 0 {
        return H3Error::of(H3ErrorCodes::EDomain);
    }
    let size = max_grid_disk_size(k as u32);
    proof {
        lemma_max_grid_disk_size_bound(k as u32);
    }
    *out = size as i64;
    H3Error::of(H3ErrorCodes::ESuccess)
}

} // verus!
