//! The grid engine: every call into `h3o` that the library makes, each with
//! the contract it is trusted to meet, beside the few engine facts that are
//! plain bit or formula work and are computed (and proved) here. Indexes
//! cross this boundary as plain `u64` values and results come back as plain
//! values.
use crate::error::{CompactionFailure, LocalIjFailure};
use h3o::error::{CompactionError, LocalIjError};
use h3o::{CellIndex, DirectedEdgeIndex, LocalIJ, Resolution, Vertex, VertexIndex};
use vstd::prelude::*;

verus! {

/// The contents of an optional vector.
pub open spec fn opt_seq<T>(r: Option<Vec<T>>) -> Option<Seq<T>> {
    match r {
        Some(v) => Some(v@),
        None => None,
    }
}

/// The contents of a vector or the failure in its place.
pub open spec fn res_seq<T, E>(r: Result<Vec<T>, E>) -> Result<Seq<T>, E> {
    match r {
        Ok(v) => Ok(v@),
        Err(e) => Err(e),
    }
}

// ---------------------------------------------------------------------------
// Index validity.

/// Whether a 64-bit value is a valid cell index.
pub uninterp spec fn is_cell(h: u64) -> bool;

/// Relies on `CellIndex::try_from(u64)`: it accepts exactly the valid cells.
#[verifier::external_body]
pub(crate) fn cell_is_valid(h: u64) -> (r: bool)
    ensures
        r == is_cell(h),
{
    CellIndex::try_from(h).is_ok()
}

/// Whether a 64-bit value is a valid directed edge index.
pub uninterp spec fn is_edge(h: u64) -> bool;

/// Relies on `DirectedEdgeIndex::try_from(u64)`: it accepts exactly the
/// valid directed edges.
#[verifier::external_body]
pub(crate) fn edge_is_valid(h: u64) -> (r: bool)
    ensures
        r == is_edge(h),
{
    DirectedEdgeIndex::try_from(h).is_ok()
}

/// Whether a 64-bit value is a valid vertex index.
pub uninterp spec fn is_vertex(h: u64) -> bool;

/// Relies on `VertexIndex::try_from(u64)`: it accepts exactly the valid
/// vertexes.
#[verifier::external_body]
pub(crate) fn vertex_is_valid(h: u64) -> (r: bool)
    ensures
        r == is_vertex(h),
{
    VertexIndex::try_from(h).is_ok()
}

/// Whether a valid cell is one of the pentagons.
pub uninterp spec fn is_pentagon(h: u64) -> bool;

/// Relies on `CellIndex::is_pentagon`.
#[verifier::external_body]
pub(crate) fn cell_is_pentagon(h: u64) -> (r: bool)
    requires
        is_cell(h),
    ensures
        r == is_pentagon(h),
{
    CellIndex::try_from(h).expect("valid cell").is_pentagon()
}

/// The resolution of a cell: bits 52 to 55 of its index.
pub open spec fn cell_res(h: u64) -> u8 {
    ((h >> 52u64) & 15u64) as u8
}

/// Reads the resolution field of a cell index.
pub(crate) fn cell_resolution(h: u64) -> (r: u8)
    ensures
        r == cell_res(h),
        r <= 15,
{
    assert((h >> 52u64) & 15u64 <= 15u64) by (bit_vector);
    ((h >> 52u64) & 15u64) as u8
}

// ---------------------------------------------------------------------------
// Text form.

/// The value of one hexadecimal digit, either case.
pub open spec fn hex_char_value(c: char) -> Option<nat> {
    if '0' <= c && c <= '9' {
        Some((c as nat - '0' as nat) as nat)
    } else if 'a' <= c && c <= 'f' {
        Some((c as nat - 'a' as nat + 10) as nat)
    } else if 'A' <= c && c <= 'F' {
        Some((c as nat - 'A' as nat + 10) as nat)
    } else {
        None
    }
}

/// The value of a run of hexadecimal digits, most significant first.
pub open spec fn hex_digits_value(s: Seq<char>) -> Option<nat>
    decreases s.len(),
{
    if s.len() == 0 {
        Some(0)
    } else {
        match (hex_digits_value(s.drop_last()), hex_char_value(s.last())) {
            (Some(high), Some(low)) => Some(16 * high + low),
            _ => None,
        }
    }
}

/// What `u64::from_str_radix(s, 16)` accepts: an optional `+`, then one or
/// more hexadecimal digits whose value fits in 64 bits.
pub open spec fn hex_value(s: Seq<char>) -> Option<u64> {
    let digits = if s.len() > 0 && s[0] == '+' {
        s.drop_first()
    } else {
        s
    };
    if digits.len() == 0 {
        None
    } else {
        match hex_digits_value(digits) {
            Some(v) => if v <= u64::MAX {
                Some(v as u64)
            } else {
                None
            },
            None => None,
        }
    }
}

/// Relies on `CellIndex::from_str`: `u64::from_str_radix(s, 16)`, then the
/// cell validity check.
#[verifier::external_body]
pub(crate) fn cell_from_str(s: &str) -> (r: Option<u64>)
    ensures
        r == (match hex_value(s@) {
            Some(v) => if is_cell(v) {
                Some(v)
            } else {
                None
            },
            None => None,
        }),
{
    s.parse::<CellIndex>().ok().map(u64::from)
}

/// Relies on `DirectedEdgeIndex::from_str`: `u64::from_str_radix(s, 16)`,
/// then the directed edge validity check.
#[verifier::external_body]
pub(crate) fn edge_from_str(s: &str) -> (r: Option<u64>)
    ensures
        r == (match hex_value(s@) {
            Some(v) => if is_edge(v) {
                Some(v)
            } else {
                None
            },
            None => None,
        }),
{
    s.parse::<DirectedEdgeIndex>().ok().map(u64::from)
}

/// Relies on `VertexIndex::from_str`: `u64::from_str_radix(s, 16)`, then
/// the vertex validity check.
#[verifier::external_body]
pub(crate) fn vertex_from_str(s: &str) -> (r: Option<u64>)
    ensures
        r == (match hex_value(s@) {
            Some(v) => if is_vertex(v) {
                Some(v)
            } else {
                None
            },
            None => None,
        }),
{
    s.parse::<VertexIndex>().ok().map(u64::from)
}

// ---------------------------------------------------------------------------
// Hierarchy.

/// Seven to the power `n`.
pub open spec fn pow7(n: nat) -> nat
    decreases n,
{
    if n == 0 {
        1
    } else {
        7 * pow7((n - 1) as nat)
    }
}

/// The number of children of cell `h` at resolution `res`: `7^d` for a
/// hexagon and `1 + 5 (7^d - 1) / 6` for a pentagon, `d` levels down.
pub open spec fn children_count_of(h: u64, res: u8) -> nat {
    if res < cell_res(h) {
        0
    } else if is_pentagon(h) {
        1 + 5 * ((pow7((res - cell_res(h)) as nat) - 1) as nat / 6)
    } else {
        pow7((res - cell_res(h)) as nat)
    }
}

/// The index of the ancestor of `h` at resolution `res`: the resolution
/// field set to `res` and every digit finer than `res` set to 7 (unused).
pub open spec fn parent_bits(h: u64, res: u8) -> u64 {
    (h & !(15u64 << 52u64)) | ((res as u64) << 52u64) | (((1u64 << (3 * (15 - res)) as u64) - 1) as u64)
}

/// Relies on `CellIndex::children_count`, whose tables hold the counts
/// above.
#[verifier::external_body]
pub(crate) fn children_count(h: u64, res: u8) -> (r: u64)
    requires
        is_cell(h),
        res <= 15,
    ensures
        r == children_count_of(h, res),
{
    let res = Resolution::try_from(res).expect("valid resolution");
    CellIndex::try_from(h).expect("valid cell").children_count(res)
}

/// The children of cell `h` at resolution `res`, in order.
pub uninterp spec fn children_of(h: u64, res: u8) -> Seq<u64>;

/// Relies on `CellIndex::children`: it yields `children_count` distinct
/// cells, each a cell at resolution `res` whose ancestor at the resolution
/// of `h` is `h`.
#[verifier::external_body]
pub(crate) fn children(h: u64, res: u8) -> (r: Vec<u64>)
    requires
        is_cell(h),
        res <= 15,
    ensures
        r@ == children_of(h, res),
        r@.len() == children_count_of(h, res),
        r@.no_duplicates(),
        forall|i: int|
            0 <= i < r@.len() ==> is_cell(#[trigger] r@[i]) && cell_res(r@[i]) == res
                && parent_bits(r@[i], cell_res(h)) == h,
{
    let res = Resolution::try_from(res).expect("valid resolution");
    CellIndex::try_from(h).expect("valid cell").children(res).map(u64::from).collect()
}

/// The index of the center child of `h` at resolution `res`: the
/// resolution field set to `res` and the digits from the resolution of `h`
/// down to `res` cleared.
pub open spec fn center_child_bits(h: u64, res: u8) -> u64 {
    let start = (3 * (15 - cell_res(h))) as u64;
    let stop = (3 * (15 - res)) as u64;
    let mask = ((1u64 << (start - stop) as u64) - 1) as u64;
    ((h & !(15u64 << 52u64)) | ((res as u64) << 52u64)) & !(mask << stop)
}

/// The center child of a cell at a finer resolution; `None` for a coarser
/// one.
pub(crate) fn center_child(h: u64, res: u8) -> (r: Option<u64>)
    requires
        res <= 15,
    ensures
        res < cell_res(h) ==> r is None,
        res >= cell_res(h) ==> r == Some(center_child_bits(h, res)),
{
    let current = cell_resolution(h);
    if res < current {
        return None;
    }
    let start = (3 * (15 - current)) as u64;
    let stop = (3 * (15 - res)) as u64;
    let width = start - stop;
    assert(1u64 << width >= 1u64) by (bit_vector)
        requires
            width <= 45u64,
    ;
    let mask = (1u64 << width) - 1;
    Some(((h & !(15u64 << 52u64)) | ((res as u64) << 52u64)) & !(mask << stop))
}

/// The ancestor of a cell at a coarser resolution; `None` for a finer one.
pub(crate) fn parent(h: u64, res: u8) -> (r: Option<u64>)
    requires
        res <= 15,
    ensures
        res > cell_res(h) ==> r is None,
        res <= cell_res(h) ==> r == Some(parent_bits(h, res)),
{
    if res > cell_resolution(h) {
        return None;
    }
    let unused = (3 * (15 - res)) as u64;
    assert(1u64 << unused >= 1u64) by (bit_vector)
        requires
            unused <= 45u64,
    ;
    Some((h & !(15u64 << 52u64)) | ((res as u64) << 52u64) | ((1u64 << unused) - 1))
}

/// The base cell of a cell: bits 45 to 51 of its index.
pub open spec fn base_cell_of(h: u64) -> u64 {
    (h >> 45u64) & 127u64
}

/// Reads the base cell field of a cell index.
pub(crate) fn base_cell(h: u64) -> (r: u8)
    ensures
        r == base_cell_of(h),
{
    assert((h >> 45u64) & 127u64 <= 127u64) by (bit_vector);
    ((h >> 45u64) & 127u64) as u8
}

/// The position of `h` among the children of its ancestor at `res`.
pub uninterp spec fn child_position_of(h: u64, res: u8) -> Option<u64>;

/// Relies on `CellIndex::child_position`: `None` for a finer resolution.
#[verifier::external_body]
pub(crate) fn child_position(h: u64, res: u8) -> (r: Option<u64>)
    requires
        is_cell(h),
        res <= 15,
    ensures
        r == child_position_of(h, res),
        res > cell_res(h) ==> r is None,
{
    let res = Resolution::try_from(res).expect("valid resolution");
    CellIndex::try_from(h).expect("valid cell").child_position(res)
}

/// The child of `h` at position `pos` among its children at `res`.
pub uninterp spec fn child_at_of(h: u64, pos: u64, res: u8) -> Option<u64>;

/// Relies on `CellIndex::child_at`: `None` for a coarser resolution or a
/// position past the last child.
#[verifier::external_body]
pub(crate) fn child_at(h: u64, pos: u64, res: u8) -> (r: Option<u64>)
    requires
        is_cell(h),
        res <= 15,
    ensures
        r == child_at_of(h, pos, res),
        res < cell_res(h) || pos >= children_count_of(h, res) ==> r is None,
{
    let res = Resolution::try_from(res).expect("valid resolution");
    CellIndex::try_from(h).expect("valid cell").child_at(pos, res).map(u64::from)
}

/// The icosahedron faces that a cell intersects.
pub uninterp spec fn faces_of(h: u64) -> Seq<u8>;

/// Relies on `CellIndex::icosahedron_faces`: a set of faces numbered 0 to
/// 19, at least one and at most `max_face_count` (5 for a pentagon, else 2).
#[verifier::external_body]
pub(crate) fn icosahedron_faces(h: u64) -> (r: Vec<u8>)
    requires
        is_cell(h),
    ensures
        r@ == faces_of(h),
        forall|i: int| 0 <= i < r@.len() ==> #[trigger] r@[i] < 20,
        r@.no_duplicates(),
        1 <= r@.len() <= (if is_pentagon(h) { 5int } else { 2int }),
{
    CellIndex::try_from(h).expect("valid cell").icosahedron_faces().iter().map(u8::from).collect()
}

/// Relies on `CellIndex::max_face_count`: 5 for a pentagon, else 2.
#[verifier::external_body]
pub(crate) fn max_face_count(h: u64) -> (r: usize)
    requires
        is_cell(h),
    ensures
        r == (if is_pentagon(h) { 5usize } else { 2usize }),
{
    CellIndex::try_from(h).expect("valid cell").max_face_count()
}

// ---------------------------------------------------------------------------
// Compaction.

/// Whether every cell of `s` has the resolution of the first.
pub open spec fn same_resolution(s: Seq<u64>) -> bool {
    forall|i: int| 0 <= i < s.len() ==> cell_res(#[trigger] s[i]) == cell_res(s[0])
}

/// The children at resolution `res` of each cell of `cells`, one after the
/// other.
pub open spec fn uncompacted(cells: Seq<u64>, res: u8) -> Seq<u64>
    decreases cells.len(),
{
    if cells.len() == 0 {
        Seq::empty()
    } else {
        uncompacted(cells.drop_last(), res) + children_of(cells.last(), res)
    }
}

/// The compacted form of a set of same-resolution cells.
pub uninterp spec fn compacted(cells: Seq<u64>) -> Seq<u64>;

/// Relies on `CellIndex::compact`. It reports mixed resolutions first, then
/// duplicates; otherwise, as its documentation says, it returns the fewest
/// distinct cells that cover exactly the cells given (so at most as many,
/// and no cell covered twice).
#[verifier::external_body]
pub(crate) fn compact(cells: &[u64]) -> (r: Result<Vec<u64>, CompactionFailure>)
    requires
        forall|i: int| 0 <= i < cells@.len() ==> is_cell(#[trigger] cells@[i]),
    ensures
        !same_resolution(cells@) ==> r matches Err(CompactionFailure::HeterogeneousResolution),
        same_resolution(cells@) && !cells@.no_duplicates() ==> r matches Err(CompactionFailure::DuplicateInput),
        same_resolution(cells@) && cells@.no_duplicates() ==> r is Ok,
        r is Ok ==> r->Ok_0@ == compacted(cells@),
        r is Ok ==> r->Ok_0@.len() <= cells@.len(),
        r is Ok ==> r->Ok_0@.no_duplicates(),
        r is Ok ==> forall|i: int| 0 <= i < r->Ok_0@.len() ==> is_cell(#[trigger] r->Ok_0@[i]),
        r is Ok && cells@.len() > 0 ==> uncompacted(r->Ok_0@, cell_res(cells@[0])).no_duplicates(),
        r is Ok && cells@.len() > 0 ==> uncompacted(r->Ok_0@, cell_res(cells@[0])).to_set()
            == cells@.to_set(),
{
    let cells = cells.iter().map(|&cell| CellIndex::try_from(cell).expect("valid cell"));
    match CellIndex::compact(cells) {
        Ok(cells) => Ok(cells.map(u64::from).collect()),
        Err(CompactionError::HeterogeneousResolution) => Err(CompactionFailure::HeterogeneousResolution),
        Err(CompactionError::DuplicateInput) => Err(CompactionFailure::DuplicateInput),
        Err(_) => Err(CompactionFailure::Other),
    }
}

/// The number of cells that `cells` expand to at resolution `res`.
pub open spec fn uncompact_size_of(cells: Seq<u64>, res: u8) -> nat
    decreases cells.len(),
{
    if cells.len() == 0 {
        0
    } else {
        uncompact_size_of(cells.drop_last(), res) + children_count_of(cells.last(), res)
    }
}

/// Relies on `CellIndex::uncompact`: the children of each cell in turn,
/// `children_count` of them for each, every one a cell at `res` below the
/// cell it came from.
#[verifier::external_body]
pub(crate) fn uncompact(cells: &[u64], res: u8) -> (r: Vec<u64>)
    requires
        forall|i: int| 0 <= i < cells@.len() ==> is_cell(#[trigger] cells@[i]),
        res <= 15,
    ensures
        r@ == uncompacted(cells@, res),
        r@.len() == uncompact_size_of(cells@, res),
        forall|i: int|
            0 <= i < r@.len() ==> is_cell(#[trigger] r@[i]) && cell_res(r@[i]) == res && exists|j: int|
                0 <= j < cells@.len() && parent_bits(r@[i], cell_res(cells@[j])) == cells@[j],
{
    let res = Resolution::try_from(res).expect("valid resolution");
    let cells = cells.iter().map(|&cell| CellIndex::try_from(cell).expect("valid cell"));
    CellIndex::uncompact(cells, res).map(u64::from).collect()
}

// ---------------------------------------------------------------------------
// Neighborhoods.

/// Bound on the number of cells within distance `k` of any cell.
pub open spec fn max_grid_disk_size_of(k: u32) -> int {
    if k >= 13_780_510 {
        569_707_381_193_162
    } else {
        3 * k * (k + 1) + 1
    }
}

/// Bound on the number of cells within distance `k` of any cell:
/// `3k(k+1) + 1`, capped at the number of cells of the finest resolution.
pub(crate) fn max_grid_disk_size(k: u32) -> (r: u64)
    ensures
        r == max_grid_disk_size_of(k),
{
    if k >= 13_780_510 {
        return 569_707_381_193_162;
    }
    let k = k as u64;
    assert(3 * k * (k + 1) + 1 <= 569_707_381_193_162) by (nonlinear_arith)
        requires
            k < 13_780_510,
    ;
    3 * k * (k + 1) + 1
}

/// The cells within distance `k` of `origin` by the fast traversal, or
/// `None` where that traversal meets pentagon distortion.
pub uninterp spec fn disk_fast_of(origin: u64, k: u32) -> Option<Seq<u64>>;

/// Relies on `CellIndex::grid_disk_fast`: the fast traversal fails on a
/// pentagon origin and, for `k == 0`, otherwise yields the origin alone; it
/// yields cells at the origin's resolution.
#[verifier::external_body]
pub(crate) fn grid_disk_fast(origin: u64, k: u32) -> (r: Option<Vec<u64>>)
    requires
        is_cell(origin),
    ensures
        opt_seq(r) == disk_fast_of(origin, k),
        is_pentagon(origin) ==> r is None,
        k == 0 ==> (r is Some <==> !is_pentagon(origin)),
        k == 0 && r is Some ==> r->0@ == seq![origin],
        r is Some ==> forall|i: int|
            0 <= i < r->0@.len() ==> is_cell(#[trigger] r->0@[i]) && cell_res(r->0@[i]) == cell_res(origin),
{
    let origin = CellIndex::try_from(origin).expect("valid cell");
    origin.grid_disk_fast(k).map(|cell| cell.map(u64::from)).collect()
}

/// The cells within distance `k` of `origin` by the always-correct
/// breadth-first traversal.
pub uninterp spec fn disk_safe_of(origin: u64, k: u32) -> Seq<u64>;

/// Relies on `CellIndex::grid_disk_safe`: for `k == 0` it yields the origin
/// alone; it yields distinct cells (a seen set filters them) at the origin's
/// resolution.
#[verifier::external_body]
pub(crate) fn grid_disk_safe(origin: u64, k: u32) -> (r: Vec<u64>)
    requires
        is_cell(origin),
    ensures
        r@ == disk_safe_of(origin, k),
        k == 0 ==> r@ == seq![origin],
        r@.no_duplicates(),
        forall|i: int| 0 <= i < r@.len() ==> is_cell(#[trigger] r@[i]) && cell_res(r@[i]) == cell_res(origin),
{
    let origin = CellIndex::try_from(origin).expect("valid cell");
    origin.grid_disk_safe(k).map(u64::from).collect()
}

/// The cells within distance `k` of `origin`, with their distances, by the
/// fast traversal, or `None` where it meets pentagon distortion.
pub uninterp spec fn disk_distances_fast_of(origin: u64, k: u32) -> Option<Seq<(u64, u32)>>;

/// Relies on `CellIndex::grid_disk_distances_fast`: it fails on a pentagon
/// origin; no distance exceeds `k`.
#[verifier::external_body]
pub(crate) fn grid_disk_distances_fast(origin: u64, k: u32) -> (r: Option<Vec<(u64, u32)>>)
    requires
        is_cell(origin),
    ensures
        opt_seq(r) == disk_distances_fast_of(origin, k),
        is_pentagon(origin) ==> r is None,
        r is Some ==> forall|i: int| 0 <= i < r->0@.len() ==> #[trigger] r->0@[i].1 <= k,
{
    let origin = CellIndex::try_from(origin).expect("valid cell");
    origin
        .grid_disk_distances_fast(k)
        .map(|item| item.map(|(cell, dist)| (u64::from(cell), dist)))
        .collect()
}

/// The cells within distance `k` of `origin`, with their distances, by the
/// breadth-first traversal.
pub uninterp spec fn disk_distances_safe_of(origin: u64, k: u32) -> Seq<(u64, u32)>;

/// Relies on `CellIndex::grid_disk_distances_safe`: no distance exceeds `k`.
#[verifier::external_body]
pub(crate) fn grid_disk_distances_safe(origin: u64, k: u32) -> (r: Vec<(u64, u32)>)
    requires
        is_cell(origin),
    ensures
        r@ == disk_distances_safe_of(origin, k),
        forall|i: int| 0 <= i < r@.len() ==> #[trigger] r@[i].1 <= k,
{
    let origin = CellIndex::try_from(origin).expect("valid cell");
    origin.grid_disk_distances_safe(k).map(|(cell, dist)| (u64::from(cell), dist)).collect()
}

/// The fast disks of every cell of `cells`, one after the other, or `None`
/// where any of them fails.
pub open spec fn disks_fast_of(cells: Seq<u64>, k: u32) -> Option<Seq<u64>>
    decreases cells.len(),
{
    if cells.len() == 0 {
        Some(Seq::empty())
    } else {
        match (disks_fast_of(cells.drop_last(), k), disk_fast_of(cells.last(), k)) {
            (Some(front), Some(back)) => Some(front + back),
            _ => None,
        }
    }
}

/// Relies on `CellIndex::grid_disks_fast`: the fast disks of the cells, in
/// order.
#[verifier::external_body]
pub(crate) fn grid_disks_fast(cells: &[u64], k: u32) -> (r: Option<Vec<u64>>)
    requires
        forall|i: int| 0 <= i < cells@.len() ==> is_cell(#[trigger] cells@[i]),
    ensures
        opt_seq(r) == disks_fast_of(cells@, k),
{
    let cells = cells.iter().map(|&cell| CellIndex::try_from(cell).expect("valid cell"));
    CellIndex::grid_disks_fast(cells, k).map(|cell| cell.map(u64::from)).collect()
}

/// The cells at exactly distance `k` of `origin`, or `None` where the fast
/// traversal meets pentagon distortion.
pub uninterp spec fn ring_fast_of(origin: u64, k: u32) -> Option<Seq<u64>>;

/// Relies on `CellIndex::grid_ring_fast`: for `k == 0` it yields the origin
/// alone; otherwise it fails on a pentagon origin, and a ring it completes
/// has six sides of `k` cells at the origin's resolution.
#[verifier::external_body]
pub(crate) fn grid_ring_fast(origin: u64, k: u32) -> (r: Option<Vec<u64>>)
    requires
        is_cell(origin),
    ensures
        opt_seq(r) == ring_fast_of(origin, k),
        k == 0 ==> opt_seq(r) == Some(seq![origin]),
        k > 0 && r is Some ==> r->0@.len() == 6 * k,
        k > 0 && is_pentagon(origin) ==> r is None,
        r is Some ==> forall|i: int|
            0 <= i < r->0@.len() ==> is_cell(#[trigger] r->0@[i]) && cell_res(r->0@[i]) == cell_res(origin),
{
    let origin = CellIndex::try_from(origin).expect("valid cell");
    origin.grid_ring_fast(k).map(|cell| cell.map(u64::from)).collect()
}

// ---------------------------------------------------------------------------
// Edges and vertexes.

/// Relies on `CellIndex::is_neighbor_with`: `None` stands for its
/// resolution-mismatch error.
#[verifier::external_body]
pub(crate) fn neighbors(a: u64, b: u64) -> (r: Option<bool>)
    requires
        is_cell(a),
        is_cell(b),
    ensures
        r == neighbors_of(a, b),
{
    let a = CellIndex::try_from(a).expect("valid cell");
    let b = CellIndex::try_from(b).expect("valid cell");
    a.is_neighbor_with(b).ok()
}

/// The directed edge from `a` to `b`, where they are neighbors.
pub uninterp spec fn edge_of(a: u64, b: u64) -> Option<u64>;

/// Relies on `CellIndex::edge`: a valid directed edge, where there is one.
#[verifier::external_body]
pub(crate) fn edge(a: u64, b: u64) -> (r: Option<u64>)
    requires
        is_cell(a),
        is_cell(b),
    ensures
        r == edge_of(a, b),
        r is Some ==> is_edge(r->0),
{
    let a = CellIndex::try_from(a).expect("valid cell");
    let b = CellIndex::try_from(b).expect("valid cell");
    a.edge(b).map(u64::from)
}

/// The directed edges leaving a cell.
pub uninterp spec fn edges_of(h: u64) -> Seq<u64>;

/// Relies on `CellIndex::edges`: six edges, five for a pentagon.
#[verifier::external_body]
pub(crate) fn edges(h: u64) -> (r: Vec<u64>)
    requires
        is_cell(h),
    ensures
        r@ == edges_of(h),
        r@.len() == (if is_pentagon(h) { 5int } else { 6int }),
{
    CellIndex::try_from(h).expect("valid cell").edges().map(u64::from).collect()
}

/// The origin cell of a directed edge.
pub uninterp spec fn edge_origin_of(e: u64) -> u64;

/// Relies on `DirectedEdgeIndex::origin`.
#[verifier::external_body]
pub(crate) fn edge_origin(e: u64) -> (r: u64)
    requires
        is_edge(e),
    ensures
        r == edge_origin_of(e),
{
    u64::from(DirectedEdgeIndex::try_from(e).expect("valid edge").origin())
}

/// The destination cell of a directed edge.
pub uninterp spec fn edge_destination_of(e: u64) -> u64;

/// Relies on `DirectedEdgeIndex::destination`.
#[verifier::external_body]
pub(crate) fn edge_destination(e: u64) -> (r: u64)
    requires
        is_edge(e),
    ensures
        r == edge_destination_of(e),
{
    u64::from(DirectedEdgeIndex::try_from(e).expect("valid edge").destination())
}

/// Relies on `DirectedEdgeIndex::cells`: its origin, then its destination.
#[verifier::external_body]
pub(crate) fn edge_cells(e: u64) -> (r: (u64, u64))
    requires
        is_edge(e),
    ensures
        r == (edge_origin_of(e), edge_destination_of(e)),
{
    let (origin, destination) = DirectedEdgeIndex::try_from(e).expect("valid edge").cells();
    (u64::from(origin), u64::from(destination))
}

/// The vertex number `v` of a cell, where the cell has such a vertex.
pub uninterp spec fn vertex_of(h: u64, v: u8) -> Option<u64>;

/// Relies on `Vertex::try_from(u8)`, which takes 0 to 5, and
/// `CellIndex::vertex`, which yields a valid vertex where there is one.
#[verifier::external_body]
pub(crate) fn vertex(h: u64, v: u8) -> (r: Option<u64>)
    requires
        is_cell(h),
        v <= 5,
    ensures
        r == vertex_of(h, v),
        r is Some ==> is_vertex(r->0),
{
    let v = Vertex::try_from(v).expect("valid vertex number");
    CellIndex::try_from(h).expect("valid cell").vertex(v).map(u64::from)
}

/// The vertexes of a cell.
pub uninterp spec fn vertexes_of(h: u64) -> Seq<u64>;

/// Relies on `CellIndex::vertexes`: six vertexes, five for a pentagon.
#[verifier::external_body]
pub(crate) fn vertexes(h: u64) -> (r: Vec<u64>)
    requires
        is_cell(h),
    ensures
        r@ == vertexes_of(h),
        r@.len() == (if is_pentagon(h) { 5int } else { 6int }),
{
    CellIndex::try_from(h).expect("valid cell").vertexes().map(u64::from).collect()
}

// ---------------------------------------------------------------------------
// Resolutions.

/// Two plus 120 times seven to the power `res`.
pub open spec fn cell_count_of(res: u8) -> nat {
    2 + 120 * pow7(res as nat)
}

/// Two plus 120 times seven to the power `res`.
pub(crate) fn cell_count(res: u8) -> (r: u64)
    requires
        res <= 15,
    ensures
        r == cell_count_of(res),
{
    let mut power: u64 = 1;
    let mut i: u8 = 0;
    while i < res
        invariant
            i <= res <= 15,
            power == pow7(i as nat),
        decreases res - i,
    {
        proof {
            lemma_pow7_bound(i as nat);
        }
        power = power * 7;
        i = i + 1;
    }
    proof {
        lemma_pow7_bound(res as nat);
    }
    2 + 120 * power
}

/// Seven to the power `n` stays at most `7^15` for `n <= 15`.
pub proof fn lemma_pow7_bound(n: nat)
    requires
        n <= 15,
    ensures
        pow7(n) <= 4_747_561_509_943,
    decreases 15 - n,
{
    reveal_with_fuel(pow7, 16);
    if n < 15 {
        lemma_pow7_bound(n + 1);
        assert(pow7(n + 1) == 7 * pow7(n));
    }
}

/// Twelve pentagons at every resolution.
pub(crate) fn pentagon_count() -> (r: u8)
    ensures
        r == 12,
{
    12
}

/// 122 base cells.
pub(crate) fn base_cell_count() -> (r: u8)
    ensures
        r == 122,
{
    122
}

/// The pentagons at a resolution.
pub uninterp spec fn pentagons_of(res: u8) -> Seq<u64>;

/// Relies on `Resolution::pentagons`: the twelve pentagons, at resolution
/// `res`.
#[verifier::external_body]
pub(crate) fn pentagons(res: u8) -> (r: Vec<u64>)
    requires
        res <= 15,
    ensures
        r@ == pentagons_of(res),
        r@.len() == 12,
        forall|i: int| 0 <= i < r@.len() ==> is_cell(#[trigger] r@[i]) && is_pentagon(r@[i]) && cell_res(r@[i]) == res,
{
    Resolution::try_from(res).expect("valid resolution").pentagons().map(u64::from).collect()
}

/// The resolution 0 cell of base cell `b`.
pub open spec fn base_cell_index(b: int) -> u64 {
    (0x0800_1fff_ffff_ffffu64 | ((b as u64) << 45u64)) as u64
}

/// The 122 resolution 0 cells, by base cell number.
pub(crate) fn base_cells() -> (r: Vec<u64>)
    ensures
        r@ == Seq::new(122, |b: int| base_cell_index(b)),
{
    let mut cells: Vec<u64> = Vec::new();
    let mut b: u64 = 0;
    while b < 122
        invariant
            b <= 122,
            cells@ == Seq::new(b as nat, |i: int| base_cell_index(i)),
        decreases 122 - b,
    {
        cells.push(0x0800_1fff_ffff_ffffu64 | (b << 45u64));
        b = b + 1;
        assert(cells@ =~= Seq::new(b as nat, |i: int| base_cell_index(i)));
    }
    cells
}

/// Odd resolutions are Class III.
pub(crate) fn is_class3(res: u8) -> (r: bool)
    ensures
        r == (res % 2 == 1),
{
    res % 2 == 1
}

// ---------------------------------------------------------------------------
// Distances and paths.

/// The grid distance between two cells.
pub uninterp spec fn grid_distance_of(a: u64, b: u64) -> Result<i32, LocalIjFailure>;

/// `h3o`'s failure of local coordinate conversions, carried opaquely.
#[verifier::external_type_specification]
#[verifier::external_body]
pub struct ExLocalIjError(LocalIjError);

/// Relies on `LocalIjError`'s three variants, told apart one arm each.
#[verifier::external_body]
fn local_ij_failure(e: LocalIjError) -> LocalIjFailure {
    match e {
        LocalIjError::ResolutionMismatch => LocalIjFailure::ResolutionMismatch,
        LocalIjError::Pentagon => LocalIjFailure::Pentagon,
        _ => LocalIjFailure::HexGrid,
    }
}

/// Relies on `CellIndex::grid_distance`: cells of different resolutions
/// are refused; a distance is never negative; a cell is at distance 0 from
/// itself (both ends get the same local coordinates, and a pentagon's own
/// leading direction never fails the unfolding check).
#[verifier::external_body]
pub(crate) fn grid_distance(a: u64, b: u64) -> (r: Result<i32, LocalIjFailure>)
    requires
        is_cell(a),
        is_cell(b),
    ensures
        r == grid_distance_of(a, b),
        cell_res(a) != cell_res(b) ==> r matches Err(LocalIjFailure::ResolutionMismatch),
        r is Ok ==> r->Ok_0 >= 0,
        a == b ==> r is Ok && r->Ok_0 == 0,
{
    let a = CellIndex::try_from(a).expect("valid cell");
    let b = CellIndex::try_from(b).expect("valid cell");
    a.grid_distance(b).map_err(local_ij_failure)
}

/// The number of cells on the line from `a` to `b`: the distance plus one.
pub open spec fn path_size_of(a: u64, b: u64) -> Result<i32, LocalIjFailure> {
    match grid_distance_of(a, b) {
        Ok(d) => Ok((d + 1) as i32),
        Err(e) => Err(e),
    }
}

/// Relies on `CellIndex::grid_path_cells_size`: the grid distance plus one.
#[verifier::external_body]
pub(crate) fn grid_path_cells_size(a: u64, b: u64) -> (r: Result<i32, LocalIjFailure>)
    requires
        is_cell(a),
        is_cell(b),
    ensures
        r == path_size_of(a, b),
{
    let a = CellIndex::try_from(a).expect("valid cell");
    let b = CellIndex::try_from(b).expect("valid cell");
    a.grid_path_cells_size(b).map_err(local_ij_failure)
}

/// Whether two cells are neighbors, or `None` where their resolutions
/// differ.
pub uninterp spec fn neighbors_of(a: u64, b: u64) -> Option<bool>;

/// The local coordinates of `h` in the system anchored at `origin`.
pub uninterp spec fn local_ij_of(origin: u64, h: u64) -> Result<(i32, i32), LocalIjFailure>;

/// Relies on `CellIndex::to_local_ij`.
#[verifier::external_body]
pub(crate) fn to_local_ij(origin: u64, h: u64) -> (r: Result<(i32, i32), LocalIjFailure>)
    requires
        is_cell(origin),
        is_cell(h),
    ensures
        r == local_ij_of(origin, h),
{
    let origin = CellIndex::try_from(origin).expect("valid cell");
    let h = CellIndex::try_from(h).expect("valid cell");
    h.to_local_ij(origin).map(|ij| (ij.i(), ij.j())).map_err(local_ij_failure)
}

/// The cell at local coordinates `(i, j)` of the system anchored at
/// `origin`.
pub uninterp spec fn local_ij_cell_of(origin: u64, i: i32, j: i32) -> Result<u64, LocalIjFailure>;

/// The largest magnitude of a local IJ component that the conversion to a
/// cell takes: its `i32` arithmetic (normalizing, then scaling by up to 4 at
/// each resolution step) stays in range below it.
pub const LOCAL_IJ_LIMIT: i32 = 134_217_728;

/// Whether both components of an IJ pair lie within `LOCAL_IJ_LIMIT`.
pub open spec fn local_ij_in_range(i: i32, j: i32) -> bool {
    -LOCAL_IJ_LIMIT <= i <= LOCAL_IJ_LIMIT && -LOCAL_IJ_LIMIT <= j <= LOCAL_IJ_LIMIT
}

/// Relies on `LocalIJ::new_unchecked` and `CellIndex::try_from(LocalIJ)`,
/// whose integer arithmetic cannot overflow for components within
/// `LOCAL_IJ_LIMIT`.
#[verifier::external_body]
pub(crate) fn from_local_ij(origin: u64, i: i32, j: i32) -> (r: Result<u64, LocalIjFailure>)
    requires
        is_cell(origin),
        local_ij_in_range(i, j),
    ensures
        r == local_ij_cell_of(origin, i, j),
        r is Ok ==> is_cell(r->Ok_0),
{
    let origin = CellIndex::try_from(origin).expect("valid cell");
    CellIndex::try_from(LocalIJ::new_unchecked(origin, i, j)).map(u64::from).map_err(local_ij_failure)
}

/// The line of cells from `a` to `b`.
pub uninterp spec fn path_of(a: u64, b: u64) -> Result<Seq<u64>, LocalIjFailure>;

/// Relies on `CellIndex::grid_path_cells`, whose documentation guarantees
/// that the line runs from `a` to `b` (both included) and has
/// `grid_distance + 1` cells, each a neighbor of the one before it; every
/// item is a cell index.
#[verifier::external_body]
pub(crate) fn grid_path_cells(a: u64, b: u64) -> (r: Result<Vec<u64>, LocalIjFailure>)
    requires
        is_cell(a),
        is_cell(b),
    ensures
        res_seq(r) == path_of(a, b),
        r is Ok ==> grid_distance_of(a, b) is Ok && r->Ok_0@.len() == grid_distance_of(a, b)->Ok_0 + 1,
        r is Ok ==> forall|i: int|
            0 <= i < r->Ok_0@.len() - 1 ==> neighbors_of(#[trigger] r->Ok_0@[i], r->Ok_0@[i + 1]) == Some(true),
        r is Ok ==> forall|i: int| 0 <= i < r->Ok_0@.len() ==> is_cell(#[trigger] r->Ok_0@[i]),
        r is Ok ==> r->Ok_0@[0] == a && r->Ok_0@.last() == b,
{
    let a = CellIndex::try_from(a).expect("valid cell");
    let b = CellIndex::try_from(b).expect("valid cell");
    a.grid_path_cells(b)
        .and_then(|cells| cells.map(|cell| cell.map(u64::from)).collect())
        .map_err(local_ij_failure)
}

} // verus!
