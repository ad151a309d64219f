//! Directed edges between neighboring cells.
use crate::engine::{
    cell_is_valid, edge, edge_cells, edge_destination, edge_destination_of, edge_is_valid,
    edge_of, edge_origin, edge_origin_of, edges, edges_of, is_cell, is_edge, neighbors,
    neighbors_of,
};
use crate::buffer::{deliver, delivered};
use crate::error::{code, success, H3Error, H3ErrorCodes};
use crate::H3Index;
use vstd::prelude::*;

verus! {

/// Sets `out` to 1 where the two cells are neighbors, else to 0 (also for
/// cells of different resolutions).
pub fn areNeighborCells(origin: H3Index, destination: H3Index, out: &mut i32) -> (r: H3Error)
    ensures
        !is_cell(origin) || !is_cell(destination) ==> r == code(H3ErrorCodes::ECellInvalid)
            && *final(out) == *old(out),
        is_cell(origin) && is_cell(destination) ==> r == success() && *final(out) == (if neighbors_of(
            origin,
            destination,
        ) == Some(true) {
            1i32
        } else {
            0i32
        }),
{
    if !cell_is_valid(origin) || !cell_is_valid(destination) {
        return H3Error::of(H3ErrorCodes::ECellInvalid);
    }
    *out = match neighbors(origin, destination) {
        Some(true) => 1,
        _ => 0,
    };
    H3Error::of(H3ErrorCodes::ESuccess)
}

/// Produces the directed edge from `origin` to its neighbor `destination`.
pub fn cellsToDirectedEdge(origin: H3Index, destination: H3Index, out: &mut H3Index) -> (r:
    H3Error)
    ensures
        r != success() ==> *final(out) == *old(out),
        !is_cell(origin) || !is_cell(destination) ==> r == code(H3ErrorCodes::ECellInvalid),
        is_cell(origin) && is_cell(destination) ==> match edge_of(origin, destination) {
            None => r == code(H3ErrorCodes::ENotNeighbors),
            Some(e) => r == success() && *final(out) == e && is_edge(e),
        },
{
    if !cell_is_valid(origin) || !cell_is_valid(destination) {
        return H3Error::of(H3ErrorCodes::ECellInvalid);
    }
    match edge(origin, destination) {
        Some(e) => {
            *out = e;
            H3Error::of(H3ErrorCodes::ESuccess)
        },
        None => H3Error::of(H3ErrorCodes::ENotNeighbors),
    }
}

/// Writes the origin and the destination of a directed edge to the first
/// two slots of `originDestination`.
pub fn directedEdgeToCells(edge_index: H3Index, originDestination: &mut [H3Index]) -> (r: H3Error)
    requires
        old(originDestination)@.len() >= 2,
    ensures
        !is_edge(edge_index) ==> r == code(H3ErrorCodes::EDirEdgeInvalid) && final(
            originDestination)@ == old(originDestination)@,
        is_edge(edge_index) ==> r == success() && final(originDestination)@ == old(
            originDestination)@.update(0, edge_origin_of(edge_index)).update(
            1,
            edge_destination_of(edge_index),
        ),
{
    if !edge_is_valid(edge_index) {
        return H3Error::of(H3ErrorCodes::EDirEdgeInvalid);
    }
    let (origin, destination) = edge_cells(edge_index);
    originDestination[0] = origin;
    originDestination[1] = destination;
    H3Error::of(H3ErrorCodes::ESuccess)
}

/// Produces the destination cell of a directed edge.
pub fn getDirectedEdgeDestination(edge_index: H3Index, out: &mut H3Index) -> (r: H3Error)
    ensures
        !is_edge(edge_index) ==> r == code(H3ErrorCodes::EDirEdgeInvalid) && *final(out) == *old(
            out),
        is_edge(edge_index) ==> r == success() && *final(out) == edge_destination_of(edge_index),
{
    if !edge_is_valid(edge_index) {
        return H3Error::of(H3ErrorCodes::EDirEdgeInvalid);
    }
    *out = edge_destination(edge_index);
    H3Error::of(H3ErrorCodes::ESuccess)
}

/// Produces the origin cell of a directed edge.
pub fn getDirectedEdgeOrigin(edge_index: H3Index, out: &mut H3Index) -> (r: H3Error)
    ensures
        !is_edge(edge_index) ==> r == code(H3ErrorCodes::EDirEdgeInvalid) && *final(out) == *old(
            out),
        is_edge(edge_index) ==> r == success() && *final(out) == edge_origin_of(edge_index),
{
    if !edge_is_valid(edge_index) {
        return H3Error::of(H3ErrorCodes::EDirEdgeInvalid);
    }
    *out = edge_origin(edge_index);
    H3Error::of(H3ErrorCodes::ESuccess)
}

/// 1 for a valid directed edge, else 0.
pub fn isValidDirectedEdge(edge_index: H3Index) -> (r: i32)
    ensures
        r == (if is_edge(edge_index) { 1i32 } else { 0i32 }),
{
    if edge_is_valid(edge_index) {
        1
    } else {
        0
    }
}

/// Writes the six directed edges leaving a cell (five for a pentagon) to
/// the front of `edges_out`.
pub fn originToDirectedEdges(origin: H3Index, edges_out: &mut [H3Index]) -> (r: H3Error)
    ensures
        r != success() ==> final(edges_out)@ == old(edges_out)@,
        !is_cell(origin) ==> r == code(H3ErrorCodes::ECellInvalid),
        is_cell(origin) ==> delivered(old(edges_out)@, final(edges_out)@, edges_of(origin), r),
{
    if !cell_is_valid(origin) {
        return H3Error::of(H3ErrorCodes::ECellInvalid);
    }
    let found = edges(origin);
    deliver(edges_out, &found)
}

} // verus!
