//! A hierarchical hexagonal grid exposed through flat, code-returning
//! operations: every fallible call returns an [`H3Error`] and hands its
//! value back through an output parameter, which it writes only on success.
//! Variable-length results go to the front of caller-supplied buffers.
use vstd::prelude::*;

pub mod buffer;
pub mod cell;
pub mod compact;
pub mod convert;
pub mod directed_edge;
pub mod engine;
pub mod error;
pub mod geom;
pub mod grid;
pub mod index_string;
pub mod localij;
pub mod resolution;
pub mod vertex;

pub use cell::{
    cellToCenterChild, cellToChildPos, cellToChildren, cellToChildrenSize, cellToParent,
    childPosToCell, getBaseCellNumber, getIcosahedronFaces, getResolution, isPentagon, isValidCell,
    maxFaceCount,
};
pub use compact::{compactCells, uncompactCells, uncompactCellsSize};
pub use directed_edge::{
    areNeighborCells, cellsToDirectedEdge, directedEdgeToCells, getDirectedEdgeDestination,
    getDirectedEdgeOrigin, isValidDirectedEdge, originToDirectedEdges,
};
pub use error::{H3Error, H3ErrorCodes};
pub use geom::{
    destroyLinkedMultiPolygon, FreedNodes, GeoLoop, GeoMultiPolygon, GeoPolygon, LinkedGeoLoop,
    LinkedGeoPolygon, LinkedLatLng, PolygonFill,
};
pub use grid::{
    gridDisk, gridDiskDistances, gridDiskDistancesSafe, gridDiskDistancesUnsafe, gridDiskUnsafe,
    gridDisksUnsafe, gridDistance, gridPathCells, gridPathCellsSize, gridRingUnsafe,
    maxGridDiskSize,
};
pub use index_string::{h3ToString, stringToH3};
pub use localij::{cellToLocalIj, localIjToCell, CoordIJ};
pub use resolution::{
    getNumCells, getPentagons, getRes0Cells, isResClassIII, pentagonCount, res0CellCount,
};
pub use vertex::{cellToVertex, cellToVertexes, isValidVertex};

verus! {

/// Identifier for an object (cell, edge, etc) of the grid, held in 64 bits.
pub type H3Index = u64;

/// Invalid index, used to mark missing data in arrays of indexes.
pub const H3_NULL: H3Index = 0;

pub const H3O_VERSION_MAJOR: u8 = 0;

pub const H3O_VERSION_MINOR: u8 = 3;

pub const H3O_VERSION_PATCH: u8 = 0;

} // verus!
