use ch3o::{
    cellToCenterChild, cellToChildPos, cellToChildren, cellToChildrenSize, cellToParent,
    cellToVertex, cellToVertexes, cellsToDirectedEdge, childPosToCell, directedEdgeToCells,
    getBaseCellNumber, getDirectedEdgeDestination, getDirectedEdgeOrigin, getIcosahedronFaces,
    getNumCells, getPentagons, getRes0Cells, getResolution, isPentagon, isResClassIII,
    isValidCell, isValidDirectedEdge, isValidVertex, maxFaceCount, originToDirectedEdges,
    pentagonCount, res0CellCount, areNeighborCells, cellToLocalIj, localIjToCell, CoordIJ,
    H3Error, H3ErrorCodes,
};

const CELL: u64 = 0x8a1fb46622dffff;
const NEIGHBOR: u64 = 0x8a1fb46622d7fff;
const PENTAGON: u64 = 0x8009fffffffffff;

fn ok() -> H3Error {
    H3Error::from(H3ErrorCodes::ESuccess)
}

fn err(c: H3ErrorCodes) -> H3Error {
    H3Error::from(c)
}

#[test]
fn error_codes_are_flat() {
    assert_eq!(H3Error::from(H3ErrorCodes::ESuccess), H3Error(0));
    assert_eq!(H3Error::from(H3ErrorCodes::EFailed), H3Error(1));
    assert_eq!(H3Error::from(H3ErrorCodes::ECellInvalid), H3Error(5));
    assert_eq!(H3Error::from(H3ErrorCodes::EPentagon), H3Error(9));
    assert_eq!(H3Error::from(H3ErrorCodes::EMemoryBounds), H3Error(14));
    assert_eq!(H3Error::from(H3ErrorCodes::EOptionInvalid), H3Error(15));
    assert_eq!(H3ErrorCodes::EResMismatch.value(), 12);
    assert!(H3Error(0).is_success());
    assert!(!H3Error(3).is_success());
}

#[test]
fn children_count_and_parents() {
    for res in 10..13 {
        let mut size = 0i64;
        assert_eq!(cellToChildrenSize(CELL, res, &mut size), ok());
        let mut out = vec![0u64; size as usize];
        assert_eq!(cellToChildren(CELL, res, &mut out), ok());
        assert!(out.iter().all(|&c| c != 0));
        for &child in &out {
            let mut p = 0u64;
            assert_eq!(cellToParent(child, 10, &mut p), ok());
            assert_eq!(p, CELL);
        }
    }
    let mut size = 0i64;
    assert_eq!(cellToChildrenSize(CELL, 15, &mut size), ok());
    assert_eq!(size, 16_807);
    assert_eq!(cellToChildrenSize(PENTAGON, 1, &mut size), ok());
    assert_eq!(size, 6);
    assert_eq!(cellToChildrenSize(PENTAGON, 2, &mut size), ok());
    assert_eq!(size, 41);
    assert_eq!(cellToChildrenSize(CELL, 9, &mut size), ok());
    assert_eq!(size, 0);
    assert_eq!(cellToChildrenSize(0, 11, &mut size), err(H3ErrorCodes::EResDomain));
    assert_eq!(cellToChildrenSize(CELL, 16, &mut size), err(H3ErrorCodes::EResDomain));
}

#[test]
fn pentagon_children_keep_their_parent() {
    let mut out = vec![0u64; 6];
    assert_eq!(cellToChildren(PENTAGON, 1, &mut out), ok());
    for &child in &out {
        let mut p = 0u64;
        assert_eq!(cellToParent(child, 0, &mut p), ok());
        assert_eq!(p, PENTAGON);
    }
    let mut small = vec![0u64; 5];
    assert_eq!(cellToChildren(PENTAGON, 1, &mut small), err(H3ErrorCodes::EMemoryBounds));
    assert_eq!(cellToChildren(PENTAGON, -1, &mut small), err(H3ErrorCodes::EResDomain));
    assert_eq!(cellToChildren(2, 1, &mut small), err(H3ErrorCodes::ECellInvalid));
}

#[test]
fn parent_and_center_child() {
    let mut p = 0u64;
    assert_eq!(cellToParent(CELL, 5, &mut p), ok());
    assert_eq!(p, 0x851fb467fffffff);
    assert_eq!(cellToParent(CELL, 11, &mut p), err(H3ErrorCodes::EResMismatch));
    assert_eq!(cellToParent(CELL, 16, &mut p), err(H3ErrorCodes::EResDomain));
    let mut c = 0u64;
    assert_eq!(cellToCenterChild(CELL, 15, &mut c), ok());
    assert_eq!(c, 0x8f1fb46622d8000);
    assert_eq!(cellToCenterChild(CELL, 9, &mut c), err(H3ErrorCodes::EResDomain));
    assert_eq!(cellToCenterChild(3, 12, &mut c), err(H3ErrorCodes::ECellInvalid));
}

#[test]
fn child_positions() {
    let mut pos = 0i64;
    assert_eq!(cellToChildPos(CELL, 8, &mut pos), ok());
    assert_eq!(pos, 24);
    assert_eq!(cellToChildPos(CELL, 12, &mut pos), err(H3ErrorCodes::EResMismatch));
    let mut child = 0u64;
    assert_eq!(childPosToCell(24, 0x881fb46623fffff, 10, &mut child), ok());
    assert_eq!(child, CELL);
    assert_eq!(childPosToCell(24, 0x881fb46623fffff, 5, &mut child), err(H3ErrorCodes::EResMismatch));
    assert_eq!(childPosToCell(-1, 0x881fb46623fffff, 10, &mut child), err(H3ErrorCodes::EDomain));
}

#[test]
fn single_cell_queries() {
    assert_eq!(getResolution(CELL), 10);
    assert_eq!(getResolution(0), 33);
    assert_eq!(getBaseCellNumber(CELL), 15);
    assert_eq!(getBaseCellNumber(PENTAGON), 4);
    assert_eq!(getBaseCellNumber(0), -1);
    assert_eq!(isPentagon(PENTAGON), 1);
    assert_eq!(isPentagon(CELL), 0);
    assert_eq!(isValidCell(CELL), 1);
    assert_eq!(isValidCell(0), 0);
    assert_eq!(isResClassIII(CELL), 0);
    assert_eq!(isResClassIII(0x851fb467fffffff), 1);
    let mut count = 0i32;
    assert_eq!(maxFaceCount(CELL, &mut count), ok());
    assert_eq!(count, 2);
    assert_eq!(maxFaceCount(PENTAGON, &mut count), ok());
    assert_eq!(count, 5);
    assert_eq!(maxFaceCount(1, &mut count), err(H3ErrorCodes::ECellInvalid));
}

#[test]
fn icosahedron_faces_are_sparse() {
    let mut out = vec![99i32; 3];
    assert_eq!(getIcosahedronFaces(CELL, &mut out), ok());
    assert!(out[0] >= 0 && out[0] < 20);
    assert!(out[1] == -1 || (out[1] >= 0 && out[1] < 20));
    assert_eq!(out[2], 99);
    let mut out = vec![99i32; 5];
    assert_eq!(getIcosahedronFaces(PENTAGON, &mut out), ok());
    assert!(out.iter().all(|&f| f >= -1 && f < 20));
    let mut small = vec![0i32; 1];
    assert_eq!(getIcosahedronFaces(CELL, &mut small), err(H3ErrorCodes::EMemoryBounds));
}

#[test]
fn directed_edges() {
    let mut n = -1i32;
    assert_eq!(areNeighborCells(CELL, NEIGHBOR, &mut n), ok());
    assert_eq!(n, 1);
    assert_eq!(areNeighborCells(CELL, CELL, &mut n), ok());
    assert_eq!(n, 0);
    assert_eq!(areNeighborCells(CELL, PENTAGON, &mut n), ok());
    assert_eq!(n, 0);
    assert_eq!(areNeighborCells(CELL, 0, &mut n), err(H3ErrorCodes::ECellInvalid));

    let mut edge = 0u64;
    assert_eq!(cellsToDirectedEdge(CELL, NEIGHBOR, &mut edge), ok());
    assert_eq!(isValidDirectedEdge(edge), 1);
    assert_eq!(isValidDirectedEdge(CELL), 0);
    let mut origin = 0u64;
    assert_eq!(getDirectedEdgeOrigin(edge, &mut origin), ok());
    assert_eq!(origin, CELL);
    let mut dest = 0u64;
    assert_eq!(getDirectedEdgeDestination(edge, &mut dest), ok());
    assert_eq!(dest, NEIGHBOR);
    let mut both = vec![0u64; 2];
    assert_eq!(directedEdgeToCells(edge, &mut both), ok());
    assert_eq!(both, vec![CELL, NEIGHBOR]);
    assert_eq!(directedEdgeToCells(CELL, &mut both), err(H3ErrorCodes::EDirEdgeInvalid));
    assert_eq!(getDirectedEdgeOrigin(CELL, &mut origin), err(H3ErrorCodes::EDirEdgeInvalid));
    assert_eq!(cellsToDirectedEdge(CELL, CELL, &mut edge), err(H3ErrorCodes::ENotNeighbors));

    let mut edges = vec![0u64; 6];
    assert_eq!(originToDirectedEdges(CELL, &mut edges), ok());
    assert!(edges.iter().all(|&e| isValidDirectedEdge(e) == 1));
    let mut edges = vec![0u64; 6];
    assert_eq!(originToDirectedEdges(PENTAGON, &mut edges), ok());
    assert_eq!(edges.iter().filter(|&&e| e != 0).count(), 5);
    assert_eq!(edges[5], 0);
}

#[test]
fn vertexes() {
    let mut v = 0u64;
    assert_eq!(cellToVertex(CELL, 0, &mut v), ok());
    assert_eq!(isValidVertex(v), 1);
    assert_eq!(isValidVertex(CELL), 0);
    assert_eq!(cellToVertex(CELL, 6, &mut v), err(H3ErrorCodes::EDomain));
    assert_eq!(cellToVertex(PENTAGON, 5, &mut v), err(H3ErrorCodes::EDomain));
    assert_eq!(cellToVertex(0, 0, &mut v), err(H3ErrorCodes::ECellInvalid));
    let mut all = vec![0u64; 6];
    assert_eq!(cellToVertexes(CELL, &mut all), ok());
    assert!(all.iter().all(|&x| isValidVertex(x) == 1));
    let mut all = vec![0u64; 6];
    assert_eq!(cellToVertexes(PENTAGON, &mut all), ok());
    assert_eq!(all[5], 0);
}

#[test]
fn resolutions() {
    let mut n = 0i64;
    assert_eq!(getNumCells(0, &mut n), ok());
    assert_eq!(n, 122);
    assert_eq!(getNumCells(1, &mut n), ok());
    assert_eq!(n, 842);
    assert_eq!(getNumCells(15, &mut n), ok());
    assert_eq!(n, 569_707_381_193_162);
    assert_eq!(getNumCells(16, &mut n), err(H3ErrorCodes::EResDomain));
    assert_eq!(pentagonCount(), 12);
    assert_eq!(res0CellCount(), 122);
    let mut pentagons = vec![0u64; 12];
    assert_eq!(getPentagons(0, &mut pentagons), ok());
    assert!(pentagons.contains(&PENTAGON));
    assert!(pentagons.iter().all(|&p| isPentagon(p) == 1 && getResolution(p) == 0));
    let mut pentagons = vec![0u64; 12];
    assert_eq!(getPentagons(5, &mut pentagons), ok());
    assert!(pentagons.iter().all(|&p| isPentagon(p) == 1 && getResolution(p) == 5));
    let mut base = vec![0u64; 122];
    assert_eq!(getRes0Cells(&mut base), ok());
    assert_eq!(base[0], 0x8001fffffffffff);
    assert_eq!(base[4], PENTAGON);
    assert!(base.iter().all(|&b| isValidCell(b) == 1 && getResolution(b) == 0));
}

#[test]
fn grid_distance_to_itself_is_zero() {
    for cell in [CELL, NEIGHBOR, PENTAGON, 0x8001fffffffffff] {
        let mut d = -1i64;
        assert_eq!(ch3o::gridDistance(cell, cell, &mut d), ok());
        assert_eq!(d, 0);
    }
}

#[test]
fn local_ij_round_trip() {
    let mut ij = CoordIJ { i: 0, j: 0 };
    assert_eq!(cellToLocalIj(CELL, NEIGHBOR, 0, &mut ij), ok());
    let mut back = 0u64;
    assert_eq!(localIjToCell(CELL, &ij, 0, &mut back), ok());
    assert_eq!(back, NEIGHBOR);
    let mut untouched = CoordIJ { i: 7, j: 7 };
    assert_eq!(cellToLocalIj(CELL, NEIGHBOR, 1, &mut untouched), err(H3ErrorCodes::EOptionInvalid));
    assert_eq!(untouched, CoordIJ { i: 7, j: 7 });
    assert_eq!(localIjToCell(CELL, &ij, 2, &mut back), err(H3ErrorCodes::EOptionInvalid));
    assert_eq!(cellToLocalIj(CELL, PENTAGON, 0, &mut ij), err(H3ErrorCodes::EResMismatch));
    assert_eq!(cellToLocalIj(0, CELL, 0, &mut ij), err(H3ErrorCodes::ECellInvalid));
    let far = CoordIJ { i: i32::MIN, j: 0 };
    assert_eq!(localIjToCell(CELL, &far, 0, &mut back), err(H3ErrorCodes::EFailed));
    let far = CoordIJ { i: 0, j: 200_000_000 };
    assert_eq!(localIjToCell(CELL, &far, 0, &mut back), err(H3ErrorCodes::EFailed));
    assert_eq!(back, NEIGHBOR);
}
