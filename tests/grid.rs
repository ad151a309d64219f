use ch3o::{
    areNeighborCells, getDirectedEdgeDestination, gridDisk, gridDiskDistances,
    gridDiskDistancesSafe, gridDiskDistancesUnsafe, gridDiskUnsafe, gridDisksUnsafe, gridDistance,
    gridPathCells, gridPathCellsSize, gridRingUnsafe, maxGridDiskSize, originToDirectedEdges,
    H3Error, H3ErrorCodes,
};
use std::collections::{HashMap, HashSet, VecDeque};

const CELL: u64 = 0x8a1fb46622dffff;
const NEIGHBOR: u64 = 0x8a1fb46622d7fff;
const PENTAGON: u64 = 0x8009fffffffffff;

fn ok() -> H3Error {
    H3Error::from(H3ErrorCodes::ESuccess)
}

fn err(c: H3ErrorCodes) -> H3Error {
    H3Error::from(c)
}

fn cells_of(buf: &[u64]) -> HashSet<u64> {
    buf.iter().copied().filter(|&c| c != 0).collect()
}

/// Breadth-first reference over the directed edges of each cell.
fn bfs(origin: u64, k: i32) -> HashMap<u64, i32> {
    let mut seen = HashMap::new();
    let mut queue = VecDeque::new();
    seen.insert(origin, 0);
    queue.push_back(origin);
    while let Some(cell) = queue.pop_front() {
        let d = seen[&cell];
        if d == k {
            continue;
        }
        let mut edges = vec![0u64; 6];
        assert_eq!(originToDirectedEdges(cell, &mut edges), ok());
        for &edge in edges.iter().filter(|&&e| e != 0) {
            let mut next = 0u64;
            assert_eq!(getDirectedEdgeDestination(edge, &mut next), ok());
            if !seen.contains_key(&next) {
                seen.insert(next, d + 1);
                queue.push_back(next);
            }
        }
    }
    seen
}

#[test]
fn max_grid_disk_size_values() {
    let mut out = -1i64;
    assert_eq!(maxGridDiskSize(0, &mut out), ok());
    assert_eq!(out, 1);
    assert_eq!(maxGridDiskSize(1, &mut out), ok());
    assert_eq!(out, 7);
    assert_eq!(maxGridDiskSize(2, &mut out), ok());
    assert_eq!(out, 19);
    assert_eq!(maxGridDiskSize(20_000_000, &mut out), ok());
    assert_eq!(out, 569_707_381_193_162);
    let mut untouched = 5i64;
    assert_eq!(maxGridDiskSize(-1, &mut untouched), err(H3ErrorCodes::EDomain));
    assert_eq!(untouched, 5);
}

#[test]
fn grid_disk_zero_is_origin() {
    let mut out = vec![0u64; 1];
    assert_eq!(gridDisk(CELL, 0, &mut out), ok());
    assert_eq!(out, vec![CELL]);
    let mut out = vec![0u64; 1];
    assert_eq!(gridDisk(PENTAGON, 0, &mut out), ok());
    assert_eq!(out, vec![PENTAGON]);
}

#[test]
fn grid_disk_one_has_seven_cells() {
    let mut out = vec![0u64; 7];
    assert_eq!(gridDisk(CELL, 1, &mut out), ok());
    let cells = cells_of(&out);
    assert_eq!(cells.len(), 7);
    assert!(cells.contains(&CELL));
    assert!(cells.contains(&NEIGHBOR));
}

#[test]
fn grid_disk_errors() {
    let mut out = vec![0u64; 7];
    assert_eq!(gridDisk(CELL, -1, &mut out), err(H3ErrorCodes::EDomain));
    assert_eq!(gridDisk(0, 1, &mut out), err(H3ErrorCodes::ECellInvalid));
    let mut small = vec![0u64; 3];
    assert_eq!(gridDisk(CELL, 1, &mut small), err(H3ErrorCodes::EMemoryBounds));
    assert_eq!(small, vec![0u64; 3]);
}

#[test]
fn grid_disk_near_pentagon_falls_back() {
    let mut out = vec![0u64; 7];
    assert_eq!(gridDisk(PENTAGON, 1, &mut out), ok());
    let cells = cells_of(&out);
    assert_eq!(cells.len(), 6);
    let reference: HashSet<u64> = bfs(PENTAGON, 1).keys().copied().collect();
    assert_eq!(cells, reference);
}

#[test]
fn grid_disk_unsafe_reports_pentagon() {
    let mut out = vec![0u64; 7];
    assert_eq!(gridDiskUnsafe(PENTAGON, 1, &mut out), err(H3ErrorCodes::EPentagon));
    assert_eq!(out, vec![0u64; 7]);
    let mut out = vec![0u64; 1];
    assert_eq!(gridDiskUnsafe(PENTAGON, 0, &mut out), err(H3ErrorCodes::EPentagon));
    let mut out = vec![0u64; 7];
    assert_eq!(gridDiskUnsafe(CELL, 1, &mut out), ok());
    assert_eq!(out[0], CELL);
    assert_eq!(cells_of(&out).len(), 7);
    assert_eq!(gridDiskUnsafe(0, 1, &mut out), err(H3ErrorCodes::ECellInvalid));
    assert_eq!(gridDiskUnsafe(CELL, -2, &mut out), err(H3ErrorCodes::EDomain));
}

#[test]
fn grid_disk_distances_values() {
    let mut cells = vec![0u64; 19];
    let mut dists = vec![-1i32; 19];
    assert_eq!(gridDiskDistances(CELL, 2, &mut cells, &mut dists), ok());
    assert_eq!(cells_of(&cells).len(), 19);
    for (c, d) in cells.iter().zip(dists.iter()) {
        assert!(*d >= 0 && *d <= 2);
        if *c == CELL {
            assert_eq!(*d, 0);
        }
        if *c == NEIGHBOR {
            assert_eq!(*d, 1);
        }
    }
    assert_eq!(dists.iter().filter(|&&d| d == 2).count(), 12);
}

#[test]
fn grid_disk_distances_safe_matches_bfs_near_pentagon() {
    let mut cells = vec![0u64; 19];
    let mut dists = vec![-1i32; 19];
    assert_eq!(gridDiskDistancesSafe(PENTAGON, 2, &mut cells, &mut dists), ok());
    let found: HashMap<u64, i32> = cells
        .iter()
        .zip(dists.iter())
        .filter(|(c, _)| **c != 0)
        .map(|(c, d)| (*c, *d))
        .collect();
    assert_eq!(found, bfs(PENTAGON, 2));
    assert_eq!(found.len(), 16);
}

#[test]
fn grid_disk_distances_unsafe_reports_pentagon() {
    let mut cells = vec![0u64; 19];
    let mut dists = vec![0i32; 19];
    assert_eq!(
        gridDiskDistancesUnsafe(PENTAGON, 2, &mut cells, &mut dists),
        err(H3ErrorCodes::EPentagon)
    );
    assert_eq!(gridDiskDistancesUnsafe(CELL, 1, &mut cells, &mut dists), ok());
    assert_eq!((cells[0], dists[0]), (CELL, 0));
    assert_eq!(
        gridDiskDistancesSafe(CELL, -1, &mut cells, &mut dists),
        err(H3ErrorCodes::EDomain)
    );
}

#[test]
fn grid_disks_unsafe_concatenates() {
    let set = [CELL, NEIGHBOR];
    let mut out = vec![0u64; 14];
    assert_eq!(gridDisksUnsafe(&set, 2, 1, &mut out), ok());
    assert_eq!(out[0], CELL);
    assert_eq!(out[7], NEIGHBOR);
    assert_eq!(cells_of(&out[..7]).len(), 7);
    assert_eq!(gridDisksUnsafe(&set, 0, 1, &mut out), ok());
    let bad = [CELL, 1];
    assert_eq!(gridDisksUnsafe(&bad, 2, 1, &mut out), err(H3ErrorCodes::ECellInvalid));
    assert_eq!(gridDisksUnsafe(&set, 2, -1, &mut out), err(H3ErrorCodes::EDomain));
    let pent = [PENTAGON];
    assert_eq!(gridDisksUnsafe(&pent, 1, 1, &mut out), err(H3ErrorCodes::EPentagon));
}

#[test]
fn grid_ring_sizes() {
    let mut out = vec![0u64; 1];
    assert_eq!(gridRingUnsafe(CELL, 0, &mut out), ok());
    assert_eq!(out, vec![CELL]);
    for k in 1..4 {
        let mut out = vec![0u64; 6 * k as usize];
        assert_eq!(gridRingUnsafe(CELL, k, &mut out), ok());
        assert_eq!(cells_of(&out).len(), 6 * k as usize);
    }
    let mut out = vec![0u64; 6];
    assert_eq!(gridRingUnsafe(PENTAGON, 1, &mut out), err(H3ErrorCodes::EPentagon));
}

#[test]
fn grid_distance_and_path() {
    let mut d = -1i64;
    assert_eq!(gridDistance(CELL, CELL, &mut d), ok());
    assert_eq!(d, 0);
    assert_eq!(gridDistance(CELL, NEIGHBOR, &mut d), ok());
    assert_eq!(d, 1);
    assert_eq!(gridDistance(CELL, 7, &mut d), err(H3ErrorCodes::ECellInvalid));
    // Different resolutions.
    assert_eq!(gridDistance(CELL, PENTAGON, &mut d), err(H3ErrorCodes::EResMismatch));

    let mut far = vec![0u64; 19];
    assert_eq!(gridRingUnsafe(CELL, 3, &mut far), ok());
    let end = far[0];
    let mut dist = 0i64;
    assert_eq!(gridDistance(CELL, end, &mut dist), ok());
    assert_eq!(dist, 3);
    let mut size = 0i64;
    assert_eq!(gridPathCellsSize(CELL, end, &mut size), ok());
    assert_eq!(size, dist + 1);
    let mut path = vec![0u64; size as usize];
    assert_eq!(gridPathCells(CELL, end, &mut path), ok());
    assert_eq!(path[0], CELL);
    assert_eq!(path[path.len() - 1], end);
    for pair in path.windows(2) {
        let mut n = 0i32;
        assert_eq!(areNeighborCells(pair[0], pair[1], &mut n), ok());
        assert_eq!(n, 1);
    }
    let mut short = vec![0u64; 2];
    assert_eq!(gridPathCells(CELL, end, &mut short), err(H3ErrorCodes::EMemoryBounds));
}
