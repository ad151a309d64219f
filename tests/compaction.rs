use ch3o::{compactCells, uncompactCells, uncompactCellsSize, H3Error, H3ErrorCodes};
use std::collections::HashSet;

/// The seven resolution 1 children of base cell 0.
const SIBLINGS: [u64; 7] = [
    0x081003ffffffffff,
    0x081007ffffffffff,
    0x08100bffffffffff,
    0x08100fffffffffff,
    0x081013ffffffffff,
    0x081017ffffffffff,
    0x08101bffffffffff,
];

fn ok() -> H3Error {
    H3Error::from(H3ErrorCodes::ESuccess)
}

fn err(c: H3ErrorCodes) -> H3Error {
    H3Error::from(c)
}

fn set(cells: &[u64]) -> HashSet<u64> {
    cells.iter().copied().filter(|&c| c != 0).collect()
}

#[test]
fn compact_merges_complete_siblings() {
    let mut out = vec![0u64; 7];
    assert_eq!(compactCells(&SIBLINGS, &mut out, 7), ok());
    assert_eq!(set(&out), set(&[0x8001fffffffffff]));
}

#[test]
fn compact_then_uncompact_round_trip() {
    let mut input = SIBLINGS.to_vec();
    input.push(0x081023ffffffffff);
    let mut compacted = vec![0u64; input.len()];
    assert_eq!(compactCells(&input, &mut compacted, input.len() as i64), ok());
    let kept: Vec<u64> = compacted.iter().copied().filter(|&c| c != 0).collect();
    assert_eq!(kept.len(), 2);
    let mut size = 0i64;
    assert_eq!(uncompactCellsSize(&kept, kept.len() as i64, 1, &mut size), ok());
    assert_eq!(size, input.len() as i64);
    let mut expanded = vec![0u64; size as usize];
    assert_eq!(uncompactCells(&kept, kept.len() as i64, &mut expanded, size, 1), ok());
    assert_eq!(set(&expanded), set(&input));
}

#[test]
fn compact_errors() {
    let mut out = vec![0u64; 8];
    let dup = [SIBLINGS[0], SIBLINGS[1], SIBLINGS[0]];
    assert_eq!(compactCells(&dup, &mut out, 3), err(H3ErrorCodes::EDuplicateInput));
    let mixed = [SIBLINGS[0], 0x8001fffffffffff];
    assert_eq!(compactCells(&mixed, &mut out, 2), err(H3ErrorCodes::EResMismatch));
    let bad = [SIBLINGS[0], 5];
    assert_eq!(compactCells(&bad, &mut out, 2), err(H3ErrorCodes::ECellInvalid));
    assert_eq!(out, vec![0u64; 8]);
    assert_eq!(compactCells(&bad, &mut out, 0), ok());
}

#[test]
fn uncompact_errors_and_sizes() {
    let base = [0x8001fffffffffff];
    let mut size = -1i64;
    assert_eq!(uncompactCellsSize(&base, 1, 1, &mut size), ok());
    assert_eq!(size, 7);
    assert_eq!(uncompactCellsSize(&base, 1, 2, &mut size), ok());
    assert_eq!(size, 49);
    assert_eq!(uncompactCellsSize(&base, 0, 2, &mut size), ok());
    assert_eq!(size, 0);
    assert_eq!(uncompactCellsSize(&base, 1, 16, &mut size), err(H3ErrorCodes::EResDomain));
    let bad = [9u64];
    assert_eq!(uncompactCellsSize(&bad, 1, 2, &mut size), err(H3ErrorCodes::ECellInvalid));
    let mut out = vec![0u64; 6];
    assert_eq!(uncompactCells(&base, 1, &mut out, 6, 1), err(H3ErrorCodes::EMemoryBounds));
    assert_eq!(out, vec![0u64; 6]);
    assert_eq!(uncompactCells(&base, 1, &mut out, 6, -1), err(H3ErrorCodes::EResDomain));
    assert_eq!(uncompactCells(&bad, 1, &mut out, 6, 1), err(H3ErrorCodes::ECellInvalid));
    let mut out = vec![0u64; 7];
    assert_eq!(uncompactCells(&base, 1, &mut out, 7, 1), ok());
    assert_eq!(set(&out), SIBLINGS.iter().copied().collect());
}
