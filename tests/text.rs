use ch3o::{cellToVertex, cellsToDirectedEdge, h3ToString, stringToH3, H3Error, H3ErrorCodes};

const CELL: u64 = 0x8a1fb46622dffff;
const NEIGHBOR: u64 = 0x8a1fb46622d7fff;

fn ok() -> H3Error {
    H3Error::from(H3ErrorCodes::ESuccess)
}

fn to_text(h: u64) -> String {
    let mut buf = vec![0xffu8; 17];
    assert_eq!(h3ToString(h, &mut buf, 17), ok());
    let end = buf.iter().position(|&b| b == 0).expect("terminator");
    String::from_utf8(buf[..end].to_vec()).expect("ascii")
}

#[test]
fn index_to_string_is_fixed_width_lower_hex() {
    let mut buf = vec![0xffu8; 20];
    assert_eq!(h3ToString(CELL, &mut buf, 20), ok());
    assert_eq!(&buf[..17], b"08a1fb46622dffff\0");
    assert_eq!(buf[17], 0xff);
    assert_eq!(to_text(0), "0000000000000000");
    assert_eq!(to_text(0xab), "00000000000000ab");
    assert_eq!(to_text(u64::MAX), "ffffffffffffffff");
}

#[test]
fn index_to_string_needs_seventeen_bytes() {
    let mut buf = vec![7u8; 16];
    assert_eq!(h3ToString(CELL, &mut buf, 16), H3Error::from(H3ErrorCodes::EFailed));
    assert_eq!(buf, vec![7u8; 16]);
}

#[test]
fn string_round_trip_for_every_kind() {
    let mut edge = 0u64;
    assert_eq!(cellsToDirectedEdge(CELL, NEIGHBOR, &mut edge), ok());
    let mut vertex = 0u64;
    assert_eq!(cellToVertex(CELL, 2, &mut vertex), ok());
    for x in [CELL, NEIGHBOR, edge, vertex, 0x8001fffffffffff] {
        let mut back = 0u64;
        assert_eq!(stringToH3(&to_text(x), &mut back), ok());
        assert_eq!(back, x);
    }
}

#[test]
fn string_parsing_rejects_non_indexes() {
    let mut out = 42u64;
    let failed = H3Error::from(H3ErrorCodes::EFailed);
    assert_eq!(stringToH3("", &mut out), failed);
    assert_eq!(stringToH3("zz", &mut out), failed);
    assert_eq!(stringToH3("0", &mut out), failed);
    assert_eq!(stringToH3("1ffffffffffffffff", &mut out), failed);
    assert_eq!(out, 42);
    assert_eq!(stringToH3("8A1FB46622DFFFF", &mut out), ok());
    assert_eq!(out, CELL);
    assert_eq!(stringToH3("+8a1fb46622dffff", &mut out), ok());
    assert_eq!(out, CELL);
}
