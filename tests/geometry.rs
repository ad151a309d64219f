use ch3o::geom::{
    cells_to_multi_polygon_request, outline_to_linked, polygon_to_cells_request,
    polygon_to_cells_size_request,
};
use ch3o::{
    destroyLinkedMultiPolygon, FreedNodes, GeoLoop, GeoPolygon, H3Error, H3ErrorCodes,
    LinkedGeoPolygon, PolygonFill,
};
use ch3o::error::OutlinerFailure;

fn ok() -> H3Error {
    H3Error::from(H3ErrorCodes::ESuccess)
}

fn points(n: u32) -> Vec<(u32, u32)> {
    (0..n).map(|i| (i, i + 1)).collect()
}

fn chain_points(p: &LinkedGeoPolygon<(u32, u32)>) -> Vec<Vec<Vec<(u32, u32)>>> {
    let mut polygons = Vec::new();
    let mut poly = Some(p);
    while let Some(node) = poly {
        let mut rings = Vec::new();
        let mut ring = node.first.as_deref();
        while let Some(r) = ring {
            let mut pts = Vec::new();
            let mut v = r.first.as_deref();
            while let Some(vertex) = v {
                pts.push(vertex.vertex);
                v = vertex.next.as_deref();
            }
            rings.push(pts);
            ring = r.next.as_deref();
        }
        polygons.push(rings);
        poly = node.next.as_deref();
    }
    polygons
}

#[test]
fn empty_polygon_needs_and_gets_no_cells() {
    let empty: GeoPolygon<(u32, u32)> = GeoPolygon { geoloop: GeoLoop { verts: Vec::new() }, holes: Vec::new() };
    assert_eq!(polygon_to_cells_size_request(&empty, 5, 0), Ok(PolygonFill::NoCells));
    assert_eq!(polygon_to_cells_size_request(&empty, 99, 0), Ok(PolygonFill::NoCells));
    assert_eq!(polygon_to_cells_request(&empty, 5, 0), Ok(PolygonFill::NoCells));
    assert_eq!(
        polygon_to_cells_request(&empty, 99, 0),
        Err(H3Error::from(H3ErrorCodes::EResDomain))
    );
    assert_eq!(
        polygon_to_cells_size_request(&empty, 5, 1),
        Err(H3Error::from(H3ErrorCodes::EOptionInvalid))
    );
}

#[test]
fn polygon_requests_check_resolution() {
    let square = GeoPolygon { geoloop: GeoLoop { verts: points(4) }, holes: Vec::new() };
    assert_eq!(polygon_to_cells_size_request(&square, 7, 0), Ok(PolygonFill::Cells(7)));
    assert_eq!(polygon_to_cells_request(&square, 7, 0), Ok(PolygonFill::Cells(7)));
    assert_eq!(
        polygon_to_cells_size_request(&square, 16, 0),
        Err(H3Error::from(H3ErrorCodes::EResDomain))
    );
    assert_eq!(
        polygon_to_cells_request(&square, 3, 2),
        Err(H3Error::from(H3ErrorCodes::EOptionInvalid))
    );
}

#[test]
fn destroying_the_empty_multi_polygon_releases_nothing() {
    let mut empty = LinkedGeoPolygon::<(u32, u32)>::from_polygons(&Vec::new());
    assert!(empty.first.is_none() && empty.next.is_none());
    let freed = destroyLinkedMultiPolygon(&mut empty);
    assert_eq!(freed, FreedNodes { polygons: 0, rings: 0, vertexes: 0 });
}

#[test]
fn destroying_one_triangle_releases_five_nodes() {
    // A closed ring of three distinct points repeats its first one.
    let ring = vec![(0, 0), (1, 0), (0, 1), (0, 0)];
    let mut linked = LinkedGeoPolygon::from_polygons(&vec![vec![ring]]);
    assert_eq!(chain_points(&linked), vec![vec![vec![(0, 0), (1, 0), (0, 1)]]]);
    let freed = destroyLinkedMultiPolygon(&mut linked);
    assert_eq!(freed, FreedNodes { polygons: 1, rings: 1, vertexes: 3 });
    assert!(linked.first.is_none() && linked.next.is_none());
}

#[test]
fn builder_keeps_order_of_polygons_and_holes() {
    let outer = vec![(0, 0), (9, 0), (9, 9), (0, 0)];
    let hole = vec![(1, 1), (2, 1), (1, 2), (1, 1)];
    let other = vec![(20, 20), (21, 20), (20, 21), (21, 21), (20, 20)];
    let input = vec![vec![outer, hole], vec![other]];
    let mut linked = LinkedGeoPolygon::from_polygons(&input);
    assert_eq!(
        chain_points(&linked),
        vec![
            vec![vec![(0, 0), (9, 0), (9, 9)], vec![(1, 1), (2, 1), (1, 2)]],
            vec![vec![(20, 20), (21, 20), (20, 21), (21, 21)]],
        ]
    );
    let freed = destroyLinkedMultiPolygon(&mut linked);
    assert_eq!(freed, FreedNodes { polygons: 2, rings: 3, vertexes: 10 });
}

#[test]
fn outline_requests_and_failures() {
    let cells = [0x8a1fb46622dffffu64, 0];
    assert_eq!(cells_to_multi_polygon_request(&cells, 0), Ok(None));
    assert_eq!(
        cells_to_multi_polygon_request(&cells, 2),
        Err(H3Error::from(H3ErrorCodes::ECellInvalid))
    );
    assert_eq!(cells_to_multi_polygon_request(&cells, 1), Ok(Some(&cells[..1])));
    let mut out = LinkedGeoPolygon::<(u32, u32)>::empty();
    assert_eq!(
        outline_to_linked(Err(OutlinerFailure::DuplicateInput), &mut out),
        H3Error::from(H3ErrorCodes::EDuplicateInput)
    );
    assert_eq!(
        outline_to_linked(Err(OutlinerFailure::HeterogeneousResolution), &mut out),
        H3Error::from(H3ErrorCodes::EResMismatch)
    );
    assert_eq!(outline_to_linked(Ok(vec![vec![points(4)]]), &mut out), ok());
    assert_eq!(chain_points(&out), vec![vec![points(3)]]);
}
