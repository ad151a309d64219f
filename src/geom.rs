//! Geometry crossing the boundary: input polygons (rings of points), and the
//! owned, linked output multi-polygon (vertex chains grouped into rings,
//! rings grouped into polygons) with its builder and its destructor.
//!
//! Coordinates are carried as an opaque vertex type `V`: this layer moves
//! them and never computes on them.
use crate::convert::{all_cells, h3ptr_to_h3oslice, h3res_to_resolution, valid_res};
use crate::error::{code, outliner_code, success, H3Error, H3ErrorCodes, OutlinerFailure};
use crate::H3Index;
use vstd::prelude::*;

verus! {

/// A vertex node of a ring, linked to the next one.
#[verifier::reject_recursive_types(V)]
pub struct LinkedLatLng<V> {
    pub vertex: V,
    pub next: Option<Box<LinkedLatLng<V>>>,
}

/// A ring node of a polygon: its chain of vertexes, and the next ring.
#[verifier::reject_recursive_types(V)]
pub struct LinkedGeoLoop<V> {
    pub first: Option<Box<LinkedLatLng<V>>>,
    pub next: Option<Box<LinkedGeoLoop<V>>>,
}

/// A polygon node: its chain of rings (the outer boundary first, then the
/// holes), and the next polygon. The caller holds the first node; with no
/// ring and no next polygon it stands for the empty multi-polygon.
#[verifier::reject_recursive_types(V)]
pub struct LinkedGeoPolygon<V> {
    pub first: Option<Box<LinkedGeoLoop<V>>>,
    pub next: Option<Box<LinkedGeoPolygon<V>>>,
}

/// The points of a vertex chain, in order.
pub open spec fn chain_view<V>(chain: Option<Box<LinkedLatLng<V>>>) -> Seq<V>
    decreases chain,
{
    match chain {
        Some(node) => seq![node.vertex] + chain_view(node.next),
        None => Seq::empty(),
    }
}

/// The rings of a ring chain, in order.
pub open spec fn rings_view<V>(rings: Option<Box<LinkedGeoLoop<V>>>) -> Seq<Seq<V>>
    decreases rings,
{
    match rings {
        Some(node) => seq![chain_view(node.first)] + rings_view(node.next),
        None => Seq::empty(),
    }
}

/// The polygons of a polygon chain, in order.
pub open spec fn polygons_view<V>(polygons: Option<Box<LinkedGeoPolygon<V>>>) -> Seq<Seq<Seq<V>>>
    decreases polygons,
{
    match polygons {
        Some(node) => seq![rings_view(node.first)] + polygons_view(node.next),
        None => Seq::empty(),
    }
}

impl<V> LinkedGeoPolygon<V> {
    /// Whether this is the empty multi-polygon.
    pub open spec fn is_empty_sentinel(&self) -> bool {
        self.first is None && self.next is None
    }

    /// The polygons held from this node on.
    pub open spec fn view(&self) -> Seq<Seq<Seq<V>>> {
        if self.is_empty_sentinel() {
            Seq::empty()
        } else {
            seq![rings_view(self.first)] + polygons_view(self.next)
        }
    }

    /// The empty multi-polygon.
    pub fn empty() -> (r: Self)
        ensures
            r.is_empty_sentinel(),
            r.view() == Seq::<Seq<Seq<V>>>::empty(),
    {
        LinkedGeoPolygon { first: None, next: None }
    }
}

/// An open ring: the closed ring without its repeated last point.
pub open spec fn open_ring<V>(ring: Seq<V>) -> Seq<V> {
    if ring.len() > 0 {
        ring.drop_last()
    } else {
        ring
    }
}

/// Links the points of a closed ring, its repeated last point dropped.
pub fn linked_ring_vertexes<V: Copy>(ring: &Vec<V>) -> (r: Option<Box<LinkedLatLng<V>>>)
    ensures
        chain_view(r) == open_ring(ring@),
{
    let n = if ring.len() > 0 { ring.len() - 1 } else { 0 };
    let mut head: Option<Box<LinkedLatLng<V>>> = None;
    let mut i = n;
    while i > 0
        invariant
            i <= n,
            n <= ring@.len(),
            chain_view(head) == ring@.subrange(i as int, n as int),
        decreases i,
    {
        i = i - 1;
        head = Some(Box::new(LinkedLatLng { vertex: ring[i], next: head }));
        assert(chain_view(head) =~= ring@.subrange(i as int, n as int));
    }
    assert(open_ring(ring@) =~= ring@.subrange(0, n as int));
    head
}

/// Every ring of a polygon, opened.
pub open spec fn open_rings<V>(rings: Seq<Seq<V>>) -> Seq<Seq<V>> {
    rings.map_values(|ring: Seq<V>| open_ring(ring))
}

/// Every ring of every polygon, opened.
pub open spec fn open_polygons<V>(polygons: Seq<Seq<Seq<V>>>) -> Seq<Seq<Seq<V>>> {
    polygons.map_values(|rings: Seq<Seq<V>>| open_rings(rings))
}

/// The contents of nested vectors.
pub open spec fn rings_seq<V>(rings: Seq<Vec<V>>) -> Seq<Seq<V>> {
    rings.map_values(|ring: Vec<V>| ring@)
}

/// The contents of doubly nested vectors.
pub open spec fn polygons_seq<V>(polygons: Seq<Vec<Vec<V>>>) -> Seq<Seq<Seq<V>>> {
    polygons.map_values(|rings: Vec<Vec<V>>| rings_seq(rings@))
}

/// Links the rings of a polygon (closed rings, outer boundary first), each
/// opened.
pub fn linked_rings<V: Copy>(rings: &Vec<Vec<V>>) -> (r: Option<Box<LinkedGeoLoop<V>>>)
    ensures
        rings_view(r) == open_rings(rings_seq(rings@)),
{
    let n = rings.len();
    let mut head: Option<Box<LinkedGeoLoop<V>>> = None;
    let mut i = n;
    while i > 0
        invariant
            i <= n,
            n == rings@.len(),
            rings_view(head) == open_rings(rings_seq(rings@)).subrange(i as int, n as int),
        decreases i,
    {
        i = i - 1;
        let first = linked_ring_vertexes(&rings[i]);
        head = Some(Box::new(LinkedGeoLoop { first, next: head }));
        assert(rings_view(head) =~= open_rings(rings_seq(rings@)).subrange(i as int, n as int));
    }
    assert(open_rings(rings_seq(rings@)) =~= open_rings(rings_seq(rings@)).subrange(0, n as int));
    head
}

impl<V: Copy> LinkedGeoPolygon<V> {
    /// Builds the linked multi-polygon of `polygons`: each polygon a list of
    /// closed rings, its outer boundary first (so never none). Every ring is opened (its
    /// repeated last point dropped); no polygon gives the empty
    /// multi-polygon.
    pub fn from_polygons(polygons: &Vec<Vec<Vec<V>>>) -> (r: Self)
        requires
            forall|i: int| 0 <= i < polygons@.len() ==> (#[trigger] polygons@[i])@.len() >= 1,
        ensures
            r.view() == open_polygons(polygons_seq(polygons@)),
            polygons@.len() == 0 <==> r.is_empty_sentinel(),
    {
        let n = polygons.len();
        if n == 0 {
            let r = LinkedGeoPolygon::empty();
            assert(r.view() =~= open_polygons(polygons_seq(polygons@)));
            return r;
        }
        let ghost target = open_polygons(polygons_seq(polygons@));
        let mut rest: Option<Box<LinkedGeoPolygon<V>>> = None;
        let mut i = n;
        while i > 1
            invariant
                1 <= i <= n,
                n == polygons@.len(),
                target == open_polygons(polygons_seq(polygons@)),
                polygons_view(rest) == target.subrange(i as int, n as int),
            decreases i,
        {
            i = i - 1;
            let first = linked_rings(&polygons[i]);
            rest = Some(Box::new(LinkedGeoPolygon { first, next: rest }));
            assert(polygons_view(rest) =~= target.subrange(i as int, n as int));
        }
        let first = linked_rings(&polygons[0]);
        let ghost outer = rings_view(first);
        assert(outer == target[0]);
        let r = LinkedGeoPolygon { first, next: rest };
        assert(polygons@[0]@.len() >= 1);
        assert(rings_seq(polygons@[0]@).len() >= 1);
        assert(r.view() =~= target);
        r
    }
}

/// The number of points over all the rings of `rings`.
pub open spec fn vertexes_in_rings<V>(rings: Seq<Seq<V>>) -> nat
    decreases rings.len(),
{
    if rings.len() == 0 {
        0
    } else {
        rings[0].len() + vertexes_in_rings(rings.drop_first())
    }
}

/// The number of rings over all the polygons of `polygons`.
pub open spec fn ring_total<V>(polygons: Seq<Seq<Seq<V>>>) -> nat
    decreases polygons.len(),
{
    if polygons.len() == 0 {
        0
    } else {
        polygons[0].len() + ring_total(polygons.drop_first())
    }
}

/// The number of points over all the rings of all the polygons.
pub open spec fn vertex_total<V>(polygons: Seq<Seq<Seq<V>>>) -> nat
    decreases polygons.len(),
{
    if polygons.len() == 0 {
        0
    } else {
        vertexes_in_rings(polygons[0]) + vertex_total(polygons.drop_first())
    }
}

/// How many nodes of each level a destruction released.
#[derive(Debug, Copy, Clone, PartialEq, Eq, Structural)]
pub struct FreedNodes {
    pub polygons: usize,
    pub rings: usize,
    pub vertexes: usize,
}

/// Releases every node of a linked multi-polygon built by this library,
/// each exactly once, and leaves the caller's handle as the empty
/// multi-polygon. The empty multi-polygon releases nothing.
///
/// Reports how many polygon, ring and vertex nodes were released.
pub fn destroyLinkedMultiPolygon<V>(polygon: &mut LinkedGeoPolygon<V>) -> (freed: FreedNodes)
    requires
        old(polygon).view().len() <= usize::MAX,
        ring_total(old(polygon).view()) <= usize::MAX,
        vertex_total(old(polygon).view()) <= usize::MAX,
    ensures
        final(polygon).is_empty_sentinel(),
        freed.polygons == old(polygon).view().len(),
        freed.rings == ring_total(old(polygon).view()),
        freed.vertexes == vertex_total(old(polygon).view()),
{
    let ghost whole = polygon.view();
    let mut freed = FreedNodes { polygons: 0, rings: 0, vertexes: 0 };
    if polygon.first.is_none() && polygon.next.is_none() {
        return freed;
    }
    let mut rings = polygon.first.take();
    let mut rest = polygon.next.take();
    assert(whole[0] == rings_view(rings));
    assert(whole.drop_first() =~= polygons_view(rest));
    freed.polygons = 1;
    while rings.is_some() || rest.is_some()
        invariant
            polygon.is_empty_sentinel(),
            whole.len() <= usize::MAX,
            ring_total(whole) <= usize::MAX,
            vertex_total(whole) <= usize::MAX,
            freed.polygons + polygons_view(rest).len() == whole.len(),
            freed.rings + rings_view(rings).len() + ring_total(polygons_view(rest)) == ring_total(
                whole,
            ),
            freed.vertexes + vertexes_in_rings(rings_view(rings)) + vertex_total(
                polygons_view(rest),
            ) == vertex_total(whole),
        decreases polygons_view(rest).len(), rings_view(rings).len(),
    {
        if rings.is_some() {
            let ring = rings.unwrap();
            let LinkedGeoLoop { first, next } = *ring;
            assert(rings_view(Some(ring))[0] == chain_view(first));
            assert(rings_view(Some(ring)).drop_first() =~= rings_view(next));
            let ghost base = freed.vertexes;
            let ghost started = freed;
            let mut chain = first;
            while chain.is_some()
                invariant
                    freed.polygons == started.polygons,
                    freed.rings == started.rings,
                    freed.vertexes + chain_view(chain).len() == base + chain_view(first).len(),
                    base + chain_view(first).len() <= usize::MAX,
                decreases chain_view(chain).len(),
            {
                let node = chain.unwrap();
                let LinkedLatLng { vertex: _, next: after } = *node;
                assert(chain_view(Some(node)) =~= seq![node.vertex] + chain_view(after));
                chain = after;
                freed.vertexes = freed.vertexes + 1;
            }
            rings = next;
            freed.rings = freed.rings + 1;
        } else {
            let node = rest.unwrap();
            let LinkedGeoPolygon { first, next } = *node;
            assert(polygons_view(Some(node))[0] == rings_view(first));
            assert(polygons_view(Some(node)).drop_first() =~= polygons_view(next));
            rings = first;
            rest = next;
            freed.polygons = freed.polygons + 1;
        }
    }
    freed
}

// ---------------------------------------------------------------------------
// Input polygons.

/// A ring of points, as the caller gives it.
pub struct GeoLoop<V> {
    pub verts: Vec<V>,
}

/// A polygon: its outer boundary and its holes.
pub struct GeoPolygon<V> {
    /// Exterior boundary of the polygon.
    pub geoloop: GeoLoop<V>,
    /// Interior boundaries (holes) in the polygon.
    pub holes: Vec<GeoLoop<V>>,
}

/// A set of polygons.
pub struct GeoMultiPolygon<V> {
    pub polygons: Vec<GeoPolygon<V>>,
}

/// What a polygon fill asks of the geometry engine once its arguments are
/// checked.
#[derive(Debug, Copy, Clone, PartialEq, Eq, Structural)]
pub enum PolygonFill {
    /// The polygon has no vertex: it holds no cell.
    NoCells,
    /// The cells of the polygon at this resolution are wanted.
    Cells(u8),
}

/// Checks the arguments of a cell-count estimate for a polygon fill: the
/// flags first, then emptiness (an empty polygon needs no resolution), then
/// the resolution.
pub fn polygon_to_cells_size_request<V>(geoPolygon: &GeoPolygon<V>, res: i32, flags: u32) -> (r:
    Result<PolygonFill, H3Error>)
    ensures
        flags != 0 ==> r == Err::<PolygonFill, H3Error>(code(H3ErrorCodes::EOptionInvalid)),
        flags == 0 && geoPolygon.geoloop.verts@.len() == 0 ==> r == Ok::<PolygonFill, H3Error>(
            PolygonFill::NoCells,
        ),
        flags == 0 && geoPolygon.geoloop.verts@.len() > 0 && !valid_res(res) ==> r == Err::<
            PolygonFill,
            H3Error,
        >(code(H3ErrorCodes::EResDomain)),
        flags == 0 && geoPolygon.geoloop.verts@.len() > 0 && valid_res(res) ==> r == Ok::<
            PolygonFill,
            H3Error,
        >(PolygonFill::Cells(res as u8)),
{
    if flags != 0 {
        return Err(H3Error::of(H3ErrorCodes::EOptionInvalid));
    }
    if geoPolygon.geoloop.verts.len() == 0 {
        return Ok(PolygonFill::NoCells);
    }
    match h3res_to_resolution(res) {
        Ok(res) => Ok(PolygonFill::Cells(res)),
        Err(e) => Err(H3Error::from(e)),
    }
}

/// Checks the arguments of a polygon fill: the flags first, then the
/// resolution, then emptiness (an empty polygon is filled with nothing).
pub fn polygon_to_cells_request<V>(geoPolygon: &GeoPolygon<V>, res: i32, flags: u32) -> (r: Result<
    PolygonFill,
    H3Error,
>)
    ensures
        flags != 0 ==> r == Err::<PolygonFill, H3Error>(code(H3ErrorCodes::EOptionInvalid)),
        flags == 0 && !valid_res(res) ==> r == Err::<PolygonFill, H3Error>(
            code(H3ErrorCodes::EResDomain),
        ),
        flags == 0 && valid_res(res) && geoPolygon.geoloop.verts@.len() == 0 ==> r == Ok::<
            PolygonFill,
            H3Error,
        >(PolygonFill::NoCells),
        flags == 0 && valid_res(res) && geoPolygon.geoloop.verts@.len() > 0 ==> r == Ok::<
            PolygonFill,
            H3Error,
        >(PolygonFill::Cells(res as u8)),
{
    if flags != 0 {
        return Err(H3Error::of(H3ErrorCodes::EOptionInvalid));
    }
    let res = match h3res_to_resolution(res) {
        Ok(res) => res,
        Err(e) => return Err(H3Error::from(e)),
    };
    if geoPolygon.geoloop.verts.len() == 0 {
        return Ok(PolygonFill::NoCells);
    }
    Ok(PolygonFill::Cells(res))
}

// ---------------------------------------------------------------------------
// Outlines of cell sets.

/// Checks the cells whose outline is wanted: none gives `None` (the empty
/// multi-polygon, with nothing to trace); otherwise every one must be a
/// valid cell.
pub fn cells_to_multi_polygon_request<'a>(h3Set: &'a [H3Index], numHexes: i32) -> (r: Result<
    Option<&'a [H3Index]>,
    H3Error,
>)
    requires
        0 <= numHexes <= h3Set@.len(),
    ensures
        numHexes == 0 ==> r matches Ok(None),
        numHexes > 0 && !all_cells(h3Set@, numHexes as int) ==> r == Err::<Option<&[H3Index]>, H3Error>(
            code(H3ErrorCodes::ECellInvalid),
        ),
        numHexes > 0 && all_cells(h3Set@, numHexes as int) ==> (r matches Ok(Some(cells)) && cells@
            == h3Set@.subrange(0, numHexes as int)),
{
    if numHexes == 0 {
        return Ok(None);
    }
    match h3ptr_to_h3oslice(h3Set, numHexes as i64) {
        Ok(cells) => Ok(Some(cells)),
        Err(e) => Err(e),
    }
}

/// Stores in `out` the linked form of a traced outline (polygons of closed
/// rings, outer boundary first), or reports why it could not be traced,
/// leaving `out` as it was.
pub fn outline_to_linked<V: Copy>(
    outline: Result<Vec<Vec<Vec<V>>>, OutlinerFailure>,
    out: &mut LinkedGeoPolygon<V>,
) -> (r: H3Error)
    requires
        outline is Ok ==> forall|i: int|
            0 <= i < outline->Ok_0@.len() ==> (#[trigger] outline->Ok_0@[i])@.len() >= 1,
    ensures
        match outline {
            Ok(polygons) => r == success() && final(out).view() == open_polygons(
                polygons_seq(polygons@),
            ),
            Err(e) => r == outliner_code(e) && *final(out) == *old(out),
        },
{
    match outline {
        Ok(polygons) => {
            *out = LinkedGeoPolygon::from_polygons(&polygons);
            H3Error::of(H3ErrorCodes::ESuccess)
        },
        Err(e) => H3Error::from(e),
    }
}

} // verus!
