//! The polygon ("nazotte") search: serializing a user-drawn coordinate
//! sequence into a closed-polygon geometry literal, and truncating the
//! result set to the serving ceiling.
//!
//! The coordinate sequence is used verbatim as the polygon ring; the
//! caller is responsible for supplying a ring the storage engine
//! accepts.  No self-intersection validation is performed.

use vstd::prelude::*;

use crate::error::SearchError;
use crate::model::Estate;
use crate::model::EstateModel;

verus! {

/// The polygon result set is truncated to at most this many listings;
/// the reported count reflects the truncated size, a deliberate
/// serving-cost control.
pub const NAZOTTE_LIMIT: usize = 50;

/// One point of the polygon ring, its two components as decimal text.
pub struct GeoCoordinate {
    pub latitude: String,
    pub longitude: String,
}

/// Mathematical view of one ring point.
pub ghost struct GeoCoordinateModel {
    pub latitude: Seq<char>,
    pub longitude: Seq<char>,
}

impl View for GeoCoordinate {
    type V = GeoCoordinateModel;

    open spec fn view(&self) -> GeoCoordinateModel {
        GeoCoordinateModel { latitude: self.latitude@, longitude: self.longitude@ }
    }
}

impl DeepView for GeoCoordinate {
    type V = GeoCoordinateModel;

    open spec fn deep_view(&self) -> GeoCoordinateModel {
        self.view()
    }
}

/// One ring point's text: latitude, a space, longitude.
pub open spec fn spec_point_text(c: GeoCoordinateModel) -> Seq<char> {
    c.latitude + " "@ + c.longitude
}

/// The ring's points joined by commas, in order.
pub open spec fn spec_ring_text(cs: Seq<GeoCoordinateModel>) -> Seq<char>
    decreases cs.len(),
{
    if cs.len() == 0 {
        Seq::<char>::empty()
    } else if cs.len() == 1 {
        spec_point_text(cs[0])
    } else {
        spec_ring_text(cs.drop_last()) + ","@ + spec_point_text(cs.last())
    }
}

/// The quoted polygon geometry literal built over the ring.
pub open spec fn spec_polygon_text(cs: Seq<GeoCoordinateModel>) -> Seq<char> {
    "'POLYGON(("@ + spec_ring_text(cs) + "))'"@
}

/// The containment query over the polygon literal: listings whose stored
/// point lies within it, ordered by popularity then id, both descending,
/// with no limit applied by the store.
pub open spec fn spec_nazotte_query(cs: Seq<GeoCoordinateModel>) -> Seq<char> {
    "select * from estate where ST_Contains(ST_PolygonFromText("@ + spec_polygon_text(cs)
        + "), location) order by popularity desc, id desc"@
}

/// Serializes the coordinate sequence into the quoted polygon literal.
pub fn polygon_text(coords: &Vec<GeoCoordinate>) -> (r: String)
    ensures
        r@ == spec_polygon_text(coords.deep_view()),
{
    let ghost dv: Seq<GeoCoordinateModel> = coords.deep_view();
    let mut ring: String = String::new();
    let mut i: usize = 0;
    proof {
        assert(dv.subrange(0, 0) =~= Seq::<GeoCoordinateModel>::empty());
    }
    while i < coords.len()
        invariant
            0 <= i <= coords.len(),
            dv == coords.deep_view(),
            dv.len() == coords.len(),
            ring@ == spec_ring_text(dv.subrange(0, i as int)),
        decreases coords.len() - i,
    {
        proof {
            assert(dv.subrange(0, i as int + 1).drop_last() =~= dv.subrange(0, i as int));
            assert(dv.subrange(0, i as int + 1).last() == dv[i as int]);
        }
        if i > 0 {
            ring.append(",");
        }
        ring.append(coords[i].latitude.as_str());
        ring.append(" ");
        ring.append(coords[i].longitude.as_str());
        i = i + 1;
    }
    proof {
        assert(dv.subrange(0, dv.len() as int) =~= dv);
    }
    let mut out: String = "'POLYGON((".to_owned();
    out.append(ring.as_str());
    out.append("))'");
    out
}

/// Plans the polygon containment query.  An empty coordinate list fails
/// with `BadGeometryInput` before any storage call is issued.
pub fn plan_nazotte(coords: &Vec<GeoCoordinate>) -> (r: Result<String, SearchError>)
    ensures
        coords@.len() == 0 ==> (r matches Err(e) && e == SearchError::BadGeometryInput),
        coords@.len() > 0 ==> (r matches Ok(q) && q@ == spec_nazotte_query(coords.deep_view())),
{
    if coords.len() == 0 {
        return Err(SearchError::BadGeometryInput);
    }
    let mut q: String = "select * from estate where ST_Contains(ST_PolygonFromText(".to_owned();
    let poly: String = polygon_text(coords);
    q.append(poly.as_str());
    q.append("), location) order by popularity desc, id desc");
    Ok(q)
}

/// One polygon search response: the served listings and their count.
pub struct NazotteResult {
    pub count: i64,
    pub estates: Vec<Estate>,
}

/// Truncates the retrieved result set to the serving ceiling.  The
/// reported count is the truncated size, never more than the ceiling,
/// not the true contained-point count.
pub fn nazotte_result(estates: Vec<Estate>) -> (r: NazotteResult)
    ensures
        r.estates.deep_view() == estates.deep_view().take(
            if estates@.len() < NAZOTTE_LIMIT as int {
                estates@.len() as int
            } else {
                NAZOTTE_LIMIT as int
            },
        ),
        r.count == r.estates@.len(),
        0 <= r.count <= NAZOTTE_LIMIT as int,
{
    let mut estates = estates;
    let ghost before: Seq<EstateModel> = estates.deep_view();
    estates.truncate(NAZOTTE_LIMIT);
    proof {
        assert(estates.deep_view() =~= before.take(
            if before.len() < NAZOTTE_LIMIT as int {
                before.len() as int
            } else {
                NAZOTTE_LIMIT as int
            },
        ));
    }
    let count: i64 = estates.len() as i64;
    NazotteResult { count, estates }
}

} // verus!
