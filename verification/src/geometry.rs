//! Geometry of model components: points, polylines and polygons with their
//! planar projection, opaque 3D surfaces, and collections.
//!
//! The canonical text form of a 1D or 2D geometry is the Well-Known Text of
//! its planar projection. The library derives the projection and keeps the
//! text once a caller has rendered it; rendering needs real-number formatting
//! and is left to the caller.

use vstd::prelude::*;
use vstd::string::*;
use base64::Engine;
use crate::error::AgsiError;
use crate::scalar::Scalar;

verus! {

/// The standard Base64 text (with padding) of a byte string.
pub uninterp spec fn base64_standard(bytes: Seq<u8>) -> Seq<char>;

/// Calls `Engine::encode` of the `base64` crate on its `STANDARD` engine: the
/// Base64 text of the bytes, in the standard alphabet and padded. The call
/// panics where the length of that text does not fit in `usize`, which the
/// precondition keeps out.
#[verifier::external_body]
fn encode_base64(bytes: &Vec<u8>) -> (text: String)
    requires
        bytes@.len() / 3 * 4 + 4 <= usize::MAX,
    ensures
        text@ == base64_standard(bytes@),
{
    base64::engine::general_purpose::STANDARD.encode(bytes)
}

/// A position in the plane.
#[derive(Debug, Clone, Copy)]
pub struct Coord2 {
    pub x: Scalar,
    pub y: Scalar,
}

/// A 3D bounding box.
#[derive(Debug, Clone)]
pub struct BoundingBox {
    pub min: [Scalar; 3],
    pub max: [Scalar; 3],
}

/// What is known about a surface mesh beside the mesh itself.
#[derive(Debug, Clone)]
pub struct SurfaceMetadata {
    pub vertex_count: usize,
    pub face_count: usize,
    pub bounds: Option<BoundingBox>,
}

/// The geometry of a model component.
#[derive(Debug)]
#[allow(inconsistent_fields)]
pub enum Geometry {
    /// A single position.
    Point { coordinates: [Scalar; 3], crs: Option<String> },
    /// A polyline of at least two vertices.
    LineString {
        coordinates: Vec<[Scalar; 3]>,
        crs: Option<String>,
        /// Cached canonical text form.
        wkt: Option<String>,
        /// Reserved for a cached canonical binary form; always empty.
        wkb: Option<String>,
    },
    /// A polygon: the exterior ring, of at least three vertices, then the
    /// holes.
    Polygon {
        rings: Vec<Vec<[Scalar; 3]>>,
        crs: Option<String>,
        /// Cached canonical text form.
        wkt: Option<String>,
        /// Reserved for a cached canonical binary form; always empty.
        wkb: Option<String>,
    },
    /// A 3D surface: a mesh in a text format, held as Base64 text.
    Surface { obj_data: String, crs: Option<String>, metadata: Option<SurfaceMetadata> },
    /// Several geometries taken together.
    Collection { geometries: Vec<Geometry>, crs: Option<String> },
}

/// The planar figure that a 1D or 2D geometry projects to.
#[derive(Debug, Clone)]
pub enum PlanarShape {
    Point(Coord2),
    LineString(Vec<Coord2>),
    Polygon { exterior: Vec<Coord2>, interiors: Vec<Vec<Coord2>> },
}

/// A planar figure as mathematical sequences.
pub ghost enum PlanarView {
    Point(Coord2),
    LineString(Seq<Coord2>),
    Polygon { exterior: Seq<Coord2>, interiors: Seq<Seq<Coord2>> },
}

impl View for PlanarShape {
    type V = PlanarView;

    open spec fn view(&self) -> PlanarView {
        match *self {
            PlanarShape::Point(c) => PlanarView::Point(c),
            PlanarShape::LineString(v) => PlanarView::LineString(v@),
            PlanarShape::Polygon { exterior, interiors } => PlanarView::Polygon {
                exterior: exterior@,
                interiors: Seq::new(interiors@.len(), |i: int| interiors@[i]@),
            },
        }
    }
}

/// A vertex without its third coordinate.
pub open spec fn drop_z(vertex: [Scalar; 3]) -> Coord2 {
    Coord2 { x: vertex@[0], y: vertex@[1] }
}

/// A vertex list without the third coordinates, in the same order.
pub open spec fn project(vertices: Seq<[Scalar; 3]>) -> Seq<Coord2> {
    Seq::new(vertices.len(), |i: int| drop_z(vertices[i]))
}

/// The message of the failure to build a polyline from fewer than two
/// vertices.
pub open spec fn too_few_line_points() -> Seq<char> {
    "LineString must have at least 2 points"@
}

/// The message of the failure to build a polygon from an exterior ring of
/// fewer than three vertices.
pub open spec fn too_few_ring_points() -> Seq<char> {
    "Polygon exterior ring must have at least 3 points"@
}

/// Whether a geometry is well-formed does not depend on its coordinate
/// reference system label.
pub proof fn lemma_label_does_not_matter(g: Geometry, label: Option<String>)
    ensures
        g.relabel(label).well_formed() == g.well_formed(),
{
    match g {
        Geometry::Collection { geometries, crs } => {
            let h = g.relabel(label);
            assert(h matches Geometry::Collection { geometries: kept, .. } && kept == geometries);
            assert(h.well_formed() == (forall|i: int|
                0 <= i < geometries@.len() ==> (#[trigger] geometries@[i]).well_formed()));
            assert(g.well_formed() == (forall|i: int|
                0 <= i < geometries@.len() ==> (#[trigger] geometries@[i]).well_formed()));
        },
        _ => {},
    }
}

fn project_ring(ring: &Vec<[Scalar; 3]>) -> (flat: Vec<Coord2>)
    ensures
        flat@ == project(ring@),
{
    let mut flat: Vec<Coord2> = Vec::new();
    let mut i: usize = 0;
    while i < ring.len()
        invariant
            i <= ring@.len(),
            flat@ == project(ring@.subrange(0, i as int)),
        decreases ring@.len() - i,
    {
        let v = &ring[i];
        flat.push(Coord2 { x: v[0], y: v[1] });
        proof {
            assert(flat@ =~= project(ring@.subrange(0, i + 1)));
        }
        i += 1;
    }
    proof {
        assert(ring@.subrange(0, i as int) =~= ring@);
    }
    flat
}

impl Clone for Geometry {
    fn clone(&self) -> Geometry
        decreases *self,
    {
        match self {
            Geometry::Point { coordinates, crs } => Geometry::Point {
                coordinates: *coordinates,
                crs: crs.clone(),
            },
            Geometry::LineString { coordinates, crs, wkt, wkb } => Geometry::LineString {
                coordinates: coordinates.clone(),
                crs: crs.clone(),
                wkt: wkt.clone(),
                wkb: wkb.clone(),
            },
            Geometry::Polygon { rings, crs, wkt, wkb } => Geometry::Polygon {
                rings: rings.clone(),
                crs: crs.clone(),
                wkt: wkt.clone(),
                wkb: wkb.clone(),
            },
            Geometry::Surface { obj_data, crs, metadata } => Geometry::Surface {
                obj_data: obj_data.clone(),
                crs: crs.clone(),
                metadata: metadata.clone(),
            },
            Geometry::Collection { geometries, crs } => {
                let mut copies: Vec<Geometry> = Vec::new();
                let mut i: usize = 0;
                while i < geometries.len()
                    invariant
                        i <= geometries@.len(),
                        *self matches Geometry::Collection { geometries: g, .. } && g == *geometries,
                    decreases geometries@.len() - i,
                {
                    copies.push(geometries[i].clone());
                    i += 1;
                }
                Geometry::Collection { geometries: copies, crs: crs.clone() }
            },
        }
    }
}

impl Geometry {
    /// The coordinate reference system label of the geometry.
    pub open spec fn label(self) -> Option<String> {
        match self {
            Geometry::Point { crs, .. } => crs,
            Geometry::LineString { crs, .. } => crs,
            Geometry::Polygon { crs, .. } => crs,
            Geometry::Surface { crs, .. } => crs,
            Geometry::Collection { crs, .. } => crs,
        }
    }

    /// The same geometry with another coordinate reference system label.
    pub open spec fn relabel(self, label: Option<String>) -> Geometry {
        match self {
            Geometry::Point { coordinates, .. } => Geometry::Point { coordinates, crs: label },
            Geometry::LineString { coordinates, wkt, wkb, .. } => Geometry::LineString {
                coordinates,
                crs: label,
                wkt,
                wkb,
            },
            Geometry::Polygon { rings, wkt, wkb, .. } => Geometry::Polygon {
                rings,
                crs: label,
                wkt,
                wkb,
            },
            Geometry::Surface { obj_data, metadata, .. } => Geometry::Surface {
                obj_data,
                crs: label,
                metadata,
            },
            Geometry::Collection { geometries, .. } => Geometry::Collection {
                geometries,
                crs: label,
            },
        }
    }

    /// Whether the geometry has as many vertices as its variant asks for: a
    /// polyline at least two, a polygon an exterior ring of at least three,
    /// and a collection only geometries of which the same holds.
    pub open spec fn well_formed(self) -> bool
        decreases self,
    {
        match self {
            Geometry::LineString { coordinates, .. } => coordinates@.len() >= 2,
            Geometry::Polygon { rings, .. } => rings@.len() >= 1 && rings@[0]@.len() >= 3,
            Geometry::Collection { geometries, .. } => forall|i: int|
                0 <= i < geometries@.len() ==> (#[trigger] geometries@[i]).well_formed(),
            _ => true,
        }
    }

    /// Whether the variant keeps a cached canonical text form.
    pub open spec fn keeps_text(self) -> bool {
        self is LineString || self is Polygon
    }

    /// The geometry after `text` was stored as its canonical text form: a
    /// polyline or polygon holds the text and no binary form, any other
    /// geometry is unchanged.
    pub open spec fn with_text(self, text: String) -> Geometry {
        match self {
            Geometry::LineString { coordinates, crs, .. } => Geometry::LineString {
                coordinates,
                crs,
                wkt: Some(text),
                wkb: None,
            },
            Geometry::Polygon { rings, crs, .. } => Geometry::Polygon {
                rings,
                crs,
                wkt: Some(text),
                wkb: None,
            },
            _ => self,
        }
    }

    /// The planar projection of the geometry, where it has one: the third
    /// coordinate of every vertex is dropped and the order of vertices and
    /// rings is kept. Surfaces, collections and polygons without a ring have
    /// none.
    pub open spec fn planar(self) -> Option<PlanarView> {
        match self {
            Geometry::Point { coordinates, .. } => Some(PlanarView::Point(drop_z(coordinates))),
            Geometry::LineString { coordinates, .. } => Some(
                PlanarView::LineString(project(coordinates@)),
            ),
            Geometry::Polygon { rings, .. } => if rings@.len() == 0 {
                None
            } else {
                Some(
                    PlanarView::Polygon {
                        exterior: project(rings@[0]@),
                        interiors: Seq::new(
                            (rings@.len() - 1) as nat,
                            |i: int| project(rings@[i + 1]@),
                        ),
                    },
                )
            },
            Geometry::Surface { .. } => None,
            Geometry::Collection { .. } => None,
        }
    }

    /// Why a geometry without a planar projection has none.
    pub open spec fn planar_refusal(self) -> Seq<char> {
        match self {
            Geometry::Surface { .. } => "Surface geometry cannot be converted to WKT"@,
            Geometry::Collection { .. } => "Collection geometry not yet supported for WKT"@,
            _ => "Empty polygon"@,
        }
    }

    /// A point.
    pub fn point(x: Scalar, y: Scalar, z: Scalar) -> (g: Geometry)
        ensures
            g matches Geometry::Point { coordinates, crs } && coordinates@ == seq![x, y, z]
                && crs.is_none(),
    {
        let coordinates = [x, y, z];
        assert(coordinates@ =~= seq![x, y, z]);
        Geometry::Point { coordinates, crs: None }
    }

    /// A polyline through the given vertices. Fails on fewer than two
    /// vertices.
    pub fn linestring(coords: Vec<[Scalar; 3]>) -> (r: Result<Geometry, AgsiError>)
        ensures
            r.is_ok() <==> coords@.len() >= 2,
            r matches Ok(g) ==> g == (Geometry::LineString {
                coordinates: coords,
                crs: None,
                wkt: None,
                wkb: None,
            }) && g.well_formed(),
            r matches Err(e) ==> e matches AgsiError::Geometry(m) && m@ == too_few_line_points(),
    {
        if coords.len() < 2 {
            return Err(
                AgsiError::Geometry(String::from_str("LineString must have at least 2 points")),
            );
        }
        Ok(Geometry::LineString { coordinates: coords, crs: None, wkt: None, wkb: None })
    }

    /// A polygon with the given exterior ring and holes. Fails on an exterior
    /// ring of fewer than three vertices. Rings are taken as they are: a ring
    /// need not be closed.
    pub fn polygon(exterior: Vec<[Scalar; 3]>, interiors: Vec<Vec<[Scalar; 3]>>) -> (r: Result<
        Geometry,
        AgsiError,
    >)
        ensures
            r.is_ok() <==> exterior@.len() >= 3,
            r matches Ok(g) ==> g.well_formed() && (g matches Geometry::Polygon {
                rings,
                crs,
                wkt,
                wkb,
            } && rings@ == seq![exterior] + interiors@ && crs.is_none() && wkt.is_none()
                && wkb.is_none()),
            r matches Err(e) ==> e matches AgsiError::Geometry(m) && m@ == too_few_ring_points(),
    {
        if exterior.len() < 3 {
            return Err(
                AgsiError::Geometry(
                    String::from_str("Polygon exterior ring must have at least 3 points"),
                ),
            );
        }
        let mut rings: Vec<Vec<[Scalar; 3]>> = Vec::new();
        rings.push(exterior);
        let mut rest = interiors;
        rings.append(&mut rest);
        proof {
            assert(rings@ =~= seq![exterior] + interiors@);
        }
        Ok(Geometry::Polygon { rings, crs: None, wkt: None, wkb: None })
    }

    /// A surface from a mesh in a text format. The mesh is kept as Base64
    /// text, so that it can be embedded in JSON.
    pub fn surface(obj_data: Vec<u8>, metadata: Option<SurfaceMetadata>) -> (g: Geometry)
        requires
            obj_data@.len() / 3 * 4 + 4 <= usize::MAX,
        ensures
            g matches Geometry::Surface { obj_data: text, crs, metadata: kept } && text@
                == base64_standard(obj_data@) && crs.is_none() && kept == metadata,
    {
        Geometry::Surface { obj_data: encode_base64(&obj_data), crs: None, metadata }
    }

    /// The planar projection whose Well-Known Text is the canonical text form
    /// of the geometry. Fails on a surface, on a collection and on a polygon
    /// without a ring.
    pub fn to_planar(&self) -> (r: Result<PlanarShape, AgsiError>)
        ensures
            match r {
                Ok(shape) => self.planar() == Some(shape@),
                Err(e) => self.planar().is_none() && (e matches AgsiError::Geometry(m) && m@
                    == self.planar_refusal()),
            },
    {
        match self {
            Geometry::Point { coordinates, .. } => {
                Ok(PlanarShape::Point(Coord2 { x: coordinates[0], y: coordinates[1] }))
            },
            Geometry::LineString { coordinates, .. } => {
                Ok(PlanarShape::LineString(project_ring(coordinates)))
            },
            Geometry::Polygon { rings, .. } => {
                if rings.len() == 0 {
                    return Err(AgsiError::Geometry(String::from_str("Empty polygon")));
                }
                let exterior = project_ring(&rings[0]);
                let mut interiors: Vec<Vec<Coord2>> = Vec::new();
                let mut i: usize = 1;
                while i < rings.len()
                    invariant
                        1 <= i <= rings@.len(),
                        interiors@.len() == i - 1,
                        forall|k: int|
                            0 <= k < i - 1 ==> (#[trigger] interiors@[k])@ == project(
                                rings@[k + 1]@,
                            ),
                    decreases rings@.len() - i,
                {
                    interiors.push(project_ring(&rings[i]));
                    i += 1;
                }
                let shape = PlanarShape::Polygon { exterior, interiors };
                proof {
                    let want = Seq::new(
                        (rings@.len() - 1) as nat,
                        |i: int| project(rings@[i + 1]@),
                    );
                    let got = Seq::new(interiors@.len(), |i: int| interiors@[i]@);
                    assert(got =~= want);
                }
                Ok(shape)
            },
            Geometry::Surface { .. } => {
                Err(
                    AgsiError::Geometry(
                        String::from_str("Surface geometry cannot be converted to WKT"),
                    ),
                )
            },
            Geometry::Collection { .. } => {
                Err(
                    AgsiError::Geometry(
                        String::from_str("Collection geometry not yet supported for WKT"),
                    ),
                )
            },
        }
    }

    /// The coordinate reference system label, if the geometry has one.
    pub fn crs(&self) -> (label: Option<&str>)
        ensures
            match label {
                Some(s) => self.label() matches Some(l) && l@ == s@,
                None => self.label().is_none(),
            },
    {
        let crs = match self {
            Geometry::Point { crs, .. } => crs,
            Geometry::LineString { crs, .. } => crs,
            Geometry::Polygon { crs, .. } => crs,
            Geometry::Surface { crs, .. } => crs,
            Geometry::Collection { crs, .. } => crs,
        };
        match crs {
            Some(s) => Some(s.as_str()),
            None => None,
        }
    }

    /// The same geometry with its coordinate reference system label set.
    pub fn with_crs(self, crs: &str) -> (g: Geometry)
        ensures
            g.label() matches Some(l) && l@ == crs@,
            g == self.relabel(g.label()),
            g.well_formed() == self.well_formed(),
    {
        let label = Some(String::from_str(crs));
        let g = match self {
            Geometry::Point { coordinates, .. } => Geometry::Point { coordinates, crs: label },
            Geometry::LineString { coordinates, wkt, wkb, .. } => Geometry::LineString {
                coordinates,
                crs: label,
                wkt,
                wkb,
            },
            Geometry::Polygon { rings, wkt, wkb, .. } => Geometry::Polygon {
                rings,
                crs: label,
                wkt,
                wkb,
            },
            Geometry::Surface { obj_data, metadata, .. } => Geometry::Surface {
                obj_data,
                crs: label,
                metadata,
            },
            Geometry::Collection { geometries, .. } => Geometry::Collection {
                geometries,
                crs: label,
            },
        };
        proof {
            lemma_label_does_not_matter(self, g.label());
        }
        g
    }

    /// Whether the geometry keeps a cached canonical text form: polylines and
    /// polygons do.
    pub fn caches_text(&self) -> (r: bool)
        ensures
            r == self.keeps_text(),
    {
        match self {
            Geometry::LineString { .. } => true,
            Geometry::Polygon { .. } => true,
            _ => false,
        }
    }

    /// Whether the geometry refuses a canonical text form though its variant
    /// keeps one: a polygon without a ring does.
    pub open spec fn refuses_text(self) -> bool {
        self.keeps_text() && self.planar().is_none()
    }

    /// Stores `wkt`, the canonical text form that the caller has rendered
    /// from the planar projection, on a polyline or a polygon and leaves
    /// its binary form empty. Any other geometry stays as it is. A polygon
    /// without a ring has no canonical text form: it is refused and stays as
    /// it is.
    pub fn compute_wkt_wkb(&mut self, wkt: String) -> (r: Result<(), AgsiError>)
        ensures
            match r {
                Ok(_) => !old(self).refuses_text() && *final(self) == old(self).with_text(wkt),
                Err(e) => old(self).refuses_text() && *final(self) == *old(self) && (
                e matches AgsiError::Geometry(m) && m@ == old(self).planar_refusal()),
            },
            final(self).well_formed() == old(self).well_formed(),
    {
        match self {
            Geometry::LineString { wkt: text, wkb, .. } => {
                *text = Some(wkt);
                *wkb = None;
            },
            Geometry::Polygon { rings, wkt: text, wkb, .. } => {
                if rings.len() == 0 {
                    return Err(AgsiError::Geometry(String::from_str("Empty polygon")));
                }
                *text = Some(wkt);
                *wkb = None;
            },
            _ => {},
        }
        Ok(())
    }
}

} // verus!
