//! Ground models: the materials of a site and the components built of them.

use vstd::prelude::*;
use vstd::string::*;
use crate::geometry::Geometry;
use crate::lookup::{first_at, occurs};
use crate::material::{holds_text, Material};
use crate::metadata::Metadata;
use crate::scalar::Scalar;
use crate::text::str_eq;

verus! {

/// What a ground model describes.
#[derive(Debug, Clone, Copy, PartialEq, Eq, Structural)]
pub enum ModelType {
    Stratigraphic,
    /// Faults, folds and other structures.
    Structure,
    Hydrogeological,
    Geotechnical,
    Environmental,
    Composite,
}

/// How many spatial dimensions a ground model has.
#[derive(Debug, Clone, Copy, PartialEq, Eq, Structural)]
pub enum ModelDimension {
    /// Boreholes and soundings.
    OneD,
    /// Cross-sections.
    TwoD,
    /// Full 3D models.
    ThreeD,
}

/// What kind of spatial feature a component is.
#[derive(Debug, Clone, Copy, PartialEq, Eq, Structural)]
pub enum ComponentType {
    Layer,
    Lens,
    Volume,
    Fault,
    Intrusion,
    Boundary,
}

/// The axis-aligned region that a model covers. The vertical axis is
/// optional.
#[derive(Debug, Clone)]
pub struct ModelExtent {
    pub min_x: Scalar,
    pub max_x: Scalar,
    pub min_y: Scalar,
    pub max_y: Scalar,
    pub min_z: Option<Scalar>,
    pub max_z: Option<Scalar>,
}

/// A spatial feature of a model, made of one material.
#[derive(Debug, Clone)]
pub struct ModelComponent {
    /// Identifier.
    pub id: String,
    /// Name.
    pub name: String,
    /// Kind of feature.
    pub component_type: ComponentType,
    /// Identifier of the material, to be found in the same model.
    pub material_id: String,
    /// Shape and position.
    pub geometry: Geometry,
    /// Top elevation or depth.
    pub top: Option<Scalar>,
    /// Base elevation or depth.
    pub base: Option<Scalar>,
    /// Thickness.
    pub thickness: Option<Scalar>,
    /// Further named values that the schema does not know.
    pub attributes: Metadata,
}

/// A geological interpretation of a site.
#[derive(Debug, Clone)]
pub struct GroundModel {
    /// Identifier, unique within the document.
    pub id: String,
    /// Human-readable name.
    pub name: String,
    /// Free-text description.
    pub description: Option<String>,
    /// What the model describes.
    pub model_type: ModelType,
    /// Dimensionality.
    pub dimension: ModelDimension,
    /// Components, in the order in which they were added.
    pub components: Vec<ModelComponent>,
    /// Materials, in the order in which they were added.
    pub materials: Vec<Material>,
    /// Coordinate reference system.
    pub crs: Option<String>,
    /// Region that the model covers.
    pub extent: Option<ModelExtent>,
    /// Further named values that the schema does not know.
    pub metadata: Metadata,
}

impl ModelExtent {
    /// Whether no axis has its lower bound above its upper bound. The
    /// vertical axis counts only when both of its bounds are present.
    pub open spec fn ordered(self) -> bool {
        &&& !self.min_x.spec_gt(self.max_x)
        &&& !self.min_y.spec_gt(self.max_y)
        &&& match (self.min_z, self.max_z) {
            (Some(lo), Some(hi)) => !lo.spec_gt(hi),
            _ => true,
        }
    }

    /// Whether a position lies in the region, bounds included. The third
    /// coordinate counts only when it and both vertical bounds are present.
    pub open spec fn holds(self, x: Scalar, y: Scalar, z: Option<Scalar>) -> bool {
        &&& x.spec_ge(self.min_x)
        &&& x.spec_le(self.max_x)
        &&& y.spec_ge(self.min_y)
        &&& y.spec_le(self.max_y)
        &&& match (z, self.min_z, self.max_z) {
            (Some(h), Some(lo), Some(hi)) => h.spec_ge(lo) && h.spec_le(hi),
            _ => true,
        }
    }

    /// A region without vertical bounds.
    pub fn new_2d(min_x: Scalar, max_x: Scalar, min_y: Scalar, max_y: Scalar) -> (e: ModelExtent)
        ensures
            e == (ModelExtent { min_x, max_x, min_y, max_y, min_z: None, max_z: None }),
    {
        ModelExtent { min_x, max_x, min_y, max_y, min_z: None, max_z: None }
    }

    /// A region with vertical bounds.
    pub fn new_3d(
        min_x: Scalar,
        max_x: Scalar,
        min_y: Scalar,
        max_y: Scalar,
        min_z: Scalar,
        max_z: Scalar,
    ) -> (e: ModelExtent)
        ensures
            e == (ModelExtent {
                min_x,
                max_x,
                min_y,
                max_y,
                min_z: Some(min_z),
                max_z: Some(max_z),
            }),
    {
        ModelExtent { min_x, max_x, min_y, max_y, min_z: Some(min_z), max_z: Some(max_z) }
    }

    /// Whether a position lies in the region.
    pub fn contains(&self, x: Scalar, y: Scalar, z: Option<Scalar>) -> (inside: bool)
        ensures
            inside == self.holds(x, y, z),
    {
        let xy_inside = x.ge(&self.min_x) && x.le(&self.max_x) && y.ge(&self.min_y) && y.le(
            &self.max_y,
        );
        match (z, self.min_z, self.max_z) {
            (Some(h), Some(lo), Some(hi)) => xy_inside && h.ge(&lo) && h.le(&hi),
            _ => xy_inside,
        }
    }
}

impl ModelComponent {
    /// A component with no elevation, thickness or attribute.
    pub fn new(
        id: &str,
        name: &str,
        component_type: ComponentType,
        material_id: &str,
        geometry: Geometry,
    ) -> (c: ModelComponent)
        ensures
            c.id@ == id@,
            c.name@ == name@,
            c.component_type == component_type,
            c.material_id@ == material_id@,
            c.geometry == geometry,
            c.top.is_none(),
            c.base.is_none(),
            c.thickness.is_none(),
            c.attributes@ == Map::<Seq<char>, serde_json::Value>::empty(),
    {
        ModelComponent {
            id: String::from_str(id),
            name: String::from_str(name),
            component_type,
            material_id: String::from_str(material_id),
            geometry,
            top: None,
            base: None,
            thickness: None,
            attributes: Metadata::new(),
        }
    }

    /// The same component with its top and base set, and with the thickness
    /// between them, which the caller has computed as the distance from `top`
    /// to `base`.
    pub fn with_elevations(self, top: Scalar, base: Scalar, thickness: Scalar) -> (c:
        ModelComponent)
        ensures
            c == (ModelComponent {
                top: Some(top),
                base: Some(base),
                thickness: Some(thickness),
                ..self
            }),
    {
        let mut c = self;
        c.top = Some(top);
        c.base = Some(base);
        c.thickness = Some(thickness);
        c
    }

    /// The same component with its thickness set.
    pub fn with_thickness(self, thickness: Scalar) -> (c: ModelComponent)
        ensures
            c == (ModelComponent { thickness: Some(thickness), ..self }),
    {
        let mut c = self;
        c.thickness = Some(thickness);
        c
    }

    /// The same component with `value` stored under `key` among its
    /// attributes.
    pub fn with_attribute(self, key: &str, value: serde_json::Value) -> (c: ModelComponent)
        ensures
            c.attributes@ == self.attributes@.insert(key@, value),
            c == (ModelComponent { attributes: c.attributes, ..self }),
    {
        let mut c = self;
        c.attributes.insert(String::from_str(key), value);
        c
    }
}

impl GroundModel {
    /// The identifiers of the materials, in order.
    pub open spec fn material_ids(self) -> Seq<Seq<char>> {
        Seq::new(self.materials@.len(), |i: int| self.materials@[i].id@)
    }

    /// The identifiers of the components, in order.
    pub open spec fn component_ids(self) -> Seq<Seq<char>> {
        Seq::new(self.components@.len(), |i: int| self.components@[i].id@)
    }

    /// A model without components, materials, reference system, extent or
    /// metadata.
    pub fn new(id: &str, name: &str, model_type: ModelType, dimension: ModelDimension) -> (m:
        GroundModel)
        ensures
            m.id@ == id@,
            m.name@ == name@,
            m.description.is_none(),
            m.model_type == model_type,
            m.dimension == dimension,
            m.components@.len() == 0,
            m.materials@.len() == 0,
            m.crs.is_none(),
            m.extent.is_none(),
            m.metadata@ == Map::<Seq<char>, serde_json::Value>::empty(),
    {
        GroundModel {
            id: String::from_str(id),
            name: String::from_str(name),
            description: None,
            model_type,
            dimension,
            components: Vec::new(),
            materials: Vec::new(),
            crs: None,
            extent: None,
            metadata: Metadata::new(),
        }
    }

    /// Adds a component at the end. Nothing is checked: whether its material
    /// exists is for validation to say.
    pub fn add_component(&mut self, component: ModelComponent)
        ensures
            final(self).components@ == old(self).components@.push(component),
            *final(self) == (GroundModel { components: final(self).components, ..*old(self) }),
    {
        self.components.push(component);
    }

    /// Adds a material at the end. Nothing is checked: whether its identifier
    /// is taken is for validation to say.
    pub fn add_material(&mut self, material: Material)
        ensures
            final(self).materials@ == old(self).materials@.push(material),
            *final(self) == (GroundModel { materials: final(self).materials, ..*old(self) }),
    {
        self.materials.push(material);
    }

    /// The first material with the identifier `id`, if there is one.
    pub fn get_material(&self, id: &str) -> (found: Option<&Material>)
        ensures
            match found {
                Some(m) => exists|i: int|
                    first_at(self.material_ids(), id@, i) && *m == self.materials@[i],
                None => !occurs(self.material_ids(), id@),
            },
    {
        let mut i: usize = 0;
        while i < self.materials.len()
            invariant
                i <= self.materials@.len(),
                forall|j: int| 0 <= j < i ==> #[trigger] self.material_ids()[j] != id@,
            decreases self.materials@.len() - i,
        {
            if str_eq(self.materials[i].id.as_str(), id) {
                assert(first_at(self.material_ids(), id@, i as int));
                return Some(&self.materials[i]);
            }
            i += 1;
        }
        None
    }

    /// The first component with the identifier `id`, if there is one.
    pub fn get_component(&self, id: &str) -> (found: Option<&ModelComponent>)
        ensures
            match found {
                Some(c) => exists|i: int|
                    first_at(self.component_ids(), id@, i) && *c == self.components@[i],
                None => !occurs(self.component_ids(), id@),
            },
    {
        let mut i: usize = 0;
        while i < self.components.len()
            invariant
                i <= self.components@.len(),
                forall|j: int| 0 <= j < i ==> #[trigger] self.component_ids()[j] != id@,
            decreases self.components@.len() - i,
        {
            if str_eq(self.components[i].id.as_str(), id) {
                assert(first_at(self.component_ids(), id@, i as int));
                return Some(&self.components[i]);
            }
            i += 1;
        }
        None
    }

    /// Every component made of the material `material_id`, in the order in
    /// which they were added.
    pub fn get_components_by_material(&self, material_id: &str) -> (found: Vec<&ModelComponent>)
        ensures
            found@.map_values(|c: &ModelComponent| *c) == self.components@.filter(
                |c: ModelComponent| c.material_id@ == material_id@,
            ),
    {
        let ghost wanted = |c: ModelComponent| c.material_id@ == material_id@;
        let ghost unref = |c: &ModelComponent| *c;
        let mut found: Vec<&ModelComponent> = Vec::new();
        let mut i: usize = 0;
        proof {
            assert(self.components@.subrange(0, 0) =~= Seq::<ModelComponent>::empty());
            assert(found@.map_values(unref) =~= Seq::<ModelComponent>::empty());
        }
        while i < self.components.len()
            invariant
                i <= self.components@.len(),
                wanted == |c: ModelComponent| c.material_id@ == material_id@,
                unref == |c: &ModelComponent| *c,
                found@.map_values(unref) == self.components@.subrange(0, i as int).filter(wanted),
            decreases self.components@.len() - i,
        {
            let ghost before = found@;
            let c = &self.components[i];
            let hit = str_eq(c.material_id.as_str(), material_id);
            if hit {
                found.push(c);
            }
            proof {
                let head = self.components@.subrange(0, i as int);
                let one = seq![self.components@[i as int]];
                assert(self.components@.subrange(0, i + 1) =~= head + one);
                Seq::filter_distributes_over_add(head, one, wanted);
                reveal_with_fuel(Seq::filter, 2);
                assert(one.drop_last() =~= Seq::<ModelComponent>::empty());
                if hit {
                    assert(one.filter(wanted) =~= one);
                    assert(found@.map_values(unref) =~= before.map_values(unref) + one);
                } else {
                    assert(one.filter(wanted) =~= Seq::<ModelComponent>::empty());
                    assert(head.filter(wanted) + Seq::<ModelComponent>::empty() =~= head.filter(
                        wanted,
                    ));
                }
            }
            i += 1;
        }
        proof {
            assert(self.components@.subrange(0, i as int) =~= self.components@);
        }
        found
    }

    /// The same model with its coordinate reference system set.
    pub fn with_crs(self, crs: &str) -> (m: GroundModel)
        ensures
            holds_text(m.crs, crs@),
            m == (GroundModel { crs: m.crs, ..self }),
    {
        let mut m = self;
        m.crs = Some(String::from_str(crs));
        m
    }

    /// The same model with its extent set.
    pub fn with_extent(self, extent: ModelExtent) -> (m: GroundModel)
        ensures
            m == (GroundModel { extent: Some(extent), ..self }),
    {
        let mut m = self;
        m.extent = Some(extent);
        m
    }
}

} // verus!
