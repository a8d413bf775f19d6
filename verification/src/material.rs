//! Materials and their engineering properties.

use vstd::prelude::*;
use vstd::string::*;
use crate::lookup::{first_at, occurs};
use crate::metadata::Metadata;
use crate::scalar::Scalar;
use crate::text::str_eq;

verus! {

/// What kind of substance a material is.
#[derive(Debug, Clone, Copy, PartialEq, Eq, Structural)]
pub enum MaterialType {
    Soil,
    Rock,
    Fill,
    MadeGround,
    Anthropogenic,
    Water,
    Void,
    Unknown,
}

/// Where the value of a property comes from.
#[derive(Debug, Clone, Copy, PartialEq, Eq, Structural)]
pub enum PropertySource {
    Tested,
    Estimated,
    Literature,
    Assumed,
    Calculated,
}

/// The value of a property, in one of five shapes.
#[derive(Debug, Clone)]
pub enum PropertyValue {
    Number(Scalar),
    Text(String),
    Boolean(bool),
    Range { min: Scalar, max: Scalar },
    Array(Vec<Scalar>),
}

/// A named property of a material, with its value and where it comes from.
#[derive(Debug, Clone)]
pub struct MaterialProperty {
    /// Property name, such as `density` or `cohesion`.
    pub name: String,
    /// Property value.
    pub value: PropertyValue,
    /// Unit of measurement.
    pub unit: Option<String>,
    /// Measurement method or standard.
    pub method: Option<String>,
    /// Origin of the value.
    pub source: Option<PropertySource>,
}

/// A geotechnical substance with its properties.
#[derive(Debug, Clone)]
pub struct Material {
    /// Identifier, unique within the model that owns the material.
    pub id: String,
    /// Human-readable name.
    pub name: String,
    /// Free-text description.
    pub description: Option<String>,
    /// Kind of substance.
    pub material_type: MaterialType,
    /// Geological classification.
    pub geology: Option<String>,
    /// Engineering properties, in the order in which they were added.
    pub properties: Vec<MaterialProperty>,
    /// Further named values that the schema does not know.
    pub metadata: Metadata,
}

/// Whether an optional text is present with the given characters.
pub open spec fn holds_text(field: Option<String>, text: Seq<char>) -> bool {
    field matches Some(s) && s@ == text
}

impl MaterialProperty {
    /// A property with a numeric value.
    pub fn numeric(name: &str, value: Scalar, unit: Option<String>) -> (p: MaterialProperty)
        ensures
            p.name@ == name@,
            p.value == PropertyValue::Number(value),
            p.unit == unit,
            p.method.is_none(),
            p.source.is_none(),
    {
        MaterialProperty {
            name: String::from_str(name),
            value: PropertyValue::Number(value),
            unit,
            method: None,
            source: None,
        }
    }

    /// A property with a text value.
    pub fn text(name: &str, value: &str) -> (p: MaterialProperty)
        ensures
            p.name@ == name@,
            p.value matches PropertyValue::Text(t) && t@ == value@,
            p.unit.is_none(),
            p.method.is_none(),
            p.source.is_none(),
    {
        MaterialProperty {
            name: String::from_str(name),
            value: PropertyValue::Text(String::from_str(value)),
            unit: None,
            method: None,
            source: None,
        }
    }

    /// A property whose value is a range from `min` to `max`.
    pub fn range(name: &str, min: Scalar, max: Scalar, unit: Option<String>) -> (p:
        MaterialProperty)
        ensures
            p.name@ == name@,
            p.value == (PropertyValue::Range { min, max }),
            p.unit == unit,
            p.method.is_none(),
            p.source.is_none(),
    {
        MaterialProperty {
            name: String::from_str(name),
            value: PropertyValue::Range { min, max },
            unit,
            method: None,
            source: None,
        }
    }

    /// The same property with its origin set.
    pub fn with_source(self, source: PropertySource) -> (p: MaterialProperty)
        ensures
            p == (MaterialProperty { source: Some(source), ..self }),
    {
        let mut p = self;
        p.source = Some(source);
        p
    }

    /// The same property with its measurement method set.
    pub fn with_method(self, method: &str) -> (p: MaterialProperty)
        ensures
            holds_text(p.method, method@),
            p == (MaterialProperty { method: p.method, ..self }),
    {
        let mut p = self;
        p.method = Some(String::from_str(method));
        p
    }
}

impl Material {
    /// The names of the properties, in order.
    pub open spec fn property_names(self) -> Seq<Seq<char>> {
        Seq::new(self.properties@.len(), |i: int| self.properties@[i].name@)
    }

    /// A material with no description, geology, property or metadata.
    pub fn new(id: &str, name: &str, material_type: MaterialType) -> (m: Material)
        ensures
            m.id@ == id@,
            m.name@ == name@,
            m.material_type == material_type,
            m.description.is_none(),
            m.geology.is_none(),
            m.properties@.len() == 0,
            m.metadata@ == Map::<Seq<char>, serde_json::Value>::empty(),
    {
        Material {
            id: String::from_str(id),
            name: String::from_str(name),
            description: None,
            material_type,
            geology: None,
            properties: Vec::new(),
            metadata: Metadata::new(),
        }
    }

    /// The same material with one more property at the end.
    pub fn with_property(self, property: MaterialProperty) -> (m: Material)
        ensures
            m.properties@ == self.properties@.push(property),
            m == (Material { properties: m.properties, ..self }),
    {
        let mut m = self;
        m.properties.push(property);
        m
    }

    /// The same material with its description set.
    pub fn with_description(self, description: &str) -> (m: Material)
        ensures
            holds_text(m.description, description@),
            m == (Material { description: m.description, ..self }),
    {
        let mut m = self;
        m.description = Some(String::from_str(description));
        m
    }

    /// The first property named `name`, if there is one.
    pub fn get_property(&self, name: &str) -> (found: Option<&MaterialProperty>)
        ensures
            match found {
                Some(p) => exists|i: int|
                    first_at(self.property_names(), name@, i) && *p == self.properties@[i],
                None => !occurs(self.property_names(), name@),
            },
    {
        let mut i: usize = 0;
        while i < self.properties.len()
            invariant
                i <= self.properties@.len(),
                forall|j: int| 0 <= j < i ==> #[trigger] self.property_names()[j] != name@,
            decreases self.properties@.len() - i,
        {
            if str_eq(self.properties[i].name.as_str(), name) {
                assert(first_at(self.property_names(), name@, i as int));
                return Some(&self.properties[i]);
            }
            i += 1;
        }
        None
    }

    /// Every property named `name`, in the order in which they were added.
    pub fn get_properties_by_name(&self, name: &str) -> (found: Vec<&MaterialProperty>)
        ensures
            found@.map_values(|p: &MaterialProperty| *p) == self.properties@.filter(
                |p: MaterialProperty| p.name@ == name@,
            ),
    {
        let ghost wanted = |p: MaterialProperty| p.name@ == name@;
        let ghost unref = |p: &MaterialProperty| *p;
        let mut found: Vec<&MaterialProperty> = Vec::new();
        let mut i: usize = 0;
        proof {
            assert(self.properties@.subrange(0, 0) =~= Seq::<MaterialProperty>::empty());
            assert(found@.map_values(unref) =~= Seq::<MaterialProperty>::empty());
        }
        while i < self.properties.len()
            invariant
                i <= self.properties@.len(),
                wanted == |p: MaterialProperty| p.name@ == name@,
                unref == |p: &MaterialProperty| *p,
                found@.map_values(unref) == self.properties@.subrange(0, i as int).filter(wanted),
            decreases self.properties@.len() - i,
        {
            let ghost before = found@;
            let p = &self.properties[i];
            let hit = str_eq(p.name.as_str(), name);
            if hit {
                found.push(p);
            }
            proof {
                let head = self.properties@.subrange(0, i as int);
                let one = seq![self.properties@[i as int]];
                assert(self.properties@.subrange(0, i + 1) =~= head + one);
                Seq::filter_distributes_over_add(head, one, wanted);
                reveal_with_fuel(Seq::filter, 2);
                assert(one.drop_last() =~= Seq::<MaterialProperty>::empty());
                if hit {
                    assert(one.filter(wanted) =~= one);
                    assert(found@.map_values(unref) =~= before.map_values(unref) + one);
                } else {
                    assert(one.filter(wanted) =~= Seq::<MaterialProperty>::empty());
                    assert(head.filter(wanted) + Seq::<MaterialProperty>::empty() =~= head.filter(
                        wanted,
                    ));
                }
            }
            i += 1;
        }
        proof {
            assert(self.properties@.subrange(0, i as int) =~= self.properties@);
        }
        found
    }
}

} // verus!
