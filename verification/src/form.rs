//! Entities from the answers to a form.
//!
//! A form asks for the fields of a document, a project, a material, a
//! property or a model as texts and as choices from lists of labels. The
//! functions of this module turn the answers into the entity: an optional
//! field is set only where its answer is not empty, and a label that is not
//! on its list stands for the last entry of the list.

use vstd::prelude::*;
use vstd::string::*;
use crate::document::Document;
use crate::material::{
    holds_text, Material, MaterialProperty, MaterialType, PropertySource, PropertyValue,
};
use crate::model::{ComponentType, GroundModel, ModelDimension, ModelType};
use crate::project::{Location, Project};
use crate::text::str_eq;

verus! {

/// The ending of the file name that a form proposes for an entity.
pub const OUTPUT_SUFFIX: &'static str = ".agsi.json";

/// Whether an optional field holds the answer: nothing where the answer is
/// empty, the answer otherwise.
pub open spec fn answered(field: Option<String>, answer: Seq<char>) -> bool {
    if answer.len() == 0 {
        field.is_none()
    } else {
        holds_text(field, answer)
    }
}

/// The kind of material that a label of the form stands for.
pub open spec fn material_type_labelled(label: Seq<char>) -> MaterialType {
    if label == "Soil"@ {
        MaterialType::Soil
    } else if label == "Rock"@ {
        MaterialType::Rock
    } else if label == "Fill"@ {
        MaterialType::Fill
    } else if label == "Made Ground"@ {
        MaterialType::MadeGround
    } else if label == "Anthropogenic"@ {
        MaterialType::Anthropogenic
    } else if label == "Water"@ {
        MaterialType::Water
    } else if label == "Void"@ {
        MaterialType::Void
    } else {
        MaterialType::Unknown
    }
}

/// The origin of a property value that a label of the form stands for.
pub open spec fn property_source_labelled(label: Seq<char>) -> PropertySource {
    if label == "Tested"@ {
        PropertySource::Tested
    } else if label == "Estimated"@ {
        PropertySource::Estimated
    } else if label == "Literature"@ {
        PropertySource::Literature
    } else if label == "Calculated"@ {
        PropertySource::Calculated
    } else {
        PropertySource::Assumed
    }
}

/// The kind of model that a label of the form stands for.
pub open spec fn model_type_labelled(label: Seq<char>) -> ModelType {
    if label == "Stratigraphic"@ {
        ModelType::Stratigraphic
    } else if label == "Structural"@ {
        ModelType::Structure
    } else if label == "Hydrogeological"@ {
        ModelType::Hydrogeological
    } else if label == "Geotechnical"@ {
        ModelType::Geotechnical
    } else if label == "Environmental"@ {
        ModelType::Environmental
    } else {
        ModelType::Composite
    }
}

/// The dimension that a label of the form stands for.
pub open spec fn dimension_labelled(label: Seq<char>) -> ModelDimension {
    if label == "1D (Borehole)"@ {
        ModelDimension::OneD
    } else if label == "2D (Cross-section)"@ {
        ModelDimension::TwoD
    } else {
        ModelDimension::ThreeD
    }
}

/// The kind of component that a label of the form stands for.
pub open spec fn component_type_labelled(label: Seq<char>) -> ComponentType {
    if label == "Layer"@ {
        ComponentType::Layer
    } else if label == "Lens"@ {
        ComponentType::Lens
    } else if label == "Volume"@ {
        ComponentType::Volume
    } else if label == "Fault"@ {
        ComponentType::Fault
    } else if label == "Intrusion"@ {
        ComponentType::Intrusion
    } else {
        ComponentType::Boundary
    }
}

/// The kind of component that a label of the form stands for.
pub fn component_type_of_label(label: &str) -> (kind: ComponentType)
    ensures
        kind == component_type_labelled(label@),
{
    if str_eq(label, "Layer") {
        ComponentType::Layer
    } else if str_eq(label, "Lens") {
        ComponentType::Lens
    } else if str_eq(label, "Volume") {
        ComponentType::Volume
    } else if str_eq(label, "Fault") {
        ComponentType::Fault
    } else if str_eq(label, "Intrusion") {
        ComponentType::Intrusion
    } else {
        ComponentType::Boundary
    }
}

/// The kind of material that a label of the form stands for.
pub fn material_type_of_label(label: &str) -> (kind: MaterialType)
    ensures
        kind == material_type_labelled(label@),
{
    if str_eq(label, "Soil") {
        MaterialType::Soil
    } else if str_eq(label, "Rock") {
        MaterialType::Rock
    } else if str_eq(label, "Fill") {
        MaterialType::Fill
    } else if str_eq(label, "Made Ground") {
        MaterialType::MadeGround
    } else if str_eq(label, "Anthropogenic") {
        MaterialType::Anthropogenic
    } else if str_eq(label, "Water") {
        MaterialType::Water
    } else if str_eq(label, "Void") {
        MaterialType::Void
    } else {
        MaterialType::Unknown
    }
}

/// The origin of a property value that a label of the form stands for.
pub fn property_source_of_label(label: &str) -> (source: PropertySource)
    ensures
        source == property_source_labelled(label@),
{
    if str_eq(label, "Tested") {
        PropertySource::Tested
    } else if str_eq(label, "Estimated") {
        PropertySource::Estimated
    } else if str_eq(label, "Literature") {
        PropertySource::Literature
    } else if str_eq(label, "Calculated") {
        PropertySource::Calculated
    } else {
        PropertySource::Assumed
    }
}

/// The kind of model that a label of the form stands for.
pub fn model_type_of_label(label: &str) -> (kind: ModelType)
    ensures
        kind == model_type_labelled(label@),
{
    if str_eq(label, "Stratigraphic") {
        ModelType::Stratigraphic
    } else if str_eq(label, "Structural") {
        ModelType::Structure
    } else if str_eq(label, "Hydrogeological") {
        ModelType::Hydrogeological
    } else if str_eq(label, "Geotechnical") {
        ModelType::Geotechnical
    } else if str_eq(label, "Environmental") {
        ModelType::Environmental
    } else {
        ModelType::Composite
    }
}

/// The dimension that a label of the form stands for.
pub fn dimension_of_label(label: &str) -> (dimension: ModelDimension)
    ensures
        dimension == dimension_labelled(label@),
{
    if str_eq(label, "1D (Borehole)") {
        ModelDimension::OneD
    } else if str_eq(label, "2D (Cross-section)") {
        ModelDimension::TwoD
    } else {
        ModelDimension::ThreeD
    }
}

/// An optional field from an answer.
pub fn optional(answer: &str) -> (field: Option<String>)
    ensures
        answered(field, answer@),
{
    if answer.is_empty() {
        None
    } else {
        Some(String::from_str(answer))
    }
}

/// The file name that a form proposes for an entity with the given
/// identifier.
pub fn default_output_name(id: &str) -> (name: String)
    ensures
        name@ == id@ + OUTPUT_SUFFIX@,
{
    String::from_str(id).concat(OUTPUT_SUFFIX)
}

/// The document that the answers to its form describe: a fresh document
/// with the given identifier and author, with file name and comments where
/// they were given, and with the project where there is one.
pub fn create_document_form(
    file_id: &str,
    file_name: &str,
    author: &str,
    comments: &str,
    project: Option<Project>,
) -> (doc: Document)
    ensures
        doc.ags_file.file_id@ == file_id@,
        holds_text(doc.ags_file.file_author, author@),
        answered(doc.ags_file.file_name, file_name@),
        answered(doc.ags_file.file_comments, comments@),
        doc.ags_project == project,
        ({
            let plain = Document {
                ags_file: crate::document::FileInfo {
                    file_name: None,
                    file_author: None,
                    file_comments: None,
                    ..doc.ags_file
                },
                ags_project: None,
                ..doc
            };
            plain.fresh(file_id@)
        }),
{
    let mut doc = Document::new(file_id).with_author(author);
    if !file_name.is_empty() {
        doc = doc.with_file_name(file_name);
    }
    if !comments.is_empty() {
        doc = doc.with_comments(comments);
    }
    match project {
        Some(p) => doc.with_project(p),
        None => doc,
    }
}

/// The project that the answers to its form describe. The location is
/// given by its name alone.
pub fn create_project_form(
    id: &str,
    name: &str,
    description: &str,
    client: &str,
    contractor: &str,
    location_name: Option<&str>,
) -> (project: Project)
    ensures
        project.id@ == id@,
        project.name@ == name@,
        answered(project.description, description@),
        answered(project.client, client@),
        answered(project.contractor, contractor@),
        match location_name {
            Some(l) => project.location matches Some(at) && at.name@ == l@ && at.country.is_none()
                && at.coordinates.is_none() && at.crs.is_none(),
            None => project.location.is_none(),
        },
        project.dates.is_none(),
        project.metadata@ == Map::<Seq<char>, serde_json::Value>::empty(),
{
    let mut project = Project::new(id, name);
    project.description = optional(description);
    if !client.is_empty() {
        project = project.with_client(client);
    }
    if !contractor.is_empty() {
        project = project.with_contractor(contractor);
    }
    match location_name {
        Some(l) => project.with_location(Location::new(l)),
        None => project,
    }
}

/// The property that the answers to its form describe.
pub fn create_property_form(
    name: &str,
    value: PropertyValue,
    unit: &str,
    method: &str,
    source_label: &str,
) -> (property: MaterialProperty)
    ensures
        property.name@ == name@,
        property.value == value,
        answered(property.unit, unit@),
        answered(property.method, method@),
        property.source == Some(property_source_labelled(source_label@)),
{
    MaterialProperty {
        name: String::from_str(name),
        value,
        unit: optional(unit),
        method: optional(method),
        source: Some(property_source_of_label(source_label)),
    }
}

/// The material that the answers to its form describe, with the given
/// properties in their order.
pub fn create_material_form(
    id: &str,
    name: &str,
    kind_label: &str,
    description: &str,
    geology: &str,
    properties: Vec<MaterialProperty>,
) -> (material: Material)
    ensures
        material.id@ == id@,
        material.name@ == name@,
        material.material_type == material_type_labelled(kind_label@),
        answered(material.description, description@),
        answered(material.geology, geology@),
        material.properties == properties,
        material.metadata@ == Map::<Seq<char>, serde_json::Value>::empty(),
{
    let mut material = Material::new(id, name, material_type_of_label(kind_label));
    material.description = optional(description);
    material.geology = optional(geology);
    material.properties = properties;
    material
}

/// The model that the answers to its form describe.
pub fn create_model_form(
    id: &str,
    name: &str,
    kind_label: &str,
    dimension_label: &str,
    description: &str,
    crs: &str,
) -> (model: GroundModel)
    ensures
        model.id@ == id@,
        model.name@ == name@,
        model.model_type == model_type_labelled(kind_label@),
        model.dimension == dimension_labelled(dimension_label@),
        answered(model.description, description@),
        answered(model.crs, crs@),
        model.components@.len() == 0,
        model.materials@.len() == 0,
        model.extent.is_none(),
        model.metadata@ == Map::<Seq<char>, serde_json::Value>::empty(),
{
    let mut model = GroundModel::new(
        id,
        name,
        model_type_of_label(kind_label),
        dimension_of_label(dimension_label),
    );
    model.description = optional(description);
    model.crs = optional(crs);
    model
}

} // verus!
