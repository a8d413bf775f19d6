use agsi_core::form::{
    component_type_of_label, create_document_form, create_material_form, create_model_form, create_project_form,
    create_property_form, default_output_name, dimension_of_label, material_type_of_label,
    model_type_of_label, optional, property_source_of_label,
};
use agsi_core::material::{MaterialProperty, MaterialType, PropertySource, PropertyValue};
use agsi_core::model::{ComponentType, ModelDimension, ModelType};
use agsi_core::project::Project;
use agsi_core::Scalar;

#[test]
fn labels_stand_for_kinds_and_unknown_labels_for_the_last_entry() {
    assert_eq!(material_type_of_label("Soil"), MaterialType::Soil);
    assert_eq!(material_type_of_label("Rock"), MaterialType::Rock);
    assert_eq!(material_type_of_label("Fill"), MaterialType::Fill);
    assert_eq!(material_type_of_label("Made Ground"), MaterialType::MadeGround);
    assert_eq!(material_type_of_label("Anthropogenic"), MaterialType::Anthropogenic);
    assert_eq!(material_type_of_label("Water"), MaterialType::Water);
    assert_eq!(material_type_of_label("Void"), MaterialType::Void);
    assert_eq!(material_type_of_label("Unknown"), MaterialType::Unknown);
    assert_eq!(material_type_of_label("MadeGround"), MaterialType::Unknown);
    assert_eq!(material_type_of_label(""), MaterialType::Unknown);
    assert_eq!(property_source_of_label("Tested"), PropertySource::Tested);
    assert_eq!(property_source_of_label("Estimated"), PropertySource::Estimated);
    assert_eq!(property_source_of_label("Literature"), PropertySource::Literature);
    assert_eq!(property_source_of_label("Assumed"), PropertySource::Assumed);
    assert_eq!(property_source_of_label("Calculated"), PropertySource::Calculated);
    assert_eq!(property_source_of_label("Guessed"), PropertySource::Assumed);
    assert_eq!(model_type_of_label("Stratigraphic"), ModelType::Stratigraphic);
    assert_eq!(model_type_of_label("Structural"), ModelType::Structure);
    assert_eq!(model_type_of_label("Hydrogeological"), ModelType::Hydrogeological);
    assert_eq!(model_type_of_label("Geotechnical"), ModelType::Geotechnical);
    assert_eq!(model_type_of_label("Environmental"), ModelType::Environmental);
    assert_eq!(model_type_of_label("Composite"), ModelType::Composite);
    assert_eq!(model_type_of_label("Other"), ModelType::Composite);
    assert_eq!(dimension_of_label("1D (Borehole)"), ModelDimension::OneD);
    assert_eq!(dimension_of_label("2D (Cross-section)"), ModelDimension::TwoD);
    assert_eq!(dimension_of_label("3D (Full 3D)"), ModelDimension::ThreeD);
    assert_eq!(dimension_of_label("4D"), ModelDimension::ThreeD);
    assert_eq!(component_type_of_label("Layer"), ComponentType::Layer);
    assert_eq!(component_type_of_label("Lens"), ComponentType::Lens);
    assert_eq!(component_type_of_label("Volume"), ComponentType::Volume);
    assert_eq!(component_type_of_label("Fault"), ComponentType::Fault);
    assert_eq!(component_type_of_label("Intrusion"), ComponentType::Intrusion);
    assert_eq!(component_type_of_label("Boundary"), ComponentType::Boundary);
    assert_eq!(component_type_of_label("layer"), ComponentType::Boundary);
}

#[test]
fn empty_answers_leave_optional_fields_unset() {
    assert_eq!(optional(""), None);
    assert_eq!(optional("x"), Some("x".to_string()));
    assert_eq!(optional(" "), Some(" ".to_string()));
    assert_eq!(default_output_name("DOC001"), "DOC001.agsi.json");
    assert_eq!(default_output_name(""), ".agsi.json");
}

#[test]
fn document_from_answers() {
    let doc = create_document_form("DOC001", "", "A. Author", "", None);
    assert_eq!(doc.ags_file.file_id, "DOC001");
    assert_eq!(doc.ags_file.file_author.as_deref(), Some("A. Author"));
    assert_eq!(doc.ags_file.file_name, None);
    assert_eq!(doc.ags_file.file_comments, None);
    assert!(doc.ags_project.is_none());
    assert_eq!(doc.ags_schema.version, "1.0.1");
    assert_eq!(doc.ags_file.file_software.as_deref(), Some("agsi-rust"));
    assert!(doc.agsi_model.is_empty());
    let doc = create_document_form(
        "DOC002",
        "site.json",
        "",
        "draft",
        Some(Project::new("PRJ001", "Harbour wall")),
    );
    assert_eq!(doc.ags_file.file_name.as_deref(), Some("site.json"));
    assert_eq!(doc.ags_file.file_author.as_deref(), Some(""));
    assert_eq!(doc.ags_file.file_comments.as_deref(), Some("draft"));
    assert_eq!(doc.ags_project.unwrap().id, "PRJ001");
}

#[test]
fn project_from_answers() {
    let p = create_project_form("PRJ001", "Harbour wall", "", "", "", None);
    assert_eq!((p.id.as_str(), p.name.as_str()), ("PRJ001", "Harbour wall"));
    assert!(p.description.is_none() && p.client.is_none() && p.contractor.is_none());
    assert!(p.location.is_none() && p.dates.is_none());
    let p = create_project_form(
        "PRJ001",
        "Harbour wall",
        "quay repair",
        "Port Authority",
        "Ground Works Ltd",
        Some("Quay 4"),
    );
    assert_eq!(p.description.as_deref(), Some("quay repair"));
    assert_eq!(p.client.as_deref(), Some("Port Authority"));
    assert_eq!(p.contractor.as_deref(), Some("Ground Works Ltd"));
    let l = p.location.unwrap();
    assert_eq!(l.name, "Quay 4");
    assert!(l.country.is_none() && l.coordinates.is_none() && l.crs.is_none());
}

#[test]
fn material_and_property_from_answers() {
    let value = PropertyValue::Number(Scalar::from_bits(1900.0f64.to_bits()));
    let property = create_property_form("density", value, "kg/m3", "", "Tested");
    assert_eq!(property.name, "density");
    assert_eq!(property.unit.as_deref(), Some("kg/m3"));
    assert_eq!(property.method, None);
    assert_eq!(property.source, Some(PropertySource::Tested));
    assert!(matches!(property.value, PropertyValue::Number(v) if v.to_bits() == 1900.0f64.to_bits()));
    let second = create_property_form("colour", PropertyValue::Text("grey".into()), "", "visual", "?");
    assert_eq!(second.source, Some(PropertySource::Assumed));
    assert_eq!(second.method.as_deref(), Some("visual"));
    let properties: Vec<MaterialProperty> = vec![property, second];
    let m = create_material_form("MAT001", "Dense sand", "Made Ground", "", "alluvium", properties);
    assert_eq!((m.id.as_str(), m.name.as_str()), ("MAT001", "Dense sand"));
    assert_eq!(m.material_type, MaterialType::MadeGround);
    assert_eq!(m.description, None);
    assert_eq!(m.geology.as_deref(), Some("alluvium"));
    assert_eq!(m.properties.len(), 2);
    assert_eq!(m.properties[0].name, "density");
    assert_eq!(m.properties[1].name, "colour");
    assert!(m.metadata.is_empty());
}

#[test]
fn model_from_answers() {
    let m = create_model_form("M1", "Site", "Structural", "3D (Full 3D)", "", "EPSG:27700");
    assert_eq!((m.id.as_str(), m.name.as_str()), ("M1", "Site"));
    assert_eq!(m.model_type, ModelType::Structure);
    assert_eq!(m.dimension, ModelDimension::ThreeD);
    assert_eq!(m.description, None);
    assert_eq!(m.crs.as_deref(), Some("EPSG:27700"));
    assert!(m.materials.is_empty() && m.components.is_empty() && m.extent.is_none());
    let m = create_model_form("M2", "Other", "Geotechnical", "1D (Borehole)", "logs", "");
    assert_eq!(m.model_type, ModelType::Geotechnical);
    assert_eq!(m.dimension, ModelDimension::OneD);
    assert_eq!(m.description.as_deref(), Some("logs"));
    assert_eq!(m.crs, None);
}
