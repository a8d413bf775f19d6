use agsi_core::material::{Material, MaterialType};
use agsi_core::model::{GroundModel, ModelDimension, ModelType};
use agsi_core::project::{Location, Project, ProjectDates};
use agsi_core::{Document, Scalar, AGSI_VERSION};

#[test]
fn test_create_document() {
    let doc = Document::new("DOC001").with_file_name("test.agsi").with_author("Test Author");

    assert_eq!(doc.ags_file.file_id, "DOC001");
    assert_eq!(doc.ags_file.file_author, Some("Test Author".to_string()));
    assert_eq!(doc.ags_schema.version, AGSI_VERSION);
}

#[test]
fn test_document_with_model() {
    let mut doc = Document::new("DOC001");

    let mut model =
        GroundModel::new("MODEL001", "Test Model", ModelType::Stratigraphic, ModelDimension::TwoD);

    let material = Material::new("MAT001", "Clay", MaterialType::Soil);
    model.add_material(material);

    doc.add_model(model);

    assert_eq!(doc.agsi_model.len(), 1);
    assert!(doc.get_model("MODEL001").is_some());
}

#[test]
fn new_document_is_signed_and_empty() {
    let doc = Document::new("DOC001");
    assert_eq!(doc.ags_schema.version, "1.0.1");
    assert!(doc.ags_schema.variant.is_none());
    assert!(doc.ags_file.file_name.is_none());
    assert!(doc.ags_file.file_date.is_none());
    assert!(doc.ags_file.file_author.is_none());
    assert_eq!(doc.ags_file.file_software.as_deref(), Some("agsi-rust"));
    assert_eq!(doc.ags_file.file_version.as_deref(), Some("0.1.0"));
    assert!(doc.ags_file.file_comments.is_none());
    assert!(doc.ags_project.is_none());
    assert!(doc.agsi_model.is_empty());
    assert!(doc.extensions.is_empty());
}

#[test]
fn default_document_has_a_fresh_identifier_of_36_characters() {
    let a = Document::default();
    let b = Document::default();
    assert_eq!(a.ags_file.file_id.chars().count(), 36);
    assert_eq!(b.ags_file.file_id.chars().count(), 36);
    assert_ne!(a.ags_file.file_id, b.ags_file.file_id);
    assert_eq!(a.ags_file.file_id.matches('-').count(), 4);
    assert_eq!(a.ags_schema.version, AGSI_VERSION);
    assert!(a.agsi_model.is_empty());
}

#[test]
fn get_model_returns_the_first_of_an_id() {
    let mut doc = Document::new("DOC001");
    doc.add_model(GroundModel::new("M1", "First", ModelType::Stratigraphic, ModelDimension::TwoD));
    doc.add_model(GroundModel::new("M2", "Second", ModelType::Composite, ModelDimension::ThreeD));
    doc.add_model(GroundModel::new("M1", "Shadowed", ModelType::Environmental, ModelDimension::OneD));
    assert_eq!(doc.agsi_model.len(), 3);
    assert_eq!(doc.get_model("M1").unwrap().name, "First");
    assert_eq!(doc.get_model("M2").unwrap().name, "Second");
    assert!(doc.get_model("M3").is_none());
}

#[test]
fn get_model_mut_changes_the_first_of_an_id_in_place() {
    let mut doc = Document::new("DOC001");
    doc.add_model(GroundModel::new("M1", "First", ModelType::Stratigraphic, ModelDimension::TwoD));
    doc.add_model(GroundModel::new("M2", "Second", ModelType::Composite, ModelDimension::ThreeD));
    doc.add_model(GroundModel::new("M1", "Shadowed", ModelType::Environmental, ModelDimension::OneD));
    {
        let m = doc.get_model_mut("M1").unwrap();
        m.add_material(Material::new("MAT001", "Clay", MaterialType::Soil));
        m.name = "Renamed".to_string();
    }
    assert!(doc.get_model_mut("M9").is_none());
    assert_eq!(doc.agsi_model.len(), 3);
    assert_eq!(doc.agsi_model[0].name, "Renamed");
    assert_eq!(doc.agsi_model[0].materials.len(), 1);
    assert_eq!(doc.agsi_model[1].name, "Second");
    assert_eq!(doc.agsi_model[2].name, "Shadowed");
    assert!(doc.agsi_model[2].materials.is_empty());
    assert_eq!(doc.ags_file.file_id, "DOC001");
}

#[test]
fn document_builders_set_one_field_each() {
    let doc = Document::new("DOC001")
        .with_file_name("test.agsi")
        .with_author("Test Author")
        .with_comments("draft")
        .with_project(Project::new("PRJ001", "Harbour wall"));
    assert_eq!(doc.ags_file.file_name.as_deref(), Some("test.agsi"));
    assert_eq!(doc.ags_file.file_author.as_deref(), Some("Test Author"));
    assert_eq!(doc.ags_file.file_comments.as_deref(), Some("draft"));
    assert_eq!(doc.ags_file.file_id, "DOC001");
    assert_eq!(doc.ags_file.file_software.as_deref(), Some("agsi-rust"));
    assert_eq!(doc.ags_project.as_ref().unwrap().name, "Harbour wall");
}

#[test]
fn project_builders_set_one_field_each() {
    let p = Project::new("PRJ001", "Harbour wall");
    assert!(p.client.is_none() && p.contractor.is_none() && p.location.is_none());
    assert!(p.dates.is_none() && p.description.is_none() && p.metadata.is_empty());
    let lon = Scalar::from_bits((-1.5f64).to_bits());
    let lat = Scalar::from_bits(53.25f64.to_bits());
    let p = p
        .with_client("Port Authority")
        .with_contractor("Ground Works Ltd")
        .with_location(Location::new("Quay 4").with_coordinates(lon, lat, Some("EPSG:4326".into())))
        .with_dates(ProjectDates {
            start: Some("2024-01-01".into()),
            end: None,
            data_collection: None,
        });
    assert_eq!(p.id, "PRJ001");
    assert_eq!(p.client.as_deref(), Some("Port Authority"));
    assert_eq!(p.contractor.as_deref(), Some("Ground Works Ltd"));
    let l = p.location.unwrap();
    assert_eq!(l.name, "Quay 4");
    assert!(l.country.is_none());
    assert_eq!(l.coordinates.unwrap().map(|c| f64::from_bits(c.to_bits())), [-1.5, 53.25]);
    assert_eq!(l.crs.as_deref(), Some("EPSG:4326"));
    assert_eq!(p.dates.unwrap().start.as_deref(), Some("2024-01-01"));
}
