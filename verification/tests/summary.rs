use agsi_core::material::{Material, MaterialType};
use agsi_core::model::{GroundModel, ModelDimension, ModelType};
use agsi_core::summary::{
    describe_document, describe_material, describe_result, error_texts, warning_texts,
};
use agsi_core::validation::validate_document;
use agsi_core::Document;

#[test]
fn document_is_described_by_identifier_and_model_count() {
    let mut doc = Document::new("DOC001");
    assert_eq!(describe_document(&doc), "Document(file_id='DOC001', models=0)");
    for i in 0..12 {
        doc.add_model(GroundModel::new(
            &format!("M{}", i),
            "Test",
            ModelType::Stratigraphic,
            ModelDimension::TwoD,
        ));
    }
    assert_eq!(describe_document(&doc), "Document(file_id='DOC001', models=12)");
}

#[test]
fn material_is_described_by_identifier_name_and_kind() {
    let m = Material::new("MAT001", "Dense Sand", MaterialType::MadeGround);
    assert_eq!(
        describe_material(&m),
        "Material(id='MAT001', name='Dense Sand', type='MadeGround')"
    );
}

#[test]
fn report_is_described_by_verdict_and_counts() {
    let mut doc = Document::new("DOC001");
    assert_eq!(
        describe_result(&validate_document(&doc).unwrap()),
        "ValidationResult(valid=True, warnings=0)"
    );
    doc.ags_schema.version = "2.0".to_string();
    assert_eq!(
        describe_result(&validate_document(&doc).unwrap()),
        "ValidationResult(valid=True, warnings=1)"
    );
    let mut model =
        GroundModel::new("M1", "Test", ModelType::Stratigraphic, ModelDimension::TwoD);
    model.add_material(Material::new("MAT001", "Clay", MaterialType::Soil));
    model.add_material(Material::new("MAT001", "Sand", MaterialType::Soil));
    doc.add_model(model);
    let result = validate_document(&doc).unwrap();
    assert_eq!(describe_result(&result), "ValidationResult(valid=False, errors=2, warnings=1)");
    assert_eq!(
        error_texts(&result),
        vec![
            "agsiModel[0].materials[0].id: Duplicate material ID: MAT001",
            "agsiModel[0].materials[1].id: Duplicate material ID: MAT001",
        ]
    );
    assert_eq!(
        warning_texts(&result),
        vec!["agsSchema.version: Schema version 2.0 differs from library version 1.0.1"]
    );
}

#[test]
fn lists_of_a_clean_report_are_empty() {
    let result = validate_document(&Document::new("DOC001")).unwrap();
    assert!(error_texts(&result).is_empty());
    assert!(warning_texts(&result).is_empty());
}

#[test]
fn wire_names_of_material_kinds_default_to_unknown() {
    assert_eq!(MaterialType::from_wire_name("SOIL"), MaterialType::Soil);
    assert_eq!(MaterialType::from_wire_name("ROCK"), MaterialType::Rock);
    assert_eq!(MaterialType::from_wire_name("FILL"), MaterialType::Fill);
    assert_eq!(MaterialType::from_wire_name("MADE_GROUND"), MaterialType::MadeGround);
    assert_eq!(MaterialType::from_wire_name("ANTHROPOGENIC"), MaterialType::Anthropogenic);
    assert_eq!(MaterialType::from_wire_name("WATER"), MaterialType::Water);
    assert_eq!(MaterialType::from_wire_name("VOID"), MaterialType::Void);
    assert_eq!(MaterialType::from_wire_name("UNKNOWN"), MaterialType::Unknown);
    assert_eq!(MaterialType::from_wire_name("MADEGROUND"), MaterialType::Unknown);
    assert_eq!(MaterialType::from_wire_name("soil"), MaterialType::Unknown);
    assert_eq!(MaterialType::from_wire_name(""), MaterialType::Unknown);
}
