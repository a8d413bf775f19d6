use agsi_core::material::{Material, MaterialProperty, MaterialType};
use agsi_core::model::{GroundModel, ModelDimension, ModelType};
use agsi_core::query::{material_answers, query_materials, select_model, MaterialPlace};
use agsi_core::{AgsiError, Document, Scalar};

fn model(id: &str) -> GroundModel {
    GroundModel::new(id, "Test", ModelType::Stratigraphic, ModelDimension::TwoD)
}

fn material(id: &str, kind: MaterialType, properties: &[&str]) -> Material {
    let mut m = Material::new(id, "Name", kind);
    for p in properties {
        m = m.with_property(MaterialProperty::numeric(p, Scalar::from_bits(1.0f64.to_bits()), None));
    }
    m
}

fn sample() -> Document {
    let mut doc = Document::new("TEST001");
    let mut a = model("A");
    a.add_material(material("MAT001", MaterialType::Soil, &["density"]));
    a.add_material(material("MAT002", MaterialType::Rock, &["density", "cohesion"]));
    let mut b = model("B");
    b.add_material(material("MAT003", MaterialType::Soil, &[]));
    b.add_material(material("MAT004", MaterialType::Soil, &["cohesion", "cohesion"]));
    doc.add_model(a);
    doc.add_model(model("EMPTY"));
    doc.add_model(b);
    doc
}

fn place(model: usize, material: usize) -> MaterialPlace {
    MaterialPlace { model, material }
}

#[test]
fn select_model_by_identifier() {
    let doc = sample();
    assert_eq!(select_model(&doc, Some("B")).unwrap().materials.len(), 2);
    assert_eq!(select_model(&doc, Some("A")).unwrap().id, "A");
    match select_model(&doc, Some("C")) {
        Err(AgsiError::ModelNotFound(id)) => assert_eq!(id, "C"),
        other => panic!("expected a missing model, got {:?}", other.map(|m| m.id.clone())),
    }
}

#[test]
fn select_model_without_identifier_needs_exactly_one_model() {
    let mut one = Document::new("TEST001");
    one.add_model(model("ONLY"));
    assert_eq!(select_model(&one, None).unwrap().id, "ONLY");
    match select_model(&sample(), None) {
        Err(AgsiError::Validation(m)) => assert_eq!(
            m,
            "Multiple models found. Please specify a model. Available: A, EMPTY, B"
        ),
        other => panic!("expected a refusal, got {:?}", other.map(|m| m.id.clone())),
    }
    match select_model(&Document::new("TEST001"), None) {
        Err(AgsiError::Validation(m)) => {
            assert_eq!(m, "Multiple models found. Please specify a model. Available: ")
        }
        other => panic!("expected a refusal, got {:?}", other.map(|m| m.id.clone())),
    }
}

#[test]
fn query_without_conditions_lists_every_material_in_order() {
    let doc = sample();
    assert_eq!(
        query_materials(&doc, None, None),
        vec![place(0, 0), place(0, 1), place(2, 0), place(2, 1)]
    );
    assert!(query_materials(&Document::new("TEST001"), None, None).is_empty());
}

#[test]
fn query_by_kind_and_by_property() {
    let doc = sample();
    assert_eq!(
        query_materials(&doc, Some(MaterialType::Soil), None),
        vec![place(0, 0), place(2, 0), place(2, 1)]
    );
    assert_eq!(query_materials(&doc, Some(MaterialType::Rock), None), vec![place(0, 1)]);
    assert!(query_materials(&doc, Some(MaterialType::Water), None).is_empty());
    assert_eq!(query_materials(&doc, None, Some("density")), vec![place(0, 0), place(0, 1)]);
    assert_eq!(query_materials(&doc, None, Some("cohesion")), vec![place(0, 1), place(2, 1)]);
    assert_eq!(
        query_materials(&doc, Some(MaterialType::Soil), Some("cohesion")),
        vec![place(2, 1)]
    );
    assert!(query_materials(&doc, Some(MaterialType::Rock), Some("porosity")).is_empty());
}

#[test]
fn material_answers_checks_both_conditions() {
    let m = material("MAT001", MaterialType::Fill, &["density"]);
    assert!(material_answers(&m, None, None));
    assert!(material_answers(&m, Some(MaterialType::Fill), Some("density")));
    assert!(!material_answers(&m, Some(MaterialType::Soil), Some("density")));
    assert!(!material_answers(&m, Some(MaterialType::Fill), Some("Density")));
}

#[test]
fn material_kinds_have_names_and_read_back_from_upper_case() {
    let kinds = [
        (MaterialType::Soil, "Soil"),
        (MaterialType::Rock, "Rock"),
        (MaterialType::Fill, "Fill"),
        (MaterialType::MadeGround, "MadeGround"),
        (MaterialType::Anthropogenic, "Anthropogenic"),
        (MaterialType::Water, "Water"),
        (MaterialType::Void, "Void"),
        (MaterialType::Unknown, "Unknown"),
    ];
    for (kind, name) in kinds {
        assert_eq!(kind.name(), name);
        assert_eq!(MaterialType::from_upper_name(&name.to_uppercase()), Some(kind));
    }
    assert_eq!(MaterialType::from_upper_name("Soil"), None);
    assert_eq!(MaterialType::from_upper_name("MADE_GROUND"), None);
    assert_eq!(MaterialType::from_upper_name(""), None);
}

#[test]
fn material_and_component_counts_add_up_over_models() {
    let doc = sample();
    assert_eq!(doc.material_count(), 4);
    assert_eq!(doc.component_count(), 0);
    assert_eq!(Document::new("TEST001").material_count(), 0);
}
