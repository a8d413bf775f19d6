use agsi_core::{
    AgsiDataParameterValue, AgsiModel, AgsiModelElement, AgsiParameterCode, AgsiRoot, Scalar,
};

fn num(x: f64) -> Scalar {
    Scalar::from_bits(x.to_bits())
}

const ALL_CODES: [AgsiParameterCode; 35] = [
    AgsiParameterCode::Depth,
    AgsiParameterCode::Elevation,
    AgsiParameterCode::AnalysisDrainageCondition,
    AgsiParameterCode::UnitWeightBulk,
    AgsiParameterCode::AngleFriction,
    AgsiParameterCode::AngleFrictionPeak,
    AgsiParameterCode::AngleFrictionCritical,
    AgsiParameterCode::AngleFrictionResidual,
    AgsiParameterCode::AngleDilation,
    AgsiParameterCode::Cohesion,
    AgsiParameterCode::UndrainedShearStrength,
    AgsiParameterCode::UndrainedShearStrengthTriaxial,
    AgsiParameterCode::UniaxialCompressiveStrength,
    AgsiParameterCode::YoungsModulusDrained,
    AgsiParameterCode::YoungsModulusUndrained,
    AgsiParameterCode::YoungsModulusDrainedVertical,
    AgsiParameterCode::YoungsModulusUndrainedVertical,
    AgsiParameterCode::YoungsModulusDrainedHorizontal,
    AgsiParameterCode::YoungsModulusUndrainedHorizontal,
    AgsiParameterCode::BulkModulus,
    AgsiParameterCode::ShearModulusDrained,
    AgsiParameterCode::ShearModulusUndrained,
    AgsiParameterCode::PoissonsRatio,
    AgsiParameterCode::CoefficientLateralEarthPressureAtRest,
    AgsiParameterCode::CoefficientLateralEarthPressureActive,
    AgsiParameterCode::CoefficientLateralEarthPressurePassive,
    AgsiParameterCode::CoefficientLateralEarthPressureStar,
    AgsiParameterCode::CBR,
    AgsiParameterCode::SubgradeSurfaceModulus,
    AgsiParameterCode::Permeability,
    AgsiParameterCode::PermeabilityHorizontal,
    AgsiParameterCode::PermeabilityVertical,
    AgsiParameterCode::ACECClass,
    AgsiParameterCode::ACECDSClass,
    AgsiParameterCode::ACECCDCClass,
];

#[test]
fn test_create_agsi_root() {
    let root = AgsiRoot::new("Test Project");
    assert_eq!(root.ags_schema.name, "AGSi");
    assert_eq!(root.ags_schema.version, "1.0.1");
    assert_eq!(root.ags_file.project_name, "Test Project");
}

#[test]
fn test_create_model_element() {
    let mut element = AgsiModelElement::new()
        .with_name("Dense Sand")
        .with_description("Dense, medium to coarse sand");

    element.add_parameter(AgsiDataParameterValue::numeric("UnitWeightBulk", num(19.0)));
    element.add_parameter(AgsiDataParameterValue::numeric("AngleFriction", num(35.0)));

    assert_eq!(element.element_name, Some("Dense Sand".to_string()));
    assert_eq!(element.agsi_data_parameter_value.len(), 2);
}

#[test]
fn test_standard_parameter_codes() {
    let code = AgsiParameterCode::UndrainedShearStrength;
    assert_eq!(code.units(), Some("kPa"));
    assert_eq!(code.category(), "Strength");
    assert_eq!(code.as_code_id(), "UndrainedShearStrength");
}

#[test]
fn test_free_text_parameter() {
    let param = AgsiDataParameterValue::text("CustomParameter", "Custom Value");
    assert_eq!(param.code_id, "CustomParameter");
    assert_eq!(param.value_text, Some("Custom Value".to_string()));
}

#[test]
fn test_parameter_code_lookup() {
    // Test forward lookup
    let code = AgsiParameterCode::AngleFriction;
    let code_id = code.as_code_id();
    assert_eq!(code_id, "AngleFriction");

    // Test reverse lookup
    let parsed = AgsiParameterCode::from_code_id(code_id);
    assert_eq!(parsed, Some(code));
}

#[test]
fn test_all_parameter_codes_have_metadata() {
    // Ensure all parameter codes have units, category, and description
    let codes = [
        AgsiParameterCode::Depth,
        AgsiParameterCode::UnitWeightBulk,
        AgsiParameterCode::AngleFriction,
        AgsiParameterCode::UndrainedShearStrength,
        AgsiParameterCode::YoungsModulusDrained,
        AgsiParameterCode::Permeability,
        AgsiParameterCode::CBR,
    ];

    for code in codes {
        // All should have a description
        assert!(!code.description().is_empty());

        // All should have a category
        assert!(!code.category().is_empty());

        // All should have a code ID
        assert!(!code.as_code_id().is_empty());
    }
}

#[test]
fn every_code_reads_back_from_its_identifier() {
    for code in ALL_CODES {
        assert_eq!(AgsiParameterCode::from_code_id(code.as_code_id()), Some(code));
        assert!(!code.description().is_empty());
        assert!(!code.category().is_empty());
    }
}

#[test]
fn code_identifiers_are_pairwise_distinct() {
    for (i, a) in ALL_CODES.iter().enumerate() {
        for (j, b) in ALL_CODES.iter().enumerate() {
            assert_eq!(i == j, a.as_code_id() == b.as_code_id());
        }
    }
}

#[test]
fn unknown_or_miscased_identifier_is_no_code() {
    assert_eq!(AgsiParameterCode::from_code_id(""), None);
    assert_eq!(AgsiParameterCode::from_code_id("depth"), None);
    assert_eq!(AgsiParameterCode::from_code_id("Depth "), None);
    assert_eq!(AgsiParameterCode::from_code_id("CustomParameter"), None);
}

#[test]
fn units_categories_and_descriptions_of_chosen_codes() {
    assert_eq!(AgsiParameterCode::Depth.units(), Some("m"));
    assert_eq!(AgsiParameterCode::UnitWeightBulk.units(), Some("kN/m3"));
    assert_eq!(AgsiParameterCode::AngleDilation.units(), Some("deg"));
    assert_eq!(AgsiParameterCode::SubgradeSurfaceModulus.units(), Some("MPa"));
    assert_eq!(AgsiParameterCode::CBR.units(), Some("%"));
    assert_eq!(AgsiParameterCode::PermeabilityVertical.units(), Some("m/s"));
    assert_eq!(AgsiParameterCode::PoissonsRatio.units(), None);
    assert_eq!(AgsiParameterCode::AnalysisDrainageCondition.units(), None);
    assert_eq!(AgsiParameterCode::ACECClass.units(), None);
    assert_eq!(AgsiParameterCode::UniaxialCompressiveStrength.category(), "Stiffness");
    assert_eq!(AgsiParameterCode::CoefficientLateralEarthPressureStar.category(), "Ret wall");
    assert_eq!(AgsiParameterCode::CBR.category(), "Pavement");
    assert_eq!(AgsiParameterCode::ACECDSClass.category(), "ACEC");
    assert_eq!(AgsiParameterCode::CBR.description(), "California bearing ratio (CBR)");
    assert_eq!(AgsiParameterCode::YoungsModulusDrained.description(), "Drained Young's Modulus");
}

#[test]
fn standard_code_parameter_is_written_under_its_identifier() {
    let p = AgsiDataParameterValue::from_standard_code(AgsiParameterCode::UnitWeightBulk, num(20.0))
        .with_case("Drained");
    assert_eq!(p.code_id, "UnitWeightBulk");
    assert_eq!(p.value_numeric.map(|v| f64::from_bits(v.to_bits())), Some(20.0));
    assert_eq!(p.value_text, None);
    assert_eq!(p.case_id, Some("Drained".to_string()));
}

#[test]
fn root_collects_models_and_elements_in_order() {
    let mut root = AgsiRoot::new("Test Project");
    assert!(root.agsi_model.is_empty());
    assert_eq!(
        root.ags_schema.link,
        Some("https://ags-data-format-wg.gitlab.io/agsi/agsi_standard/1.0.1/".to_string())
    );
    let mut model = AgsiModel::new();
    assert!(model.model_name.is_none());
    model.model_name = Some("Test Model".to_string());
    model.add_element(AgsiModelElement::new().with_name("A"));
    model.add_element(
        AgsiModelElement::new()
            .with_name("B")
            .with_parameter(AgsiDataParameterValue::text("Custom", "x")),
    );
    root.add_model(model);
    assert_eq!(root.agsi_model.len(), 1);
    assert_eq!(root.agsi_model[0].agsi_model_element.len(), 2);
    assert_eq!(root.agsi_model[0].agsi_model_element[0].element_name, Some("A".to_string()));
    assert_eq!(root.agsi_model[0].agsi_model_element[1].agsi_data_parameter_value.len(), 1);
}
