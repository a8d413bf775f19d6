use agsi_core::material::{Material, MaterialProperty, MaterialType, PropertySource, PropertyValue};
use agsi_core::Scalar;

fn num(x: f64) -> Scalar {
    Scalar::from_bits(x.to_bits())
}

fn as_double(s: Scalar) -> f64 {
    f64::from_bits(s.to_bits())
}

#[test]
fn test_create_material() {
    let material = Material::new("MAT001", "Dense Sand", MaterialType::Soil)
        .with_description("Dense, medium to coarse sand")
        .with_property(
            MaterialProperty::numeric("density", num(1900.0), Some("kg/m3".to_string()))
                .with_source(PropertySource::Tested),
        )
        .with_property(
            MaterialProperty::numeric("friction_angle", num(35.0), Some("degrees".to_string()))
                .with_source(PropertySource::Tested),
        );

    assert_eq!(material.id, "MAT001");
    assert_eq!(material.name, "Dense Sand");
    assert_eq!(material.properties.len(), 2);
    assert!(material.get_property("density").is_some());
}

#[test]
fn test_property_range() {
    let prop = MaterialProperty::range("cohesion", num(10.0), num(25.0), Some("kPa".to_string()));

    match prop.value {
        PropertyValue::Range { min, max } => {
            assert_eq!(as_double(min), 10.0);
            assert_eq!(as_double(max), 25.0);
        }
        _ => panic!("Expected range value"),
    }
}

#[test]
fn new_material_has_nothing_but_id_name_and_type() {
    let m = Material::new("MAT001", "Clay", MaterialType::Rock);
    assert_eq!(m.material_type, MaterialType::Rock);
    assert_eq!(m.description, None);
    assert_eq!(m.geology, None);
    assert!(m.properties.is_empty());
    assert!(m.metadata.is_empty());
}

#[test]
fn get_property_returns_the_first_of_a_name() {
    let m = Material::new("MAT001", "Clay", MaterialType::Soil)
        .with_property(MaterialProperty::numeric("density", num(1.0), None))
        .with_property(MaterialProperty::text("colour", "grey"))
        .with_property(MaterialProperty::numeric("density", num(2.0), None));
    match m.get_property("density").unwrap().value {
        PropertyValue::Number(v) => assert_eq!(as_double(v), 1.0),
        _ => panic!("expected a number"),
    }
    match &m.get_property("colour").unwrap().value {
        PropertyValue::Text(t) => assert_eq!(t, "grey"),
        _ => panic!("expected a text"),
    }
    assert!(m.get_property("cohesion").is_none());
    assert!(m.get_property("Density").is_none());
}

#[test]
fn get_properties_by_name_returns_all_in_order() {
    let m = Material::new("MAT001", "Clay", MaterialType::Soil)
        .with_property(MaterialProperty::numeric("density", num(1.0), None))
        .with_property(MaterialProperty::text("colour", "grey"))
        .with_property(MaterialProperty::numeric("density", num(2.0), None))
        .with_property(MaterialProperty::numeric("density", num(3.0), None));
    let found = m.get_properties_by_name("density");
    let values: Vec<f64> = found
        .iter()
        .map(|p| match p.value {
            PropertyValue::Number(v) => as_double(v),
            _ => panic!("expected a number"),
        })
        .collect();
    assert_eq!(values, vec![1.0, 2.0, 3.0]);
    assert_eq!(m.get_properties_by_name("colour").len(), 1);
    assert!(m.get_properties_by_name("cohesion").is_empty());
}

#[test]
fn property_builders_set_one_field_each() {
    let p = MaterialProperty::numeric("density", num(1900.0), Some("kg/m3".to_string()));
    assert_eq!(p.name, "density");
    assert_eq!(p.unit.as_deref(), Some("kg/m3"));
    assert!(p.method.is_none() && p.source.is_none());
    let p = p.with_method("BS 1377").with_source(PropertySource::Literature);
    assert_eq!(p.method.as_deref(), Some("BS 1377"));
    assert_eq!(p.source, Some(PropertySource::Literature));
    assert_eq!(p.unit.as_deref(), Some("kg/m3"));
    assert_eq!(p.name, "density");
    let t = MaterialProperty::text("colour", "grey");
    assert!(t.unit.is_none());
    assert!(matches!(t.value, PropertyValue::Text(ref s) if s == "grey"));
}
