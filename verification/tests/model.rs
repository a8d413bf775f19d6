use agsi_core::geometry::Geometry;
use agsi_core::material::{Material, MaterialType};
use agsi_core::model::{
    ComponentType, GroundModel, ModelComponent, ModelDimension, ModelExtent, ModelType,
};
use agsi_core::Scalar;

fn num(x: f64) -> Scalar {
    Scalar::from_bits(x.to_bits())
}

fn as_double(s: Scalar) -> f64 {
    f64::from_bits(s.to_bits())
}

fn origin() -> Geometry {
    Geometry::point(num(0.0), num(0.0), num(0.0))
}

#[test]
fn test_create_ground_model() {
    let mut model = GroundModel::new(
        "MODEL001",
        "Site Investigation Model",
        ModelType::Stratigraphic,
        ModelDimension::TwoD,
    );

    let material = Material::new("MAT001", "Clay", MaterialType::Soil);
    model.add_material(material);

    assert_eq!(model.id, "MODEL001");
    assert_eq!(model.materials.len(), 1);
}

#[test]
fn test_model_extent() {
    let extent = ModelExtent::new_2d(num(0.0), num(100.0), num(0.0), num(100.0));

    assert!(extent.contains(num(50.0), num(50.0), None));
    assert!(!extent.contains(num(150.0), num(50.0), None));
}

#[test]
fn test_model_extent_3d() {
    let extent =
        ModelExtent::new_3d(num(0.0), num(100.0), num(0.0), num(100.0), num(-10.0), num(10.0));

    assert!(extent.contains(num(50.0), num(50.0), Some(num(0.0))));
    assert!(!extent.contains(num(50.0), num(50.0), Some(num(20.0))));
}

#[test]
fn extent_bounds_are_included_and_z_counts_only_when_all_are_present() {
    let flat = ModelExtent::new_2d(num(0.0), num(100.0), num(-5.0), num(5.0));
    assert!(flat.contains(num(0.0), num(-5.0), None));
    assert!(flat.contains(num(100.0), num(5.0), None));
    assert!(!flat.contains(num(-0.1), num(0.0), None));
    assert!(!flat.contains(num(0.0), num(5.1), None));
    // a height is ignored by an extent without vertical bounds
    assert!(flat.contains(num(50.0), num(0.0), Some(num(1e9))));
    let solid =
        ModelExtent::new_3d(num(0.0), num(100.0), num(0.0), num(100.0), num(-10.0), num(10.0));
    // no height given: only x and y count
    assert!(solid.contains(num(50.0), num(50.0), None));
    assert!(solid.contains(num(50.0), num(50.0), Some(num(-10.0))));
    assert!(solid.contains(num(50.0), num(50.0), Some(num(10.0))));
    assert!(!solid.contains(num(50.0), num(50.0), Some(num(-10.5))));
    assert!(!solid.contains(num(150.0), num(50.0), Some(num(0.0))));
    assert!(!solid.contains(num(f64::NAN), num(50.0), None));
    assert!(!solid.contains(num(50.0), num(50.0), Some(num(f64::NAN))));
}

#[test]
fn get_material_returns_the_first_of_an_id() {
    let mut model =
        GroundModel::new("MODEL001", "Test", ModelType::Geotechnical, ModelDimension::ThreeD);
    model.add_material(Material::new("MAT001", "Clay", MaterialType::Soil));
    model.add_material(Material::new("MAT002", "Chalk", MaterialType::Rock));
    model.add_material(Material::new("MAT001", "Sand", MaterialType::Soil));
    assert_eq!(model.get_material("MAT001").unwrap().name, "Clay");
    assert_eq!(model.get_material("MAT002").unwrap().name, "Chalk");
    assert!(model.get_material("MAT003").is_none());
    assert!(model.get_material("").is_none());
}

#[test]
fn components_are_found_by_id_and_by_material() {
    let mut model =
        GroundModel::new("MODEL001", "Test", ModelType::Stratigraphic, ModelDimension::TwoD);
    model.add_component(ModelComponent::new("C1", "Upper", ComponentType::Layer, "MAT001", origin()));
    model.add_component(ModelComponent::new("C2", "Lens", ComponentType::Lens, "MAT002", origin()));
    model.add_component(ModelComponent::new("C3", "Lower", ComponentType::Layer, "MAT001", origin()));
    model.add_component(ModelComponent::new("C1", "Shadowed", ComponentType::Fault, "MAT003", origin()));
    assert_eq!(model.components.len(), 4);
    assert_eq!(model.get_component("C1").unwrap().name, "Upper");
    assert_eq!(model.get_component("C3").unwrap().name, "Lower");
    assert!(model.get_component("C9").is_none());
    let of_one: Vec<&str> =
        model.get_components_by_material("MAT001").iter().map(|c| c.id.as_str()).collect();
    assert_eq!(of_one, vec!["C1", "C3"]);
    assert_eq!(model.get_components_by_material("MAT003").len(), 1);
    assert!(model.get_components_by_material("MAT_MISSING").is_empty());
}

#[test]
fn removing_a_material_leaves_its_components_as_they_are() {
    let mut model =
        GroundModel::new("MODEL001", "Test", ModelType::Stratigraphic, ModelDimension::TwoD);
    model.add_material(Material::new("MAT001", "Clay", MaterialType::Soil));
    model.add_component(ModelComponent::new("C1", "Upper", ComponentType::Layer, "MAT001", origin()));
    model.materials.clear();
    assert_eq!(model.components.len(), 1);
    assert_eq!(model.components[0].material_id, "MAT001");
    assert!(model.get_material("MAT001").is_none());
}

#[test]
fn model_builders_set_one_field_each() {
    let model = GroundModel::new("MODEL001", "Test", ModelType::Structure, ModelDimension::OneD);
    assert!(model.crs.is_none() && model.extent.is_none() && model.description.is_none());
    assert!(model.metadata.is_empty());
    assert_eq!(model.model_type, ModelType::Structure);
    assert_eq!(model.dimension, ModelDimension::OneD);
    let model = model
        .with_crs("EPSG:27700")
        .with_extent(ModelExtent::new_2d(num(1.0), num(2.0), num(3.0), num(4.0)));
    assert_eq!(model.crs.as_deref(), Some("EPSG:27700"));
    let e = model.extent.unwrap();
    assert_eq!((as_double(e.min_x), as_double(e.max_x), as_double(e.min_y), as_double(e.max_y)), (1.0, 2.0, 3.0, 4.0));
    assert!(e.min_z.is_none() && e.max_z.is_none());
    assert_eq!(model.id, "MODEL001");
}

#[test]
fn component_builders_set_elevations_thickness_and_attributes() {
    let c = ModelComponent::new("C1", "Upper", ComponentType::Volume, "MAT001", origin());
    assert!(c.top.is_none() && c.base.is_none() && c.thickness.is_none());
    assert!(c.attributes.is_empty());
    assert_eq!(c.component_type, ComponentType::Volume);
    let (top, base) = (12.5f64, -2.5f64);
    let c = c.with_elevations(num(top), num(base), num((top - base).abs()));
    assert_eq!(c.top.map(as_double), Some(12.5));
    assert_eq!(c.base.map(as_double), Some(-2.5));
    assert_eq!(c.thickness.map(as_double), Some(15.0));
    let c = c.with_thickness(num(3.0));
    assert_eq!(c.thickness.map(as_double), Some(3.0));
    assert_eq!(c.top.map(as_double), Some(12.5));
    let c = c
        .with_attribute("colour", serde_json::Value::from("grey"))
        .with_attribute("rank", serde_json::Value::from(2))
        .with_attribute("colour", serde_json::Value::from("brown"));
    assert_eq!(c.attributes.len(), 2);
    assert_eq!(c.attributes.get("colour"), Some(&serde_json::Value::from("brown")));
    assert_eq!(c.attributes.get("rank"), Some(&serde_json::Value::from(2)));
    assert_eq!(c.id, "C1");
    assert_eq!(c.material_id, "MAT001");
}
