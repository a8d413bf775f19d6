use agsi_core::serialization::{deserialize, Format};
use agsi_core::AgsiError;

#[test]
fn each_kind_of_error_displays_its_kind_and_detail() {
    assert_eq!(AgsiError::Serialization("x".into()).to_string(), "Serialization error: x");
    assert_eq!(AgsiError::Deserialization("x".into()).to_string(), "Deserialization error: x");
    assert_eq!(AgsiError::Validation("x".into()).to_string(), "Validation error: x");
    assert_eq!(AgsiError::Geometry("x".into()).to_string(), "Geometry error: x");
    assert_eq!(AgsiError::Io("disk full".into()).to_string(), "IO error: disk full");
    assert_eq!(
        AgsiError::InvalidSchemaVersion { expected: "1.0.1".into(), found: "0.9".into() }
            .to_string(),
        "Invalid schema version: expected 1.0.1, found 0.9"
    );
    assert_eq!(AgsiError::MissingField("id".into()).to_string(), "Missing required field: id");
    assert_eq!(
        AgsiError::InvalidProperty("density".into()).to_string(),
        "Invalid material property: density"
    );
    assert_eq!(AgsiError::ModelNotFound("M1".into()).to_string(), "Model not found: M1");
    assert_eq!(AgsiError::MaterialNotFound("MAT1".into()).to_string(), "Material not found: MAT1");
    assert_eq!(AgsiError::Validation(String::new()).to_string(), "Validation error: ");
}

#[test]
fn json_error_displays_what_the_parser_said() {
    let cause = serde_json::from_str::<serde_json::Value>("{").unwrap_err();
    let expected = format!("JSON error: {}", cause);
    let e = AgsiError::Json(cause);
    assert_eq!(e.to_string(), expected);
    assert!(e.to_string().contains("line 1 column 1"));
}

#[test]
fn json_error_from_decoding_carries_line_and_column() {
    let e = deserialize(b"{\"a\": }", Format::Json).unwrap_err();
    assert!(matches!(e, AgsiError::Json(_)));
    assert_eq!(e.to_string(), "JSON error: expected value at line 1 column 7");
}
