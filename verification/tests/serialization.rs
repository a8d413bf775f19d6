use agsi_core::serialization::{deserialize, first_record, serialize, AvroStage, Format};
use agsi_core::AgsiError;
use serde_json::Value;

/// A container of maps from names to texts.
const MAP_SCHEMA: &str = r#"{"type": "map", "values": "string"}"#;

fn object(entries: Vec<(&str, Value)>) -> Value {
    let mut map = serde_json::Map::new();
    for (k, v) in entries {
        map.insert(k.to_string(), v);
    }
    Value::Object(map)
}

/// The generic structured value of a fresh document with the given file
/// identifier.
fn document_value(file_id: &str) -> Value {
    object(vec![
        ("agsSchema", object(vec![("version", Value::from("1.0.1")), ("variant", Value::Null)])),
        (
            "agsFile",
            object(vec![
                ("fileId", Value::from(file_id)),
                ("fileName", Value::Null),
                ("fileSoftware", Value::from("agsi-rust")),
            ]),
        ),
        ("agsProject", Value::Null),
        ("agsiModel", Value::Array(vec![])),
        ("customField", Value::Array(vec![Value::from(1.5), Value::Bool(true), Value::from("x")])),
    ])
}

fn flat_record() -> Value {
    object(vec![("fileId", Value::from("TEST001")), ("fileName", Value::from("a.json"))])
}

#[test]
fn serialization_test_json_serialization() {
    let doc = document_value("TEST001");
    let bytes = serialize(&doc, Format::Json, "").unwrap();
    let deserialized = deserialize(&bytes, Format::Json).unwrap();

    assert_eq!(doc["agsFile"]["fileId"], deserialized["agsFile"]["fileId"]);
}

#[test]
fn test_json_compact_serialization() {
    let doc = document_value("TEST001");
    let pretty = serialize(&doc, Format::Json, "").unwrap();
    let compact = serialize(&doc, Format::JsonCompact, "").unwrap();

    // Compact should be smaller
    assert!(compact.len() < pretty.len());
}

#[test]
fn json_round_trip_keeps_every_field() {
    let doc = document_value("TEST001");
    for write in [Format::Json, Format::JsonCompact] {
        for read in [Format::Json, Format::JsonCompact] {
            let bytes = serialize(&doc, write, "").unwrap();
            assert_eq!(deserialize(&bytes, read).unwrap(), doc);
        }
    }
}

#[test]
fn json_output_is_what_the_json_crate_writes() {
    let doc = flat_record();
    assert_eq!(
        serialize(&doc, Format::JsonCompact, "").unwrap(),
        b"{\"fileId\":\"TEST001\",\"fileName\":\"a.json\"}".to_vec()
    );
    assert_eq!(
        serialize(&doc, Format::Json, "").unwrap(),
        b"{\n  \"fileId\": \"TEST001\",\n  \"fileName\": \"a.json\"\n}".to_vec()
    );
    assert_eq!(serialize(&Value::Null, Format::Json, "").unwrap(), b"null".to_vec());
}

#[test]
fn compact_json_is_never_longer_than_pretty_json() {
    let values = vec![
        Value::Null,
        Value::from(1),
        Value::from("text"),
        Value::Array(vec![]),
        object(vec![]),
        flat_record(),
        document_value("TEST001"),
        Value::Array(vec![document_value("A"), document_value("B")]),
    ];
    for v in values {
        let pretty = serialize(&v, Format::Json, "").unwrap();
        let compact = serialize(&v, Format::JsonCompact, "").unwrap();
        assert!(compact.len() <= pretty.len());
    }
}

#[test]
fn malformed_json_is_a_json_error() {
    for format in [Format::Json, Format::JsonCompact] {
        assert!(matches!(deserialize(b"", format), Err(AgsiError::Json(_))));
        assert!(matches!(deserialize(b"{\"a\":", format), Err(AgsiError::Json(_))));
        assert!(matches!(deserialize(b"[1, 2] x", format), Err(AgsiError::Json(_))));
        assert!(matches!(deserialize(&[0xff, 0xfe], format), Err(AgsiError::Json(_))));
    }
    assert_eq!(deserialize(b" [1, 2] ", Format::Json).unwrap(), Value::Array(vec![
        Value::from(1),
        Value::from(2)
    ]));
}

#[test]
fn protobuf_is_not_available() {
    match serialize(&document_value("TEST001"), Format::Protobuf, "") {
        Err(AgsiError::Serialization(m)) => assert_eq!(
            m,
            "Protobuf serialization requires code generation from .proto files. Run: protoc --rust_out=. schemas/agsi.proto"
        ),
        other => panic!("expected a serialization error, got {:?}", other),
    }
    match deserialize(b"anything", Format::Protobuf) {
        Err(AgsiError::Deserialization(m)) => {
            assert_eq!(m, "Protobuf deserialization requires generated code from .proto files")
        }
        other => panic!("expected a deserialization error, got {:?}", other),
    }
    assert!(deserialize(b"", Format::Protobuf).is_err());
}

#[test]
fn avro_round_trip_of_one_record() {
    let record = flat_record();
    let bytes = serialize(&record, Format::Avro, MAP_SCHEMA).unwrap();
    // a container starts with the magic bytes "Obj" and the format revision 1
    assert_eq!(&bytes[..4], b"Obj\x01");
    let back = deserialize(&bytes, Format::Avro).unwrap();
    assert_eq!(back, record);
}

#[test]
fn avro_reads_the_first_record_of_several() {
    let schema = apache_avro::Schema::parse_str(MAP_SCHEMA).unwrap();
    let mut writer = apache_avro::Writer::new(&schema, Vec::new()).unwrap();
    for id in ["FIRST", "SECOND"] {
        let record = object(vec![("fileId", Value::from(id))]);
        writer.append_value(apache_avro::to_value(&record).unwrap()).unwrap();
    }
    let bytes = writer.into_inner().unwrap();
    let back = deserialize(&bytes, Format::Avro).unwrap();
    assert_eq!(back["fileId"], Value::from("FIRST"));
}

#[test]
fn avro_container_without_a_record_is_an_error() {
    let schema = apache_avro::Schema::parse_str(MAP_SCHEMA).unwrap();
    let writer = apache_avro::Writer::new(&schema, Vec::new()).unwrap();
    let bytes = writer.into_inner().unwrap();
    match deserialize(&bytes, Format::Avro) {
        Err(AgsiError::Deserialization(m)) => assert_eq!(m, "No records found in Avro data"),
        other => panic!("expected a deserialization error, got {:?}", other),
    }
}

#[test]
fn avro_failures_say_at_which_step() {
    match serialize(&flat_record(), Format::Avro, "not a schema") {
        Err(AgsiError::Serialization(m)) => {
            assert!(m.starts_with("Failed to parse Avro schema: "), "{}", m)
        }
        other => panic!("expected a serialization error, got {:?}", other),
    }
    // a record that does not fit the schema is refused when it is written
    let unfit = object(vec![("fileId", Value::from(7))]);
    match serialize(&unfit, Format::Avro, MAP_SCHEMA) {
        Err(AgsiError::Serialization(m)) => assert!(m.starts_with("Failed to write Avro: "), "{}", m),
        other => panic!("expected a serialization error, got {:?}", other),
    }
    match deserialize(b"not a container", Format::Avro) {
        Err(AgsiError::Deserialization(m)) => assert!(m.starts_with("Failed to read Avro: "), "{}", m),
        other => panic!("expected a deserialization error, got {:?}", other),
    }
    match deserialize(b"", Format::Avro) {
        Err(AgsiError::Deserialization(m)) => assert!(m.starts_with("Failed to read Avro: "), "{}", m),
        other => panic!("expected a deserialization error, got {:?}", other),
    }
}

#[test]
fn first_record_tells_the_three_answers_apart() {
    let record = apache_avro::types::Value::Long(7);
    assert_eq!(first_record(Some(Ok(record.clone()))).unwrap(), record);
    match first_record(None) {
        Err(AgsiError::Deserialization(m)) => assert_eq!(m, "No records found in Avro data"),
        other => panic!("expected a deserialization error, got {:?}", other),
    }
    let cause = apache_avro::Schema::parse_str("not a schema").unwrap_err();
    let text = cause.to_string();
    match first_record(Some(Err(cause))) {
        Err(AgsiError::Deserialization(m)) => {
            assert_eq!(m, format!("Failed to deserialize Avro: {}", text))
        }
        other => panic!("expected a deserialization error, got {:?}", other),
    }
}

#[test]
fn stage_failures_carry_prefix_and_detail() {
    let cases = [
        (AvroStage::ParseSchema, true, "Failed to parse Avro schema: boom"),
        (AvroStage::ConvertToAvro, true, "Failed to convert to Avro: boom"),
        (AvroStage::Write, true, "Failed to write Avro: boom"),
        (AvroStage::Finalize, true, "Failed to finalize Avro: boom"),
        (AvroStage::Read, false, "Failed to read Avro: boom"),
        (AvroStage::Decode, false, "Failed to deserialize Avro: boom"),
        (AvroStage::ConvertFromAvro, false, "Failed to convert from Avro: boom"),
    ];
    for (stage, encodes, message) in cases {
        match stage.failure("boom") {
            AgsiError::Serialization(m) => {
                assert!(encodes);
                assert_eq!(m, message);
            }
            AgsiError::Deserialization(m) => {
                assert!(!encodes);
                assert_eq!(m, message);
            }
            other => panic!("unexpected error {:?}", other),
        }
    }
}

#[test]
fn format_names_are_matched_exactly() {
    assert_eq!(Format::from_name("json"), Some(Format::Json));
    assert_eq!(Format::from_name("json-compact"), Some(Format::JsonCompact));
    assert_eq!(Format::from_name("avro"), Some(Format::Avro));
    assert_eq!(Format::from_name("protobuf"), Some(Format::Protobuf));
    assert_eq!(Format::from_name("proto"), Some(Format::Protobuf));
    assert_eq!(Format::from_name("pb"), Some(Format::Protobuf));
    assert_eq!(Format::from_name("JSON"), None);
    assert_eq!(Format::from_name("yaml"), None);
    assert_eq!(Format::from_name(""), None);
    assert_eq!(Format::from_name("json "), None);
}

#[test]
fn avro_containers_begin_with_the_marker_and_nothing_else_is_read() {
    let bytes = serialize(&flat_record(), Format::Avro, MAP_SCHEMA).unwrap();
    assert!(bytes.len() >= 4);
    assert_eq!(&bytes[..4], &[79u8, 98, 106, 1]);
    for data in [&b""[..], &b"Obj"[..], &b"Obj\x02rest of it"[..], &b"obj\x01rest of it"[..]] {
        match deserialize(data, Format::Avro) {
            Err(AgsiError::Deserialization(m)) => {
                assert!(m.starts_with("Failed to read Avro: "), "{}", m)
            }
            other => panic!("expected a deserialization error, got {:?}", other),
        }
    }
    // the marker alone is no container either
    assert!(deserialize(b"Obj\x01", Format::Avro).is_err());
    // what was written is read back
    assert_eq!(deserialize(&bytes, Format::Avro).unwrap(), flat_record());
}
