//! The wire formats of a document.
//!
//! A document goes over the wire as a generic structured value, a
//! `serde_json::Value`. This module turns such a value into bytes and back in
//! the format that the caller names: JSON, pretty-printed or compact; an Avro
//! container of one record, written against a schema that the caller
//! supplies; or Protocol Buffers, which is declared but not available.

use vstd::prelude::*;
use vstd::string::*;
use crate::avro::{
    append_record, avro_error_message, avro_error_text, avro_of_json, avro_to_json,
    begins_container, container_bytes, finish_writer, json_of_avro, json_to_avro, new_writer,
    next_of, next_record, open_reader, opened, parse_schema, schema_of, writer_schema, written,
    ContainerWriter,
};
use crate::error::AgsiError;
use crate::json::{
    compact_json, parse_json, parsed_json, pretty_json, to_compact_json, to_pretty_json,
};
use crate::text::str_eq;

verus! {

/// A wire format.
#[derive(Debug, Clone, Copy, PartialEq, Eq, Structural)]
pub enum Format {
    /// JSON, one member per line and indented.
    Json,
    /// JSON without white space between the tokens.
    JsonCompact,
    /// An Avro container that holds the document as its only record.
    Avro,
    /// Protocol Buffers; not available.
    Protobuf,
}

/// A step of writing or reading an Avro container that can fail.
#[derive(Debug, Clone, Copy, PartialEq, Eq, Structural)]
pub enum AvroStage {
    ParseSchema,
    ConvertToAvro,
    Write,
    Finalize,
    Read,
    Decode,
    ConvertFromAvro,
}

impl AvroStage {
    /// Whether the step belongs to writing a container.
    pub open spec fn encodes(self) -> bool {
        self is ParseSchema || self is ConvertToAvro || self is Write || self is Finalize
    }

    /// How the message of a failure of the step begins.
    pub open spec fn prefix(self) -> Seq<char> {
        match self {
            AvroStage::ParseSchema => "Failed to parse Avro schema: "@,
            AvroStage::ConvertToAvro => "Failed to convert to Avro: "@,
            AvroStage::Write => "Failed to write Avro: "@,
            AvroStage::Finalize => "Failed to finalize Avro: "@,
            AvroStage::Read => "Failed to read Avro: "@,
            AvroStage::Decode => "Failed to deserialize Avro: "@,
            AvroStage::ConvertFromAvro => "Failed to convert from Avro: "@,
        }
    }

    /// The error for a failure of the step with the given detail: a
    /// serialization error for a step of writing, a deserialization error for
    /// a step of reading, with the step's prefix before the detail.
    pub open spec fn is_failure(self, detail: Seq<char>, e: AgsiError) -> bool {
        if self.encodes() {
            e matches AgsiError::Serialization(m) && m@ == self.prefix() + detail
        } else {
            e matches AgsiError::Deserialization(m) && m@ == self.prefix() + detail
        }
    }

    /// The error for a failure of the step with the given detail.
    pub fn failure(self, detail: &str) -> (e: AgsiError)
        ensures
            self.is_failure(detail@, e),
    {
        let prefix = match self {
            AvroStage::ParseSchema => "Failed to parse Avro schema: ",
            AvroStage::ConvertToAvro => "Failed to convert to Avro: ",
            AvroStage::Write => "Failed to write Avro: ",
            AvroStage::Finalize => "Failed to finalize Avro: ",
            AvroStage::Read => "Failed to read Avro: ",
            AvroStage::Decode => "Failed to deserialize Avro: ",
            AvroStage::ConvertFromAvro => "Failed to convert from Avro: ",
        };
        let message = String::from_str(prefix).concat(detail);
        match self {
            AvroStage::ParseSchema | AvroStage::ConvertToAvro | AvroStage::Write
            | AvroStage::Finalize => AgsiError::Serialization(message),
            _ => AgsiError::Deserialization(message),
        }
    }
}

/// Why a document cannot be written as Protocol Buffers.
pub open spec fn protobuf_encode_refusal() -> Seq<char> {
    "Protobuf serialization requires code generation from .proto files. Run: protoc --rust_out=. schemas/agsi.proto"@
}

/// Why a document cannot be read from Protocol Buffers.
pub open spec fn protobuf_decode_refusal() -> Seq<char> {
    "Protobuf deserialization requires generated code from .proto files"@
}

/// Why a container without a record cannot be read.
pub open spec fn no_record_refusal() -> Seq<char> {
    "No records found in Avro data"@
}

/// Whether an error is the failure of the given step of writing or reading
/// an Avro container.
pub open spec fn is_avro_failure_at(stage: AvroStage, e: AgsiError) -> bool {
    exists|cause: apache_avro::Error| #[trigger] stage.is_failure(avro_error_text(cause), e)
}

/// Whether an error is the failure of a step of writing an Avro container.
pub open spec fn is_avro_encode_failure(e: AgsiError) -> bool {
    exists|stage: AvroStage, cause: apache_avro::Error|
        stage.encodes() && #[trigger] stage.is_failure(avro_error_text(cause), e)
}

/// Whether an error is the failure of a step of reading an Avro container,
/// or says that the container holds no record.
pub open spec fn is_avro_decode_failure(e: AgsiError) -> bool {
    ||| e matches AgsiError::Deserialization(m) && m@ == no_record_refusal()
    ||| exists|stage: AvroStage, cause: apache_avro::Error|
        !stage.encodes() && #[trigger] stage.is_failure(avro_error_text(cause), e)
}

impl Format {
    /// The format that a lower-case name stands for: `json`,
    /// `json-compact`, `avro`, and `protobuf` with its short forms `proto`
    /// and `pb`. Any other name stands for none.
    pub open spec fn of_name(name: Seq<char>) -> Option<Format> {
        if name == "json"@ {
            Some(Format::Json)
        } else if name == "json-compact"@ {
            Some(Format::JsonCompact)
        } else if name == "avro"@ {
            Some(Format::Avro)
        } else if name == "protobuf"@ || name == "proto"@ || name == "pb"@ {
            Some(Format::Protobuf)
        } else {
            None
        }
    }

    /// The format that a lower-case name stands for, if it stands for one.
    pub fn from_name(name: &str) -> (format: Option<Format>)
        ensures
            format == Format::of_name(name@),
    {
        if str_eq(name, "json") {
            Some(Format::Json)
        } else if str_eq(name, "json-compact") {
            Some(Format::JsonCompact)
        } else if str_eq(name, "avro") {
            Some(Format::Avro)
        } else if str_eq(name, "protobuf") || str_eq(name, "proto") || str_eq(name, "pb") {
            Some(Format::Protobuf)
        } else {
            None
        }
    }
}

/// What reading the first record of a container comes to, given what the
/// reader answered when asked for it: the record where there is one, the
/// failure of decoding where it could not be read, and a failure of its own
/// where the container is empty.
pub fn first_record(
    next: Option<Result<apache_avro::types::Value, apache_avro::Error>>,
) -> (r: Result<apache_avro::types::Value, AgsiError>)
    ensures
        match next {
            Some(Ok(record)) => r == Ok::<apache_avro::types::Value, AgsiError>(record),
            Some(Err(cause)) => r matches Err(e) && AvroStage::Decode.is_failure(
                avro_error_text(cause),
                e,
            ),
            None => r matches Err(e) && (e matches AgsiError::Deserialization(m) && m@
                == no_record_refusal()),
        },
{
    match next {
        Some(Ok(record)) => Ok(record),
        Some(Err(cause)) => {
            let detail = avro_error_message(&cause);
            Err(AvroStage::Decode.failure(detail.as_str()))
        },
        None => Err(AgsiError::Deserialization(String::from_str("No records found in Avro data"))),
    }
}

fn avro_failure(stage: AvroStage, cause: &apache_avro::Error) -> (e: AgsiError)
    ensures
        stage.is_failure(avro_error_text(*cause), e),
        is_avro_failure_at(stage, e),
        stage.encodes() ==> is_avro_encode_failure(e),
        !stage.encodes() ==> is_avro_decode_failure(e),
{
    let detail = avro_error_message(cause);
    stage.failure(detail.as_str())
}

/// Whether a writer writes under the given schema and was given the one
/// record and no other.
pub open spec fn holds_only(
    writer: ContainerWriter<'_>,
    schema: apache_avro::Schema,
    record: apache_avro::types::Value,
) -> bool {
    writer_schema(writer) == schema && written(writer) == seq![record]
}

/// Whether `bytes` are the container that finishing a writer gives which
/// writes under the schema and was given the one record.
pub open spec fn is_container_of(
    schema: apache_avro::Schema,
    record: apache_avro::types::Value,
    bytes: Seq<u8>,
) -> bool {
    exists|writer: ContainerWriter<'_>|
        holds_only(writer, schema, record) && #[trigger] container_bytes(writer) == Some(bytes)
}

/// Whether finishing fails for a writer that writes under the schema and
/// was given the one record.
pub open spec fn finishing_fails(
    schema: apache_avro::Schema,
    record: apache_avro::types::Value,
) -> bool {
    exists|writer: ContainerWriter<'_>|
        holds_only(writer, schema, record) && (#[trigger] container_bytes(writer)).is_none()
}

/// Whether `r` is what writing a value as the only record of an Avro
/// container comes to.
///
/// Where the text declares no schema, it is the failure of parsing the
/// schema. Where it declares one and the value has no Avro value, it is the
/// failure of the conversion. Otherwise the writer decides: on success the
/// bytes are the container of a writer that wrote under that schema and was
/// given that one record, and they begin with the container marker; a
/// failure is one of writing, or one of finishing such a writer.
pub open spec fn avro_encoded(
    value: serde_json::Value,
    schema_text: Seq<char>,
    r: Result<Vec<u8>, AgsiError>,
) -> bool {
    match schema_of(schema_text) {
        None => r matches Err(e) && is_avro_failure_at(AvroStage::ParseSchema, e),
        Some(schema) => match avro_of_json(value) {
            None => r matches Err(e) && is_avro_failure_at(AvroStage::ConvertToAvro, e),
            Some(record) => match r {
                Ok(bytes) => is_container_of(schema, record, bytes@) && begins_container(bytes@),
                Err(e) => is_avro_failure_at(AvroStage::Write, e) || (finishing_fails(
                    schema,
                    record,
                ) && is_avro_failure_at(AvroStage::Finalize, e)),
            },
        },
    }
}

/// What reading the first record of a container as a JSON value comes to.
pub ghost enum Reading {
    /// The record, as a JSON value.
    Value(serde_json::Value),
    /// The container holds no record.
    NoRecord,
    /// The step that fails.
    Fails(AvroStage),
}

/// What reading the first record of the given bytes comes to: bytes that do
/// not open as a container fail at reading; a container without a record
/// has none; a record that cannot be read fails at decoding; a record
/// without a JSON value fails at the conversion; and otherwise it is that
/// value.
pub open spec fn reading_of(data: Seq<u8>) -> Reading {
    match opened(data) {
        None => Reading::Fails(AvroStage::Read),
        Some(reader) => match next_of(reader) {
            None => Reading::NoRecord,
            Some(None) => Reading::Fails(AvroStage::Decode),
            Some(Some(record)) => match json_of_avro(record) {
                Some(json) => Reading::Value(json),
                None => Reading::Fails(AvroStage::ConvertFromAvro),
            },
        },
    }
}

/// Whether `r` is what reading the first record of an Avro container as a
/// JSON value comes to.
pub open spec fn avro_decoded(data: Seq<u8>, r: Result<serde_json::Value, AgsiError>) -> bool {
    match reading_of(data) {
        Reading::Value(json) => r == Ok::<serde_json::Value, AgsiError>(json)
            && begins_container(data),
        Reading::NoRecord => r matches Err(e) && (e matches AgsiError::Deserialization(m) && m@
            == no_record_refusal()),
        Reading::Fails(stage) => r matches Err(e) && is_avro_failure_at(stage, e),
    }
}

/// Writes a value as the only record of an Avro container of the schema
/// that `schema_text` declares.
fn serialize_avro(value: &serde_json::Value, schema_text: &str) -> (r: Result<Vec<u8>, AgsiError>)
    ensures
        avro_encoded(*value, schema_text@, r),
        r matches Err(e) ==> is_avro_encode_failure(e),
{
    let schema = match parse_schema(schema_text) {
        Ok(schema) => schema,
        Err(cause) => {
            return Err(avro_failure(AvroStage::ParseSchema, &cause));
        },
    };
    let record = match json_to_avro(value) {
        Ok(record) => record,
        Err(cause) => {
            return Err(avro_failure(AvroStage::ConvertToAvro, &cause));
        },
    };
    let mut writer = match new_writer(&schema) {
        Ok(writer) => writer,
        Err(cause) => {
            return Err(avro_failure(AvroStage::Write, &cause));
        },
    };
    let ghost fresh = writer;
    match append_record(&mut writer, record) {
        Ok(_) => {},
        Err(cause) => {
            return Err(avro_failure(AvroStage::Write, &cause));
        },
    }
    let ghost full = writer;
    proof {
        assert(written(fresh).push(record) =~= seq![record]);
        assert(holds_only(full, schema, record));
    }
    match finish_writer(writer) {
        Ok(bytes) => {
            assert(container_bytes(full) == Some(bytes@));
            Ok(bytes)
        },
        Err(cause) => {
            assert(container_bytes(full).is_none());
            Err(avro_failure(AvroStage::Finalize, &cause))
        },
    }
}

/// Reads the first record of an Avro container as a JSON value.
fn deserialize_avro(data: &[u8]) -> (r: Result<serde_json::Value, AgsiError>)
    ensures
        avro_decoded(data@, r),
        r matches Err(e) ==> is_avro_decode_failure(e),
{
    let mut reader = match open_reader(data) {
        Ok(reader) => reader,
        Err(cause) => {
            return Err(avro_failure(AvroStage::Read, &cause));
        },
    };
    let next = next_record(&mut reader);
    let ghost witness = next;
    let record = match first_record(next) {
        Ok(record) => record,
        Err(e) => {
            proof {
                if let Some(Err(cause)) = witness {
                    assert(AvroStage::Decode.is_failure(avro_error_text(cause), e));
                }
            }
            return Err(e);
        },
    };
    match avro_to_json(&record) {
        Ok(json) => Ok(json),
        Err(cause) => Err(avro_failure(AvroStage::ConvertFromAvro, &cause)),
    }
}

/// Writes a document, given as its generic structured value, in the named
/// format. `avro_schema` is the JSON text of the Avro schema to write
/// against; the other formats do not look at it.
///
/// JSON comes out as `serde_json` produces it, pretty-printed or compact.
/// An Avro container holds the value as its only record, written under the
/// schema that the text declares; `avro_encoded` says when each of its
/// steps fails. Protocol Buffers always fails.
pub fn serialize(value: &serde_json::Value, format: Format, avro_schema: &str) -> (r: Result<
    Vec<u8>,
    AgsiError,
>)
    ensures
        match format {
            Format::Json => match r {
                Ok(bytes) => pretty_json(*value) == Some(bytes@),
                Err(e) => pretty_json(*value).is_none() && e is Json,
            },
            Format::JsonCompact => match r {
                Ok(bytes) => compact_json(*value) == Some(bytes@),
                Err(e) => compact_json(*value).is_none() && e is Json,
            },
            Format::Avro => avro_encoded(*value, avro_schema@, r) && (r matches Err(e)
                ==> is_avro_encode_failure(e)),
            Format::Protobuf => r matches Err(e) && (e matches AgsiError::Serialization(m) && m@
                == protobuf_encode_refusal()),
        },
{
    match format {
        Format::Json => match to_pretty_json(value) {
            Ok(bytes) => Ok(bytes),
            Err(e) => Err(AgsiError::Json(e)),
        },
        Format::JsonCompact => match to_compact_json(value) {
            Ok(bytes) => Ok(bytes),
            Err(e) => Err(AgsiError::Json(e)),
        },
        Format::Avro => serialize_avro(value, avro_schema),
        Format::Protobuf => Err(
            AgsiError::Serialization(
                String::from_str(
                    "Protobuf serialization requires code generation from .proto files. Run: protoc --rust_out=. schemas/agsi.proto",
                ),
            ),
        ),
    }
}

/// Reads the generic structured value of a document from bytes in the named
/// format.
///
/// Both JSON formats read any well-formed JSON text. An Avro container
/// gives its first record; one without a record is an error, and so are
/// bytes that do not open as a container; `avro_decoded` says which error
/// comes when. Protocol Buffers always fails.
pub fn deserialize(data: &[u8], format: Format) -> (r: Result<serde_json::Value, AgsiError>)
    ensures
        match format {
            Format::Json | Format::JsonCompact => match r {
                Ok(value) => parsed_json(data@) == Some(value),
                Err(e) => parsed_json(data@).is_none() && e is Json,
            },
            Format::Avro => avro_decoded(data@, r) && (r matches Err(e)
                ==> is_avro_decode_failure(e)),
            Format::Protobuf => r matches Err(e) && (e matches AgsiError::Deserialization(m)
                && m@ == protobuf_decode_refusal()),
        },
{
    match format {
        Format::Json | Format::JsonCompact => match parse_json(data) {
            Ok(value) => Ok(value),
            Err(e) => Err(AgsiError::Json(e)),
        },
        Format::Avro => deserialize_avro(data),
        Format::Protobuf => Err(
            AgsiError::Deserialization(
                String::from_str(
                    "Protobuf deserialization requires generated code from .proto files",
                ),
            ),
        ),
    }
}

} // verus!
