//! The boundary to `apache_avro`: the types of that crate which pass through
//! the library, and the calls the library makes into it.
//!
//! What a call answers is given a name where it follows from what the call
//! is given: the schema that a text declares, the Avro value of a JSON value
//! and the other way round, what opening bytes as a container gives, what a
//! reader yields next, and the bytes that finishing a writer gives. The
//! names stand for the answers under the settings of the Avro crate that
//! hold in the running program; the library changes none of them.
//!
//! A new writer draws a sync marker of random bytes, and appending a map
//! walks a hash map, so the writer that these two calls leave is not named.
//! Of it only the schema and the records that it was given are told.

use vstd::prelude::*;

verus! {

/// `apache_avro::Schema`, carried through as an opaque value.
#[verifier::external_type_specification]
#[verifier::external_body]
pub struct ExAvroSchema(apache_avro::Schema);

/// `apache_avro::types::Value`, carried through as an opaque value.
#[verifier::external_type_specification]
#[verifier::external_body]
pub struct ExAvroValue(apache_avro::types::Value);

/// `apache_avro::Error`, carried through as an opaque value.
#[verifier::external_type_specification]
#[verifier::external_body]
pub struct ExAvroError(apache_avro::Error);

/// An `apache_avro::Writer` that writes a container into a byte vector. The
/// library hands it from one call to the next and never looks inside.
#[verifier::external_body]
pub struct ContainerWriter<'a> {
    inner: apache_avro::Writer<'a, Vec<u8>>,
}

/// `apache_avro::Reader`, carried through as an opaque value.
#[verifier::external_type_specification]
#[verifier::external_body]
#[verifier::reject_recursive_types(R)]
pub struct ExAvroReader<'a, R>(apache_avro::Reader<'a, R>);

/// The four bytes that every Avro object container begins with: the letters
/// `Obj` and the revision 1 of the format.
pub open spec fn container_marker() -> Seq<u8> {
    seq![79u8, 98u8, 106u8, 1u8]
}

/// Whether bytes begin as an Avro object container does.
pub open spec fn begins_container(bytes: Seq<u8>) -> bool {
    bytes.len() >= 4 && bytes.subrange(0, 4) == container_marker()
}

/// The text that `apache_avro::Error` displays for an error.
pub uninterp spec fn avro_error_text(e: apache_avro::Error) -> Seq<char>;

/// Calls `to_string` on an `apache_avro::Error`, which goes through its
/// `Display` impl. The contract only names that text.
#[verifier::external_body]
pub(crate) fn avro_error_message(e: &apache_avro::Error) -> (text: String)
    ensures
        text@ == avro_error_text(*e),
{
    e.to_string()
}

/// The schema that a JSON text declares, where it declares one.
pub uninterp spec fn schema_of(text: Seq<char>) -> Option<apache_avro::Schema>;

/// The Avro value that a JSON value serializes to, where it has one.
pub uninterp spec fn avro_of_json(json: serde_json::Value) -> Option<apache_avro::types::Value>;

/// The JSON value that an Avro value deserializes to, where it has one.
pub uninterp spec fn json_of_avro(record: apache_avro::types::Value) -> Option<serde_json::Value>;

/// The schema that a writer writes under.
pub uninterp spec fn writer_schema(writer: ContainerWriter<'_>) -> apache_avro::Schema;

/// The records that a writer was given, in the order in which it got them.
pub uninterp spec fn written(writer: ContainerWriter<'_>) -> Seq<apache_avro::types::Value>;

/// The bytes of the container that finishing a writer gives, where it
/// gives one.
pub uninterp spec fn container_bytes(writer: ContainerWriter<'_>) -> Option<Seq<u8>>;

/// The reader that opening bytes as a container gives, where they open.
pub uninterp spec fn opened(bytes: Seq<u8>) -> Option<apache_avro::Reader<'static, &'static [u8]>>;

/// What a reader yields next: nothing where no record is left, a record, or
/// no record where reading one fails.
pub uninterp spec fn next_of(reader: apache_avro::Reader<'_, &[u8]>) -> Option<
    Option<apache_avro::types::Value>,
>;

/// Calls `Schema::parse_str`: the schema that a JSON text declares, or why
/// the text declares none. The contract names the schema.
#[verifier::external_body]
pub(crate) fn parse_schema(text: &str) -> (r: Result<apache_avro::Schema, apache_avro::Error>)
    ensures
        match r {
            Ok(schema) => schema_of(text@) == Some(schema),
            Err(_) => schema_of(text@).is_none(),
        },
{
    apache_avro::Schema::parse_str(text)
}

/// Calls `apache_avro::to_value` on a JSON value: the Avro value that the
/// JSON value serializes to, or why it has none. The contract names the
/// value.
#[verifier::external_body]
pub(crate) fn json_to_avro(json: &serde_json::Value) -> (r: Result<
    apache_avro::types::Value,
    apache_avro::Error,
>)
    ensures
        match r {
            Ok(record) => avro_of_json(*json) == Some(record),
            Err(_) => avro_of_json(*json).is_none(),
        },
{
    apache_avro::to_value(json)
}

/// Calls `apache_avro::from_value` for a `serde_json::Value`: the JSON value
/// that an Avro value deserializes to, or why it has none. The contract
/// names the value.
#[verifier::external_body]
pub(crate) fn avro_to_json(record: &apache_avro::types::Value) -> (r: Result<
    serde_json::Value,
    apache_avro::Error,
>)
    ensures
        match r {
            Ok(json) => json_of_avro(*record) == Some(json),
            Err(_) => json_of_avro(*record).is_none(),
        },
{
    apache_avro::from_value::<serde_json::Value>(record)
}

/// Calls `Writer::new` with an empty byte vector to write to: a writer of
/// containers of the given schema, uncompressed, that was given no record
/// yet. Which sync marker it drew is not told, nor when the call fails.
#[verifier::external_body]
pub(crate) fn new_writer<'a>(schema: &'a apache_avro::Schema) -> (r: Result<
    ContainerWriter<'a>,
    apache_avro::Error,
>)
    ensures
        r matches Ok(writer) ==> writer_schema(writer) == *schema && written(writer).len() == 0,
{
    match apache_avro::Writer::new(schema, Vec::new()) {
        Ok(inner) => Ok(ContainerWriter { inner }),
        Err(e) => Err(e),
    }
}

/// Calls `Writer::append_value`, which checks the value against the schema
/// and buffers it: the number of bytes written so far, or why the value was
/// refused. After a success the writer has this record behind the ones it
/// had; the schema stays. Nothing is told of the writer after a failure.
#[verifier::external_body]
pub(crate) fn append_record(
    writer: &mut ContainerWriter<'_>,
    record: apache_avro::types::Value,
) -> (r: Result<usize, apache_avro::Error>)
    ensures
        r.is_ok() ==> writer_schema(*final(writer)) == writer_schema(*old(writer)) && written(
            *final(writer),
        ) == written(*old(writer)).push(record),
{
    writer.inner.append_value(record)
}

/// Calls `Writer::into_inner`, which writes the header where it is not
/// written yet, flushes what is buffered and hands back what was written to:
/// the bytes of the container. The contract names them. A writer of this
/// library starts on an empty vector, and the first thing that the crate
/// writes is the header, which begins with the container marker; so the
/// bytes that come back begin with it.
#[verifier::external_body]
pub(crate) fn finish_writer(writer: ContainerWriter<'_>) -> (r: Result<
    Vec<u8>,
    apache_avro::Error,
>)
    ensures
        match r {
            Ok(bytes) => container_bytes(writer) == Some(bytes@) && begins_container(bytes@),
            Err(_) => container_bytes(writer).is_none(),
        },
{
    writer.inner.into_inner()
}

/// Calls `Reader::new` on a byte slice, which reads the header of the
/// container: a reader of its records, or why the bytes are no container.
/// The contract names the reader. The crate reads the first four bytes and
/// refuses any others than the container marker; so a reader comes back only
/// for bytes that begin with it.
#[verifier::external_body]
pub(crate) fn open_reader<'a>(data: &'a [u8]) -> (r: Result<
    apache_avro::Reader<'a, &'a [u8]>,
    apache_avro::Error,
>)
    ensures
        match r {
            Ok(reader) => opened(data@) == Some(reader) && begins_container(data@),
            Err(_) => opened(data@).is_none(),
        },
{
    apache_avro::Reader::new(data)
}

/// Calls `next` on a `Reader`: the next record of the container, why it
/// could not be read, or nothing where the container has no further record.
/// The contract names which of the three it is, and the record.
#[verifier::external_body]
pub(crate) fn next_record(reader: &mut apache_avro::Reader<'_, &[u8]>) -> (r: Option<
    Result<apache_avro::types::Value, apache_avro::Error>,
>)
    ensures
        match r {
            None => next_of(*old(reader)).is_none(),
            Some(Ok(record)) => next_of(*old(reader)) == Some(Some(record)),
            Some(Err(_)) => next_of(*old(reader)) == Some(None::<apache_avro::types::Value>),
        },
{
    reader.next()
}

} // verus!
