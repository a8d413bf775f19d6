//! The error type shared by every fallible operation of the library.

use vstd::prelude::*;
use vstd::string::*;
use crate::json::{json_error_message, json_error_text};

verus! {

/// What can go wrong when working with ground-model documents.
#[derive(Debug)]
pub enum AgsiError {
    /// A document could not be encoded.
    Serialization(String),
    /// Bytes could not be decoded into a document.
    Deserialization(String),
    /// A document broke a structural or referential rule.
    Validation(String),
    /// A geometry could not be built or has no canonical text form.
    Geometry(String),
    /// Reading or writing a file failed; holds the message of the failure.
    Io(String),
    /// JSON text could not be produced or parsed.
    Json(serde_json::Error),
    /// A document declares another schema revision than was asked for.
    InvalidSchemaVersion { expected: String, found: String },
    /// A required field is absent.
    MissingField(String),
    /// A material property is malformed.
    InvalidProperty(String),
    /// No model has the given identifier.
    ModelNotFound(String),
    /// No material has the given identifier.
    MaterialNotFound(String),
}

impl AgsiError {
    /// The message the error displays: what kind of failure it is, then its
    /// detail.
    pub open spec fn text(self) -> Seq<char> {
        match self {
            AgsiError::Serialization(m) => "Serialization error: "@ + m@,
            AgsiError::Deserialization(m) => "Deserialization error: "@ + m@,
            AgsiError::Validation(m) => "Validation error: "@ + m@,
            AgsiError::Geometry(m) => "Geometry error: "@ + m@,
            AgsiError::Io(m) => "IO error: "@ + m@,
            AgsiError::Json(e) => "JSON error: "@ + json_error_text(e),
            AgsiError::InvalidSchemaVersion { expected, found } => "Invalid schema version: expected "@
                + expected@ + ", found "@ + found@,
            AgsiError::MissingField(m) => "Missing required field: "@ + m@,
            AgsiError::InvalidProperty(m) => "Invalid material property: "@ + m@,
            AgsiError::ModelNotFound(m) => "Model not found: "@ + m@,
            AgsiError::MaterialNotFound(m) => "Material not found: "@ + m@,
        }
    }

    /// Renders the error for display.
    pub fn to_string(&self) -> (s: String)
        ensures
            s@ == self.text(),
    {
        match self {
            AgsiError::Serialization(m) => String::from_str("Serialization error: ").concat(m.as_str()),
            AgsiError::Deserialization(m) => String::from_str("Deserialization error: ").concat(
                m.as_str(),
            ),
            AgsiError::Validation(m) => String::from_str("Validation error: ").concat(m.as_str()),
            AgsiError::Geometry(m) => String::from_str("Geometry error: ").concat(m.as_str()),
            AgsiError::Io(m) => String::from_str("IO error: ").concat(m.as_str()),
            AgsiError::Json(e) => {
                let detail = json_error_message(e);
                String::from_str("JSON error: ").concat(detail.as_str())
            },
            AgsiError::InvalidSchemaVersion { expected, found } => String::from_str(
                "Invalid schema version: expected ",
            ).concat(expected.as_str()).concat(", found ").concat(found.as_str()),
            AgsiError::MissingField(m) => String::from_str("Missing required field: ").concat(
                m.as_str(),
            ),
            AgsiError::InvalidProperty(m) => String::from_str("Invalid material property: ").concat(
                m.as_str(),
            ),
            AgsiError::ModelNotFound(m) => String::from_str("Model not found: ").concat(m.as_str()),
            AgsiError::MaterialNotFound(m) => String::from_str("Material not found: ").concat(
                m.as_str(),
            ),
        }
    }
}

} // verus!
