//! Data structures, validation and wire formats for ground-model documents.

use vstd::prelude::*;

pub mod agsi_model;
pub mod avro;
pub mod diff;
pub mod document;
pub mod editor;
pub mod error;
pub mod form;
pub mod geometry;
pub mod json;
pub mod lookup;
pub mod material;
pub mod metadata;
pub mod model;
pub mod parameter_code;
pub mod project;
pub mod protocol;
pub mod query;
pub mod scalar;
pub mod serialization;
pub mod summary;
pub mod text;
pub mod validation;
pub mod validity;

pub use agsi_model::{
    AgsFile, AgsProject, AgsSchema, AgsiDataParameterValue, AgsiDataPropertySummary,
    AgsiDataPropertyValue, AgsiModel, AgsiModelBoundary, AgsiModelElement, AgsiRoot,
};
pub use document::Document;
pub use error::AgsiError;
pub use material::{Material, MaterialProperty};
pub use model::{GroundModel, ModelComponent};
pub use parameter_code::AgsiParameterCode;
pub use scalar::Scalar;

verus! {

/// Schema revision that documents created by this library declare.
pub const AGSI_VERSION: &'static str = "1.0.1";

} // verus!
