//! The document as the interchange schema lays it out: a root with schema
//! and file information, models, model elements and their parameter and
//! property values. Most fields are optional texts that the library carries
//! without interpreting them.

use vstd::prelude::*;
use vstd::string::*;
use crate::material::holds_text;
use crate::parameter_code::AgsiParameterCode;
use crate::scalar::Scalar;

verus! {

/// The name of the schema.
pub const SCHEMA_NAME: &'static str = "AGSi";

/// The revision of the schema.
pub const SCHEMA_VERSION: &'static str = "1.0.1";

/// Where the schema is published.
pub const SCHEMA_LINK: &'static str =
    "https://ags-data-format-wg.gitlab.io/agsi/agsi_standard/1.0.1/";

/// Which schema a document follows.
#[derive(Debug, Clone)]
pub struct AgsSchema {
    pub name: String,
    pub version: String,
    pub link: Option<String>,
}

/// What is known about the file and the project it was made for.
#[derive(Debug, Clone)]
pub struct AgsFile {
    pub file_uuid: Option<String>,
    pub title: Option<String>,
    pub project_name: String,
    pub project_title: Option<String>,
    pub description: Option<String>,
    pub project_country: Option<String>,
    pub producer_project_id: Option<String>,
    pub client_project_id: Option<String>,
    pub remarks: Option<String>,
}

/// The projects above the one that the file was made for.
#[derive(Debug, Clone)]
pub struct AgsProject {
    pub parent_project_name: Option<String>,
    pub ultimate_project_name: Option<String>,
    pub ultimate_project_client: Option<String>,
}

/// The region that a model covers.
#[derive(Debug, Clone)]
pub struct AgsiModelBoundary {
    pub boundary_id: Option<String>,
    pub description: Option<String>,
    pub min_x: Option<Scalar>,
    pub max_x: Option<Scalar>,
    pub min_y: Option<Scalar>,
    pub max_y: Option<Scalar>,
    pub top_elevation: Option<Scalar>,
    pub bottom_elevation: Option<Scalar>,
    pub remarks: Option<String>,
}

/// The value of a parameter of a model element: a number, a text, or a
/// profile of pairs.
#[derive(Debug, Clone)]
pub struct AgsiDataParameterValue {
    pub data_id: Option<String>,
    /// Parameter code: a standard code or free text.
    pub code_id: String,
    pub case_id: Option<String>,
    pub value_numeric: Option<Scalar>,
    pub value_text: Option<String>,
    pub value_profile_ind_var_code_id: Option<String>,
    pub value_profile: Option<Vec<[Scalar; 2]>>,
    pub remarks: Option<String>,
}

/// A single measured property of a model element.
#[derive(Debug, Clone)]
pub struct AgsiDataPropertyValue {
    pub data_id: Option<String>,
    pub code_id: String,
    pub case_id: Option<String>,
    pub value_numeric: Option<Scalar>,
    pub value_text: Option<String>,
    pub remarks: Option<String>,
}

/// A summary of the measurements of one property of a model element.
#[derive(Debug, Clone)]
pub struct AgsiDataPropertySummary {
    pub data_id: Option<String>,
    pub code_id: String,
    pub case_id: Option<String>,
    pub value_min: Option<Scalar>,
    pub value_max: Option<Scalar>,
    pub value_mean: Option<Scalar>,
    pub remarks: Option<String>,
}

/// A material or geological unit of a model.
#[derive(Debug, Clone)]
pub struct AgsiModelElement {
    pub element_id: Option<String>,
    pub element_name: Option<String>,
    pub description: Option<String>,
    pub element_type: Option<String>,
    pub geometry_object: Option<String>,
    /// Geometry, in whatever form the producer wrote it.
    pub agsi_geometry: Option<serde_json::Value>,
    pub agsi_geometry_area_limit: Option<serde_json::Value>,
    pub agsi_data_parameter_value: Vec<AgsiDataParameterValue>,
    pub agsi_data_property_value: Vec<AgsiDataPropertyValue>,
    pub agsi_data_property_summary: Vec<AgsiDataPropertySummary>,
    pub agsi_data_property_from_file: Option<serde_json::Value>,
    pub colour_rgb: Option<String>,
    pub remarks: Option<String>,
}

/// A ground model.
#[derive(Debug, Clone)]
pub struct AgsiModel {
    pub model_id: Option<String>,
    pub model_name: Option<String>,
    pub description: Option<String>,
    pub coord_system_id: Option<String>,
    pub model_type: Option<String>,
    pub category: Option<String>,
    pub domain: Option<String>,
    pub input: Option<String>,
    pub method: Option<String>,
    pub usage: Option<String>,
    pub uncertainty: Option<String>,
    pub document_set_id: Option<String>,
    pub alignment_id: Option<String>,
    pub agsi_model_element: Vec<AgsiModelElement>,
    pub agsi_model_boundary: Option<AgsiModelBoundary>,
    pub remarks: Option<String>,
}

/// The root of a document.
#[derive(Debug, Clone)]
pub struct AgsiRoot {
    pub ags_schema: AgsSchema,
    pub ags_file: AgsFile,
    pub ags_project: Option<AgsProject>,
    pub agsi_model: Vec<AgsiModel>,
}

impl AgsiRoot {
    /// Whether the root is a fresh one for the project `project_name`: it
    /// names the schema, its revision and its link, and holds the project
    /// name and nothing else.
    pub open spec fn fresh(self, project_name: Seq<char>) -> bool {
        &&& self.ags_schema.name@ == SCHEMA_NAME@
        &&& self.ags_schema.version@ == SCHEMA_VERSION@
        &&& holds_text(self.ags_schema.link, SCHEMA_LINK@)
        &&& self.ags_file.file_uuid.is_none()
        &&& self.ags_file.title.is_none()
        &&& self.ags_file.project_name@ == project_name
        &&& self.ags_file.project_title.is_none()
        &&& self.ags_file.description.is_none()
        &&& self.ags_file.project_country.is_none()
        &&& self.ags_file.producer_project_id.is_none()
        &&& self.ags_file.client_project_id.is_none()
        &&& self.ags_file.remarks.is_none()
        &&& self.ags_project.is_none()
        &&& self.agsi_model@.len() == 0
    }

    /// A fresh root for the project `project_name`.
    pub fn new(project_name: &str) -> (root: AgsiRoot)
        ensures
            root.fresh(project_name@),
    {
        AgsiRoot {
            ags_schema: AgsSchema {
                name: String::from_str(SCHEMA_NAME),
                version: String::from_str(SCHEMA_VERSION),
                link: Some(String::from_str(SCHEMA_LINK)),
            },
            ags_file: AgsFile {
                file_uuid: None,
                title: None,
                project_name: String::from_str(project_name),
                project_title: None,
                description: None,
                project_country: None,
                producer_project_id: None,
                client_project_id: None,
                remarks: None,
            },
            ags_project: None,
            agsi_model: Vec::new(),
        }
    }

    /// Adds a model at the end.
    pub fn add_model(&mut self, model: AgsiModel)
        ensures
            final(self).agsi_model@ == old(self).agsi_model@.push(model),
            *final(self) == (AgsiRoot { agsi_model: final(self).agsi_model, ..*old(self) }),
    {
        self.agsi_model.push(model);
    }
}

impl AgsiModel {
    /// Whether no field of the model is set and it has no element.
    pub open spec fn blank(self) -> bool {
        &&& self.model_id.is_none()
        &&& self.model_name.is_none()
        &&& self.description.is_none()
        &&& self.coord_system_id.is_none()
        &&& self.model_type.is_none()
        &&& self.category.is_none()
        &&& self.domain.is_none()
        &&& self.input.is_none()
        &&& self.method.is_none()
        &&& self.usage.is_none()
        &&& self.uncertainty.is_none()
        &&& self.document_set_id.is_none()
        &&& self.alignment_id.is_none()
        &&& self.agsi_model_element@.len() == 0
        &&& self.agsi_model_boundary.is_none()
        &&& self.remarks.is_none()
    }

    /// A model with no field set.
    pub fn new() -> (model: AgsiModel)
        ensures
            model.blank(),
    {
        AgsiModel {
            model_id: None,
            model_name: None,
            description: None,
            coord_system_id: None,
            model_type: None,
            category: None,
            domain: None,
            input: None,
            method: None,
            usage: None,
            uncertainty: None,
            document_set_id: None,
            alignment_id: None,
            agsi_model_element: Vec::new(),
            agsi_model_boundary: None,
            remarks: None,
        }
    }

    /// Adds an element at the end.
    pub fn add_element(&mut self, element: AgsiModelElement)
        ensures
            final(self).agsi_model_element@ == old(self).agsi_model_element@.push(element),
            *final(self) == (AgsiModel {
                agsi_model_element: final(self).agsi_model_element,
                ..*old(self)
            }),
    {
        self.agsi_model_element.push(element);
    }
}

impl AgsiModelElement {
    /// Whether no field of the element is set and it has no parameter or
    /// property.
    pub open spec fn blank(self) -> bool {
        &&& self.element_id.is_none()
        &&& self.element_name.is_none()
        &&& self.description.is_none()
        &&& self.element_type.is_none()
        &&& self.geometry_object.is_none()
        &&& self.agsi_geometry.is_none()
        &&& self.agsi_geometry_area_limit.is_none()
        &&& self.agsi_data_parameter_value@.len() == 0
        &&& self.agsi_data_property_value@.len() == 0
        &&& self.agsi_data_property_summary@.len() == 0
        &&& self.agsi_data_property_from_file.is_none()
        &&& self.colour_rgb.is_none()
        &&& self.remarks.is_none()
    }

    /// An element with no field set.
    pub fn new() -> (element: AgsiModelElement)
        ensures
            element.blank(),
    {
        AgsiModelElement {
            element_id: None,
            element_name: None,
            description: None,
            element_type: None,
            geometry_object: None,
            agsi_geometry: None,
            agsi_geometry_area_limit: None,
            agsi_data_parameter_value: Vec::new(),
            agsi_data_property_value: Vec::new(),
            agsi_data_property_summary: Vec::new(),
            agsi_data_property_from_file: None,
            colour_rgb: None,
            remarks: None,
        }
    }

    /// The same element with its name set.
    pub fn with_name(self, name: &str) -> (element: AgsiModelElement)
        ensures
            holds_text(element.element_name, name@),
            element == (AgsiModelElement { element_name: element.element_name, ..self }),
    {
        let mut element = self;
        element.element_name = Some(String::from_str(name));
        element
    }

    /// The same element with its description set.
    pub fn with_description(self, description: &str) -> (element: AgsiModelElement)
        ensures
            holds_text(element.description, description@),
            element == (AgsiModelElement { description: element.description, ..self }),
    {
        let mut element = self;
        element.description = Some(String::from_str(description));
        element
    }

    /// Adds a parameter value at the end.
    pub fn add_parameter(&mut self, parameter: AgsiDataParameterValue)
        ensures
            final(self).agsi_data_parameter_value@ == old(self).agsi_data_parameter_value@.push(
                parameter,
            ),
            *final(self) == (AgsiModelElement {
                agsi_data_parameter_value: final(self).agsi_data_parameter_value,
                ..*old(self)
            }),
    {
        self.agsi_data_parameter_value.push(parameter);
    }

    /// The same element with one more parameter value at the end.
    pub fn with_parameter(self, parameter: AgsiDataParameterValue) -> (element: AgsiModelElement)
        ensures
            element.agsi_data_parameter_value@ == self.agsi_data_parameter_value@.push(parameter),
            element == (AgsiModelElement {
                agsi_data_parameter_value: element.agsi_data_parameter_value,
                ..self
            }),
    {
        let mut element = self;
        element.agsi_data_parameter_value.push(parameter);
        element
    }
}

impl AgsiDataParameterValue {
    /// Whether the value is written under `code_id` and holds nothing but
    /// the given number or text.
    pub open spec fn plain(
        self,
        code_id: Seq<char>,
        number: Option<Scalar>,
        text: Option<Seq<char>>,
    ) -> bool {
        &&& self.data_id.is_none()
        &&& self.code_id@ == code_id
        &&& self.case_id.is_none()
        &&& self.value_numeric == number
        &&& match text {
            Some(t) => holds_text(self.value_text, t),
            None => self.value_text.is_none(),
        }
        &&& self.value_profile_ind_var_code_id.is_none()
        &&& self.value_profile.is_none()
        &&& self.remarks.is_none()
    }

    /// A parameter with a numeric value.
    pub fn numeric(code_id: &str, value: Scalar) -> (p: AgsiDataParameterValue)
        ensures
            p.plain(code_id@, Some(value), None),
    {
        AgsiDataParameterValue {
            data_id: None,
            code_id: String::from_str(code_id),
            case_id: None,
            value_numeric: Some(value),
            value_text: None,
            value_profile_ind_var_code_id: None,
            value_profile: None,
            remarks: None,
        }
    }

    /// A parameter with a text value.
    pub fn text(code_id: &str, value: &str) -> (p: AgsiDataParameterValue)
        ensures
            p.plain(code_id@, None, Some(value@)),
    {
        AgsiDataParameterValue {
            data_id: None,
            code_id: String::from_str(code_id),
            case_id: None,
            value_numeric: None,
            value_text: Some(String::from_str(value)),
            value_profile_ind_var_code_id: None,
            value_profile: None,
            remarks: None,
        }
    }

    /// A numeric parameter written under the identifier of a standard code.
    pub fn from_standard_code(code: AgsiParameterCode, value: Scalar) -> (p:
        AgsiDataParameterValue)
        ensures
            p.plain(code.code_id(), Some(value), None),
    {
        AgsiDataParameterValue::numeric(code.as_code_id(), value)
    }

    /// The same parameter with its case set.
    pub fn with_case(self, case_id: &str) -> (p: AgsiDataParameterValue)
        ensures
            holds_text(p.case_id, case_id@),
            p == (AgsiDataParameterValue { case_id: p.case_id, ..self }),
    {
        let mut p = self;
        p.case_id = Some(String::from_str(case_id));
        p
    }
}

} // verus!
