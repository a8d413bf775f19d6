//! One-line descriptions of documents, materials and validation reports, and
//! the plain-text lists of a report, for hosts that show them as text.

use vstd::prelude::*;
use vstd::string::*;
use crate::document::Document;
use crate::material::{Material, MaterialType};
use crate::text::{decimal, push_decimal, str_eq, texts_of};
use crate::validation::{ValidationError, ValidationResult, ValidationWarning};

verus! {

/// A path and a message on one line, with a colon between them.
pub open spec fn entry_text(path: Seq<char>, message: Seq<char>) -> Seq<char> {
    path + ": "@ + message
}

/// The lines of the errors of a report.
pub open spec fn error_entries(errors: Seq<ValidationError>) -> Seq<Seq<char>> {
    Seq::new(errors.len(), |i: int| entry_text(errors[i].path@, errors[i].message@))
}

/// The lines of the warnings of a report.
pub open spec fn warning_entries(warnings: Seq<ValidationWarning>) -> Seq<Seq<char>> {
    Seq::new(warnings.len(), |i: int| entry_text(warnings[i].path@, warnings[i].message@))
}

/// The description of a document: its file identifier and the number of its
/// models.
pub open spec fn document_text(doc: Document) -> Seq<char> {
    "Document(file_id='"@ + doc.ags_file.file_id@ + "', models="@ + decimal(
        doc.agsi_model@.len(),
    ) + ")"@
}

/// The description of a material: identifier, name and kind.
pub open spec fn material_text(material: Material) -> Seq<char> {
    "Material(id='"@ + material.id@ + "', name='"@ + material.name@ + "', type='"@
        + material.material_type.label() + "')"@
}

/// The description of a report: the verdict, the number of errors where it
/// is not valid, and the number of warnings.
pub open spec fn result_text(result: ValidationResult) -> Seq<char> {
    if result.is_valid {
        "ValidationResult(valid=True, warnings="@ + decimal(result.warnings@.len()) + ")"@
    } else {
        "ValidationResult(valid=False, errors="@ + decimal(result.errors@.len()) + ", warnings="@
            + decimal(result.warnings@.len()) + ")"@
    }
}

impl MaterialType {
    /// The kind that a name stands for on the wire, in upper case. A name
    /// that stands for none is taken as the unknown kind.
    pub open spec fn of_wire_name(name: Seq<char>) -> MaterialType {
        if name == "SOIL"@ {
            MaterialType::Soil
        } else if name == "ROCK"@ {
            MaterialType::Rock
        } else if name == "FILL"@ {
            MaterialType::Fill
        } else if name == "MADE_GROUND"@ {
            MaterialType::MadeGround
        } else if name == "ANTHROPOGENIC"@ {
            MaterialType::Anthropogenic
        } else if name == "WATER"@ {
            MaterialType::Water
        } else if name == "VOID"@ {
            MaterialType::Void
        } else {
            MaterialType::Unknown
        }
    }

    /// The kind that a name stands for on the wire, in upper case.
    pub fn from_wire_name(name: &str) -> (kind: MaterialType)
        ensures
            kind == MaterialType::of_wire_name(name@),
    {
        if str_eq(name, "SOIL") {
            MaterialType::Soil
        } else if str_eq(name, "ROCK") {
            MaterialType::Rock
        } else if str_eq(name, "FILL") {
            MaterialType::Fill
        } else if str_eq(name, "MADE_GROUND") {
            MaterialType::MadeGround
        } else if str_eq(name, "ANTHROPOGENIC") {
            MaterialType::Anthropogenic
        } else if str_eq(name, "WATER") {
            MaterialType::Water
        } else if str_eq(name, "VOID") {
            MaterialType::Void
        } else {
            MaterialType::Unknown
        }
    }
}

/// Describes a document on one line.
pub fn describe_document(doc: &Document) -> (text: String)
    ensures
        text@ == document_text(*doc),
{
    let mut text = String::from_str("Document(file_id='");
    text.append(doc.ags_file.file_id.as_str());
    text.append("', models=");
    push_decimal(&mut text, doc.agsi_model.len());
    text.append(")");
    text
}

/// Describes a material on one line.
pub fn describe_material(material: &Material) -> (text: String)
    ensures
        text@ == material_text(*material),
{
    let mut text = String::from_str("Material(id='");
    text.append(material.id.as_str());
    text.append("', name='");
    text.append(material.name.as_str());
    text.append("', type='");
    text.append(material.material_type.name());
    text.append("')");
    text
}

/// Describes a validation report on one line.
pub fn describe_result(result: &ValidationResult) -> (text: String)
    ensures
        text@ == result_text(*result),
{
    if result.is_valid {
        let mut text = String::from_str("ValidationResult(valid=True, warnings=");
        push_decimal(&mut text, result.warnings.len());
        text.append(")");
        text
    } else {
        let mut text = String::from_str("ValidationResult(valid=False, errors=");
        push_decimal(&mut text, result.errors.len());
        text.append(", warnings=");
        push_decimal(&mut text, result.warnings.len());
        text.append(")");
        text
    }
}

fn entry(path: &String, message: &String) -> (text: String)
    ensures
        text@ == entry_text(path@, message@),
{
    let mut text = path.clone();
    text.append(": ");
    text.append(message.as_str());
    text
}

/// The errors of a report as lines of text, in order.
pub fn error_texts(result: &ValidationResult) -> (lines: Vec<String>)
    ensures
        texts_of(lines@) == error_entries(result.errors@),
{
    let mut lines: Vec<String> = Vec::new();
    let mut i: usize = 0;
    while i < result.errors.len()
        invariant
            i <= result.errors@.len(),
            lines@.len() == i,
            forall|k: int|
                0 <= k < i ==> (#[trigger] lines@[k])@ == entry_text(
                    result.errors@[k].path@,
                    result.errors@[k].message@,
                ),
        decreases result.errors@.len() - i,
    {
        lines.push(entry(&result.errors[i].path, &result.errors[i].message));
        i += 1;
    }
    proof {
        assert(texts_of(lines@) =~= error_entries(result.errors@));
    }
    lines
}

/// The warnings of a report as lines of text, in order.
pub fn warning_texts(result: &ValidationResult) -> (lines: Vec<String>)
    ensures
        texts_of(lines@) == warning_entries(result.warnings@),
{
    let mut lines: Vec<String> = Vec::new();
    let mut i: usize = 0;
    while i < result.warnings.len()
        invariant
            i <= result.warnings@.len(),
            lines@.len() == i,
            forall|k: int|
                0 <= k < i ==> (#[trigger] lines@[k])@ == entry_text(
                    result.warnings@[k].path@,
                    result.warnings@[k].message@,
                ),
        decreases result.warnings@.len() - i,
    {
        lines.push(entry(&result.warnings[i].path, &result.warnings[i].message));
        i += 1;
    }
    proof {
        assert(texts_of(lines@) =~= warning_entries(result.warnings@));
    }
    lines
}

} // verus!
