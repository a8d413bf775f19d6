//! The validation engine: structural and referential checks of a document.
//!
//! A run looks at the whole document and changes nothing. It first checks
//! that required texts are not empty, then compares the declared schema
//! revision with the one of this library, then goes through the models in
//! document order: a model identifier that another model shares, components
//! whose material is not in the model, material identifiers that another
//! material of the model shares, and an extent whose lower bound lies above
//! its upper bound. A shared identifier is reported at every place where it
//! stands. What the run finds is defined by `expected_errors` and
//! `expected_warnings`.

use vstd::prelude::*;
use vstd::string::*;
use crate::document::Document;
use crate::error::AgsiError;
use crate::lookup::{occurs, shared};
use crate::model::{GroundModel, ModelExtent};
use crate::text::{decimal, push_decimal, str_eq};
use crate::AGSI_VERSION;

verus! {

/// The kind of rule that an error reports as broken.
#[derive(Debug, Clone, Copy, PartialEq, Eq, Structural)]
pub enum ValidationErrorType {
    Schema,
    Required,
    Type,
    Range,
    Format,
    Reference,
}

/// A broken rule: where, what, and of which kind.
#[derive(Debug, Clone)]
pub struct ValidationError {
    pub path: String,
    pub message: String,
    pub error_type: ValidationErrorType,
}

/// Something worth a look that breaks no rule.
#[derive(Debug, Clone)]
pub struct ValidationWarning {
    pub path: String,
    pub message: String,
}

/// What a validation run found.
#[derive(Debug, Clone)]
pub struct ValidationResult {
    pub is_valid: bool,
    pub errors: Vec<ValidationError>,
    pub warnings: Vec<ValidationWarning>,
}

/// An error as plain text and kind.
pub ghost struct Finding {
    pub path: Seq<char>,
    pub message: Seq<char>,
    pub kind: ValidationErrorType,
}

/// A warning as plain text.
pub ghost struct Notice {
    pub path: Seq<char>,
    pub message: Seq<char>,
}

impl View for ValidationError {
    type V = Finding;

    open spec fn view(&self) -> Finding {
        Finding { path: self.path@, message: self.message@, kind: self.error_type }
    }
}

impl View for ValidationWarning {
    type V = Notice;

    open spec fn view(&self) -> Notice {
        Notice { path: self.path@, message: self.message@ }
    }
}

/// The errors of a list as plain findings.
pub open spec fn findings_of(errors: Seq<ValidationError>) -> Seq<Finding> {
    Seq::new(errors.len(), |i: int| errors[i]@)
}

/// The warnings of a list as plain notices.
pub open spec fn notices_of(warnings: Seq<ValidationWarning>) -> Seq<Notice> {
    Seq::new(warnings.len(), |i: int| warnings[i]@)
}

/// One finding if the condition holds, none otherwise.
pub open spec fn when(cond: bool, finding: Finding) -> Seq<Finding> {
    if cond {
        seq![finding]
    } else {
        Seq::<Finding>::empty()
    }
}

/// The path of the model at position `i`.
pub open spec fn model_path(i: nat) -> Seq<char> {
    "agsiModel["@ + decimal(i) + "]"@
}

/// The path of the material at position `k` of the model at position `i`.
pub open spec fn material_path(i: nat, k: nat) -> Seq<char> {
    model_path(i) + ".materials["@ + decimal(k) + "]"@
}

/// The path of the component at position `c` of the model at position `i`.
pub open spec fn component_path(i: nat, c: nat) -> Seq<char> {
    model_path(i) + ".components["@ + decimal(c) + "]"@
}

/// The finding for a required text at `path` that is empty.
pub open spec fn empty_text(path: Seq<char>) -> Finding {
    Finding { path, message: "length must be at least 1"@, kind: ValidationErrorType::Schema }
}

/// The finding for a model identifier that another model shares.
pub open spec fn shared_model_id(i: nat, id: Seq<char>) -> Finding {
    Finding {
        path: model_path(i) + ".id"@,
        message: "Duplicate model ID: "@ + id,
        kind: ValidationErrorType::Reference,
    }
}

/// The finding for a component whose material is not in its model.
pub open spec fn missing_material(i: nat, c: nat, material_id: Seq<char>) -> Finding {
    Finding {
        path: component_path(i, c) + ".materialId"@,
        message: "Material ID '"@ + material_id + "' not found in model"@,
        kind: ValidationErrorType::Reference,
    }
}

/// The finding for a material identifier that another material of the model
/// shares.
pub open spec fn shared_material_id(i: nat, k: nat, id: Seq<char>) -> Finding {
    Finding {
        path: material_path(i, k) + ".id"@,
        message: "Duplicate material ID: "@ + id,
        kind: ValidationErrorType::Reference,
    }
}

/// The finding for an extent whose bounds on one axis are out of order.
pub open spec fn disordered_axis(i: nat, message: Seq<char>) -> Finding {
    Finding { path: model_path(i) + ".extent"@, message, kind: ValidationErrorType::Range }
}

/// The empty required texts among the first `n` materials of a model.
pub open spec fn material_structure(model: GroundModel, i: nat, n: nat) -> Seq<Finding>
    decreases n,
{
    if n == 0 {
        Seq::<Finding>::empty()
    } else {
        let k = (n - 1) as nat;
        let m = model.materials@[k as int];
        material_structure(model, i, k) + when(
            m.id@.len() == 0,
            empty_text(material_path(i, k) + ".id"@),
        ) + when(m.name@.len() == 0, empty_text(material_path(i, k) + ".name"@))
    }
}

/// The empty required texts of the model at position `i` and of its
/// materials.
pub open spec fn one_model_structure(model: GroundModel, i: nat) -> Seq<Finding> {
    when(model.id@.len() == 0, empty_text(model_path(i) + ".id"@)) + when(
        model.name@.len() == 0,
        empty_text(model_path(i) + ".name"@),
    ) + material_structure(model, i, model.materials@.len())
}

/// The empty required texts among the first `n` models.
pub open spec fn model_structure(doc: Document, n: nat) -> Seq<Finding>
    decreases n,
{
    if n == 0 {
        Seq::<Finding>::empty()
    } else {
        let i = (n - 1) as nat;
        model_structure(doc, i) + one_model_structure(doc.agsi_model@[i as int], i)
    }
}

/// What the structural check finds: every required text that is empty, in
/// the document, then model by model with each model's materials.
pub open spec fn structural_findings(doc: Document) -> Seq<Finding> {
    when(doc.ags_schema.version@.len() == 0, empty_text("agsSchema.version"@)) + when(
        doc.ags_file.file_id@.len() == 0,
        empty_text("agsFile.fileId"@),
    ) + model_structure(doc, doc.agsi_model@.len())
}

/// The components without a material among the first `n` components of the
/// model at position `i`.
pub open spec fn component_findings(model: GroundModel, i: nat, n: nat) -> Seq<Finding>
    decreases n,
{
    if n == 0 {
        Seq::<Finding>::empty()
    } else {
        let c = (n - 1) as nat;
        let id = model.components@[c as int].material_id@;
        component_findings(model, i, c) + when(
            !occurs(model.material_ids(), id),
            missing_material(i, c, id),
        )
    }
}

/// The shared identifiers among the first `n` materials of the model at
/// position `i`.
pub open spec fn material_findings(model: GroundModel, i: nat, n: nat) -> Seq<Finding>
    decreases n,
{
    if n == 0 {
        Seq::<Finding>::empty()
    } else {
        let k = (n - 1) as nat;
        material_findings(model, i, k) + when(
            shared(model.material_ids(), k as int),
            shared_material_id(i, k, model.materials@[k as int].id@),
        )
    }
}

/// The axes of an extent whose bounds are out of order, x before y before z.
pub open spec fn extent_findings(extent: Option<ModelExtent>, i: nat) -> Seq<Finding> {
    match extent {
        None => Seq::<Finding>::empty(),
        Some(e) => when(
            e.min_x.spec_gt(e.max_x),
            disordered_axis(i, "min_x must be less than or equal to max_x"@),
        ) + when(
            e.min_y.spec_gt(e.max_y),
            disordered_axis(i, "min_y must be less than or equal to max_y"@),
        ) + when(
            match (e.min_z, e.max_z) {
                (Some(lo), Some(hi)) => lo.spec_gt(hi),
                _ => false,
            },
            disordered_axis(i, "min_z must be less than or equal to max_z"@),
        ),
    }
}

/// What the referential checks find in the model at position `i`.
pub open spec fn one_model_findings(doc: Document, i: nat) -> Seq<Finding> {
    let model = doc.agsi_model@[i as int];
    when(shared(doc.model_ids(), i as int), shared_model_id(i, model.id@)) + component_findings(
        model,
        i,
        model.components@.len(),
    ) + material_findings(model, i, model.materials@.len()) + extent_findings(model.extent, i)
}

/// What the referential checks find in the first `n` models.
pub open spec fn referential_findings(doc: Document, n: nat) -> Seq<Finding>
    decreases n,
{
    if n == 0 {
        Seq::<Finding>::empty()
    } else {
        let i = (n - 1) as nat;
        referential_findings(doc, i) + one_model_findings(doc, i)
    }
}

/// Every error that validation reports for a document, in order.
pub open spec fn expected_errors(doc: Document) -> Seq<Finding> {
    structural_findings(doc) + referential_findings(doc, doc.agsi_model@.len())
}

/// The warning for a document that declares another schema revision than
/// this library's.
pub open spec fn version_notice(declared: Seq<char>) -> Notice {
    Notice {
        path: "agsSchema.version"@,
        message: "Schema version "@ + declared + " differs from library version "@
            + AGSI_VERSION@,
    }
}

/// Every warning that validation reports for a document.
pub open spec fn expected_warnings(doc: Document) -> Seq<Notice> {
    if doc.ags_schema.version@ == AGSI_VERSION@ {
        Seq::<Notice>::empty()
    } else {
        seq![version_notice(doc.ags_schema.version@)]
    }
}

/// The message of the failure of a quick validation that found `n` errors.
pub open spec fn quick_failure(n: nat) -> Seq<char> {
    "Validation failed with "@ + decimal(n) + " errors"@
}

fn report(
    errors: &mut Vec<ValidationError>,
    path: String,
    message: String,
    error_type: ValidationErrorType,
)
    ensures
        findings_of(final(errors)@) == findings_of(old(errors)@).push(
            Finding { path: path@, message: message@, kind: error_type },
        ),
{
    errors.push(ValidationError { path, message, error_type });
    assert(findings_of(errors@) =~= findings_of(old(errors)@).push(
        Finding { path: path@, message: message@, kind: error_type },
    ));
}

fn model_path_text(i: usize) -> (s: String)
    ensures
        s@ == model_path(i as nat),
{
    let mut s = String::from_str("agsiModel[");
    push_decimal(&mut s, i);
    s.append("]");
    s
}

fn material_path_text(i: usize, k: usize) -> (s: String)
    ensures
        s@ == material_path(i as nat, k as nat),
{
    let mut s = model_path_text(i);
    s.append(".materials[");
    push_decimal(&mut s, k);
    s.append("]");
    s
}

fn component_path_text(i: usize, c: usize) -> (s: String)
    ensures
        s@ == component_path(i as nat, c as nat),
{
    let mut s = model_path_text(i);
    s.append(".components[");
    push_decimal(&mut s, c);
    s.append("]");
    s
}

/// Reports `path` followed by `field` as an empty required text if `text`
/// is empty.
fn require_text(errors: &mut Vec<ValidationError>, text: &String, path: String, field: &str)
    ensures
        findings_of(final(errors)@) == findings_of(old(errors)@) + when(
            text@.len() == 0,
            empty_text(path@ + field@),
        ),
{
    if text.as_str().is_empty() {
        let mut at = path;
        at.append(field);
        report(
            errors,
            at,
            String::from_str("length must be at least 1"),
            ValidationErrorType::Schema,
        );
        assert(findings_of(errors@) =~= findings_of(old(errors)@) + when(
            text@.len() == 0,
            empty_text(path@ + field@),
        ));
    } else {
        assert(findings_of(errors@) =~= findings_of(old(errors)@) + when(
            text@.len() == 0,
            empty_text(path@ + field@),
        ));
    }
}

fn check_model_structure(errors: &mut Vec<ValidationError>, model: &GroundModel, i: usize)
    ensures
        findings_of(final(errors)@) == findings_of(old(errors)@) + one_model_structure(
            *model,
            i as nat,
        ),
{
    let ghost base = findings_of(errors@);
    let ghost own = when(model.id@.len() == 0, empty_text(model_path(i as nat) + ".id"@)) + when(
        model.name@.len() == 0,
        empty_text(model_path(i as nat) + ".name"@),
    );
    require_text(errors, &model.id, model_path_text(i), ".id");
    require_text(errors, &model.name, model_path_text(i), ".name");
    assert(findings_of(errors@) =~= base + own + material_structure(*model, i as nat, 0));
    let mut k: usize = 0;
    while k < model.materials.len()
        invariant
            k <= model.materials@.len(),
            findings_of(errors@) == base + own + material_structure(*model, i as nat, k as nat),
        decreases model.materials@.len() - k,
    {
        let ghost before = findings_of(errors@);
        let material = &model.materials[k];
        require_text(errors, &material.id, material_path_text(i, k), ".id");
        require_text(errors, &material.name, material_path_text(i, k), ".name");
        proof {
            let step = when(
                material.id@.len() == 0,
                empty_text(material_path(i as nat, k as nat) + ".id"@),
            ) + when(
                material.name@.len() == 0,
                empty_text(material_path(i as nat, k as nat) + ".name"@),
            );
            assert(findings_of(errors@) =~= before + step);
            assert(material_structure(*model, i as nat, (k + 1) as nat) =~= material_structure(
                *model,
                i as nat,
                k as nat,
            ) + step);
            assert(findings_of(errors@) =~= base + own + material_structure(
                *model,
                i as nat,
                (k + 1) as nat,
            ));
        }
        k += 1;
    }
    assert(findings_of(errors@) =~= base + one_model_structure(*model, i as nat));
}

fn check_structure(errors: &mut Vec<ValidationError>, doc: &Document)
    ensures
        findings_of(final(errors)@) == findings_of(old(errors)@) + structural_findings(*doc),
{
    let ghost base = findings_of(errors@);
    let ghost own = when(doc.ags_schema.version@.len() == 0, empty_text("agsSchema.version"@))
        + when(doc.ags_file.file_id@.len() == 0, empty_text("agsFile.fileId"@));
    require_text(errors, &doc.ags_schema.version, String::from_str("agsSchema"), ".version");
    require_text(errors, &doc.ags_file.file_id, String::from_str("agsFile"), ".fileId");
    proof {
        reveal_strlit("agsSchema");
        reveal_strlit(".version");
        reveal_strlit("agsSchema.version");
        reveal_strlit("agsFile");
        reveal_strlit(".fileId");
        reveal_strlit("agsFile.fileId");
        assert("agsSchema"@ + ".version"@ =~= "agsSchema.version"@);
        assert("agsFile"@ + ".fileId"@ =~= "agsFile.fileId"@);
        assert(findings_of(errors@) =~= base + own + model_structure(*doc, 0));
    }
    let mut i: usize = 0;
    while i < doc.agsi_model.len()
        invariant
            i <= doc.agsi_model@.len(),
            findings_of(errors@) == base + own + model_structure(*doc, i as nat),
        decreases doc.agsi_model@.len() - i,
    {
        let ghost before = findings_of(errors@);
        check_model_structure(errors, &doc.agsi_model[i], i);
        proof {
            let step = one_model_structure(doc.agsi_model@[i as int], i as nat);
            assert(model_structure(*doc, (i + 1) as nat) =~= model_structure(*doc, i as nat)
                + step);
            assert(findings_of(errors@) =~= base + own + model_structure(*doc, (i + 1) as nat));
        }
        i += 1;
    }
    assert(findings_of(errors@) =~= base + structural_findings(*doc));
}

/// Whether the identifier of the model at position `i` stands at another
/// position too.
fn model_id_is_shared(doc: &Document, i: usize) -> (r: bool)
    requires
        i < doc.agsi_model@.len(),
    ensures
        r == shared(doc.model_ids(), i as int),
{
    let mut j: usize = 0;
    while j < doc.agsi_model.len()
        invariant
            j <= doc.agsi_model@.len(),
            i < doc.agsi_model@.len(),
            forall|k: int|
                0 <= k < j && k != i ==> #[trigger] doc.model_ids()[k] != doc.model_ids()[i as int],
        decreases doc.agsi_model@.len() - j,
    {
        if j != i && doc.agsi_model[j].id == doc.agsi_model[i].id {
            assert(doc.model_ids()[j as int] == doc.model_ids()[i as int]);
            return true;
        }
        j += 1;
    }
    false
}

/// Whether the identifier of the material at position `k` stands at another
/// position of the model too.
fn material_id_is_shared(model: &GroundModel, k: usize) -> (r: bool)
    requires
        k < model.materials@.len(),
    ensures
        r == shared(model.material_ids(), k as int),
{
    let mut j: usize = 0;
    while j < model.materials.len()
        invariant
            j <= model.materials@.len(),
            k < model.materials@.len(),
            forall|n: int|
                0 <= n < j && n != k ==> #[trigger] model.material_ids()[n]
                    != model.material_ids()[k as int],
        decreases model.materials@.len() - j,
    {
        if j != k && model.materials[j].id == model.materials[k].id {
            assert(model.material_ids()[j as int] == model.material_ids()[k as int]);
            return true;
        }
        j += 1;
    }
    false
}

fn check_components(errors: &mut Vec<ValidationError>, model: &GroundModel, i: usize)
    ensures
        findings_of(final(errors)@) == findings_of(old(errors)@) + component_findings(
            *model,
            i as nat,
            model.components@.len(),
        ),
{
    let ghost base = findings_of(errors@);
    assert(findings_of(errors@) =~= base + component_findings(*model, i as nat, 0));
    let mut c: usize = 0;
    while c < model.components.len()
        invariant
            c <= model.components@.len(),
            findings_of(errors@) == base + component_findings(*model, i as nat, c as nat),
        decreases model.components@.len() - c,
    {
        let ghost before = findings_of(errors@);
        let component = &model.components[c];
        let missing = model.get_material(component.material_id.as_str()).is_none();
        if missing {
            let mut path = component_path_text(i, c);
            path.append(".materialId");
            let mut message = String::from_str("Material ID '");
            message.append(component.material_id.as_str());
            message.append("' not found in model");
            report(errors, path, message, ValidationErrorType::Reference);
        }
        proof {
            let id = component.material_id@;
            let step = when(
                !occurs(model.material_ids(), id),
                missing_material(i as nat, c as nat, id),
            );
            assert(findings_of(errors@) =~= before + step);
            assert(component_findings(*model, i as nat, (c + 1) as nat) =~= component_findings(
                *model,
                i as nat,
                c as nat,
            ) + step);
            assert(findings_of(errors@) =~= base + component_findings(
                *model,
                i as nat,
                (c + 1) as nat,
            ));
        }
        c += 1;
    }
}

fn check_materials(errors: &mut Vec<ValidationError>, model: &GroundModel, i: usize)
    ensures
        findings_of(final(errors)@) == findings_of(old(errors)@) + material_findings(
            *model,
            i as nat,
            model.materials@.len(),
        ),
{
    let ghost base = findings_of(errors@);
    assert(findings_of(errors@) =~= base + material_findings(*model, i as nat, 0));
    let mut k: usize = 0;
    while k < model.materials.len()
        invariant
            k <= model.materials@.len(),
            findings_of(errors@) == base + material_findings(*model, i as nat, k as nat),
        decreases model.materials@.len() - k,
    {
        let ghost before = findings_of(errors@);
        let taken = material_id_is_shared(model, k);
        if taken {
            let mut path = material_path_text(i, k);
            path.append(".id");
            let mut message = String::from_str("Duplicate material ID: ");
            message.append(model.materials[k].id.as_str());
            report(errors, path, message, ValidationErrorType::Reference);
        }
        proof {
            let step = when(
                shared(model.material_ids(), k as int),
                shared_material_id(i as nat, k as nat, model.materials@[k as int].id@),
            );
            assert(findings_of(errors@) =~= before + step);
            assert(material_findings(*model, i as nat, (k + 1) as nat) =~= material_findings(
                *model,
                i as nat,
                k as nat,
            ) + step);
            assert(findings_of(errors@) =~= base + material_findings(
                *model,
                i as nat,
                (k + 1) as nat,
            ));
        }
        k += 1;
    }
}

fn report_axis(errors: &mut Vec<ValidationError>, disordered: bool, i: usize, message: &str)
    ensures
        findings_of(final(errors)@) == findings_of(old(errors)@) + when(
            disordered,
            disordered_axis(i as nat, message@),
        ),
{
    if disordered {
        let mut path = model_path_text(i);
        path.append(".extent");
        report(errors, path, String::from_str(message), ValidationErrorType::Range);
    }
    assert(findings_of(errors@) =~= findings_of(old(errors)@) + when(
        disordered,
        disordered_axis(i as nat, message@),
    ));
}

fn check_extent(errors: &mut Vec<ValidationError>, extent: &Option<ModelExtent>, i: usize)
    ensures
        findings_of(final(errors)@) == findings_of(old(errors)@) + extent_findings(
            *extent,
            i as nat,
        ),
{
    let ghost base = findings_of(errors@);
    match extent {
        None => {
            assert(findings_of(errors@) =~= base + extent_findings(*extent, i as nat));
        },
        Some(e) => {
            report_axis(
                errors,
                e.min_x.gt(&e.max_x),
                i,
                "min_x must be less than or equal to max_x",
            );
            report_axis(
                errors,
                e.min_y.gt(&e.max_y),
                i,
                "min_y must be less than or equal to max_y",
            );
            let z_disordered = match (e.min_z, e.max_z) {
                (Some(lo), Some(hi)) => lo.gt(&hi),
                _ => false,
            };
            report_axis(errors, z_disordered, i, "min_z must be less than or equal to max_z");
            assert(findings_of(errors@) =~= base + extent_findings(*extent, i as nat));
        },
    }
}

fn check_model(errors: &mut Vec<ValidationError>, doc: &Document, i: usize)
    requires
        i < doc.agsi_model@.len(),
    ensures
        findings_of(final(errors)@) == findings_of(old(errors)@) + one_model_findings(
            *doc,
            i as nat,
        ),
{
    let ghost base = findings_of(errors@);
    let model = &doc.agsi_model[i];
    let taken = model_id_is_shared(doc, i);
    if taken {
        let mut path = model_path_text(i);
        path.append(".id");
        let mut message = String::from_str("Duplicate model ID: ");
        message.append(model.id.as_str());
        report(errors, path, message, ValidationErrorType::Reference);
    }
    let ghost first = when(
        shared(doc.model_ids(), i as int),
        shared_model_id(i as nat, model.id@),
    );
    assert(findings_of(errors@) =~= base + first);
    check_components(errors, model, i);
    check_materials(errors, model, i);
    check_extent(errors, &model.extent, i);
    assert(findings_of(errors@) =~= base + one_model_findings(*doc, i as nat));
}

/// Checks a document against the structural and referential rules. The
/// document is not changed, and a report comes back whatever it holds: the
/// report lists exactly the errors of `expected_errors` and the warnings of
/// `expected_warnings`, and calls the document valid if and only if there is
/// no error.
pub fn validate_document(doc: &Document) -> (r: Result<ValidationResult, AgsiError>)
    ensures
        r matches Ok(report) && findings_of(report.errors@) == expected_errors(*doc) && notices_of(
            report.warnings@,
        ) == expected_warnings(*doc) && report.is_valid == (expected_errors(*doc).len() == 0)
            && report.consistent(),
{
    let mut errors: Vec<ValidationError> = Vec::new();
    let mut warnings: Vec<ValidationWarning> = Vec::new();
    assert(findings_of(errors@) =~= Seq::<Finding>::empty());
    check_structure(&mut errors, doc);
    assert(findings_of(errors@) =~= structural_findings(*doc) + referential_findings(*doc, 0));

    if !str_eq(doc.ags_schema.version.as_str(), AGSI_VERSION) {
        let mut message = String::from_str("Schema version ");
        message.append(doc.ags_schema.version.as_str());
        message.append(" differs from library version ");
        message.append(AGSI_VERSION);
        warnings.push(
            ValidationWarning { path: String::from_str("agsSchema.version"), message },
        );
    }
    assert(notices_of(warnings@) =~= expected_warnings(*doc));

    let mut i: usize = 0;
    while i < doc.agsi_model.len()
        invariant
            i <= doc.agsi_model@.len(),
            findings_of(errors@) == structural_findings(*doc) + referential_findings(
                *doc,
                i as nat,
            ),
        decreases doc.agsi_model@.len() - i,
    {
        check_model(&mut errors, doc, i);
        proof {
            assert(referential_findings(*doc, (i + 1) as nat) =~= referential_findings(
                *doc,
                i as nat,
            ) + one_model_findings(*doc, i as nat));
            assert(findings_of(errors@) =~= structural_findings(*doc) + referential_findings(
                *doc,
                (i + 1) as nat,
            ));
        }
        i += 1;
    }
    let is_valid = errors.len() == 0;
    Ok(ValidationResult { is_valid, errors, warnings })
}

/// Validates a document and fails if there is any error, of whatever kind;
/// the failure tells how many there are.
pub fn validate_quick(doc: &Document) -> (r: Result<(), AgsiError>)
    ensures
        r.is_ok() <==> expected_errors(*doc).len() == 0,
        r matches Err(e) ==> e matches AgsiError::Validation(m) && m@ == quick_failure(
            expected_errors(*doc).len(),
        ),
{
    match validate_document(doc) {
        Ok(report) => {
            if !report.is_valid {
                let mut message = String::from_str("Validation failed with ");
                push_decimal(&mut message, report.errors.len());
                message.append(" errors");
                return Err(AgsiError::Validation(message));
            }
            Ok(())
        },
        Err(e) => Err(e),
    }
}

/// One line of a rendered report: a bullet, the path, a dash, the message.
pub open spec fn bullet_line(path: Seq<char>, message: Seq<char>) -> Seq<char> {
    "  \u{2022} "@ + path + " - "@ + message + "\n"@
}

/// The lines of the first `n` errors of a report.
pub open spec fn error_lines(errors: Seq<Finding>, n: nat) -> Seq<char>
    decreases n,
{
    if n == 0 {
        Seq::<char>::empty()
    } else {
        error_lines(errors, (n - 1) as nat) + bullet_line(errors[n - 1].path, errors[n - 1].message)
    }
}

/// The lines of the first `n` warnings of a report.
pub open spec fn warning_lines(warnings: Seq<Notice>, n: nat) -> Seq<char>
    decreases n,
{
    if n == 0 {
        Seq::<char>::empty()
    } else {
        warning_lines(warnings, (n - 1) as nat) + bullet_line(
            warnings[n - 1].path,
            warnings[n - 1].message,
        )
    }
}

/// The block of a rendered report that lists the errors; empty where there
/// is none.
pub open spec fn error_block(errors: Seq<Finding>) -> Seq<char> {
    if errors.len() == 0 {
        Seq::<char>::empty()
    } else {
        "\n"@ + decimal(errors.len()) + " Errors:\n"@ + error_lines(errors, errors.len())
    }
}

/// The block of a rendered report that lists the warnings; empty where
/// there is none.
pub open spec fn warning_block(warnings: Seq<Notice>) -> Seq<char> {
    if warnings.len() == 0 {
        Seq::<char>::empty()
    } else {
        "\n"@ + decimal(warnings.len()) + " Warnings:\n"@ + warning_lines(
            warnings,
            warnings.len(),
        )
    }
}

fn push_bullet(out: &mut String, path: &String, message: &String)
    ensures
        final(out)@ == old(out)@ + bullet_line(path@, message@),
{
    out.append("  \u{2022} ");
    out.append(path.as_str());
    out.append(" - ");
    out.append(message.as_str());
    out.append("\n");
    assert(out@ =~= old(out)@ + bullet_line(path@, message@));
}

impl ValidationResult {
    /// Whether the verdict agrees with the list of errors: valid exactly
    /// when the list is empty.
    pub open spec fn consistent(self) -> bool {
        self.is_valid == (self.errors@.len() == 0)
    }

    /// The human-readable form of the report: a line with a check mark or a
    /// cross, then the errors and the warnings, each list under a heading
    /// with its count and one bullet line per entry.
    pub open spec fn rendering(self) -> Seq<char> {
        (if self.is_valid {
            "\u{2713} Validation passed\n"@
        } else {
            "\u{2717} Validation failed\n"@
        }) + error_block(findings_of(self.errors@)) + warning_block(notices_of(self.warnings@))
    }

    /// Whether validation passed.
    pub fn is_valid(&self) -> (valid: bool)
        ensures
            valid == self.is_valid,
    {
        self.is_valid
    }

    /// The errors, in the order in which they were found.
    pub fn errors(&self) -> (errors: &[ValidationError])
        ensures
            errors@ == self.errors@,
    {
        self.errors.as_slice()
    }

    /// The warnings, in the order in which they were found.
    pub fn warnings(&self) -> (warnings: &[ValidationWarning])
        ensures
            warnings@ == self.warnings@,
    {
        self.warnings.as_slice()
    }

    /// Renders the report for a human reader.
    pub fn to_string(&self) -> (text: String)
        ensures
            text@ == self.rendering(),
    {
        let mut out = if self.is_valid {
            String::from_str("\u{2713} Validation passed\n")
        } else {
            String::from_str("\u{2717} Validation failed\n")
        };
        let ghost head = out@;
        let ghost errors = findings_of(self.errors@);
        let ghost warnings = notices_of(self.warnings@);
        if self.errors.len() > 0 {
            out.append("\n");
            push_decimal(&mut out, self.errors.len());
            out.append(" Errors:\n");
            let ghost start = out@;
            let mut i: usize = 0;
            while i < self.errors.len()
                invariant
                    i <= self.errors@.len(),
                    errors == findings_of(self.errors@),
                    out@ == start + error_lines(errors, i as nat),
                decreases self.errors@.len() - i,
            {
                push_bullet(&mut out, &self.errors[i].path, &self.errors[i].message);
                proof {
                    assert(errors[i as int] == self.errors@[i as int]@);
                    assert(out@ =~= start + error_lines(errors, (i + 1) as nat));
                }
                i += 1;
            }
            assert(out@ =~= head + error_block(errors));
        } else {
            assert(out@ =~= head + error_block(errors));
        }
        let ghost middle = out@;
        if self.warnings.len() > 0 {
            out.append("\n");
            push_decimal(&mut out, self.warnings.len());
            out.append(" Warnings:\n");
            let ghost start = out@;
            let mut i: usize = 0;
            while i < self.warnings.len()
                invariant
                    i <= self.warnings@.len(),
                    warnings == notices_of(self.warnings@),
                    out@ == start + warning_lines(warnings, i as nat),
                decreases self.warnings@.len() - i,
            {
                push_bullet(&mut out, &self.warnings[i].path, &self.warnings[i].message);
                proof {
                    assert(warnings[i as int] == self.warnings@[i as int]@);
                    assert(out@ =~= start + warning_lines(warnings, (i + 1) as nat));
                }
                i += 1;
            }
            assert(out@ =~= middle + warning_block(warnings));
        } else {
            assert(out@ =~= middle + warning_block(warnings));
        }
        out
    }
}

} // verus!
