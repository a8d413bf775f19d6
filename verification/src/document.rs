//! The document: the root of the entity graph.

use vstd::prelude::*;
use vstd::string::*;
use crate::lookup::{first_at, occurs};
use crate::material::holds_text;
use crate::metadata::Metadata;
use crate::material::Material;
use crate::model::{GroundModel, ModelComponent};
use crate::project::Project;
use crate::text::str_eq;
use crate::AGSI_VERSION;

verus! {

/// The name under which this library signs the documents it creates.
pub const SOFTWARE_NAME: &'static str = "agsi-rust";

/// The release of this library.
pub const SOFTWARE_VERSION: &'static str = "0.1.0";

/// Which revision of the schema a document follows.
#[derive(Debug, Clone)]
pub struct SchemaInfo {
    /// Schema revision, such as `1.0.1`.
    pub version: String,
    /// Schema variant.
    pub variant: Option<String>,
}

/// What is known about the file that holds a document.
#[derive(Debug, Clone)]
pub struct FileInfo {
    /// File identifier.
    pub file_id: String,
    /// File name.
    pub file_name: Option<String>,
    /// Creation date, in ISO 8601 form.
    pub file_date: Option<String>,
    /// Author.
    pub file_author: Option<String>,
    /// Software that produced the file.
    pub file_software: Option<String>,
    /// Release of that software.
    pub file_version: Option<String>,
    /// Free-text comments.
    pub file_comments: Option<String>,
}

/// A ground-model document.
#[derive(Debug, Clone)]
pub struct Document {
    /// Schema revision.
    pub ags_schema: SchemaInfo,
    /// File metadata.
    pub ags_file: FileInfo,
    /// The project that the document belongs to.
    pub ags_project: Option<Project>,
    /// Ground models, in the order in which they were added.
    pub agsi_model: Vec<GroundModel>,
    /// Further named values that the schema does not know.
    pub extensions: Metadata,
}

/// Calls `Uuid::new_v4` of the `uuid` crate and renders the result with
/// `to_string`: a random identifier in hyphenated form, which is 36
/// characters long whatever the random bits are.
#[verifier::external_body]
fn random_file_id() -> (id: String)
    ensures
        id@.len() == 36,
{
    uuid::Uuid::new_v4().to_string()
}

impl Document {
    /// The identifiers of the models, in order.
    pub open spec fn model_ids(self) -> Seq<Seq<char>> {
        Seq::new(self.agsi_model@.len(), |i: int| self.agsi_model@[i].id@)
    }

    /// Whether the document is a fresh one with the file identifier
    /// `file_id`: it declares the schema revision of this library, is signed
    /// by it, and holds no project, model or extension.
    pub open spec fn fresh(self, file_id: Seq<char>) -> bool {
        &&& self.ags_schema.version@ == AGSI_VERSION@
        &&& self.ags_schema.variant.is_none()
        &&& self.ags_file.file_id@ == file_id
        &&& self.ags_file.file_name.is_none()
        &&& self.ags_file.file_date.is_none()
        &&& self.ags_file.file_author.is_none()
        &&& holds_text(self.ags_file.file_software, SOFTWARE_NAME@)
        &&& holds_text(self.ags_file.file_version, SOFTWARE_VERSION@)
        &&& self.ags_file.file_comments.is_none()
        &&& self.ags_project.is_none()
        &&& self.agsi_model@.len() == 0
        &&& self.extensions@ == Map::<Seq<char>, serde_json::Value>::empty()
    }

    /// A fresh document with the given file identifier.
    pub fn new(file_id: &str) -> (doc: Document)
        ensures
            doc.fresh(file_id@),
    {
        Document {
            ags_schema: SchemaInfo { version: String::from_str(AGSI_VERSION), variant: None },
            ags_file: FileInfo {
                file_id: String::from_str(file_id),
                file_name: None,
                file_date: None,
                file_author: None,
                file_software: Some(String::from_str(SOFTWARE_NAME)),
                file_version: Some(String::from_str(SOFTWARE_VERSION)),
                file_comments: None,
            },
            ags_project: None,
            agsi_model: Vec::new(),
            extensions: Metadata::new(),
        }
    }

    /// The same document with its project set.
    pub fn with_project(self, project: Project) -> (doc: Document)
        ensures
            doc == (Document { ags_project: Some(project), ..self }),
    {
        let mut doc = self;
        doc.ags_project = Some(project);
        doc
    }

    /// Adds a model at the end. Nothing is checked: whether its identifier is
    /// taken is for validation to say.
    pub fn add_model(&mut self, model: GroundModel)
        ensures
            final(self).agsi_model@ == old(self).agsi_model@.push(model),
            *final(self) == (Document { agsi_model: final(self).agsi_model, ..*old(self) }),
    {
        self.agsi_model.push(model);
    }

    fn model_position(&self, id: &str) -> (at: Option<usize>)
        ensures
            match at {
                Some(i) => first_at(self.model_ids(), id@, i as int),
                None => !occurs(self.model_ids(), id@),
            },
    {
        let mut i: usize = 0;
        while i < self.agsi_model.len()
            invariant
                i <= self.agsi_model@.len(),
                forall|j: int| 0 <= j < i ==> #[trigger] self.model_ids()[j] != id@,
            decreases self.agsi_model@.len() - i,
        {
            if str_eq(self.agsi_model[i].id.as_str(), id) {
                return Some(i);
            }
            i += 1;
        }
        None
    }

    /// The first model with the identifier `id`, if there is one.
    pub fn get_model(&self, id: &str) -> (found: Option<&GroundModel>)
        ensures
            match found {
                Some(m) => exists|i: int|
                    first_at(self.model_ids(), id@, i) && *m == self.agsi_model@[i],
                None => !occurs(self.model_ids(), id@),
            },
    {
        match self.model_position(id) {
            Some(i) => Some(&self.agsi_model[i]),
            None => None,
        }
    }

    /// The first model with the identifier `id`, if there is one, for
    /// changing it in place. Whatever the caller writes through the reference
    /// takes the place of that model; the rest of the document stays.
    pub fn get_model_mut(&mut self, id: &str) -> (found: Option<&mut GroundModel>)
        ensures
            match found {
                Some(m) => exists|i: int|
                    first_at(old(self).model_ids(), id@, i) && *m == old(self).agsi_model@[i]
                        && final(self).agsi_model@ == old(self).agsi_model@.update(i, *final(m)),
                None => !occurs(old(self).model_ids(), id@) && final(self).agsi_model@ == old(
                    self,
                ).agsi_model@,
            },
            *final(self) == (Document { agsi_model: final(self).agsi_model, ..*old(self) }),
    {
        match self.model_position(id) {
            Some(i) => Some(&mut self.agsi_model[i]),
            None => None,
        }
    }

    /// The same document with its file name set.
    pub fn with_file_name(self, name: &str) -> (doc: Document)
        ensures
            holds_text(doc.ags_file.file_name, name@),
            doc == (Document {
                ags_file: FileInfo { file_name: doc.ags_file.file_name, ..self.ags_file },
                ..self
            }),
    {
        let mut doc = self;
        doc.ags_file.file_name = Some(String::from_str(name));
        doc
    }

    /// The same document with its author set.
    pub fn with_author(self, author: &str) -> (doc: Document)
        ensures
            holds_text(doc.ags_file.file_author, author@),
            doc == (Document {
                ags_file: FileInfo { file_author: doc.ags_file.file_author, ..self.ags_file },
                ..self
            }),
    {
        let mut doc = self;
        doc.ags_file.file_author = Some(String::from_str(author));
        doc
    }

    /// The same document with its comments set.
    pub fn with_comments(self, comments: &str) -> (doc: Document)
        ensures
            holds_text(doc.ags_file.file_comments, comments@),
            doc == (Document {
                ags_file: FileInfo { file_comments: doc.ags_file.file_comments, ..self.ags_file },
                ..self
            }),
    {
        let mut doc = self;
        doc.ags_file.file_comments = Some(String::from_str(comments));
        doc
    }
}

/// A count as it fits in `usize`: itself, or the largest `usize` where it is
/// larger.
pub open spec fn clipped(n: nat) -> nat {
    if n <= usize::MAX {
        n
    } else {
        usize::MAX as nat
    }
}

fn add_clipped(total: usize, more: usize) -> (sum: usize)
    ensures
        sum == clipped((total + more) as nat),
{
    if more > usize::MAX - total {
        usize::MAX
    } else {
        total + more
    }
}

impl Document {
    /// The number of materials in the first `n` models.
    pub open spec fn materials_in_first(self, n: nat) -> nat
        decreases n,
    {
        if n == 0 {
            0
        } else {
            self.materials_in_first((n - 1) as nat) + self.agsi_model@[n - 1].materials@.len()
        }
    }

    /// The number of components in the first `n` models.
    pub open spec fn components_in_first(self, n: nat) -> nat
        decreases n,
    {
        if n == 0 {
            0
        } else {
            self.components_in_first((n - 1) as nat) + self.agsi_model@[n - 1].components@.len()
        }
    }

    /// The number of materials in all models together.
    pub open spec fn material_total(self) -> nat {
        self.materials_in_first(self.agsi_model@.len())
    }

    /// The number of components in all models together.
    pub open spec fn component_total(self) -> nat {
        self.components_in_first(self.agsi_model@.len())
    }

    /// Whether `after` is this document with the model at position `at`
    /// replaced by `changed`, and nothing else different.
    pub open spec fn with_model(self, at: int, changed: GroundModel, after: Document) -> bool {
        &&& after == (Document { agsi_model: after.agsi_model, ..self })
        &&& after.agsi_model@ == self.agsi_model@.update(at, changed)
    }

    /// Adds a material at the end of the materials of the model at position
    /// `at`.
    pub fn add_material_to(&mut self, at: usize, material: Material)
        requires
            at < old(self).agsi_model@.len(),
        ensures
            old(self).with_model(at as int, final(self).agsi_model@[at as int], *final(self)),
            final(self).agsi_model@[at as int] == (GroundModel {
                materials: final(self).agsi_model@[at as int].materials,
                ..old(self).agsi_model@[at as int]
            }),
            final(self).agsi_model@[at as int].materials@ == old(self).agsi_model@[at as int].materials@.push(
                material,
            ),
    {
        let model = &mut self.agsi_model[at];
        model.add_material(material);
    }

    /// Adds a component at the end of the components of the model at
    /// position `at`.
    pub fn add_component_to(&mut self, at: usize, component: ModelComponent)
        requires
            at < old(self).agsi_model@.len(),
        ensures
            old(self).with_model(at as int, final(self).agsi_model@[at as int], *final(self)),
            final(self).agsi_model@[at as int] == (GroundModel {
                components: final(self).agsi_model@[at as int].components,
                ..old(self).agsi_model@[at as int]
            }),
            final(self).agsi_model@[at as int].components@ == old(self).agsi_model@[at as int].components@.push(
                component,
            ),
    {
        let model = &mut self.agsi_model[at];
        model.add_component(component);
    }

    /// The number of materials in all models together, as far as it fits in
    /// `usize`.
    pub fn material_count(&self) -> (n: usize)
        ensures
            n == clipped(self.material_total()),
    {
        let mut total: usize = 0;
        let mut i: usize = 0;
        while i < self.agsi_model.len()
            invariant
                i <= self.agsi_model@.len(),
                total == clipped(self.materials_in_first(i as nat)),
            decreases self.agsi_model@.len() - i,
        {
            total = add_clipped(total, self.agsi_model[i].materials.len());
            i += 1;
        }
        total
    }

    /// The number of components in all models together, as far as it fits
    /// in `usize`.
    pub fn component_count(&self) -> (n: usize)
        ensures
            n == clipped(self.component_total()),
    {
        let mut total: usize = 0;
        let mut i: usize = 0;
        while i < self.agsi_model.len()
            invariant
                i <= self.agsi_model@.len(),
                total == clipped(self.components_in_first(i as nat)),
            decreases self.agsi_model@.len() - i,
        {
            total = add_clipped(total, self.agsi_model[i].components.len());
            i += 1;
        }
        total
    }
}

impl Default for Document {
    /// A fresh document under a random file identifier of 36 characters.
    fn default() -> (doc: Document)
        ensures
            doc.ags_file.file_id@.len() == 36,
            doc.fresh(doc.ags_file.file_id@),
    {
        let id = random_file_id();
        Document::new(id.as_str())
    }
}

} // verus!
