//! The decisions of an interactive editor of a document.
//!
//! The editor is a state machine. A caller shows the state, reads a key,
//! hands it to `handle_input`, and does what the returned action asks for:
//! nothing, or saving the document to a file, the outcome of which it
//! reports with `report_save`. Reading keys, drawing and writing files are
//! the caller's part.
//!
//! Outside a creation the keys switch between the four views, move the
//! selection, save, quit and start a creation. A creation collects the
//! fields of a material, a model or a component step by step, text fields
//! from the input buffer and kinds from the selection, and adds the new
//! entity to the document when its last field is confirmed. Escape cancels a
//! creation at any step.

use vstd::prelude::*;
use vstd::string::*;
use vstd::arithmetic::div_mod::lemma_add_mod_noop;
use vstd::arithmetic::div_mod::lemma_small_mod;
use crate::document::{clipped, Document};
use crate::geometry::Geometry;
use crate::form::answered;
use crate::material::{Material, MaterialType};
use crate::model::{ComponentType, GroundModel, ModelComponent, ModelDimension, ModelType};
use crate::scalar::Scalar;

verus! {

/// How many entries a list of kinds is taken to have when the selection
/// moves through it.
pub const KIND_LIST_LENGTH: usize = 8;

/// A key that the editor reacts to.
#[derive(Debug, Clone, Copy, PartialEq, Eq, Structural)]
pub enum Key {
    Char(char),
    Enter,
    Esc,
    Backspace,
    Up,
    Down,
    /// Any other key.
    Other,
}

/// What the editor shows.
#[derive(Debug, Clone, Copy, PartialEq, Eq, Structural)]
pub enum ViewMode {
    DocumentInfo,
    Models,
    Materials,
    Components,
}

/// What the caller is to do after a key was handled.
#[derive(Debug, Clone, Copy, PartialEq, Eq, Structural)]
pub enum Action {
    /// Nothing.
    Idle,
    /// Write the document to the file of the editor and report the outcome.
    Save,
}

/// The steps of creating a material.
#[derive(Debug, Clone, Copy, PartialEq, Eq, Structural)]
pub enum MaterialStep {
    EnteringId,
    EnteringName,
    SelectingType,
    EnteringDescription,
}

/// The steps of creating a model.
#[derive(Debug, Clone, Copy, PartialEq, Eq, Structural)]
pub enum ModelStep {
    EnteringId,
    EnteringName,
    SelectingType,
    SelectingDimension,
    EnteringDescription,
}

/// The steps of creating a component.
#[derive(Debug, Clone, Copy, PartialEq, Eq, Structural)]
pub enum ComponentStep {
    SelectingModel,
    EnteringId,
    EnteringName,
    SelectingType,
    EnteringMaterialId,
}

/// A material in the making.
#[derive(Debug, Clone)]
pub struct MaterialDraft {
    pub id: String,
    pub name: String,
    pub material_type: Option<MaterialType>,
    pub step: MaterialStep,
}

/// A model in the making.
#[derive(Debug, Clone)]
pub struct ModelDraft {
    pub id: String,
    pub name: String,
    pub model_type: Option<ModelType>,
    pub dimension: Option<ModelDimension>,
    pub step: ModelStep,
}

/// A component in the making.
#[derive(Debug, Clone)]
pub struct ComponentDraft {
    pub id: String,
    pub name: String,
    pub component_type: Option<ComponentType>,
    pub model_index: usize,
    pub step: ComponentStep,
}

/// What is being created.
#[derive(Debug, Clone)]
pub enum Creation {
    Material(MaterialDraft),
    Model(ModelDraft),
    Component(ComponentDraft),
}

/// The state of the editor.
#[derive(Debug, Clone)]
pub struct Editor {
    /// The document that is edited.
    pub document: Document,
    /// The file that the document is saved to.
    pub file_path: Option<String>,
    /// The selected entry of the list that is shown.
    pub selected: Option<usize>,
    /// What is shown.
    pub view_mode: ViewMode,
    /// What is being created, if anything.
    pub creation: Option<Creation>,
    /// What was typed since the last step.
    pub input_buffer: String,
    /// The message to the user.
    pub status_message: String,
    /// Whether the user has asked to leave.
    pub should_quit: bool,
}

/// Calls `String::push`, which appends one character to the end of a
/// string.
#[verifier::external_body]
fn push_char(text: &mut String, c: char)
    ensures
        final(text)@ == old(text)@.push(c),
{
    text.push(c)
}

/// Calls `String::pop`, which removes the last character of a string and
/// returns it, or returns nothing where the string is empty.
#[verifier::external_body]
fn pop_char(text: &mut String) -> (last: Option<char>)
    ensures
        old(text)@.len() == 0 ==> last.is_none() && final(text)@ == old(text)@,
        old(text)@.len() > 0 ==> last == Some(old(text)@.last()) && final(text)@ == old(
            text,
        )@.drop_last(),
{
    text.pop()
}

/// The selection after moving down in a list of `len` entries: the next
/// entry, the first one after the last, and the first one where nothing was
/// selected.
pub open spec fn moved_down(selected: Option<usize>, len: nat) -> nat {
    match selected {
        Some(i) => ((i + 1) % (len as int)) as nat,
        None => 0,
    }
}

/// The selection after moving up in a list of `len` entries: the entry
/// before, the last one before the first, and the first one where nothing
/// was selected.
pub open spec fn moved_up(selected: Option<usize>, len: nat) -> nat {
    match selected {
        Some(i) => if i == 0 {
            (len - 1) as nat
        } else {
            (i - 1) as nat
        },
        None => 0,
    }
}

/// Moves a selection down in a list that is not empty.
pub fn select_next(selected: Option<usize>, len: usize) -> (next: usize)
    requires
        len > 0,
    ensures
        next == moved_down(selected, len as nat),
        next < len,
{
    match selected {
        Some(i) => {
            let at = i % len;
            proof {
                let (x, m) = (i as int, len as int);
                lemma_add_mod_noop(x, 1, m);
                if m == 1 {
                    assert((x + 1) % m == 0);
                } else {
                    lemma_small_mod(1, m as nat);
                    assert(((x % m) + 1) % m == (x + 1) % m);
                    if at + 1 < len {
                        lemma_small_mod((at + 1) as nat, m as nat);
                    } else {
                        assert(m % m == 0) by (nonlinear_arith)
                            requires
                                m > 0,
                        ;
                    }
                }
            }
            if at + 1 == len {
                0
            } else {
                at + 1
            }
        },
        None => 0,
    }
}

/// Moves a selection up in a list that is not empty.
pub fn select_previous(selected: Option<usize>, len: usize) -> (previous: usize)
    requires
        len > 0,
    ensures
        previous == moved_up(selected, len as nat),
{
    match selected {
        Some(i) => if i == 0 {
            len - 1
        } else {
            i - 1
        },
        None => 0,
    }
}

/// The kind of material at a position of the list of kinds; the unknown
/// kind at a position beyond the list.
pub open spec fn material_kind_at(i: nat) -> MaterialType {
    if i == 0 {
        MaterialType::Soil
    } else if i == 1 {
        MaterialType::Rock
    } else if i == 2 {
        MaterialType::Fill
    } else if i == 3 {
        MaterialType::MadeGround
    } else if i == 4 {
        MaterialType::Anthropogenic
    } else if i == 5 {
        MaterialType::Water
    } else if i == 6 {
        MaterialType::Void
    } else {
        MaterialType::Unknown
    }
}

/// The kind of model at a position of the list of kinds; the last kind at a
/// position beyond the list.
pub open spec fn model_kind_at(i: nat) -> ModelType {
    if i == 0 {
        ModelType::Stratigraphic
    } else if i == 1 {
        ModelType::Structure
    } else if i == 2 {
        ModelType::Hydrogeological
    } else if i == 3 {
        ModelType::Geotechnical
    } else if i == 4 {
        ModelType::Environmental
    } else {
        ModelType::Composite
    }
}

/// The dimension at a position of the list of dimensions; the last one at a
/// position beyond the list.
pub open spec fn dimension_at(i: nat) -> ModelDimension {
    if i == 0 {
        ModelDimension::OneD
    } else if i == 1 {
        ModelDimension::TwoD
    } else {
        ModelDimension::ThreeD
    }
}

/// The kind of component at a position of the list of kinds; the last kind
/// at a position beyond the list.
pub open spec fn component_kind_at(i: nat) -> ComponentType {
    if i == 0 {
        ComponentType::Layer
    } else if i == 1 {
        ComponentType::Lens
    } else if i == 2 {
        ComponentType::Volume
    } else if i == 3 {
        ComponentType::Fault
    } else if i == 4 {
        ComponentType::Intrusion
    } else {
        ComponentType::Boundary
    }
}

/// The kind of material at a position of the list of kinds.
pub fn material_kind(i: usize) -> (kind: MaterialType)
    ensures
        kind == material_kind_at(i as nat),
{
    match i {
        0 => MaterialType::Soil,
        1 => MaterialType::Rock,
        2 => MaterialType::Fill,
        3 => MaterialType::MadeGround,
        4 => MaterialType::Anthropogenic,
        5 => MaterialType::Water,
        6 => MaterialType::Void,
        _ => MaterialType::Unknown,
    }
}

/// The kind of model at a position of the list of kinds.
pub fn model_kind(i: usize) -> (kind: ModelType)
    ensures
        kind == model_kind_at(i as nat),
{
    match i {
        0 => ModelType::Stratigraphic,
        1 => ModelType::Structure,
        2 => ModelType::Hydrogeological,
        3 => ModelType::Geotechnical,
        4 => ModelType::Environmental,
        _ => ModelType::Composite,
    }
}

/// The dimension at a position of the list of dimensions.
pub fn dimension_kind(i: usize) -> (dimension: ModelDimension)
    ensures
        dimension == dimension_at(i as nat),
{
    match i {
        0 => ModelDimension::OneD,
        1 => ModelDimension::TwoD,
        _ => ModelDimension::ThreeD,
    }
}

/// The kind of component at a position of the list of kinds.
pub fn component_kind(i: usize) -> (kind: ComponentType)
    ensures
        kind == component_kind_at(i as nat),
{
    match i {
        0 => ComponentType::Layer,
        1 => ComponentType::Lens,
        2 => ComponentType::Volume,
        3 => ComponentType::Fault,
        4 => ComponentType::Intrusion,
        _ => ComponentType::Boundary,
    }
}

/// The message of a fresh editor.
pub const START_MESSAGE: &'static str = "Press 'q' to quit, '?' for help, 'n' to create new";

/// The message that lists the keys.
pub const HELP_MESSAGE: &'static str =
    "Keys: q=quit, d=doc, m=models, a=materials, c=components, n=new, s=save, \u{2191}\u{2193}=navigate";

/// The message at the start of the creation of a material.
pub const NEW_MATERIAL_MESSAGE: &'static str = "Creating Material: Enter ID (press Esc to cancel)";

/// The message at the start of the creation of a model.
pub const NEW_MODEL_MESSAGE: &'static str = "Creating Model: Enter ID (press Esc to cancel)";

/// The message at the start of the creation of a component.
pub const NEW_COMPONENT_MESSAGE: &'static str =
    "Creating Component: Select model (\u{2191}\u{2193}, Enter to confirm, Esc to cancel)";

/// The message for a component that has no model to go to.
pub const NEED_MODEL_MESSAGE: &'static str = "\u{274c} Create a model first!";

/// The message for a creation that was asked for in the view of the
/// document.
pub const CHOOSE_VIEW_MESSAGE: &'static str = "Press: m=new model, a=new material, c=new component";

/// The message after a creation was cancelled.
pub const CANCELLED_MESSAGE: &'static str = "Creation cancelled";

/// The message that asks for the name of a material.
pub const MATERIAL_NAME_MESSAGE: &'static str = "Enter material name:";

/// The message that asks for the kind of a material.
pub const MATERIAL_TYPE_MESSAGE: &'static str = "Select material type (\u{2191}\u{2193}, Enter):";

/// The message that asks for a description.
pub const DESCRIPTION_MESSAGE: &'static str = "Enter description (optional, press Enter to finish):";

/// The message that asks for the name of a model.
pub const MODEL_NAME_MESSAGE: &'static str = "Enter model name:";

/// The message that asks for the kind of a model.
pub const MODEL_TYPE_MESSAGE: &'static str = "Select model type (\u{2191}\u{2193}, Enter):";

/// The message that asks for the dimension of a model.
pub const DIMENSION_MESSAGE: &'static str = "Select dimension (\u{2191}\u{2193}, Enter):";

/// The message that asks for the identifier of a component.
pub const COMPONENT_ID_MESSAGE: &'static str = "Enter component ID:";

/// The message that asks for the name of a component.
pub const COMPONENT_NAME_MESSAGE: &'static str = "Enter component name:";

/// The message that asks for the kind of a component.
pub const COMPONENT_TYPE_MESSAGE: &'static str = "Select component type (\u{2191}\u{2193}, Enter):";

/// The message that asks for the material of a component.
pub const MATERIAL_ID_MESSAGE: &'static str = "Enter material ID:";

/// The message for saving without a file.
pub const NO_PATH_MESSAGE: &'static str = "\u{274c} No file path specified";

/// The identifier of the model that is made for the first material of a
/// document without a model.
pub const DEFAULT_MODEL_ID: &'static str = "MODEL001";

/// The name of that model.
pub const DEFAULT_MODEL_NAME: &'static str = "Default Model";

/// The message after an entity was created: what it is and its identifier.
pub open spec fn created_message(what: Seq<char>, id: Seq<char>) -> Seq<char> {
    "\u{2705} "@ + what + " '"@ + id + "' created!"@
}

/// The message after the document was saved to `path`.
pub open spec fn saved_message(path: Seq<char>) -> Seq<char> {
    "\u{2705} Saved to "@ + path
}

/// The message after saving failed for the given reason.
pub open spec fn save_failed_message(reason: Seq<char>) -> Seq<char> {
    "\u{274c} Error saving: "@ + reason
}

/// Whether a material is a new one with the given fields: it has no
/// geology, property or metadata, and a description only where the given
/// one is not empty.
pub open spec fn is_new_material(
    m: Material,
    id: Seq<char>,
    name: Seq<char>,
    kind: MaterialType,
    description: Seq<char>,
) -> bool {
    &&& m.id@ == id
    &&& m.name@ == name
    &&& m.material_type == kind
    &&& answered(m.description, description)
    &&& m.geology.is_none()
    &&& m.properties@.len() == 0
    &&& m.metadata@ == Map::<Seq<char>, serde_json::Value>::empty()
}

/// Whether a model is a new one with the given fields: it has no component,
/// material, reference system, extent or metadata, and a description only
/// where the given one is not empty.
pub open spec fn is_new_model(
    m: GroundModel,
    id: Seq<char>,
    name: Seq<char>,
    kind: ModelType,
    dimension: ModelDimension,
    description: Seq<char>,
) -> bool {
    &&& m.id@ == id
    &&& m.name@ == name
    &&& m.model_type == kind
    &&& m.dimension == dimension
    &&& answered(m.description, description)
    &&& m.components@.len() == 0
    &&& m.materials@.len() == 0
    &&& m.crs.is_none()
    &&& m.extent.is_none()
    &&& m.metadata@ == Map::<Seq<char>, serde_json::Value>::empty()
}

/// Whether a component is a new one with the given fields: it stands at the
/// origin and has no elevation, thickness or attribute.
pub open spec fn is_new_component(
    c: ModelComponent,
    id: Seq<char>,
    name: Seq<char>,
    kind: ComponentType,
    material_id: Seq<char>,
) -> bool {
    &&& c.id@ == id
    &&& c.name@ == name
    &&& c.component_type == kind
    &&& c.material_id@ == material_id
    &&& (c.geometry matches Geometry::Point { coordinates, crs } && coordinates@ == seq![
        Scalar { bits: 0 },
        Scalar { bits: 0 },
        Scalar { bits: 0 },
    ] && crs.is_none())
    &&& c.top.is_none()
    &&& c.base.is_none()
    &&& c.thickness.is_none()
    &&& c.attributes@ == Map::<Seq<char>, serde_json::Value>::empty()
}

/// Whether `after` is `before` with the material `m` added: at the end of
/// the first model, or, where there is no model, in a default model made for
/// it.
pub open spec fn material_added(before: Document, after: Document, m: Material) -> bool {
    if before.agsi_model@.len() == 0 {
        let made = after.agsi_model@[0];
        &&& after == (Document { agsi_model: after.agsi_model, ..before })
        &&& after.agsi_model@.len() == 1
        &&& made.id@ == DEFAULT_MODEL_ID@
        &&& made.name@ == DEFAULT_MODEL_NAME@
        &&& made.model_type == ModelType::Geotechnical
        &&& made.dimension == ModelDimension::TwoD
        &&& made.description.is_none()
        &&& made.components@.len() == 0
        &&& made.crs.is_none()
        &&& made.extent.is_none()
        &&& made.metadata@ == Map::<Seq<char>, serde_json::Value>::empty()
        &&& made.materials@ == seq![m]
    } else {
        let changed = after.agsi_model@[0];
        &&& before.with_model(0, changed, after)
        &&& changed == (GroundModel { materials: changed.materials, ..before.agsi_model@[0] })
        &&& changed.materials@ == before.agsi_model@[0].materials@.push(m)
    }
}

/// Whether `after` is `before` with the component `c` added at the end of
/// the model at position `at`.
pub open spec fn component_added(before: Document, after: Document, at: int, c: ModelComponent) -> bool {
    let changed = after.agsi_model@[at];
    &&& before.with_model(at, changed, after)
    &&& changed == (GroundModel { components: changed.components, ..before.agsi_model@[at] })
    &&& changed.components@ == before.agsi_model@[at].components@.push(c)
}

impl MaterialDraft {
    /// Whether nothing was entered yet.
    pub open spec fn blank(self) -> bool {
        &&& self.id@.len() == 0
        &&& self.name@.len() == 0
        &&& self.material_type.is_none()
        &&& self.step == MaterialStep::EnteringId
    }
}

impl ModelDraft {
    /// Whether nothing was entered yet.
    pub open spec fn blank(self) -> bool {
        &&& self.id@.len() == 0
        &&& self.name@.len() == 0
        &&& self.model_type.is_none()
        &&& self.dimension.is_none()
        &&& self.step == ModelStep::EnteringId
    }
}

impl ComponentDraft {
    /// Whether nothing was entered yet.
    pub open spec fn blank(self) -> bool {
        &&& self.id@.len() == 0
        &&& self.name@.len() == 0
        &&& self.component_type.is_none()
        &&& self.model_index == 0
        &&& self.step == ComponentStep::SelectingModel
    }
}

impl Creation {
    /// The length of the list that the selection moves through at the
    /// current step: the models where a component chooses its model, the
    /// list of kinds where a kind or a dimension is chosen, and 0 at a step
    /// that takes text.
    pub open spec fn choices(self, models: nat) -> nat {
        match self {
            Creation::Material(d) => if d.step == MaterialStep::SelectingType {
                KIND_LIST_LENGTH as nat
            } else {
                0
            },
            Creation::Model(d) => if d.step == ModelStep::SelectingType || d.step
                == ModelStep::SelectingDimension {
                KIND_LIST_LENGTH as nat
            } else {
                0
            },
            Creation::Component(d) => if d.step == ComponentStep::SelectingModel {
                models
            } else if d.step == ComponentStep::SelectingType {
                KIND_LIST_LENGTH as nat
            } else {
                0
            },
        }
    }
}

impl Editor {
    /// The length of the list that is shown.
    pub open spec fn list_len(self) -> nat {
        match self.view_mode {
            ViewMode::DocumentInfo => 0,
            ViewMode::Models => self.document.agsi_model@.len(),
            ViewMode::Materials => clipped(self.document.material_total()),
            ViewMode::Components => clipped(self.document.component_total()),
        }
    }

    /// The selected position, the first one where nothing is selected.
    pub open spec fn cursor(self) -> nat {
        match self.selected {
            Some(i) => i as nat,
            None => 0,
        }
    }

    /// Whether `after` differs from this state in nothing but the creation,
    /// the input buffer, the message and the selection.
    pub open spec fn same_frame(self, after: Editor) -> bool {
        &&& after.document == self.document
        &&& after.file_path == self.file_path
        &&& after.view_mode == self.view_mode
        &&& after.should_quit == self.should_quit
    }

    /// Whether `after` is this state with another message and nothing else
    /// changed.
    pub open spec fn says(self, after: Editor, message: Seq<char>) -> bool {
        &&& after.status_message@ == message
        &&& after == (Editor { status_message: after.status_message, ..self })
    }

    /// Whether `after` is this state after the selection moved in a list of
    /// `len` entries; nothing moves in an empty list.
    pub open spec fn moved(self, after: Editor, len: nat, down: bool, from: Option<usize>) -> bool {
        if len == 0 {
            after == self
        } else {
            let to = if down {
                moved_down(from, len)
            } else {
                moved_up(from, len)
            };
            after == (Editor { selected: Some(to as usize), ..self })
        }
    }

    /// Whether `after` is this state after a creation was asked for: in the
    /// views of materials, models and components a blank draft is begun,
    /// except that a component needs a model to go to; in the view of the
    /// document the user is told to choose a view. The input buffer is
    /// emptied in any case.
    pub open spec fn started(self, after: Editor) -> bool {
        &&& self.same_frame(after)
        &&& after.selected == self.selected
        &&& after.input_buffer@.len() == 0
        &&& match self.view_mode {
            ViewMode::Materials => after.status_message@ == NEW_MATERIAL_MESSAGE@ && (
            after.creation matches Some(Creation::Material(d)) && d.blank()),
            ViewMode::Models => after.status_message@ == NEW_MODEL_MESSAGE@ && (
            after.creation matches Some(Creation::Model(d)) && d.blank()),
            ViewMode::Components => if self.document.agsi_model@.len() == 0 {
                after.status_message@ == NEED_MODEL_MESSAGE@ && after.creation.is_none()
            } else {
                after.status_message@ == NEW_COMPONENT_MESSAGE@ && (
                after.creation matches Some(Creation::Component(d)) && d.blank())
            },
            ViewMode::DocumentInfo => after.status_message@ == CHOOSE_VIEW_MESSAGE@
                && after.creation.is_none(),
        }
    }

    /// Whether `after` is this state after a key outside a creation, with
    /// the action that the key asks for.
    pub open spec fn normal_step(self, key: Key, after: Editor, action: Action) -> bool {
        match key {
            Key::Char(c) => if c == 's' && self.file_path.is_some() {
                action == Action::Save && after == self
            } else {
                action == Action::Idle && if c == 'q' {
                    after == (Editor { should_quit: true, ..self })
                } else if c == 'd' {
                    after == (Editor { view_mode: ViewMode::DocumentInfo, ..self })
                } else if c == 'm' {
                    after == (Editor { view_mode: ViewMode::Models, ..self })
                } else if c == 'a' {
                    after == (Editor { view_mode: ViewMode::Materials, ..self })
                } else if c == 'c' {
                    after == (Editor { view_mode: ViewMode::Components, ..self })
                } else if c == 'n' {
                    self.started(after)
                } else if c == 's' {
                    self.says(after, NO_PATH_MESSAGE@)
                } else if c == '?' {
                    self.says(after, HELP_MESSAGE@)
                } else {
                    after == self
                }
            },
            Key::Down => action == Action::Idle && self.moved(
                after,
                self.list_len(),
                true,
                self.selected,
            ),
            Key::Up => action == Action::Idle && self.moved(
                after,
                self.list_len(),
                false,
                self.selected,
            ),
            _ => action == Action::Idle && after == self,
        }
    }

    /// Whether `after` is this state after a text field of a draft was
    /// confirmed: the buffer is empty, the message asks for the next field,
    /// and the selection is as given.
    pub open spec fn advanced(
        self,
        after: Editor,
        message: Seq<char>,
        selected: Option<usize>,
    ) -> bool {
        &&& self.same_frame(after)
        &&& after.input_buffer@.len() == 0
        &&& after.status_message@ == message
        &&& after.selected == selected
    }

    /// Whether `after` is this state after an entity was created: the
    /// creation is over, the buffer is empty, the message names the entity,
    /// and the view shows its kind.
    pub open spec fn completed(self, after: Editor, what: Seq<char>, id: Seq<char>, view: ViewMode) -> bool {
        &&& after.creation.is_none()
        &&& after.input_buffer@.len() == 0
        &&& after.status_message@ == created_message(what, id)
        &&& after.view_mode == view
        &&& after.file_path == self.file_path
        &&& after.selected == self.selected
        &&& after.should_quit == self.should_quit
    }

    /// Whether `after` is this state after a step of the creation of a
    /// material was confirmed.
    pub open spec fn material_confirmed(self, d: MaterialDraft, after: Editor) -> bool {
        match d.step {
            MaterialStep::EnteringId => self.advanced(after, MATERIAL_NAME_MESSAGE@, self.selected)
                && (after.creation matches Some(Creation::Material(n)) && n.id@
                == self.input_buffer@ && n == (MaterialDraft {
                id: n.id,
                step: MaterialStep::EnteringName,
                ..d
            })),
            MaterialStep::EnteringName => self.advanced(after, MATERIAL_TYPE_MESSAGE@, Some(0usize))
                && (after.creation matches Some(Creation::Material(n)) && n.name@
                == self.input_buffer@ && n == (MaterialDraft {
                name: n.name,
                step: MaterialStep::SelectingType,
                ..d
            })),
            MaterialStep::SelectingType => self.advanced(after, DESCRIPTION_MESSAGE@, self.selected)
                && (after.creation matches Some(Creation::Material(n)) && n == (MaterialDraft {
                material_type: Some(material_kind_at(self.cursor())),
                step: MaterialStep::EnteringDescription,
                ..d
            })),
            MaterialStep::EnteringDescription => match d.material_type {
                None => after == self,
                Some(kind) => {
                    let made = after.document.agsi_model@[0].materials@.last();
                    &&& self.completed(after, "Material"@, d.id@, ViewMode::Materials)
                    &&& is_new_material(made, d.id@, d.name@, kind, self.input_buffer@)
                    &&& material_added(self.document, after.document, made)
                },
            },
        }
    }

    /// Whether `after` is this state after a step of the creation of a model
    /// was confirmed.
    pub open spec fn model_confirmed(self, d: ModelDraft, after: Editor) -> bool {
        match d.step {
            ModelStep::EnteringId => self.advanced(after, MODEL_NAME_MESSAGE@, self.selected) && (
            after.creation matches Some(Creation::Model(n)) && n.id@ == self.input_buffer@ && n == (
            ModelDraft { id: n.id, step: ModelStep::EnteringName, ..d })),
            ModelStep::EnteringName => self.advanced(after, MODEL_TYPE_MESSAGE@, Some(0usize)) && (
            after.creation matches Some(Creation::Model(n)) && n.name@ == self.input_buffer@ && n
                == (ModelDraft { name: n.name, step: ModelStep::SelectingType, ..d })),
            ModelStep::SelectingType => self.advanced(after, DIMENSION_MESSAGE@, Some(0usize)) && (
            after.creation matches Some(Creation::Model(n)) && n == (ModelDraft {
                model_type: Some(model_kind_at(self.cursor())),
                step: ModelStep::SelectingDimension,
                ..d
            })),
            ModelStep::SelectingDimension => self.advanced(
                after,
                DESCRIPTION_MESSAGE@,
                self.selected,
            ) && (after.creation matches Some(Creation::Model(n)) && n == (ModelDraft {
                dimension: Some(dimension_at(self.cursor())),
                step: ModelStep::EnteringDescription,
                ..d
            })),
            ModelStep::EnteringDescription => match (d.model_type, d.dimension) {
                (Some(kind), Some(dimension)) => {
                    let made = after.document.agsi_model@.last();
                    &&& self.completed(after, "Model"@, d.id@, ViewMode::Models)
                    &&& is_new_model(made, d.id@, d.name@, kind, dimension, self.input_buffer@)
                    &&& after.document.agsi_model@ == self.document.agsi_model@.push(made)
                    &&& after.document == (Document {
                        agsi_model: after.document.agsi_model,
                        ..self.document
                    })
                },
                _ => after == self,
            },
        }
    }

    /// Whether `after` is this state after a step of the creation of a
    /// component was confirmed.
    pub open spec fn component_confirmed(self, d: ComponentDraft, after: Editor) -> bool {
        match d.step {
            ComponentStep::SelectingModel => self.advanced(
                after,
                COMPONENT_ID_MESSAGE@,
                self.selected,
            ) && (after.creation matches Some(Creation::Component(n)) && n == (ComponentDraft {
                model_index: self.cursor() as usize,
                step: ComponentStep::EnteringId,
                ..d
            })),
            ComponentStep::EnteringId => self.advanced(
                after,
                COMPONENT_NAME_MESSAGE@,
                self.selected,
            ) && (after.creation matches Some(Creation::Component(n)) && n.id@
                == self.input_buffer@ && n == (ComponentDraft {
                id: n.id,
                step: ComponentStep::EnteringName,
                ..d
            })),
            ComponentStep::EnteringName => self.advanced(
                after,
                COMPONENT_TYPE_MESSAGE@,
                Some(0usize),
            ) && (after.creation matches Some(Creation::Component(n)) && n.name@
                == self.input_buffer@ && n == (ComponentDraft {
                name: n.name,
                step: ComponentStep::SelectingType,
                ..d
            })),
            ComponentStep::SelectingType => self.advanced(
                after,
                MATERIAL_ID_MESSAGE@,
                self.selected,
            ) && (after.creation matches Some(Creation::Component(n)) && n == (ComponentDraft {
                component_type: Some(component_kind_at(self.cursor())),
                step: ComponentStep::EnteringMaterialId,
                ..d
            })),
            ComponentStep::EnteringMaterialId => match d.component_type {
                Some(kind) if d.model_index < self.document.agsi_model@.len() => {
                    let at = d.model_index as int;
                    let made = after.document.agsi_model@[at].components@.last();
                    &&& self.completed(after, "Component"@, d.id@, ViewMode::Components)
                    &&& is_new_component(made, d.id@, d.name@, kind, self.input_buffer@)
                    &&& component_added(self.document, after.document, at, made)
                },
                _ => after == self,
            },
        }
    }

    /// Whether `after` is this state after a key during the creation `c`.
    pub open spec fn creation_step(self, c: Creation, key: Key, after: Editor) -> bool {
        match key {
            Key::Esc => self.same_frame(after) && after.selected == self.selected
                && after.creation.is_none() && after.input_buffer@.len() == 0
                && after.status_message@ == CANCELLED_MESSAGE@,
            Key::Enter => match c {
                Creation::Material(d) => self.material_confirmed(d, after),
                Creation::Model(d) => self.model_confirmed(d, after),
                Creation::Component(d) => self.component_confirmed(d, after),
            },
            Key::Backspace => after == (Editor { input_buffer: after.input_buffer, ..self })
                && after.input_buffer@ == if self.input_buffer@.len() == 0 {
                self.input_buffer@
            } else {
                self.input_buffer@.drop_last()
            },
            Key::Char(ch) => after == (Editor { input_buffer: after.input_buffer, ..self })
                && after.input_buffer@ == self.input_buffer@.push(ch),
            Key::Down => self.moved(
                after,
                c.choices(self.document.agsi_model@.len()),
                true,
                Some(self.cursor() as usize),
            ),
            Key::Up => self.moved(
                after,
                c.choices(self.document.agsi_model@.len()),
                false,
                Some(self.cursor() as usize),
            ),
            Key::Other => after == self,
        }
    }

    /// Whether `after` is this state after a key, with the action that the
    /// key asks for.
    pub open spec fn step(self, key: Key, after: Editor, action: Action) -> bool {
        match self.creation {
            None => self.normal_step(key, after, action),
            Some(c) => action == Action::Idle && self.creation_step(c, key, after),
        }
    }
}

fn created_text(what: &str, id: &String) -> (message: String)
    ensures
        message@ == created_message(what@, id@),
{
    let mut message = String::from_str("\u{2705} ");
    message.append(what);
    message.append(" '");
    message.append(id.as_str());
    message.append("' created!");
    message
}

impl Editor {
    /// An editor of the given document that saves to the given file. It
    /// shows the document, selects the first entry, and greets the user.
    pub fn new(document: Document, file_path: Option<String>) -> (editor: Editor)
        ensures
            editor.document == document,
            editor.file_path == file_path,
            editor.selected == Some(0usize),
            editor.view_mode == ViewMode::DocumentInfo,
            editor.creation.is_none(),
            editor.input_buffer@.len() == 0,
            editor.status_message@ == START_MESSAGE@,
            !editor.should_quit,
    {
        Editor {
            document,
            file_path,
            selected: Some(0),
            view_mode: ViewMode::DocumentInfo,
            creation: None,
            input_buffer: String::new(),
            status_message: String::from_str(START_MESSAGE),
            should_quit: false,
        }
    }

    /// The length of the list that is shown.
    pub fn get_list_len(&self) -> (len: usize)
        ensures
            len == self.list_len(),
    {
        match self.view_mode {
            ViewMode::DocumentInfo => 0,
            ViewMode::Models => self.document.agsi_model.len(),
            ViewMode::Materials => self.document.material_count(),
            ViewMode::Components => self.document.component_count(),
        }
    }

    fn say(&mut self, message: &str)
        ensures
            old(self).says(*final(self), message@),
    {
        self.status_message = String::from_str(message);
    }

    fn move_selection(&mut self, len: usize, down: bool, from: Option<usize>)
        ensures
            old(self).moved(*final(self), len as nat, down, from),
    {
        if len > 0 {
            let to = if down {
                select_next(from, len)
            } else {
                select_previous(from, len)
            };
            self.selected = Some(to);
        }
    }

    fn cursor_position(&self) -> (at: usize)
        ensures
            at == self.cursor(),
    {
        match self.selected {
            Some(i) => i,
            None => 0,
        }
    }

    fn start_creation_workflow(&mut self)
        requires
            old(self).creation.is_none(),
        ensures
            old(self).started(*final(self)),
    {
        match self.view_mode {
            ViewMode::Materials => {
                self.creation = Some(
                    Creation::Material(
                        MaterialDraft {
                            id: String::new(),
                            name: String::new(),
                            material_type: None,
                            step: MaterialStep::EnteringId,
                        },
                    ),
                );
                self.status_message = String::from_str(NEW_MATERIAL_MESSAGE);
            },
            ViewMode::Models => {
                self.creation = Some(
                    Creation::Model(
                        ModelDraft {
                            id: String::new(),
                            name: String::new(),
                            model_type: None,
                            dimension: None,
                            step: ModelStep::EnteringId,
                        },
                    ),
                );
                self.status_message = String::from_str(NEW_MODEL_MESSAGE);
            },
            ViewMode::Components => {
                if self.document.agsi_model.len() == 0 {
                    self.status_message = String::from_str(NEED_MODEL_MESSAGE);
                } else {
                    self.creation = Some(
                        Creation::Component(
                            ComponentDraft {
                                id: String::new(),
                                name: String::new(),
                                component_type: None,
                                model_index: 0,
                                step: ComponentStep::SelectingModel,
                            },
                        ),
                    );
                    self.status_message = String::from_str(NEW_COMPONENT_MESSAGE);
                }
            },
            ViewMode::DocumentInfo => {
                self.status_message = String::from_str(CHOOSE_VIEW_MESSAGE);
            },
        }
        self.input_buffer = String::new();
    }

    /// Takes the text of the input buffer and leaves the buffer empty.
    fn take_input(&mut self) -> (text: String)
        ensures
            text@ == old(self).input_buffer@,
            final(self).input_buffer@.len() == 0,
            *final(self) == (Editor { input_buffer: final(self).input_buffer, ..*old(self) }),
    {
        let mut text = String::new();
        core::mem::swap(&mut self.input_buffer, &mut text);
        text
    }

    fn confirm_material(&mut self, d: MaterialDraft)
        requires
            old(self).creation.is_none(),
        ensures
            (Editor { creation: Some(Creation::Material(d)), ..*old(self) }).material_confirmed(
                d,
                *final(self),
            ),
    {
        match d.step {
            MaterialStep::EnteringId => {
                let id = self.take_input();
                self.creation = Some(
                    Creation::Material(
                        MaterialDraft {
                            id,
                            name: d.name,
                            material_type: d.material_type,
                            step: MaterialStep::EnteringName,
                        },
                    ),
                );
                self.status_message = String::from_str(MATERIAL_NAME_MESSAGE);
            },
            MaterialStep::EnteringName => {
                let name = self.take_input();
                self.creation = Some(
                    Creation::Material(
                        MaterialDraft {
                            id: d.id,
                            name,
                            material_type: d.material_type,
                            step: MaterialStep::SelectingType,
                        },
                    ),
                );
                self.selected = Some(0);
                self.status_message = String::from_str(MATERIAL_TYPE_MESSAGE);
            },
            MaterialStep::SelectingType => {
                let kind = material_kind(self.cursor_position());
                self.creation = Some(
                    Creation::Material(
                        MaterialDraft {
                            id: d.id,
                            name: d.name,
                            material_type: Some(kind),
                            step: MaterialStep::EnteringDescription,
                        },
                    ),
                );
                self.input_buffer = String::new();
                self.status_message = String::from_str(DESCRIPTION_MESSAGE);
            },
            MaterialStep::EnteringDescription => {
                match d.material_type {
                    None => {
                        self.creation = Some(Creation::Material(d));
                    },
                    Some(kind) => {
                        let description = self.take_input();
                        let mut material = Material::new(d.id.as_str(), d.name.as_str(), kind);
                        if !description.as_str().is_empty() {
                            material = material.with_description(description.as_str());
                        }
                        if self.document.agsi_model.len() == 0 {
                            let mut model = GroundModel::new(
                                DEFAULT_MODEL_ID,
                                DEFAULT_MODEL_NAME,
                                ModelType::Geotechnical,
                                ModelDimension::TwoD,
                            );
                            model.add_material(material);
                            self.document.add_model(model);
                            proof {
                                assert(self.document.agsi_model@[0].materials@ =~= seq![material]);
                            }
                        } else {
                            self.document.add_material_to(0, material);
                        }
                        self.status_message = created_text("Material", &d.id);
                        self.view_mode = ViewMode::Materials;
                    },
                }
            },
        }
    }

    fn confirm_model(&mut self, d: ModelDraft)
        requires
            old(self).creation.is_none(),
        ensures
            (Editor { creation: Some(Creation::Model(d)), ..*old(self) }).model_confirmed(
                d,
                *final(self),
            ),
    {
        match d.step {
            ModelStep::EnteringId => {
                let id = self.take_input();
                self.creation = Some(
                    Creation::Model(
                        ModelDraft {
                            id,
                            name: d.name,
                            model_type: d.model_type,
                            dimension: d.dimension,
                            step: ModelStep::EnteringName,
                        },
                    ),
                );
                self.status_message = String::from_str(MODEL_NAME_MESSAGE);
            },
            ModelStep::EnteringName => {
                let name = self.take_input();
                self.creation = Some(
                    Creation::Model(
                        ModelDraft {
                            id: d.id,
                            name,
                            model_type: d.model_type,
                            dimension: d.dimension,
                            step: ModelStep::SelectingType,
                        },
                    ),
                );
                self.selected = Some(0);
                self.status_message = String::from_str(MODEL_TYPE_MESSAGE);
            },
            ModelStep::SelectingType => {
                let kind = model_kind(self.cursor_position());
                self.creation = Some(
                    Creation::Model(
                        ModelDraft {
                            id: d.id,
                            name: d.name,
                            model_type: Some(kind),
                            dimension: d.dimension,
                            step: ModelStep::SelectingDimension,
                        },
                    ),
                );
                self.input_buffer = String::new();
                self.selected = Some(0);
                self.status_message = String::from_str(DIMENSION_MESSAGE);
            },
            ModelStep::SelectingDimension => {
                let dimension = dimension_kind(self.cursor_position());
                self.creation = Some(
                    Creation::Model(
                        ModelDraft {
                            id: d.id,
                            name: d.name,
                            model_type: d.model_type,
                            dimension: Some(dimension),
                            step: ModelStep::EnteringDescription,
                        },
                    ),
                );
                self.input_buffer = String::new();
                self.status_message = String::from_str(DESCRIPTION_MESSAGE);
            },
            ModelStep::EnteringDescription => {
                match (d.model_type, d.dimension) {
                    (Some(kind), Some(dimension)) => {
                        let description = self.take_input();
                        let mut model = GroundModel::new(
                            d.id.as_str(),
                            d.name.as_str(),
                            kind,
                            dimension,
                        );
                        if !description.as_str().is_empty() {
                            model.description = Some(description);
                        }
                        self.document.add_model(model);
                        self.status_message = created_text("Model", &d.id);
                        self.view_mode = ViewMode::Models;
                    },
                    _ => {
                        self.creation = Some(Creation::Model(d));
                    },
                }
            },
        }
    }

    fn confirm_component(&mut self, d: ComponentDraft)
        requires
            old(self).creation.is_none(),
        ensures
            (Editor { creation: Some(Creation::Component(d)), ..*old(self) }).component_confirmed(
                d,
                *final(self),
            ),
    {
        match d.step {
            ComponentStep::SelectingModel => {
                let at = self.cursor_position();
                self.creation = Some(
                    Creation::Component(
                        ComponentDraft {
                            id: d.id,
                            name: d.name,
                            component_type: d.component_type,
                            model_index: at,
                            step: ComponentStep::EnteringId,
                        },
                    ),
                );
                self.input_buffer = String::new();
                self.status_message = String::from_str(COMPONENT_ID_MESSAGE);
            },
            ComponentStep::EnteringId => {
                let id = self.take_input();
                self.creation = Some(
                    Creation::Component(
                        ComponentDraft {
                            id,
                            name: d.name,
                            component_type: d.component_type,
                            model_index: d.model_index,
                            step: ComponentStep::EnteringName,
                        },
                    ),
                );
                self.status_message = String::from_str(COMPONENT_NAME_MESSAGE);
            },
            ComponentStep::EnteringName => {
                let name = self.take_input();
                self.creation = Some(
                    Creation::Component(
                        ComponentDraft {
                            id: d.id,
                            name,
                            component_type: d.component_type,
                            model_index: d.model_index,
                            step: ComponentStep::SelectingType,
                        },
                    ),
                );
                self.selected = Some(0);
                self.status_message = String::from_str(COMPONENT_TYPE_MESSAGE);
            },
            ComponentStep::SelectingType => {
                let kind = component_kind(self.cursor_position());
                self.creation = Some(
                    Creation::Component(
                        ComponentDraft {
                            id: d.id,
                            name: d.name,
                            component_type: Some(kind),
                            model_index: d.model_index,
                            step: ComponentStep::EnteringMaterialId,
                        },
                    ),
                );
                self.input_buffer = String::new();
                self.status_message = String::from_str(MATERIAL_ID_MESSAGE);
            },
            ComponentStep::EnteringMaterialId => {
                match d.component_type {
                    Some(kind) => {
                        if d.model_index < self.document.agsi_model.len() {
                            let material_id = self.take_input();
                            let zero = Scalar::zero();
                            let component = ModelComponent::new(
                                d.id.as_str(),
                                d.name.as_str(),
                                kind,
                                material_id.as_str(),
                                Geometry::point(zero, zero, zero),
                            );
                            self.document.add_component_to(d.model_index, component);
                            self.status_message = created_text("Component", &d.id);
                            self.view_mode = ViewMode::Components;
                        } else {
                            self.creation = Some(Creation::Component(d));
                        }
                    },
                    None => {
                        self.creation = Some(Creation::Component(d));
                    },
                }
            },
        }
    }

    fn choices(&self) -> (len: usize)
        ensures
            self.creation matches Some(c) ==> len == c.choices(self.document.agsi_model@.len()),
    {
        match &self.creation {
            Some(Creation::Material(d)) => match d.step {
                MaterialStep::SelectingType => KIND_LIST_LENGTH,
                _ => 0,
            },
            Some(Creation::Model(d)) => match d.step {
                ModelStep::SelectingType => KIND_LIST_LENGTH,
                ModelStep::SelectingDimension => KIND_LIST_LENGTH,
                _ => 0,
            },
            Some(Creation::Component(d)) => match d.step {
                ComponentStep::SelectingModel => self.document.agsi_model.len(),
                ComponentStep::SelectingType => KIND_LIST_LENGTH,
                _ => 0,
            },
            None => 0,
        }
    }

    fn handle_creation_input(&mut self, key: Key)
        requires
            old(self).creation.is_some(),
        ensures
            old(self).creation_step(old(self).creation.unwrap(), key, *final(self)),
    {
        match key {
            Key::Esc => {
                self.creation = None;
                self.input_buffer = String::new();
                self.status_message = String::from_str(CANCELLED_MESSAGE);
            },
            Key::Enter => {
                let mut current: Option<Creation> = None;
                core::mem::swap(&mut self.creation, &mut current);
                match current {
                    Some(Creation::Material(d)) => self.confirm_material(d),
                    Some(Creation::Model(d)) => self.confirm_model(d),
                    Some(Creation::Component(d)) => self.confirm_component(d),
                    None => {},
                }
            },
            Key::Backspace => {
                let _ = pop_char(&mut self.input_buffer);
            },
            Key::Char(c) => {
                push_char(&mut self.input_buffer, c);
            },
            Key::Down => {
                let len = self.choices();
                let from = Some(self.cursor_position());
                self.move_selection(len, true, from);
            },
            Key::Up => {
                let len = self.choices();
                let from = Some(self.cursor_position());
                self.move_selection(len, false, from);
            },
            Key::Other => {},
        }
    }

    /// Handles a key: changes the state as the key asks and says what the
    /// caller is to do.
    pub fn handle_input(&mut self, key: Key) -> (action: Action)
        ensures
            old(self).step(key, *final(self), action),
    {
        if self.creation.is_some() {
            self.handle_creation_input(key);
            return Action::Idle;
        }
        match key {
            Key::Char(c) => {
                if c == 'q' {
                    self.should_quit = true;
                } else if c == 'd' {
                    self.view_mode = ViewMode::DocumentInfo;
                } else if c == 'm' {
                    self.view_mode = ViewMode::Models;
                } else if c == 'a' {
                    self.view_mode = ViewMode::Materials;
                } else if c == 'c' {
                    self.view_mode = ViewMode::Components;
                } else if c == 'n' {
                    self.start_creation_workflow();
                } else if c == 's' {
                    if self.file_path.is_some() {
                        return Action::Save;
                    }
                    self.say(NO_PATH_MESSAGE);
                } else if c == '?' {
                    self.say(HELP_MESSAGE);
                }
                Action::Idle
            },
            Key::Down => {
                let len = self.get_list_len();
                let from = self.selected;
                self.move_selection(len, true, from);
                Action::Idle
            },
            Key::Up => {
                let len = self.get_list_len();
                let from = self.selected;
                self.move_selection(len, false, from);
                Action::Idle
            },
            _ => Action::Idle,
        }
    }

    /// Tells the user how saving went: that the document was saved to the
    /// file of the editor, or why it was not.
    pub fn report_save(&mut self, outcome: Result<(), String>)
        ensures
            old(self).says(
                *final(self),
                match (old(self).file_path, outcome) {
                    (Some(path), Ok(_)) => saved_message(path@),
                    (Some(_), Err(reason)) => save_failed_message(reason@),
                    (None, _) => NO_PATH_MESSAGE@,
                },
            ),
    {
        let message = match (&self.file_path, &outcome) {
            (Some(path), Ok(_)) => String::from_str("\u{2705} Saved to ").concat(path.as_str()),
            (Some(_), Err(reason)) => String::from_str("\u{274c} Error saving: ").concat(
                reason.as_str(),
            ),
            (None, _) => String::from_str(NO_PATH_MESSAGE),
        };
        self.status_message = message;
    }
}

/// Escape ends a creation at any step and leaves the document as it was.
pub proof fn lemma_escape_cancels(before: Editor, after: Editor, action: Action)
    requires
        before.creation.is_some(),
        before.step(Key::Esc, after, action),
    ensures
        after.creation.is_none(),
        after.document == before.document,
        after.input_buffer@.len() == 0,
        action == Action::Idle,
{
}

/// No key removes a model from the document, and a key adds at most one.
pub proof fn lemma_models_are_kept(before: Editor, key: Key, after: Editor, action: Action)
    requires
        before.step(key, after, action),
    ensures
        before.document.agsi_model@.len() <= after.document.agsi_model@.len()
            <= before.document.agsi_model@.len() + 1,
        forall|i: int|
            0 <= i < before.document.agsi_model@.len() ==> (
            #[trigger] after.document.agsi_model@[i]).id == before.document.agsi_model@[i].id,
{
    match before.creation {
        None => {
            assert(after.document == before.document);
        },
        Some(c) => {
            if key == Key::Enter {
                match c {
                    Creation::Material(d) => {
                        if d.step == MaterialStep::EnteringDescription && d.material_type.is_some() {
                            let made = after.document.agsi_model@[0].materials@.last();
                            assert(material_added(before.document, after.document, made));
                        } else {
                            assert(after.document == before.document);
                        }
                    },
                    Creation::Model(d) => {
                        if d.step == ModelStep::EnteringDescription && d.model_type.is_some()
                            && d.dimension.is_some() {
                            let made = after.document.agsi_model@.last();
                            assert(after.document.agsi_model@ == before.document.agsi_model@.push(
                                made,
                            ));
                        } else {
                            assert(after.document == before.document);
                        }
                    },
                    Creation::Component(d) => {
                        if d.step == ComponentStep::EnteringMaterialId && d.component_type.is_some()
                            && d.model_index < before.document.agsi_model@.len() {
                            let at = d.model_index as int;
                            let made = after.document.agsi_model@[at].components@.last();
                            assert(component_added(before.document, after.document, at, made));
                        } else {
                            assert(after.document == before.document);
                        }
                    },
                }
            } else {
                assert(after.document == before.document);
            }
        },
    }
}

/// Only the key `q`, outside a creation, makes the editor leave.
pub proof fn lemma_only_q_quits(before: Editor, key: Key, after: Editor, action: Action)
    requires
        before.step(key, after, action),
        after.should_quit != before.should_quit,
    ensures
        key == Key::Char('q'),
        before.creation.is_none(),
        after.should_quit,
{
    match before.creation {
        None => {},
        Some(c) => {
            if key == Key::Enter {
                match c {
                    Creation::Material(d) => {},
                    Creation::Model(d) => {},
                    Creation::Component(d) => {},
                }
            }
        },
    }
}

/// Moving down in a list that is not empty selects an entry of the list.
pub proof fn lemma_down_lands_in_list(before: Editor, after: Editor, action: Action)
    requires
        before.creation.is_none(),
        before.list_len() > 0,
        before.step(Key::Down, after, action),
    ensures
        after.selected matches Some(i) && i < before.list_len(),
{
    let len = before.list_len() as int;
    match before.selected {
        Some(i) => {
            vstd::arithmetic::div_mod::lemma_mod_bound(i + 1, len);
        },
        None => {},
    }
}

} // verus!
