use agsi_core::editor::{
    component_kind, dimension_kind, material_kind, model_kind, select_next, select_previous, Action,
    Creation, Editor, Key, ViewMode,
};
use agsi_core::geometry::Geometry;
use agsi_core::material::{Material, MaterialType};
use agsi_core::model::{ComponentType, GroundModel, ModelDimension, ModelType};
use agsi_core::Document;

fn type_text(editor: &mut Editor, text: &str) {
    for c in text.chars() {
        assert_eq!(editor.handle_input(Key::Char(c)), Action::Idle);
    }
}

fn press(editor: &mut Editor, keys: &[Key]) {
    for key in keys {
        assert_eq!(editor.handle_input(*key), Action::Idle);
    }
}

fn document_with_models(n: usize) -> Document {
    let mut doc = Document::new("DOC001");
    for i in 0..n {
        doc.add_model(GroundModel::new(
            &format!("M{}", i),
            "Test",
            ModelType::Stratigraphic,
            ModelDimension::TwoD,
        ));
    }
    doc
}

#[test]
fn fresh_editor_shows_the_document_and_greets() {
    let editor = Editor::new(Document::new("DOC001"), Some("a.json".to_string()));
    assert_eq!(editor.view_mode, ViewMode::DocumentInfo);
    assert_eq!(editor.selected, Some(0));
    assert!(editor.creation.is_none());
    assert!(editor.input_buffer.is_empty());
    assert!(!editor.should_quit);
    assert_eq!(editor.status_message, "Press 'q' to quit, '?' for help, 'n' to create new");
    assert_eq!(editor.file_path.as_deref(), Some("a.json"));
    assert_eq!(editor.get_list_len(), 0);
}

#[test]
fn keys_switch_views_quit_and_help() {
    let mut editor = Editor::new(document_with_models(2), None);
    press(&mut editor, &[Key::Char('m')]);
    assert_eq!(editor.view_mode, ViewMode::Models);
    assert_eq!(editor.get_list_len(), 2);
    press(&mut editor, &[Key::Char('a')]);
    assert_eq!(editor.view_mode, ViewMode::Materials);
    press(&mut editor, &[Key::Char('c')]);
    assert_eq!(editor.view_mode, ViewMode::Components);
    press(&mut editor, &[Key::Char('d')]);
    assert_eq!(editor.view_mode, ViewMode::DocumentInfo);
    press(&mut editor, &[Key::Char('?')]);
    assert_eq!(
        editor.status_message,
        "Keys: q=quit, d=doc, m=models, a=materials, c=components, n=new, s=save, \u{2191}\u{2193}=navigate"
    );
    press(&mut editor, &[Key::Char('x'), Key::Other, Key::Enter, Key::Esc, Key::Backspace]);
    assert!(!editor.should_quit);
    assert!(editor.input_buffer.is_empty());
    press(&mut editor, &[Key::Char('q')]);
    assert!(editor.should_quit);
}

#[test]
fn selection_wraps_around_the_list() {
    let mut editor = Editor::new(document_with_models(3), None);
    // nothing to move through in the view of the document
    press(&mut editor, &[Key::Down]);
    assert_eq!(editor.selected, Some(0));
    press(&mut editor, &[Key::Char('m'), Key::Down]);
    assert_eq!(editor.selected, Some(1));
    press(&mut editor, &[Key::Down]);
    assert_eq!(editor.selected, Some(2));
    press(&mut editor, &[Key::Down]);
    assert_eq!(editor.selected, Some(0));
    press(&mut editor, &[Key::Up]);
    assert_eq!(editor.selected, Some(2));
    press(&mut editor, &[Key::Up]);
    assert_eq!(editor.selected, Some(1));
    editor.selected = None;
    press(&mut editor, &[Key::Down]);
    assert_eq!(editor.selected, Some(0));
    editor.selected = None;
    press(&mut editor, &[Key::Up]);
    assert_eq!(editor.selected, Some(0));
}

#[test]
fn selection_helpers_follow_their_formulas() {
    assert_eq!(select_next(Some(0), 1), 0);
    assert_eq!(select_next(Some(6), 8), 7);
    assert_eq!(select_next(Some(7), 8), 0);
    assert_eq!(select_next(Some(20), 8), 5);
    assert_eq!(select_next(Some(usize::MAX), 8), (usize::MAX % 8 + 1) % 8);
    assert_eq!(select_next(None, 8), 0);
    assert_eq!(select_previous(Some(0), 8), 7);
    assert_eq!(select_previous(Some(3), 8), 2);
    assert_eq!(select_previous(Some(20), 8), 19);
    assert_eq!(select_previous(None, 8), 0);
}

#[test]
fn kinds_are_chosen_by_position() {
    assert_eq!(material_kind(0), MaterialType::Soil);
    assert_eq!(material_kind(3), MaterialType::MadeGround);
    assert_eq!(material_kind(6), MaterialType::Void);
    assert_eq!(material_kind(7), MaterialType::Unknown);
    assert_eq!(material_kind(100), MaterialType::Unknown);
    assert_eq!(model_kind(1), ModelType::Structure);
    assert_eq!(model_kind(5), ModelType::Composite);
    assert_eq!(model_kind(7), ModelType::Composite);
    assert_eq!(dimension_kind(0), ModelDimension::OneD);
    assert_eq!(dimension_kind(1), ModelDimension::TwoD);
    assert_eq!(dimension_kind(2), ModelDimension::ThreeD);
    assert_eq!(dimension_kind(7), ModelDimension::ThreeD);
    assert_eq!(component_kind(0), ComponentType::Layer);
    assert_eq!(component_kind(4), ComponentType::Intrusion);
    assert_eq!(component_kind(7), ComponentType::Boundary);
}

#[test]
fn a_material_is_created_step_by_step() {
    let mut editor = Editor::new(document_with_models(2), None);
    press(&mut editor, &[Key::Char('a'), Key::Char('n')]);
    assert_eq!(editor.status_message, "Creating Material: Enter ID (press Esc to cancel)");
    assert!(matches!(editor.creation, Some(Creation::Material(_))));
    type_text(&mut editor, "MAT0011");
    press(&mut editor, &[Key::Backspace]);
    assert_eq!(editor.input_buffer, "MAT001");
    press(&mut editor, &[Key::Enter]);
    assert_eq!(editor.status_message, "Enter material name:");
    assert!(editor.input_buffer.is_empty());
    type_text(&mut editor, "Dense sand");
    press(&mut editor, &[Key::Enter]);
    assert_eq!(editor.status_message, "Select material type (\u{2191}\u{2193}, Enter):");
    assert_eq!(editor.selected, Some(0));
    press(&mut editor, &[Key::Down, Key::Down, Key::Down, Key::Up]);
    assert_eq!(editor.selected, Some(2));
    press(&mut editor, &[Key::Enter]);
    assert_eq!(editor.status_message, "Enter description (optional, press Enter to finish):");
    type_text(&mut editor, "medium to coarse");
    press(&mut editor, &[Key::Enter]);
    assert!(editor.creation.is_none());
    assert!(editor.input_buffer.is_empty());
    assert_eq!(editor.status_message, "\u{2705} Material 'MAT001' created!");
    assert_eq!(editor.view_mode, ViewMode::Materials);
    let doc = &editor.document;
    assert_eq!(doc.agsi_model.len(), 2);
    assert_eq!(doc.agsi_model[0].materials.len(), 1);
    assert!(doc.agsi_model[1].materials.is_empty());
    let m = &doc.agsi_model[0].materials[0];
    assert_eq!((m.id.as_str(), m.name.as_str()), ("MAT001", "Dense sand"));
    assert_eq!(m.material_type, MaterialType::Fill);
    assert_eq!(m.description.as_deref(), Some("medium to coarse"));
    assert_eq!(editor.get_list_len(), 1);
}

#[test]
fn the_first_material_of_an_empty_document_gets_a_default_model() {
    let mut editor = Editor::new(Document::new("DOC001"), None);
    press(&mut editor, &[Key::Char('a'), Key::Char('n')]);
    type_text(&mut editor, "MAT001");
    press(&mut editor, &[Key::Enter]);
    type_text(&mut editor, "Clay");
    press(&mut editor, &[Key::Enter, Key::Enter, Key::Enter]);
    let doc = &editor.document;
    assert_eq!(doc.agsi_model.len(), 1);
    let model = &doc.agsi_model[0];
    assert_eq!((model.id.as_str(), model.name.as_str()), ("MODEL001", "Default Model"));
    assert_eq!(model.model_type, ModelType::Geotechnical);
    assert_eq!(model.dimension, ModelDimension::TwoD);
    assert_eq!(model.materials.len(), 1);
    assert_eq!(model.materials[0].material_type, MaterialType::Soil);
    // no description was entered
    assert_eq!(model.materials[0].description, None);
}

#[test]
fn a_model_is_created_step_by_step() {
    let mut editor = Editor::new(Document::new("DOC001"), None);
    press(&mut editor, &[Key::Char('m'), Key::Char('n')]);
    assert_eq!(editor.status_message, "Creating Model: Enter ID (press Esc to cancel)");
    type_text(&mut editor, "M1");
    press(&mut editor, &[Key::Enter]);
    assert_eq!(editor.status_message, "Enter model name:");
    type_text(&mut editor, "Site");
    press(&mut editor, &[Key::Enter]);
    assert_eq!(editor.status_message, "Select model type (\u{2191}\u{2193}, Enter):");
    press(&mut editor, &[Key::Up]);
    assert_eq!(editor.selected, Some(7));
    press(&mut editor, &[Key::Enter]);
    assert_eq!(editor.status_message, "Select dimension (\u{2191}\u{2193}, Enter):");
    assert_eq!(editor.selected, Some(0));
    press(&mut editor, &[Key::Down, Key::Enter]);
    assert_eq!(editor.status_message, "Enter description (optional, press Enter to finish):");
    press(&mut editor, &[Key::Enter]);
    assert_eq!(editor.status_message, "\u{2705} Model 'M1' created!");
    assert_eq!(editor.view_mode, ViewMode::Models);
    assert!(editor.creation.is_none());
    let model = &editor.document.agsi_model[0];
    assert_eq!((model.id.as_str(), model.name.as_str()), ("M1", "Site"));
    assert_eq!(model.model_type, ModelType::Composite);
    assert_eq!(model.dimension, ModelDimension::TwoD);
    assert_eq!(model.description, None);
}

#[test]
fn a_component_is_created_in_the_chosen_model() {
    let mut doc = document_with_models(3);
    doc.agsi_model[1].add_material(Material::new("MAT001", "Clay", MaterialType::Soil));
    let mut editor = Editor::new(doc, None);
    press(&mut editor, &[Key::Char('c'), Key::Char('n')]);
    assert_eq!(
        editor.status_message,
        "Creating Component: Select model (\u{2191}\u{2193}, Enter to confirm, Esc to cancel)"
    );
    press(&mut editor, &[Key::Down, Key::Down, Key::Down, Key::Down, Key::Enter]);
    assert_eq!(editor.status_message, "Enter component ID:");
    type_text(&mut editor, "C1");
    press(&mut editor, &[Key::Enter]);
    assert_eq!(editor.status_message, "Enter component name:");
    type_text(&mut editor, "Upper layer");
    press(&mut editor, &[Key::Enter]);
    assert_eq!(editor.status_message, "Select component type (\u{2191}\u{2193}, Enter):");
    press(&mut editor, &[Key::Down, Key::Enter]);
    assert_eq!(editor.status_message, "Enter material ID:");
    type_text(&mut editor, "MAT001");
    press(&mut editor, &[Key::Enter]);
    assert_eq!(editor.status_message, "\u{2705} Component 'C1' created!");
    assert_eq!(editor.view_mode, ViewMode::Components);
    let doc = &editor.document;
    assert!(doc.agsi_model[0].components.is_empty());
    assert!(doc.agsi_model[2].components.is_empty());
    let c = &doc.agsi_model[1].components[0];
    assert_eq!((c.id.as_str(), c.name.as_str(), c.material_id.as_str()), ("C1", "Upper layer", "MAT001"));
    assert_eq!(c.component_type, ComponentType::Lens);
    match &c.geometry {
        Geometry::Point { coordinates, crs } => {
            assert_eq!(coordinates.map(|s| s.to_bits()), [0, 0, 0]);
            assert!(crs.is_none());
        }
        _ => panic!("expected a point"),
    }
    assert_eq!(doc.agsi_model[1].materials.len(), 1);
}

#[test]
fn a_component_needs_a_model() {
    let mut editor = Editor::new(Document::new("DOC001"), None);
    press(&mut editor, &[Key::Char('c'), Key::Char('n')]);
    assert!(editor.creation.is_none());
    assert_eq!(editor.status_message, "\u{274c} Create a model first!");
}

#[test]
fn creation_in_the_view_of_the_document_asks_for_a_view() {
    let mut editor = Editor::new(Document::new("DOC001"), None);
    type_text(&mut editor, "n");
    assert!(editor.creation.is_none());
    assert_eq!(editor.status_message, "Press: m=new model, a=new material, c=new component");
}

#[test]
fn escape_cancels_a_creation_at_any_step() {
    for steps in 0..4 {
        let mut editor = Editor::new(document_with_models(1), None);
        press(&mut editor, &[Key::Char('a'), Key::Char('n')]);
        for _ in 0..steps {
            type_text(&mut editor, "x");
            press(&mut editor, &[Key::Enter]);
        }
        type_text(&mut editor, "left over");
        assert!(editor.creation.is_some());
        press(&mut editor, &[Key::Esc]);
        assert!(editor.creation.is_none());
        assert!(editor.input_buffer.is_empty());
        assert_eq!(editor.status_message, "Creation cancelled");
        assert!(editor.document.agsi_model[0].materials.is_empty());
        assert!(!editor.should_quit);
    }
}

#[test]
fn keys_are_text_during_a_creation() {
    let mut editor = Editor::new(document_with_models(1), None);
    press(&mut editor, &[Key::Char('m'), Key::Char('n')]);
    type_text(&mut editor, "qdmacns?");
    assert_eq!(editor.input_buffer, "qdmacns?");
    assert!(!editor.should_quit);
    assert_eq!(editor.view_mode, ViewMode::Models);
    // the selection does not move while text is entered
    press(&mut editor, &[Key::Down, Key::Up, Key::Other]);
    assert_eq!(editor.selected, Some(0));
    press(&mut editor, &[Key::Backspace, Key::Backspace]);
    assert_eq!(editor.input_buffer, "qdmacn");
    for _ in 0..10 {
        press(&mut editor, &[Key::Backspace]);
    }
    assert!(editor.input_buffer.is_empty());
}

#[test]
fn saving_needs_a_file_and_reports_the_outcome() {
    let mut editor = Editor::new(Document::new("DOC001"), None);
    assert_eq!(editor.handle_input(Key::Char('s')), Action::Idle);
    assert_eq!(editor.status_message, "\u{274c} No file path specified");
    editor.report_save(Ok(()));
    assert_eq!(editor.status_message, "\u{274c} No file path specified");

    let mut editor = Editor::new(Document::new("DOC001"), Some("out/a.json".to_string()));
    assert_eq!(editor.handle_input(Key::Char('s')), Action::Save);
    assert_eq!(editor.status_message, "Press 'q' to quit, '?' for help, 'n' to create new");
    editor.report_save(Ok(()));
    assert_eq!(editor.status_message, "\u{2705} Saved to out/a.json");
    editor.report_save(Err("IO error: disk full".to_string()));
    assert_eq!(editor.status_message, "\u{274c} Error saving: IO error: disk full");
}
