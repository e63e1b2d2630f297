use lazyqmk::app_state::{ExportFilenameDialogState, TemplateSaveDialogState, TemplateSaveField};
use lazyqmk::keys::{KeyCode, KeyEvent, KeyModifiers};
use lazyqmk::popup_input::{
    handle_export_filename_dialog_input, handle_template_save_dialog_input,
    handle_unsaved_prompt_input, is_json_path, template_file_name, ExportOutcome,
    TemplateSaveOutcome, UnsavedOutcome,
};

fn key(code: KeyCode) -> KeyEvent {
    KeyEvent::new(code, KeyModifiers::none())
}

#[test]
fn template_dialog_editing() {
    let mut d = TemplateSaveDialogState::new(String::new());
    for c in "Corne".chars() {
        assert!(matches!(handle_template_save_dialog_input(&mut d, key(KeyCode::Char(c))), TemplateSaveOutcome::Stay));
    }
    handle_template_save_dialog_input(&mut d, key(KeyCode::Tab));
    assert_eq!(d.active_field, TemplateSaveField::Description);
    handle_template_save_dialog_input(&mut d, key(KeyCode::Char('x')));
    handle_template_save_dialog_input(&mut d, key(KeyCode::Backspace));
    handle_template_save_dialog_input(&mut d, key(KeyCode::Backspace));
    assert_eq!(d.description, "");
    handle_template_save_dialog_input(&mut d, KeyEvent::new(KeyCode::Tab, KeyModifiers::shift()));
    assert_eq!(d.active_field, TemplateSaveField::Name);
    handle_template_save_dialog_input(&mut d, key(KeyCode::Char(' ')));
    handle_template_save_dialog_input(&mut d, key(KeyCode::Char('V')));
    handle_template_save_dialog_input(&mut d, key(KeyCode::Char('2')));
    assert_eq!(d.name, "Corne V2");
    match handle_template_save_dialog_input(&mut d, key(KeyCode::Enter)) {
        TemplateSaveOutcome::Save { file_stem } => assert_eq!(file_stem, "corne-v2"),
        other => panic!("unexpected {:?}", other),
    }
    assert!(matches!(handle_template_save_dialog_input(&mut d, key(KeyCode::Esc)), TemplateSaveOutcome::Cancelled));
}

#[test]
fn template_dialog_refuses_blank_name() {
    let mut d = TemplateSaveDialogState::new("   ".to_string());
    match handle_template_save_dialog_input(&mut d, key(KeyCode::Enter)) {
        TemplateSaveOutcome::Rejected(m) => assert_eq!(m, "Template name cannot be empty"),
        other => panic!("unexpected {:?}", other),
    }
}

#[test]
fn template_file_names() {
    assert_eq!(template_file_name("My Home-Row Layout!"), "my-home-row-layout");
    assert_eq!(template_file_name("Über 60%"), "über-60");
    assert_eq!(template_file_name("a_b.c"), "abc");
}

#[test]
fn json_extension_detection() {
    assert!(is_json_path("layout.json"));
    assert!(is_json_path("dir/layout.JSON"));
    assert!(is_json_path("layout.Json"));
    assert!(!is_json_path("layout"));
    assert!(!is_json_path(".json"));
    assert!(!is_json_path("layout.jsonx"));
    assert!(!is_json_path("layout.json/.."));
    assert!(is_json_path("..json"));
    // the extension is read from the last component only
    assert!(is_json_path("out/export.json/"));
    assert!(!is_json_path("out.json/export"));
}

#[test]
fn export_dialog() {
    let mut d = ExportFilenameDialogState::with_date("corne", "2024-01-02");
    assert!(matches!(handle_export_filename_dialog_input(&mut d, key(KeyCode::Enter)), ExportOutcome::Export(f) if f == "corne_export_2024-01-02.md.json"));
    for _ in 0.."md".len() {
        handle_export_filename_dialog_input(&mut d, key(KeyCode::Backspace));
    }
    for c in "JSON".chars() {
        handle_export_filename_dialog_input(&mut d, key(KeyCode::Char(c)));
    }
    assert_eq!(d.filename, "corne_export_2024-01-02.JSON");
    match handle_export_filename_dialog_input(&mut d, key(KeyCode::Enter)) {
        ExportOutcome::Export(f) => assert_eq!(f, "corne_export_2024-01-02.JSON"),
        other => panic!("unexpected {:?}", other),
    }
    assert!(matches!(handle_export_filename_dialog_input(&mut d, key(KeyCode::Esc)), ExportOutcome::Cancelled));
    let mut blank = ExportFilenameDialogState { filename: " \t".to_string() };
    match handle_export_filename_dialog_input(&mut blank, key(KeyCode::Enter)) {
        ExportOutcome::Rejected(m) => assert_eq!(m, "Filename cannot be empty"),
        other => panic!("unexpected {:?}", other),
    }
}

#[test]
fn unsaved_prompt_keys() {
    assert_eq!(handle_unsaved_prompt_input(key(KeyCode::Char('s'))), UnsavedOutcome::SaveAndQuit);
    assert_eq!(handle_unsaved_prompt_input(KeyEvent::new(KeyCode::Char('S'), KeyModifiers::control())), UnsavedOutcome::SaveAndQuit);
    assert_eq!(handle_unsaved_prompt_input(KeyEvent::new(KeyCode::Char('s'), KeyModifiers { shift: false, control: false, alt: true, other: false })), UnsavedOutcome::Stay);
    assert_eq!(handle_unsaved_prompt_input(key(KeyCode::Char('Q'))), UnsavedOutcome::Quit);
    assert_eq!(handle_unsaved_prompt_input(key(KeyCode::Esc)), UnsavedOutcome::Cancelled);
    assert_eq!(handle_unsaved_prompt_input(key(KeyCode::Enter)), UnsavedOutcome::Stay);
}
