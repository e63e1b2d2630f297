use lazyqmk::app_state::{
    ExportFilenameDialogState, PendingKeycodeState, TemplateSaveDialogState, TemplateSaveField,
};
use lazyqmk::file_watcher::path_matches;

#[test]
fn pending_keycode_builds_with_prefix() {
    let mut p = PendingKeycodeState::new();
    assert_eq!(p.build_keycode(Some("LT")), None);
    p.keycode_template = Some("LT()".to_string());
    assert_eq!(p.build_keycode(Some("LT")), None);
    p.params.push("1".to_string());
    p.params.push("KC_SPC".to_string());
    assert_eq!(p.build_keycode(Some("LT")), Some("LT(1, KC_SPC)".to_string()));
    assert_eq!(p.build_keycode(None), None);
    p.reset();
    assert!(p.keycode_template.is_none());
    assert!(p.params.is_empty());
    assert!(PendingKeycodeState::default().params.is_empty());
}

#[test]
fn export_filename_uses_date() {
    let d = ExportFilenameDialogState::with_date("corne", "2024-05-01");
    assert_eq!(d.filename, "corne_export_2024-05-01.md");
    let today = ExportFilenameDialogState::new("corne");
    assert!(today.filename.starts_with("corne_export_"));
    assert!(today.filename.ends_with(".md"));
    // the date is YYYY-MM-DD
    let date = &today.filename["corne_export_".len()..today.filename.len() - 3];
    assert_eq!(date.len(), 10);
    assert_eq!(&date[4..5], "-");
    assert_eq!(&date[7..8], "-");
    assert!(ExportFilenameDialogState::default().filename.starts_with("layout_export_"));
}

#[test]
fn template_dialog_fields_cycle() {
    let mut d = TemplateSaveDialogState::new("My Layout".to_string());
    assert_eq!(d.active_field, TemplateSaveField::Name);
    assert_eq!(d.name, "My Layout");
    for _ in 0..4 {
        d.next_field();
    }
    assert_eq!(d.active_field, TemplateSaveField::Name);
    d.previous_field();
    assert_eq!(d.active_field, TemplateSaveField::Tags);
    d.get_active_field_mut().push_str(" Home Row , ,SPLIT,  ");
    assert_eq!(d.tags_input, " Home Row , ,SPLIT,  ");
    assert_eq!(d.parse_tags(), vec!["home row".to_string(), "split".to_string()]);
    d.next_field();
    d.get_active_field_mut().push('!');
    assert_eq!(d.name, "My Layout!");
    assert_eq!(TemplateSaveDialogState::default().active_field, TemplateSaveField::Name);
}

#[test]
fn tags_of_empty_input() {
    let d = TemplateSaveDialogState::new(String::new());
    assert!(d.parse_tags().is_empty());
}

#[test]
fn path_matching() {
    let a = "/home/u/layouts/corne.md".to_string();
    let b = "/home/u/layouts/corne.md".to_string();
    let c = "/home/u/layouts/other.md".to_string();
    assert!(path_matches(&a, Some(&b)));
    assert!(!path_matches(&a, Some(&c)));
    assert!(!path_matches(&a, None));
}
