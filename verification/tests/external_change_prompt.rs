use lazyqmk::external_change_prompt::{ExternalChangeEvent, ExternalChangePrompt, Selection};
use lazyqmk::keys::{KeyCode, KeyEvent, KeyModifiers};

fn key(code: KeyCode) -> KeyEvent {
    KeyEvent::new(code, KeyModifiers::none())
}

#[test]
fn test_default_selection_is_reload() {
    let prompt = ExternalChangePrompt::new("foo.json");
    assert_eq!(prompt.selection(), Selection::Reload);
}

#[test]
fn test_right_arrow_advances() {
    let mut p = ExternalChangePrompt::new("foo.json");
    let _ = p.handle_input(key(KeyCode::Right));
    assert_eq!(p.selection(), Selection::KeepMine);
}

#[test]
fn test_left_wraps_around() {
    let mut p = ExternalChangePrompt::new("foo.json");
    let _ = p.handle_input(key(KeyCode::Left));
    assert_eq!(p.selection(), Selection::Cancel);
}

#[test]
fn test_enter_emits_selected_event() {
    let mut p = ExternalChangePrompt::new("foo.json");
    let _ = p.handle_input(key(KeyCode::Right));
    let _ = p.handle_input(key(KeyCode::Right));
    let ev = p.handle_input(key(KeyCode::Enter));
    assert_eq!(ev, Some(ExternalChangeEvent::SaveThenReload));
}

#[test]
fn test_esc_emits_cancel() {
    let mut p = ExternalChangePrompt::new("foo.json");
    let ev = p.handle_input(key(KeyCode::Esc));
    assert_eq!(ev, Some(ExternalChangeEvent::Cancel));
}

#[test]
fn test_shortcut_r_emits_reload() {
    let mut p = ExternalChangePrompt::new("foo.json");
    let _ = p.handle_input(key(KeyCode::Right));
    let ev = p.handle_input(key(KeyCode::Char('r')));
    assert_eq!(ev, Some(ExternalChangeEvent::Reload));
}

#[test]
fn test_shortcut_k_emits_keep_mine() {
    let mut p = ExternalChangePrompt::new("foo.json");
    let ev = p.handle_input(key(KeyCode::Char('k')));
    assert_eq!(ev, Some(ExternalChangeEvent::KeepMine));
}
