use lazyqmk::build_log::{visible_range, BuildLog, BuildLogEvent, BuildLogState};
use lazyqmk::category_manager::{
    clear_category_references, remove_category, CategoryManager, CategoryManagerEvent, CategoryManagerState, ManagerMode,
};
use lazyqmk::app_state::CategoryPickerContext;
use lazyqmk::category_picker::{
    apply_category, assigned_message, handle_input, CategoryCommand, CategoryPickerAction, CategoryPickerState,
};
use lazyqmk::config_dialogs::{picker_title, variant_display, LayoutPicker, LayoutPickerEvent, LayoutPickerState};
use lazyqmk::external_change_prompt::{button_label, ExternalChangeEvent, ExternalChangePrompt, Selection};
use lazyqmk::keys::{KeyCode, KeyEvent, KeyModifiers};
use lazyqmk::models::{Category, LayoutVariant, Position, RgbColor};
use lazyqmk::navigation::calculate_rectangle_selection;

fn key(code: KeyCode) -> KeyEvent {
    KeyEvent::new(code, KeyModifiers::none())
}

fn category(id: &str, name: &str) -> Category {
    Category { id: id.to_string(), name: name.to_string(), color: RgbColor::new(1, 2, 3) }
}

// ---------------------------------------------------------------- build log

#[test]
fn build_log_scrolls_within_log() {
    let mut log = BuildLog::new();
    assert_eq!(log.handle_input(key(KeyCode::Up), 100), None);
    assert_eq!(log.state.scroll_offset, 0);
    for _ in 0..5 {
        assert_eq!(log.handle_input(key(KeyCode::Char('j')), 100), None);
    }
    assert_eq!(log.state.scroll_offset, 5);
    assert_eq!(log.handle_input(key(KeyCode::End), 100), None);
    assert_eq!(log.state.scroll_offset, 80);
    // already at the last page: down does nothing
    assert_eq!(log.handle_input(key(KeyCode::Down), 100), None);
    assert_eq!(log.state.scroll_offset, 80);
    assert_eq!(log.handle_input(key(KeyCode::Char('g')), 100), None);
    assert_eq!(log.state.scroll_offset, 0);
}

#[test]
fn build_log_short_log_does_not_scroll() {
    let mut log = BuildLog::default();
    log.handle_input(key(KeyCode::Down), 5);
    assert_eq!(log.state.scroll_offset, 0);
    log.handle_input(key(KeyCode::Char('G')), 5);
    assert_eq!(log.state.scroll_offset, 0);
}

#[test]
fn build_log_closes() {
    let mut log = BuildLog::new();
    assert_eq!(log.handle_input(key(KeyCode::Esc), 3), Some(BuildLogEvent::Closed));
    assert_eq!(log.handle_input(key(KeyCode::Char('B')), 3), Some(BuildLogEvent::Closed));
    assert_eq!(log.handle_input(key(KeyCode::Char('x')), 3), None);
}

#[test]
fn build_log_state_methods() {
    let mut s = BuildLogState::new();
    assert!(!s.visible);
    s.scroll_down(30, 10);
    s.scroll_down(30, 10);
    assert_eq!(s.scroll_offset, 2);
    s.scroll_up();
    assert_eq!(s.scroll_offset, 1);
    s.scroll_to_bottom(30, 10);
    assert_eq!(s.scroll_offset, 20);
    s.scroll_to_top();
    assert_eq!(s.scroll_offset, 0);
}

#[test]
fn build_log_visible_range() {
    assert_eq!(visible_range(0, 100, 20), (0, 20));
    assert_eq!(visible_range(90, 100, 20), (90, 100));
    assert_eq!(visible_range(500, 100, 20), (99, 100));
    assert_eq!(visible_range(3, 0, 20), (0, 0));
}

// ------------------------------------------------------------ layout picker

fn variants() -> Vec<LayoutVariant> {
    vec![
        LayoutVariant { name: "LAYOUT".to_string(), key_count: 42 },
        LayoutVariant { name: "LAYOUT_split_3x6_3".to_string(), key_count: 42 },
        LayoutVariant { name: "LAYOUT_ortho".to_string(), key_count: 48 },
    ]
}

#[test]
fn layout_picker_selects_and_cancels() {
    let mut p = LayoutPicker::new("crkbd", Ok(variants()));
    assert!(p.state.error_message.is_none());
    assert!(p.handle_input(key(KeyCode::Up)).is_none());
    assert_eq!(p.state.selected_index, 0);
    p.handle_input(key(KeyCode::Down));
    p.handle_input(key(KeyCode::Char('j')));
    p.handle_input(key(KeyCode::Down));
    assert_eq!(p.state.selected_index, 2);
    match p.handle_input(key(KeyCode::Enter)) {
        Some(LayoutPickerEvent::LayoutSelected(name)) => assert_eq!(name, "LAYOUT_ortho"),
        other => panic!("unexpected {:?}", other),
    }
    p.handle_input(key(KeyCode::Char('k')));
    assert_eq!(p.state.selected_index, 1);
    assert!(matches!(p.handle_input(key(KeyCode::Esc)), Some(LayoutPickerEvent::Cancelled)));
}

#[test]
fn layout_picker_load_failure() {
    let mut p = LayoutPicker::new("crkbd", Err("no info.json".to_string()));
    assert_eq!(
        p.state.error_message.as_deref(),
        Some("Failed to load layouts: no info.json")
    );
    assert!(p.state.layouts.is_empty());
    assert!(p.handle_input(key(KeyCode::Enter)).is_none());
}

#[test]
fn layout_picker_state_load() {
    let mut s = LayoutPickerState::new();
    assert!(s.load_layouts(Ok(variants())).is_ok());
    assert_eq!(s.get_selected(), Some("LAYOUT".to_string()));
    let r = s.load_layouts(Err("bad".to_string()));
    assert_eq!(r, Err("bad".to_string()));
    assert_eq!(s.layouts.len(), 3);
}

#[test]
fn layout_picker_texts() {
    let v = LayoutVariant { name: "LAYOUT".to_string(), key_count: 42 };
    assert_eq!(variant_display(&v), "LAYOUT (42 keys)");
    assert_eq!(picker_title("crkbd/rev1"), "Layouts for crkbd/rev1");
}

// ---------------------------------------------------------- category picker

#[test]
fn category_picker_wraps_through_none() {
    let cats = vec![category("nav", "Navigation"), category("sym", "Symbols")];
    let mut s = CategoryPickerState::new();
    assert!(matches!(handle_input(&mut s, key(KeyCode::Up), &cats), CategoryPickerAction::Stay));
    assert_eq!(s.selected, 2);
    assert!(matches!(handle_input(&mut s, key(KeyCode::Enter), &cats), CategoryPickerAction::Assign(None)));
    handle_input(&mut s, key(KeyCode::Down), &cats);
    assert_eq!(s.selected, 0);
    assert_eq!(s.list_selected, Some(0));
    match handle_input(&mut s, key(KeyCode::Enter), &cats) {
        CategoryPickerAction::Assign(Some(id)) => assert_eq!(id, "nav"),
        other => panic!("unexpected {:?}", other),
    }
    assert!(matches!(handle_input(&mut s, key(KeyCode::Esc), &cats), CategoryPickerAction::Cancel));
    assert!(matches!(handle_input(&mut s, key(KeyCode::Char('z')), &cats), CategoryPickerAction::Stay));
}

#[test]
fn category_picker_next_then_previous() {
    let mut s = CategoryPickerState::default();
    s.next(3);
    s.previous(3);
    assert_eq!(s.selected, 0);
    s.previous(3);
    s.next(3);
    assert_eq!(s.selected, 0);
    let cats = vec![category("a", "A")];
    s.selected = 1;
    assert_eq!(s.get_selected_category_id(&cats), None);
}

// --------------------------------------------------------- category manager

#[test]
fn category_manager_create_flow() {
    let mut m = CategoryManager::new(vec![category("nav", "Navigation")]);
    assert!(m.handle_input(key(KeyCode::Char('n'))).is_none());
    for c in "Fn keys".chars() {
        m.handle_input(key(KeyCode::Char(c)));
    }
    m.handle_input(key(KeyCode::Backspace));
    assert_eq!(m.state().get_input(), Some("Fn key"));
    assert!(m.handle_input(key(KeyCode::Enter)).is_none());
    match &m.state().mode {
        ManagerMode::CreatingColor { name } => assert_eq!(name, "Fn key"),
        other => panic!("unexpected {:?}", other),
    }
    assert!(matches!(m.handle_input(key(KeyCode::Esc)), Some(CategoryManagerEvent::Cancelled)));
    assert!(m.state().is_browsing());
}

#[test]
fn category_manager_blank_name_is_not_accepted() {
    let mut m = CategoryManager::new(vec![]);
    m.handle_input(key(KeyCode::Char('n')));
    m.handle_input(key(KeyCode::Char(' ')));
    assert!(m.handle_input(key(KeyCode::Enter)).is_none());
    assert!(matches!(m.state().mode, ManagerMode::CreatingName { .. }));
}

#[test]
fn category_manager_rename_and_delete() {
    let mut m = CategoryManager::new(vec![category("nav", "Navigation"), category("sym", "Symbols")]);
    m.handle_input(key(KeyCode::Down));
    assert_eq!(m.state().selected, 1);
    m.handle_input(key(KeyCode::Char('r')));
    m.handle_input(key(KeyCode::Char('!')));
    match m.handle_input(key(KeyCode::Enter)) {
        Some(CategoryManagerEvent::CategoryUpdated { id, name, color }) => {
            assert_eq!(id, "sym");
            assert_eq!(name, Some("Symbols!".to_string()));
            assert_eq!(color, None);
        }
        other => panic!("unexpected {:?}", other),
    }
    m.handle_input(key(KeyCode::Char('d')));
    match m.handle_input(key(KeyCode::Char('y'))) {
        Some(CategoryManagerEvent::CategoryDeleted(id)) => assert_eq!(id, "sym"),
        other => panic!("unexpected {:?}", other),
    }
    m.handle_input(key(KeyCode::Char('d')));
    assert!(matches!(m.handle_input(key(KeyCode::Char('n'))), Some(CategoryManagerEvent::Cancelled)));
    // wrap around at both ends
    m.handle_input(key(KeyCode::Down));
    assert_eq!(m.state().selected, 0);
    m.handle_input(key(KeyCode::Char('k')));
    assert_eq!(m.state().selected, 1);
    assert!(matches!(m.handle_input(key(KeyCode::Esc)), Some(CategoryManagerEvent::Closed)));
}

#[test]
fn category_manager_set_categories_clamps() {
    let mut m = CategoryManager::new(vec![category("a", "A"), category("b", "B"), category("c", "C")]);
    m.handle_input(key(KeyCode::Up));
    assert_eq!(m.state().selected, 2);
    m.set_categories(vec![category("a", "A")]);
    assert_eq!(m.state().selected, 0);
}

#[test]
fn category_manager_state_methods() {
    let mut s = CategoryManagerState::new();
    s.select_previous(0);
    assert_eq!(s.selected, 0);
    s.select_previous(4);
    assert_eq!(s.selected, 3);
    s.select_next(4);
    assert_eq!(s.selected, 0);
    let c = category("x", "Extra");
    s.start_renaming(&c);
    assert_eq!(s.get_input(), Some("Extra"));
    if let Some(input) = s.get_input_mut() {
        input.push('s');
    }
    assert_eq!(s.get_input(), Some("Extras"));
    s.start_deleting(&c);
    assert_eq!(s.get_input(), None);
    s.cancel();
    assert!(s.is_browsing());
    s.start_creating();
    assert_eq!(s.get_input(), Some(""));
    s.reset();
    assert!(s.is_browsing());
}

// ---------------------------------------------------------- external change

#[test]
fn external_prompt_right_then_left_returns() {
    for start in 0..4 {
        let mut p = ExternalChangePrompt::new("layout.md");
        for _ in 0..start {
            p.handle_input(key(KeyCode::Right));
        }
        let before = p.selection();
        p.handle_input(key(KeyCode::Right));
        p.handle_input(key(KeyCode::Left));
        assert_eq!(p.selection(), before);
    }
    assert_eq!(Selection::Cancel.next(), Selection::Reload);
    assert_eq!(Selection::Reload.prev(), Selection::Cancel);
}

#[test]
fn external_prompt_shortcuts_and_labels() {
    let mut p = ExternalChangePrompt::new("layout.md");
    assert_eq!(p.handle_input(key(KeyCode::Char('s'))), Some(ExternalChangeEvent::SaveThenReload));
    assert_eq!(p.handle_input(key(KeyCode::Char('c'))), None);
    assert_eq!(p.handle_input(key(KeyCode::Tab)), None);
    assert_eq!(p.selection(), Selection::KeepMine);
    assert_eq!(p.handle_input(key(KeyCode::BackTab)), None);
    assert_eq!(p.selection(), Selection::Reload);
    assert_eq!(button_label(Selection::Reload), "[ Reload from disk ]");
    assert_eq!(button_label(Selection::Cancel), "[ Cancel ]");
}

// ---------------------------------------------------------------- navigation

#[test]
fn rectangle_selection_in_row_major_order() {
    let mut valid = Vec::new();
    for row in 0..3u8 {
        for col in 0..4u8 {
            if !(row == 1 && col == 2) {
                valid.push(Position::new(row, col));
            }
        }
    }
    let sel = calculate_rectangle_selection(Position::new(2, 3), Position::new(0, 1), &valid);
    let expected = vec![
        Position::new(0, 1),
        Position::new(0, 2),
        Position::new(0, 3),
        Position::new(1, 1),
        Position::new(1, 3),
        Position::new(2, 1),
        Position::new(2, 2),
        Position::new(2, 3),
    ];
    assert_eq!(sel, expected);
    let single = calculate_rectangle_selection(Position::new(1, 2), Position::new(1, 2), &valid);
    assert!(single.is_empty());
}

#[test]
fn rectangle_selection_ignores_corner_order() {
    let valid: Vec<Position> = (0..4u8).flat_map(|r| (0..5u8).map(move |c| Position::new(r, c))).collect();
    let a = calculate_rectangle_selection(Position::new(0, 4), Position::new(3, 1), &valid);
    let b = calculate_rectangle_selection(Position::new(3, 1), Position::new(0, 4), &valid);
    let c = calculate_rectangle_selection(Position::new(0, 1), Position::new(3, 4), &valid);
    assert_eq!(a, b);
    assert_eq!(a, c);
    assert_eq!(a.len(), 16);
}

#[test]
fn category_manager_moves_in_an_empty_list() {
    let mut m = CategoryManager::new(vec![]);
    m.state_mut().selected = usize::MAX;
    assert!(m.handle_input(key(KeyCode::Down)).is_none());
    assert!(m.handle_input(key(KeyCode::Up)).is_none());
    assert_eq!(m.state().selected, usize::MAX);
    assert!(m.state().is_browsing());
}

#[test]
fn deleting_a_category_drops_it_and_its_references() {
    let mut cats = vec![category("nav", "Navigation"), category("sym", "Symbols"), category("num", "Numbers")];
    remove_category(&mut cats, "sym");
    let ids: Vec<&str> = cats.iter().map(|c| c.id.as_str()).collect();
    assert_eq!(ids, vec!["nav", "num"]);
    remove_category(&mut cats, "missing");
    assert_eq!(cats.len(), 2);
    let mut layer_refs = vec![Some("sym".to_string()), None, Some("nav".to_string())];
    clear_category_references(&mut layer_refs, "sym");
    assert_eq!(layer_refs, vec![None, None, Some("nav".to_string())]);
    let mut key_refs = vec![Some("nav".to_string()), Some("sym".to_string()), Some("sym".to_string())];
    clear_category_references(&mut key_refs, "sym");
    assert_eq!(key_refs, vec![Some("nav".to_string()), None, None]);
}

#[test]
fn picked_category_goes_to_the_context() {
    match apply_category(Some(CategoryPickerContext::Layer), Some("nav".to_string())) {
        CategoryCommand::Assign(CategoryPickerContext::Layer, Some(id)) => assert_eq!(id, "nav"),
        other => panic!("unexpected {other:?}"),
    }
    match apply_category(None, None) {
        CategoryCommand::Error(m) => assert_eq!(m, "No category context set"),
        other => panic!("unexpected {other:?}"),
    }
    let key = CategoryPickerContext::IndividualKey;
    assert_eq!(assigned_message(key, Some("nav"), 1).as_deref(), Some("Assigned key category 'nav'"));
    assert_eq!(assigned_message(key, None, 1).as_deref(), Some("Removed key category"));
    let layer = CategoryPickerContext::Layer;
    assert_eq!(assigned_message(layer, Some("sym"), 1).as_deref(), Some("Assigned layer category 'sym'"));
    assert_eq!(assigned_message(layer, None, 1).as_deref(), Some("Removed layer category"));
    let multi = CategoryPickerContext::MultiKeySelection;
    assert_eq!(assigned_message(multi, Some("num"), 3).as_deref(), Some("Applied category 'num' to 3 keys"));
    assert_eq!(assigned_message(multi, None, 12).as_deref(), Some("Removed category from 12 keys"));
    assert_eq!(assigned_message(multi, Some("num"), 0), None);
}
