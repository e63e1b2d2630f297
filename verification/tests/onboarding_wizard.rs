use lazyqmk::keys::{KeyCode, KeyEvent, KeyModifiers};
use lazyqmk::onboarding_wizard::{
    complete_advance, handle_input, ExitRule, KeyboardSelectionFocus, OnboardingWizardState,
    ProbeRequest, WelcomeChoice, WizardKeyOutcome, WizardProbe, WizardStep,
};

fn key(code: KeyCode) -> KeyEvent {
    KeyEvent::new(code, KeyModifiers::none())
}

fn type_text(w: &mut OnboardingWizardState, text: &str) {
    for c in text.chars() {
        assert_eq!(handle_input(w, key(KeyCode::Char(c))), WizardKeyOutcome::Continue);
    }
}

fn keyboards() -> Vec<String> {
    vec!["crkbd/rev1".to_string(), "planck/rev6".to_string(), "Preonic".to_string()]
}

fn qmk_ok() -> WizardProbe {
    WizardProbe::QmkPath {
        exists: true,
        has_makefile: true,
        has_keyboards_dir: true,
        keyboards: Ok(keyboards()),
    }
}

#[test]
fn steps_form_a_chain() {
    let mut s = WizardStep::Welcome;
    let mut n = 1;
    while let Some(next) = s.next() {
        assert_eq!(next.previous(), Some(s));
        assert_eq!(next.step_number(), s.step_number() + 1);
        s = next;
        n += 1;
    }
    assert_eq!(n, WizardStep::total_steps());
    assert_eq!(s, WizardStep::Confirmation);
    assert_eq!(WizardStep::Welcome.previous(), None);
    assert_eq!(WizardStep::Welcome.title(), "Welcome to LazyQMK");
    assert_eq!(WizardStep::OutputPath.title(), "Choose Build Output Folder");
}

#[test]
fn welcome_options_depend_on_existing_layouts() {
    let w = OnboardingWizardState::new(vec![]);
    assert_eq!(w.get_welcome_options(), vec![WelcomeChoice::FromScratch, WelcomeChoice::FromTemplate]);
    assert_eq!(w.get_welcome_options_count(), 2);
    assert_eq!(w.get_welcome_choice_for_index(2), None);
    let w = OnboardingWizardState::new(vec!["corne".to_string()]);
    assert_eq!(w.get_welcome_options_count(), 3);
    assert_eq!(w.get_welcome_choice_for_index(0), Some(WelcomeChoice::LoadExisting));
    assert_eq!(w.get_welcome_choice_for_index(2), Some(WelcomeChoice::FromTemplate));
}

#[test]
fn welcome_load_existing_exits() {
    let mut w = OnboardingWizardState::new(vec!["corne".to_string()]);
    assert_eq!(handle_input(&mut w, key(KeyCode::Enter)), WizardKeyOutcome::Exit);
    assert_eq!(w.welcome_choice, Some(WelcomeChoice::LoadExisting));
    let mut w = OnboardingWizardState::new(vec![]);
    assert_eq!(handle_input(&mut w, key(KeyCode::Esc)), WizardKeyOutcome::Exit);
}

#[test]
fn full_setup_flow() {
    let mut w = OnboardingWizardState::default();
    handle_input(&mut w, key(KeyCode::Down));
    handle_input(&mut w, key(KeyCode::Down));
    assert_eq!(w.welcome_selected_index, 1);
    handle_input(&mut w, key(KeyCode::Up));
    assert_eq!(w.welcome_selected_index, 0);
    let out = handle_input(&mut w, key(KeyCode::Enter));
    assert_eq!(out, WizardKeyOutcome::Advance(ExitRule::Never));
    assert_eq!(w.welcome_choice, Some(WelcomeChoice::FromScratch));
    assert!(matches!(w.probe_request(), ProbeRequest::Nothing));
    assert!(!complete_advance(&mut w, WizardProbe::Nothing, ExitRule::Never));
    assert_eq!(w.current_step, WizardStep::QmkPath);

    // QMK path: empty is refused
    assert!(matches!(w.probe_request(), ProbeRequest::Nothing));
    complete_advance(&mut w, WizardProbe::Nothing, ExitRule::Never);
    assert_eq!(w.error_message.as_deref(), Some("QMK path cannot be empty"));
    type_text(&mut w, "/qmkx");
    handle_input(&mut w, key(KeyCode::Backspace));
    assert_eq!(w.input_buffer, "/qmk");
    assert_eq!(handle_input(&mut w, key(KeyCode::Enter)), WizardKeyOutcome::Advance(ExitRule::Never));
    match w.probe_request() {
        ProbeRequest::QmkPath(p) => assert_eq!(p, "/qmk"),
        other => panic!("unexpected {:?}", other),
    }
    complete_advance(&mut w, qmk_ok(), ExitRule::Never);
    assert_eq!(w.current_step, WizardStep::KeyboardSelection);
    assert!(w.error_message.is_none());
    assert_eq!(w.inputs.qmk_path.as_deref(), Some("/qmk"));
    assert_eq!(w.input_buffer, "");

    // keyboard filter, case-insensitive
    type_text(&mut w, "PLAN");
    assert_eq!(w.get_filtered_keyboards(), vec!["planck/rev6".to_string()]);
    assert_eq!(handle_input(&mut w, key(KeyCode::Enter)), WizardKeyOutcome::Advance(ExitRule::Never));
    match w.probe_request() {
        ProbeRequest::KeyboardInfo { qmk_path, keyboard } => {
            assert_eq!(qmk_path, "/qmk");
            assert_eq!(keyboard, "planck/rev6");
        }
        other => panic!("unexpected {:?}", other),
    }
    complete_advance(
        &mut w,
        WizardProbe::KeyboardInfo(Ok(vec!["LAYOUT_ortho_4x12".to_string(), "LAYOUT_planck_mit".to_string()])),
        ExitRule::Never,
    );
    assert_eq!(w.current_step, WizardStep::LayoutSelection);
    assert_eq!(w.inputs.keyboard.as_deref(), Some("planck/rev6"));
    assert_eq!(w.keyboard_filter, "");

    // layout
    handle_input(&mut w, key(KeyCode::Down));
    handle_input(&mut w, key(KeyCode::Down));
    assert_eq!(w.layout_selected_index, 1);
    assert_eq!(handle_input(&mut w, key(KeyCode::Enter)), WizardKeyOutcome::Advance(ExitRule::IfComplete));
    assert!(!complete_advance(&mut w, WizardProbe::Nothing, ExitRule::IfComplete));
    assert_eq!(w.current_step, WizardStep::LayoutName);
    assert_eq!(w.inputs.layout.as_deref(), Some("LAYOUT_planck_mit"));
    assert_eq!(w.input_buffer, "rev6_layout");

    // layout name, then the default output folder
    assert!(matches!(w.probe_request(), ProbeRequest::ConfigDir));
    complete_advance(&mut w, WizardProbe::ConfigDir(Some("/home/u/.config/lazyqmk/builds".to_string())), ExitRule::Never);
    assert_eq!(w.current_step, WizardStep::OutputPath);
    assert_eq!(w.inputs.layout_name.as_deref(), Some("rev6_layout"));
    assert_eq!(w.input_buffer, "/home/u/.config/lazyqmk/builds");

    // output path whose parent is missing
    match w.probe_request() {
        ProbeRequest::OutputParent(p) => assert_eq!(p, "/home/u/.config/lazyqmk/builds"),
        other => panic!("unexpected {:?}", other),
    }
    complete_advance(&mut w, WizardProbe::OutputParent(Some(("/home/u/.config/lazyqmk".to_string(), false))), ExitRule::Never);
    assert_eq!(w.current_step, WizardStep::OutputPath);
    assert_eq!(
        w.error_message.as_deref(),
        Some("Parent directory does not exist: /home/u/.config/lazyqmk")
    );
    complete_advance(&mut w, WizardProbe::OutputParent(Some(("/home/u/.config/lazyqmk".to_string(), true))), ExitRule::Never);
    assert_eq!(w.current_step, WizardStep::Confirmation);
    assert!(w.error_message.is_none());

    // confirmation
    assert_eq!(handle_input(&mut w, key(KeyCode::Enter)), WizardKeyOutcome::Advance(ExitRule::Always));
    assert!(complete_advance(&mut w, WizardProbe::Nothing, ExitRule::Always));
    assert!(w.is_complete);
    let (qmk, out) = w.build_config();
    assert_eq!(qmk.as_deref(), Some("/qmk"));
    assert_eq!(out.as_deref(), Some("/home/u/.config/lazyqmk/builds"));
}

#[test]
fn qmk_path_errors() {
    let mut w = OnboardingWizardState::new(vec![]);
    complete_advance(&mut w, WizardProbe::Nothing, ExitRule::Never);
    type_text(&mut w, "/x");
    let facts = |exists, makefile, dir| WizardProbe::QmkPath {
        exists,
        has_makefile: makefile,
        has_keyboards_dir: dir,
        keyboards: Ok(vec![]),
    };
    complete_advance(&mut w, facts(false, true, true), ExitRule::Never);
    assert_eq!(w.error_message.as_deref(), Some("Path does not exist: /x"));
    complete_advance(&mut w, facts(true, false, true), ExitRule::Never);
    assert_eq!(w.error_message.as_deref(), Some("Not a QMK firmware directory: Makefile not found"));
    complete_advance(&mut w, facts(true, true, false), ExitRule::Never);
    assert_eq!(w.error_message.as_deref(), Some("Not a QMK firmware directory: keyboards/ not found"));
    assert_eq!(w.current_step, WizardStep::QmkPath);
    assert_eq!(w.input_buffer, "/x");
    let scan_failed = WizardProbe::QmkPath {
        exists: true,
        has_makefile: true,
        has_keyboards_dir: true,
        keyboards: Err("permission denied".to_string()),
    };
    complete_advance(&mut w, scan_failed, ExitRule::Never);
    assert_eq!(w.error_message.as_deref(), Some("Failed to scan keyboards: permission denied"));
    assert_eq!(w.current_step, WizardStep::QmkPath);
    assert_eq!(w.inputs.qmk_path.as_deref(), Some("/x"));
}

#[test]
fn going_back_restores_typed_text() {
    let mut w = OnboardingWizardState::new(vec![]);
    complete_advance(&mut w, WizardProbe::Nothing, ExitRule::Never);
    type_text(&mut w, "/qmk");
    complete_advance(&mut w, qmk_ok(), ExitRule::Never);
    assert_eq!(w.current_step, WizardStep::KeyboardSelection);
    // Esc with an empty filter goes back, restoring the path
    assert_eq!(handle_input(&mut w, key(KeyCode::Esc)), WizardKeyOutcome::Continue);
    assert_eq!(w.current_step, WizardStep::QmkPath);
    assert_eq!(w.input_buffer, "/qmk");
}

#[test]
fn keyboard_list_focus() {
    let mut w = OnboardingWizardState::new_for_new_layout(Some("/qmk"), "/out", Ok(keyboards())).unwrap();
    assert_eq!(w.keyboard_selection_focus, KeyboardSelectionFocus::FilterInput);
    // Enter with several matches moves focus to the list
    assert_eq!(handle_input(&mut w, key(KeyCode::Enter)), WizardKeyOutcome::Continue);
    assert_eq!(w.keyboard_selection_focus, KeyboardSelectionFocus::List);
    handle_input(&mut w, key(KeyCode::Char('j')));
    handle_input(&mut w, key(KeyCode::Down));
    handle_input(&mut w, key(KeyCode::Down));
    assert_eq!(w.keyboard_selected_index, 2);
    handle_input(&mut w, key(KeyCode::Up));
    assert_eq!(w.keyboard_selected_index, 1);
    // BackTab without shift is ignored, with shift returns to the filter
    handle_input(&mut w, key(KeyCode::BackTab));
    assert_eq!(w.keyboard_selection_focus, KeyboardSelectionFocus::List);
    handle_input(&mut w, KeyEvent::new(KeyCode::BackTab, KeyModifiers::shift()));
    assert_eq!(w.keyboard_selection_focus, KeyboardSelectionFocus::FilterInput);
    handle_input(&mut w, key(KeyCode::Tab));
    assert_eq!(w.keyboard_selection_focus, KeyboardSelectionFocus::List);
    handle_input(&mut w, key(KeyCode::Esc));
    assert_eq!(w.keyboard_selection_focus, KeyboardSelectionFocus::FilterInput);
    // typing resets the selection; Esc clears the filter first
    type_text(&mut w, "zz");
    assert_eq!(w.keyboard_selected_index, 0);
    assert!(w.get_filtered_keyboards().is_empty());
    assert!(matches!(w.probe_request(), ProbeRequest::Nothing));
    complete_advance(&mut w, WizardProbe::Nothing, ExitRule::Never);
    assert_eq!(w.error_message.as_deref(), Some("No keyboards match filter"));
    handle_input(&mut w, key(KeyCode::Esc));
    assert_eq!(w.keyboard_filter, "");
    assert_eq!(w.current_step, WizardStep::KeyboardSelection);
}

#[test]
fn new_layout_keeps_output_path() {
    let mut w = OnboardingWizardState::new_for_new_layout(Some("/qmk"), "/out", Ok(keyboards())).unwrap();
    type_text(&mut w, "crk");
    complete_advance(&mut w, WizardProbe::KeyboardInfo(Ok(vec!["LAYOUT_split_3x6_3".to_string()])), ExitRule::Never);
    complete_advance(&mut w, WizardProbe::Nothing, ExitRule::IfComplete);
    assert_eq!(w.current_step, WizardStep::LayoutName);
    assert_eq!(w.input_buffer, "rev1_layout");
    // the output path is known: no lookup, empty buffer
    assert!(matches!(w.probe_request(), ProbeRequest::Nothing));
    complete_advance(&mut w, WizardProbe::Nothing, ExitRule::Never);
    assert_eq!(w.current_step, WizardStep::OutputPath);
    assert_eq!(w.input_buffer, "");
    // going back restores the layout name
    handle_input(&mut w, key(KeyCode::Esc));
    assert_eq!(w.current_step, WizardStep::LayoutName);
    assert_eq!(w.input_buffer, "rev1_layout");
}

#[test]
fn keyboard_only_change_completes_after_layout() {
    let mut w = OnboardingWizardState::new_for_keyboard_selection("/qmk", Ok(keyboards())).unwrap();
    assert!(w.keyboard_change_only);
    assert_eq!(w.current_step, WizardStep::KeyboardSelection);
    type_text(&mut w, "preonic");
    assert_eq!(handle_input(&mut w, key(KeyCode::Enter)), WizardKeyOutcome::Advance(ExitRule::Never));
    complete_advance(&mut w, WizardProbe::KeyboardInfo(Ok(vec!["LAYOUT".to_string()])), ExitRule::Never);
    assert_eq!(w.current_step, WizardStep::LayoutSelection);
    let out = handle_input(&mut w, key(KeyCode::Enter));
    assert_eq!(out, WizardKeyOutcome::Advance(ExitRule::IfComplete));
    assert!(complete_advance(&mut w, WizardProbe::Nothing, ExitRule::IfComplete));
    assert!(w.is_complete);
    assert_eq!(w.current_step, WizardStep::LayoutSelection);
    assert_eq!(w.inputs.layout.as_deref(), Some("LAYOUT"));
}

#[test]
fn keyboard_only_escape_exits() {
    let mut w = OnboardingWizardState::new_for_keyboard_selection("/qmk", Ok(keyboards())).unwrap();
    type_text(&mut w, "x");
    assert_eq!(handle_input(&mut w, key(KeyCode::Esc)), WizardKeyOutcome::Continue);
    assert_eq!(handle_input(&mut w, key(KeyCode::Esc)), WizardKeyOutcome::Exit);
}

#[test]
fn keyboard_info_failure_keeps_step() {
    let mut w = OnboardingWizardState::new_for_keyboard_selection("/qmk", Ok(keyboards())).unwrap();
    complete_advance(&mut w, WizardProbe::KeyboardInfo(Err("missing info.json".to_string())), ExitRule::Never);
    assert_eq!(w.current_step, WizardStep::KeyboardSelection);
    assert_eq!(w.error_message.as_deref(), Some("Failed to parse keyboard info: missing info.json"));
    assert_eq!(w.inputs.keyboard.as_deref(), Some("crkbd/rev1"));
}

#[test]
fn from_config_prefills() {
    let w = OnboardingWizardState::from_config(vec![], Some("/qmk"), "/builds");
    assert_eq!(w.current_step, WizardStep::Welcome);
    assert_eq!(w.input_buffer, "/qmk");
    let (qmk, out) = w.build_config();
    assert_eq!(qmk.as_deref(), Some("/qmk"));
    assert_eq!(out.as_deref(), Some("/builds"));
    let w = OnboardingWizardState::from_config(vec![], None, "/builds");
    assert_eq!(w.input_buffer, "");
    assert_eq!(w.build_config().0, None);
}

#[test]
fn new_layout_needs_qmk_path_and_scan() {
    let r = OnboardingWizardState::new_for_new_layout(None, "/out", Ok(keyboards()));
    assert_eq!(r.err().as_deref(), Some("QMK firmware path not configured"));
    let r = OnboardingWizardState::new_for_new_layout(Some("/qmk"), "/out", Err("no keyboards dir".to_string()));
    assert_eq!(r.err().as_deref(), Some("no keyboards dir"));
    let w = OnboardingWizardState::new_for_new_layout(Some("/qmk"), "/out", Ok(keyboards())).unwrap();
    assert_eq!(w.inputs.qmk_path.as_deref(), Some("/qmk"));
    assert_eq!(w.inputs.output_path.as_deref(), Some("/out"));
    assert!(!w.keyboard_change_only);
    let r = OnboardingWizardState::new_for_keyboard_selection("/qmk", Err("scan failed".to_string()));
    assert_eq!(r.err().as_deref(), Some("scan failed"));
}

#[test]
fn default_is_a_fresh_welcome() {
    let w = OnboardingWizardState::default();
    assert_eq!(w.current_step, WizardStep::Welcome);
    assert_eq!(w.inputs.qmk_path, None);
    assert_eq!(w.inputs.output_path, None);
    assert_eq!(w.input_buffer, "");
    assert_eq!(w.keyboard_filter, "");
    assert_eq!(w.keyboard_selected_index, 0);
    assert_eq!(w.error_message, None);
    assert!(!w.is_complete);
    assert!(!w.keyboard_change_only);
    assert_eq!(w.welcome_choice, None);
    assert!(w.ready_to_advance());
}

#[test]
fn filter_typing_without_qmk_path() {
    let mut w = OnboardingWizardState::default();
    w.current_step = WizardStep::KeyboardSelection;
    w.available_keyboards = vec!["crkbd".to_string(), "planck".to_string(), "corne".to_string()];
    w.keyboard_selected_index = 2;
    assert_eq!(handle_input(&mut w, key(KeyCode::Char('p'))), WizardKeyOutcome::Continue);
    assert_eq!(w.keyboard_filter, "p");
    assert_eq!(w.keyboard_selected_index, 0);
    assert_eq!(w.current_step, WizardStep::KeyboardSelection);
    assert_eq!(w.get_filtered_keyboards(), vec!["planck".to_string()]);
    // advancing would read the missing QMK path
    assert!(!w.ready_to_advance());
}

#[test]
fn keyboard_only_layout_selection_needs_no_keyboard() {
    let mut w = OnboardingWizardState::default();
    w.current_step = WizardStep::LayoutSelection;
    w.keyboard_change_only = true;
    w.available_layouts = vec!["LAYOUT_split_3x6_3".to_string()];
    assert!(w.ready_to_advance());
    w.next_step(WizardProbe::Nothing);
    assert!(w.is_complete);
    assert_eq!(w.current_step, WizardStep::LayoutSelection);
    assert_eq!(w.inputs.layout.as_deref(), Some("LAYOUT_split_3x6_3"));
    assert_eq!(w.error_message, None);
    assert_eq!(w.input_buffer, "");
    assert_eq!(w.inputs.layout_name, None);
}

#[test]
fn layout_name_forward_and_back() {
    let mut w = OnboardingWizardState::default();
    w.current_step = WizardStep::LayoutName;
    w.inputs.output_path = Some("/out".to_string());
    w.input_buffer = "my_layout".to_string();
    w.next_step(WizardProbe::Nothing);
    assert_eq!(w.current_step, WizardStep::OutputPath);
    w.previous_step();
    assert_eq!(w.current_step, WizardStep::LayoutName);
    assert_eq!(w.input_buffer, "my_layout");
    assert_eq!(w.inputs.layout_name.as_deref(), Some("my_layout"));
    assert_eq!(w.error_message, None);
}
