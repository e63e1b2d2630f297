use lazyqmk::help_content::get_help_content;
use lazyqmk::help_overlay::{HelpOverlay, HelpOverlayEvent, HelpOverlayState};
use lazyqmk::help_registry::{Binding, Context, HelpMeta, HelpRegistry};
use lazyqmk::keys::{KeyCode, KeyEvent, KeyModifiers};

/// A small registry with a main context.
fn sample_registry() -> HelpRegistry {
    let main = Context {
        name: "Main View".to_string(),
        description: "Keyboard editing".to_string(),
        bindings: vec![Binding {
            keys: vec!["Up".to_string()],
            alt_keys: vec!["k".to_string()],
            action: "Navigate up".to_string(),
            hint: None,
            priority: 10,
        }],
    };
    let meta = HelpMeta { version: "1.0".to_string(), app_name: "LazyQMK".to_string() };
    HelpRegistry::from_parts(meta, vec![("main".to_string(), main)]).unwrap()
}

#[test]
fn help_overlay_test_help_overlay_state_initial() {
    let state = HelpOverlayState::new();
    assert_eq!(state.scroll_offset, 0, "Initial scroll should be at top");
}

#[test]
fn help_overlay_test_scroll_up_from_zero_stays_zero() {
    let mut state = HelpOverlayState::new();
    state.scroll_up();
    assert_eq!(state.scroll_offset, 0, "Scroll up from 0 should stay at 0");
}

#[test]
fn help_overlay_test_scroll_down_increments() {
    let mut state = HelpOverlayState::new();
    state.scroll_down();
    assert_eq!(
        state.scroll_offset, 1,
        "Scroll down should increment offset"
    );
    state.scroll_down();
    assert_eq!(state.scroll_offset, 2, "Scroll down again should increment");
}

#[test]
fn help_overlay_test_scroll_to_top_resets() {
    let mut state = HelpOverlayState::new();
    state.scroll_offset = 50;
    state.scroll_to_top();
    assert_eq!(state.scroll_offset, 0, "Scroll to top should reset to 0");
}

#[test]
fn help_overlay_test_scroll_to_bottom_sets_max() {
    let mut state = HelpOverlayState::new();
    state.scroll_to_bottom();
    assert_eq!(
        state.scroll_offset,
        usize::MAX,
        "Scroll to bottom should set to MAX"
    );
}

#[test]
fn help_overlay_test_page_up_page_down() {
    let mut state = HelpOverlayState::new();
    state.scroll_offset = 50;

    state.page_down(10);
    assert_eq!(state.scroll_offset, 60, "Page down by 10 should add 10");

    state.page_up(15);
    assert_eq!(state.scroll_offset, 45, "Page up by 15 should subtract 15");

    state.page_up(100);
    assert_eq!(state.scroll_offset, 0, "Page up beyond 0 should clamp to 0");
}

#[test]
fn help_overlay_test_compute_max_scroll() {
    // Content smaller than viewport: no scrolling possible
    assert_eq!(
        HelpOverlayState::compute_max_scroll(10, 20),
        0,
        "Content smaller than viewport should have max_scroll=0"
    );

    // Content equals viewport: no scrolling possible
    assert_eq!(
        HelpOverlayState::compute_max_scroll(20, 20),
        0,
        "Content equals viewport should have max_scroll=0"
    );

    // Content larger than viewport
    assert_eq!(
        HelpOverlayState::compute_max_scroll(100, 20),
        80,
        "100 lines with 20 visible should have max_scroll=80"
    );
}

#[test]
fn help_overlay_test_clamped_offset_within_bounds() {
    let mut state = HelpOverlayState::new();
    state.scroll_offset = 30;

    // 100 total lines, 20 visible => max_scroll = 80
    let clamped = state.clamped_offset(100, 20);
    assert_eq!(
        clamped, 30,
        "Offset 30 is within bounds, should be unchanged"
    );
}

#[test]
fn help_overlay_test_clamped_offset_exceeds_max() {
    let mut state = HelpOverlayState::new();
    state.scroll_offset = 95;

    // 100 total lines, 20 visible => max_scroll = 80
    let clamped = state.clamped_offset(100, 20);
    assert_eq!(clamped, 80, "Offset 95 should clamp to max_scroll=80");
}

#[test]
fn help_overlay_test_clamped_offset_at_usize_max() {
    let mut state = HelpOverlayState::new();
    state.scroll_to_bottom(); // Sets to usize::MAX

    // 100 total lines, 20 visible => max_scroll = 80
    let clamped = state.clamped_offset(100, 20);
    assert_eq!(clamped, 80, "usize::MAX should clamp to max_scroll=80");
}

#[test]
fn help_overlay_test_clamped_offset_content_fits_viewport() {
    let mut state = HelpOverlayState::new();
    state.scroll_offset = 10;

    // 15 total lines, 20 visible => max_scroll = 0 (content fits)
    let clamped = state.clamped_offset(15, 20);
    assert_eq!(clamped, 0, "When content fits viewport, offset should be 0");
}

#[test]
fn help_overlay_test_help_overlay_new() {
    let overlay = HelpOverlay::new();
    assert_eq!(overlay.state.scroll_offset, 0);
}

#[test]
fn help_overlay_test_help_overlay_default() {
    let overlay = HelpOverlay::default();
    assert_eq!(overlay.state.scroll_offset, 0);
}

#[test]
fn help_overlay_test_handle_input_close_keys() {

    let mut overlay = HelpOverlay::new();

    // '?' should close
    let event = overlay.handle_input(KeyEvent::new(KeyCode::Char('?'), KeyModifiers::none()));
    assert!(matches!(event, Some(HelpOverlayEvent::Closed)));

    // Esc should close
    let event = overlay.handle_input(KeyEvent::new(KeyCode::Esc, KeyModifiers::none()));
    assert!(matches!(event, Some(HelpOverlayEvent::Closed)));

    // 'q' should close
    let event = overlay.handle_input(KeyEvent::new(KeyCode::Char('q'), KeyModifiers::none()));
    assert!(matches!(event, Some(HelpOverlayEvent::Closed)));
}

#[test]
fn help_overlay_test_handle_input_scroll_keys() {

    let mut overlay = HelpOverlay::new();

    // Down arrow scrolls down
    let event = overlay.handle_input(KeyEvent::new(KeyCode::Down, KeyModifiers::none()));
    assert!(event.is_none());
    assert_eq!(overlay.state.scroll_offset, 1);

    // 'j' also scrolls down
    let event = overlay.handle_input(KeyEvent::new(KeyCode::Char('j'), KeyModifiers::none()));
    assert!(event.is_none());
    assert_eq!(overlay.state.scroll_offset, 2);

    // Up arrow scrolls up
    let event = overlay.handle_input(KeyEvent::new(KeyCode::Up, KeyModifiers::none()));
    assert!(event.is_none());
    assert_eq!(overlay.state.scroll_offset, 1);

    // 'k' also scrolls up
    let event = overlay.handle_input(KeyEvent::new(KeyCode::Char('k'), KeyModifiers::none()));
    assert!(event.is_none());
    assert_eq!(overlay.state.scroll_offset, 0);
}

#[test]
fn help_overlay_test_handle_input_home_end() {

    let mut overlay = HelpOverlay::new();
    overlay.state.scroll_offset = 50;

    // Home goes to top
    let event = overlay.handle_input(KeyEvent::new(KeyCode::Home, KeyModifiers::none()));
    assert!(event.is_none());
    assert_eq!(overlay.state.scroll_offset, 0);

    // End goes to bottom (sets to MAX, will be clamped at render)
    let event = overlay.handle_input(KeyEvent::new(KeyCode::End, KeyModifiers::none()));
    assert!(event.is_none());
    assert_eq!(overlay.state.scroll_offset, usize::MAX);
}

#[test]
fn help_overlay_test_get_help_content_not_empty() {
    let registry = sample_registry();
    let content = get_help_content(&registry);

    assert!(!content.is_empty(), "Help content should not be empty");
    assert!(
        content.len() > 10,
        "Help content should have multiple lines"
    );
}

#[test]
fn help_overlay_test_get_help_content_has_sections() {
    let registry = sample_registry();
    let content = get_help_content(&registry);

    // Convert to string for easier checking
    let text: String = content
        .iter()
        .map(|line| {
            line.spans
                .iter()
                .map(|span| span.text.as_str())
                .collect::<String>()
        })
        .collect::<Vec<_>>()
        .join("\n");

    assert!(
        text.contains("NAVIGATION"),
        "Should have NAVIGATION section"
    );
    assert!(text.contains("LAYERS"), "Should have LAYERS section");
    assert!(
        text.contains("KEY EDITOR"),
        "Should have KEY EDITOR section"
    );
}

#[test]
fn tests_test_help_overlay_state_initial() {
    let state = HelpOverlayState::new();
    assert_eq!(state.scroll_offset, 0, "Initial scroll should be at top");
}

#[test]
fn tests_test_scroll_up_from_zero_stays_zero() {
    let mut state = HelpOverlayState::new();
    state.scroll_up();
    assert_eq!(state.scroll_offset, 0, "Scroll up from 0 should stay at 0");
}

#[test]
fn tests_test_scroll_down_increments() {
    let mut state = HelpOverlayState::new();
    state.scroll_down();
    assert_eq!(
        state.scroll_offset, 1,
        "Scroll down should increment offset"
    );
    state.scroll_down();
    assert_eq!(state.scroll_offset, 2, "Scroll down again should increment");
}

#[test]
fn tests_test_scroll_to_top_resets() {
    let mut state = HelpOverlayState::new();
    state.scroll_offset = 50;
    state.scroll_to_top();
    assert_eq!(state.scroll_offset, 0, "Scroll to top should reset to 0");
}

#[test]
fn tests_test_scroll_to_bottom_sets_max() {
    let mut state = HelpOverlayState::new();
    state.scroll_to_bottom();
    assert_eq!(
        state.scroll_offset,
        usize::MAX,
        "Scroll to bottom should set to MAX"
    );
}

#[test]
fn tests_test_page_up_page_down() {
    let mut state = HelpOverlayState::new();
    state.scroll_offset = 50;

    state.page_down(10);
    assert_eq!(state.scroll_offset, 60, "Page down by 10 should add 10");

    state.page_up(15);
    assert_eq!(state.scroll_offset, 45, "Page up by 15 should subtract 15");

    state.page_up(100);
    assert_eq!(state.scroll_offset, 0, "Page up beyond 0 should clamp to 0");
}

#[test]
fn tests_test_compute_max_scroll() {
    // Content smaller than viewport: no scrolling possible
    assert_eq!(
        HelpOverlayState::compute_max_scroll(10, 20),
        0,
        "Content smaller than viewport should have max_scroll=0"
    );

    // Content equals viewport: no scrolling possible
    assert_eq!(
        HelpOverlayState::compute_max_scroll(20, 20),
        0,
        "Content equals viewport should have max_scroll=0"
    );

    // Content larger than viewport
    assert_eq!(
        HelpOverlayState::compute_max_scroll(100, 20),
        80,
        "100 lines with 20 visible should have max_scroll=80"
    );
}

#[test]
fn tests_test_clamped_offset_within_bounds() {
    let mut state = HelpOverlayState::new();
    state.scroll_offset = 30;

    // 100 total lines, 20 visible => max_scroll = 80
    let clamped = state.clamped_offset(100, 20);
    assert_eq!(
        clamped, 30,
        "Offset 30 is within bounds, should be unchanged"
    );
}

#[test]
fn tests_test_clamped_offset_exceeds_max() {
    let mut state = HelpOverlayState::new();
    state.scroll_offset = 95;

    // 100 total lines, 20 visible => max_scroll = 80
    let clamped = state.clamped_offset(100, 20);
    assert_eq!(clamped, 80, "Offset 95 should clamp to max_scroll=80");
}

#[test]
fn tests_test_clamped_offset_at_usize_max() {
    let mut state = HelpOverlayState::new();
    state.scroll_to_bottom(); // Sets to usize::MAX

    // 100 total lines, 20 visible => max_scroll = 80
    let clamped = state.clamped_offset(100, 20);
    assert_eq!(clamped, 80, "usize::MAX should clamp to max_scroll=80");
}

#[test]
fn tests_test_clamped_offset_content_fits_viewport() {
    let mut state = HelpOverlayState::new();
    state.scroll_offset = 10;

    // 15 total lines, 20 visible => max_scroll = 0 (content fits)
    let clamped = state.clamped_offset(15, 20);
    assert_eq!(clamped, 0, "When content fits viewport, offset should be 0");
}

#[test]
fn tests_test_help_overlay_new() {
    let overlay = HelpOverlay::new();
    assert_eq!(overlay.state.scroll_offset, 0);
}

#[test]
fn tests_test_help_overlay_default() {
    let overlay = HelpOverlay::default();
    assert_eq!(overlay.state.scroll_offset, 0);
}

#[test]
fn tests_test_handle_input_close_keys() {

    let mut overlay = HelpOverlay::new();

    // '?' should close
    let event = overlay.handle_input(KeyEvent::new(KeyCode::Char('?'), KeyModifiers::none()));
    assert!(matches!(event, Some(HelpOverlayEvent::Closed)));

    // Esc should close
    let event = overlay.handle_input(KeyEvent::new(KeyCode::Esc, KeyModifiers::none()));
    assert!(matches!(event, Some(HelpOverlayEvent::Closed)));

    // 'q' should close
    let event = overlay.handle_input(KeyEvent::new(KeyCode::Char('q'), KeyModifiers::none()));
    assert!(matches!(event, Some(HelpOverlayEvent::Closed)));
}

#[test]
fn tests_test_handle_input_scroll_keys() {

    let mut overlay = HelpOverlay::new();

    // Down arrow scrolls down
    let event = overlay.handle_input(KeyEvent::new(KeyCode::Down, KeyModifiers::none()));
    assert!(event.is_none());
    assert_eq!(overlay.state.scroll_offset, 1);

    // 'j' also scrolls down
    let event = overlay.handle_input(KeyEvent::new(KeyCode::Char('j'), KeyModifiers::none()));
    assert!(event.is_none());
    assert_eq!(overlay.state.scroll_offset, 2);

    // Up arrow scrolls up
    let event = overlay.handle_input(KeyEvent::new(KeyCode::Up, KeyModifiers::none()));
    assert!(event.is_none());
    assert_eq!(overlay.state.scroll_offset, 1);

    // 'k' also scrolls up
    let event = overlay.handle_input(KeyEvent::new(KeyCode::Char('k'), KeyModifiers::none()));
    assert!(event.is_none());
    assert_eq!(overlay.state.scroll_offset, 0);
}

#[test]
fn tests_test_handle_input_home_end() {

    let mut overlay = HelpOverlay::new();
    overlay.state.scroll_offset = 50;

    // Home goes to top
    let event = overlay.handle_input(KeyEvent::new(KeyCode::Home, KeyModifiers::none()));
    assert!(event.is_none());
    assert_eq!(overlay.state.scroll_offset, 0);

    // End goes to bottom (sets to MAX, will be clamped at render)
    let event = overlay.handle_input(KeyEvent::new(KeyCode::End, KeyModifiers::none()));
    assert!(event.is_none());
    assert_eq!(overlay.state.scroll_offset, usize::MAX);
}

#[test]
fn tests_test_get_help_content_not_empty() {
    let registry = sample_registry();
    let content = get_help_content(&registry);

    assert!(!content.is_empty(), "Help content should not be empty");
    assert!(
        content.len() > 10,
        "Help content should have multiple lines"
    );
}
