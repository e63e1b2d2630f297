use lazyqmk::keycodes::{
    extract_td_name, is_basic_keycode, is_basic_or_layer_keycode, tap_dance_flow_label,
    theme_mode_display, FormRow, ThemeMode,
};

#[test]
fn tests_test_extract_td_name() {
    assert_eq!(extract_td_name("TD(slash)"), Some("slash".to_string()));
    assert_eq!(
        extract_td_name("TD(esc_caps)"),
        Some("esc_caps".to_string())
    );
    assert_eq!(
        extract_td_name("TD(my_dance_123)"),
        Some("my_dance_123".to_string())
    );
    assert_eq!(extract_td_name("TD()"), None); // Empty name
    assert_eq!(extract_td_name("KC_A"), None); // Not a TD
    assert_eq!(extract_td_name("TD(incomplete"), None); // Missing closing paren
}

#[test]
fn popups_test_extract_td_name() {
    assert_eq!(extract_td_name("TD(slash)"), Some("slash".to_string()));
    assert_eq!(
        extract_td_name("TD(esc_caps)"),
        Some("esc_caps".to_string())
    );
    assert_eq!(
        extract_td_name("TD(my_dance_123)"),
        Some("my_dance_123".to_string())
    );
    assert_eq!(extract_td_name("TD()"), None); // Empty name
    assert_eq!(extract_td_name("KC_A"), None); // Not a TD
    assert_eq!(extract_td_name("TD(incomplete"), None); // Missing closing paren
}

fn check_basic_or_layer() {
    // Basic keycodes should be allowed
    assert!(is_basic_or_layer_keycode("KC_A"));
    assert!(is_basic_or_layer_keycode("KC_ENTER"));
    assert!(is_basic_or_layer_keycode("KC_LSFT"));

    // Simple layer keycodes should be allowed
    assert!(is_basic_or_layer_keycode("MO(1)"));
    assert!(is_basic_or_layer_keycode("TG(2)"));
    assert!(is_basic_or_layer_keycode("TO(3)"));
    assert!(is_basic_or_layer_keycode("TT(1)"));
    assert!(is_basic_or_layer_keycode("OSL(2)"));
    assert!(is_basic_or_layer_keycode("DF(0)"));

    // Complex parameterized keycodes should be rejected
    assert!(!is_basic_or_layer_keycode("LT(1, KC_SPC)"));
    assert!(!is_basic_or_layer_keycode("MT(MOD_LCTL, KC_A)"));
    assert!(!is_basic_or_layer_keycode("LM(1, MOD_LSFT)"));
    assert!(!is_basic_or_layer_keycode("LCTL_T(KC_A)"));

    // Layer references should be rejected
    assert!(!is_basic_or_layer_keycode("MO(@layer_id)"));
}

#[test]
fn popups_test_is_basic_or_layer_keycode() {
    check_basic_or_layer();
}

#[test]
fn tests_test_is_basic_or_layer_keycode() {
    check_basic_or_layer();
}

#[test]
fn td_name_wrapped_then_read_back() {
    let name = "hold_esc";
    let wrapped = format!("TD({name})");
    assert_eq!(extract_td_name(&wrapped), Some(name.to_string()));
}

#[test]
fn td_name_needs_exact_shape() {
    assert_eq!(extract_td_name("td(x)"), None);
    assert_eq!(extract_td_name("TD(x)y"), None);
    assert_eq!(extract_td_name("TD(a(b))"), Some("a(b)".to_string()));
}

#[test]
fn basic_keycodes() {
    assert!(is_basic_keycode("KC_A"));
    assert!(!is_basic_keycode("MO(1)"));
    assert!(!is_basic_keycode("@layer"));
    // every basic keycode is also basic-or-layer
    for code in ["KC_A", "KC_TRNS", "RGB_TOG", ""] {
        assert!(is_basic_keycode(code));
        assert!(is_basic_or_layer_keycode(code));
    }
}

#[test]
fn layer_keycodes_need_one_simple_argument() {
    assert!(!is_basic_or_layer_keycode("MO(1)(2)"));
    assert!(!is_basic_or_layer_keycode("XX(1)"));
    assert!(is_basic_or_layer_keycode("MO()"));
}

#[test]
fn display_names() {
    assert_eq!(theme_mode_display(ThemeMode::Auto), "Auto");
    assert_eq!(theme_mode_display(ThemeMode::Dark), "Dark");
    assert_eq!(theme_mode_display(ThemeMode::Light), "Light");
    assert_eq!(tap_dance_flow_label(FormRow::Name), "Name");
    assert_eq!(tap_dance_flow_label(FormRow::Single), "Single tap");
    assert_eq!(tap_dance_flow_label(FormRow::Double), "Double tap");
    assert_eq!(tap_dance_flow_label(FormRow::Hold), "Hold");
}
