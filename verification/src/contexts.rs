//! Keys of the help contexts.

use vstd::prelude::*;

verus! {

/// Main keyboard editing view
pub const MAIN: &'static str = "main";
/// Keycode picker popup
pub const KEYCODE_PICKER: &'static str = "keycode_picker";
/// Color picker in palette mode
pub const COLOR_PICKER_PALETTE: &'static str = "color_picker_palette";
/// Color picker in RGB slider mode
pub const COLOR_PICKER_RGB: &'static str = "color_picker_rgb";
/// Layer manager popup
pub const LAYER_MANAGER: &'static str = "layer_manager";
/// Category manager popup
pub const CATEGORY_MANAGER: &'static str = "category_manager";
/// Category picker popup
pub const CATEGORY_PICKER: &'static str = "category_picker";
/// Settings manager popup
pub const SETTINGS_MANAGER: &'static str = "settings_manager";
/// Metadata editor popup
pub const METADATA_EDITOR: &'static str = "metadata_editor";
/// Modifier picker popup
pub const MODIFIER_PICKER: &'static str = "modifier_picker";
/// Layer picker popup
pub const LAYER_PICKER: &'static str = "layer_picker";
/// Layout picker popup
pub const LAYOUT_PICKER: &'static str = "layout_picker";
/// Keyboard picker popup
pub const KEYBOARD_PICKER: &'static str = "keyboard_picker";
/// Build log popup
pub const BUILD_LOG: &'static str = "build_log";
/// Help overlay
pub const HELP: &'static str = "help";
/// Selection mode
pub const SELECTION: &'static str = "selection";
/// Template browser
pub const TEMPLATE_BROWSER: &'static str = "template_browser";
/// Template save dialog
pub const TEMPLATE_SAVE: &'static str = "template_save";
/// Setup wizard
pub const SETUP_WIZARD: &'static str = "setup_wizard";
/// Unsaved changes prompt
pub const UNSAVED_PROMPT: &'static str = "unsaved_prompt";
/// Clipboard operations (informational)
pub const CLIPBOARD: &'static str = "clipboard";
/// Parameterized keycodes (informational)
pub const PARAMETERIZED_KEYCODES: &'static str = "parameterized_keycodes";
/// Tap-hold settings (informational)
pub const TAP_HOLD_INFO: &'static str = "tap_hold_info";
/// Color priority (informational)
pub const COLOR_PRIORITY: &'static str = "color_priority";
/// Tips (informational)
pub const TIPS: &'static str = "tips";

} // verus!
