//! Verified state machines and text logic of the LazyQMK terminal editor.

pub mod keys;
pub mod models;
pub mod text;
pub mod clipboard;
pub mod help_overlay;
pub mod build_log;
pub mod external_change_prompt;
pub mod category_manager;
pub mod config_dialogs;
pub mod category_picker;
pub mod color_picker;
pub mod help_registry;
pub mod keycodes;
pub mod navigation;
pub mod app_state;
pub mod component;
pub mod onboarding_wizard;
pub mod file_watcher;
pub mod contexts;
pub mod help_content;
pub mod popup_input;
