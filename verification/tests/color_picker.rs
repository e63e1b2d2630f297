use lazyqmk::category_manager::{CategoryManagerState, ManagerMode};
use lazyqmk::color_picker::{
    apply_color, category_id_from_name, clear_color, AfterPicker, ColorCommand, ColorPickerAction,
    ColorPickerMode, ColorPickerState, PaletteFocus, RgbChannel,
};
use lazyqmk::component::ColorPickerContext;
use lazyqmk::keys::{KeyCode, KeyEvent, KeyModifiers};
use lazyqmk::models::{ColorPalette, PaletteColor, RgbColor, Shade};

fn key(code: KeyCode) -> KeyEvent {
    KeyEvent::new(code, KeyModifiers::none())
}

fn color(name: &str, base: u8) -> PaletteColor {
    PaletteColor {
        name: name.to_string(),
        shades: (0..5u8).map(|i| Shade { r: base, g: i * 50, b: 255 - i * 50 }).collect(),
    }
}

/// Five colors in rows of two.
fn palette() -> ColorPalette {
    ColorPalette {
        colors: vec![color("a", 0), color("b", 50), color("c", 100), color("d", 150), color("e", 200)],
        columns: 2,
    }
}

#[test]
fn new_picker_shows_white() {
    let p = ColorPickerState::new(palette());
    assert_eq!(p.get_color(), RgbColor::new(255, 255, 255));
    assert_eq!(p.mode, ColorPickerMode::Palette);
    assert_eq!(p.selected_color, 0);
    assert_eq!(p.selected_shade, 4);
}

#[test]
fn with_color_selects_closest_entry() {
    let p = ColorPickerState::with_color(palette(), RgbColor::new(100, 100, 150));
    assert_eq!(p.get_color(), RgbColor::new(100, 100, 150));
    assert_eq!(p.selected_color, 2);
    assert_eq!(p.selected_shade, 2);
    // an exact palette color is found again
    let p = ColorPickerState::with_color(palette(), RgbColor::new(150, 200, 55));
    assert_eq!((p.selected_color, p.selected_shade), (3, 4));
}

#[test]
fn palette_navigation_moves_on_the_grid() {
    let mut p = ColorPickerState::new(palette());
    assert_eq!(p.handle_input(key(KeyCode::Right)), ColorPickerAction::Stay);
    assert_eq!(p.selected_color, 1);
    assert_eq!(p.get_color(), RgbColor::new(50, 200, 55));
    p.handle_input(key(KeyCode::Right));
    assert_eq!(p.selected_color, 1);
    p.handle_input(key(KeyCode::Down));
    assert_eq!(p.selected_color, 3);
    // below color 3 the grid has no entry: nothing moves
    p.handle_input(key(KeyCode::Down));
    assert_eq!(p.selected_color, 3);
    assert_eq!(p.palette_focus, PaletteFocus::Colors);
    p.handle_input(key(KeyCode::Left));
    assert_eq!(p.selected_color, 2);
    p.handle_input(key(KeyCode::Char('j')));
    assert_eq!(p.selected_color, 4);
    // from the last row, down moves to the shades
    p.handle_input(key(KeyCode::Down));
    assert_eq!(p.palette_focus, PaletteFocus::Shades);
    p.handle_input(key(KeyCode::Left));
    assert_eq!(p.selected_shade, 3);
    assert_eq!(p.get_color(), RgbColor::new(200, 150, 105));
    p.handle_input(key(KeyCode::Up));
    assert_eq!(p.palette_focus, PaletteFocus::Colors);
    p.handle_input(key(KeyCode::Char('h')));
    assert_eq!(p.selected_color, 4);
}

#[test]
fn rgb_mode_adjusts_channels() {
    let mut p = ColorPickerState::with_color(palette(), RgbColor::new(250, 5, 0));
    p.handle_input(key(KeyCode::Char('c')));
    assert_eq!(p.mode, ColorPickerMode::CustomRgb);
    p.handle_input(key(KeyCode::Up));
    assert_eq!(p.r, 255);
    p.handle_input(key(KeyCode::Tab));
    assert_eq!(p.active_channel, RgbChannel::Green);
    p.handle_input(key(KeyCode::Down));
    assert_eq!(p.g, 0);
    p.handle_input(KeyEvent::new(KeyCode::Tab, KeyModifiers::shift()));
    assert_eq!(p.active_channel, RgbChannel::Red);
    p.handle_input(key(KeyCode::Left));
    p.handle_input(key(KeyCode::Right));
    assert_eq!(p.r, 255);
    p.handle_input(key(KeyCode::Char('p')));
    assert_eq!(p.mode, ColorPickerMode::Palette);
}

#[test]
fn picker_actions() {
    let mut p = ColorPickerState::new(palette());
    assert_eq!(p.handle_input(key(KeyCode::Enter)), ColorPickerAction::Apply);
    assert_eq!(p.handle_input(key(KeyCode::Esc)), ColorPickerAction::Cancel);
    assert_eq!(p.handle_input(key(KeyCode::Char('x'))), ColorPickerAction::Clear);
    assert_eq!(p.handle_input(key(KeyCode::Delete)), ColorPickerAction::Clear);
}

#[test]
fn channel_cycle_and_roundtrip() {
    let mut p = ColorPickerState::new(palette());
    for _ in 0..3 {
        p.next_channel();
    }
    assert_eq!(p.active_channel, RgbChannel::Red);
    p.next_channel();
    p.previous_channel();
    assert_eq!(p.active_channel, RgbChannel::Red);
    p.r = 100;
    p.increase_value(30);
    p.decrease_value(30);
    assert_eq!(p.r, 100);
    p.decrease_value(200);
    assert_eq!(p.r, 0);
}

#[test]
fn category_ids_are_lowercase_with_dashes() {
    assert_eq!(category_id_from_name("Home Row Mods"), "home-row-mods");
    assert_eq!(category_id_from_name("ÄÖ x"), "äö-x");
}

#[test]
fn apply_color_per_context() {
    let mut p = ColorPickerState::new(palette());
    p.r = 1;
    p.g = 2;
    p.b = 3;
    let mut m = CategoryManagerState::new();
    let (cmd, after) = apply_color(&p, Some(ColorPickerContext::IndividualKey), &mut m);
    assert!(matches!(cmd, ColorCommand::KeyColor(Some(c)) if c == RgbColor::new(1, 2, 3)));
    assert_eq!(after, AfterPicker::Close);
    let (cmd, _) = apply_color(&p, Some(ColorPickerContext::LayerDefault), &mut m);
    assert!(matches!(cmd, ColorCommand::LayerDefault(c) if c == RgbColor::new(1, 2, 3)));
    m.selected = 4;
    let (cmd, after) = apply_color(&p, Some(ColorPickerContext::Category), &mut m);
    assert!(matches!(cmd, ColorCommand::RecolorCategory { index: 4, .. }));
    assert_eq!(after, AfterPicker::CategoryManager);
    m.mode = ManagerMode::CreatingColor { name: "Home Row".to_string() };
    match apply_color(&p, Some(ColorPickerContext::Category), &mut m) {
        (ColorCommand::CreateCategory { id, name, color }, AfterPicker::CategoryManager) => {
            assert_eq!(id, "home-row");
            assert_eq!(name, "Home Row");
            assert_eq!(color, RgbColor::new(1, 2, 3));
        }
        other => panic!("unexpected {:?}", other),
    }
    assert!(m.is_browsing());
    m.mode = ManagerMode::ConfirmingDelete { category_id: "x".to_string() };
    match apply_color(&p, Some(ColorPickerContext::Category), &mut m) {
        (ColorCommand::Error(e), AfterPicker::CategoryManager) => assert_eq!(e, "Invalid category manager state"),
        other => panic!("unexpected {:?}", other),
    }
    match apply_color(&p, None, &mut m) {
        (ColorCommand::Error(e), AfterPicker::Close) => assert_eq!(e, "No color context set"),
        other => panic!("unexpected {:?}", other),
    }
}

#[test]
fn clear_color_per_context() {
    assert!(matches!(clear_color(Some(ColorPickerContext::IndividualKey)), (ColorCommand::KeyColor(None), AfterPicker::Close)));
    assert!(matches!(
        clear_color(Some(ColorPickerContext::LayerDefault)),
        (ColorCommand::LayerDefault(c), AfterPicker::Close) if c == RgbColor::new(255, 255, 255)
    ));
    match clear_color(Some(ColorPickerContext::Category)) {
        (ColorCommand::Error(e), AfterPicker::Stay) => assert_eq!(e, "Categories must have a color"),
        other => panic!("unexpected {:?}", other),
    }
    match clear_color(None) {
        (ColorCommand::Error(e), AfterPicker::Close) => assert_eq!(e, "No color context set"),
        other => panic!("unexpected {:?}", other),
    }
}

#[test]
fn grid_moves_past_a_color_without_shades() {
    let mut pal = palette();
    pal.colors[1].shades.clear();
    let mut p = ColorPickerState::new(pal);
    p.selected_color = 0;
    p.selected_shade = 2;
    p.navigate_palette(1, 0);
    assert_eq!(p.selected_color, 1);
    p.navigate_palette(0, 1);
    assert_eq!(p.selected_color, 3);
    assert_eq!(p.get_color(), RgbColor::new(150, 100, 155));
    // the last row has one color: the cell below is empty, so nothing moves
    p.navigate_palette(0, 1);
    assert_eq!(p.selected_color, 3);
    p.navigate_palette(-1, 1);
    assert_eq!(p.selected_color, 4);
    p.navigate_palette(1, 0);
    assert_eq!(p.selected_color, 4);
    // on the shade bar of a missing color nothing moves
    p.palette_focus = PaletteFocus::Shades;
    p.selected_color = 9;
    p.navigate_palette(1, 0);
    assert_eq!(p.selected_shade, 2);
    assert_eq!(p.selected_color, 9);
}
