use lazyqmk::clipboard::{ClipboardContent, KeyClipboard};
use lazyqmk::models::{Position, RgbColor};

fn content(k: &str) -> ClipboardContent {
    ClipboardContent { keycode: k.to_string(), color_override: None, category_id: None }
}

#[test]
fn paste_gives_back_what_was_copied() {
    let mut c = KeyClipboard::default();
    let msg = c.copy("MT(MOD_LCTL, KC_A)", Some(RgbColor::new(9, 8, 7)), Some("mods"));
    assert_eq!(msg, "Copied: MT(MOD_LCTL, KC_A) (with color/category)");
    let got = c.get_content().unwrap();
    assert_eq!(got.keycode, "MT(MOD_LCTL, KC_A)");
    assert_eq!(got.color_override, Some(RgbColor::new(9, 8, 7)));
    assert_eq!(got.category_id.as_deref(), Some("mods"));
    assert!(c.get_multi_content().is_none());
}

#[test]
fn cut_marks_its_source_until_cleared() {
    let mut c = KeyClipboard::new();
    let msg = c.cut("KC_Z", None, None, 2, Position::new(3, 4));
    assert_eq!(msg, "Cut: KC_Z - press p to paste, Esc to cancel");
    assert_eq!(c.get_cut_source(), Some((2, Position::new(3, 4))));
    assert_eq!(c.get_preview(), Some("KC_Z (cut)".to_string()));
    c.clear_cut_source();
    assert_eq!(c.get_cut_source(), None);
    assert_eq!(c.get_preview(), Some("KC_Z".to_string()));
    assert_eq!(c.get_content().unwrap().keycode, "KC_Z");
}

#[test]
fn multi_cut_sources_and_messages() {
    let mut c = KeyClipboard::new();
    let keys = vec![(Position::new(0, 0), content("KC_A")), (Position::new(0, 1), content("KC_B")), (Position::new(1, 0), content("KC_C"))];
    let msg = c.cut_multi(keys, Position::new(0, 0), 1, vec![Position::new(5, 5), Position::new(5, 6), Position::new(6, 5)]);
    assert_eq!(msg, "Cut 3 keys - press p to paste, Esc to cancel");
    assert_eq!(c.get_multi_cut_sources(), &[(1, Position::new(5, 5)), (1, Position::new(5, 6)), (1, Position::new(6, 5))]);
    assert_eq!(c.get_preview(), Some("3 keys (cut)".to_string()));
    assert!(c.is_cut_source(1, Position::new(6, 5)));
    assert!(!c.is_cut_source(0, Position::new(6, 5)));
    c.cancel_cut();
    assert!(c.get_multi_cut_sources().is_empty());
    assert_eq!(c.get_preview(), Some("3 keys".to_string()));
    let multi = c.get_multi_content().unwrap();
    assert_eq!(multi.keys.len(), 3);
    assert_eq!(multi.anchor, Position::new(0, 0));
    let msg = c.copy_multi(vec![(Position::new(0, 0), content("KC_Q"))], Position::new(2, 2));
    assert_eq!(msg, "Copied 1 keys");
    assert!(!c.is_cut());
}

#[test]
fn undo_is_taken_once() {
    let mut c = KeyClipboard::new();
    c.save_undo(3, vec![(Position::new(1, 1), content("KC_X"))], "Pasted".to_string());
    assert_eq!(c.get_undo().unwrap().layer_index, 3);
    let u = c.take_undo().unwrap();
    assert_eq!(u.original_keys[0].1.keycode, "KC_X");
    assert!(c.take_undo().is_none());
    // clearing keeps no content but does not touch the undo slot
    c.save_undo(0, vec![], "x".to_string());
    c.copy("KC_A", None, None);
    c.clear();
    assert!(!c.has_content());
    assert!(c.can_undo());
}

#[test]
fn every_state_holds_one_kind_and_cuts_have_content() {
    let mut c = KeyClipboard::new();
    let check = |c: &KeyClipboard| {
        assert!(!(c.is_single() && c.is_multi()));
        assert!(!c.is_cut() || c.has_content());
        assert_eq!(c.is_cut(), c.get_cut_source().is_some() || !c.get_multi_cut_sources().is_empty());
    };
    check(&c);
    c.cut("KC_G", None, None, 0, Position::new(1, 2));
    check(&c);
    assert!(c.is_single() && !c.is_multi() && c.is_cut());
    c.copy_multi(vec![(Position::new(0, 0), content("KC_A"))], Position::new(0, 0));
    check(&c);
    assert!(c.is_multi() && !c.is_single() && !c.is_cut());
    c.cut_multi(vec![(Position::new(0, 0), content("KC_B"))], Position::new(0, 0), 1, vec![Position::new(3, 4)]);
    check(&c);
    let d = c.clone();
    check(&d);
    assert_eq!(d.get_multi_cut_sources(), &[(1, Position::new(3, 4))]);
    c.copy("KC_H", None, None);
    check(&c);
    assert!(!c.is_cut());
    c.clear();
    check(&c);
    assert!(!c.has_content());
}
