//! Key handling of the simple popups: the template save dialog, the export
//! filename dialog and the unsaved-changes prompt. Each handler edits its
//! dialog and says what the application does next (save, export, quit),
//! which involves the file system and stays with the caller.

use vstd::prelude::*;

use crate::app_state::{
    field_value, next_field_of, previous_field_of, ExportFilenameDialogState,
    TemplateSaveDialogState, TemplateSaveField,
};
use crate::keys::{KeyCode, KeyEvent};
use crate::text::{
    chars_of, concat2, has_visible, lowercase, pop_char, push_char, string_from_chars,
    to_lowercase, trim,
};

verus! {

// ---------------------------------------------------------------------------
// Outside facts
// ---------------------------------------------------------------------------

/// Whether a character is alphabetic or numeric in the Unicode sense
/// (`char::is_alphanumeric`).
pub uninterp spec fn alphanumeric(c: char) -> bool;

/// `char::is_alphanumeric`: whether `c` is Unicode alphabetic or numeric; the
/// Unicode tables behind it are not spelled out and the result is named
/// `alphanumeric`.
#[verifier::external_body]
fn char_is_alphanumeric(c: char) -> (b: bool)
    ensures
        b == alphanumeric(c),
{
    c.is_alphanumeric()
}

/// The last component of a path, as `Path::file_name` gives it.
pub uninterp spec fn file_name_of(path: Seq<char>) -> Option<Seq<char>>;

/// `std::path::Path::file_name`: the final component of the path, `None`
/// when the path ends in `..` or has no component. The component parsing is
/// not spelled out; the result is named `file_name_of`.
#[verifier::external_body]
fn path_file_name(path: &str) -> (r: Option<String>)
    ensures
        match r {
            Some(n) => file_name_of(path@) == Some(n@),
            None => file_name_of(path@) is None,
        },
{
    std::path::Path::new(path).file_name().map(|n| n.to_string_lossy().into_owned())
}

// ---------------------------------------------------------------------------
// Template save dialog
// ---------------------------------------------------------------------------

/// Abstract view of the template save dialog.
pub struct TemplateSaveView {
    /// Field being edited
    pub active: TemplateSaveField,
    /// Template name
    pub name: Seq<char>,
    /// Template description
    pub description: Seq<char>,
    /// Template author
    pub author: Seq<char>,
    /// Comma-separated tags
    pub tags: Seq<char>,
}

/// View of the template save dialog.
pub open spec fn template_view(d: TemplateSaveDialogState) -> TemplateSaveView {
    TemplateSaveView {
        active: d.active_field,
        name: d.name@,
        description: d.description@,
        author: d.author@,
        tags: d.tags_input@,
    }
}

/// Text of field `f`.
pub open spec fn text_of(v: TemplateSaveView, f: TemplateSaveField) -> Seq<char> {
    match f {
        TemplateSaveField::Name => v.name,
        TemplateSaveField::Description => v.description,
        TemplateSaveField::Author => v.author,
        TemplateSaveField::Tags => v.tags,
    }
}

/// The dialog with the text of field `f` replaced.
pub open spec fn with_text(v: TemplateSaveView, f: TemplateSaveField, t: Seq<char>) -> TemplateSaveView {
    match f {
        TemplateSaveField::Name => TemplateSaveView { name: t, ..v },
        TemplateSaveField::Description => TemplateSaveView { description: t, ..v },
        TemplateSaveField::Author => TemplateSaveView { author: t, ..v },
        TemplateSaveField::Tags => TemplateSaveView { tags: t, ..v },
    }
}

/// The characters kept in a template file name: alphanumeric ones and `-`,
/// in order.
pub open spec fn stem_chars(s: Seq<char>) -> Seq<char>
    decreases s.len(),
{
    if s.len() == 0 {
        Seq::empty()
    } else {
        let rest = stem_chars(s.drop_last());
        if alphanumeric(s.last()) || s.last() == '-' {
            rest.push(s.last())
        } else {
            rest
        }
    }
}

/// File name (without extension) of a template: the lowercase name with
/// spaces turned into `-`, keeping only alphanumeric characters and `-`.
pub open spec fn template_file_stem(name: Seq<char>) -> Seq<char> {
    stem_chars(lowercase(name).map_values(|c: char| if c == ' ' { '-' } else { c }))
}

/// What the application does after a key in the template save dialog.
#[derive(Debug, Clone)]
pub enum TemplateSaveOutcome {
    /// Keep the dialog open
    Stay,
    /// Close the dialog ("Template save cancelled")
    Cancelled,
    /// Report the error and keep the dialog open
    Rejected(String),
    /// Save the layout as a template named by the dialog's fields, in the
    /// templates folder under `{file_stem}.md`
    Save {
        /// File name without extension
        file_stem: String,
    },
}

/// The dialog's reaction to a key: its new state and what the caller does.
pub open spec fn template_step(v: TemplateSaveView, key: KeyEvent) -> (TemplateSaveView, int) {
    match key.code {
        KeyCode::Char(c) => (with_text(v, v.active, text_of(v, v.active).push(c)), 0),
        KeyCode::Backspace => (
            with_text(
                v,
                v.active,
                if text_of(v, v.active).len() > 0 {
                    text_of(v, v.active).drop_last()
                } else {
                    text_of(v, v.active)
                },
            ),
            0,
        ),
        KeyCode::Tab => (
            TemplateSaveView {
                active: if key.modifiers.shift {
                    previous_field_of(v.active)
                } else {
                    next_field_of(v.active)
                },
                ..v
            },
            0,
        ),
        KeyCode::Enter => (v, if trim(v.name).len() == 0 { 2 } else { 3 }),
        KeyCode::Esc => (v, 1),
        _ => (v, 0),
    }
}

/// The kind of an outcome: 0 stay, 1 cancelled, 2 rejected, 3 save.
pub open spec fn template_outcome_kind(o: TemplateSaveOutcome) -> int {
    match o {
        TemplateSaveOutcome::Stay => 0,
        TemplateSaveOutcome::Cancelled => 1,
        TemplateSaveOutcome::Rejected(_) => 2,
        TemplateSaveOutcome::Save { .. } => 3,
    }
}

/// The template file name for a template name.
pub fn template_file_name(name: &str) -> (stem: String)
    ensures
        stem@ == template_file_stem(name@),
{
    let lower = to_lowercase(name);
    let cs = chars_of(lower.as_str());
    let ghost dashed = lowercase(name@).map_values(|c: char| if c == ' ' { '-' } else { c });
    let mut out: Vec<char> = Vec::new();
    let mut i: usize = 0;
    while i < cs.len()
        invariant
            cs@ == lowercase(name@),
            dashed == cs@.map_values(|c: char| if c == ' ' { '-' } else { c }),
            i <= cs.len(),
            out@ == stem_chars(dashed.take(i as int)),
        decreases cs.len() - i,
    {
        let c = if cs[i] == ' ' { '-' } else { cs[i] };
        assert(dashed.take(i as int + 1).drop_last() =~= dashed.take(i as int));
        assert(dashed.take(i as int + 1).last() == c);
        if char_is_alphanumeric(c) || c == '-' {
            out.push(c);
        }
        i = i + 1;
    }
    assert(dashed.take(cs.len() as int) =~= dashed);
    string_from_chars(out.as_slice())
}

/// Handles a key in the template save dialog: characters and Backspace edit
/// the active field, Tab and Shift+Tab move between fields, Enter asks to
/// save (refused while the name is blank), Esc cancels.
pub fn handle_template_save_dialog_input(dialog: &mut TemplateSaveDialogState, key: KeyEvent) -> (out:
    TemplateSaveOutcome)
    ensures
        (template_view(*final(dialog)), template_outcome_kind(out)) == template_step(
            template_view(*old(dialog)),
            key,
        ),
        out matches TemplateSaveOutcome::Rejected(m) ==> m@ == "Template name cannot be empty"@,
        out matches TemplateSaveOutcome::Save { file_stem } ==> file_stem@ == template_file_stem(
            old(dialog).name@,
        ),
{
    match key.code {
        KeyCode::Char(c) => {
            let f = dialog.get_active_field_mut();
            push_char(f, c);
            TemplateSaveOutcome::Stay
        },
        KeyCode::Backspace => {
            let f = dialog.get_active_field_mut();
            let _ = pop_char(f);
            TemplateSaveOutcome::Stay
        },
        KeyCode::Tab => {
            if key.modifiers.shift {
                dialog.previous_field();
            } else {
                dialog.next_field();
            }
            TemplateSaveOutcome::Stay
        },
        KeyCode::Enter => {
            proof {
                crate::text::lemma_trim_empty_iff(dialog.name@);
            }
            if !has_visible(dialog.name.as_str()) {
                TemplateSaveOutcome::Rejected(String::from_str("Template name cannot be empty"))
            } else {
                TemplateSaveOutcome::Save { file_stem: template_file_name(dialog.name.as_str()) }
            }
        },
        KeyCode::Esc => TemplateSaveOutcome::Cancelled,
        _ => TemplateSaveOutcome::Stay,
    }
}

// ---------------------------------------------------------------------------
// Export filename dialog
// ---------------------------------------------------------------------------

/// Position of the last `.` in `s`, if any.
pub open spec fn last_dot(s: Seq<char>) -> Option<int>
    decreases s.len(),
{
    if s.len() == 0 {
        None
    } else if s.last() == '.' {
        Some(s.len() - 1)
    } else {
        last_dot(s.drop_last())
    }
}

/// Extension of a file name, as `Path::extension` documents it: none
/// without an embedded `.`, none for a name that begins with `.` and has no
/// other `.`, otherwise the part after the final `.`.
pub open spec fn extension_of_name(name: Seq<char>) -> Option<Seq<char>> {
    match last_dot(name) {
        None => None,
        Some(i) => if i == 0 {
            None
        } else {
            Some(name.skip(i + 1))
        },
    }
}

/// ASCII lowercase of a character.
pub open spec fn ascii_lower(c: char) -> char {
    if 'A' <= c <= 'Z' {
        ((c as u32) + 32) as char
    } else {
        c
    }
}

/// Whether a path's extension is `json`, ignoring ASCII case.
pub open spec fn has_json_extension(path: Seq<char>) -> bool {
    match file_name_of(path) {
        None => false,
        Some(name) => match extension_of_name(name) {
            None => false,
            Some(ext) => ext.map_values(|c: char| ascii_lower(c)) == "json"@,
        },
    }
}

/// The export file name: the input when it already ends in a `json`
/// extension, the input with `.json` appended otherwise.
pub open spec fn export_name(filename: Seq<char>) -> Seq<char> {
    if has_json_extension(filename) {
        filename
    } else {
        filename + ".json"@
    }
}

/// What the application does after a key in the export filename dialog.
#[derive(Debug, Clone)]
pub enum ExportOutcome {
    /// Keep the dialog open
    Stay,
    /// Close the dialog ("Export cancelled")
    Cancelled,
    /// Close the dialog and report the error
    Rejected(String),
    /// Close the dialog and export the layout to the given file
    Export(String),
}

/// Position of the last `.` in a character slice.
fn find_last_dot(s: &[char]) -> (r: Option<usize>)
    ensures
        r is Some <==> last_dot(s@) is Some,
        r is Some ==> last_dot(s@) == Some(r->0 as int) && r->0 < s@.len(),
{
    let mut i: usize = s.len();
    assert(s@.take(s.len() as int) =~= s@);
    while i > 0
        invariant
            i <= s.len(),
            last_dot(s@) == last_dot(s@.take(i as int)),
        decreases i,
    {
        assert(s@.take(i as int).drop_last() =~= s@.take(i as int - 1));
        if s[i - 1] == '.' {
            return Some(i - 1);
        }
        i = i - 1;
    }
    None
}

/// A character lowercases to the ASCII letter `lower` exactly when it is
/// that letter or its uppercase form.
proof fn lemma_ascii_lower_is(c: char, lower: char, upper: char)
    requires
        'a' <= lower <= 'z',
        upper as u32 + 32 == lower as u32,
    ensures
        (ascii_lower(c) == lower) == (c == lower || c == upper),
{
    if 'A' <= c <= 'Z' {
        assert(((c as u32) + 32) as char as u32 == (c as u32) + 32);
    }
}

/// Whether a path's extension is `json`, ignoring ASCII case.
pub fn is_json_path(path: &str) -> (b: bool)
    ensures
        b == has_json_extension(path@),
{
    match path_file_name(path) {
        None => false,
        Some(name) => {
            let cs = chars_of(name.as_str());
            match find_last_dot(cs.as_slice()) {
                None => {
                    assert(file_name_of(path@) == Some(cs@));
                    false
                },
                Some(i) => {
                    assert(file_name_of(path@) == Some(cs@));
                    assert(last_dot(cs@) == Some(i as int));
                    if i == 0 {
                        assert(extension_of_name(cs@) is None);
                        false
                    } else if cs.len() - (i + 1) != 4 {
                        assert(extension_of_name(cs@) == Some(cs@.skip(i + 1)));
                        proof {
                            let ext = cs@.skip(i + 1);
                            assert(ext.map_values(|c: char| ascii_lower(c)).len() != "json"@.len())
                                by {
                                reveal_strlit("json");
                            }
                        }
                        false
                    } else {
                        let ghost ext = cs@.skip(i + 1);
                        assert(extension_of_name(cs@) == Some(ext));
                        proof {
                            reveal_strlit("json");
                        }
                        let r = (cs[i + 1] == 'j' || cs[i + 1] == 'J') && (cs[i + 2] == 's' || cs[i
                            + 2] == 'S') && (cs[i + 3] == 'o' || cs[i + 3] == 'O') && (cs[i + 4]
                            == 'n' || cs[i + 4] == 'N');
                        proof {
                            lemma_ascii_lower_is(ext[0], 'j', 'J');
                            lemma_ascii_lower_is(ext[1], 's', 'S');
                            lemma_ascii_lower_is(ext[2], 'o', 'O');
                            lemma_ascii_lower_is(ext[3], 'n', 'N');
                            let m = ext.map_values(|c: char| ascii_lower(c));
                            assert(m.len() == 4);
                            if r {
                                assert(m =~= "json"@);
                            } else {
                                assert(m[0] != 'j' || m[1] != 's' || m[2] != 'o' || m[3] != 'n');
                                assert(m != "json"@);
                            }
                        }
                        r
                    }
                },
            }
        },
    }
}

/// Handles a key in the export filename dialog: characters and Backspace
/// edit the name, Enter exports (refused for a blank name) and Esc cancels.
pub fn handle_export_filename_dialog_input(dialog: &mut ExportFilenameDialogState, key: KeyEvent) -> (out:
    ExportOutcome)
    ensures
        match key.code {
            KeyCode::Char(c) => final(dialog).filename@ == old(dialog).filename@.push(c)
                && out is Stay,
            KeyCode::Backspace => final(dialog).filename@ == (if old(dialog).filename@.len() > 0 {
                old(dialog).filename@.drop_last()
            } else {
                old(dialog).filename@
            }) && out is Stay,
            KeyCode::Enter => final(dialog).filename@ == old(dialog).filename@ && if trim(
                old(dialog).filename@,
            ).len() == 0 {
                out matches ExportOutcome::Rejected(m) && m@ == "Filename cannot be empty"@
            } else {
                out matches ExportOutcome::Export(f) && f@ == export_name(old(dialog).filename@)
            },
            KeyCode::Esc => final(dialog).filename@ == old(dialog).filename@ && out is Cancelled,
            _ => final(dialog).filename@ == old(dialog).filename@ && out is Stay,
        },
{
    match key.code {
        KeyCode::Char(c) => {
            push_char(&mut dialog.filename, c);
            ExportOutcome::Stay
        },
        KeyCode::Backspace => {
            let _ = pop_char(&mut dialog.filename);
            ExportOutcome::Stay
        },
        KeyCode::Enter => {
            proof {
                crate::text::lemma_trim_empty_iff(dialog.filename@);
            }
            if !has_visible(dialog.filename.as_str()) {
                ExportOutcome::Rejected(String::from_str("Filename cannot be empty"))
            } else if is_json_path(dialog.filename.as_str()) {
                ExportOutcome::Export(dialog.filename.clone())
            } else {
                ExportOutcome::Export(concat2(dialog.filename.as_str(), ".json"))
            }
        },
        KeyCode::Esc => ExportOutcome::Cancelled,
        _ => ExportOutcome::Stay,
    }
}

// ---------------------------------------------------------------------------
// Unsaved-changes prompt
// ---------------------------------------------------------------------------

/// What the application does after a key in the unsaved-changes prompt.
#[derive(Debug, Clone, Copy, PartialEq, Eq, Structural)]
pub enum UnsavedOutcome {
    /// Keep the prompt open
    Stay,
    /// Save the layout (when it has a file) and quit
    SaveAndQuit,
    /// Quit without saving
    Quit,
    /// Close the prompt ("Cancelled")
    Cancelled,
}

/// Handles a key in the unsaved-changes prompt: `s`/`S` saves and quits,
/// `q`/`Q` quits (both with no modifier or with Control only), Esc cancels.
pub fn handle_unsaved_prompt_input(key: KeyEvent) -> (out: UnsavedOutcome)
    ensures
        ({
            let plain_or_ctrl = key.modifiers.is_empty_spec() || key.modifiers.is_control_only();
            out == (match key.code {
                KeyCode::Char('s') | KeyCode::Char('S') => if plain_or_ctrl {
                    UnsavedOutcome::SaveAndQuit
                } else {
                    UnsavedOutcome::Stay
                },
                KeyCode::Char('q') | KeyCode::Char('Q') => if plain_or_ctrl {
                    UnsavedOutcome::Quit
                } else {
                    UnsavedOutcome::Stay
                },
                KeyCode::Esc => UnsavedOutcome::Cancelled,
                _ => UnsavedOutcome::Stay,
            })
        }),
{
    let plain_or_ctrl = key.modifiers.is_empty() || (key.modifiers.control && !key.modifiers.shift
        && !key.modifiers.alt && !key.modifiers.other);
    match key.code {
        KeyCode::Char('s') | KeyCode::Char('S') => if plain_or_ctrl {
            UnsavedOutcome::SaveAndQuit
        } else {
            UnsavedOutcome::Stay
        },
        KeyCode::Char('q') | KeyCode::Char('Q') => if plain_or_ctrl {
            UnsavedOutcome::Quit
        } else {
            UnsavedOutcome::Stay
        },
        KeyCode::Esc => UnsavedOutcome::Cancelled,
        _ => UnsavedOutcome::Stay,
    }
}

} // verus!
