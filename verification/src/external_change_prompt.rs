//! Prompt shown when the layout file changed on disk while there are unsaved
//! edits: reload from disk, keep mine (overwrite disk), save mine to a
//! sidecar then reload, or cancel.

use vstd::prelude::*;

use crate::keys::{KeyCode, KeyEvent, KeyModifiers};

verus! {

/// Which button is currently highlighted.
#[derive(Debug, Clone, Copy, PartialEq, Eq, Structural)]
pub enum Selection {
    /// "Reload from disk" — discard local edits.
    Reload,
    /// "Keep mine, overwrite disk" — push local edits back.
    KeepMine,
    /// "Save mine first, then reload" — backup + reload.
    SaveThenReload,
    /// "Cancel" — dismiss without touching anything.
    Cancel,
}

/// Position of a button in the row `Reload, KeepMine, SaveThenReload, Cancel`.
pub open spec fn selection_index(s: Selection) -> int {
    match s {
        Selection::Reload => 0,
        Selection::KeepMine => 1,
        Selection::SaveThenReload => 2,
        Selection::Cancel => 3,
    }
}

/// The button to the right of `s`, wrapping around.
pub open spec fn right_of(s: Selection) -> Selection {
    match s {
        Selection::Reload => Selection::KeepMine,
        Selection::KeepMine => Selection::SaveThenReload,
        Selection::SaveThenReload => Selection::Cancel,
        Selection::Cancel => Selection::Reload,
    }
}

/// The button to the left of `s`, wrapping around.
pub open spec fn left_of(s: Selection) -> Selection {
    match s {
        Selection::Reload => Selection::Cancel,
        Selection::KeepMine => Selection::Reload,
        Selection::SaveThenReload => Selection::KeepMine,
        Selection::Cancel => Selection::SaveThenReload,
    }
}

impl Selection {
    /// The next button to the right, wrapping around.
    pub fn next(self) -> (n: Self)
        ensures
            n == right_of(self),
    {
        match self {
            Selection::Reload => Selection::KeepMine,
            Selection::KeepMine => Selection::SaveThenReload,
            Selection::SaveThenReload => Selection::Cancel,
            Selection::Cancel => Selection::Reload,
        }
    }

    /// The next button to the left, wrapping around.
    pub fn prev(self) -> (p: Self)
        ensures
            p == left_of(self),
    {
        match self {
            Selection::Reload => Selection::Cancel,
            Selection::KeepMine => Selection::Reload,
            Selection::SaveThenReload => Selection::KeepMine,
            Selection::Cancel => Selection::SaveThenReload,
        }
    }
}

/// Moving right then left (or left then right) returns to the same button,
/// and moving right steps through the four buttons in order, wrapping around.
pub proof fn law_next_prev_inverse(s: Selection)
    ensures
        left_of(right_of(s)) == s,
        right_of(left_of(s)) == s,
        selection_index(right_of(s)) == (selection_index(s) + 1) % 4,
        selection_index(left_of(s)) == (selection_index(s) + 3) % 4,
{
}

/// Outcome emitted by the prompt.
#[derive(Debug, Clone, Copy, PartialEq, Eq, Structural)]
pub enum ExternalChangeEvent {
    /// User chose "Reload from disk" — discard local edits.
    Reload,
    /// User chose "Keep mine, overwrite disk".
    KeepMine,
    /// User chose "Save mine first, then reload".
    SaveThenReload,
    /// User dismissed the prompt without taking action.
    Cancel,
}

/// The event a button stands for.
pub open spec fn event_of(s: Selection) -> ExternalChangeEvent {
    match s {
        Selection::Reload => ExternalChangeEvent::Reload,
        Selection::KeepMine => ExternalChangeEvent::KeepMine,
        Selection::SaveThenReload => ExternalChangeEvent::SaveThenReload,
        Selection::Cancel => ExternalChangeEvent::Cancel,
    }
}

/// The highlight and the emitted event after `key` with button `s`
/// highlighted; see [`ExternalChangePrompt::handle_input`].
pub open spec fn prompt_step(s: Selection, key: KeyEvent) -> (Selection, Option<ExternalChangeEvent>) {
    let plain_or_ctrl = key.modifiers.is_empty_spec() || key.modifiers.is_control_only();
    match key.code {
        KeyCode::Left | KeyCode::Char('h') | KeyCode::BackTab => (left_of(s), None),
        KeyCode::Right | KeyCode::Char('l') | KeyCode::Tab => (right_of(s), None),
        KeyCode::Enter => (s, Some(event_of(s))),
        KeyCode::Char('r') | KeyCode::Char('R') => (
            s,
            if plain_or_ctrl {
                Some(ExternalChangeEvent::Reload)
            } else {
                None
            },
        ),
        KeyCode::Char('k') | KeyCode::Char('K') => (s, Some(ExternalChangeEvent::KeepMine)),
        KeyCode::Char('s') | KeyCode::Char('S') => (
            s,
            if plain_or_ctrl {
                Some(ExternalChangeEvent::SaveThenReload)
            } else {
                None
            },
        ),
        KeyCode::Esc => (s, Some(ExternalChangeEvent::Cancel)),
        _ => (s, None),
    }
}

/// The shortcut key of a button: `r`, `k`, `s`, and Esc for "Cancel".
pub open spec fn shortcut_of(s: Selection) -> KeyCode {
    match s {
        Selection::Reload => KeyCode::Char('r'),
        Selection::KeepMine => KeyCode::Char('k'),
        Selection::SaveThenReload => KeyCode::Char('s'),
        Selection::Cancel => KeyCode::Esc,
    }
}

/// Enter confirms the highlighted button: it emits what the button's own
/// shortcut key emits, keeps the highlight, and different buttons give
/// different events.
pub proof fn law_enter_confirms_highlighted(s: Selection, t: Selection, m: KeyModifiers)
    requires
        m.is_empty_spec(),
    ensures
        prompt_step(s, KeyEvent { code: KeyCode::Enter, modifiers: m }).1 == prompt_step(
            s,
            KeyEvent { code: shortcut_of(s), modifiers: m },
        ).1,
        prompt_step(s, KeyEvent { code: KeyCode::Enter, modifiers: m }).0 == s,
        prompt_step(s, KeyEvent { code: KeyCode::Enter, modifiers: m }).1 is Some,
        s != t ==> prompt_step(s, KeyEvent { code: KeyCode::Enter, modifiers: m }).1 != prompt_step(
            t,
            KeyEvent { code: KeyCode::Enter, modifiers: m },
        ).1,
{
}

/// Hot-reload conflict prompt component.
#[derive(Debug, Clone)]
pub struct ExternalChangePrompt {
    /// Path of the file that changed (display only).
    pub changed_file: String,
    /// Currently highlighted button.
    selection: Selection,
}

impl ExternalChangePrompt {
    /// The highlighted button.
    pub closed spec fn spec_selection(&self) -> Selection {
        self.selection
    }

    /// The changed file's path.
    pub closed spec fn spec_changed_file(&self) -> Seq<char> {
        self.changed_file@
    }

    /// Creates a new prompt for the given changed file, with "Reload"
    /// highlighted.
    pub fn new(changed_file: &str) -> (p: Self)
        ensures
            p.spec_changed_file() == changed_file@,
            p.spec_selection() == Selection::Reload,
    {
        ExternalChangePrompt { changed_file: String::from_str(changed_file), selection: Selection::Reload }
    }

    /// The highlighted button.
    pub fn selection(&self) -> (s: Selection)
        ensures
            s == self.spec_selection(),
    {
        self.selection
    }

    /// Handles a key. Left/`h` and Shift+Tab move the highlight left,
    /// Right/`l` and Tab move it right (both wrapping); Enter emits the
    /// highlighted choice; `r`/`R` (with no modifier or Control) reloads,
    /// `k`/`K` keeps mine, `s`/`S` (with no modifier or Control) saves then
    /// reloads, Esc cancels. Other keys are ignored.
    pub fn handle_input(&mut self, key: KeyEvent) -> (ev: Option<ExternalChangeEvent>)
        ensures
            final(self).spec_changed_file() == old(self).spec_changed_file(),
            (final(self).spec_selection(), ev) == prompt_step(old(self).spec_selection(), key),
    {
        let plain_or_ctrl = key.modifiers.is_empty() || (key.modifiers.control && !key.modifiers.shift
            && !key.modifiers.alt && !key.modifiers.other);
        match key.code {
            KeyCode::Left | KeyCode::Char('h') | KeyCode::BackTab => {
                self.selection = self.selection.prev();
                None
            },
            KeyCode::Right | KeyCode::Char('l') | KeyCode::Tab => {
                self.selection = self.selection.next();
                None
            },
            KeyCode::Enter => Some(
                match self.selection {
                    Selection::Reload => ExternalChangeEvent::Reload,
                    Selection::KeepMine => ExternalChangeEvent::KeepMine,
                    Selection::SaveThenReload => ExternalChangeEvent::SaveThenReload,
                    Selection::Cancel => ExternalChangeEvent::Cancel,
                },
            ),
            KeyCode::Char('r') | KeyCode::Char('R') => {
                if plain_or_ctrl {
                    Some(ExternalChangeEvent::Reload)
                } else {
                    None
                }
            },
            KeyCode::Char('k') | KeyCode::Char('K') => Some(ExternalChangeEvent::KeepMine),
            KeyCode::Char('s') | KeyCode::Char('S') => {
                if plain_or_ctrl {
                    Some(ExternalChangeEvent::SaveThenReload)
                } else {
                    None
                }
            },
            KeyCode::Esc => Some(ExternalChangeEvent::Cancel),
            _ => None,
        }
    }
}

/// Labels of the buttons, in order.
pub fn button_label(s: Selection) -> (l: &'static str)
    ensures
        l@ == (match s {
            Selection::Reload => "[ Reload from disk ]"@,
            Selection::KeepMine => "[ Keep mine ]"@,
            Selection::SaveThenReload => "[ Save then reload ]"@,
            Selection::Cancel => "[ Cancel ]"@,
        }),
{
    match s {
        Selection::Reload => "[ Reload from disk ]",
        Selection::KeepMine => "[ Keep mine ]",
        Selection::SaveThenReload => "[ Save then reload ]",
        Selection::Cancel => "[ Cancel ]",
    }
}

} // verus!
