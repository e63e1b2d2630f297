//! Layout variant picker: chooses one of the layout variants a keyboard
//! defines.

use vstd::prelude::*;

use crate::keys::{KeyCode, KeyEvent};
use crate::models::LayoutVariant;
use crate::text::{concat2, concat3, decimal, usize_to_string};

verus! {

/// Layout picker dialog state
#[derive(Debug, Clone)]
pub struct LayoutPickerState {
    /// Available layouts with key counts for current keyboard
    pub layouts: Vec<LayoutVariant>,
    /// Selected index
    pub selected_index: usize,
    /// Error message
    pub error_message: Option<String>,
}

impl LayoutPickerState {
    /// Creates a new, empty layout picker.
    pub fn new() -> (s: Self)
        ensures
            s.layouts@.len() == 0,
            s.selected_index == 0,
            s.error_message is None,
    {
        LayoutPickerState { layouts: Vec::new(), selected_index: 0, error_message: None }
    }

    /// Takes the outcome of reading the keyboard's layout variants. On
    /// success the variants replace the list and the first one is selected;
    /// on failure the error is recorded as "Failed to load layouts: {error}"
    /// and returned.
    pub fn load_layouts(&mut self, loaded: Result<Vec<LayoutVariant>, String>) -> (r: Result<
        (),
        String,
    >)
        ensures
            match loaded {
                Ok(v) => r is Ok && final(self).layouts@ == v@ && final(self).selected_index == 0
                    && final(self).error_message == old(self).error_message,
                Err(e) => r is Err && r->Err_0@ == e@ && final(self).layouts@ == old(self).layouts@
                    && final(self).selected_index == old(self).selected_index
                    && final(self).error_message is Some
                    && final(self).error_message->0@ == "Failed to load layouts: "@ + e@,
            },
    {
        match loaded {
            Ok(v) => {
                self.layouts = v;
                self.selected_index = 0;
                Ok(())
            },
            Err(e) => {
                self.error_message = Some(concat2("Failed to load layouts: ", e.as_str()));
                Err(e)
            },
        }
    }

    /// Name of the selected layout, if the selection is valid.
    pub fn get_selected(&self) -> (n: Option<String>)
        ensures
            self.selected_index < self.layouts@.len() ==> n is Some && n->0@
                == self.layouts@[self.selected_index as int].name@,
            self.selected_index >= self.layouts@.len() ==> n is None,
    {
        if self.selected_index < self.layouts.len() {
            Some(self.layouts[self.selected_index].name.clone())
        } else {
            None
        }
    }

    /// Moves selection up, stopping at the first entry.
    pub fn move_up(&mut self)
        ensures
            final(self).selected_index == (if old(self).selected_index > 0 {
                old(self).selected_index - 1
            } else {
                0
            }),
            final(self).layouts@ == old(self).layouts@,
            final(self).error_message == old(self).error_message,
    {
        if self.selected_index > 0 {
            self.selected_index = self.selected_index - 1;
        }
    }

    /// Moves selection down, stopping at the last entry.
    pub fn move_down(&mut self)
        ensures
            final(self).selected_index == (if (old(self).selected_index as int) < old(
                self,
            ).layouts@.len() - 1 {
                old(self).selected_index + 1
            } else {
                old(self).selected_index as int
            }),
            final(self).layouts@ == old(self).layouts@,
            final(self).error_message == old(self).error_message,
    {
        if self.selected_index < self.layouts.len().saturating_sub(1) {
            self.selected_index = self.selected_index + 1;
        }
    }
}

impl Default for LayoutPickerState {
    fn default() -> (s: Self)
        ensures
            s.layouts@.len() == 0,
            s.selected_index == 0,
            s.error_message is None,
    {
        Self::new()
    }
}

/// Moving within a non-empty list keeps the selection on an entry.
pub proof fn law_selection_in_bounds(selected: int, len: int)
    requires
        0 <= selected < len,
    ensures
        0 <= (if selected > 0 { selected - 1 } else { 0 }) < len,
        0 <= (if selected < len - 1 { selected + 1 } else { selected }) < len,
{
}

/// Events emitted by the layout variant picker.
#[derive(Debug, Clone)]
pub enum LayoutPickerEvent {
    /// User selected a layout variant
    LayoutSelected(String),
    /// User cancelled the picker
    Cancelled,
}

/// Layout variant picker component.
#[derive(Debug, Clone)]
pub struct LayoutPicker {
    /// Internal state of the layout picker
    pub state: LayoutPickerState,
    /// Keyboard name for display
    pub keyboard: String,
}

impl LayoutPicker {
    /// Creates the picker for `keyboard` with the outcome of reading its
    /// layout variants (a failure leaves the list empty and records the
    /// error).
    pub fn new(keyboard: &str, loaded: Result<Vec<LayoutVariant>, String>) -> (p: Self)
        ensures
            p.keyboard@ == keyboard@,
            p.state.selected_index == 0,
            match loaded {
                Ok(v) => p.state.layouts@ == v@ && p.state.error_message is None,
                Err(e) => p.state.layouts@.len() == 0 && p.state.error_message is Some
                    && p.state.error_message->0@ == "Failed to load layouts: "@ + e@,
            },
    {
        let mut state = LayoutPickerState::new();
        let _ = state.load_layouts(loaded);
        LayoutPicker { state, keyboard: String::from_str(keyboard) }
    }

    /// Handles a key: Up/`k` and Down/`j` move the selection, Enter selects
    /// the highlighted layout (nothing when the list is empty), Esc cancels.
    pub fn handle_input(&mut self, key: KeyEvent) -> (ev: Option<LayoutPickerEvent>)
        ensures
            final(self).state.layouts@ == old(self).state.layouts@,
            final(self).keyboard == old(self).keyboard,
            match key.code {
                KeyCode::Up | KeyCode::Char('k') => ev is None && final(self).state.selected_index
                    == (if old(self).state.selected_index > 0 {
                    old(self).state.selected_index - 1
                } else {
                    0
                }),
                KeyCode::Down | KeyCode::Char('j') => ev is None
                    && final(self).state.selected_index == (if (old(
                    self,
                ).state.selected_index as int) < old(self).state.layouts@.len() - 1 {
                    old(self).state.selected_index + 1
                } else {
                    old(self).state.selected_index as int
                }),
                KeyCode::Enter => final(self).state.selected_index == old(self).state.selected_index
                    && if old(self).state.selected_index < old(self).state.layouts@.len() {
                    ev is Some && ev->0 is LayoutSelected && ev->0->LayoutSelected_0@ == old(
                        self,
                    ).state.layouts@[old(self).state.selected_index as int].name@
                } else {
                    ev is None
                },
                KeyCode::Esc => ev is Some && ev->0 is Cancelled && final(self).state.selected_index
                    == old(self).state.selected_index,
                _ => ev is None && final(self).state.selected_index == old(
                    self,
                ).state.selected_index,
            },
    {
        match key.code {
            KeyCode::Up | KeyCode::Char('k') => {
                self.state.move_up();
                None
            },
            KeyCode::Down | KeyCode::Char('j') => {
                self.state.move_down();
                None
            },
            KeyCode::Enter => match self.state.get_selected() {
                Some(name) => Some(LayoutPickerEvent::LayoutSelected(name)),
                None => None,
            },
            KeyCode::Esc => Some(LayoutPickerEvent::Cancelled),
            _ => None,
        }
    }
}

/// List entry text for a variant: "{name} ({key_count} keys)".
pub fn variant_display(v: &LayoutVariant) -> (s: String)
    ensures
        s@ == v.name@ + " ("@ + decimal(v.key_count as nat) + " keys)"@,
{
    let count = usize_to_string(v.key_count);
    let mut s = concat3(v.name.as_str(), " (", count.as_str());
    s.append(" keys)");
    s
}

/// Title of the picker: "Layouts for {keyboard}".
pub fn picker_title(keyboard: &str) -> (s: String)
    ensures
        s@ == "Layouts for "@ + keyboard@,
{
    concat2("Layouts for ", keyboard)
}

} // verus!
