//! Category picker: assigns a category (or none) to a key or a layer.
//!
//! The list shows every category followed by a final "None" entry, so the
//! selection ranges over `0..=category_count`.

use vstd::prelude::*;

use crate::app_state::CategoryPickerContext;
use crate::keys::{KeyCode, KeyEvent};
use crate::models::Category;
use crate::text::{concat2, concat3, decimal, usize_to_string};

verus! {

/// State of the category picker.
#[derive(Debug, Clone, Copy)]
pub struct CategoryPickerState {
    /// Selected entry (`category_count` selects "None")
    pub selected: usize,
    /// Entry highlighted by the list widget
    pub list_selected: Option<usize>,
}

/// Selection after moving up: wraps from the first entry to "None".
pub open spec fn picker_prev(selected: int, count: int) -> int {
    if selected > 0 { selected - 1 } else { count }
}

/// Selection after moving down: wraps from "None" to the first entry.
pub open spec fn picker_next(selected: int, count: int) -> int {
    if selected < count { selected + 1 } else { 0 }
}

impl CategoryPickerState {
    /// A picker with the first entry selected.
    pub fn new() -> (s: Self)
        ensures
            s.selected == 0,
            s.list_selected == Some(0usize),
    {
        CategoryPickerState { selected: 0, list_selected: Some(0) }
    }

    /// Moves the selection up, wrapping to "None".
    pub fn previous(&mut self, category_count: usize)
        ensures
            final(self).selected == picker_prev(old(self).selected as int, category_count as int),
            final(self).list_selected == Some(final(self).selected),
    {
        if self.selected > 0 {
            self.selected = self.selected - 1;
        } else {
            self.selected = category_count;
        }
        self.list_selected = Some(self.selected);
    }

    /// Moves the selection down, wrapping to the first entry.
    pub fn next(&mut self, category_count: usize)
        ensures
            final(self).selected == picker_next(old(self).selected as int, category_count as int),
            final(self).list_selected == Some(final(self).selected),
    {
        if self.selected < category_count {
            self.selected = self.selected + 1;
        } else {
            self.selected = 0;
        }
        self.list_selected = Some(self.selected);
    }

    /// Id of the selected category, or `None` when "None" is selected.
    pub fn get_selected_category_id(&self, categories: &Vec<Category>) -> (id: Option<String>)
        ensures
            self.selected < categories@.len() ==> id is Some && id->0@
                == categories@[self.selected as int].id@,
            self.selected >= categories@.len() ==> id is None,
    {
        if self.selected < categories.len() {
            Some(categories[self.selected].id.clone())
        } else {
            None
        }
    }
}

impl Default for CategoryPickerState {
    fn default() -> (s: Self)
        ensures
            s.selected == 0,
            s.list_selected == Some(0usize),
    {
        Self::new()
    }
}

/// What the caller does after a key in the category picker.
#[derive(Debug, Clone)]
pub enum CategoryPickerAction {
    /// Nothing beyond the state change
    Stay,
    /// Close the picker without changes
    Cancel,
    /// Assign the chosen category (`None` removes the assignment)
    Assign(Option<String>),
}

/// The selection stays within the list of categories plus "None", and moving
/// down then up returns to the same entry.
pub proof fn law_picker_selection(selected: int, count: int)
    requires
        0 <= selected <= count,
    ensures
        0 <= picker_next(selected, count) <= count,
        0 <= picker_prev(selected, count) <= count,
        picker_prev(picker_next(selected, count), count) == selected,
        picker_next(picker_prev(selected, count), count) == selected,
{
}

/// Handles a key in the category picker: Esc cancels, Enter assigns the
/// selected category (or removes it when "None" is selected), Up and Down
/// move the selection. Other keys are ignored.
pub fn handle_input(state: &mut CategoryPickerState, key: KeyEvent, categories: &Vec<Category>) -> (a:
    CategoryPickerAction)
    ensures
        match key.code {
            KeyCode::Esc => a is Cancel && *final(state) == *old(state),
            KeyCode::Enter => *final(state) == *old(state) && a is Assign && if old(state).selected
                < categories@.len() {
                a->Assign_0 is Some && a->Assign_0->0@ == categories@[old(
                    state,
                ).selected as int].id@
            } else {
                a->Assign_0 is None
            },
            KeyCode::Up => a is Stay && final(state).selected == picker_prev(
                old(state).selected as int,
                categories@.len() as int,
            ) && final(state).list_selected == Some(final(state).selected),
            KeyCode::Down => a is Stay && final(state).selected == picker_next(
                old(state).selected as int,
                categories@.len() as int,
            ) && final(state).list_selected == Some(final(state).selected),
            _ => a is Stay && *final(state) == *old(state),
        },
{
    match key.code {
        KeyCode::Esc => CategoryPickerAction::Cancel,
        KeyCode::Enter => CategoryPickerAction::Assign(state.get_selected_category_id(categories)),
        KeyCode::Up => {
            state.previous(categories.len());
            CategoryPickerAction::Stay
        },
        KeyCode::Down => {
            state.next(categories.len());
            CategoryPickerAction::Stay
        },
        _ => CategoryPickerAction::Stay,
    }
}


// ---------------------------------------------------------------------------
// Applying the picked category
// ---------------------------------------------------------------------------

/// What assigning a picked category asks of the application.
#[derive(Debug, Clone)]
pub enum CategoryCommand {
    /// Set (`Some`) or clear (`None`) the category of the key, the current
    /// layer, or each selected key, as the context says
    Assign(CategoryPickerContext, Option<String>),
    /// Report an error message
    Error(String),
}

/// The command for a category picked in `context`: assign it to the
/// context's target, or report that no context was set.
pub fn apply_category(context: Option<CategoryPickerContext>, category_id: Option<String>) -> (r:
    CategoryCommand)
    ensures
        match context {
            Some(c) => r == CategoryCommand::Assign(c, category_id),
            None => r matches CategoryCommand::Error(m) && m@ == "No category context set"@,
        },
{
    match context {
        Some(c) => CategoryCommand::Assign(c, category_id),
        None => CategoryCommand::Error(String::from_str("No category context set")),
    }
}

/// Status message after a category (`None`: no category) was applied to
/// `count` targets of `context`.
pub open spec fn assigned_text(context: CategoryPickerContext, id: Option<Seq<char>>, count: nat) -> Seq<char> {
    match (context, id) {
        (CategoryPickerContext::IndividualKey, Some(i)) => "Assigned key category '"@ + i + "'"@,
        (CategoryPickerContext::IndividualKey, None) => "Removed key category"@,
        (CategoryPickerContext::Layer, Some(i)) => "Assigned layer category '"@ + i + "'"@,
        (CategoryPickerContext::Layer, None) => "Removed layer category"@,
        (CategoryPickerContext::MultiKeySelection, Some(i)) => "Applied category '"@ + i + "' to "@
            + decimal(count) + " keys"@,
        (CategoryPickerContext::MultiKeySelection, None) => "Removed category from "@ + decimal(count)
            + " keys"@,
    }
}

/// The status message after applying `category_id` in `context` to `count`
/// targets (the key, the layer, or the selected keys found on the layer);
/// none when nothing was changed.
pub fn assigned_message(context: CategoryPickerContext, category_id: Option<&str>, count: usize) -> (m:
    Option<String>)
    ensures
        count == 0 ==> m is None,
        count > 0 ==> m is Some && m->0@ == assigned_text(
            context,
            match category_id {
                Some(i) => Some(i@),
                None => None,
            },
            count as nat,
        ),
{
    if count == 0 {
        return None;
    }
    let text = match (context, category_id) {
        (CategoryPickerContext::IndividualKey, Some(i)) => concat3("Assigned key category '", i, "'"),
        (CategoryPickerContext::IndividualKey, None) => String::from_str("Removed key category"),
        (CategoryPickerContext::Layer, Some(i)) => concat3("Assigned layer category '", i, "'"),
        (CategoryPickerContext::Layer, None) => String::from_str("Removed layer category"),
        (CategoryPickerContext::MultiKeySelection, Some(i)) => {
            let mut t = concat3("Applied category '", i, "' to ");
            let n = usize_to_string(count);
            t.append(n.as_str());
            t.append(" keys");
            t
        },
        (CategoryPickerContext::MultiKeySelection, None) => {
            let n = usize_to_string(count);
            let mut t = concat2("Removed category from ", n.as_str());
            t.append(" keys");
            t
        },
    };
    Some(text)
}

} // verus!
