//! Category manager: browse, create, rename, recolor and delete categories.
//!
//! The manager is a small state machine over [`ManagerMode`]; key presses move
//! between modes, edit the typed name, and emit events that the caller applies
//! to the layout.

use vstd::prelude::*;

use crate::keys::{KeyCode, KeyEvent};
use crate::models::{category_views, Category, CategoryView, RgbColor};
use crate::text::{has_visible, has_visible_char, pop_char, push_char};

verus! {

/// Events emitted by the category manager.
#[derive(Debug, Clone)]
pub enum CategoryManagerEvent {
    /// User deleted a category
    CategoryDeleted(String),
    /// User updated a category
    CategoryUpdated {
        /// Category ID
        id: String,
        /// New name (if changed)
        name: Option<String>,
        /// New color (if changed)
        color: Option<RgbColor>,
    },
    /// User cancelled without making changes
    Cancelled,
    /// Component closed naturally
    Closed,
}

/// Abstract view of a [`CategoryManagerEvent`].
pub enum EventView {
    /// Deleted category id
    CategoryDeleted(Seq<char>),
    /// Updated category
    CategoryUpdated { id: Seq<char>, name: Option<Seq<char>>, color: Option<RgbColor> },
    /// Cancelled
    Cancelled,
    /// Closed
    Closed,
}

/// View of an optional string.
pub open spec fn opt_str(s: Option<String>) -> Option<Seq<char>> {
    match s {
        Some(v) => Some(v@),
        None => None,
    }
}

impl View for CategoryManagerEvent {
    type V = EventView;

    open spec fn view(&self) -> EventView {
        match self {
            CategoryManagerEvent::CategoryDeleted(id) => EventView::CategoryDeleted(id@),
            CategoryManagerEvent::CategoryUpdated { id, name, color } => EventView::CategoryUpdated {
                id: id@,
                name: opt_str(*name),
                color: *color,
            },
            CategoryManagerEvent::Cancelled => EventView::Cancelled,
            CategoryManagerEvent::Closed => EventView::Closed,
        }
    }
}

/// View of an optional event.
pub open spec fn opt_event(e: Option<CategoryManagerEvent>) -> Option<EventView> {
    match e {
        Some(v) => Some(v@),
        None => None,
    }
}

/// Manager mode - determines what operation is being performed
#[derive(Debug, Clone)]
pub enum ManagerMode {
    /// Browsing categories (default mode)
    Browsing,
    /// Creating a new category (entering name)
    CreatingName {
        /// User input for category name
        input: String,
    },
    /// Creating a new category (selecting color)
    CreatingColor {
        /// Name of category being created
        name: String,
    },
    /// Renaming a category
    Renaming {
        /// ID of category being renamed
        category_id: String,
        /// User input for new name
        input: String,
    },
    /// Confirming deletion
    ConfirmingDelete {
        /// ID of category to delete
        category_id: String,
    },
}

/// Abstract view of a [`ManagerMode`].
pub enum ModeView {
    /// Browsing
    Browsing,
    /// Entering a new name
    CreatingName { input: Seq<char> },
    /// Choosing the color of a new category
    CreatingColor { name: Seq<char> },
    /// Renaming a category
    Renaming { category_id: Seq<char>, input: Seq<char> },
    /// Confirming a deletion
    ConfirmingDelete { category_id: Seq<char> },
}

impl View for ManagerMode {
    type V = ModeView;

    open spec fn view(&self) -> ModeView {
        match self {
            ManagerMode::Browsing => ModeView::Browsing,
            ManagerMode::CreatingName { input } => ModeView::CreatingName { input: input@ },
            ManagerMode::CreatingColor { name } => ModeView::CreatingColor { name: name@ },
            ManagerMode::Renaming { category_id, input } => ModeView::Renaming {
                category_id: category_id@,
                input: input@,
            },
            ManagerMode::ConfirmingDelete { category_id } => ModeView::ConfirmingDelete {
                category_id: category_id@,
            },
        }
    }
}

/// Selection after moving up in a list of `count` entries (wrapping).
pub open spec fn select_prev(selected: int, count: int) -> int {
    if count > 0 {
        if selected > 0 { selected - 1 } else { count - 1 }
    } else {
        selected
    }
}

/// A key that moves the selection down.
pub open spec fn moves_down(code: KeyCode) -> bool {
    code == KeyCode::Down || code == KeyCode::Char('j')
}

/// Selection after moving down in a list of `count` entries (wrapping).
pub open spec fn select_next(selected: int, count: int) -> int {
    if count > 0 { (selected + 1) % count } else { selected }
}

/// Text after a key edits it: a character is appended, Backspace removes the
/// last character.
pub open spec fn edited(input: Seq<char>, code: KeyCode) -> Seq<char> {
    match code {
        KeyCode::Char(c) => input.push(c),
        KeyCode::Backspace => if input.len() > 0 { input.drop_last() } else { input },
        _ => input,
    }
}

/// The manager's reaction to a key: the new mode and selection and the event
/// emitted, given the categories shown.
pub open spec fn manager_step(mode: ModeView, selected: int, cats: Seq<CategoryView>, code: KeyCode) -> (
    ModeView,
    int,
    Option<EventView>,
) {
    match mode {
        ModeView::Browsing => match code {
            KeyCode::Esc => (ModeView::Browsing, 0, Some(EventView::Closed)),
            KeyCode::Char('n') => (ModeView::CreatingName { input: Seq::empty() }, selected, None),
            KeyCode::Char('r') => if 0 <= selected < cats.len() {
                (
                    ModeView::Renaming { category_id: cats[selected].id, input: cats[selected].name },
                    selected,
                    None,
                )
            } else {
                (mode, selected, None)
            },
            KeyCode::Char('c') => if 0 <= selected < cats.len() {
                (ModeView::CreatingColor { name: cats[selected].name }, selected, None)
            } else {
                (mode, selected, None)
            },
            KeyCode::Char('d') => if 0 <= selected < cats.len() {
                (ModeView::ConfirmingDelete { category_id: cats[selected].id }, selected, None)
            } else {
                (mode, selected, None)
            },
            KeyCode::Up | KeyCode::Char('k') => (mode, select_prev(selected, cats.len() as int), None),
            KeyCode::Down | KeyCode::Char('j') => (
                mode,
                select_next(selected, cats.len() as int),
                None,
            ),
            _ => (mode, selected, None),
        },
        ModeView::CreatingName { input } => match code {
            KeyCode::Esc => (ModeView::Browsing, selected, Some(EventView::Cancelled)),
            KeyCode::Enter => if has_visible_char(input) {
                (ModeView::CreatingColor { name: input }, selected, None)
            } else {
                (mode, selected, None)
            },
            KeyCode::Char(_) | KeyCode::Backspace => (
                ModeView::CreatingName { input: edited(input, code) },
                selected,
                None,
            ),
            _ => (mode, selected, None),
        },
        ModeView::CreatingColor { name } => match code {
            KeyCode::Esc => (ModeView::Browsing, selected, Some(EventView::Cancelled)),
            _ => (mode, selected, None),
        },
        ModeView::Renaming { category_id, input } => match code {
            KeyCode::Esc => (ModeView::Browsing, selected, Some(EventView::Cancelled)),
            KeyCode::Enter => if has_visible_char(input) {
                (
                    ModeView::Browsing,
                    selected,
                    Some(EventView::CategoryUpdated { id: category_id, name: Some(input), color: None }),
                )
            } else {
                (mode, selected, None)
            },
            KeyCode::Char(_) | KeyCode::Backspace => (
                ModeView::Renaming { category_id, input: edited(input, code) },
                selected,
                None,
            ),
            _ => (mode, selected, None),
        },
        ModeView::ConfirmingDelete { category_id } => match code {
            KeyCode::Char('y') => (
                ModeView::Browsing,
                selected,
                Some(EventView::CategoryDeleted(category_id)),
            ),
            KeyCode::Char('n') | KeyCode::Esc => (
                ModeView::Browsing,
                selected,
                Some(EventView::Cancelled),
            ),
            _ => (mode, selected, None),
        },
    }
}

/// State for the category manager dialog
#[derive(Debug, Clone)]
pub struct CategoryManagerState {
    /// Index of the selected category
    pub selected: usize,
    /// Current operation mode
    pub mode: ManagerMode,
}

impl CategoryManagerState {
    /// Create a new category manager state
    pub fn new() -> (s: Self)
        ensures
            s.selected == 0,
            s.mode@ is Browsing,
    {
        CategoryManagerState { selected: 0, mode: ManagerMode::Browsing }
    }

    /// Reset to default state
    pub fn reset(&mut self)
        ensures
            final(self).selected == 0,
            final(self).mode@ is Browsing,
    {
        self.selected = 0;
        self.mode = ManagerMode::Browsing;
    }

    /// Move selection up, wrapping to the last entry.
    pub fn select_previous(&mut self, category_count: usize)
        ensures
            final(self).selected == select_prev(old(self).selected as int, category_count as int),
            final(self).mode@ == old(self).mode@,
    {
        if category_count > 0 {
            if self.selected > 0 {
                self.selected = self.selected - 1;
            } else {
                self.selected = category_count - 1;
            }
        }
    }

    /// Move selection down, wrapping to the first entry.
    pub fn select_next(&mut self, category_count: usize)
        requires
            category_count > 0 ==> old(self).selected < usize::MAX,
        ensures
            final(self).selected == select_next(old(self).selected as int, category_count as int),
            final(self).mode@ == old(self).mode@,
    {
        if category_count > 0 {
            self.selected = (self.selected + 1) % category_count;
        }
    }

    /// Start creating a new category
    pub fn start_creating(&mut self)
        ensures
            final(self).mode@ == (ModeView::CreatingName { input: Seq::empty() }),
            final(self).selected == old(self).selected,
    {
        self.mode = ManagerMode::CreatingName { input: String::new() };
    }

    /// Start renaming the given category (the input starts as its name).
    pub fn start_renaming(&mut self, category: &Category)
        ensures
            final(self).mode@ == (ModeView::Renaming {
                category_id: category.id@,
                input: category.name@,
            }),
            final(self).selected == old(self).selected,
    {
        self.mode = ManagerMode::Renaming {
            category_id: category.id.clone(),
            input: category.name.clone(),
        };
    }

    /// Start confirming deletion of the given category.
    pub fn start_deleting(&mut self, category: &Category)
        ensures
            final(self).mode@ == (ModeView::ConfirmingDelete { category_id: category.id@ }),
            final(self).selected == old(self).selected,
    {
        self.mode = ManagerMode::ConfirmingDelete { category_id: category.id.clone() };
    }

    /// Cancel current operation and return to browsing
    pub fn cancel(&mut self)
        ensures
            final(self).mode@ is Browsing,
            final(self).selected == old(self).selected,
    {
        self.mode = ManagerMode::Browsing;
    }

    /// Check if we're in browsing mode
    pub fn is_browsing(&self) -> (b: bool)
        ensures
            b == (self.mode@ is Browsing),
    {
        match self.mode {
            ManagerMode::Browsing => true,
            _ => false,
        }
    }

    /// Get the current input text (for name entry or renaming)
    pub fn get_input(&self) -> (r: Option<&str>)
        ensures
            match self.mode@ {
                ModeView::CreatingName { input } => r is Some && r->0@ == input,
                ModeView::Renaming { input, .. } => r is Some && r->0@ == input,
                _ => r is None,
            },
    {
        match &self.mode {
            ManagerMode::CreatingName { input } => Some(input.as_str()),
            ManagerMode::Renaming { input, .. } => Some(input.as_str()),
            _ => None,
        }
    }

    /// Get mutable reference to current input text
    pub fn get_input_mut(&mut self) -> (r: Option<&mut String>)
        ensures
            match old(self).mode@ {
                ModeView::CreatingName { input } => r is Some && (*r->0)@ == input
                    && final(self).mode@ == (ModeView::CreatingName { input: (*final(r->0))@ }),
                ModeView::Renaming { category_id, input } => r is Some && (*r->0)@ == input
                    && final(self).mode@ == (ModeView::Renaming {
                    category_id,
                    input: (*final(r->0))@,
                }),
                _ => r is None && final(self).mode@ == old(self).mode@,
            },
            final(self).selected == old(self).selected,
    {
        match &mut self.mode {
            ManagerMode::CreatingName { input } => Some(input),
            ManagerMode::Renaming { input, .. } => Some(input),
            _ => None,
        }
    }
}

impl Default for CategoryManagerState {
    fn default() -> (s: Self)
        ensures
            s.selected == 0,
            s.mode@ is Browsing,
    {
        Self::new()
    }
}

/// Category manager component.
#[derive(Debug, Clone)]
pub struct CategoryManager {
    /// Internal state of the category manager
    state: CategoryManagerState,
    /// Categories to display and modify
    cached_categories: Vec<Category>,
}

impl CategoryManager {
    /// The internal state.
    pub closed spec fn spec_state(&self) -> CategoryManagerState {
        self.state
    }

    /// The categories shown.
    pub closed spec fn spec_categories(&self) -> Seq<CategoryView> {
        category_views(self.cached_categories@)
    }

    /// Create a new category manager showing the given categories.
    pub fn new(categories: Vec<Category>) -> (m: Self)
        ensures
            m.spec_state().selected == 0,
            m.spec_state().mode@ is Browsing,
            m.spec_categories() == category_views(categories@),
    {
        CategoryManager { state: CategoryManagerState::new(), cached_categories: categories }
    }

    /// Update the categories list, clamping the selection to the new list.
    pub fn set_categories(&mut self, categories: Vec<Category>)
        ensures
            final(self).spec_categories() == category_views(categories@),
            final(self).spec_state().mode@ == old(self).spec_state().mode@,
            final(self).spec_state().selected == (if old(self).spec_state().selected
                >= categories@.len() && categories@.len() > 0 {
                categories@.len() - 1
            } else {
                old(self).spec_state().selected as int
            }),
    {
        self.cached_categories = categories;
        if self.state.selected >= self.cached_categories.len() && self.cached_categories.len() > 0 {
            self.state.selected = self.cached_categories.len() - 1;
        }
    }

    /// The internal state.
    pub fn state(&self) -> (s: &CategoryManagerState)
        ensures
            *s == self.spec_state(),
    {
        &self.state
    }

    /// Mutable access to the internal state.
    pub fn state_mut(&mut self) -> (s: &mut CategoryManagerState)
        ensures
            *s == old(self).spec_state(),
            final(self).spec_state() == *final(s),
            final(self).spec_categories() == old(self).spec_categories(),
    {
        &mut self.state
    }

    /// Handles a key according to the current mode; see [`manager_step`].
    pub fn handle_input(&mut self, key: KeyEvent) -> (ev: Option<CategoryManagerEvent>)
        requires
            old(self).spec_state().mode@ is Browsing && moves_down(key.code) && old(self).spec_categories().len()
                > 0 ==> old(self).spec_state().selected < usize::MAX,
        ensures
            (final(self).spec_state().mode@, final(self).spec_state().selected as int, opt_event(ev))
                == manager_step(
                old(self).spec_state().mode@,
                old(self).spec_state().selected as int,
                old(self).spec_categories(),
                key.code,
            ),
            final(self).spec_categories() == old(self).spec_categories(),
    {
        match &self.state.mode {
            ManagerMode::Browsing => self.handle_browsing_input(key),
            ManagerMode::CreatingName { input } => {
                let input = input.clone();
                self.handle_creating_name_input(key, input)
            },
            ManagerMode::CreatingColor { .. } => {
                match key.code {
                    KeyCode::Esc => {
                        self.state.cancel();
                        Some(CategoryManagerEvent::Cancelled)
                    },
                    _ => None,
                }
            },
            ManagerMode::Renaming { category_id, input } => {
                let category_id = category_id.clone();
                let input = input.clone();
                self.handle_renaming_input(key, category_id, input)
            },
            ManagerMode::ConfirmingDelete { category_id } => {
                let category_id = category_id.clone();
                self.handle_delete_confirmation_input(key, category_id)
            },
        }
    }

    /// Handle input in browsing mode
    fn handle_browsing_input(&mut self, key: KeyEvent) -> (ev: Option<CategoryManagerEvent>)
        requires
            old(self).state.mode@ is Browsing,
            moves_down(key.code) && old(self).cached_categories@.len() > 0 ==> old(self).state.selected
                < usize::MAX,
        ensures
            (final(self).state.mode@, final(self).state.selected as int, opt_event(ev))
                == manager_step(
                old(self).state.mode@,
                old(self).state.selected as int,
                category_views(old(self).cached_categories@),
                key.code,
            ),
            final(self).cached_categories == old(self).cached_categories,
    {
        let n = self.cached_categories.len();
        match key.code {
            KeyCode::Esc => {
                self.state.reset();
                Some(CategoryManagerEvent::Closed)
            },
            KeyCode::Char('n') => {
                self.state.start_creating();
                None
            },
            KeyCode::Char('r') => {
                if self.state.selected < n {
                    let category = &self.cached_categories[self.state.selected];
                    let id = category.id.clone();
                    let name = category.name.clone();
                    self.state.mode = ManagerMode::Renaming { category_id: id, input: name };
                }
                None
            },
            KeyCode::Char('c') => {
                if self.state.selected < n {
                    let name = self.cached_categories[self.state.selected].name.clone();
                    self.state.mode = ManagerMode::CreatingColor { name };
                }
                None
            },
            KeyCode::Char('d') => {
                if self.state.selected < n {
                    let id = self.cached_categories[self.state.selected].id.clone();
                    self.state.mode = ManagerMode::ConfirmingDelete { category_id: id };
                }
                None
            },
            KeyCode::Up | KeyCode::Char('k') => {
                self.state.select_previous(n);
                None
            },
            KeyCode::Down | KeyCode::Char('j') => {
                self.state.select_next(n);
                None
            },
            _ => None,
        }
    }

    /// Handle input in creating name mode
    fn handle_creating_name_input(&mut self, key: KeyEvent, input: String) -> (ev: Option<
        CategoryManagerEvent,
    >)
        requires
            old(self).state.mode@ == (ModeView::CreatingName { input: input@ }),
        ensures
            (final(self).state.mode@, final(self).state.selected as int, opt_event(ev))
                == manager_step(
                old(self).state.mode@,
                old(self).state.selected as int,
                category_views(old(self).cached_categories@),
                key.code,
            ),
            final(self).cached_categories == old(self).cached_categories,
    {
        let mut input = input;
        match key.code {
            KeyCode::Esc => {
                self.state.cancel();
                Some(CategoryManagerEvent::Cancelled)
            },
            KeyCode::Enter => {
                if has_visible(input.as_str()) {
                    self.state.mode = ManagerMode::CreatingColor { name: input };
                }
                None
            },
            KeyCode::Char(c) => {
                push_char(&mut input, c);
                self.state.mode = ManagerMode::CreatingName { input };
                None
            },
            KeyCode::Backspace => {
                let _ = pop_char(&mut input);
                self.state.mode = ManagerMode::CreatingName { input };
                None
            },
            _ => None,
        }
    }

    /// Handle input in renaming mode
    fn handle_renaming_input(&mut self, key: KeyEvent, category_id: String, input: String) -> (ev:
        Option<CategoryManagerEvent>)
        requires
            old(self).state.mode@ == (ModeView::Renaming {
                category_id: category_id@,
                input: input@,
            }),
        ensures
            (final(self).state.mode@, final(self).state.selected as int, opt_event(ev))
                == manager_step(
                old(self).state.mode@,
                old(self).state.selected as int,
                category_views(old(self).cached_categories@),
                key.code,
            ),
            final(self).cached_categories == old(self).cached_categories,
    {
        let mut input = input;
        match key.code {
            KeyCode::Esc => {
                self.state.cancel();
                Some(CategoryManagerEvent::Cancelled)
            },
            KeyCode::Enter => {
                if has_visible(input.as_str()) {
                    let event = Some(
                        CategoryManagerEvent::CategoryUpdated {
                            id: category_id,
                            name: Some(input),
                            color: None,
                        },
                    );
                    self.state.cancel();
                    event
                } else {
                    None
                }
            },
            KeyCode::Char(c) => {
                push_char(&mut input, c);
                self.state.mode = ManagerMode::Renaming { category_id, input };
                None
            },
            KeyCode::Backspace => {
                let _ = pop_char(&mut input);
                self.state.mode = ManagerMode::Renaming { category_id, input };
                None
            },
            _ => None,
        }
    }

    /// Handle input in delete confirmation mode
    fn handle_delete_confirmation_input(&mut self, key: KeyEvent, category_id: String) -> (ev:
        Option<CategoryManagerEvent>)
        requires
            old(self).state.mode@ == (ModeView::ConfirmingDelete { category_id: category_id@ }),
        ensures
            (final(self).state.mode@, final(self).state.selected as int, opt_event(ev))
                == manager_step(
                old(self).state.mode@,
                old(self).state.selected as int,
                category_views(old(self).cached_categories@),
                key.code,
            ),
            final(self).cached_categories == old(self).cached_categories,
    {
        match key.code {
            KeyCode::Char('y') => {
                let event = Some(CategoryManagerEvent::CategoryDeleted(category_id));
                self.state.cancel();
                event
            },
            KeyCode::Char('n') | KeyCode::Esc => {
                self.state.cancel();
                Some(CategoryManagerEvent::Cancelled)
            },
            _ => None,
        }
    }
}

/// Only confirming with `y` deletes, and it deletes exactly the category
/// being confirmed: whatever the mode and the key, an emitted deletion comes
/// from the delete confirmation of that category by `y`; in the
/// confirmation, `n` and Esc emit a cancellation and return to browsing.
pub proof fn law_only_yes_deletes(mode: ModeView, selected: int, cats: Seq<CategoryView>, code: KeyCode)
    ensures
        manager_step(mode, selected, cats, code).2 matches Some(EventView::CategoryDeleted(d)) ==> mode
            == (ModeView::ConfirmingDelete { category_id: d }) && code == KeyCode::Char('y'),
        mode is ConfirmingDelete && (code == KeyCode::Char('n') || code == KeyCode::Esc) ==> manager_step(
            mode,
            selected,
            cats,
            code,
        ) == (ModeView::Browsing, selected, Some(EventView::Cancelled)),
        code == KeyCode::Char('y') ==> (mode matches ModeView::ConfirmingDelete { category_id }
            ==> manager_step(mode, selected, cats, code).2 == Some(EventView::CategoryDeleted(category_id))),
{
}

/// Every key either keeps the manager where it is or moves it along its
/// workflow, and every emitted event ends the current operation: after an
/// event the manager is browsing again.
pub proof fn law_events_return_to_browsing(
    mode: ModeView,
    selected: int,
    cats: Seq<CategoryView>,
    code: KeyCode,
)
    ensures
        manager_step(mode, selected, cats, code).2 is Some ==> manager_step(
            mode,
            selected,
            cats,
            code,
        ).0 is Browsing,
{
}

/// Moving the selection keeps it inside a non-empty list, and moving down
/// then up (or up then down) returns to the same entry.
pub proof fn law_selection_wraps(selected: int, count: int)
    requires
        0 <= selected < count,
    ensures
        0 <= select_next(selected, count) < count,
        0 <= select_prev(selected, count) < count,
        select_prev(select_next(selected, count), count) == selected,
        select_next(select_prev(selected, count), count) == selected,
{
    if selected + 1 < count {
        vstd::arithmetic::div_mod::lemma_small_mod((selected + 1) as nat, count as nat);
    } else {
        vstd::arithmetic::div_mod::lemma_mod_self_0(count);
    }
    if selected > 0 {
        vstd::arithmetic::div_mod::lemma_small_mod(selected as nat, count as nat);
    } else {
        vstd::arithmetic::div_mod::lemma_mod_self_0(count);
    }
}

/// Typing a character and then deleting it restores the input.
pub proof fn law_type_then_backspace(input: Seq<char>, c: char)
    ensures
        edited(edited(input, KeyCode::Char(c)), KeyCode::Backspace) == input,
{
    assert(input.push(c).drop_last() =~= input);
}


// ---------------------------------------------------------------------------
// Applying a deletion
// ---------------------------------------------------------------------------

/// A category reference after the category `id` was deleted: a reference to
/// it is dropped, any other stays.
pub open spec fn cleared_reference(r: Option<Seq<char>>, id: Seq<char>) -> Option<Seq<char>> {
    if r == Some(id) {
        None
    } else {
        r
    }
}

/// View of an optional category reference.
pub open spec fn ref_view(r: Option<String>) -> Option<Seq<char>> {
    match r {
        Some(v) => Some(v@),
        None => None,
    }
}

/// Whether the category `c` is not the one with identifier `id`.
pub open spec fn keeps(id: Seq<char>) -> spec_fn(CategoryView) -> bool {
    |c: CategoryView| c.id != id
}

/// Deletes the category `id` from `categories`, keeping the others in order.
pub fn remove_category(categories: &mut Vec<Category>, id: &str)
    ensures
        category_views(final(categories)@) == category_views(old(categories)@).filter(keeps(id@)),
        forall|i: int| 0 <= i < final(categories)@.len() ==> (#[trigger] final(categories)@[i]).id@ != id@,
{
    let ghost before = category_views(categories@);
    let mut kept: Vec<Category> = Vec::new();
    let mut i: usize = 0;
    while i < categories.len()
        invariant
            before == category_views(categories@),
            i <= categories@.len(),
            category_views(kept@) == before.take(i as int).filter(keeps(id@)),
        decreases categories@.len() - i,
    {
        let c = &categories[i];
        proof {
            assert(before.take(i as int + 1) =~= before.take(i as int).push(c@));
            before.take(i as int).lemma_filter_push(c@, keeps(id@));
        }
        if !same_id(&c.id, id) {
            let ghost prev = kept@;
            kept.push(Category { id: c.id.clone(), name: c.name.clone(), color: c.color });
            assert(category_views(kept@) =~= category_views(prev).push(c@));
        }
        i = i + 1;
    }
    assert(before.take(before.len() as int) =~= before);
    *categories = kept;
    proof {
        assert forall|i: int| 0 <= i < categories@.len() implies (#[trigger] categories@[i]).id@ != id@ by {
            before.lemma_filter_pred(keeps(id@), i);
            assert(category_views(categories@)[i] == categories@[i]@);
        }
    }
}

/// Whether a category identifier is `id`.
fn same_id(a: &String, id: &str) -> (eq: bool)
    ensures
        eq == (a@ == id@),
{
    let b = String::from_str(id);
    *a == b
}

/// Drops every reference to the deleted category `id` from `refs` (the
/// category references of the layers, or of the keys of a layer); other
/// references stay.
pub fn clear_category_references(refs: &mut Vec<Option<String>>, id: &str)
    ensures
        final(refs)@.len() == old(refs)@.len(),
        forall|i: int|
            0 <= i < final(refs)@.len() ==> ref_view(#[trigger] final(refs)@[i]) == cleared_reference(
                ref_view(old(refs)@[i]),
                id@,
            ),
        forall|i: int| 0 <= i < final(refs)@.len() ==> ref_view(#[trigger] final(refs)@[i]) != Some(id@),
{
    let ghost before = refs@;
    let mut i: usize = 0;
    while i < refs.len()
        invariant
            refs@.len() == before.len(),
            i <= refs@.len(),
            forall|k: int| 0 <= k < i ==> ref_view(#[trigger] refs@[k]) == cleared_reference(ref_view(before[k]), id@),
            forall|k: int| i <= k < refs@.len() ==> #[trigger] refs@[k] == before[k],
        decreases refs@.len() - i,
    {
        let names_it = match &refs[i] {
            Some(r) => same_id(r, id),
            None => false,
        };
        if names_it {
            refs.set(i, None);
        }
        i = i + 1;
    }
}

} // verus!
