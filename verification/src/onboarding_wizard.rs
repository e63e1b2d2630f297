//! Onboarding wizard: step-by-step setup of the QMK path, keyboard, layout
//! variant, layout file name and build output folder.
//!
//! The wizard's decisions are made here; the file system is consulted by the
//! caller. When a key asks the wizard to advance, the caller asks
//! [`OnboardingWizardState::probe_request`] what it must look up, performs
//! the lookup, and hands the answer to [`OnboardingWizardState::next_step`]
//! (or [`OnboardingWizardState::complete_advance`]).

use vstd::prelude::*;

use crate::keys::{KeyCode, KeyEvent};
use crate::text::{
    chars_of, concat2, contains_seq, contains_slice, lowercase, occurs_at, pop_char, push_char, split_chars,
    split_on, string_from_chars, to_lowercase, views,
};

verus! {

/// Onboarding wizard steps
#[derive(Debug, Clone, Copy, PartialEq, Eq, Structural)]
pub enum WizardStep {
    /// Welcome screen
    Welcome,
    /// Enter QMK firmware path
    QmkPath,
    /// Select keyboard from scanned list
    KeyboardSelection,
    /// Select layout variant
    LayoutSelection,
    /// Enter layout file name
    LayoutName,
    /// Enter firmware output path
    OutputPath,
    /// Confirmation and save
    Confirmation,
}

/// 1-based position of a step.
pub open spec fn step_index(s: WizardStep) -> int {
    match s {
        WizardStep::Welcome => 1,
        WizardStep::QmkPath => 2,
        WizardStep::KeyboardSelection => 3,
        WizardStep::LayoutSelection => 4,
        WizardStep::LayoutName => 5,
        WizardStep::OutputPath => 6,
        WizardStep::Confirmation => 7,
    }
}

/// The step after `s`, if any.
pub open spec fn step_after(s: WizardStep) -> Option<WizardStep> {
    match s {
        WizardStep::Welcome => Some(WizardStep::QmkPath),
        WizardStep::QmkPath => Some(WizardStep::KeyboardSelection),
        WizardStep::KeyboardSelection => Some(WizardStep::LayoutSelection),
        WizardStep::LayoutSelection => Some(WizardStep::LayoutName),
        WizardStep::LayoutName => Some(WizardStep::OutputPath),
        WizardStep::OutputPath => Some(WizardStep::Confirmation),
        WizardStep::Confirmation => None,
    }
}

/// The step before `s`, if any.
pub open spec fn step_before(s: WizardStep) -> Option<WizardStep> {
    match s {
        WizardStep::Welcome => None,
        WizardStep::QmkPath => Some(WizardStep::Welcome),
        WizardStep::KeyboardSelection => Some(WizardStep::QmkPath),
        WizardStep::LayoutSelection => Some(WizardStep::KeyboardSelection),
        WizardStep::LayoutName => Some(WizardStep::LayoutSelection),
        WizardStep::OutputPath => Some(WizardStep::LayoutName),
        WizardStep::Confirmation => Some(WizardStep::OutputPath),
    }
}

impl WizardStep {
    /// Gets the next step in the wizard
    pub fn next(&self) -> (n: Option<Self>)
        ensures
            n == step_after(*self),
    {
        match self {
            WizardStep::Welcome => Some(WizardStep::QmkPath),
            WizardStep::QmkPath => Some(WizardStep::KeyboardSelection),
            WizardStep::KeyboardSelection => Some(WizardStep::LayoutSelection),
            WizardStep::LayoutSelection => Some(WizardStep::LayoutName),
            WizardStep::LayoutName => Some(WizardStep::OutputPath),
            WizardStep::OutputPath => Some(WizardStep::Confirmation),
            WizardStep::Confirmation => None,
        }
    }

    /// Gets the previous step in the wizard
    pub fn previous(&self) -> (p: Option<Self>)
        ensures
            p == step_before(*self),
    {
        match self {
            WizardStep::Welcome => None,
            WizardStep::QmkPath => Some(WizardStep::Welcome),
            WizardStep::KeyboardSelection => Some(WizardStep::QmkPath),
            WizardStep::LayoutSelection => Some(WizardStep::KeyboardSelection),
            WizardStep::LayoutName => Some(WizardStep::LayoutSelection),
            WizardStep::OutputPath => Some(WizardStep::LayoutName),
            WizardStep::Confirmation => Some(WizardStep::OutputPath),
        }
    }

    /// Gets the step title
    pub fn title(&self) -> (t: &'static str)
        ensures
            t@ == (match *self {
                WizardStep::Welcome => "Welcome to LazyQMK"@,
                WizardStep::QmkPath => "Connect QMK Firmware"@,
                WizardStep::KeyboardSelection => "Choose Keyboard"@,
                WizardStep::LayoutSelection => "Choose Layout Variant"@,
                WizardStep::LayoutName => "Name Layout File"@,
                WizardStep::OutputPath => "Choose Build Output Folder"@,
                WizardStep::Confirmation => "Review Setup"@,
            }),
    {
        match self {
            WizardStep::Welcome => "Welcome to LazyQMK",
            WizardStep::QmkPath => "Connect QMK Firmware",
            WizardStep::KeyboardSelection => "Choose Keyboard",
            WizardStep::LayoutSelection => "Choose Layout Variant",
            WizardStep::LayoutName => "Name Layout File",
            WizardStep::OutputPath => "Choose Build Output Folder",
            WizardStep::Confirmation => "Review Setup",
        }
    }

    /// Gets the step number (1-based)
    pub fn step_number(&self) -> (n: usize)
        ensures
            n == step_index(*self),
    {
        match self {
            WizardStep::Welcome => 1,
            WizardStep::QmkPath => 2,
            WizardStep::KeyboardSelection => 3,
            WizardStep::LayoutSelection => 4,
            WizardStep::LayoutName => 5,
            WizardStep::OutputPath => 6,
            WizardStep::Confirmation => 7,
        }
    }

    /// Gets the total number of steps
    pub fn total_steps() -> (n: usize)
        ensures
            n == 7,
    {
        7
    }
}

/// The steps form a chain of seven: each step but the last has a next step
/// one number higher, each but the first a previous one, and going forward
/// then back returns to the same step.
pub proof fn law_steps_chain(s: WizardStep)
    ensures
        1 <= step_index(s) <= 7,
        step_after(s) is Some ==> step_index(step_after(s)->0) == step_index(s) + 1
            && step_before(step_after(s)->0) == Some(s),
        step_before(s) is Some ==> step_index(step_before(s)->0) == step_index(s) - 1
            && step_after(step_before(s)->0) == Some(s),
        step_after(s) is None <==> s == WizardStep::Confirmation,
        step_before(s) is None <==> s == WizardStep::Welcome,
{
}

/// Focus state for keyboard selection step
#[derive(Debug, Clone, Copy, PartialEq, Eq, Structural)]
pub enum KeyboardSelectionFocus {
    /// Focus is on the filter input field
    FilterInput,
    /// Focus is on the keyboard list
    List,
}

/// Welcome screen choice
#[derive(Debug, Clone, Copy, PartialEq, Eq, Structural)]
pub enum WelcomeChoice {
    /// Load an existing layout
    LoadExisting,
    /// Create layout from scratch
    FromScratch,
    /// Create layout from template
    FromTemplate,
}

/// Values collected by the wizard.
#[derive(Debug, Clone)]
pub struct WizardInputs {
    /// QMK firmware path
    pub qmk_path: Option<String>,
    /// Selected keyboard
    pub keyboard: Option<String>,
    /// Selected layout variant
    pub layout: Option<String>,
    /// Layout file name
    pub layout_name: Option<String>,
    /// Build output folder
    pub output_path: Option<String>,
}

/// View of an optional string.
pub open spec fn ov(s: Option<String>) -> Option<Seq<char>> {
    match s {
        Some(v) => Some(v@),
        None => None,
    }
}

/// Abstract view of [`WizardInputs`].
pub struct InputsView {
    /// QMK firmware path
    pub qmk_path: Option<Seq<char>>,
    /// Selected keyboard
    pub keyboard: Option<Seq<char>>,
    /// Selected layout variant
    pub layout: Option<Seq<char>>,
    /// Layout file name
    pub layout_name: Option<Seq<char>>,
    /// Build output folder
    pub output_path: Option<Seq<char>>,
}

impl View for WizardInputs {
    type V = InputsView;

    open spec fn view(&self) -> InputsView {
        InputsView {
            qmk_path: ov(self.qmk_path),
            keyboard: ov(self.keyboard),
            layout: ov(self.layout),
            layout_name: ov(self.layout_name),
            output_path: ov(self.output_path),
        }
    }
}

impl WizardInputs {
    /// No value collected yet.
    pub fn empty() -> (i: Self)
        ensures
            i@ == (InputsView {
                qmk_path: None,
                keyboard: None,
                layout: None,
                layout_name: None,
                output_path: None,
            }),
    {
        WizardInputs { qmk_path: None, keyboard: None, layout: None, layout_name: None, output_path: None }
    }
}

/// Onboarding wizard state
#[derive(Debug, Clone)]
pub struct OnboardingWizardState {
    /// Current wizard step
    pub current_step: WizardStep,
    /// User inputs collected so far
    pub inputs: WizardInputs,
    /// Current text input buffer
    pub input_buffer: String,
    /// List of available keyboards (populated after QMK path is set)
    pub available_keyboards: Vec<String>,
    /// Filter text for keyboard search
    pub keyboard_filter: String,
    /// Selected keyboard index in the filtered list
    pub keyboard_selected_index: usize,
    /// Focus state for keyboard selection (filter input vs list)
    pub keyboard_selection_focus: KeyboardSelectionFocus,
    /// List of available layouts (populated after keyboard is selected)
    pub available_layouts: Vec<String>,
    /// Selected layout index in list
    pub layout_selected_index: usize,
    /// Error message to display
    pub error_message: Option<String>,
    /// Whether the wizard is complete
    pub is_complete: bool,
    /// Whether this is a keyboard-only change (skip other config steps)
    pub keyboard_change_only: bool,
    /// Names of the existing layouts found in the layouts directory
    pub existing_layouts: Vec<String>,
    /// Welcome screen choice (None until user selects)
    pub welcome_choice: Option<WelcomeChoice>,
    /// Selected welcome option index
    pub welcome_selected_index: usize,
}

/// Abstract view of the wizard.
pub struct WizardView {
    /// Current step
    pub step: WizardStep,
    /// Collected inputs
    pub inputs: InputsView,
    /// Text input buffer
    pub buffer: Seq<char>,
    /// Available keyboards
    pub keyboards: Seq<Seq<char>>,
    /// Keyboard filter
    pub filter: Seq<char>,
    /// Selected keyboard index in the filtered list
    pub kb_index: int,
    /// Keyboard selection focus
    pub focus: KeyboardSelectionFocus,
    /// Available layouts
    pub layouts: Seq<Seq<char>>,
    /// Selected layout index
    pub layout_index: int,
    /// Error message
    pub error: Option<Seq<char>>,
    /// Wizard complete
    pub complete: bool,
    /// Keyboard-only change
    pub kb_only: bool,
    /// Existing layouts
    pub existing: Seq<Seq<char>>,
    /// Welcome choice
    pub welcome_choice: Option<WelcomeChoice>,
    /// Welcome selection
    pub welcome_index: int,
}

impl View for OnboardingWizardState {
    type V = WizardView;

    open spec fn view(&self) -> WizardView {
        WizardView {
            step: self.current_step,
            inputs: self.inputs@,
            buffer: self.input_buffer@,
            keyboards: views(self.available_keyboards@),
            filter: self.keyboard_filter@,
            kb_index: self.keyboard_selected_index as int,
            focus: self.keyboard_selection_focus,
            layouts: views(self.available_layouts@),
            layout_index: self.layout_selected_index as int,
            error: ov(self.error_message),
            complete: self.is_complete,
            kb_only: self.keyboard_change_only,
            existing: views(self.existing_layouts@),
            welcome_choice: self.welcome_choice,
            welcome_index: self.welcome_selected_index as int,
        }
    }
}

/// The keyboards whose lowercase name contains the lowercase filter (all of
/// them when the filter is empty), in order.
pub open spec fn filtered(kbs: Seq<Seq<char>>, filter: Seq<char>) -> Seq<Seq<char>> {
    if filter.len() == 0 {
        kbs
    } else {
        matching(kbs, lowercase(filter))
    }
}

/// The keyboards whose lowercase name contains `needle`, in order.
pub open spec fn matching(kbs: Seq<Seq<char>>, needle: Seq<char>) -> Seq<Seq<char>>
    decreases kbs.len(),
{
    if kbs.len() == 0 {
        Seq::empty()
    } else {
        let rest = matching(kbs.drop_last(), needle);
        if contains_seq(lowercase(kbs.last()), needle) {
            rest.push(kbs.last())
        } else {
            rest
        }
    }
}

/// Number of welcome options: three when existing layouts were found, two
/// otherwise.
pub open spec fn welcome_count(v: WizardView) -> int {
    if v.existing.len() == 0 { 2 } else { 3 }
}

/// The welcome options in the order shown: loading an existing layout
/// first when there are any, then starting from scratch, then from a
/// template.
pub open spec fn welcome_options(v: WizardView) -> Seq<WelcomeChoice> {
    if v.existing.len() == 0 {
        seq![WelcomeChoice::FromScratch, WelcomeChoice::FromTemplate]
    } else {
        seq![WelcomeChoice::LoadExisting, WelcomeChoice::FromScratch, WelcomeChoice::FromTemplate]
    }
}

/// The welcome choice shown at `index`.
pub open spec fn welcome_choice_at(v: WizardView, index: int) -> Option<WelcomeChoice> {
    if v.existing.len() != 0 {
        if index == 0 {
            Some(WelcomeChoice::LoadExisting)
        } else if index == 1 {
            Some(WelcomeChoice::FromScratch)
        } else if index == 2 {
            Some(WelcomeChoice::FromTemplate)
        } else {
            None
        }
    } else {
        if index == 0 {
            Some(WelcomeChoice::FromScratch)
        } else if index == 1 {
            Some(WelcomeChoice::FromTemplate)
        } else {
            None
        }
    }
}

/// The selections point into their lists: the keyboard index into the
/// filtered keyboards and the layout index into the layouts (each may be 0
/// when its list is empty).
pub open spec fn selections_in_range(v: WizardView) -> bool {
    &&& (v.kb_index < filtered(v.keyboards, v.filter).len() || v.kb_index == 0)
    &&& (v.layout_index < v.layouts.len() || v.layout_index == 0)
}

/// What advancing from the current step reads is there: at keyboard
/// selection, when keyboards match, a selected keyboard and the QMK path; at
/// layout selection, when there are layouts, a selected layout and, when a
/// default layout name is derived from it, the keyboard.
pub open spec fn can_advance(v: WizardView) -> bool {
    match v.step {
        WizardStep::KeyboardSelection => filtered(v.keyboards, v.filter).len() > 0 ==> v.kb_index
            < filtered(v.keyboards, v.filter).len() && v.inputs.qmk_path is Some,
        WizardStep::LayoutSelection => v.layouts.len() > 0 ==> v.layout_index < v.layouts.len() && (
        !v.kb_only && v.inputs.layout_name is None ==> v.inputs.keyboard is Some),
        _ => true,
    }
}

// ---------------------------------------------------------------------------
// Outside facts
// ---------------------------------------------------------------------------

/// What the caller must look up before the wizard can advance.
#[derive(Debug, Clone)]
pub enum ProbeRequest {
    /// Nothing: the step decides alone
    Nothing,
    /// Check the QMK path (does it exist, hold a `Makefile` and a
    /// `keyboards/` directory) and scan its keyboards
    QmkPath(String),
    /// Read the layout variants of `keyboard` under `qmk_path`
    KeyboardInfo {
        /// QMK firmware path
        qmk_path: String,
        /// Keyboard to read
        keyboard: String,
    },
    /// Find the application's configuration directory and form its
    /// `builds` subfolder
    ConfigDir,
    /// Find the parent directory of the output path and whether it exists
    OutputParent(String),
}

/// The answer to a [`ProbeRequest`].
#[derive(Debug)]
pub enum WizardProbe {
    /// No lookup was needed
    Nothing,
    /// Facts about the QMK path; `keyboards` is consulted only when the three
    /// checks pass
    QmkPath {
        /// The path exists
        exists: bool,
        /// It holds a `Makefile`
        has_makefile: bool,
        /// It holds a `keyboards/` directory
        has_keyboards_dir: bool,
        /// Scanned keyboards, or the scan error
        keyboards: Result<Vec<String>, String>,
    },
    /// Layout variant names of the keyboard, or the read error
    KeyboardInfo(Result<Vec<String>, String>),
    /// The `builds` folder under the configuration directory, when known
    ConfigDir(Option<String>),
    /// The output path's parent directory and whether it exists, when the
    /// path has a parent
    OutputParent(Option<(String, bool)>),
}

/// Abstract view of a [`WizardProbe`].
pub enum ProbeView {
    /// No lookup
    Nothing,
    /// QMK path facts
    QmkPath {
        exists: bool,
        has_makefile: bool,
        has_keyboards_dir: bool,
        keyboards: Result<Seq<Seq<char>>, Seq<char>>,
    },
    /// Keyboard layouts
    KeyboardInfo(Result<Seq<Seq<char>>, Seq<char>>),
    /// Default builds folder
    ConfigDir(Option<Seq<char>>),
    /// Output parent
    OutputParent(Option<(Seq<char>, bool)>),
}

/// View of a list-or-error answer.
pub open spec fn list_view(r: Result<Vec<String>, String>) -> Result<Seq<Seq<char>>, Seq<char>> {
    match r {
        Ok(v) => Ok(views(v@)),
        Err(e) => Err(e@),
    }
}

impl View for WizardProbe {
    type V = ProbeView;

    open spec fn view(&self) -> ProbeView {
        match self {
            WizardProbe::Nothing => ProbeView::Nothing,
            WizardProbe::QmkPath { exists, has_makefile, has_keyboards_dir, keyboards } =>
                ProbeView::QmkPath {
                exists: *exists,
                has_makefile: *has_makefile,
                has_keyboards_dir: *has_keyboards_dir,
                keyboards: list_view(*keyboards),
            },
            WizardProbe::KeyboardInfo(r) => ProbeView::KeyboardInfo(list_view(*r)),
            WizardProbe::ConfigDir(d) => ProbeView::ConfigDir(ov(*d)),
            WizardProbe::OutputParent(p) => ProbeView::OutputParent(
                match p {
                    Some(x) => Some((x.0@, x.1)),
                    None => None,
                },
            ),
        }
    }
}

/// The lookup the current step needs in order to advance.
pub open spec fn needed_probe(v: WizardView) -> int {
    match v.step {
        WizardStep::QmkPath => if v.buffer.len() > 0 { 1 } else { 0 },
        WizardStep::KeyboardSelection => if filtered(v.keyboards, v.filter).len() > 0 { 2 } else { 0 },
        WizardStep::LayoutName => if v.buffer.len() > 0 && v.inputs.output_path is None { 3 } else { 0 },
        WizardStep::OutputPath => if v.buffer.len() > 0 { 4 } else { 0 },
        _ => 0,
    }
}

/// `p` answers the lookup the current step needs.
pub open spec fn probe_fits(v: WizardView, p: ProbeView) -> bool {
    let n = needed_probe(v);
    &&& n == 1 ==> p is QmkPath
    &&& n == 2 ==> p is KeyboardInfo
    &&& n == 3 ==> p is ConfigDir
    &&& n == 4 ==> p is OutputParent
}

// ---------------------------------------------------------------------------
// Transitions
// ---------------------------------------------------------------------------

/// The last `/`-separated piece of a keyboard path.
pub open spec fn last_piece(kb: Seq<char>) -> Seq<char> {
    split_on(kb, '/').last()
}

/// The wizard after advancing from its current step with outside facts `p`.
pub open spec fn advanced(v0: WizardView, p: ProbeView) -> WizardView {
    let v = WizardView { error: None, ..v0 };
    match v.step {
        WizardStep::Welcome => WizardView { step: WizardStep::QmkPath, ..v },
        WizardStep::QmkPath => if v.buffer.len() == 0 {
            WizardView { error: Some("QMK path cannot be empty"@), ..v }
        } else {
            match p {
                ProbeView::QmkPath { exists, has_makefile, has_keyboards_dir, keyboards } => if !exists {
                    WizardView { error: Some("Path does not exist: "@ + v.buffer), ..v }
                } else if !has_makefile {
                    WizardView { error: Some("Not a QMK firmware directory: Makefile not found"@), ..v }
                } else if !has_keyboards_dir {
                    WizardView { error: Some("Not a QMK firmware directory: keyboards/ not found"@), ..v }
                } else {
                    let v2 = WizardView {
                        inputs: InputsView { qmk_path: Some(v.buffer), ..v.inputs },
                        buffer: Seq::empty(),
                        ..v
                    };
                    match keyboards {
                        Ok(kbs) => WizardView {
                            keyboards: kbs,
                            kb_index: 0,
                            step: WizardStep::KeyboardSelection,
                            ..v2
                        },
                        Err(e) => WizardView { error: Some("Failed to scan keyboards: "@ + e), ..v2 },
                    }
                },
                _ => v,
            }
        },
        WizardStep::KeyboardSelection => {
            let f = filtered(v.keyboards, v.filter);
            if f.len() == 0 {
                WizardView { error: Some("No keyboards match filter"@), ..v }
            } else {
                let v2 = WizardView {
                    inputs: InputsView { keyboard: Some(f[v.kb_index]), ..v.inputs },
                    filter: Seq::empty(),
                    ..v
                };
                match p {
                    ProbeView::KeyboardInfo(Ok(ls)) => WizardView {
                        layouts: ls,
                        layout_index: 0,
                        step: WizardStep::LayoutSelection,
                        ..v2
                    },
                    ProbeView::KeyboardInfo(Err(e)) => WizardView {
                        error: Some("Failed to parse keyboard info: "@ + e),
                        ..v2
                    },
                    _ => v2,
                }
            }
        },
        WizardStep::LayoutSelection => if v.layouts.len() == 0 {
            WizardView { error: Some("No layouts available"@), ..v }
        } else {
            let v2 = WizardView {
                inputs: InputsView { layout: Some(v.layouts[v.layout_index]), ..v.inputs },
                ..v
            };
            if v.kb_only {
                WizardView { complete: true, ..v2 }
            } else {
                let v3 = if v.inputs.layout_name is None {
                    WizardView {
                        buffer: last_piece(v.inputs.keyboard->0) + "_layout"@,
                        ..v2
                    }
                } else {
                    v2
                };
                WizardView { step: WizardStep::LayoutName, ..v3 }
            }
        },
        WizardStep::LayoutName => if v.buffer.len() == 0 {
            WizardView { error: Some("Layout name cannot be empty"@), ..v }
        } else {
            let v2 = WizardView {
                inputs: InputsView { layout_name: Some(v.buffer), ..v.inputs },
                buffer: Seq::empty(),
                step: WizardStep::OutputPath,
                ..v
            };
            if v.inputs.output_path is None {
                match p {
                    ProbeView::ConfigDir(Some(d)) => WizardView { buffer: d, ..v2 },
                    _ => v2,
                }
            } else {
                v2
            }
        },
        WizardStep::OutputPath => if v.buffer.len() == 0 {
            WizardView { error: Some("Output path cannot be empty"@), ..v }
        } else {
            match p {
                ProbeView::OutputParent(Some((parent, false))) => WizardView {
                    error: Some("Parent directory does not exist: "@ + parent),
                    ..v
                },
                _ => WizardView {
                    inputs: InputsView { output_path: Some(v.buffer), ..v.inputs },
                    buffer: Seq::empty(),
                    step: WizardStep::Confirmation,
                    ..v
                },
            }
        },
        WizardStep::Confirmation => WizardView { complete: true, ..v },
    }
}

/// The wizard after going back one step.
pub open spec fn went_back(v0: WizardView) -> WizardView {
    let v = WizardView { error: None, ..v0 };
    match step_before(v.step) {
        None => v,
        Some(prev) => {
            let v1 = WizardView { step: prev, ..v };
            match prev {
                WizardStep::QmkPath => match v.inputs.qmk_path {
                    Some(q) => WizardView { buffer: q, ..v1 },
                    None => v1,
                },
                WizardStep::KeyboardSelection => WizardView { filter: Seq::empty(), kb_index: 0, ..v1 },
                WizardStep::LayoutName => match v.inputs.layout_name {
                    Some(n) => WizardView { buffer: n, ..v1 },
                    None => v1,
                },
                WizardStep::OutputPath => match v.inputs.output_path {
                    Some(o) => WizardView { buffer: o, ..v1 },
                    None => v1,
                },
                _ => v1,
            }
        },
    }
}

/// When the caller exits the wizard after an advance.
#[derive(Debug, Clone, Copy, PartialEq, Eq, Structural)]
pub enum ExitRule {
    /// Stay in the wizard
    Never,
    /// Exit when the advance completed the wizard
    IfComplete,
    /// Always exit
    Always,
}

/// What a key asks of the caller.
#[derive(Debug, Clone, Copy, PartialEq, Eq, Structural)]
pub enum WizardKeyOutcome {
    /// Nothing more: stay in the wizard
    Continue,
    /// Leave the wizard
    Exit,
    /// Advance the wizard (after the lookup it needs), then exit by the rule
    Advance(ExitRule),
}

/// Text after a key edits it.
pub open spec fn edit_text(s: Seq<char>, code: KeyCode) -> Seq<char> {
    match code {
        KeyCode::Char(c) => s.push(c),
        KeyCode::Backspace => if s.len() > 0 { s.drop_last() } else { s },
        _ => s,
    }
}

/// The wizard's reaction to a key: its new state and what it asks of the
/// caller.
pub open spec fn key_step(v: WizardView, key: KeyEvent) -> (WizardView, WizardKeyOutcome) {
    let shift = key.modifiers.shift;
    match v.step {
        WizardStep::Welcome => match key.code {
            KeyCode::Up | KeyCode::Char('k') => (
                WizardView {
                    welcome_index: if v.welcome_index > 0 { v.welcome_index - 1 } else { v.welcome_index },
                    ..v
                },
                WizardKeyOutcome::Continue,
            ),
            KeyCode::Down | KeyCode::Char('j') => (
                WizardView {
                    welcome_index: if v.welcome_index < welcome_count(v) - 1 {
                        v.welcome_index + 1
                    } else {
                        v.welcome_index
                    },
                    ..v
                },
                WizardKeyOutcome::Continue,
            ),
            KeyCode::Enter => match welcome_choice_at(v, v.welcome_index) {
                Some(c) => (
                    WizardView { welcome_choice: Some(c), ..v },
                    if c != WelcomeChoice::LoadExisting {
                        WizardKeyOutcome::Advance(ExitRule::Never)
                    } else {
                        WizardKeyOutcome::Exit
                    },
                ),
                None => (v, WizardKeyOutcome::Continue),
            },
            KeyCode::Esc => (v, WizardKeyOutcome::Exit),
            _ => (v, WizardKeyOutcome::Continue),
        },
        WizardStep::QmkPath | WizardStep::LayoutName | WizardStep::OutputPath => match key.code {
            KeyCode::Enter => (v, WizardKeyOutcome::Advance(ExitRule::Never)),
            KeyCode::Backspace | KeyCode::Char(_) => (
                WizardView { buffer: edit_text(v.buffer, key.code), ..v },
                WizardKeyOutcome::Continue,
            ),
            KeyCode::Esc => (went_back(v), WizardKeyOutcome::Continue),
            _ => (v, WizardKeyOutcome::Continue),
        },
        WizardStep::KeyboardSelection => match v.focus {
            KeyboardSelectionFocus::FilterInput => match key.code {
                KeyCode::Tab if !shift => (
                    WizardView { focus: KeyboardSelectionFocus::List, ..v },
                    WizardKeyOutcome::Continue,
                ),
                KeyCode::BackTab | KeyCode::Tab => (v, WizardKeyOutcome::Continue),
                KeyCode::Enter => {
                    let n = filtered(v.keyboards, v.filter).len();
                    if n == 1 {
                        (v, WizardKeyOutcome::Advance(ExitRule::Never))
                    } else if n > 0 {
                        (WizardView { focus: KeyboardSelectionFocus::List, ..v }, WizardKeyOutcome::Continue)
                    } else {
                        (v, WizardKeyOutcome::Continue)
                    }
                },
                KeyCode::Char(_) | KeyCode::Backspace => (
                    WizardView { filter: edit_text(v.filter, key.code), kb_index: 0, ..v },
                    WizardKeyOutcome::Continue,
                ),
                KeyCode::Esc => if v.filter.len() > 0 {
                    (WizardView { filter: Seq::empty(), kb_index: 0, ..v }, WizardKeyOutcome::Continue)
                } else if v.kb_only {
                    (v, WizardKeyOutcome::Exit)
                } else {
                    (went_back(v), WizardKeyOutcome::Continue)
                },
                _ => (v, WizardKeyOutcome::Continue),
            },
            KeyboardSelectionFocus::List => match key.code {
                KeyCode::Tab => (
                    WizardView { focus: KeyboardSelectionFocus::FilterInput, ..v },
                    WizardKeyOutcome::Continue,
                ),
                KeyCode::BackTab if shift => (
                    WizardView { focus: KeyboardSelectionFocus::FilterInput, ..v },
                    WizardKeyOutcome::Continue,
                ),
                KeyCode::Up | KeyCode::Char('k') => (
                    WizardView { kb_index: if v.kb_index > 0 { v.kb_index - 1 } else { v.kb_index }, ..v },
                    WizardKeyOutcome::Continue,
                ),
                KeyCode::Down | KeyCode::Char('j') => (
                    WizardView {
                        kb_index: if v.kb_index < filtered(v.keyboards, v.filter).len() - 1 {
                            v.kb_index + 1
                        } else {
                            v.kb_index
                        },
                        ..v
                    },
                    WizardKeyOutcome::Continue,
                ),
                KeyCode::Enter => (v, WizardKeyOutcome::Advance(ExitRule::Never)),
                KeyCode::Esc => (
                    WizardView { focus: KeyboardSelectionFocus::FilterInput, ..v },
                    WizardKeyOutcome::Continue,
                ),
                _ => (v, WizardKeyOutcome::Continue),
            },
        },
        WizardStep::LayoutSelection => match key.code {
            KeyCode::Up | KeyCode::Char('k') => (
                WizardView {
                    layout_index: if v.layout_index > 0 { v.layout_index - 1 } else { v.layout_index },
                    ..v
                },
                WizardKeyOutcome::Continue,
            ),
            KeyCode::Down | KeyCode::Char('j') => (
                WizardView {
                    layout_index: if v.layout_index < v.layouts.len() - 1 {
                        v.layout_index + 1
                    } else {
                        v.layout_index
                    },
                    ..v
                },
                WizardKeyOutcome::Continue,
            ),
            KeyCode::Enter => (v, WizardKeyOutcome::Advance(ExitRule::IfComplete)),
            KeyCode::Esc => if v.kb_only {
                (v, WizardKeyOutcome::Exit)
            } else {
                (went_back(v), WizardKeyOutcome::Continue)
            },
            _ => (v, WizardKeyOutcome::Continue),
        },
        WizardStep::Confirmation => match key.code {
            KeyCode::Enter => (v, WizardKeyOutcome::Advance(ExitRule::Always)),
            KeyCode::Esc => (went_back(v), WizardKeyOutcome::Continue),
            _ => (v, WizardKeyOutcome::Continue),
        },
    }
}

// ---------------------------------------------------------------------------
// Helpers
// ---------------------------------------------------------------------------

/// Filtering never lengthens the list.
proof fn lemma_matching_len(kbs: Seq<Seq<char>>, needle: Seq<char>)
    ensures
        matching(kbs, needle).len() <= kbs.len(),
    decreases kbs.len(),
{
    if kbs.len() > 0 {
        lemma_matching_len(kbs.drop_last(), needle);
    }
}

/// Views of a vector of strings after one more is pushed.
proof fn lemma_views_push(v: Seq<String>, s: String)
    ensures
        views(v.push(s)) == views(v).push(s@),
{
    assert(views(v.push(s)) =~= views(v).push(s@));
}

/// Clones a vector of strings.
fn clone_strings(v: &Vec<String>) -> (out: Vec<String>)
    ensures
        views(out@) == views(v@),
{
    let mut out: Vec<String> = Vec::new();
    let mut i: usize = 0;
    while i < v.len()
        invariant
            i <= v@.len(),
            views(out@) == views(v@).take(i as int),
        decreases v@.len() - i,
    {
        let s = v[i].clone();
        proof {
            lemma_views_push(out@, s);
        }
        out.push(s);
        assert(views(v@).take(i as int + 1) =~= views(v@).take(i as int).push(v@[i as int]@));
        i = i + 1;
    }
    assert(views(v@).take(v@.len() as int) =~= views(v@));
    out
}

/// The last `/`-separated piece of a keyboard path.
fn last_path_piece(kb: &str) -> (p: String)
    ensures
        p@ == last_piece(kb@),
{
    let cs = chars_of(kb);
    let pieces = split_chars(cs.as_slice(), '/');
    proof {
        crate::text::lemma_split_on_nonempty(cs@, '/');
    }
    let last = &pieces[pieces.len() - 1];
    assert(pieces@.map_values(|v: Vec<char>| v@).last() == last@);
    string_from_chars(last.as_slice())
}

impl OnboardingWizardState {
    /// A wizard at the welcome screen; `existing_layouts` are the layouts
    /// found in the layouts directory.
    pub fn new(existing_layouts: Vec<String>) -> (s: Self)
        ensures
            s@.step == WizardStep::Welcome,
            s@.inputs == (InputsView {
                qmk_path: None,
                keyboard: None,
                layout: None,
                layout_name: None,
                output_path: None,
            }),
            s@.buffer.len() == 0,
            s@.keyboards.len() == 0,
            s@.filter.len() == 0,
            s@.kb_index == 0,
            s@.focus == KeyboardSelectionFocus::FilterInput,
            s@.layouts.len() == 0,
            s@.layout_index == 0,
            s@.error is None,
            !s@.complete,
            !s@.kb_only,
            s@.existing == views(existing_layouts@),
            s@.welcome_choice is None,
            s@.welcome_index == 0,
            selections_in_range(s@),
    {
        let s = OnboardingWizardState {
            current_step: WizardStep::Welcome,
            inputs: WizardInputs::empty(),
            input_buffer: String::new(),
            available_keyboards: Vec::new(),
            keyboard_filter: String::new(),
            keyboard_selected_index: 0,
            keyboard_selection_focus: KeyboardSelectionFocus::FilterInput,
            available_layouts: Vec::new(),
            layout_selected_index: 0,
            error_message: None,
            is_complete: false,
            keyboard_change_only: false,
            existing_layouts,
            welcome_choice: None,
            welcome_selected_index: 0,
        };
        assert(views(s.available_keyboards@) =~= Seq::<Seq<char>>::empty());
        assert(views(s.available_layouts@) =~= Seq::<Seq<char>>::empty());
        s
    }

    /// A wizard for changing the keyboard only: starts at keyboard selection
    /// with the scanned keyboards and completes after the layout variant.
    /// `keyboards` is the scan of `qmk_path`; a failed scan is returned as the
    /// error.
    pub fn new_for_keyboard_selection(qmk_path: &str, keyboards: Result<Vec<String>, String>) -> (r:
        Result<Self, String>)
        ensures
            match keyboards {
                Err(e) => r == Err::<Self, String>(e),
                Ok(kbs) => r matches Ok(s) && {
                    &&& s@.step == WizardStep::KeyboardSelection
                    &&& s@.inputs == (InputsView {
                        qmk_path: Some(qmk_path@),
                        keyboard: None,
                        layout: None,
                        layout_name: None,
                        output_path: None,
                    })
                    &&& s@.keyboards == views(kbs@)
                    &&& s@.buffer.len() == 0
                    &&& s@.filter.len() == 0
                    &&& s@.kb_index == 0
                    &&& s@.focus == KeyboardSelectionFocus::FilterInput
                    &&& s@.layouts.len() == 0
                    &&& s@.layout_index == 0
                    &&& s@.error is None
                    &&& !s@.complete
                    &&& s@.kb_only
                    &&& s@.existing.len() == 0
                    &&& s@.welcome_choice is None
                    &&& s@.welcome_index == 0
                    &&& selections_in_range(s@)
                },
            },
    {
        let keyboards = match keyboards {
            Ok(k) => k,
            Err(e) => {
                return Err(e);
            },
        };
        let mut inputs = WizardInputs::empty();
        inputs.qmk_path = Some(String::from_str(qmk_path));
        let s = OnboardingWizardState {
            current_step: WizardStep::KeyboardSelection,
            inputs,
            input_buffer: String::new(),
            available_keyboards: keyboards,
            keyboard_filter: String::new(),
            keyboard_selected_index: 0,
            keyboard_selection_focus: KeyboardSelectionFocus::FilterInput,
            available_layouts: Vec::new(),
            layout_selected_index: 0,
            error_message: None,
            is_complete: false,
            keyboard_change_only: true,
            existing_layouts: Vec::new(),
            welcome_choice: None,
            welcome_selected_index: 0,
        };
        assert(views(s.available_layouts@) =~= Seq::<Seq<char>>::empty());
        assert(views(s.existing_layouts@) =~= Seq::<Seq<char>>::empty());
        Ok(s)
    }

    /// A wizard for creating a new layout: starts at keyboard selection with
    /// the QMK path and the output folder of the configuration already known,
    /// and goes through all remaining steps. `qmk_path` is the configured QMK
    /// path, if any, and `keyboards` the scan of it. Without a QMK path the
    /// error is "QMK firmware path not configured"; a failed scan is returned
    /// as the error.
    pub fn new_for_new_layout(
        qmk_path: Option<&str>,
        output_dir: &str,
        keyboards: Result<Vec<String>, String>,
    ) -> (r: Result<Self, String>)
        ensures
            qmk_path is None ==> (r matches Err(e) && e@ == "QMK firmware path not configured"@),
            qmk_path is Some ==> match keyboards {
                Err(e) => r == Err::<Self, String>(e),
                Ok(kbs) => r matches Ok(s) && {
                    &&& s@.step == WizardStep::KeyboardSelection
                    &&& s@.inputs == (InputsView {
                        qmk_path: Some(qmk_path->0@),
                        keyboard: None,
                        layout: None,
                        layout_name: None,
                        output_path: Some(output_dir@),
                    })
                    &&& s@.keyboards == views(kbs@)
                    &&& s@.buffer.len() == 0
                    &&& s@.filter.len() == 0
                    &&& s@.kb_index == 0
                    &&& s@.focus == KeyboardSelectionFocus::FilterInput
                    &&& s@.layouts.len() == 0
                    &&& s@.layout_index == 0
                    &&& s@.error is None
                    &&& !s@.complete
                    &&& !s@.kb_only
                    &&& s@.existing.len() == 0
                    &&& s@.welcome_choice is None
                    &&& s@.welcome_index == 0
                    &&& selections_in_range(s@)
                },
            },
    {
        let qmk_path = match qmk_path {
            Some(q) => q,
            None => {
                return Err(String::from_str("QMK firmware path not configured"));
            },
        };
        let keyboards = match keyboards {
            Ok(k) => k,
            Err(e) => {
                return Err(e);
            },
        };
        let mut inputs = WizardInputs::empty();
        inputs.qmk_path = Some(String::from_str(qmk_path));
        inputs.output_path = Some(String::from_str(output_dir));
        let s = OnboardingWizardState {
            current_step: WizardStep::KeyboardSelection,
            inputs,
            input_buffer: String::new(),
            available_keyboards: keyboards,
            keyboard_filter: String::new(),
            keyboard_selected_index: 0,
            keyboard_selection_focus: KeyboardSelectionFocus::FilterInput,
            available_layouts: Vec::new(),
            layout_selected_index: 0,
            error_message: None,
            is_complete: false,
            keyboard_change_only: false,
            existing_layouts: Vec::new(),
            welcome_choice: None,
            welcome_selected_index: 0,
        };
        assert(views(s.available_layouts@) =~= Seq::<Seq<char>>::empty());
        assert(views(s.existing_layouts@) =~= Seq::<Seq<char>>::empty());
        Ok(s)
    }

    /// A wizard at the welcome screen pre-filled from the configuration: the
    /// QMK path (also placed in the input buffer) when configured, and the
    /// output folder.
    pub fn from_config(existing_layouts: Vec<String>, qmk_path: Option<&str>, output_dir: &str) -> (s:
        Self)
        ensures
            s@.step == WizardStep::Welcome,
            s@.inputs.qmk_path == (match qmk_path {
                Some(q) => Some(q@),
                None => None::<Seq<char>>,
            }),
            s@.inputs.output_path == Some(output_dir@),
            s@.inputs.keyboard is None && s@.inputs.layout is None && s@.inputs.layout_name is None,
            s@.buffer == (match qmk_path {
                Some(q) => q@,
                None => Seq::<char>::empty(),
            }),
            s@.existing == views(existing_layouts@),
            s@.kb_index == 0 && s@.layout_index == 0 && !s@.kb_only && !s@.complete,
            selections_in_range(s@),
    {
        let mut w = Self::new(existing_layouts);
        match qmk_path {
            Some(q) => {
                w.inputs.qmk_path = Some(String::from_str(q));
                w.input_buffer = String::from_str(q);
            },
            None => {},
        }
        w.inputs.output_path = Some(String::from_str(output_dir));
        w
    }

    /// The configuration the wizard collected: the QMK firmware path and the
    /// build output folder.
    pub fn build_config(&self) -> (c: (Option<String>, Option<String>))
        ensures
            ov(c.0) == self@.inputs.qmk_path,
            ov(c.1) == self@.inputs.output_path,
    {
        (self.inputs.qmk_path.clone(), self.inputs.output_path.clone())
    }

    /// The keyboards matching the current filter, in order.
    pub fn get_filtered_keyboards(&self) -> (out: Vec<String>)
        ensures
            views(out@) == filtered(self@.keyboards, self@.filter),
    {
        if self.keyboard_filter.as_str().unicode_len() == 0 {
            return clone_strings(&self.available_keyboards);
        }
        let needle_s = to_lowercase(self.keyboard_filter.as_str());
        let needle = chars_of(needle_s.as_str());
        let ghost kbs = views(self.available_keyboards@);
        let mut out: Vec<String> = Vec::new();
        let mut i: usize = 0;
        while i < self.available_keyboards.len()
            invariant
                kbs == views(self.available_keyboards@),
                needle@ == lowercase(self.keyboard_filter@),
                i <= self.available_keyboards@.len(),
                views(out@) == matching(kbs.take(i as int), needle@),
            decreases self.available_keyboards@.len() - i,
        {
            let kb = &self.available_keyboards[i];
            let lower = to_lowercase(kb.as_str());
            let lc = chars_of(lower.as_str());
            assert(kbs.take(i as int + 1).drop_last() =~= kbs.take(i as int));
            assert(kbs.take(i as int + 1).last() == kb@);
            if contains_slice(lc.as_slice(), needle.as_slice()) {
                let c = kb.clone();
                proof {
                    lemma_views_push(out@, c);
                }
                out.push(c);
            }
            i = i + 1;
        }
        assert(kbs.take(self.available_keyboards@.len() as int) =~= kbs);
        out
    }

    /// The welcome options shown: load existing (only when layouts were
    /// found), from scratch, from template.
    pub fn get_welcome_options(&self) -> (o: Vec<WelcomeChoice>)
        ensures
            o@ == welcome_options(self@),
            o@ == (if self@.existing.len() == 0 {
                seq![WelcomeChoice::FromScratch, WelcomeChoice::FromTemplate]
            } else {
                seq![WelcomeChoice::LoadExisting, WelcomeChoice::FromScratch, WelcomeChoice::FromTemplate]
            }),
    {
        let mut o: Vec<WelcomeChoice> = Vec::new();
        if self.existing_layouts.len() > 0 {
            o.push(WelcomeChoice::LoadExisting);
        }
        o.push(WelcomeChoice::FromScratch);
        o.push(WelcomeChoice::FromTemplate);
        assert(o@ =~= (if self@.existing.len() == 0 {
            seq![WelcomeChoice::FromScratch, WelcomeChoice::FromTemplate]
        } else {
            seq![WelcomeChoice::LoadExisting, WelcomeChoice::FromScratch, WelcomeChoice::FromTemplate]
        }));
        o
    }

    /// Number of welcome options.
    pub fn get_welcome_options_count(&self) -> (n: usize)
        ensures
            n == welcome_count(self@),
    {
        if self.existing_layouts.len() == 0 {
            2
        } else {
            3
        }
    }

    /// The welcome choice at `index`.
    pub fn get_welcome_choice_for_index(&self, index: usize) -> (c: Option<WelcomeChoice>)
        ensures
            c == welcome_choice_at(self@, index as int),
    {
        if self.existing_layouts.len() > 0 {
            if index == 0 {
                Some(WelcomeChoice::LoadExisting)
            } else if index == 1 {
                Some(WelcomeChoice::FromScratch)
            } else if index == 2 {
                Some(WelcomeChoice::FromTemplate)
            } else {
                None
            }
        } else {
            if index == 0 {
                Some(WelcomeChoice::FromScratch)
            } else if index == 1 {
                Some(WelcomeChoice::FromTemplate)
            } else {
                None
            }
        }
    }

    /// Whether what advancing from the current step reads is there (see
    /// [`can_advance`]).
    pub fn ready_to_advance(&self) -> (b: bool)
        ensures
            b == can_advance(self@),
    {
        match self.current_step {
            WizardStep::KeyboardSelection => {
                let f = self.get_filtered_keyboards();
                f.len() == 0 || (self.keyboard_selected_index < f.len() && self.inputs.qmk_path.is_some())
            },
            WizardStep::LayoutSelection => {
                self.available_layouts.len() == 0 || (self.layout_selected_index
                    < self.available_layouts.len() && (self.keyboard_change_only
                    || self.inputs.layout_name.is_some() || self.inputs.keyboard.is_some()))
            },
            _ => true,
        }
    }

    /// The lookup the current step needs before advancing.
    pub fn probe_request(&self) -> (r: ProbeRequest)
        requires
            can_advance(self@),
        ensures
            needed_probe(self@) == 0 ==> r is Nothing,
            needed_probe(self@) == 1 ==> r is QmkPath && r->QmkPath_0@ == self@.buffer,
            needed_probe(self@) == 2 ==> r is KeyboardInfo && r->KeyboardInfo_qmk_path@
                == self@.inputs.qmk_path->0 && r->KeyboardInfo_keyboard@ == filtered(
                self@.keyboards,
                self@.filter,
            )[self@.kb_index],
            needed_probe(self@) == 3 ==> r is ConfigDir,
            needed_probe(self@) == 4 ==> r is OutputParent && r->OutputParent_0@ == self@.buffer,
    {
        match self.current_step {
            WizardStep::QmkPath => {
                if self.input_buffer.as_str().unicode_len() > 0 {
                    ProbeRequest::QmkPath(self.input_buffer.clone())
                } else {
                    ProbeRequest::Nothing
                }
            },
            WizardStep::KeyboardSelection => {
                let f = self.get_filtered_keyboards();
                if f.len() > 0 {
                    let q = match &self.inputs.qmk_path {
                        Some(q) => q.clone(),
                        None => String::new(),
                    };
                    let kb = f[self.keyboard_selected_index].clone();
                    assert(views(f@)[self.keyboard_selected_index as int] == f@[self.keyboard_selected_index as int]@);
                    ProbeRequest::KeyboardInfo { qmk_path: q, keyboard: kb }
                } else {
                    ProbeRequest::Nothing
                }
            },
            WizardStep::LayoutName => {
                if self.input_buffer.as_str().unicode_len() > 0 && self.inputs.output_path.is_none() {
                    ProbeRequest::ConfigDir
                } else {
                    ProbeRequest::Nothing
                }
            },
            WizardStep::OutputPath => {
                if self.input_buffer.as_str().unicode_len() > 0 {
                    ProbeRequest::OutputParent(self.input_buffer.clone())
                } else {
                    ProbeRequest::Nothing
                }
            },
            _ => ProbeRequest::Nothing,
        }
    }

    /// Advances to the next step with the outside facts `probe` (the answer
    /// to [`OnboardingWizardState::probe_request`]); see [`advanced`].
    pub fn next_step(&mut self, probe: WizardProbe)
        requires
            can_advance(old(self)@),
            probe_fits(old(self)@, probe@),
        ensures
            final(self)@ == advanced(old(self)@, probe@),
            selections_in_range(old(self)@) ==> selections_in_range(final(self)@),
    {
        self.error_message = None;
        match self.current_step {
            WizardStep::Welcome => {
                self.current_step = WizardStep::QmkPath;
            },
            WizardStep::QmkPath => {
                if self.input_buffer.as_str().unicode_len() == 0 {
                    self.error_message = Some(String::from_str("QMK path cannot be empty"));
                    return;
                }
                match probe {
                    WizardProbe::QmkPath { exists, has_makefile, has_keyboards_dir, keyboards } => {
                        if !exists {
                            self.error_message = Some(
                                concat2("Path does not exist: ", self.input_buffer.as_str()),
                            );
                            return;
                        }
                        if !has_makefile {
                            self.error_message = Some(
                                String::from_str("Not a QMK firmware directory: Makefile not found"),
                            );
                            return;
                        }
                        if !has_keyboards_dir {
                            self.error_message = Some(
                                String::from_str("Not a QMK firmware directory: keyboards/ not found"),
                            );
                            return;
                        }
                        self.inputs.qmk_path = Some(self.input_buffer.clone());
                        self.input_buffer = String::new();
                        match keyboards {
                            Ok(kbs) => {
                                self.available_keyboards = kbs;
                                self.keyboard_selected_index = 0;
                                self.current_step = WizardStep::KeyboardSelection;
                            },
                            Err(e) => {
                                self.error_message = Some(
                                    concat2("Failed to scan keyboards: ", e.as_str()),
                                );
                            },
                        }
                    },
                    _ => {},
                }
            },
            WizardStep::KeyboardSelection => {
                let f = self.get_filtered_keyboards();
                if f.len() == 0 {
                    self.error_message = Some(String::from_str("No keyboards match filter"));
                    return;
                }
                let keyboard = f[self.keyboard_selected_index].clone();
                assert(views(f@)[self.keyboard_selected_index as int] == f@[self.keyboard_selected_index as int]@);
                proof {
                    lemma_matching_len(self@.keyboards, lowercase(self@.filter));
                }
                self.inputs.keyboard = Some(keyboard);
                self.keyboard_filter = String::new();
                match probe {
                    WizardProbe::KeyboardInfo(Ok(ls)) => {
                        self.available_layouts = ls;
                        self.layout_selected_index = 0;
                        self.current_step = WizardStep::LayoutSelection;
                    },
                    WizardProbe::KeyboardInfo(Err(e)) => {
                        self.error_message = Some(
                            concat2("Failed to parse keyboard info: ", e.as_str()),
                        );
                    },
                    _ => {},
                }
            },
            WizardStep::LayoutSelection => {
                if self.available_layouts.len() == 0 {
                    self.error_message = Some(String::from_str("No layouts available"));
                    return;
                }
                let layout = self.available_layouts[self.layout_selected_index].clone();
                self.inputs.layout = Some(layout);
                if self.keyboard_change_only {
                    self.is_complete = true;
                    return;
                }
                if self.inputs.layout_name.is_none() {
                    let name = match &self.inputs.keyboard {
                        Some(kb) => last_path_piece(kb.as_str()),
                        None => String::new(),
                    };
                    let mut buf = name;
                    buf.append("_layout");
                    self.input_buffer = buf;
                }
                self.current_step = WizardStep::LayoutName;
            },
            WizardStep::LayoutName => {
                if self.input_buffer.as_str().unicode_len() == 0 {
                    self.error_message = Some(String::from_str("Layout name cannot be empty"));
                    return;
                }
                self.inputs.layout_name = Some(self.input_buffer.clone());
                self.input_buffer = String::new();
                if self.inputs.output_path.is_none() {
                    match probe {
                        WizardProbe::ConfigDir(Some(d)) => {
                            self.input_buffer = d;
                        },
                        _ => {},
                    }
                }
                self.current_step = WizardStep::OutputPath;
            },
            WizardStep::OutputPath => {
                if self.input_buffer.as_str().unicode_len() == 0 {
                    self.error_message = Some(String::from_str("Output path cannot be empty"));
                    return;
                }
                match probe {
                    WizardProbe::OutputParent(Some((parent, false))) => {
                        self.error_message = Some(
                            concat2("Parent directory does not exist: ", parent.as_str()),
                        );
                        return;
                    },
                    _ => {},
                }
                self.inputs.output_path = Some(self.input_buffer.clone());
                self.input_buffer = String::new();
                self.current_step = WizardStep::Confirmation;
            },
            WizardStep::Confirmation => {
                self.is_complete = true;
            },
        }
    }

    /// Goes back to the previous step, restoring the value typed there.
    pub fn previous_step(&mut self)
        ensures
            final(self)@ == went_back(old(self)@),
            selections_in_range(old(self)@) ==> selections_in_range(final(self)@),
    {
        self.error_message = None;
        match self.current_step.previous() {
            Some(prev) => {
                self.current_step = prev;
                match prev {
                    WizardStep::QmkPath => {
                        match &self.inputs.qmk_path {
                            Some(q) => {
                                self.input_buffer = q.clone();
                            },
                            None => {},
                        }
                    },
                    WizardStep::KeyboardSelection => {
                        self.keyboard_filter = String::new();
                        self.keyboard_selected_index = 0;
                    },
                    WizardStep::LayoutName => {
                        match &self.inputs.layout_name {
                            Some(n) => {
                                self.input_buffer = n.clone();
                            },
                            None => {},
                        }
                    },
                    WizardStep::OutputPath => {
                        match &self.inputs.output_path {
                            Some(o) => {
                                self.input_buffer = o.clone();
                            },
                            None => {},
                        }
                    },
                    _ => {},
                }
            },
            None => {},
        }
    }
}

impl Default for OnboardingWizardState {
    /// The wizard of [`OnboardingWizardState::new`] with no existing layouts.
    fn default() -> (s: Self)
        ensures
            s@.step == WizardStep::Welcome,
            s@.inputs == (InputsView {
                qmk_path: None,
                keyboard: None,
                layout: None,
                layout_name: None,
                output_path: None,
            }),
            s@.buffer.len() == 0,
            s@.keyboards.len() == 0,
            s@.filter.len() == 0,
            s@.kb_index == 0,
            s@.focus == KeyboardSelectionFocus::FilterInput,
            s@.layouts.len() == 0,
            s@.layout_index == 0,
            s@.error is None,
            !s@.complete,
            !s@.kb_only,
            s@.existing.len() == 0,
            s@.welcome_choice is None,
            s@.welcome_index == 0,
            selections_in_range(s@),
    {
        Self::new(Vec::new())
    }
}


/// Handles a key in the onboarding wizard. The returned outcome says what
/// the caller does next: nothing, leave the wizard, or advance it (with
/// [`complete_advance`] after the lookup of
/// [`OnboardingWizardState::probe_request`]) and then leave by the rule.
pub fn handle_input(state: &mut OnboardingWizardState, key: KeyEvent) -> (out: WizardKeyOutcome)
    ensures
        (final(state)@, out) == key_step(old(state)@, key),
        selections_in_range(old(state)@) ==> selections_in_range(final(state)@),
{
    let shift = key.modifiers.shift;
    match state.current_step {
        WizardStep::Welcome => match key.code {
            KeyCode::Up | KeyCode::Char('k') => {
                if state.welcome_selected_index > 0 {
                    state.welcome_selected_index = state.welcome_selected_index - 1;
                }
                WizardKeyOutcome::Continue
            },
            KeyCode::Down | KeyCode::Char('j') => {
                let max_index = state.get_welcome_options_count() - 1;
                if state.welcome_selected_index < max_index {
                    state.welcome_selected_index = state.welcome_selected_index + 1;
                }
                WizardKeyOutcome::Continue
            },
            KeyCode::Enter => {
                match state.get_welcome_choice_for_index(state.welcome_selected_index) {
                    Some(choice) => {
                        state.welcome_choice = Some(choice);
                        if choice != WelcomeChoice::LoadExisting {
                            WizardKeyOutcome::Advance(ExitRule::Never)
                        } else {
                            WizardKeyOutcome::Exit
                        }
                    },
                    None => WizardKeyOutcome::Continue,
                }
            },
            KeyCode::Esc => WizardKeyOutcome::Exit,
            _ => WizardKeyOutcome::Continue,
        },
        WizardStep::QmkPath | WizardStep::LayoutName | WizardStep::OutputPath => match key.code {
            KeyCode::Enter => WizardKeyOutcome::Advance(ExitRule::Never),
            KeyCode::Backspace => {
                let _ = pop_char(&mut state.input_buffer);
                WizardKeyOutcome::Continue
            },
            KeyCode::Char(c) => {
                push_char(&mut state.input_buffer, c);
                WizardKeyOutcome::Continue
            },
            KeyCode::Esc => {
                state.previous_step();
                WizardKeyOutcome::Continue
            },
            _ => WizardKeyOutcome::Continue,
        },
        WizardStep::KeyboardSelection => match state.keyboard_selection_focus {
            KeyboardSelectionFocus::FilterInput => match key.code {
                KeyCode::Tab if !shift => {
                    state.keyboard_selection_focus = KeyboardSelectionFocus::List;
                    WizardKeyOutcome::Continue
                },
                KeyCode::BackTab | KeyCode::Tab => WizardKeyOutcome::Continue,
                KeyCode::Enter => {
                    let f = state.get_filtered_keyboards();
                    if f.len() == 1 {
                        WizardKeyOutcome::Advance(ExitRule::Never)
                    } else {
                        if f.len() > 0 {
                            state.keyboard_selection_focus = KeyboardSelectionFocus::List;
                        }
                        WizardKeyOutcome::Continue
                    }
                },
                KeyCode::Char(c) => {
                    push_char(&mut state.keyboard_filter, c);
                    state.keyboard_selected_index = 0;
                    WizardKeyOutcome::Continue
                },
                KeyCode::Backspace => {
                    let _ = pop_char(&mut state.keyboard_filter);
                    state.keyboard_selected_index = 0;
                    WizardKeyOutcome::Continue
                },
                KeyCode::Esc => {
                    if state.keyboard_filter.as_str().unicode_len() > 0 {
                        state.keyboard_filter = String::new();
                        state.keyboard_selected_index = 0;
                        WizardKeyOutcome::Continue
                    } else if state.keyboard_change_only {
                        WizardKeyOutcome::Exit
                    } else {
                        state.previous_step();
                        WizardKeyOutcome::Continue
                    }
                },
                _ => WizardKeyOutcome::Continue,
            },
            KeyboardSelectionFocus::List => match key.code {
                KeyCode::Tab => {
                    state.keyboard_selection_focus = KeyboardSelectionFocus::FilterInput;
                    WizardKeyOutcome::Continue
                },
                KeyCode::BackTab if shift => {
                    state.keyboard_selection_focus = KeyboardSelectionFocus::FilterInput;
                    WizardKeyOutcome::Continue
                },
                KeyCode::Up | KeyCode::Char('k') => {
                    if state.keyboard_selected_index > 0 {
                        state.keyboard_selected_index = state.keyboard_selected_index - 1;
                    }
                    WizardKeyOutcome::Continue
                },
                KeyCode::Down | KeyCode::Char('j') => {
                    let count = state.get_filtered_keyboards().len();
                    if count > 0 && state.keyboard_selected_index < count - 1 {
                        state.keyboard_selected_index = state.keyboard_selected_index + 1;
                    }
                    WizardKeyOutcome::Continue
                },
                KeyCode::Enter => WizardKeyOutcome::Advance(ExitRule::Never),
                KeyCode::Esc => {
                    state.keyboard_selection_focus = KeyboardSelectionFocus::FilterInput;
                    WizardKeyOutcome::Continue
                },
                _ => WizardKeyOutcome::Continue,
            },
        },
        WizardStep::LayoutSelection => match key.code {
            KeyCode::Up | KeyCode::Char('k') => {
                if state.layout_selected_index > 0 {
                    state.layout_selected_index = state.layout_selected_index - 1;
                }
                WizardKeyOutcome::Continue
            },
            KeyCode::Down | KeyCode::Char('j') => {
                let count = state.available_layouts.len();
                if count > 0 && state.layout_selected_index < count - 1 {
                    state.layout_selected_index = state.layout_selected_index + 1;
                }
                WizardKeyOutcome::Continue
            },
            KeyCode::Enter => WizardKeyOutcome::Advance(ExitRule::IfComplete),
            KeyCode::Esc => {
                if state.keyboard_change_only {
                    WizardKeyOutcome::Exit
                } else {
                    state.previous_step();
                    WizardKeyOutcome::Continue
                }
            },
            _ => WizardKeyOutcome::Continue,
        },
        WizardStep::Confirmation => match key.code {
            KeyCode::Enter => WizardKeyOutcome::Advance(ExitRule::Always),
            KeyCode::Esc => {
                state.previous_step();
                WizardKeyOutcome::Continue
            },
            _ => WizardKeyOutcome::Continue,
        },
    }
}

/// Whether the caller leaves the wizard after an advance under `rule`.
pub open spec fn exits_after(rule: ExitRule, complete: bool) -> bool {
    match rule {
        ExitRule::Never => false,
        ExitRule::IfComplete => complete,
        ExitRule::Always => true,
    }
}

/// Finishes an [`WizardKeyOutcome::Advance`]: advances with the outside
/// facts `probe` and says whether the caller leaves the wizard.
pub fn complete_advance(state: &mut OnboardingWizardState, probe: WizardProbe, rule: ExitRule) -> (exit: bool)
    requires
        can_advance(old(state)@),
        probe_fits(old(state)@, probe@),
    ensures
        final(state)@ == advanced(old(state)@, probe@),
        selections_in_range(old(state)@) ==> selections_in_range(final(state)@),
        exit == exits_after(rule, final(state)@.complete),
{
    state.next_step(probe);
    match rule {
        ExitRule::Never => false,
        ExitRule::IfComplete => state.is_complete,
        ExitRule::Always => true,
    }
}

/// The choice at an index is the option shown at that index: every index
/// below the number of options picks that option, and there is none
/// beyond.
pub proof fn law_welcome_choice_is_option(v: WizardView, index: int)
    ensures
        welcome_count(v) == welcome_options(v).len(),
        0 <= index < welcome_options(v).len() ==> welcome_choice_at(v, index) == Some(
            welcome_options(v)[index],
        ),
        !(0 <= index < welcome_options(v).len()) ==> welcome_choice_at(v, index) is None,
{
}

/// A keyboard is in [`matching`] exactly when it is in the list and its
/// lowercase name contains `needle`.
proof fn lemma_matching_members(kbs: Seq<Seq<char>>, needle: Seq<char>, kb: Seq<char>)
    ensures
        matching(kbs, needle).contains(kb) <==> kbs.contains(kb) && contains_seq(lowercase(kb), needle),
    decreases kbs.len(),
{
    if kbs.len() > 0 {
        let init = kbs.drop_last();
        lemma_matching_members(init, needle, kb);
        assert(init.push(kbs.last()) =~= kbs);
        let rest = matching(init, needle);
        if kbs.contains(kb) && kb != kbs.last() {
            let j = choose|j: int| 0 <= j < kbs.len() && kbs[j] == kb;
            assert(init[j] == kb);
        }
        if init.contains(kb) {
            let j = choose|j: int| 0 <= j < init.len() && init[j] == kb;
            assert(kbs[j] == kb);
        }
        if rest.push(kbs.last()).contains(kb) && kb != kbs.last() {
            let j = choose|j: int| 0 <= j < rest.len() + 1 && rest.push(kbs.last())[j] == kb;
            assert(rest[j] == kb);
        }
        if rest.contains(kb) {
            let j = choose|j: int| 0 <= j < rest.len() && rest[j] == kb;
            assert(rest.push(kbs.last())[j] == kb);
        }
        assert(rest.push(kbs.last())[rest.len() as int] == kbs.last());
        assert(kbs[kbs.len() - 1] == kbs.last());
    }
}

/// The keyboard filter finds the typed text anywhere in a name, ignoring
/// case: with an empty filter every keyboard is listed; otherwise a
/// keyboard is listed exactly when its lowercase name holds the lowercase
/// filter at some position.
pub proof fn law_filter_matches_anywhere(kbs: Seq<Seq<char>>, filter: Seq<char>, kb: Seq<char>)
    ensures
        filter.len() == 0 ==> filtered(kbs, filter) == kbs,
        filter.len() > 0 ==> (filtered(kbs, filter).contains(kb) <==> kbs.contains(kb) && exists|i: int|
            0 <= i && i + lowercase(filter).len() <= lowercase(kb).len() && #[trigger] lowercase(
                kb,
            ).subrange(i, i + lowercase(filter).len()) == lowercase(filter)),
{
    if filter.len() > 0 {
        lemma_matching_members(kbs, lowercase(filter), kb);
        let lc = lowercase(kb);
        let n = lowercase(filter).len();
        if contains_seq(lc, lowercase(filter)) {
            let i = choose|i: int| occurs_at(lc, lowercase(filter), i);
            assert(lc.subrange(i, i + n) == lowercase(filter));
        }
        if exists|i: int| 0 <= i && i + n <= lc.len() && #[trigger] lc.subrange(i, i + n) == lowercase(filter) {
            let i = choose|i: int| 0 <= i && i + n <= lc.len() && #[trigger] lc.subrange(i, i + n) == lowercase(filter);
            assert(occurs_at(lc, lowercase(filter), i));
        }
    }
}

/// A step that collects typed text.
pub open spec fn is_text_step(s: WizardStep) -> bool {
    s == WizardStep::QmkPath || s == WizardStep::LayoutName || s == WizardStep::OutputPath
}

/// Going back after a successful advance from a text step returns to that
/// step with the accepted text back in the input buffer.
pub proof fn law_back_restores_text(v: WizardView, p: ProbeView)
    requires
        probe_fits(v, p),
        is_text_step(v.step),
        advanced(v, p).step != v.step,
    ensures
        went_back(advanced(v, p)).step == v.step,
        went_back(advanced(v, p)).buffer == v.buffer,
{
}

/// In keyboard-only mode the wizard never leaves keyboard and layout
/// selection: no key and no advance takes it to another step.
pub proof fn law_keyboard_only_stays(v: WizardView, key: KeyEvent, p: ProbeView)
    requires
        v.kb_only,
        v.step == WizardStep::KeyboardSelection || v.step == WizardStep::LayoutSelection,
    ensures
        key_step(v, key).0.step == WizardStep::KeyboardSelection || key_step(v, key).0.step
            == WizardStep::LayoutSelection,
        advanced(v, p).step == WizardStep::KeyboardSelection || advanced(v, p).step
            == WizardStep::LayoutSelection,
{
}

/// An advance completes the wizard only from the review step, or from the
/// layout selection in keyboard-only mode.
pub proof fn law_completion_points(v: WizardView, p: ProbeView)
    requires
        !v.complete,
        advanced(v, p).complete,
    ensures
        v.step == WizardStep::Confirmation || (v.kb_only && v.step == WizardStep::LayoutSelection),
{
}

} // verus!
