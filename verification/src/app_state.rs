//! Dialog states held by the application: pending parameterized keycodes,
//! the template save dialog, the export filename dialog, selection modes and
//! the active popup component.

use vstd::prelude::*;

use crate::build_log::BuildLog;
use crate::category_manager::CategoryManager;
use crate::config_dialogs::LayoutPicker;
use crate::help_overlay::HelpOverlay;
use crate::models::Position;
use crate::text::{
    chars_of, concat3, join_seqs, join_strings, lowercase, split_chars, split_on, string_from_chars, to_lowercase, trim, trim_chars, views,
};

verus! {

/// Category picker context - what are we setting the category for?
#[derive(Debug, Clone, Copy, PartialEq, Eq, Structural)]
pub enum CategoryPickerContext {
    /// Setting category for individual key
    IndividualKey,
    /// Setting category for entire layer
    Layer,
    /// Setting category for multiple selected keys
    MultiKeySelection,
}

/// State for building parameterized keycodes through a multi-stage picker
/// flow.
#[derive(Debug, Clone)]
pub struct PendingKeycodeState {
    /// The keycode template being filled (e.g. `LT()`, `MT()`)
    pub keycode_template: Option<String>,
    /// Collected parameters in order
    pub params: Vec<String>,
}

impl PendingKeycodeState {
    /// Create a new empty pending keycode state
    pub fn new() -> (s: Self)
        ensures
            s.keycode_template is None,
            s.params@.len() == 0,
    {
        PendingKeycodeState { keycode_template: None, params: Vec::new() }
    }

    /// Reset the pending state
    pub fn reset(&mut self)
        ensures
            final(self).keycode_template is None,
            final(self).params@.len() == 0,
    {
        self.keycode_template = None;
        self.params = Vec::new();
    }

    /// Builds the final keycode `PREFIX(p1, p2, ...)` from the collected
    /// parameters, where `prefix` is the keycode database's prefix for the
    /// template. `None` when there is no template, no parameter, or no prefix.
    pub fn build_keycode(&self, prefix: Option<&str>) -> (k: Option<String>)
        ensures
            match (self.keycode_template, prefix) {
                (Some(_), Some(p)) if self.params@.len() > 0 => k is Some && k->0@ == p@ + "("@
                    + join_seqs(views(self.params@), ", "@) + ")"@,
                _ => k is None,
            },
    {
        match &self.keycode_template {
            Some(_) => {
                if self.params.len() > 0 {
                    match prefix {
                        Some(p) => {
                            let params_str = join_strings(&self.params, ", ");
                            let mut s = concat3(p, "(", params_str.as_str());
                            s.append(")");
                            Some(s)
                        },
                        None => None,
                    }
                } else {
                    None
                }
            },
            None => None,
        }
    }
}

impl Default for PendingKeycodeState {
    fn default() -> (s: Self)
        ensures
            s.keycode_template is None,
            s.params@.len() == 0,
    {
        Self::new()
    }
}

/// Origin for tap dance form flow
#[derive(Debug, Clone, Copy, PartialEq, Eq, Structural)]
pub enum TapDanceFormContext {
    /// Launched from tap dance editor list (manage library only)
    FromEditor,
    /// Launched from keycode picker to assign TD(name) to selected key
    FromKeycodePicker,
}

/// State for the export filename dialog.
#[derive(Debug, Clone)]
pub struct ExportFilenameDialogState {
    /// Export filename input
    pub filename: String,
}

/// An ASCII decimal digit.
pub open spec fn is_digit(c: char) -> bool {
    '0' <= c && c <= '9'
}

/// The number written by two decimal digits.
pub open spec fn two_digits(tens: char, ones: char) -> int {
    (tens as int - '0' as int) * 10 + (ones as int - '0' as int)
}

/// A year as `%Y` writes it: an optional sign, then at least four digits.
pub open spec fn year_shape(y: Seq<char>) -> bool {
    let digits = if y.len() > 0 && (y[0] == '+' || y[0] == '-') {
        y.subrange(1, y.len() as int)
    } else {
        y
    };
    &&& digits.len() >= 4
    &&& forall|i: int| 0 <= i < digits.len() ==> is_digit(#[trigger] digits[i])
}

/// A date as `%Y-%m-%d` writes it: the year, a dash, the month as two digits
/// from 01 to 12, a dash, and the day as two digits from 01 to 31.
pub open spec fn iso_date_shape(s: Seq<char>) -> bool {
    let n = s.len() as int;
    &&& n >= 10
    &&& year_shape(s.subrange(0, n - 6))
    &&& s[n - 6] == '-'
    &&& is_digit(s[n - 5]) && is_digit(s[n - 4])
    &&& 1 <= two_digits(s[n - 5], s[n - 4]) <= 12
    &&& s[n - 3] == '-'
    &&& is_digit(s[n - 2]) && is_digit(s[n - 1])
    &&& 1 <= two_digits(s[n - 2], s[n - 1]) <= 31
}

/// Today's date in the local time zone as `YYYY-MM-DD`
/// (`chrono::Local::now().format("%Y-%m-%d")`). Which date it is depends on
/// the clock and the time zone, so only its shape is stated: chrono writes
/// `%Y` as the year zero-padded to four digits, with a sign outside
/// 0001..=9999, and `%m` and `%d` as the month (01..=12) and the day
/// (01..=31) in two digits.
#[verifier::external_body]
fn today_iso_date() -> (d: String)
    ensures
        iso_date_shape(d@),
{
    chrono::Local::now().format("%Y-%m-%d").to_string()
}

impl ExportFilenameDialogState {
    /// A dialog whose default filename is `{layout_name}_export_{date}.md`.
    pub fn with_date(layout_name: &str, date: &str) -> (s: Self)
        ensures
            s.filename@ == layout_name@ + "_export_"@ + date@ + ".md"@,
    {
        let mut f = concat3(layout_name, "_export_", date);
        f.append(".md");
        ExportFilenameDialogState { filename: f }
    }

    /// A dialog whose default filename is `{layout_name}_export_{today}.md`,
    /// with today's local date.
    pub fn new(layout_name: &str) -> (s: Self)
        ensures
            exists|date: Seq<char>|
                iso_date_shape(date) && s.filename@ == layout_name@ + "_export_"@ + date + ".md"@,
    {
        let date = today_iso_date();
        let s = Self::with_date(layout_name, date.as_str());
        assert(iso_date_shape(date@) && s.filename@ == layout_name@ + "_export_"@ + date@ + ".md"@);
        s
    }
}

impl Default for ExportFilenameDialogState {
    fn default() -> (s: Self)
        ensures
            exists|date: Seq<char>|
                iso_date_shape(date) && s.filename@ == "layout"@ + "_export_"@ + date + ".md"@,
    {
        Self::new("layout")
    }
}

/// Fields in the template save dialog.
#[derive(Debug, Clone, Copy, PartialEq, Eq, Structural)]
pub enum TemplateSaveField {
    /// Template name field
    Name,
    /// Template description field
    Description,
    /// Template author field
    Author,
    /// Template tags field
    Tags,
}

/// The field after `f` in the cycle Name, Description, Author, Tags.
pub open spec fn next_field_of(f: TemplateSaveField) -> TemplateSaveField {
    match f {
        TemplateSaveField::Name => TemplateSaveField::Description,
        TemplateSaveField::Description => TemplateSaveField::Author,
        TemplateSaveField::Author => TemplateSaveField::Tags,
        TemplateSaveField::Tags => TemplateSaveField::Name,
    }
}

/// The field before `f` in the cycle Name, Description, Author, Tags.
pub open spec fn previous_field_of(f: TemplateSaveField) -> TemplateSaveField {
    match f {
        TemplateSaveField::Name => TemplateSaveField::Tags,
        TemplateSaveField::Description => TemplateSaveField::Name,
        TemplateSaveField::Author => TemplateSaveField::Description,
        TemplateSaveField::Tags => TemplateSaveField::Author,
    }
}

/// The tags of comma-separated pieces: each piece trimmed and lowercased,
/// empty results dropped.
pub open spec fn clean_tags(pieces: Seq<Seq<char>>) -> Seq<Seq<char>>
    decreases pieces.len(),
{
    if pieces.len() == 0 {
        Seq::empty()
    } else {
        let rest = clean_tags(pieces.drop_last());
        let t = lowercase(trim(pieces.last()));
        if t.len() > 0 {
            rest.push(t)
        } else {
            rest
        }
    }
}

/// Tags written as comma-separated input.
pub open spec fn tags_of(input: Seq<char>) -> Seq<Seq<char>> {
    clean_tags(split_on(input, ','))
}

/// Value of field `f` of the dialog.
pub open spec fn field_value(s: TemplateSaveDialogState, f: TemplateSaveField) -> String {
    match f {
        TemplateSaveField::Name => s.name,
        TemplateSaveField::Description => s.description,
        TemplateSaveField::Author => s.author,
        TemplateSaveField::Tags => s.tags_input,
    }
}

/// The dialog with field `f` set to `v`.
pub open spec fn with_field(s: TemplateSaveDialogState, f: TemplateSaveField, v: String) -> TemplateSaveDialogState {
    match f {
        TemplateSaveField::Name => TemplateSaveDialogState { name: v, ..s },
        TemplateSaveField::Description => TemplateSaveDialogState { description: v, ..s },
        TemplateSaveField::Author => TemplateSaveDialogState { author: v, ..s },
        TemplateSaveField::Tags => TemplateSaveDialogState { tags_input: v, ..s },
    }
}

/// State for the template save dialog.
#[derive(Debug, Clone)]
pub struct TemplateSaveDialogState {
    /// Current input field
    pub active_field: TemplateSaveField,
    /// Template name
    pub name: String,
    /// Template description
    pub description: String,
    /// Template author
    pub author: String,
    /// Template tags (comma-separated input)
    pub tags_input: String,
}

impl TemplateSaveDialogState {
    /// A dialog pre-filled with the layout's name, on the name field.
    pub fn new(layout_name: String) -> (s: Self)
        ensures
            s.active_field == TemplateSaveField::Name,
            s.name == layout_name,
            s.description@.len() == 0,
            s.author@.len() == 0,
            s.tags_input@.len() == 0,
    {
        TemplateSaveDialogState {
            active_field: TemplateSaveField::Name,
            name: layout_name,
            description: String::new(),
            author: String::new(),
            tags_input: String::new(),
        }
    }

    /// The active field's input string, for editing.
    pub fn get_active_field_mut(&mut self) -> (f: &mut String)
        ensures
            *f == field_value(*old(self), old(self).active_field),
            *final(self) == with_field(*old(self), old(self).active_field, *final(f)),
    {
        match self.active_field {
            TemplateSaveField::Name => &mut self.name,
            TemplateSaveField::Description => &mut self.description,
            TemplateSaveField::Author => &mut self.author,
            TemplateSaveField::Tags => &mut self.tags_input,
        }
    }

    /// Move to the next field (wrapping).
    pub fn next_field(&mut self)
        ensures
            final(self).active_field == next_field_of(old(self).active_field),
            final(self).name == old(self).name,
            final(self).description == old(self).description,
            final(self).author == old(self).author,
            final(self).tags_input == old(self).tags_input,
    {
        self.active_field = match self.active_field {
            TemplateSaveField::Name => TemplateSaveField::Description,
            TemplateSaveField::Description => TemplateSaveField::Author,
            TemplateSaveField::Author => TemplateSaveField::Tags,
            TemplateSaveField::Tags => TemplateSaveField::Name,
        };
    }

    /// Move to the previous field (wrapping).
    pub fn previous_field(&mut self)
        ensures
            final(self).active_field == previous_field_of(old(self).active_field),
            final(self).name == old(self).name,
            final(self).description == old(self).description,
            final(self).author == old(self).author,
            final(self).tags_input == old(self).tags_input,
    {
        self.active_field = match self.active_field {
            TemplateSaveField::Name => TemplateSaveField::Tags,
            TemplateSaveField::Description => TemplateSaveField::Name,
            TemplateSaveField::Author => TemplateSaveField::Description,
            TemplateSaveField::Tags => TemplateSaveField::Author,
        };
    }

    /// The tags of the comma-separated input: each piece trimmed and
    /// lowercased, empty ones dropped.
    pub fn parse_tags(&self) -> (tags: Vec<String>)
        ensures
            views(tags@) == tags_of(self.tags_input@),
    {
        let cs = chars_of(self.tags_input.as_str());
        let pieces = split_chars(cs.as_slice(), ',');
        let ghost pv = pieces@.map_values(|v: Vec<char>| v@);
        let mut tags: Vec<String> = Vec::new();
        let mut i: usize = 0;
        while i < pieces.len()
            invariant
                pv == pieces@.map_values(|v: Vec<char>| v@),
                pv == split_on(cs@, ','),
                cs@ == self.tags_input@,
                i <= pieces@.len(),
                views(tags@) == clean_tags(pv.take(i as int)),
            decreases pieces@.len() - i,
        {
            let trimmed = trim_chars(pieces[i].as_slice());
            let ts = string_from_chars(trimmed.as_slice());
            let lower = to_lowercase(ts.as_str());
            assert(pv.take(i as int + 1).drop_last() =~= pv.take(i as int));
            assert(pv[i as int] == pieces@[i as int]@);
            let ghost prev = tags@;
            if lower.as_str().unicode_len() > 0 {
                tags.push(lower);
                assert(views(tags@) =~= views(prev).push(lowercase(trim(pv[i as int]))));
            }
            i = i + 1;
        }
        assert(pv.take(pieces@.len() as int) =~= pv);
        tags
    }
}

impl Default for TemplateSaveDialogState {
    fn default() -> (s: Self)
        ensures
            s.active_field == TemplateSaveField::Name,
            s.name@ == "Untitled Template"@,
            s.description@.len() == 0,
            s.author@.len() == 0,
            s.tags_input@.len() == 0,
    {
        Self::new(String::from_str("Untitled Template"))
    }
}

/// Cycling the fields forward then back (or back then forward) returns to
/// the same field, and four steps make a full cycle.
pub proof fn law_field_cycle(f: TemplateSaveField)
    ensures
        previous_field_of(next_field_of(f)) == f,
        next_field_of(previous_field_of(f)) == f,
        next_field_of(next_field_of(next_field_of(next_field_of(f)))) == f,
{
}

/// Parsed tags are never empty strings.
pub proof fn law_tags_nonempty(pieces: Seq<Seq<char>>)
    ensures
        forall|k: int| 0 <= k < clean_tags(pieces).len() ==> (#[trigger] clean_tags(pieces)[k]).len()
            > 0,
    decreases pieces.len(),
{
    if pieces.len() > 0 {
        law_tags_nonempty(pieces.drop_last());
        let rest = clean_tags(pieces.drop_last());
        assert forall|k: int| 0 <= k < clean_tags(pieces).len() implies (#[trigger] clean_tags(
            pieces,
        )[k]).len() > 0 by {
            if k < rest.len() {
                assert(clean_tags(pieces)[k] == rest[k]);
            }
        }
    }
}

/// Selection mode for multi-key operations
#[derive(Debug, Clone, Copy, PartialEq, Eq, Structural)]
pub enum SelectionMode {
    /// Normal selection - adding/removing individual keys
    Normal,
    /// Rectangle selection - selecting a block of keys
    Rectangle {
        /// Starting corner of the rectangle
        start: Position,
    },
    /// Swap mode - select two keys to swap all properties
    Swap {
        /// First key selected for swap
        first: Position,
    },
}

/// The popup component currently active (only one at a time).
#[derive(Debug)]
pub enum ActiveComponent {
    /// Category manager component
    CategoryManager(CategoryManager),
    /// Build log component
    BuildLog(BuildLog),
    /// Help overlay component
    HelpOverlay(HelpOverlay),
    /// Layout variant picker component
    LayoutVariantPicker(LayoutPicker),
}

} // verus!
