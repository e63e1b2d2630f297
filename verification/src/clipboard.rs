//! Clipboard for key copy/cut/paste operations.
//!
//! Holds either one copied key or a group of keys with positions relative to
//! an anchor, remembers which keys were cut (for dimming until the paste), and
//! keeps the state needed to undo the last paste.

use vstd::prelude::*;

use crate::models::{Position, RgbColor};
use crate::text::{concat2, decimal, is_suffix, usize_to_string};

verus! {

/// Content stored in the clipboard (key data without position).
#[derive(Debug, Clone)]
pub struct ClipboardContent {
    /// The QMK keycode string
    pub keycode: String,
    /// Individual key color override (if any)
    pub color_override: Option<RgbColor>,
    /// Category assignment (if any)
    pub category_id: Option<String>,
}

/// Abstract view of [`ClipboardContent`].
pub struct ContentModel {
    /// Keycode characters
    pub keycode: Seq<char>,
    /// Color override
    pub color_override: Option<RgbColor>,
    /// Category id characters
    pub category_id: Option<Seq<char>>,
}

/// View of an optional string.
pub open spec fn opt_view(s: Option<String>) -> Option<Seq<char>> {
    match s {
        Some(v) => Some(v@),
        None => None,
    }
}

impl View for ClipboardContent {
    type V = ContentModel;

    open spec fn view(&self) -> ContentModel {
        ContentModel {
            keycode: self.keycode@,
            color_override: self.color_override,
            category_id: opt_view(self.category_id),
        }
    }
}

/// Views of positioned keys.
pub open spec fn keys_view(keys: Seq<(Position, ClipboardContent)>) -> Seq<(Position, ContentModel)> {
    keys.map_values(|k: (Position, ClipboardContent)| (k.0, k.1@))
}

/// Content for multi-key clipboard operations (with relative positions).
#[derive(Debug, Clone)]
pub struct MultiKeyContent {
    /// Keys with their relative positions from the anchor point
    pub keys: Vec<(Position, ClipboardContent)>,
    /// The anchor position (first selected key, used as reference)
    pub anchor: Position,
}

/// Abstract view of [`MultiKeyContent`].
pub struct MultiModel {
    /// Keys and positions
    pub keys: Seq<(Position, ContentModel)>,
    /// Anchor
    pub anchor: Position,
}

impl View for MultiKeyContent {
    type V = MultiModel;

    open spec fn view(&self) -> MultiModel {
        MultiModel { keys: keys_view(self.keys@), anchor: self.anchor }
    }
}

/// State saved for undo operation
#[derive(Debug, Clone)]
pub struct UndoState {
    /// Layer index where the change was made
    pub layer_index: usize,
    /// Keys that were modified (position + original content)
    pub original_keys: Vec<(Position, ClipboardContent)>,
    /// Description of the operation (for status message)
    pub description: String,
}

/// Abstract view of [`UndoState`].
pub struct UndoModel {
    /// Layer index
    pub layer_index: usize,
    /// Saved keys
    pub original_keys: Seq<(Position, ContentModel)>,
    /// Description characters
    pub description: Seq<char>,
}

impl View for UndoState {
    type V = UndoModel;

    open spec fn view(&self) -> UndoModel {
        UndoModel {
            layer_index: self.layer_index,
            original_keys: keys_view(self.original_keys@),
            description: self.description@,
        }
    }
}

/// Abstract state of the clipboard.
pub struct ClipboardModel {
    /// Single-key content
    pub content: Option<ContentModel>,
    /// Multi-key content
    pub multi: Option<MultiModel>,
    /// Source of a single-key cut
    pub cut_source: Option<(usize, Position)>,
    /// Sources of a multi-key cut
    pub multi_cut_sources: Seq<(usize, Position)>,
    /// Saved undo state
    pub undo: Option<UndoModel>,
}

impl ClipboardModel {
    /// The empty clipboard.
    pub open spec fn empty() -> Self {
        ClipboardModel {
            content: None,
            multi: None,
            cut_source: None,
            multi_cut_sources: Seq::empty(),
            undo: None,
        }
    }

    /// The clipboard holds at most one kind of content, and a pending cut
    /// always has the content it will paste.
    pub open spec fn consistent(self) -> bool {
        &&& !(self.content is Some && self.multi is Some)
        &&& self.cut_source is Some ==> self.content is Some
        &&& self.multi_cut_sources.len() > 0 ==> self.multi is Some
    }

    /// There is something to paste.
    pub open spec fn has_content(self) -> bool {
        self.content is Some || self.multi is Some
    }

    /// A cut is pending.
    pub open spec fn is_cut(self) -> bool {
        self.cut_source is Some || self.multi_cut_sources.len() > 0
    }

    /// Whether the key at `(layer, pos)` is the source of a pending cut.
    pub open spec fn is_cut_source(self, layer: usize, pos: Position) -> bool {
        self.cut_source == Some((layer, pos)) || self.multi_cut_sources.contains((layer, pos))
    }

    /// State after copying one key.
    pub open spec fn after_copy(self, c: ContentModel) -> Self {
        ClipboardModel {
            content: Some(c),
            multi: None,
            cut_source: None,
            multi_cut_sources: Seq::empty(),
            undo: self.undo,
        }
    }

    /// State after cutting one key from `(layer, pos)`.
    pub open spec fn after_cut(self, c: ContentModel, layer: usize, pos: Position) -> Self {
        ClipboardModel {
            content: Some(c),
            multi: None,
            cut_source: Some((layer, pos)),
            multi_cut_sources: Seq::empty(),
            undo: self.undo,
        }
    }

    /// State after copying several keys.
    pub open spec fn after_copy_multi(self, m: MultiModel) -> Self {
        ClipboardModel {
            content: None,
            multi: Some(m),
            cut_source: None,
            multi_cut_sources: Seq::empty(),
            undo: self.undo,
        }
    }

    /// State after cutting several keys from `positions` on `layer`.
    pub open spec fn after_cut_multi(self, m: MultiModel, layer: usize, positions: Seq<Position>) -> Self {
        ClipboardModel {
            content: None,
            multi: Some(m),
            cut_source: None,
            multi_cut_sources: positions.map_values(|p: Position| (layer, p)),
            undo: self.undo,
        }
    }

    /// State after the cut marks are dropped (paste done, or cut cancelled).
    pub open spec fn after_clear_cut(self) -> Self {
        ClipboardModel { cut_source: None, multi_cut_sources: Seq::empty(), ..self }
    }

    /// State after the clipboard is emptied (undo state is kept).
    pub open spec fn after_clear(self) -> Self {
        ClipboardModel { undo: self.undo, ..ClipboardModel::empty() }
    }

    /// State after an undo point is saved.
    pub open spec fn after_save_undo(self, u: UndoModel) -> Self {
        ClipboardModel { undo: Some(u), ..self }
    }

    /// Status-bar preview text.
    pub open spec fn preview(self) -> Option<Seq<char>> {
        let cut_indicator = if self.is_cut() { " (cut)"@ } else { Seq::<char>::empty() };
        match self.content {
            Some(c) => Some(c.keycode + cut_indicator),
            None => match self.multi {
                Some(m) => Some(decimal(m.keys.len()) + " keys"@ + cut_indicator),
                None => None,
            },
        }
    }
}

/// Clipboard state for key operations.
#[derive(Debug)]
pub struct KeyClipboard {
    /// Stored key data for paste operation (single key)
    content: Option<ClipboardContent>,
    /// Stored multi-key data for paste operation
    multi_content: Option<MultiKeyContent>,
    /// Source position for cut operation (layer_index, position)
    cut_source: Option<(usize, Position)>,
    /// Multiple cut sources for multi-key cut
    multi_cut_sources: Vec<(usize, Position)>,
    /// Undo stack (most recent operation)
    undo_state: Option<UndoState>,
}

/// View of an optional key content.
pub open spec fn opt_content_view(c: Option<ClipboardContent>) -> Option<ContentModel> {
    match c {
        Some(v) => Some(v@),
        None => None,
    }
}

/// View of optional multi-key content.
pub open spec fn opt_multi_view(m: Option<MultiKeyContent>) -> Option<MultiModel> {
    match m {
        Some(v) => Some(v@),
        None => None,
    }
}

/// View of an optional undo state.
pub open spec fn opt_undo_view(u: Option<UndoState>) -> Option<UndoModel> {
    match u {
        Some(v) => Some(v@),
        None => None,
    }
}

impl KeyClipboard {
    /// Every clipboard is consistent (see [`ClipboardModel::consistent`]).
    #[verifier::type_invariant]
    spec fn inv(&self) -> bool {
        &&& !(self.content is Some && self.multi_content is Some)
        &&& self.cut_source is Some ==> self.content is Some
        &&& self.multi_cut_sources@.len() > 0 ==> self.multi_content is Some
    }
}

impl Clone for KeyClipboard {
    fn clone(&self) -> (c: Self)
        ensures
            c@.content is Some == self@.content is Some,
            c@.multi is Some == self@.multi is Some,
            c@.cut_source == self@.cut_source,
            c@.multi_cut_sources.len() == self@.multi_cut_sources.len(),
            c@.undo is Some == self@.undo is Some,
    {
        proof {
            use_type_invariant(self);
        }
        let content = match &self.content {
            Some(v) => Some(v.clone()),
            None => None,
        };
        let multi_content = match &self.multi_content {
            Some(v) => Some(v.clone()),
            None => None,
        };
        let undo_state = match &self.undo_state {
            Some(v) => Some(v.clone()),
            None => None,
        };
        KeyClipboard {
            content,
            multi_content,
            cut_source: self.cut_source,
            multi_cut_sources: self.multi_cut_sources.clone(),
            undo_state,
        }
    }
}

impl View for KeyClipboard {
    type V = ClipboardModel;

    closed spec fn view(&self) -> ClipboardModel {
        ClipboardModel {
            content: opt_content_view(self.content),
            multi: opt_multi_view(self.multi_content),
            cut_source: self.cut_source,
            multi_cut_sources: self.multi_cut_sources@,
            undo: opt_undo_view(self.undo_state),
        }
    }
}

/// Builds a clipboard entry from a keycode and its extras.
fn make_content(keycode: &str, color_override: Option<RgbColor>, category_id: Option<&str>) -> (c:
    ClipboardContent)
    ensures
        c@.keycode == keycode@,
        c@.color_override == color_override,
        c@.category_id == (match category_id {
            Some(s) => Some(s@),
            None => None::<Seq<char>>,
        }),
{
    let category = match category_id {
        Some(s) => Some(String::from_str(s)),
        None => None,
    };
    ClipboardContent { keycode: String::from_str(keycode), color_override, category_id: category }
}

impl KeyClipboard {
    /// Create a new empty clipboard.
    pub fn new() -> (c: Self)
        ensures
            c@ == ClipboardModel::empty(),
    {
        KeyClipboard {
            content: None,
            multi_content: None,
            cut_source: None,
            multi_cut_sources: Vec::new(),
            undo_state: None,
        }
    }

    /// Copy a key's data to the clipboard.
    ///
    /// Returns a description of what was copied for status message.
    pub fn copy(&mut self, keycode: &str, color_override: Option<RgbColor>, category_id: Option<
        &str,
    >) -> (msg: String)
        ensures
            final(self)@ == old(self)@.after_copy(
                ContentModel {
                    keycode: keycode@,
                    color_override,
                    category_id: match category_id {
                        Some(s) => Some(s@),
                        None => None::<Seq<char>>,
                    },
                },
            ),
            msg@ == "Copied: "@ + keycode@ + (if color_override is Some || category_id is Some {
                " (with color/category)"@
            } else {
                Seq::<char>::empty()
            }),
    {
        proof {
            use_type_invariant(&*self);
        }
        let has_extras = color_override.is_some() || category_id.is_some();
        let c = make_content(keycode, color_override, category_id);
        self.cut_source = None;
        self.multi_cut_sources = Vec::new();
        self.multi_content = None;
        self.content = Some(c);
        assert(self@.content == Some(c@));
        assert(self@.multi_cut_sources =~= Seq::<(usize, Position)>::empty());
        let mut msg = concat2("Copied: ", keycode);
        if has_extras {
            msg.append(" (with color/category)");
        } else {
            assert(msg@ =~= "Copied: "@ + keycode@ + Seq::<char>::empty());
        }
        msg
    }

    /// Cut a key's data to the clipboard.
    ///
    /// The source key is NOT cleared yet - that happens on paste.
    pub fn cut(
        &mut self,
        keycode: &str,
        color_override: Option<RgbColor>,
        category_id: Option<&str>,
        layer_index: usize,
        position: Position,
    ) -> (msg: String)
        ensures
            final(self)@ == old(self)@.after_cut(
                ContentModel {
                    keycode: keycode@,
                    color_override,
                    category_id: match category_id {
                        Some(s) => Some(s@),
                        None => None::<Seq<char>>,
                    },
                },
                layer_index,
                position,
            ),
            msg@ == "Cut: "@ + keycode@ + " - press p to paste, Esc to cancel"@,
    {
        proof {
            use_type_invariant(&*self);
        }
        let c = make_content(keycode, color_override, category_id);
        self.multi_cut_sources = Vec::new();
        self.multi_content = None;
        self.content = Some(c);
        self.cut_source = Some((layer_index, position));
        assert(self@.multi_cut_sources =~= Seq::<(usize, Position)>::empty());
        let mut msg = concat2("Cut: ", keycode);
        msg.append(" - press p to paste, Esc to cancel");
        msg
    }

    /// Copy multiple keys to the clipboard.
    ///
    /// Keys are stored with positions relative to the anchor (first key).
    pub fn copy_multi(&mut self, keys: Vec<(Position, ClipboardContent)>, anchor: Position) -> (msg:
        String)
        ensures
            final(self)@ == old(self)@.after_copy_multi(
                MultiModel { keys: keys_view(keys@), anchor },
            ),
            msg@ == "Copied "@ + decimal(keys@.len()) + " keys"@,
    {
        proof {
            use_type_invariant(&*self);
        }
        let count = keys.len();
        self.cut_source = None;
        self.content = None;
        self.multi_cut_sources = Vec::new();
        self.multi_content = Some(MultiKeyContent { keys, anchor });
        assert(self@.multi_cut_sources =~= Seq::<(usize, Position)>::empty());
        let num = usize_to_string(count);
        let mut msg = concat2("Copied ", num.as_str());
        msg.append(" keys");
        msg
    }

    /// Cut multiple keys to the clipboard.
    ///
    /// Keys are stored with positions relative to the anchor.
    pub fn cut_multi(
        &mut self,
        keys: Vec<(Position, ClipboardContent)>,
        anchor: Position,
        layer_index: usize,
        positions: Vec<Position>,
    ) -> (msg: String)
        ensures
            final(self)@ == old(self)@.after_cut_multi(
                MultiModel { keys: keys_view(keys@), anchor },
                layer_index,
                positions@,
            ),
            msg@ == "Cut "@ + decimal(keys@.len()) + " keys - press p to paste, Esc to cancel"@,
    {
        proof {
            use_type_invariant(&*self);
        }
        let count = keys.len();
        let mut sources: Vec<(usize, Position)> = Vec::new();
        let mut i: usize = 0;
        while i < positions.len()
            invariant
                i <= positions.len(),
                sources@ == positions@.take(i as int).map_values(|p: Position| (layer_index, p)),
            decreases positions.len() - i,
        {
            sources.push((layer_index, positions[i]));
            assert(positions@.take(i as int + 1).map_values(|p: Position| (layer_index, p))
                =~= positions@.take(i as int).map_values(|p: Position| (layer_index, p)).push(
                (layer_index, positions@[i as int]),
            ));
            i = i + 1;
        }
        assert(positions@.take(positions.len() as int) =~= positions@);
        self.cut_source = None;
        self.content = None;
        self.multi_content = Some(MultiKeyContent { keys, anchor });
        self.multi_cut_sources = sources;
        let num = usize_to_string(count);
        let mut msg = concat2("Cut ", num.as_str());
        msg.append(" keys - press p to paste, Esc to cancel");
        msg
    }

    /// Check if there is content to paste (single or multi).
    pub fn has_content(&self) -> (b: bool)
        ensures
            self@.consistent(),
            b == self@.has_content(),
    {
        proof {
            use_type_invariant(self);
        }
        self.content.is_some() || self.multi_content.is_some()
    }

    /// Check if this is a single-key clipboard.
    pub fn is_single(&self) -> (b: bool)
        ensures
            self@.consistent(),
            b == (self@.content is Some),
    {
        proof {
            use_type_invariant(self);
        }
        self.content.is_some()
    }

    /// Check if this is a multi-key clipboard.
    pub fn is_multi(&self) -> (b: bool)
        ensures
            self@.consistent(),
            b == (self@.multi is Some),
    {
        proof {
            use_type_invariant(self);
        }
        self.multi_content.is_some()
    }

    /// Check if this is a cut operation (vs copy).
    pub fn is_cut(&self) -> (b: bool)
        ensures
            self@.consistent(),
            b == self@.is_cut(),
    {
        proof {
            use_type_invariant(self);
        }
        self.cut_source.is_some() || self.multi_cut_sources.len() > 0
    }

    /// Get the clipboard content for pasting (single key).
    pub fn get_content(&self) -> (c: Option<&ClipboardContent>)
        ensures
            self@.consistent(),
            opt_content_view(match c {
                Some(r) => Some(*r),
                None => None,
            }) == self@.content,
    {
        proof {
            use_type_invariant(self);
        }
        self.content.as_ref()
    }

    /// Get the multi-key clipboard content for pasting.
    pub fn get_multi_content(&self) -> (m: Option<&MultiKeyContent>)
        ensures
            self@.consistent(),
            opt_multi_view(match m {
                Some(r) => Some(*r),
                None => None,
            }) == self@.multi,
    {
        proof {
            use_type_invariant(self);
        }
        self.multi_content.as_ref()
    }

    /// Get the cut source position (if this was a single-key cut operation).
    pub fn get_cut_source(&self) -> (s: Option<(usize, Position)>)
        ensures
            self@.consistent(),
            s == self@.cut_source,
    {
        proof {
            use_type_invariant(self);
        }
        self.cut_source
    }

    /// Get the multi-key cut sources.
    pub fn get_multi_cut_sources(&self) -> (s: &[(usize, Position)])
        ensures
            self@.consistent(),
            s@ == self@.multi_cut_sources,
    {
        proof {
            use_type_invariant(self);
        }
        self.multi_cut_sources.as_slice()
    }

    /// Check if a given position is a cut source (for visual feedback).
    pub fn is_cut_source(&self, layer_index: usize, position: Position) -> (b: bool)
        ensures
            b == self@.is_cut_source(layer_index, position),
    {
        match self.cut_source {
            Some((l, p)) => {
                if l == layer_index && p.row == position.row && p.col == position.col {
                    return true;
                }
            },
            None => {},
        }
        let mut i: usize = 0;
        while i < self.multi_cut_sources.len()
            invariant
                i <= self.multi_cut_sources@.len(),
                forall|j: int| 0 <= j < i ==> self.multi_cut_sources@[j] != (layer_index, position),
            decreases self.multi_cut_sources@.len() - i,
        {
            let (l, p) = self.multi_cut_sources[i];
            if l == layer_index && p.row == position.row && p.col == position.col {
                assert(self.multi_cut_sources@[i as int] == (layer_index, position));
                return true;
            }
            i = i + 1;
        }
        false
    }

    /// Clear the cut source after paste.
    /// The clipboard content is kept so the same data can be pasted again.
    pub fn clear_cut_source(&mut self)
        ensures
            final(self)@ == old(self)@.after_clear_cut(),
    {
        proof {
            use_type_invariant(&*self);
        }
        self.cut_source = None;
        self.multi_cut_sources = Vec::new();
        assert(self@.multi_cut_sources =~= Seq::<(usize, Position)>::empty());
    }

    /// Cancel cut operation (Esc pressed).
    /// Clears cut source but keeps clipboard content for potential paste.
    pub fn cancel_cut(&mut self)
        ensures
            final(self)@ == old(self)@.after_clear_cut(),
    {
        proof {
            use_type_invariant(&*self);
        }
        self.cut_source = None;
        self.multi_cut_sources = Vec::new();
        assert(self@.multi_cut_sources =~= Seq::<(usize, Position)>::empty());
    }

    /// Clear the entire clipboard.
    pub fn clear(&mut self)
        ensures
            final(self)@ == old(self)@.after_clear(),
    {
        proof {
            use_type_invariant(&*self);
        }
        self.cut_source = None;
        self.multi_cut_sources = Vec::new();
        self.content = None;
        self.multi_content = None;
        assert(self@.multi_cut_sources =~= Seq::<(usize, Position)>::empty());
    }

    /// Get a preview string for status bar display.
    pub fn get_preview(&self) -> (p: Option<String>)
        ensures
            self@.consistent(),
            match p {
                Some(s) => self@.preview() == Some(s@),
                None => self@.preview() is None,
            },
    {
        proof {
            use_type_invariant(self);
        }
        let cut = self.is_cut();
        match &self.content {
            Some(content) => {
                let mut s = String::from_str(content.keycode.as_str());
                if cut {
                    s.append(" (cut)");
                } else {
                    assert(s@ =~= content.keycode@ + Seq::<char>::empty());
                }
                Some(s)
            },
            None => match &self.multi_content {
                Some(multi) => {
                    let mut s = usize_to_string(multi.keys.len());
                    s.append(" keys");
                    if cut {
                        s.append(" (cut)");
                    } else {
                        assert(s@ =~= s@ + Seq::<char>::empty());
                    }
                    assert(keys_view(multi.keys@).len() == multi.keys@.len());
                    Some(s)
                },
                None => None,
            },
        }
    }

    /// Save undo state before making changes.
    pub fn save_undo(
        &mut self,
        layer_index: usize,
        keys: Vec<(Position, ClipboardContent)>,
        description: String,
    )
        ensures
            final(self)@ == old(self)@.after_save_undo(
                UndoModel { layer_index, original_keys: keys_view(keys@), description: description@ },
            ),
    {
        proof {
            use_type_invariant(&*self);
        }
        self.undo_state = Some(UndoState { layer_index, original_keys: keys, description });
    }

    /// Get the undo state (if any).
    pub fn get_undo(&self) -> (u: Option<&UndoState>)
        ensures
            opt_undo_view(match u {
                Some(r) => Some(*r),
                None => None,
            }) == self@.undo,
    {
        self.undo_state.as_ref()
    }

    /// Take the undo state (consuming it).
    pub fn take_undo(&mut self) -> (u: Option<UndoState>)
        ensures
            opt_undo_view(u) == old(self)@.undo,
            final(self)@ == (ClipboardModel { undo: None, ..old(self)@ }),
    {
        proof {
            use_type_invariant(&*self);
        }
        let mut u: Option<UndoState> = None;
        std::mem::swap(&mut u, &mut self.undo_state);
        u
    }

    /// Check if undo is available.
    pub fn can_undo(&self) -> (b: bool)
        ensures
            b == (self@.undo is Some),
    {
        self.undo_state.is_some()
    }
}

impl Default for KeyClipboard {
    fn default() -> (c: Self)
        ensures
            c@ == ClipboardModel::empty(),
    {
        KeyClipboard::new()
    }
}

/// Every clipboard operation keeps the clipboard consistent: the empty
/// clipboard is consistent, and copy, cut, multi-key copy and cut, dropping the
/// cut marks, clearing and saving an undo point all map a consistent state to
/// a consistent state.
pub proof fn law_operations_keep_consistency(
    m: ClipboardModel,
    c: ContentModel,
    mm: MultiModel,
    layer: usize,
    pos: Position,
    positions: Seq<Position>,
    u: UndoModel,
)
    requires
        m.consistent(),
    ensures
        ClipboardModel::empty().consistent(),
        m.after_copy(c).consistent(),
        m.after_cut(c, layer, pos).consistent(),
        m.after_copy_multi(mm).consistent(),
        m.after_cut_multi(mm, layer, positions).consistent(),
        m.after_clear_cut().consistent(),
        m.after_clear().consistent(),
        m.after_save_undo(u).consistent(),
{
}

/// What is copied or cut is what the clipboard then offers for pasting, and a
/// single-key copy or cut replaces any multi-key content (and vice versa).
pub proof fn law_paste_gives_back_copied(
    m: ClipboardModel,
    c: ContentModel,
    mm: MultiModel,
    layer: usize,
    pos: Position,
    positions: Seq<Position>,
)
    ensures
        m.after_copy(c).content == Some(c) && m.after_copy(c).multi is None,
        m.after_cut(c, layer, pos).content == Some(c) && m.after_cut(c, layer, pos).multi is None,
        m.after_copy_multi(mm).multi == Some(mm) && m.after_copy_multi(mm).content is None,
        m.after_cut_multi(mm, layer, positions).multi == Some(mm),
        m.after_cut_multi(mm, layer, positions).content is None,
{
}

/// A copy clears any pending cut; a single-key cut marks exactly the key it
/// was taken from, and a multi-key cut marks exactly the given positions on
/// its layer.
pub proof fn law_cut_marks(
    m: ClipboardModel,
    c: ContentModel,
    mm: MultiModel,
    layer: usize,
    pos: Position,
    positions: Seq<Position>,
    l2: usize,
    p2: Position,
)
    ensures
        !m.after_copy(c).is_cut(),
        !m.after_copy_multi(mm).is_cut(),
        m.after_cut(c, layer, pos).is_cut(),
        m.after_cut(c, layer, pos).is_cut_source(l2, p2) <==> (l2 == layer && p2 == pos),
        m.after_cut_multi(mm, layer, positions).is_cut_source(l2, p2) <==> (l2 == layer
            && positions.contains(p2)),
{
    let sources = positions.map_values(|p: Position| (layer, p));
    if positions.contains(p2) && l2 == layer {
        let i = choose|i: int| 0 <= i < positions.len() && positions[i] == p2;
        assert(sources[i] == (l2, p2));
    }
    if sources.contains((l2, p2)) {
        let i = choose|i: int| 0 <= i < sources.len() && sources[i] == (l2, p2);
        assert(positions[i] == p2);
    }
}

/// Dropping the cut marks (after a paste, or when the cut is cancelled) keeps
/// the content so that it can be pasted again; clearing empties the clipboard
/// but keeps the undo point.
pub proof fn law_clear_cut_keeps_content(m: ClipboardModel)
    ensures
        m.after_clear_cut().content == m.content,
        m.after_clear_cut().multi == m.multi,
        m.after_clear_cut().has_content() == m.has_content(),
        !m.after_clear_cut().is_cut(),
        !m.after_clear().has_content(),
        !m.after_clear().is_cut(),
        m.after_clear().undo == m.undo,
{
}

/// An undo point that is saved is the one that is handed back, and no other
/// clipboard operation touches it.
pub proof fn law_undo_roundtrip(
    m: ClipboardModel,
    u: UndoModel,
    c: ContentModel,
    layer: usize,
    pos: Position,
)
    ensures
        m.after_save_undo(u).undo == Some(u),
        m.after_copy(c).undo == m.undo,
        m.after_cut(c, layer, pos).undo == m.undo,
        m.after_clear_cut().undo == m.undo,
{
}

/// The status preview names the pending content and ends in " (cut)" exactly
/// when a cut is pending.
pub proof fn law_preview(m: ClipboardModel)
    ensures
        m.preview() is Some <==> m.has_content(),
        m.preview() is Some && m.is_cut() ==> is_suffix(" (cut)"@, m.preview()->0),
{
    reveal_strlit(" (cut)");
    if m.preview() is Some && m.is_cut() {
        let p = m.preview()->0;
        match m.content {
            Some(c) => {
                assert(p.skip(p.len() - 6) =~= " (cut)"@);
            },
            None => {
                assert(p.skip(p.len() - 6) =~= " (cut)"@);
            },
        }
    }
}

} // verus!
