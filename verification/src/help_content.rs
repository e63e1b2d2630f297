//! The help overlay's text: sections built from the help registry, each
//! span tagged with a style that the renderer maps to theme colors.

use vstd::prelude::*;

use crate::contexts;
use crate::help_overlay::HelpOverlayState;
use crate::help_registry::{by_priority, Binding, HelpRegistry};
use crate::text::{
    chars_of, concat2, concat3, contains_seq, contains_slice, decimal, join_seqs, push_char,
    usize_to_string, views,
};

verus! {

/// How a span of help text is drawn.
#[derive(Debug, Clone, Copy, PartialEq, Eq, Structural)]
pub enum HelpStyle {
    /// Unstyled
    Raw,
    /// Frame rules (primary color)
    Frame,
    /// The title (primary color, bold)
    Title,
    /// Section headers (accent color, bold)
    Section,
    /// Key names (success color)
    Key,
    /// Informational entries (warning color)
    Info,
    /// Ordinary text
    Text,
    /// Secondary text (muted color)
    Muted,
}

/// A piece of text with one style.
#[derive(Debug, Clone)]
pub struct HelpSpan {
    /// The text
    pub text: String,
    /// Its style
    pub style: HelpStyle,
}

/// One line of help text.
#[derive(Debug, Clone)]
pub struct HelpLine {
    /// The spans, left to right
    pub spans: Vec<HelpSpan>,
}

/// A span as text and style.
pub type SpanView = (Seq<char>, HelpStyle);

/// A line as its spans.
pub type LineView = Seq<SpanView>;

impl View for HelpSpan {
    type V = SpanView;

    open spec fn view(&self) -> SpanView {
        (self.text@, self.style)
    }
}

impl View for HelpLine {
    type V = LineView;

    open spec fn view(&self) -> LineView {
        self.spans@.map_values(|s: HelpSpan| s@)
    }
}

/// Views of a sequence of lines.
pub open spec fn lines_view(v: Seq<HelpLine>) -> Seq<LineView> {
    v.map_values(|l: HelpLine| l@)
}

// ---------------------------------------------------------------------------
// The content, as a specification
// ---------------------------------------------------------------------------

/// `n` spaces.
pub open spec fn spaces(n: nat) -> Seq<char> {
    Seq::new(n, |i: int| ' ')
}

/// `s` left-aligned in a field of `w` characters (`format!("{s:<w$}")`).
pub open spec fn pad_right(s: Seq<char>, w: nat) -> Seq<char> {
    if s.len() < w {
        s + spaces((w - s.len()) as nat)
    } else {
        s
    }
}

/// `s` centered in a field of `w` characters, the odd space on the right
/// (`format!("{s:^w$}")`).
pub open spec fn centered(s: Seq<char>, w: nat) -> Seq<char> {
    if s.len() < w {
        let pad = (w - s.len()) as nat;
        spaces(pad / 2) + s + spaces((pad + 1) / 2)
    } else {
        s
    }
}

/// The keys of a binding as shown: joined with `/`, the alternative keys
/// in parentheses after them.
pub open spec fn keys_text(b: Binding) -> Seq<char> {
    if b.alt_keys@.len() == 0 {
        join_seqs(views(b.keys@), "/"@)
    } else {
        join_seqs(views(b.keys@), "/"@) + " ("@ + join_seqs(views(b.alt_keys@), "/"@) + ")"@
    }
}

/// A line of one span.
pub open spec fn styled(text: Seq<char>, style: HelpStyle) -> LineView {
    seq![(text, style)]
}

/// An empty line.
pub open spec fn blank() -> LineView {
    styled(Seq::empty(), HelpStyle::Raw)
}

/// The rule drawn above and below the content.
pub open spec fn rule_text() -> Seq<char> {
    "═══════════════════════════════════════════════════════════════"@
}

/// A binding: indent, keys padded to 18 characters, then the description.
pub open spec fn binding_line(keys: Seq<char>, action: Seq<char>, key_style: HelpStyle) -> LineView {
    seq![("  "@, HelpStyle::Raw), (pad_right(keys, 18), key_style), (action, HelpStyle::Text)]
}

/// Lines of bindings, in the given order.
pub open spec fn binding_lines(bs: Seq<Binding>, key_style: HelpStyle) -> Seq<LineView> {
    bs.map_values(|b: Binding| binding_line(keys_text(b), b.action@, key_style))
}

/// A section header between empty lines.
pub open spec fn section(title: Seq<char>) -> Seq<LineView> {
    seq![blank(), styled("═══ "@ + title + " ═══"@, HelpStyle::Section), blank()]
}

/// A subsection label.
pub open spec fn subsection(title: Seq<char>) -> Seq<LineView> {
    seq![styled("  "@ + title + ":"@, HelpStyle::Muted)]
}

/// A subsection label naming a context: its name from the registry, or
/// `fallback` when the registry lacks it.
pub open spec fn context_subsection(reg: HelpRegistry, key: Seq<char>, fallback: Seq<char>) -> Seq<
    LineView,
> {
    let title = match reg.context_named(key) {
        Some(c) => c.name@,
        None => fallback,
    };
    seq![styled("  In "@ + title + ":"@, HelpStyle::Muted)]
}

/// The bindings of a context in priority order (none for an unknown
/// context).
pub open spec fn context_lines(reg: HelpRegistry, key: Seq<char>, key_style: HelpStyle) -> Seq<
    LineView,
> {
    match reg.context_named(key) {
        Some(c) => binding_lines(by_priority(c.bindings@), key_style),
        None => Seq::empty(),
    }
}

/// Which bindings of the main context a section shows.
#[derive(Debug, Clone, Copy, PartialEq, Eq, Structural)]
pub enum MainFilter {
    /// Navigation and jumps
    Navigation,
    /// Layer shortcuts
    Layers,
    /// Keycode editing
    KeyEditing,
    /// The tap dance editor
    TapDance,
    /// Selection entry points
    Selection,
    /// Color shortcuts
    Colors,
    /// Category shortcuts
    Categories,
    /// The settings shortcut
    Settings,
    /// Template shortcuts
    Templates,
    /// File operations
    Files,
    /// Firmware generation and builds
    Build,
    /// Configuration
    Configuration,
    /// Help and cancel
    General,
}

/// Whether a section shows a main binding with description `a`.
pub open spec fn picks(f: MainFilter, a: Seq<char>) -> bool {
    match f {
        MainFilter::Navigation => contains_seq(a, "Navigate"@) || contains_seq(a, "Jump"@),
        MainFilter::Layers => contains_seq(a, "layer"@) || contains_seq(a, "Layer"@),
        MainFilter::KeyEditing => contains_seq(a, "keycode"@) || contains_seq(a, "Clear key"@),
        MainFilter::TapDance => contains_seq(a, "Tap dance editor"@),
        MainFilter::Selection => a == "Selection mode"@ || a == "Rectangle select"@ || contains_seq(
            a,
            "Swap two keys"@,
        ),
        MainFilter::Colors => contains_seq(a, "color"@) || contains_seq(a, "Color"@),
        MainFilter::Categories => contains_seq(a, "ategory"@),
        MainFilter::Settings => a == "Settings"@,
        MainFilter::Templates => contains_seq(a, "emplate"@),
        MainFilter::Files => contains_seq(a, "Save"@) || contains_seq(a, "metadata"@) || a
            == "Quit"@,
        MainFilter::Build => contains_seq(a, "irmware"@) || contains_seq(a, "build"@) || contains_seq(
            a,
            "Generate"@,
        ),
        MainFilter::Configuration => contains_seq(a, "wizard"@) || contains_seq(a, "variant"@),
        MainFilter::General => contains_seq(a, "help"@) || contains_seq(a, "Help"@) || contains_seq(
            a,
            "Cancel"@,
        ),
    }
}

/// The description shown for a picked main binding.
pub open spec fn main_label(f: MainFilter, b: Binding) -> Seq<char> {
    if f == MainFilter::Settings {
        "Open settings manager"@
    } else {
        b.action@
    }
}

/// The picked bindings of `bs`, in definition order.
pub open spec fn picked_lines(bs: Seq<Binding>, f: MainFilter) -> Seq<LineView>
    decreases bs.len(),
{
    if bs.len() == 0 {
        Seq::empty()
    } else {
        let rest = picked_lines(bs.drop_last(), f);
        let b = bs.last();
        if picks(f, b.action@) {
            rest.push(binding_line(keys_text(b), main_label(f, b), HelpStyle::Key))
        } else {
            rest
        }
    }
}

/// The main-context bindings a section shows (none without a main
/// context).
pub open spec fn main_lines(reg: HelpRegistry, f: MainFilter) -> Seq<LineView> {
    match reg.context_named(contexts::MAIN@) {
        Some(c) => picked_lines(c.bindings@, f),
        None => Seq::empty(),
    }
}

/// Tip lines.
pub open spec fn tip_list(bs: Seq<Binding>) -> Seq<LineView> {
    bs.map_values(|b: Binding| styled("  • "@ + b.action@, HelpStyle::Text))
}

/// The tips, in definition order (none without a tips context).
pub open spec fn tip_lines(reg: HelpRegistry) -> Seq<LineView> {
    match reg.context_named(contexts::TIPS@) {
        Some(c) => tip_list(c.bindings@),
        None => Seq::empty(),
    }
}

/// The header: a rule, the centered title, a rule.
pub open spec fn part_header(reg: HelpRegistry) -> Seq<LineView> {
    seq![
        styled(rule_text(), HelpStyle::Frame),
        styled(centered(reg.spec_meta().app_name@ + " - Help"@, 65), HelpStyle::Title),
        styled(rule_text(), HelpStyle::Frame),
    ]
}

/// Navigation.
pub open spec fn part_navigation(reg: HelpRegistry) -> Seq<LineView> {
    section("NAVIGATION"@) + main_lines(reg, MainFilter::Navigation)
}

/// Layers.
pub open spec fn part_layers(reg: HelpRegistry) -> Seq<LineView> {
    section("LAYERS"@) + main_lines(reg, MainFilter::Layers) + seq![blank()] + context_subsection(
        reg,
        contexts::LAYER_MANAGER@,
        "layer manager"@,
    ) + context_lines(reg, contexts::LAYER_MANAGER@, HelpStyle::Key)
}

/// The key editor.
pub open spec fn part_key_editor(reg: HelpRegistry) -> Seq<LineView> {
    section("KEY EDITOR"@) + main_lines(reg, MainFilter::KeyEditing) + main_lines(
        reg,
        MainFilter::TapDance,
    ) + seq![blank()] + context_subsection(reg, contexts::KEYCODE_PICKER@, "keycode picker"@)
        + context_lines(reg, contexts::KEYCODE_PICKER@, HelpStyle::Key) + seq![blank()]
        + context_subsection(reg, contexts::PARAMETERIZED_KEYCODES@, "parameterized keycodes"@)
        + context_lines(reg, contexts::PARAMETERIZED_KEYCODES@, HelpStyle::Info) + seq![blank()]
        + context_subsection(reg, contexts::MODIFIER_PICKER@, "modifier picker"@) + context_lines(
        reg,
        contexts::MODIFIER_PICKER@,
        HelpStyle::Key,
    )
}

/// The clipboard.
pub open spec fn part_clipboard(reg: HelpRegistry) -> Seq<LineView> {
    section("CLIPBOARD"@) + seq![styled("  Single key operations:"@, HelpStyle::Muted)]
        + context_lines(reg, contexts::CLIPBOARD@, HelpStyle::Key) + seq![
        blank(),
        styled("  Selection entry points:"@, HelpStyle::Muted),
    ] + main_lines(reg, MainFilter::Selection) + seq![blank()] + subsection(
        "Multi-key selection"@,
    ) + context_lines(reg, contexts::SELECTION@, HelpStyle::Key) + seq![
        blank(),
        styled("  Copy/cut includes keycode, color, category"@, HelpStyle::Muted),
        styled("  Multi-paste maintains relative positions"@, HelpStyle::Muted),
    ]
}

/// The color system.
pub open spec fn part_colors(reg: HelpRegistry) -> Seq<LineView> {
    section("COLOR SYSTEM"@) + main_lines(reg, MainFilter::Colors) + seq![
        blank(),
        styled(
            "  Note: When selection mode is active, color is applied to all selected keys."@,
            HelpStyle::Muted,
        ),
        blank(),
    ] + subsection("In color picker (Palette mode)"@) + context_lines(
        reg,
        contexts::COLOR_PICKER_PALETTE@,
        HelpStyle::Key,
    ) + seq![blank()] + subsection("In color picker (Custom RGB mode)"@) + context_lines(
        reg,
        contexts::COLOR_PICKER_RGB@,
        HelpStyle::Key,
    ) + seq![blank()] + subsection("Color priority (highest to lowest)"@) + context_lines(
        reg,
        contexts::COLOR_PRIORITY@,
        HelpStyle::Info,
    )
}

/// The category system.
pub open spec fn part_categories(reg: HelpRegistry) -> Seq<LineView> {
    section("CATEGORY SYSTEM"@) + main_lines(reg, MainFilter::Categories) + seq![
        blank(),
        styled(
            "  Note: When selection mode is active, category is applied to all selected keys."@,
            HelpStyle::Muted,
        ),
    ] + subsection("In category manager"@) + context_lines(
        reg,
        contexts::CATEGORY_MANAGER@,
        HelpStyle::Key,
    )
}

/// Settings.
pub open spec fn part_settings(reg: HelpRegistry) -> Seq<LineView> {
    section("SETTINGS"@) + main_lines(reg, MainFilter::Settings) + seq![blank()] + subsection(
        "In settings manager"@,
    ) + context_lines(reg, contexts::SETTINGS_MANAGER@, HelpStyle::Key) + seq![blank()]
        + subsection("Tap-Hold settings (for home-row mods)"@) + context_lines(
        reg,
        contexts::TAP_HOLD_INFO@,
        HelpStyle::Info,
    )
}

/// Templates, file operations, builds, configuration and general keys.
pub open spec fn part_other(reg: HelpRegistry) -> Seq<LineView> {
    section("TEMPLATES"@) + main_lines(reg, MainFilter::Templates) + section("FILE OPERATIONS"@)
        + main_lines(reg, MainFilter::Files) + section("BUILD SYSTEM"@) + main_lines(
        reg,
        MainFilter::Build,
    ) + seq![blank()] + subsection("In build log"@) + context_lines(
        reg,
        contexts::BUILD_LOG@,
        HelpStyle::Key,
    ) + section("CONFIGURATION"@) + main_lines(reg, MainFilter::Configuration) + section(
        "GENERAL"@,
    ) + main_lines(reg, MainFilter::General)
}

/// Tips and the footer with the help format version and the number of
/// contexts.
pub open spec fn part_footer(reg: HelpRegistry) -> Seq<LineView> {
    section("TIPS"@) + tip_lines(reg) + seq![
        blank(),
        styled(rule_text(), HelpStyle::Frame),
        styled(
            "  Help format v"@ + reg.spec_meta().version@ + " • "@ + decimal(
                reg.spec_contexts().len(),
            ) + " contexts"@,
            HelpStyle::Muted,
        ),
        styled("              Press '?' to close • ↑↓ to scroll               "@, HelpStyle::Muted),
        styled(rule_text(), HelpStyle::Frame),
    ]
}

/// The whole help text.
pub open spec fn help_content(reg: HelpRegistry) -> Seq<LineView> {
    part_header(reg) + part_navigation(reg) + part_layers(reg) + part_key_editor(reg)
        + part_clipboard(reg) + part_colors(reg) + part_categories(reg) + part_settings(reg)
        + part_other(reg) + part_footer(reg)
}

// ---------------------------------------------------------------------------
// Building the content
// ---------------------------------------------------------------------------

/// `n` spaces.
fn spaces_string(n: usize) -> (r: String)
    ensures
        r@ == spaces(n as nat),
{
    let mut r = String::new();
    let mut k: usize = 0;
    while k < n
        invariant
            k <= n,
            r@ == spaces(k as nat),
        decreases n - k,
    {
        push_char(&mut r, ' ');
        assert(r@ =~= spaces(k as nat + 1));
        k = k + 1;
    }
    r
}

/// `s` left-aligned in a field of `w` characters.
fn pad_right_string(s: &str, w: usize) -> (r: String)
    ensures
        r@ == pad_right(s@, w as nat),
{
    let n = s.unicode_len();
    if n < w {
        let fill = spaces_string(w - n);
        concat2(s, fill.as_str())
    } else {
        String::from_str(s)
    }
}

/// `s` centered in a field of `w` characters.
fn centered_string(s: &str, w: usize) -> (r: String)
    ensures
        r@ == centered(s@, w as nat),
{
    let n = s.unicode_len();
    if n < w {
        let pad = w - n;
        let left = spaces_string(pad / 2);
        let right = spaces_string(pad / 2 + pad % 2);
        assert((pad + 1) / 2 == pad / 2 + pad % 2);
        concat3(left.as_str(), s, right.as_str())
    } else {
        String::from_str(s)
    }
}

/// Appends a line.
fn push_line(lines: &mut Vec<HelpLine>, line: HelpLine)
    ensures
        lines_view(final(lines)@) == lines_view(old(lines)@).push(line@),
{
    let ghost before = lines@;
    lines.push(line);
    assert(lines_view(lines@) =~= lines_view(before).push(line@));
}

/// A line of one span.
fn styled_line(text: String, style: HelpStyle) -> (l: HelpLine)
    ensures
        l@ == styled(text@, style),
{
    let ghost t = text@;
    let mut spans: Vec<HelpSpan> = Vec::new();
    spans.push(HelpSpan { text, style });
    let l = HelpLine { spans };
    assert(l@ =~= styled(t, style));
    l
}

/// Appends a line of one span.
fn push_styled(lines: &mut Vec<HelpLine>, text: &str, style: HelpStyle)
    ensures
        lines_view(final(lines)@) == lines_view(old(lines)@) + seq![styled(text@, style)],
{
    let l = styled_line(String::from_str(text), style);
    push_line(lines, l);
    assert(lines_view(lines@) =~= lines_view(old(lines)@) + seq![styled(text@, style)]);
}

/// Appends an empty line.
fn push_blank(lines: &mut Vec<HelpLine>)
    ensures
        lines_view(final(lines)@) == lines_view(old(lines)@) + seq![blank()],
{
    push_styled(lines, "", HelpStyle::Raw);
    proof {
        reveal_strlit("");
    }
    assert(""@ =~= Seq::<char>::empty());
}

/// Appends a binding line.
fn push_binding(lines: &mut Vec<HelpLine>, keys: &str, action: String, key_style: HelpStyle)
    ensures
        lines_view(final(lines)@) == lines_view(old(lines)@).push(
            binding_line(keys@, action@, key_style),
        ),
{
    let ghost a = action@;
    let padded = pad_right_string(keys, 18);
    let mut spans: Vec<HelpSpan> = Vec::new();
    spans.push(HelpSpan { text: String::from_str("  "), style: HelpStyle::Raw });
    spans.push(HelpSpan { text: padded, style: key_style });
    spans.push(HelpSpan { text: action, style: HelpStyle::Text });
    let l = HelpLine { spans };
    assert(l@ =~= binding_line(keys@, a, key_style));
    push_line(lines, l);
}

/// Appends a section header.
fn push_section(lines: &mut Vec<HelpLine>, title: &str)
    ensures
        lines_view(final(lines)@) == lines_view(old(lines)@) + section(title@),
{
    push_blank(lines);
    let mut t = concat2("═══ ", title);
    t.append(" ═══");
    push_styled(lines, t.as_str(), HelpStyle::Section);
    push_blank(lines);
    assert(lines_view(lines@) =~= lines_view(old(lines)@) + section(title@));
}

/// Appends a subsection label.
fn push_subsection(lines: &mut Vec<HelpLine>, title: &str)
    ensures
        lines_view(final(lines)@) == lines_view(old(lines)@) + subsection(title@),
{
    let t = concat3("  ", title, ":");
    push_styled(lines, t.as_str(), HelpStyle::Muted);
}

/// Appends a subsection label naming a context.
fn push_context_subsection(lines: &mut Vec<HelpLine>, reg: &HelpRegistry, key: &str, fallback: &str)
    ensures
        lines_view(final(lines)@) == lines_view(old(lines)@) + context_subsection(*reg, key@, fallback@),
{
    let title = match reg.get_context(key) {
        Some(c) => c.name.as_str(),
        None => fallback,
    };
    let t = concat3("  In ", title, ":");
    push_styled(lines, t.as_str(), HelpStyle::Muted);
}

/// Lines of one more binding.
proof fn lemma_binding_lines_push(bs: Seq<Binding>, k: int, key_style: HelpStyle)
    requires
        0 <= k < bs.len(),
    ensures
        binding_lines(bs.take(k + 1), key_style) == binding_lines(bs.take(k), key_style).push(
            binding_line(keys_text(bs[k]), bs[k].action@, key_style),
        ),
{
    assert(binding_lines(bs.take(k + 1), key_style) =~= binding_lines(bs.take(k), key_style).push(
        binding_line(keys_text(bs[k]), bs[k].action@, key_style),
    ));
}

/// Appends the bindings of a context in priority order.
fn push_context_lines(lines: &mut Vec<HelpLine>, reg: &HelpRegistry, key: &str, key_style: HelpStyle)
    ensures
        lines_view(final(lines)@) == lines_view(old(lines)@) + context_lines(*reg, key@, key_style),
{
    let bindings = reg.get_bindings(key);
    let ghost bs = bindings@.map_values(|b: &Binding| *b);
    let ghost start = lines_view(lines@);
    let mut i: usize = 0;
    while i < bindings.len()
        invariant
            i <= bindings@.len(),
            bs == bindings@.map_values(|b: &Binding| *b),
            lines_view(lines@) == start + binding_lines(bs.take(i as int), key_style),
        decreases bindings@.len() - i,
    {
        let (keys, action) = HelpRegistry::format_binding_for_help(bindings[i]);
        assert(bs[i as int] == *bindings@[i as int]);
        push_binding(lines, keys.as_str(), action, key_style);
        proof {
            lemma_binding_lines_push(bs, i as int, key_style);
        }
        assert(lines_view(lines@) =~= start + binding_lines(bs.take(i as int + 1), key_style));
        i = i + 1;
    }
    assert(bs.take(bindings@.len() as int) =~= bs);
    assert(context_lines(*reg, key@, key_style) == binding_lines(bs, key_style));
}

/// Whether `p` occurs in `a`.
fn has(a: &[char], p: &str) -> (b: bool)
    ensures
        b == contains_seq(a@, p@),
{
    let pc = chars_of(p);
    contains_slice(a, pc.as_slice())
}

/// Whether `a` is `p`.
fn is_text(a: &String, p: &str) -> (b: bool)
    ensures
        b == (a@ == p@),
{
    let q = String::from_str(p);
    *a == q
}

/// Whether a section shows a main binding.
fn picks_action(f: MainFilter, action: &String) -> (b: bool)
    ensures
        b == picks(f, action@),
{
    let a = chars_of(action.as_str());
    let s = a.as_slice();
    match f {
        MainFilter::Navigation => has(s, "Navigate") || has(s, "Jump"),
        MainFilter::Layers => has(s, "layer") || has(s, "Layer"),
        MainFilter::KeyEditing => has(s, "keycode") || has(s, "Clear key"),
        MainFilter::TapDance => has(s, "Tap dance editor"),
        MainFilter::Selection => is_text(action, "Selection mode") || is_text(action, "Rectangle select")
            || has(s, "Swap two keys"),
        MainFilter::Colors => has(s, "color") || has(s, "Color"),
        MainFilter::Categories => has(s, "ategory"),
        MainFilter::Settings => is_text(action, "Settings"),
        MainFilter::Templates => has(s, "emplate"),
        MainFilter::Files => has(s, "Save") || has(s, "metadata") || is_text(action, "Quit"),
        MainFilter::Build => has(s, "irmware") || has(s, "build") || has(s, "Generate"),
        MainFilter::Configuration => has(s, "wizard") || has(s, "variant"),
        MainFilter::General => has(s, "help") || has(s, "Help") || has(s, "Cancel"),
    }
}

/// Appends the main-context bindings a section shows.
fn push_main_lines(lines: &mut Vec<HelpLine>, reg: &HelpRegistry, f: MainFilter)
    ensures
        lines_view(final(lines)@) == lines_view(old(lines)@) + main_lines(*reg, f),
{
    match reg.get_context(contexts::MAIN) {
        Some(ctx) => {
            let bs = &ctx.bindings;
            let ghost start = lines_view(lines@);
            let mut i: usize = 0;
            while i < bs.len()
                invariant
                    i <= bs@.len(),
                    lines_view(lines@) == start + picked_lines(bs@.take(i as int), f),
                decreases bs@.len() - i,
            {
                let b = &bs[i];
                assert(bs@.take(i as int + 1).drop_last() =~= bs@.take(i as int));
                assert(bs@.take(i as int + 1).last() == *b);
                if picks_action(f, &b.action) {
                    let keys = HelpOverlayState::format_keys(&b.keys, &b.alt_keys);
                    let label = if f == MainFilter::Settings {
                        String::from_str("Open settings manager")
                    } else {
                        b.action.clone()
                    };
                    push_binding(lines, keys.as_str(), label, HelpStyle::Key);
                    assert(lines_view(lines@) =~= start + picked_lines(bs@.take(i as int + 1), f));
                }
                i = i + 1;
            }
            assert(bs@.take(bs@.len() as int) =~= bs@);
        },
        None => {
            assert(lines_view(lines@) =~= lines_view(old(lines)@) + main_lines(*reg, f));
        },
    }
}

/// Appends the tips.
fn push_tips(lines: &mut Vec<HelpLine>, reg: &HelpRegistry)
    ensures
        lines_view(final(lines)@) == lines_view(old(lines)@) + tip_lines(*reg),
{
    match reg.get_context(contexts::TIPS) {
        Some(ctx) => {
            let bs = &ctx.bindings;
            let ghost start = lines_view(lines@);
            let mut i: usize = 0;
            while i < bs.len()
                invariant
                    i <= bs@.len(),
                    lines_view(lines@) == start + tip_list(bs@.take(i as int)),
                decreases bs@.len() - i,
            {
                let t = concat2("  • ", bs[i].action.as_str());
                push_styled(lines, t.as_str(), HelpStyle::Text);
                assert(tip_list(bs@.take(i as int + 1)) =~= tip_list(bs@.take(i as int)).push(
                    styled("  • "@ + bs@[i as int].action@, HelpStyle::Text),
                ));
                assert(lines_view(lines@) =~= start + tip_list(bs@.take(i as int + 1)));
                i = i + 1;
            }
            assert(bs@.take(bs@.len() as int) =~= bs@);
        },
        None => {
            assert(lines_view(lines@) =~= lines_view(old(lines)@) + tip_lines(*reg));
        },
    }
}

/// Appends the header.
fn push_header(lines: &mut Vec<HelpLine>, reg: &HelpRegistry)
    ensures
        lines_view(final(lines)@) == lines_view(old(lines)@) + part_header(*reg),
{
    let title = concat2(reg.app_name(), " - Help");
    let padded = centered_string(title.as_str(), 65);
    push_styled(lines, "═══════════════════════════════════════════════════════════════", HelpStyle::Frame);
    push_styled(lines, padded.as_str(), HelpStyle::Title);
    push_styled(lines, "═══════════════════════════════════════════════════════════════", HelpStyle::Frame);
    assert(lines_view(lines@) =~= lines_view(old(lines)@) + part_header(*reg));
}

/// Appends the navigation part.
fn push_navigation(lines: &mut Vec<HelpLine>, reg: &HelpRegistry)
    ensures
        lines_view(final(lines)@) == lines_view(old(lines)@) + part_navigation(*reg),
{
    push_section(lines, "NAVIGATION");
    push_main_lines(lines, reg, MainFilter::Navigation);
    assert(lines_view(lines@) =~= lines_view(old(lines)@) + part_navigation(*reg));
}

/// Appends the layers part.
fn push_layers(lines: &mut Vec<HelpLine>, reg: &HelpRegistry)
    ensures
        lines_view(final(lines)@) == lines_view(old(lines)@) + part_layers(*reg),
{
    push_section(lines, "LAYERS");
    push_main_lines(lines, reg, MainFilter::Layers);
    push_blank(lines);
    push_context_subsection(lines, reg, contexts::LAYER_MANAGER, "layer manager");
    push_context_lines(lines, reg, contexts::LAYER_MANAGER, HelpStyle::Key);
    assert(lines_view(lines@) =~= lines_view(old(lines)@) + part_layers(*reg));
}

/// Appends the key editor part.
fn push_key_editor(lines: &mut Vec<HelpLine>, reg: &HelpRegistry)
    ensures
        lines_view(final(lines)@) == lines_view(old(lines)@) + part_key_editor(*reg),
{
    push_section(lines, "KEY EDITOR");
    push_main_lines(lines, reg, MainFilter::KeyEditing);
    push_main_lines(lines, reg, MainFilter::TapDance);
    push_blank(lines);
    push_context_subsection(lines, reg, contexts::KEYCODE_PICKER, "keycode picker");
    push_context_lines(lines, reg, contexts::KEYCODE_PICKER, HelpStyle::Key);
    push_blank(lines);
    push_context_subsection(lines, reg, contexts::PARAMETERIZED_KEYCODES, "parameterized keycodes");
    push_context_lines(lines, reg, contexts::PARAMETERIZED_KEYCODES, HelpStyle::Info);
    push_blank(lines);
    push_context_subsection(lines, reg, contexts::MODIFIER_PICKER, "modifier picker");
    push_context_lines(lines, reg, contexts::MODIFIER_PICKER, HelpStyle::Key);
    assert(lines_view(lines@) =~= lines_view(old(lines)@) + part_key_editor(*reg));
}

/// Appends the clipboard part.
fn push_clipboard(lines: &mut Vec<HelpLine>, reg: &HelpRegistry)
    ensures
        lines_view(final(lines)@) == lines_view(old(lines)@) + part_clipboard(*reg),
{
    push_section(lines, "CLIPBOARD");
    push_styled(lines, "  Single key operations:", HelpStyle::Muted);
    push_context_lines(lines, reg, contexts::CLIPBOARD, HelpStyle::Key);
    push_blank(lines);
    push_styled(lines, "  Selection entry points:", HelpStyle::Muted);
    push_main_lines(lines, reg, MainFilter::Selection);
    push_blank(lines);
    push_subsection(lines, "Multi-key selection");
    push_context_lines(lines, reg, contexts::SELECTION, HelpStyle::Key);
    push_blank(lines);
    push_styled(lines, "  Copy/cut includes keycode, color, category", HelpStyle::Muted);
    push_styled(lines, "  Multi-paste maintains relative positions", HelpStyle::Muted);
    assert(lines_view(lines@) =~= lines_view(old(lines)@) + part_clipboard(*reg));
}

/// Appends the color part.
fn push_colors(lines: &mut Vec<HelpLine>, reg: &HelpRegistry)
    ensures
        lines_view(final(lines)@) == lines_view(old(lines)@) + part_colors(*reg),
{
    push_section(lines, "COLOR SYSTEM");
    push_main_lines(lines, reg, MainFilter::Colors);
    push_blank(lines);
    push_styled(
        lines,
        "  Note: When selection mode is active, color is applied to all selected keys.",
        HelpStyle::Muted,
    );
    push_blank(lines);
    push_subsection(lines, "In color picker (Palette mode)");
    push_context_lines(lines, reg, contexts::COLOR_PICKER_PALETTE, HelpStyle::Key);
    push_blank(lines);
    push_subsection(lines, "In color picker (Custom RGB mode)");
    push_context_lines(lines, reg, contexts::COLOR_PICKER_RGB, HelpStyle::Key);
    push_blank(lines);
    push_subsection(lines, "Color priority (highest to lowest)");
    push_context_lines(lines, reg, contexts::COLOR_PRIORITY, HelpStyle::Info);
    assert(lines_view(lines@) =~= lines_view(old(lines)@) + part_colors(*reg));
}

/// Appends the category part.
fn push_categories(lines: &mut Vec<HelpLine>, reg: &HelpRegistry)
    ensures
        lines_view(final(lines)@) == lines_view(old(lines)@) + part_categories(*reg),
{
    push_section(lines, "CATEGORY SYSTEM");
    push_main_lines(lines, reg, MainFilter::Categories);
    push_blank(lines);
    push_styled(
        lines,
        "  Note: When selection mode is active, category is applied to all selected keys.",
        HelpStyle::Muted,
    );
    push_subsection(lines, "In category manager");
    push_context_lines(lines, reg, contexts::CATEGORY_MANAGER, HelpStyle::Key);
    assert(lines_view(lines@) =~= lines_view(old(lines)@) + part_categories(*reg));
}

/// Appends the settings part.
fn push_settings(lines: &mut Vec<HelpLine>, reg: &HelpRegistry)
    ensures
        lines_view(final(lines)@) == lines_view(old(lines)@) + part_settings(*reg),
{
    push_section(lines, "SETTINGS");
    push_main_lines(lines, reg, MainFilter::Settings);
    push_blank(lines);
    push_subsection(lines, "In settings manager");
    push_context_lines(lines, reg, contexts::SETTINGS_MANAGER, HelpStyle::Key);
    push_blank(lines);
    push_subsection(lines, "Tap-Hold settings (for home-row mods)");
    push_context_lines(lines, reg, contexts::TAP_HOLD_INFO, HelpStyle::Info);
    assert(lines_view(lines@) =~= lines_view(old(lines)@) + part_settings(*reg));
}

/// Appends templates, file operations, builds, configuration and general.
fn push_other(lines: &mut Vec<HelpLine>, reg: &HelpRegistry)
    ensures
        lines_view(final(lines)@) == lines_view(old(lines)@) + part_other(*reg),
{
    push_section(lines, "TEMPLATES");
    push_main_lines(lines, reg, MainFilter::Templates);
    push_section(lines, "FILE OPERATIONS");
    push_main_lines(lines, reg, MainFilter::Files);
    push_section(lines, "BUILD SYSTEM");
    push_main_lines(lines, reg, MainFilter::Build);
    push_blank(lines);
    push_subsection(lines, "In build log");
    push_context_lines(lines, reg, contexts::BUILD_LOG, HelpStyle::Key);
    push_section(lines, "CONFIGURATION");
    push_main_lines(lines, reg, MainFilter::Configuration);
    push_section(lines, "GENERAL");
    push_main_lines(lines, reg, MainFilter::General);
    assert(lines_view(lines@) =~= lines_view(old(lines)@) + part_other(*reg));
}

/// Appends the tips and the footer.
fn push_footer(lines: &mut Vec<HelpLine>, reg: &HelpRegistry)
    ensures
        lines_view(final(lines)@) == lines_view(old(lines)@) + part_footer(*reg),
{
    push_section(lines, "TIPS");
    push_tips(lines, reg);
    let count = reg.get_context_info().len();
    let n = usize_to_string(count);
    let mut t = concat3("  Help format v", reg.version(), " • ");
    t.append(n.as_str());
    t.append(" contexts");
    push_blank(lines);
    push_styled(lines, "═══════════════════════════════════════════════════════════════", HelpStyle::Frame);
    push_styled(lines, t.as_str(), HelpStyle::Muted);
    push_styled(lines, "              Press '?' to close • ↑↓ to scroll               ", HelpStyle::Muted);
    push_styled(lines, "═══════════════════════════════════════════════════════════════", HelpStyle::Frame);
    assert(lines_view(lines@) =~= lines_view(old(lines)@) + part_footer(*reg));
}

/// The help text, organized by feature, from the registry's bindings.
pub fn get_help_content(registry: &HelpRegistry) -> (lines: Vec<HelpLine>)
    ensures
        lines_view(lines@) == help_content(*registry),
{
    let mut lines: Vec<HelpLine> = Vec::new();
    assert(lines_view(lines@) =~= Seq::<LineView>::empty());
    push_header(&mut lines, registry);
    push_navigation(&mut lines, registry);
    push_layers(&mut lines, registry);
    push_key_editor(&mut lines, registry);
    push_clipboard(&mut lines, registry);
    push_colors(&mut lines, registry);
    push_categories(&mut lines, registry);
    push_settings(&mut lines, registry);
    push_other(&mut lines, registry);
    push_footer(&mut lines, registry);
    assert(lines_view(lines@) =~= help_content(*registry));
    lines
}

} // verus!
