//! Keycode inspection used by the keycode, tap-dance and settings flows.

use vstd::prelude::*;

use crate::text::{chars_of, contains_char, count_char, count_occurrences, split_chars, split_on,
    string_from_chars};

verus! {

/// Name of the tap dance in `TD(name)`, when `s` has that shape with a
/// non-empty name.
pub open spec fn td_name(s: Seq<char>) -> Option<Seq<char>> {
    if s.len() >= 5 && s[0] == 'T' && s[1] == 'D' && s[2] == '(' && s.last() == ')' {
        Some(s.subrange(3, s.len() - 1))
    } else {
        None
    }
}

/// Extracts the tap dance name from a `TD(name)` keycode; `None` when the
/// keycode is not of that shape or the name is empty.
pub fn extract_td_name(keycode: &str) -> (r: Option<String>)
    ensures
        match td_name(keycode@) {
            Some(n) => r is Some && r->0@ == n,
            None => r is None,
        },
{
    let cs = chars_of(keycode);
    let n = cs.len();
    if n >= 5 && cs[0] == 'T' && cs[1] == 'D' && cs[2] == '(' && cs[n - 1] == ')' {
        let mut name: Vec<char> = Vec::new();
        let mut i: usize = 3;
        while i < n - 1
            invariant
                n == cs@.len(),
                n >= 5,
                3 <= i <= n - 1,
                name@ == cs@.subrange(3, i as int),
            decreases n - 1 - i,
        {
            name.push(cs[i]);
            assert(cs@.subrange(3, i + 1) =~= cs@.subrange(3, i as int).push(cs@[i as int]));
            i = i + 1;
        }
        Some(string_from_chars(name.as_slice()))
    } else {
        None
    }
}

/// A basic keycode has no parameters and no layer reference.
pub open spec fn basic_keycode(s: Seq<char>) -> bool {
    !s.contains('(') && !s.contains('@')
}

/// Whether a keycode is basic (not parameterized and not a layer reference).
pub fn is_basic_keycode(code: &str) -> (b: bool)
    ensures
        b == basic_keycode(code@),
{
    let cs = chars_of(code);
    !contains_char(cs.as_slice(), '(') && !contains_char(cs.as_slice(), '@')
}

/// Whether `p` names a simple layer keycode (`MO`, `TG`, `TO`, `TT`, `OSL`,
/// `DF`).
pub open spec fn simple_layer_prefix(p: Seq<char>) -> bool {
    p == seq!['M', 'O'] || p == seq!['T', 'G'] || p == seq!['T', 'O'] || p == seq!['T', 'T'] || p
        == seq!['O', 'S', 'L'] || p == seq!['D', 'F']
}

/// A basic keycode, or a simple layer keycode with one numeric-style
/// parameter such as `MO(1)`: no `@` reference, a layer prefix before the
/// first `(`, exactly one `(`, and no `,`.
pub open spec fn basic_or_layer_keycode(s: Seq<char>) -> bool {
    if basic_keycode(s) {
        true
    } else if s.contains('@') {
        false
    } else {
        simple_layer_prefix(split_on(s, '(')[0]) && count_char(s, '(') == 1 && !s.contains(',')
    }
}

/// Whether two character sequences are equal.
fn chars_equal(a: &[char], b: &[char]) -> (eq: bool)
    ensures
        eq == (a@ == b@),
{
    if a.len() != b.len() {
        return false;
    }
    let mut i: usize = 0;
    while i < a.len()
        invariant
            a.len() == b.len(),
            i <= a.len(),
            forall|j: int| 0 <= j < i ==> a@[j] == b@[j],
        decreases a.len() - i,
    {
        if a[i] != b[i] {
            return false;
        }
        i = i + 1;
    }
    assert(a@ =~= b@);
    true
}

/// Whether `p` is one of the simple layer keycode prefixes.
fn is_simple_layer_prefix(p: &[char]) -> (b: bool)
    ensures
        b == simple_layer_prefix(p@),
{
    let mo = ['M', 'O'];
    let tg = ['T', 'G'];
    let to = ['T', 'O'];
    let tt = ['T', 'T'];
    let osl = ['O', 'S', 'L'];
    let df = ['D', 'F'];
    assert(mo@ =~= seq!['M', 'O']);
    assert(tg@ =~= seq!['T', 'G']);
    assert(to@ =~= seq!['T', 'O']);
    assert(tt@ =~= seq!['T', 'T']);
    assert(osl@ =~= seq!['O', 'S', 'L']);
    assert(df@ =~= seq!['D', 'F']);
    chars_equal(p, &mo) || chars_equal(p, &tg) || chars_equal(p, &to) || chars_equal(p, &tt)
        || chars_equal(p, &osl) || chars_equal(p, &df)
}

/// Whether a keycode is basic or a simple layer keycode (`KC_A`, `MO(1)`,
/// `TG(2)`, `TO(3)`, `TT(1)`, `OSL(2)`, `DF(0)`); rejects `LT(1, KC_A)`,
/// `MT(...)`, `MO(@layer_id)` and the like.
pub fn is_basic_or_layer_keycode(code: &str) -> (b: bool)
    ensures
        b == basic_or_layer_keycode(code@),
{
    if is_basic_keycode(code) {
        return true;
    }
    let cs = chars_of(code);
    if contains_char(cs.as_slice(), '@') {
        return false;
    }
    let pieces = split_chars(cs.as_slice(), '(');
    proof {
        crate::text::lemma_split_on_nonempty(cs@, '(');
        assert(pieces@.map_values(|v: Vec<char>| v@)[0] == pieces@[0]@);
    }
    let prefix_ok = is_simple_layer_prefix(pieces[0].as_slice());
    prefix_ok && count_occurrences(cs.as_slice(), '(') == 1 && !contains_char(cs.as_slice(), ',')
}

/// Theme preference.
#[derive(Debug, Clone, Copy, PartialEq, Eq, Structural)]
pub enum ThemeMode {
    /// Follow the terminal / OS
    Auto,
    /// Always dark
    Dark,
    /// Always light
    Light,
}

/// Display name of a theme mode.
pub fn theme_mode_display(mode: ThemeMode) -> (s: &'static str)
    ensures
        s@ == (match mode {
            ThemeMode::Auto => "Auto"@,
            ThemeMode::Dark => "Dark"@,
            ThemeMode::Light => "Light"@,
        }),
{
    match mode {
        ThemeMode::Auto => "Auto",
        ThemeMode::Dark => "Dark",
        ThemeMode::Light => "Light",
    }
}

/// Rows of the tap-dance form.
#[derive(Debug, Clone, Copy, PartialEq, Eq, Structural)]
pub enum FormRow {
    /// Tap dance name
    Name,
    /// Action on a single tap
    Single,
    /// Action on a double tap
    Double,
    /// Action on hold
    Hold,
}

/// Label of a tap-dance form row in the picker flow.
pub fn tap_dance_flow_label(target: FormRow) -> (s: &'static str)
    ensures
        s@ == (match target {
            FormRow::Name => "Name"@,
            FormRow::Single => "Single tap"@,
            FormRow::Double => "Double tap"@,
            FormRow::Hold => "Hold"@,
        }),
{
    match target {
        FormRow::Name => "Name",
        FormRow::Single => "Single tap",
        FormRow::Double => "Double tap",
        FormRow::Hold => "Hold",
    }
}

/// A tap dance name wrapped as `TD(name)` is read back unchanged.
pub proof fn law_td_name_roundtrip(name: Seq<char>)
    requires
        name.len() > 0,
    ensures
        td_name(seq!['T', 'D', '('] + name + seq![')']) == Some(name),
{
    let s = seq!['T', 'D', '('] + name + seq![')'];
    assert(s.subrange(3, s.len() - 1) =~= name);
}

/// Every basic keycode is accepted as basic-or-layer.
pub proof fn law_basic_is_basic_or_layer(s: Seq<char>)
    requires
        basic_keycode(s),
    ensures
        basic_or_layer_keycode(s),
{
}

} // verus!
