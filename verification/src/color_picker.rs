//! Color picker state: palette grid navigation, shade selection, RGB fine
//! tuning, and the choice of the palette entry closest to a given color.

use vstd::prelude::*;

use crate::category_manager::{CategoryManagerState, ManagerMode, ModeView};
use crate::component::ColorPickerContext;
use crate::keys::{KeyCode, KeyEvent};
use crate::models::{ColorPalette, RgbColor, Shade};
use crate::text::{chars_of, lowercase, string_from_chars, to_lowercase};

verus! {

/// RGB channel being edited
#[derive(Debug, Clone, Copy, PartialEq, Eq, Structural)]
pub enum RgbChannel {
    /// Red color channel
    Red,
    /// Green color channel
    Green,
    /// Blue color channel
    Blue,
}

/// Mode of the color picker
#[derive(Debug, Clone, Copy, PartialEq, Eq, Structural)]
pub enum ColorPickerMode {
    /// Selecting from the color palette
    Palette,
    /// Fine-tuning with RGB sliders
    CustomRgb,
}

/// Focus within palette mode
#[derive(Debug, Clone, Copy, PartialEq, Eq, Structural)]
pub enum PaletteFocus {
    /// Selecting base color
    Colors,
    /// Selecting shade
    Shades,
}

/// State for the color picker dialog
#[derive(Debug, Clone)]
pub struct ColorPickerState {
    /// Current mode (Palette or Custom RGB)
    pub mode: ColorPickerMode,
    /// Red channel value (0-255)
    pub r: u8,
    /// Green channel value (0-255)
    pub g: u8,
    /// Blue channel value (0-255)
    pub b: u8,
    /// Currently active RGB channel for editing
    pub active_channel: RgbChannel,
    /// Selected base color index
    pub selected_color: usize,
    /// Selected shade index
    pub selected_shade: usize,
    /// Focus within palette mode
    pub palette_focus: PaletteFocus,
    /// The color palette data
    pub palette: ColorPalette,
}

/// Squared distance between a shade and a color in RGB space.
pub open spec fn distance(s: Shade, t: RgbColor) -> int {
    (s.r - t.r) * (s.r - t.r) + (s.g - t.g) * (s.g - t.g) + (s.b - t.b) * (s.b - t.b)
}

/// Shade `si` of color `ci` exists in the palette.
pub open spec fn valid_pair(p: ColorPalette, ci: int, si: int) -> bool {
    0 <= ci < p.colors@.len() && 0 <= si < p.colors@[ci].shades@.len()
}

/// Distance of shade `si` of color `ci` to `t`.
pub open spec fn pair_distance(p: ColorPalette, ci: int, si: int, t: RgbColor) -> int {
    distance(p.colors@[ci].shades@[si], t)
}

/// `(c1, s1)` comes before `(c2, s2)` in the palette's scan order (colors in
/// order, shades in order within a color).
pub open spec fn scanned_before(c1: int, s1: int, c2: int, s2: int) -> bool {
    c1 < c2 || (c1 == c2 && s1 < s2)
}

/// Every entry scanned before `(ci, si)` was seen (`found`) and is at least
/// as far from `t` as the best distance `bd`.
pub open spec fn scanned_at_least(p: ColorPalette, t: RgbColor, ci: int, si: int, found: bool, bd: int) -> bool {
    forall|c: int, s: int|
        valid_pair(p, c, s) && scanned_before(c, s, ci, si) ==> found && bd <= #[trigger] pair_distance(
            p,
            c,
            s,
            t,
        )
}

/// Every entry scanned before `(ci, si)` and before the best entry
/// `(bc, bs)` is strictly farther from `t` than the best distance `bd`.
pub open spec fn earlier_farther(p: ColorPalette, t: RgbColor, ci: int, si: int, bc: int, bs: int, bd: int) -> bool {
    forall|c: int, s: int|
        valid_pair(p, c, s) && scanned_before(c, s, ci, si) && scanned_before(c, s, bc, bs) ==> bd
            < #[trigger] pair_distance(p, c, s, t)
}

/// The palette entry closest to `t`: the first entry in scan order whose
/// distance is minimal. `(ci, si)` is that entry when the palette has a
/// shade; otherwise the default `(0, 4)`.
pub open spec fn is_closest(p: ColorPalette, t: RgbColor, ci: int, si: int) -> bool {
    if exists|c: int, s: int| valid_pair(p, c, s) {
        &&& valid_pair(p, ci, si)
        &&& forall|c: int, s: int|
            valid_pair(p, c, s) ==> pair_distance(p, ci, si, t) <= #[trigger] pair_distance(
                p,
                c,
                s,
                t,
            )
        &&& forall|c: int, s: int|
            valid_pair(p, c, s) && scanned_before(c, s, ci, si) ==> pair_distance(p, ci, si, t)
                < #[trigger] pair_distance(p, c, s, t)
    } else {
        ci == 0 && si == 4
    }
}

/// `v` limited to `lo..=hi`.
pub open spec fn clamp(v: int, lo: int, hi: int) -> int {
    if v < lo { lo } else if v > hi { hi } else { v }
}

/// Limits a value to `lo..=hi` (`i32::clamp`, which requires `lo <= hi`).
fn clamp_i32(v: i32, lo: i32, hi: i32) -> (r: i32)
    requires
        lo <= hi,
    ensures
        r == clamp(v as int, lo as int, hi as int),
{
    if v < lo {
        lo
    } else if v > hi {
        hi
    } else {
        v
    }
}

/// Absolute difference of two channel values.
fn channel_diff(a: u8, b: u8) -> (d: u32)
    ensures
        d * d == (a - b) * (a - b),
        d <= 255,
{
    let d: u32 = if a >= b { (a - b) as u32 } else { (b - a) as u32 };
    assert(d * d == (a - b) * (a - b)) by (nonlinear_arith)
        requires
            d == a - b || d == b - a,
    ;
    d
}

/// Squared distance computed with machine arithmetic.
fn shade_distance(s: &Shade, t: RgbColor) -> (d: u32)
    ensures
        d == distance(*s, t),
{
    let dr = channel_diff(s.r, t.r);
    let dg = channel_diff(s.g, t.g);
    let db = channel_diff(s.b, t.b);
    assert(dr * dr <= 65025 && dg * dg <= 65025 && db * db <= 65025) by (nonlinear_arith)
        requires
            dr <= 255,
            dg <= 255,
            db <= 255,
    ;
    dr * dr + dg * dg + db * db
}

/// The picker's state is usable: the palette is well formed, the selected
/// color exists, and the selected shade index fits signed arithmetic.
pub open spec fn picker_wf(s: ColorPickerState) -> bool {
    &&& s.palette.well_formed()
    &&& s.selected_color < s.palette.colors@.len()
    &&& s.selected_shade < 0x4000_0000
}

/// RGB values after syncing from the palette: the selected shade's channels
/// when the selection names a shade, unchanged otherwise.
pub open spec fn synced(s: ColorPickerState) -> ColorPickerState {
    if valid_pair(s.palette, s.selected_color as int, s.selected_shade as int) {
        let sh = s.palette.colors@[s.selected_color as int].shades@[s.selected_shade as int];
        ColorPickerState { r: sh.r, g: sh.g, b: sh.b, ..s }
    } else {
        s
    }
}

/// Grid cell `(row, column)` that a move by `(dx, dy)` aims at: the current
/// row and column, as the `i32` values that grid navigation computes with,
/// moved and clamped to the last row and column.
pub open spec fn grid_target(s: ColorPickerState, dx: int, dy: int) -> (int, int) {
    let columns = s.palette.columns;
    let row = s.selected_color / columns;
    let col = s.selected_color % columns;
    let last_row = ((s.palette.spec_rows() - 1) as usize) as i32;
    (clamp(row as i32 + dy, 0, last_row as int), clamp(col as i32 + dx, 0, columns as i32 - 1))
}

/// State after moving by `(dx, dy)` in palette mode.
pub open spec fn navigated(s: ColorPickerState, dx: int, dy: int) -> ColorPickerState {
    let columns = s.palette.columns as int;
    match s.palette_focus {
        PaletteFocus::Colors => {
            let (new_row, new_col) = grid_target(s, dx, dy);
            let idx = new_row * columns + new_col;
            if idx < s.palette.colors@.len() {
                synced(ColorPickerState { selected_color: idx as usize, ..s })
            } else {
                s
            }
        },
        PaletteFocus::Shades => {
            if (s.selected_color as int) < s.palette.colors@.len() {
                let count = s.palette.colors@[s.selected_color as int].shades@.len() as usize;
                let shade = clamp(s.selected_shade as i32 + dx, 0, count as i32 - 1);
                synced(ColorPickerState { selected_shade: shade as usize, ..s })
            } else {
                s
            }
        },
    }
}

/// Whether an `i32` computation gives `v` without overflowing.
pub open spec fn fits_i32(v: int) -> bool {
    i32::MIN <= v <= i32::MAX
}

/// The grid has columns and colors, and its number of rows can be computed.
pub open spec fn grid_countable(s: ColorPickerState) -> bool {
    &&& s.palette.columns >= 1
    &&& s.palette.colors@.len() >= 1
    &&& s.palette.colors@.len() + s.palette.columns <= usize::MAX
}

/// A move by `(dx, dy)` in palette mode computes without failing: on the
/// color grid, the grid has columns and colors, the moved row and column fit
/// `i32`, the last column and row are not negative as `i32`, and the target
/// cell's index fits `usize`; on the shade bar, a selected color that exists
/// has shades (counted as `i32`) and the moved shade index fits `i32`.
pub open spec fn navigable(s: ColorPickerState, dx: int, dy: int) -> bool {
    match s.palette_focus {
        PaletteFocus::Colors => {
            let columns = s.palette.columns;
            let (new_row, new_col) = grid_target(s, dx, dy);
            &&& grid_countable(s)
            &&& fits_i32((s.selected_color % columns) as i32 + dx)
            &&& columns as i32 >= 1
            &&& fits_i32((s.selected_color / columns) as i32 + dy)
            &&& ((s.palette.spec_rows() - 1) as usize) as i32 >= 0
            &&& new_row * columns + new_col <= usize::MAX
        },
        PaletteFocus::Shades => (s.selected_color as int) < s.palette.colors@.len() ==> {
            &&& (s.palette.colors@[s.selected_color as int].shades@.len() as usize) as i32 >= 1
            &&& fits_i32(s.selected_shade as i32 + dx)
        },
    }
}

/// What a key in palette mode needs to compute without failing: a vertical
/// move on the color grid, or a horizontal move, is [`navigable`]; moving
/// down from the color grid first counts the rows.
pub open spec fn key_computable(s: ColorPickerState, key: KeyEvent) -> bool {
    s.mode == ColorPickerMode::Palette ==> match key.code {
        KeyCode::Up | KeyCode::Char('k') => s.palette_focus == PaletteFocus::Colors ==> navigable(s, 0, -1),
        KeyCode::Down | KeyCode::Char('j') => s.palette_focus == PaletteFocus::Colors ==> {
            &&& grid_countable(s)
            &&& (s.selected_color / s.palette.columns) < s.palette.spec_rows() - 1 ==> navigable(s, 0, 1)
        },
        KeyCode::Left | KeyCode::Char('h') => navigable(s, -1, 0),
        KeyCode::Right | KeyCode::Char('l') => navigable(s, 1, 0),
        _ => true,
    }
}

/// Value of a channel after adding `amount`, saturating at 255.
pub open spec fn sat_add_u8(v: int, amount: int) -> int {
    if v + amount <= 255 { v + amount } else { 255 }
}

/// Value of a channel after subtracting `amount`, saturating at 0.
pub open spec fn sat_sub_u8(v: int, amount: int) -> int {
    if v >= amount { v - amount } else { 0 }
}

/// The channel after `c` in the cycle Red, Green, Blue.
pub open spec fn next_channel_of(c: RgbChannel) -> RgbChannel {
    match c {
        RgbChannel::Red => RgbChannel::Green,
        RgbChannel::Green => RgbChannel::Blue,
        RgbChannel::Blue => RgbChannel::Red,
    }
}

/// The channel before `c` in the cycle Red, Green, Blue.
pub open spec fn previous_channel_of(c: RgbChannel) -> RgbChannel {
    match c {
        RgbChannel::Red => RgbChannel::Blue,
        RgbChannel::Green => RgbChannel::Red,
        RgbChannel::Blue => RgbChannel::Green,
    }
}

/// State after raising the active channel by `amount`.
pub open spec fn increased(s: ColorPickerState, amount: int) -> ColorPickerState {
    match s.active_channel {
        RgbChannel::Red => ColorPickerState { r: sat_add_u8(s.r as int, amount) as u8, ..s },
        RgbChannel::Green => ColorPickerState { g: sat_add_u8(s.g as int, amount) as u8, ..s },
        RgbChannel::Blue => ColorPickerState { b: sat_add_u8(s.b as int, amount) as u8, ..s },
    }
}

/// State after lowering the active channel by `amount`.
pub open spec fn decreased(s: ColorPickerState, amount: int) -> ColorPickerState {
    match s.active_channel {
        RgbChannel::Red => ColorPickerState { r: sat_sub_u8(s.r as int, amount) as u8, ..s },
        RgbChannel::Green => ColorPickerState { g: sat_sub_u8(s.g as int, amount) as u8, ..s },
        RgbChannel::Blue => ColorPickerState { b: sat_sub_u8(s.b as int, amount) as u8, ..s },
    }
}

impl ColorPickerState {
    /// A picker in palette mode showing white, with the first color and the
    /// middle shade selected.
    pub fn new(palette: ColorPalette) -> (s: Self)
        ensures
            s.mode == ColorPickerMode::Palette,
            s.r == 255 && s.g == 255 && s.b == 255,
            s.active_channel == RgbChannel::Red,
            s.selected_color == 0,
            s.selected_shade == 4,
            s.palette_focus == PaletteFocus::Colors,
            s.palette == palette,
            palette.well_formed() ==> picker_wf(s),
    {
        ColorPickerState {
            mode: ColorPickerMode::Palette,
            r: 255,
            g: 255,
            b: 255,
            active_channel: RgbChannel::Red,
            selected_color: 0,
            selected_shade: 4,
            palette_focus: PaletteFocus::Colors,
            palette,
        }
    }

    /// A picker initialized with `color`, with the closest palette entry
    /// selected.
    pub fn with_color(palette: ColorPalette, color: RgbColor) -> (s: Self)
        ensures
            s.mode == ColorPickerMode::Palette,
            s.r == color.r && s.g == color.g && s.b == color.b,
            s.active_channel == RgbChannel::Red,
            s.palette_focus == PaletteFocus::Colors,
            s.palette == palette,
            is_closest(palette, color, s.selected_color as int, s.selected_shade as int),
            palette.well_formed() ==> picker_wf(s),
    {
        let mut state = ColorPickerState {
            mode: ColorPickerMode::Palette,
            r: color.r,
            g: color.g,
            b: color.b,
            active_channel: RgbChannel::Red,
            selected_color: 0,
            selected_shade: 4,
            palette_focus: PaletteFocus::Colors,
            palette,
        };
        state.find_closest_palette_color(color);
        proof {
            if palette.well_formed() {
                assert(valid_pair(palette, 0, 0));
                assert(palette.colors@[state.selected_color as int].shades@.len() < 0x4000_0000);
            }
        }
        state
    }

    /// Selects the palette entry closest to `target` (the first one in scan
    /// order among those at minimal distance).
    pub fn find_closest_palette_color(&mut self, target: RgbColor)
        ensures
            is_closest(
                old(self).palette,
                target,
                final(self).selected_color as int,
                final(self).selected_shade as int,
            ),
            *final(self) == (ColorPickerState {
                selected_color: final(self).selected_color,
                selected_shade: final(self).selected_shade,
                ..*old(self)
            }),
    {
        let ghost p = self.palette;
        let mut best_distance: u32 = u32::MAX;
        let mut best_color: usize = 0;
        let mut best_shade: usize = 4;
        let mut found = false;
        let n = self.palette.colors.len();
        let mut ci: usize = 0;
        while ci < n
            invariant
                p == self.palette,
                n == p.colors@.len(),
                ci <= n,
                found ==> valid_pair(p, best_color as int, best_shade as int) && best_distance
                    == pair_distance(p, best_color as int, best_shade as int, target)
                    && scanned_before(best_color as int, best_shade as int, ci as int, 0),
                !found ==> best_color == 0 && best_shade == 4 && best_distance == u32::MAX,
                scanned_at_least(p, target, ci as int, 0, found, best_distance as int),
                earlier_farther(
                    p,
                    target,
                    ci as int,
                    0,
                    best_color as int,
                    best_shade as int,
                    best_distance as int,
                ),
            decreases n - ci,
        {
            let color = &self.palette.colors[ci];
            let m = color.shades.len();
            let mut si: usize = 0;
            while si < m
                invariant
                    p == self.palette,
                    n == p.colors@.len(),
                    ci < n,
                    *color == p.colors@[ci as int],
                    m == color.shades@.len(),
                    si <= m,
                    found ==> valid_pair(p, best_color as int, best_shade as int) && best_distance
                        == pair_distance(p, best_color as int, best_shade as int, target)
                        && scanned_before(best_color as int, best_shade as int, ci as int, si as int),
                    !found ==> best_color == 0 && best_shade == 4 && best_distance == u32::MAX,
                    scanned_at_least(p, target, ci as int, si as int, found, best_distance as int),
                    earlier_farther(
                        p,
                        target,
                        ci as int,
                        si as int,
                        best_color as int,
                        best_shade as int,
                        best_distance as int,
                    ),
                decreases m - si,
            {
                let d = shade_distance(&color.shades[si], target);
                assert(d == pair_distance(p, ci as int, si as int, target));
                assert(d <= 195075) by (nonlinear_arith)
                    requires
                        d == distance(color.shades@[si as int], target),
                ;
                let ghost old_found = found;
                let ghost old_bd = best_distance;
                let ghost old_bc = best_color;
                let ghost old_bs = best_shade;
                assert(scanned_at_least(p, target, ci as int, si as int, old_found, old_bd as int));
                if d < best_distance {
                    best_distance = d;
                    best_color = ci;
                    best_shade = si;
                    found = true;
                }
                assert(scanned_at_least(p, target, ci as int, si + 1, found, best_distance as int)) by {
                    assert forall|c: int, s: int|
                        valid_pair(p, c, s) && scanned_before(c, s, ci as int, si + 1) implies found
                        && best_distance <= #[trigger] pair_distance(p, c, s, target) by {
                        if scanned_before(c, s, ci as int, si as int) {
                            assert(old_bd <= pair_distance(p, c, s, target));
                        }
                    }
                }
                assert(earlier_farther(
                    p,
                    target,
                    ci as int,
                    si + 1,
                    best_color as int,
                    best_shade as int,
                    best_distance as int,
                )) by {
                    assert forall|c: int, s: int|
                        valid_pair(p, c, s) && scanned_before(c, s, ci as int, si + 1)
                            && scanned_before(c, s, best_color as int, best_shade as int) implies best_distance
                        < #[trigger] pair_distance(p, c, s, target) by {
                        if d < old_bd {
                            if scanned_before(c, s, ci as int, si as int) {
                                assert(old_found ==> old_bd <= pair_distance(p, c, s, target));
                            }
                        } else {
                            assert(scanned_before(c, s, old_bc as int, old_bs as int));
                        }
                    }
                }
                si = si + 1;
            }
            assert(scanned_at_least(p, target, ci + 1, 0, found, best_distance as int)) by {
                assert forall|c: int, s: int|
                    valid_pair(p, c, s) && scanned_before(c, s, ci + 1, 0) implies found
                    && best_distance <= #[trigger] pair_distance(p, c, s, target) by {
                    assert(scanned_before(c, s, ci as int, m as int));
                }
            }
            assert(earlier_farther(
                p,
                target,
                ci + 1,
                0,
                best_color as int,
                best_shade as int,
                best_distance as int,
            )) by {
                assert forall|c: int, s: int|
                    valid_pair(p, c, s) && scanned_before(c, s, ci + 1, 0) && scanned_before(
                        c,
                        s,
                        best_color as int,
                        best_shade as int,
                    ) implies best_distance < #[trigger] pair_distance(p, c, s, target) by {
                    assert(scanned_before(c, s, ci as int, m as int));
                }
            }
            ci = ci + 1;
        }
        proof {
            if exists|c: int, s: int| valid_pair(p, c, s) {
                let (c, s) = choose|c: int, s: int| valid_pair(p, c, s);
                assert(pair_distance(p, c, s, target) >= 0);
            }
        }
        self.selected_color = best_color;
        self.selected_shade = best_shade;
    }

    /// The current color.
    pub fn get_color(&self) -> (c: RgbColor)
        ensures
            c.r == self.r && c.g == self.g && c.b == self.b,
    {
        RgbColor::new(self.r, self.g, self.b)
    }

    /// Sets the RGB values from the selected palette entry, if it exists.
    pub fn sync_from_palette(&mut self)
        ensures
            *final(self) == synced(*old(self)),
    {
        match self.palette.color_at(self.selected_color) {
            Some(color) => match color.shade_at(self.selected_shade) {
                Some(shade) => {
                    let (r, g, b) = (shade.r, shade.g, shade.b);
                    self.r = r;
                    self.g = g;
                    self.b = b;
                },
                None => {},
            },
            None => {},
        }
    }

    /// The selected palette shade, if it exists.
    pub fn get_selected_shade(&self) -> (s: Option<&Shade>)
        ensures
            valid_pair(self.palette, self.selected_color as int, self.selected_shade as int) ==> s
                == Some(&self.palette.colors@[self.selected_color as int].shades@[self.selected_shade as int]),
            !valid_pair(self.palette, self.selected_color as int, self.selected_shade as int) ==> s is None,
    {
        match self.palette.color_at(self.selected_color) {
            Some(c) => c.shade_at(self.selected_shade),
            None => None,
        }
    }

    /// Switch to next RGB channel (Red -> Green -> Blue -> Red)
    pub fn next_channel(&mut self)
        ensures
            *final(self) == (ColorPickerState {
                active_channel: next_channel_of(old(self).active_channel),
                ..*old(self)
            }),
    {
        self.active_channel = match self.active_channel {
            RgbChannel::Red => RgbChannel::Green,
            RgbChannel::Green => RgbChannel::Blue,
            RgbChannel::Blue => RgbChannel::Red,
        };
    }

    /// Switch to previous RGB channel (Red -> Blue -> Green -> Red)
    pub fn previous_channel(&mut self)
        ensures
            *final(self) == (ColorPickerState {
                active_channel: previous_channel_of(old(self).active_channel),
                ..*old(self)
            }),
    {
        self.active_channel = match self.active_channel {
            RgbChannel::Red => RgbChannel::Blue,
            RgbChannel::Green => RgbChannel::Red,
            RgbChannel::Blue => RgbChannel::Green,
        };
    }

    /// Increase the active channel value (saturating at 255).
    pub fn increase_value(&mut self, amount: u8)
        ensures
            *final(self) == increased(*old(self), amount as int),
    {
        match self.active_channel {
            RgbChannel::Red => self.r = self.r.saturating_add(amount),
            RgbChannel::Green => self.g = self.g.saturating_add(amount),
            RgbChannel::Blue => self.b = self.b.saturating_add(amount),
        }
    }

    /// Decrease the active channel value (saturating at 0).
    pub fn decrease_value(&mut self, amount: u8)
        ensures
            *final(self) == decreased(*old(self), amount as int),
    {
        match self.active_channel {
            RgbChannel::Red => self.r = self.r.saturating_sub(amount),
            RgbChannel::Green => self.g = self.g.saturating_sub(amount),
            RgbChannel::Blue => self.b = self.b.saturating_sub(amount),
        }
    }

    /// Navigate in palette mode: on the color grid, move by `(dx, dy)`
    /// clamped to the grid (a move onto an empty cell of the last row does
    /// nothing); on the shade bar, move by `dx` clamped to the shades. The RGB
    /// values follow the new selection.
    pub fn navigate_palette(&mut self, dx: i32, dy: i32)
        requires
            navigable(*old(self), dx as int, dy as int),
        ensures
            *final(self) == navigated(*old(self), dx as int, dy as int),
            picker_wf(*old(self)) ==> picker_wf(*final(self)),
    {
        let columns = self.palette.columns();
        let color_count = self.palette.color_count();
        match self.palette_focus {
            PaletteFocus::Colors => {
                let rows = self.palette.rows();
                let current_row = self.selected_color / columns;
                let current_col = self.selected_color % columns;
                assert(1 <= rows) by (nonlinear_arith)
                    requires
                        rows == (color_count + columns - 1) / (columns as int),
                        color_count >= 1,
                        columns >= 1,
                ;
                let new_col = clamp_i32(current_col as i32 + dx, 0, columns as i32 - 1) as usize;
                let new_row = clamp_i32(current_row as i32 + dy, 0, (rows - 1) as i32) as usize;
                let new_idx = new_row * columns + new_col;
                if new_idx < color_count {
                    self.selected_color = new_idx;
                    self.sync_from_palette();
                }
            },
            PaletteFocus::Shades => {
                match self.palette.color_at(self.selected_color) {
                    Some(color) => {
                        let shade_count = color.shade_count();
                        let shade = clamp_i32(self.selected_shade as i32 + dx, 0, shade_count as i32 - 1);
                        self.selected_shade = shade as usize;
                        self.sync_from_palette();
                    },
                    None => {},
                }
            },
        }
    }

    /// Move focus between colors and shades
    pub fn toggle_palette_focus(&mut self)
        ensures
            *final(self) == (ColorPickerState {
                palette_focus: match old(self).palette_focus {
                    PaletteFocus::Colors => PaletteFocus::Shades,
                    PaletteFocus::Shades => PaletteFocus::Colors,
                },
                ..*old(self)
            }),
    {
        self.palette_focus = match self.palette_focus {
            PaletteFocus::Colors => PaletteFocus::Shades,
            PaletteFocus::Shades => PaletteFocus::Colors,
        };
    }
}


/// What the caller does after a key in the color picker.
#[derive(Debug, Clone, Copy, PartialEq, Eq, Structural)]
pub enum ColorPickerAction {
    /// Keep the picker open
    Stay,
    /// Close without changes
    Cancel,
    /// Apply the current color to the picker's target
    Apply,
    /// Clear the target's color
    Clear,
}

/// The picker's reaction to a key in palette mode.
pub open spec fn palette_step(s: ColorPickerState, key: KeyEvent) -> (ColorPickerState, ColorPickerAction) {
    match key.code {
        KeyCode::Esc => (s, ColorPickerAction::Cancel),
        KeyCode::Enter => (s, ColorPickerAction::Apply),
        KeyCode::Char('x') | KeyCode::Delete => (s, ColorPickerAction::Clear),
        KeyCode::Char('c') | KeyCode::Char('C') => (
            ColorPickerState { mode: ColorPickerMode::CustomRgb, ..s },
            ColorPickerAction::Stay,
        ),
        KeyCode::Tab => (
            ColorPickerState {
                palette_focus: match s.palette_focus {
                    PaletteFocus::Colors => PaletteFocus::Shades,
                    PaletteFocus::Shades => PaletteFocus::Colors,
                },
                ..s
            },
            ColorPickerAction::Stay,
        ),
        KeyCode::Up | KeyCode::Char('k') => (
            match s.palette_focus {
                PaletteFocus::Colors => navigated(s, 0, -1),
                PaletteFocus::Shades => ColorPickerState { palette_focus: PaletteFocus::Colors, ..s },
            },
            ColorPickerAction::Stay,
        ),
        KeyCode::Down | KeyCode::Char('j') => (
            match s.palette_focus {
                PaletteFocus::Colors => if (s.selected_color as int) / (s.palette.columns as int)
                    >= s.palette.spec_rows() - 1 {
                    ColorPickerState { palette_focus: PaletteFocus::Shades, ..s }
                } else {
                    navigated(s, 0, 1)
                },
                PaletteFocus::Shades => s,
            },
            ColorPickerAction::Stay,
        ),
        KeyCode::Left | KeyCode::Char('h') => (navigated(s, -1, 0), ColorPickerAction::Stay),
        KeyCode::Right | KeyCode::Char('l') => (navigated(s, 1, 0), ColorPickerAction::Stay),
        _ => (s, ColorPickerAction::Stay),
    }
}

/// The picker's reaction to a key in RGB mode.
pub open spec fn rgb_step(s: ColorPickerState, key: KeyEvent) -> (ColorPickerState, ColorPickerAction) {
    match key.code {
        KeyCode::Esc => (s, ColorPickerAction::Cancel),
        KeyCode::Enter => (s, ColorPickerAction::Apply),
        KeyCode::Char('x') | KeyCode::Delete => (s, ColorPickerAction::Clear),
        KeyCode::Char('p') | KeyCode::Char('P') => (
            ColorPickerState { mode: ColorPickerMode::Palette, ..s },
            ColorPickerAction::Stay,
        ),
        KeyCode::Up | KeyCode::Char('k') => (increased(s, 10), ColorPickerAction::Stay),
        KeyCode::Down | KeyCode::Char('j') => (decreased(s, 10), ColorPickerAction::Stay),
        KeyCode::Right | KeyCode::Char('l') => (increased(s, 1), ColorPickerAction::Stay),
        KeyCode::Left | KeyCode::Char('h') => (decreased(s, 1), ColorPickerAction::Stay),
        KeyCode::Tab => (
            if key.modifiers.shift {
                ColorPickerState { active_channel: previous_channel_of(s.active_channel), ..s }
            } else {
                ColorPickerState { active_channel: next_channel_of(s.active_channel), ..s }
            },
            ColorPickerAction::Stay,
        ),
        _ => (s, ColorPickerAction::Stay),
    }
}

impl ColorPickerState {
    /// Handles a key in the current mode; see [`palette_step`] and
    /// [`rgb_step`].
    pub fn handle_input(&mut self, key: KeyEvent) -> (a: ColorPickerAction)
        requires
            key_computable(*old(self), key),
        ensures
            (*final(self), a) == (match old(self).mode {
                ColorPickerMode::Palette => palette_step(*old(self), key),
                ColorPickerMode::CustomRgb => rgb_step(*old(self), key),
            }),
            picker_wf(*old(self)) ==> picker_wf(*final(self)),
    {
        match self.mode {
            ColorPickerMode::Palette => self.handle_palette_input(key),
            ColorPickerMode::CustomRgb => self.handle_rgb_input(key),
        }
    }

    /// Handles a key in palette mode.
    fn handle_palette_input(&mut self, key: KeyEvent) -> (a: ColorPickerAction)
        requires
            old(self).mode == ColorPickerMode::Palette,
            key_computable(*old(self), key),
        ensures
            (*final(self), a) == palette_step(*old(self), key),
            picker_wf(*old(self)) ==> picker_wf(*final(self)),
    {
        match key.code {
            KeyCode::Esc => ColorPickerAction::Cancel,
            KeyCode::Enter => ColorPickerAction::Apply,
            KeyCode::Char('x') | KeyCode::Delete => ColorPickerAction::Clear,
            KeyCode::Char('c') | KeyCode::Char('C') => {
                self.mode = ColorPickerMode::CustomRgb;
                ColorPickerAction::Stay
            },
            KeyCode::Tab => {
                self.toggle_palette_focus();
                ColorPickerAction::Stay
            },
            KeyCode::Up | KeyCode::Char('k') => {
                match self.palette_focus {
                    PaletteFocus::Colors => self.navigate_palette(0, -1),
                    PaletteFocus::Shades => {
                        self.palette_focus = PaletteFocus::Colors;
                    },
                }
                ColorPickerAction::Stay
            },
            KeyCode::Down | KeyCode::Char('j') => {
                match self.palette_focus {
                    PaletteFocus::Colors => {
                        let columns = self.palette.columns();
                        let current_row = self.selected_color / columns;
                        let rows = self.palette.rows();
                        assert(rows >= 1) by (nonlinear_arith)
                            requires
                                rows == (self.palette.colors@.len() + columns - 1) / (columns as int),
                                self.palette.colors@.len() >= 1,
                                columns >= 1,
                        ;
                        if current_row >= rows - 1 {
                            self.palette_focus = PaletteFocus::Shades;
                        } else {
                            self.navigate_palette(0, 1);
                        }
                    },
                    PaletteFocus::Shades => {},
                }
                ColorPickerAction::Stay
            },
            KeyCode::Left | KeyCode::Char('h') => {
                self.navigate_palette(-1, 0);
                ColorPickerAction::Stay
            },
            KeyCode::Right | KeyCode::Char('l') => {
                self.navigate_palette(1, 0);
                ColorPickerAction::Stay
            },
            _ => ColorPickerAction::Stay,
        }
    }

    /// Handles a key in RGB mode.
    fn handle_rgb_input(&mut self, key: KeyEvent) -> (a: ColorPickerAction)
        ensures
            (*final(self), a) == rgb_step(*old(self), key),
            picker_wf(*old(self)) ==> picker_wf(*final(self)),
    {
        match key.code {
            KeyCode::Esc => ColorPickerAction::Cancel,
            KeyCode::Enter => ColorPickerAction::Apply,
            KeyCode::Char('x') | KeyCode::Delete => ColorPickerAction::Clear,
            KeyCode::Char('p') | KeyCode::Char('P') => {
                self.mode = ColorPickerMode::Palette;
                ColorPickerAction::Stay
            },
            KeyCode::Up | KeyCode::Char('k') => {
                self.increase_value(10);
                ColorPickerAction::Stay
            },
            KeyCode::Down | KeyCode::Char('j') => {
                self.decrease_value(10);
                ColorPickerAction::Stay
            },
            KeyCode::Right | KeyCode::Char('l') => {
                self.increase_value(1);
                ColorPickerAction::Stay
            },
            KeyCode::Left | KeyCode::Char('h') => {
                self.decrease_value(1);
                ColorPickerAction::Stay
            },
            KeyCode::Tab => {
                if key.modifiers.shift {
                    self.previous_channel();
                } else {
                    self.next_channel();
                }
                ColorPickerAction::Stay
            },
            _ => ColorPickerAction::Stay,
        }
    }
}

/// On the color grid, Up selects the color one row above (and stays on the
/// first row), and Down selects the color one row below when there is one;
/// so Down then Up returns to the same color.
pub proof fn law_vertical_moves(s: ColorPickerState, up: KeyEvent, down: KeyEvent)
    requires
        picker_wf(s),
        s.mode == ColorPickerMode::Palette,
        s.palette_focus == PaletteFocus::Colors,
        up.code == KeyCode::Up,
        down.code == KeyCode::Down,
    ensures
        s.selected_color >= s.palette.columns ==> palette_step(s, up).0.selected_color
            == s.selected_color - s.palette.columns,
        s.selected_color < s.palette.columns ==> palette_step(s, up).0.selected_color == s.selected_color,
        s.selected_color + s.palette.columns < s.palette.colors@.len() ==> {
            &&& palette_step(s, down).0.selected_color == s.selected_color + s.palette.columns
            &&& palette_step(palette_step(s, down).0, up).0.selected_color == s.selected_color
        },
{
    let c = s.palette.columns as int;
    let sel = s.selected_color as int;
    let len = s.palette.colors@.len() as int;
    let rows = s.palette.spec_rows();
    let row = sel / c;
    let col = sel % c;
    assert(row * c + col == sel && 0 <= col < c && 0 <= row <= sel) by (nonlinear_arith)
        requires
            row == sel / c,
            col == sel % c,
            c >= 1,
            sel >= 0,
    ;
    assert(row <= rows - 1 && rows <= len) by (nonlinear_arith)
        requires
            row * c + col == sel,
            0 <= col < c,
            rows == (len + c - 1) / c,
            sel < len,
            c >= 1,
            row >= 0,
    ;
    assert(sel >= c <==> row >= 1) by (nonlinear_arith)
        requires
            row * c + col == sel,
            0 <= col < c,
            row >= 0,
    ;
    let (nr, nc) = grid_target(s, 0, -1);
    assert(((s.selected_color / s.palette.columns) as i32) as int == row);
    assert(((s.selected_color % s.palette.columns) as i32) as int == col);
    assert(((rows - 1) as usize) as i32 as int == rows - 1);
    assert(nc == col);
    if row >= 1 {
        assert(nr == row - 1);
        assert(nr * c + nc == sel - c) by (nonlinear_arith)
            requires
                nr == row - 1,
                nc == col,
                row * c + col == sel,
        ;
    } else {
        assert(nr == 0);
        assert(nr * c + nc == sel);
    }
    if sel + c < len {
        assert((row + 1) * c + col == sel + c) by (nonlinear_arith)
            requires
                row * c + col == sel,
        ;
        assert(row + 1 <= rows - 1) by (nonlinear_arith)
            requires
                (row + 1) * c + col == sel + c,
                0 <= col < c,
                rows == (len + c - 1) / c,
                sel + c < len,
                c >= 1,
        ;
        let t = palette_step(s, down).0;
        assert(t.selected_color == sel + c);
        let row2 = (sel + c) / c;
        let col2 = (sel + c) % c;
        assert(row2 == row + 1 && col2 == col) by (nonlinear_arith)
            requires
                row2 == (sel + c) / c,
                col2 == (sel + c) % c,
                row * c + col == sel,
                0 <= col < c,
                c >= 1,
        ;
        assert(t.palette == s.palette && t.palette_focus == s.palette_focus);
    }
}

/// Cycling the channel forward then backward returns to the same channel,
/// and three steps forward make a full cycle.
pub proof fn law_channel_cycle(c: RgbChannel)
    ensures
        previous_channel_of(next_channel_of(c)) == c,
        next_channel_of(previous_channel_of(c)) == c,
        next_channel_of(next_channel_of(next_channel_of(c))) == c,
{
}

/// Channel values stay within bounds and raising then lowering by the same
/// amount returns to the start when no saturation happened.
pub proof fn law_channel_roundtrip(v: u8, amount: u8)
    ensures
        0 <= sat_add_u8(v as int, amount as int) <= 255,
        0 <= sat_sub_u8(v as int, amount as int) <= 255,
        v + amount <= 255 ==> sat_sub_u8(sat_add_u8(v as int, amount as int), amount as int) == v,
{
}

/// A color that the palette holds is found exactly: when some shade has the
/// color's channels, the closest entry is a shade with those channels.
pub proof fn law_exact_color_found(p: ColorPalette, t: RgbColor, ci: int, si: int, c0: int, s0: int)
    requires
        is_closest(p, t, ci, si),
        valid_pair(p, c0, s0),
        p.colors@[c0].shades@[s0].r == t.r,
        p.colors@[c0].shades@[s0].g == t.g,
        p.colors@[c0].shades@[s0].b == t.b,
    ensures
        valid_pair(p, ci, si),
        p.colors@[ci].shades@[si].r == t.r,
        p.colors@[ci].shades@[si].g == t.g,
        p.colors@[ci].shades@[si].b == t.b,
{
    assert(pair_distance(p, c0, s0, t) == 0);
    assert(exists|c: int, s: int| valid_pair(p, c, s));
    let sh = p.colors@[ci].shades@[si];
    assert(pair_distance(p, ci, si, t) <= pair_distance(p, c0, s0, t));
    let dr: int = sh.r - t.r;
    let dg: int = sh.g - t.g;
    let db: int = sh.b - t.b;
    assert(dr * dr + dg * dg + db * db <= 0);
    assert(dr == 0 && dg == 0 && db == 0) by (nonlinear_arith)
        requires
            dr * dr + dg * dg + db * db <= 0,
    ;
}

/// Identifier of a category created from a name: the lowercase name with
/// every space replaced by `-`.
pub open spec fn category_id_of(name: Seq<char>) -> Seq<char> {
    lowercase(name).map_values(|c: char| if c == ' ' { '-' } else { c })
}

/// Builds the identifier of a new category from its name.
pub fn category_id_from_name(name: &str) -> (id: String)
    ensures
        id@ == category_id_of(name@),
{
    let lower = to_lowercase(name);
    let cs = chars_of(lower.as_str());
    let mut out: Vec<char> = Vec::new();
    let mut i: usize = 0;
    while i < cs.len()
        invariant
            i <= cs.len(),
            cs@ == lowercase(name@),
            out@ == cs@.take(i as int).map_values(|c: char| if c == ' ' { '-' } else { c }),
        decreases cs.len() - i,
    {
        let c = cs[i];
        out.push(if c == ' ' { '-' } else { c });
        assert(cs@.take(i as int + 1).map_values(|c: char| if c == ' ' { '-' } else { c })
            =~= cs@.take(i as int).map_values(|c: char| if c == ' ' { '-' } else { c }).push(
            if c == ' ' { '-' } else { c },
        ));
        i = i + 1;
    }
    assert(cs@.take(cs.len() as int) =~= cs@);
    string_from_chars(out.as_slice())
}

/// Where the interface goes after the picker acted.
#[derive(Debug, Clone, Copy, PartialEq, Eq, Structural)]
pub enum AfterPicker {
    /// Close the picker and forget its context
    Close,
    /// Return to the category manager and forget the picker's context
    CategoryManager,
    /// Keep the picker open with its context
    Stay,
}

/// What applying or clearing a color asks of the application.
#[derive(Debug, Clone)]
pub enum ColorCommand {
    /// Set (`Some`) or clear (`None`) the color override of the selected key
    KeyColor(Option<RgbColor>),
    /// Set the default color of the current layer
    LayerDefault(RgbColor),
    /// Create the category `id` named `name` with `color`
    CreateCategory {
        /// Identifier derived from the name
        id: String,
        /// Display name
        name: String,
        /// Color of the new category
        color: RgbColor,
    },
    /// Recolor the category at `index`
    RecolorCategory {
        /// Index of the category
        index: usize,
        /// New color
        color: RgbColor,
    },
    /// Report an error message
    Error(String),
}

/// Applies the picked color in its context. For a new category the name
/// comes from the category manager, which goes back to browsing; an existing
/// category is the manager's selected one.
pub fn apply_color(
    picker: &ColorPickerState,
    context: Option<ColorPickerContext>,
    manager: &mut CategoryManagerState,
) -> (r: (ColorCommand, AfterPicker))
    ensures
        ({
            let color = RgbColor { r: picker.r, g: picker.g, b: picker.b };
            let before = old(manager).mode@;
            let after = final(manager).mode@;
            match context {
                Some(ColorPickerContext::IndividualKey) => r.0 == ColorCommand::KeyColor(Some(color))
                    && r.1 == AfterPicker::Close && after == before,
                Some(ColorPickerContext::LayerDefault) => r.0 == ColorCommand::LayerDefault(color)
                    && r.1 == AfterPicker::Close && after == before,
                Some(ColorPickerContext::Category) => r.1 == AfterPicker::CategoryManager
                    && match before {
                    ModeView::CreatingColor { name } => (r.0 matches ColorCommand::CreateCategory {
                        id: i,
                        name: n,
                        color: c,
                    } && i@ == category_id_of(name) && n@ == name && c == color) && after is Browsing,
                    ModeView::Browsing => r.0 == (ColorCommand::RecolorCategory {
                        index: old(manager).selected,
                        color,
                    }) && after == before,
                    _ => (r.0 matches ColorCommand::Error(m) && m@ == "Invalid category manager state"@)
                        && after == before,
                },
                None => (r.0 matches ColorCommand::Error(m) && m@ == "No color context set"@) && r.1
                    == AfterPicker::Close && after == before,
            }
        }),
        final(manager).selected == old(manager).selected,
{
    let color = picker.get_color();
    match context {
        Some(ColorPickerContext::IndividualKey) => (ColorCommand::KeyColor(Some(color)), AfterPicker::Close),
        Some(ColorPickerContext::LayerDefault) => (ColorCommand::LayerDefault(color), AfterPicker::Close),
        Some(ColorPickerContext::Category) => {
            let cmd = match &manager.mode {
                ManagerMode::CreatingColor { name } => {
                    let name = name.clone();
                    let id = category_id_from_name(name.as_str());
                    ColorCommand::CreateCategory { id, name, color }
                },
                ManagerMode::Browsing => ColorCommand::RecolorCategory { index: manager.selected, color },
                _ => ColorCommand::Error(String::from_str("Invalid category manager state")),
            };
            if let ColorCommand::CreateCategory { .. } = &cmd {
                manager.cancel();
            }
            (cmd, AfterPicker::CategoryManager)
        },
        None => (ColorCommand::Error(String::from_str("No color context set")), AfterPicker::Close),
    }
}

/// Clears the color in its context: a key falls back to its layer's
/// default, a layer's default becomes white, and a category cannot lose its
/// color.
pub fn clear_color(context: Option<ColorPickerContext>) -> (r: (ColorCommand, AfterPicker))
    ensures
        match context {
            Some(ColorPickerContext::IndividualKey) => r.0 == ColorCommand::KeyColor(None) && r.1
                == AfterPicker::Close,
            Some(ColorPickerContext::LayerDefault) => r.0 == ColorCommand::LayerDefault(
                RgbColor { r: 255, g: 255, b: 255 },
            ) && r.1 == AfterPicker::Close,
            Some(ColorPickerContext::Category) => (r.0 matches ColorCommand::Error(m) && m@
                == "Categories must have a color"@) && r.1 == AfterPicker::Stay,
            None => (r.0 matches ColorCommand::Error(m) && m@ == "No color context set"@) && r.1
                == AfterPicker::Close,
        },
{
    match context {
        Some(ColorPickerContext::IndividualKey) => (ColorCommand::KeyColor(None), AfterPicker::Close),
        Some(ColorPickerContext::LayerDefault) => (
            ColorCommand::LayerDefault(RgbColor::new(255, 255, 255)),
            AfterPicker::Close,
        ),
        Some(ColorPickerContext::Category) => (
            ColorCommand::Error(String::from_str("Categories must have a color")),
            AfterPicker::Stay,
        ),
        None => (ColorCommand::Error(String::from_str("No color context set")), AfterPicker::Close),
    }
}

} // verus!
