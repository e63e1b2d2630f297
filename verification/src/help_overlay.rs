//! Scroll state and key handling of the help overlay.
//!
//! The scroll offset is the first visible line. It is stored raw and clamped
//! when the overlay is drawn, to `max_scroll = total_lines - visible_height`
//! (saturating), so that the last line of content sits at the bottom of the
//! viewport when scrolled to the end.

use vstd::prelude::*;

use crate::keys::{KeyCode, KeyEvent};
use crate::text::{concat3, join_seqs, join_strings, views};

verus! {

/// Minimum modal width.
pub const MIN_MODAL_WIDTH: u16 = 40;

/// Minimum modal height.
pub const MIN_MODAL_HEIGHT: u16 = 10;

/// Events emitted by the help overlay.
#[derive(Debug, Clone, Copy, PartialEq, Eq, Structural)]
pub enum HelpOverlayEvent {
    /// User closed the help overlay
    Closed,
}

/// State for the help overlay.
#[derive(Debug, Clone, Copy)]
pub struct HelpOverlayState {
    /// Current scroll offset (first visible line number); clamped when drawn.
    pub scroll_offset: usize,
}

/// `a - b`, or 0 when `b >= a`.
pub open spec fn sat_sub(a: int, b: int) -> int {
    if a >= b { a - b } else { 0 }
}

/// `a + b`, or `usize::MAX` when the sum does not fit.
pub open spec fn sat_add(a: int, b: int) -> int {
    if a + b <= usize::MAX { a + b } else { usize::MAX as int }
}

/// Largest valid scroll offset for the given content and viewport heights.
pub open spec fn max_scroll(total_lines: int, visible_height: int) -> int {
    sat_sub(total_lines, visible_height)
}

/// The offset actually used when drawing.
pub open spec fn clamp_offset(offset: int, total_lines: int, visible_height: int) -> int {
    let m = max_scroll(total_lines, visible_height);
    if offset <= m { offset } else { m }
}

impl HelpOverlayState {
    /// Creates a new help overlay state.
    pub fn new() -> (s: Self)
        ensures
            s.scroll_offset == 0,
    {
        HelpOverlayState { scroll_offset: 0 }
    }

    /// Maximum valid scroll offset given content and viewport sizes: the
    /// offset at which the last line of content aligns with the bottom of the
    /// viewport, or 0 when the content fits.
    pub fn compute_max_scroll(total_lines: usize, visible_height: usize) -> (m: usize)
        ensures
            m == max_scroll(total_lines as int, visible_height as int),
    {
        total_lines.saturating_sub(visible_height)
    }

    /// The clamped scroll offset for the given content and viewport sizes.
    pub fn clamped_offset(&self, total_lines: usize, visible_height: usize) -> (o: usize)
        ensures
            o == clamp_offset(self.scroll_offset as int, total_lines as int, visible_height as int),
    {
        let m = Self::compute_max_scroll(total_lines, visible_height);
        if self.scroll_offset <= m {
            self.scroll_offset
        } else {
            m
        }
    }

    /// Scroll up by one line.
    pub fn scroll_up(&mut self)
        ensures
            final(self).scroll_offset == sat_sub(old(self).scroll_offset as int, 1),
    {
        self.scroll_offset = self.scroll_offset.saturating_sub(1);
    }

    /// Scroll down by one line (clamped when drawn).
    pub fn scroll_down(&mut self)
        ensures
            final(self).scroll_offset == sat_add(old(self).scroll_offset as int, 1),
    {
        self.scroll_offset = self.scroll_offset.saturating_add(1);
    }

    /// Scroll to the top.
    pub fn scroll_to_top(&mut self)
        ensures
            final(self).scroll_offset == 0,
    {
        self.scroll_offset = 0;
    }

    /// Scroll to the bottom (the maximum value, clamped when drawn).
    pub fn scroll_to_bottom(&mut self)
        ensures
            final(self).scroll_offset == usize::MAX,
    {
        self.scroll_offset = usize::MAX;
    }

    /// Scroll down by a page.
    pub fn page_down(&mut self, visible_height: usize)
        ensures
            final(self).scroll_offset == sat_add(old(self).scroll_offset as int, visible_height as int),
    {
        self.scroll_offset = self.scroll_offset.saturating_add(visible_height);
    }

    /// Scroll up by a page.
    pub fn page_up(&mut self, visible_height: usize)
        ensures
            final(self).scroll_offset == sat_sub(old(self).scroll_offset as int, visible_height as int),
    {
        self.scroll_offset = self.scroll_offset.saturating_sub(visible_height);
    }

    /// Formats a binding's keys for display: the keys joined with `/`, then
    /// the alternative keys in parentheses when there are any.
    pub fn format_keys(keys: &Vec<String>, alt_keys: &Vec<String>) -> (s: String)
        ensures
            s@ == (if alt_keys@.len() == 0 {
                join_seqs(views(keys@), "/"@)
            } else {
                join_seqs(views(keys@), "/"@) + " ("@ + join_seqs(views(alt_keys@), "/"@) + ")"@
            }),
    {
        let primary = join_strings(keys, "/");
        if alt_keys.len() == 0 {
            primary
        } else {
            let alt = join_strings(alt_keys, "/");
            let mut s = concat3(primary.as_str(), " (", alt.as_str());
            s.append(")");
            s
        }
    }
}

impl Default for HelpOverlayState {
    fn default() -> (s: Self)
        ensures
            s.scroll_offset == 0,
    {
        Self::new()
    }
}

/// Scroll offsets only move toward the valid range once clamped: whatever the
/// raw offset, the drawn offset lies in `0..=max_scroll`, is the raw offset
/// when that is in range, and scrolling to the bottom always shows the end.
pub proof fn law_clamped_offset_in_range(offset: usize, total_lines: usize, visible_height: usize)
    ensures
        0 <= clamp_offset(offset as int, total_lines as int, visible_height as int) <= max_scroll(
            total_lines as int,
            visible_height as int,
        ),
        offset <= max_scroll(total_lines as int, visible_height as int) ==> clamp_offset(
            offset as int,
            total_lines as int,
            visible_height as int,
        ) == offset,
        clamp_offset(usize::MAX as int, total_lines as int, visible_height as int) == max_scroll(
            total_lines as int,
            visible_height as int,
        ),
        total_lines <= visible_height ==> clamp_offset(
            offset as int,
            total_lines as int,
            visible_height as int,
        ) == 0,
{
}

/// Paging down then up by the same amount returns to the start when no
/// saturation happened; scrolling up never goes below the top.
pub proof fn law_page_roundtrip(offset: usize, page: usize)
    ensures
        offset + page <= usize::MAX ==> sat_sub(sat_add(offset as int, page as int), page as int)
            == offset,
        sat_sub(offset as int, page as int) >= 0,
{
}

/// Position and size of the centered help modal inside an area.
#[derive(Debug, Clone, Copy, PartialEq, Eq, Structural)]
pub struct ModalArea {
    /// Left edge
    pub x: u16,
    /// Top edge
    pub y: u16,
    /// Width
    pub width: u16,
    /// Height
    pub height: u16,
}

/// Modal size along one axis: `percent` of `extent`, at least `min`, never
/// more than `extent`.
pub open spec fn modal_extent(extent: int, percent: int, min: int) -> int {
    let scaled = extent * percent / 100;
    let at_least = if scaled >= min { scaled } else { min };
    if at_least <= extent { at_least } else { extent }
}

/// The centered modal for an area at `(x, y)` of size `width` x `height`:
/// 60% of the width and 80% of the height, at least 40 x 10, clipped to the
/// area, and centered in it.
pub fn help_modal_area(x: u16, y: u16, width: u16, height: u16) -> (m: ModalArea)
    requires
        width as int * 60 <= u16::MAX,
        height as int * 80 <= u16::MAX,
        x as int + width as int <= u16::MAX,
        y as int + height as int <= u16::MAX,
    ensures
        m.width == modal_extent(width as int, 60, MIN_MODAL_WIDTH as int),
        m.height == modal_extent(height as int, 80, MIN_MODAL_HEIGHT as int),
        m.x == x + (width - m.width) / 2,
        m.y == y + (height - m.height) / 2,
{
    let w0 = (width * 60) / 100;
    let w1 = if w0 >= MIN_MODAL_WIDTH { w0 } else { MIN_MODAL_WIDTH };
    let w = if w1 <= width { w1 } else { width };
    let h0 = (height * 80) / 100;
    let h1 = if h0 >= MIN_MODAL_HEIGHT { h0 } else { MIN_MODAL_HEIGHT };
    let h = if h1 <= height { h1 } else { height };
    let mx = width.saturating_sub(w) / 2;
    let my = height.saturating_sub(h) / 2;
    ModalArea { x: mx + x, y: my + y, width: w, height: h }
}

/// Help overlay component.
#[derive(Debug, Clone, Copy)]
pub struct HelpOverlay {
    /// Internal state of the help overlay
    pub state: HelpOverlayState,
}

impl HelpOverlay {
    /// Create a new help overlay scrolled to the top.
    pub fn new() -> (h: Self)
        ensures
            h.state.scroll_offset == 0,
    {
        HelpOverlay { state: HelpOverlayState::new() }
    }

    /// Handles a key: `?`, `q` and Esc close the overlay; Up/`k` and
    /// Down/`j` scroll a line; PageUp/PageDown scroll ten lines; Home/`g`
    /// and End/`G` jump to the top and bottom. Other keys are ignored.
    pub fn handle_input(&mut self, key: KeyEvent) -> (ev: Option<HelpOverlayEvent>)
        ensures
            ({
                let o = old(self).state.scroll_offset as int;
                let n = final(self).state.scroll_offset as int;
                match key.code {
                    KeyCode::Char('?') | KeyCode::Esc | KeyCode::Char('q') => ev == Some(
                        HelpOverlayEvent::Closed,
                    ) && n == o,
                    KeyCode::Up | KeyCode::Char('k') => ev is None && n == sat_sub(o, 1),
                    KeyCode::Down | KeyCode::Char('j') => ev is None && n == sat_add(o, 1),
                    KeyCode::PageUp => ev is None && n == sat_sub(o, 10),
                    KeyCode::PageDown => ev is None && n == sat_add(o, 10),
                    KeyCode::Home | KeyCode::Char('g') => ev is None && n == 0,
                    KeyCode::End | KeyCode::Char('G') => ev is None && n == usize::MAX,
                    _ => ev is None && n == o,
                }
            }),
    {
        match key.code {
            KeyCode::Char('?') | KeyCode::Esc | KeyCode::Char('q') => Some(HelpOverlayEvent::Closed),
            KeyCode::Up | KeyCode::Char('k') => {
                self.state.scroll_up();
                None
            },
            KeyCode::Down | KeyCode::Char('j') => {
                self.state.scroll_down();
                None
            },
            KeyCode::PageUp => {
                self.state.page_up(10);
                None
            },
            KeyCode::PageDown => {
                self.state.page_down(10);
                None
            },
            KeyCode::Home | KeyCode::Char('g') => {
                self.state.scroll_to_top();
                None
            },
            KeyCode::End | KeyCode::Char('G') => {
                self.state.scroll_to_bottom();
                None
            },
            _ => None,
        }
    }
}

impl Default for HelpOverlay {
    fn default() -> (h: Self)
        ensures
            h.state.scroll_offset == 0,
    {
        Self::new()
    }
}

} // verus!
