//! Scroll state and key handling of the firmware build log viewer.

use vstd::prelude::*;

use crate::help_overlay::max_scroll;
use crate::keys::{KeyCode, KeyEvent};

verus! {

/// Number of log lines assumed visible when handling keys.
pub const APPROX_VISIBLE_LINES: usize = 20;

/// Events emitted by the build log viewer.
#[derive(Debug, Clone, Copy, PartialEq, Eq, Structural)]
pub enum BuildLogEvent {
    /// User closed the build log
    Closed,
}

/// Build log viewer state with scrolling support.
#[derive(Debug, Clone, Copy)]
pub struct BuildLogState {
    /// Scroll offset (number of lines from top)
    pub scroll_offset: usize,
    /// Whether the log viewer is visible
    pub visible: bool,
}

/// Offset after scrolling down one line in a log of `max_lines` lines of
/// which `visible_lines` fit: one more, unless the last line is already shown.
pub open spec fn scrolled_down(offset: int, max_lines: int, visible_lines: int) -> int {
    if max_lines > visible_lines && offset < max_lines - visible_lines {
        offset + 1
    } else {
        offset
    }
}

impl BuildLogState {
    /// Creates a new build log state.
    pub fn new() -> (s: Self)
        ensures
            s.scroll_offset == 0,
            !s.visible,
    {
        BuildLogState { scroll_offset: 0, visible: false }
    }

    /// Scrolls the log view up by one line.
    pub fn scroll_up(&mut self)
        ensures
            final(self).scroll_offset == (if old(self).scroll_offset > 0 {
                old(self).scroll_offset - 1
            } else {
                0
            }),
            final(self).visible == old(self).visible,
    {
        if self.scroll_offset > 0 {
            self.scroll_offset = self.scroll_offset - 1;
        }
    }

    /// Scrolls the log view down by one line.
    pub fn scroll_down(&mut self, max_lines: usize, visible_lines: usize)
        ensures
            final(self).scroll_offset == scrolled_down(
                old(self).scroll_offset as int,
                max_lines as int,
                visible_lines as int,
            ),
            final(self).visible == old(self).visible,
    {
        if max_lines > visible_lines && self.scroll_offset < max_lines - visible_lines {
            self.scroll_offset = self.scroll_offset + 1;
        }
    }

    /// Jumps to the top of the log.
    pub fn scroll_to_top(&mut self)
        ensures
            final(self).scroll_offset == 0,
            final(self).visible == old(self).visible,
    {
        self.scroll_offset = 0;
    }

    /// Jumps to the bottom of the log.
    pub fn scroll_to_bottom(&mut self, max_lines: usize, visible_lines: usize)
        ensures
            final(self).scroll_offset == max_scroll(max_lines as int, visible_lines as int),
            final(self).visible == old(self).visible,
    {
        if max_lines > visible_lines {
            self.scroll_offset = max_lines - visible_lines;
        } else {
            self.scroll_offset = 0;
        }
    }
}

impl Default for BuildLogState {
    fn default() -> (s: Self)
        ensures
            s.scroll_offset == 0,
            !s.visible,
    {
        Self::new()
    }
}

/// The scroll offset never leaves the valid range: starting from an offset
/// within `0..=max_lines - visible_lines` (saturating), scrolling up, down,
/// to the top or to the bottom keeps it there.
pub proof fn law_scroll_stays_in_range(offset: usize, max_lines: usize, visible_lines: usize)
    requires
        offset <= max_scroll(max_lines as int, visible_lines as int),
    ensures
        scrolled_down(offset as int, max_lines as int, visible_lines as int) <= max_scroll(
            max_lines as int,
            visible_lines as int,
        ),
        (if offset > 0 { offset - 1 } else { 0 }) <= max_scroll(
            max_lines as int,
            visible_lines as int,
        ),
{
}

/// Range `[start, end)` of log lines shown for a scroll offset: the offset
/// clamped to the last line, then at most `visible_lines` lines.
pub open spec fn log_window(offset: int, total: int, visible_lines: int) -> (int, int) {
    let last = if total > 0 { total - 1 } else { 0 };
    let start = if offset <= last { offset } else { last };
    let end = if start + visible_lines <= total { start + visible_lines } else { total };
    (start, end)
}

/// Lines of the log shown for the current scroll offset.
pub fn visible_range(scroll_offset: usize, total_lines: usize, visible_lines: usize) -> (r: (
    usize,
    usize,
))
    requires
        total_lines as int + visible_lines as int <= usize::MAX,
    ensures
        (r.0 as int, r.1 as int) == log_window(
            scroll_offset as int,
            total_lines as int,
            visible_lines as int,
        ),
        r.0 <= r.1 || total_lines == 0,
        r.1 <= total_lines,
{
    let last = total_lines.saturating_sub(1);
    let start = if scroll_offset <= last { scroll_offset } else { last };
    let end = if start + visible_lines <= total_lines { start + visible_lines } else { total_lines };
    (start, end)
}

/// Build log viewer component.
#[derive(Debug, Clone, Copy)]
pub struct BuildLog {
    /// Internal state of the build log
    pub state: BuildLogState,
}

impl BuildLog {
    /// Create a new build log viewer.
    pub fn new() -> (b: Self)
        ensures
            b.state.scroll_offset == 0,
            !b.state.visible,
    {
        BuildLog { state: BuildLogState::new() }
    }

    /// Handles a key for a log of `log_line_count` lines: Esc or `B` closes;
    /// Up/`k` and Down/`j` scroll a line; Home/`g` and End/`G` jump to the top
    /// and bottom (about twenty lines are taken as visible).
    pub fn handle_input(&mut self, key: KeyEvent, log_line_count: usize) -> (ev: Option<
        BuildLogEvent,
    >)
        ensures
            ({
                let o = old(self).state.scroll_offset as int;
                let n = final(self).state.scroll_offset as int;
                let v = APPROX_VISIBLE_LINES as int;
                match key.code {
                    KeyCode::Esc | KeyCode::Char('B') => ev == Some(BuildLogEvent::Closed) && n == o,
                    KeyCode::Up | KeyCode::Char('k') => ev is None && n == (if o > 0 {
                        o - 1
                    } else {
                        0
                    }),
                    KeyCode::Down | KeyCode::Char('j') => ev is None && n == scrolled_down(
                        o,
                        log_line_count as int,
                        v,
                    ),
                    KeyCode::Home | KeyCode::Char('g') => ev is None && n == 0,
                    KeyCode::End | KeyCode::Char('G') => ev is None && n == max_scroll(
                        log_line_count as int,
                        v,
                    ),
                    _ => ev is None && n == o,
                }
            }),
            final(self).state.visible == old(self).state.visible,
    {
        match key.code {
            KeyCode::Esc | KeyCode::Char('B') => Some(BuildLogEvent::Closed),
            KeyCode::Up | KeyCode::Char('k') => {
                self.state.scroll_up();
                None
            },
            KeyCode::Down | KeyCode::Char('j') => {
                self.state.scroll_down(log_line_count, APPROX_VISIBLE_LINES);
                None
            },
            KeyCode::Home | KeyCode::Char('g') => {
                self.state.scroll_to_top();
                None
            },
            KeyCode::End | KeyCode::Char('G') => {
                self.state.scroll_to_bottom(log_line_count, APPROX_VISIBLE_LINES);
                None
            },
            _ => None,
        }
    }
}

impl Default for BuildLog {
    fn default() -> (b: Self)
        ensures
            b.state.scroll_offset == 0,
            !b.state.visible,
    {
        Self::new()
    }
}

} // verus!
