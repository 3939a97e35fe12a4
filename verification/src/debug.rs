//! Scroll state of the log pane.

use vstd::prelude::*;

verus! {

/// Most log lines kept for display.
pub const MAX_LOGS: usize = 1000;

/// Position along one axis of a pane that shows `length` rows or columns.
#[derive(Clone, Copy, Debug, PartialEq, Eq, Structural)]
pub struct ScrollState {
    pub pos: usize,
    pub length: u16,
}

/// What a scroll bar is to be told after new lines came in.
#[derive(Clone, Copy, Debug, PartialEq, Eq)]
pub struct ScrollUpdate {
    /// The horizontal extent, where the longest line outgrows the pane.
    pub x_content: Option<usize>,
    /// The vertical extent, where the lines outgrow the pane.
    pub y_content: Option<usize>,
    /// Whether the view was at the bottom and moved on to the new bottom.
    pub y_to_bottom: bool,
}

/// How far a pane of `length` can be scrolled over `content`, where the
/// content outgrows it.
pub open spec fn extent(content: usize, length: u16) -> Option<usize> {
    if content > length {
        Some((content - length) as usize)
    } else {
        None
    }
}

impl ScrollState {
    /// The position one step back, not below zero.
    pub open spec fn stepped_back(self) -> ScrollState {
        ScrollState {
            pos: if self.pos == 0 {
                0
            } else {
                (self.pos - 1) as usize
            },
            ..self
        }
    }

    /// The position one step on, not beyond the extent of `content`; as it
    /// is where the content fits the pane.
    pub open spec fn stepped_on(self, content: usize) -> ScrollState {
        match extent(content, self.length) {
            None => self,
            Some(limit) => ScrollState {
                pos: if self.pos < limit {
                    (self.pos + 1) as usize
                } else {
                    limit
                },
                ..self
            },
        }
    }

    /// Steps back by one.
    pub fn back(&mut self)
        ensures
            *final(self) == old(self).stepped_back(),
    {
        self.pos = self.pos.saturating_sub(1);
    }

    /// Steps on by one where `content` outgrows the pane, and says whether
    /// it does.
    pub fn forward(&mut self, content: usize) -> (scrollable: bool)
        ensures
            scrollable == extent(content, old(self).length).is_some(),
            *final(self) == old(self).stepped_on(content),
    {
        if content > self.length as usize {
            let limit = content - self.length as usize;
            let next = self.pos.saturating_add(1);
            self.pos = if next > limit {
                limit
            } else {
                next
            };
            true
        } else {
            false
        }
    }
}

/// Scroll state of the log pane: both axes, and the length of the longest
/// line seen.
#[derive(Clone, Copy, Debug, PartialEq, Eq, Structural)]
pub struct LogScroll {
    pub y_scroll: ScrollState,
    pub x_scroll: ScrollState,
    pub max_log_len: usize,
}

impl LogScroll {
    /// The state before any line came in.
    pub fn new() -> (scroll: LogScroll)
        ensures
            scroll == (LogScroll {
                y_scroll: ScrollState { pos: 0, length: 0 },
                x_scroll: ScrollState { pos: 0, length: 0 },
                max_log_len: 0,
            }),
    {
        LogScroll {
            y_scroll: ScrollState { pos: 0, length: 0 },
            x_scroll: ScrollState { pos: 0, length: 0 },
            max_log_len: 0,
        }
    }

    /// Moves the view one line up.
    pub fn scroll_up(&mut self)
        ensures
            *final(self) == (LogScroll { y_scroll: old(self).y_scroll.stepped_back(), ..*old(self) }),
    {
        self.y_scroll.back();
    }

    /// Moves the view one line down where `logs_len` lines outgrow the
    /// pane, and says whether they do.
    pub fn scroll_down(&mut self, logs_len: usize) -> (scrollable: bool)
        ensures
            scrollable == extent(logs_len, old(self).y_scroll.length).is_some(),
            *final(self) == (LogScroll {
                y_scroll: old(self).y_scroll.stepped_on(logs_len),
                ..*old(self)
            }),
    {
        self.y_scroll.forward(logs_len)
    }

    /// Moves the view one column left.
    pub fn scroll_left(&mut self)
        ensures
            *final(self) == (LogScroll { x_scroll: old(self).x_scroll.stepped_back(), ..*old(self) }),
    {
        self.x_scroll.back();
    }

    /// Moves the view one column right where the longest line outgrows the
    /// pane, and says whether it does.
    pub fn scroll_right(&mut self) -> (scrollable: bool)
        ensures
            scrollable == extent(old(self).max_log_len, old(self).x_scroll.length).is_some(),
            *final(self) == (LogScroll {
                x_scroll: old(self).x_scroll.stepped_on(old(self).max_log_len),
                ..*old(self)
            }),
    {
        let content = self.max_log_len;
        self.x_scroll.forward(content)
    }

    /// Takes note of a line of `len` characters.
    pub fn record_line(&mut self, len: usize)
        ensures
            *final(self) == (LogScroll {
                max_log_len: if len > old(self).max_log_len {
                    len
                } else {
                    old(self).max_log_len
                },
                ..*old(self)
            }),
    {
        if len > self.max_log_len {
            self.max_log_len = len;
        }
    }

    /// Whether a view at `pos` stood at the bottom before `new_lines` lines
    /// raised the extent to `height`.
    pub open spec fn was_at_bottom(pos: usize, height: usize, new_lines: usize) -> bool {
        new_lines <= height && pos == height - new_lines
    }

    /// Adjusts the view after `new_lines` lines came in, `logs_len` lines
    /// being kept now. A view that stood at the bottom stays at the bottom.
    pub fn update_scroll(&mut self, logs_len: usize, new_lines: usize) -> (update: ScrollUpdate)
        ensures
            update.x_content == extent(old(self).max_log_len, old(self).x_scroll.length),
            update.y_content == extent(logs_len, old(self).y_scroll.length),
            update.y_to_bottom == (update.y_content matches Some(height) && Self::was_at_bottom(
                old(self).y_scroll.pos,
                height,
                new_lines,
            )),
            *final(self) == (LogScroll {
                y_scroll: ScrollState {
                    pos: if update.y_to_bottom {
                        update.y_content->Some_0
                    } else {
                        old(self).y_scroll.pos
                    },
                    ..old(self).y_scroll
                },
                ..*old(self)
            }),
    {
        // Adjust the length of the horizontal scroll bar if a log doesn't fit in the window
        let x_content = if self.max_log_len > self.x_scroll.length as usize {
            Some(self.max_log_len - self.x_scroll.length as usize)
        } else {
            None
        };

        // Adjust the length of the vertical scroll bar if the number of logs doesn't fit in the window
        let mut y_content: Option<usize> = None;
        let mut y_to_bottom = false;
        if logs_len > self.y_scroll.length as usize {
            let height = logs_len - self.y_scroll.length as usize;
            y_content = Some(height);

            // If we are currently scrolled to the bottom, stay scrolled to the bottom as new logs come in
            if new_lines <= height && self.y_scroll.pos == height - new_lines {
                self.y_scroll.pos = height;
                y_to_bottom = true;
            }
        }
        ScrollUpdate { x_content, y_content, y_to_bottom }
    }
}

} // verus!
