//! The scrollable console of log messages, and the panes of the local
//! browser interface.

use std::collections::VecDeque;
use vstd::prelude::*;

verus! {

/// How many messages the console keeps before dropping the oldest.
pub const CONSOLE_CAPACITY: usize = 1000;

/// Which pane of the browser interface holds the focus.
#[derive(Debug, Clone, Copy, PartialEq, Eq, Structural)]
pub enum FocusedPane {
    BookList,
    ChapterList,
    BookInfo,
    AudioControls,
    Console,
}

/// Which side of the screen the focused pane sits on.
#[derive(Debug, Clone, Copy, PartialEq, Eq, Structural)]
pub enum Side {
    Left,
    Right,
    Bottom,
}

/// The pane counter-clockwise of the given one.
pub fn pane_left_of(pane: FocusedPane) -> (r: FocusedPane)
    ensures
        r == (match pane {
            FocusedPane::BookList => FocusedPane::Console,
            FocusedPane::ChapterList => FocusedPane::BookList,
            FocusedPane::BookInfo => FocusedPane::ChapterList,
            FocusedPane::AudioControls => FocusedPane::BookInfo,
            FocusedPane::Console => FocusedPane::AudioControls,
        }),
{
    match pane {
        FocusedPane::BookList => FocusedPane::Console,
        FocusedPane::ChapterList => FocusedPane::BookList,
        FocusedPane::BookInfo => FocusedPane::ChapterList,
        FocusedPane::AudioControls => FocusedPane::BookInfo,
        FocusedPane::Console => FocusedPane::AudioControls,
    }
}

/// The pane clockwise of the given one.
pub fn pane_right_of(pane: FocusedPane) -> (r: FocusedPane)
    ensures
        r == (match pane {
            FocusedPane::BookList => FocusedPane::ChapterList,
            FocusedPane::ChapterList => FocusedPane::BookInfo,
            FocusedPane::BookInfo => FocusedPane::AudioControls,
            FocusedPane::AudioControls => FocusedPane::Console,
            FocusedPane::Console => FocusedPane::BookList,
        }),
{
    match pane {
        FocusedPane::BookList => FocusedPane::ChapterList,
        FocusedPane::ChapterList => FocusedPane::BookInfo,
        FocusedPane::BookInfo => FocusedPane::AudioControls,
        FocusedPane::AudioControls => FocusedPane::Console,
        FocusedPane::Console => FocusedPane::BookList,
    }
}

/// The side of the screen a pane sits on.
pub fn side_of(pane: FocusedPane) -> (r: Side)
    ensures
        r == (match pane {
            FocusedPane::BookList => Side::Left,
            FocusedPane::ChapterList => Side::Left,
            FocusedPane::BookInfo => Side::Right,
            FocusedPane::AudioControls => Side::Right,
            FocusedPane::Console => Side::Bottom,
        }),
{
    match pane {
        FocusedPane::BookList | FocusedPane::ChapterList => Side::Left,
        FocusedPane::BookInfo | FocusedPane::AudioControls => Side::Right,
        FocusedPane::Console => Side::Bottom,
    }
}

/// One logged line: when, how severe, and what.
#[derive(Debug, Clone)]
pub struct ConsoleMessage {
    pub timestamp: String,
    pub level: String,
    pub message: String,
}

/// The console: a capped queue of messages and a scroll position over
/// them.
#[derive(Debug)]
pub struct ConsoleLog {
    pub messages: VecDeque<ConsoleMessage>,
    pub scroll_offset: usize,
    pub viewport_height: usize,
}

/// The scroll offset that shows the bottom of the console.
pub open spec fn spec_max_offset(len: int, viewport: int) -> int {
    if len >= viewport {
        len - viewport
    } else {
        0
    }
}

impl ConsoleLog {
    /// The logged messages, oldest first.
    pub open spec fn messages_view(&self) -> Seq<ConsoleMessage> {
        self.messages@
    }

    /// An empty console with the given viewport height.
    pub fn new(viewport_height: usize) -> (r: ConsoleLog)
        ensures
            r.messages_view().len() == 0,
            r.scroll_offset == 0,
            r.viewport_height == viewport_height,
    {
        ConsoleLog { messages: VecDeque::new(), scroll_offset: 0, viewport_height }
    }

    /// Number of logged messages.
    pub fn len(&self) -> (r: usize)
        ensures
            r == self.messages_view().len(),
    {
        self.messages.len()
    }

    /// Appends a message.  Past the capacity the oldest message is
    /// dropped, moving the scroll up with it; and a reader already at
    /// the bottom is kept there.
    pub fn log_message(&mut self, msg: ConsoleMessage)
        ensures
            final(self).viewport_height == old(self).viewport_height,
            old(self).messages_view().len() < CONSOLE_CAPACITY ==> final(self).messages_view()
                == old(self).messages_view().push(msg),
            old(self).messages_view().len() >= CONSOLE_CAPACITY ==> final(self).messages_view()
                == old(self).messages_view().push(msg).drop_first(),
            final(self).scroll_offset == ({
                let off1 = if old(self).messages_view().len() >= CONSOLE_CAPACITY && old(
                    self,
                ).scroll_offset > 0 {
                    old(self).scroll_offset - 1
                } else {
                    old(self).scroll_offset as int
                };
                let total = final(self).messages_view().len() as int;
                if off1 + old(self).viewport_height + 1 >= total {
                    spec_max_offset(total, old(self).viewport_height as int)
                } else {
                    off1
                }
            }),
    {
        self.messages.push_back(msg);
        if self.messages.len() > CONSOLE_CAPACITY {
            let _ = self.messages.pop_front();
            if self.scroll_offset > 0 {
                self.scroll_offset = self.scroll_offset - 1;
            }
        }
        let total = self.messages.len();
        let near_bottom = (self.scroll_offset as u128) + (self.viewport_height as u128) + 1 >= (
        total as u128);
        if near_bottom {
            self.scroll_offset = if total >= self.viewport_height {
                total - self.viewport_height
            } else {
                0
            };
        }
    }

    /// Scrolls one line toward the top.
    pub fn scroll_console_up(&mut self)
        ensures
            final(self).messages_view() == old(self).messages_view(),
            final(self).viewport_height == old(self).viewport_height,
            final(self).scroll_offset == (if old(self).scroll_offset > 0 {
                old(self).scroll_offset - 1
            } else {
                0int
            }),
    {
        if self.scroll_offset > 0 {
            self.scroll_offset = self.scroll_offset - 1;
        }
    }

    /// Scrolls one line toward the bottom, stopping there.
    pub fn scroll_console_down(&mut self)
        ensures
            final(self).messages_view() == old(self).messages_view(),
            final(self).viewport_height == old(self).viewport_height,
            final(self).scroll_offset == (if (old(self).scroll_offset as int) < spec_max_offset(
                old(self).messages_view().len() as int,
                old(self).viewport_height as int,
            ) {
                old(self).scroll_offset + 1
            } else {
                old(self).scroll_offset as int
            }),
    {
        let max_offset = self.max_offset();
        if self.scroll_offset < max_offset {
            self.scroll_offset = self.scroll_offset + 1;
        }
    }

    /// Scrolls one viewport toward the top.
    pub fn scroll_console_page_up(&mut self)
        ensures
            final(self).messages_view() == old(self).messages_view(),
            final(self).viewport_height == old(self).viewport_height,
            final(self).scroll_offset == (if old(self).scroll_offset >= old(self).viewport_height {
                old(self).scroll_offset - old(self).viewport_height
            } else {
                0int
            }),
    {
        if self.scroll_offset >= self.viewport_height {
            self.scroll_offset = self.scroll_offset - self.viewport_height;
        } else {
            self.scroll_offset = 0;
        }
    }

    /// Scrolls one viewport toward the bottom, stopping there.
    pub fn scroll_console_page_down(&mut self)
        ensures
            final(self).messages_view() == old(self).messages_view(),
            final(self).viewport_height == old(self).viewport_height,
            final(self).scroll_offset == ({
                let max = spec_max_offset(
                    old(self).messages_view().len() as int,
                    old(self).viewport_height as int,
                );
                let stepped = old(self).scroll_offset + old(self).viewport_height;
                if stepped < max {
                    stepped
                } else {
                    max
                }
            }),
    {
        let max_offset = self.max_offset();
        let stepped = if self.scroll_offset <= usize::MAX - self.viewport_height {
            self.scroll_offset + self.viewport_height
        } else {
            usize::MAX
        };
        self.scroll_offset = if stepped < max_offset {
            stepped
        } else {
            max_offset
        };
    }

    /// Jumps to the top.
    pub fn scroll_console_to_top(&mut self)
        ensures
            final(self).messages_view() == old(self).messages_view(),
            final(self).viewport_height == old(self).viewport_height,
            final(self).scroll_offset == 0,
    {
        self.scroll_offset = 0;
    }

    /// Jumps to the bottom.
    pub fn scroll_console_to_bottom(&mut self)
        ensures
            final(self).messages_view() == old(self).messages_view(),
            final(self).viewport_height == old(self).viewport_height,
            final(self).scroll_offset == spec_max_offset(
                old(self).messages_view().len() as int,
                old(self).viewport_height as int,
            ),
    {
        self.scroll_offset = self.max_offset();
    }

    /// Drops every message and rewinds the scroll.
    pub fn clear(&mut self)
        ensures
            final(self).messages_view().len() == 0,
            final(self).scroll_offset == 0,
            final(self).viewport_height == old(self).viewport_height,
    {
        self.messages.clear();
        self.scroll_offset = 0;
    }

    /// Adopts a new viewport height, keeping the scroll within range.
    /// The height loses the rows taken by borders and the title.
    pub fn update_console_viewport_height(&mut self, height: usize)
        ensures
            final(self).messages_view() == old(self).messages_view(),
            final(self).viewport_height == (if height >= 4 {
                height - 4
            } else {
                0int
            }),
            final(self).scroll_offset == ({
                let max = spec_max_offset(
                    old(self).messages_view().len() as int,
                    final(self).viewport_height as int,
                );
                if old(self).scroll_offset > max {
                    max
                } else {
                    old(self).scroll_offset as int
                }
            }),
    {
        self.viewport_height = if height >= 4 {
            height - 4
        } else {
            0
        };
        let max_offset = self.max_offset();
        if self.scroll_offset > max_offset {
            self.scroll_offset = max_offset;
        }
    }

    /// The scroll offset that shows the bottom.
    fn max_offset(&self) -> (r: usize)
        ensures
            r == spec_max_offset(
                self.messages_view().len() as int,
                self.viewport_height as int,
            ),
    {
        let len = self.messages.len();
        if len >= self.viewport_height {
            len - self.viewport_height
        } else {
            0
        }
    }

    /// The message at an index, oldest first.
    pub fn message_at(&self, i: usize) -> (r: &ConsoleMessage)
        requires
            i < self.messages_view().len(),
        ensures
            *r == self.messages_view()[i as int],
    {
        &self.messages[i]
    }
}

} // verus!
