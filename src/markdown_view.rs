use crate::app::App;
use crate::input::Action;
use crate::text::{count_lines, line_count};
use vstd::prelude::*;

verus! {

/// A read-only view of a note: its title as the header, its content below,
/// scrolled by a line offset.
pub struct MarkdownView {
    pub focus: bool,
    pub scroll: u16,
}

/// The largest scroll offset for `content`: its last line at the top.
pub open spec fn scroll_limit(content: Seq<char>) -> int {
    let lines = line_count(content) as int;
    if lines == 0 {
        0
    } else if lines - 1 > u16::MAX {
        u16::MAX as int
    } else {
        lines - 1
    }
}

/// The scroll offset after `action`: one line up or down, never below zero
/// nor past the content's last line.
pub open spec fn scrolled(scroll: int, content: Seq<char>, action: Action) -> int {
    match action {
        Action::Up => if scroll > 0 { scroll - 1 } else { 0 },
        Action::Down => if scroll < scroll_limit(content) { scroll + 1 } else { scroll_limit(content) },
        _ => scroll,
    }
}

impl MarkdownView {
    pub fn new() -> (r: MarkdownView)
        ensures
            !r.focus,
            r.scroll == 0,
    {
        MarkdownView { focus: false, scroll: 0 }
    }

    /// Scrolls the content shown from `app.input`, when the view has the focus.
    pub fn handle(&mut self, action: &Action, app: &App)
        ensures
            final(self).focus == old(self).focus,
            final(self).scroll == if old(self).focus {
                scrolled(old(self).scroll as int, app.input@, *action)
            } else {
                old(self).scroll as int
            },
    {
        if !self.focus {
            return;
        }
        match action {
            Action::Up => self.scroll = self.scroll.saturating_sub(1),
            Action::Down => {
                let lines = count_lines(app.input.as_str());
                let limit: u16 = if lines == 0 {
                    0
                } else if lines - 1 > u16::MAX as usize {
                    u16::MAX
                } else {
                    (lines - 1) as u16
                };
                if self.scroll < limit {
                    self.scroll = self.scroll + 1;
                } else {
                    self.scroll = limit;
                }
            },
            _ => {},
        }
    }

    pub fn focused(&self) -> (r: bool)
        ensures
            r == self.focus,
    {
        self.focus
    }

    pub fn set_focus(&mut self, focus: bool)
        ensures
            final(self).focus == focus,
            final(self).scroll == old(self).scroll,
    {
        self.focus = focus;
    }
}

} // verus!
