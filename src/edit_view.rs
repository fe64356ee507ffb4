use crate::app::{App, AppView, Mode};
use crate::input::Action;
use crate::store::lookup;
use crate::text::{count_lines, line_count};
use vstd::prelude::*;

verus! {

/// A rectangle of terminal cells.
#[derive(Clone, Copy, Debug, PartialEq, Eq, Structural)]
pub struct Rect {
    pub x: u16,
    pub y: u16,
    pub width: u16,
    pub height: u16,
}

/// A terminal cell.
#[derive(Clone, Copy, Debug, PartialEq, Eq, Structural)]
pub struct Position {
    pub x: u16,
    pub y: u16,
}

/// The composing view: one field of free text, framed by a border.
pub struct EditView {
    pub focus: bool,
    pub scroll: usize,
}

/// `a - b`, or 0 when `b` is larger.
pub open spec fn minus_or_zero(a: int, b: int) -> int {
    if a > b {
        a - b
    } else {
        0
    }
}

/// The row and column after writing `s` into lines of `width` cells: a
/// newline starts a new row, and a character that finds its row full wraps
/// onto the next one.
pub open spec fn cursor_walk(s: Seq<char>, width: int) -> (int, int)
    decreases s.len(),
{
    if s.len() == 0 {
        (0, 0)
    } else {
        let prev = cursor_walk(s.drop_last(), width);
        if s.last() == '\n' {
            (prev.0 + 1, 0)
        } else if prev.1 >= width {
            (prev.0 + 1, 1)
        } else {
            (prev.0, prev.1 + 1)
        }
    }
}

/// Where the cursor stands after `s` inside the border of `area`, held
/// within the inner box.
pub open spec fn cursor_at(area: Rect, s: Seq<char>) -> Position {
    let width = minus_or_zero(area.width as int, 2);
    let rows = minus_or_zero(area.height as int, 2);
    let walk = cursor_walk(s, width);
    let row = if walk.0 > rows { rows } else { walk.0 };
    let col = if walk.1 > width { width } else { walk.1 };
    Position { x: (area.x + 1 + col) as u16, y: (area.y + 1 + row) as u16 }
}

/// The content of the note being edited, or nothing if it is not stored.
pub open spec fn stored_content(v: AppView) -> Seq<char> {
    match v.edit_id {
        Some(id) => match lookup(v.notes, id) {
            Some(n) => n.content@,
            None => Seq::empty(),
        },
        None => Seq::empty(),
    }
}

/// The session after Enter: a title moves to the buffer and the content is
/// composed next; inside content, Enter is a newline.
pub open spec fn after_enter(v: AppView) -> AppView {
    match v.mode {
        Mode::AddTitle => AppView {
            buffer: v.input,
            input: Seq::empty(),
            mode: Mode::AddContent,
            ..v
        },
        Mode::AddContent | Mode::EditContent => AppView { input: v.input.push('\n'), ..v },
        Mode::EditTitle => AppView {
            buffer: v.input,
            input: stored_content(v),
            mode: Mode::EditContent,
            ..v
        },
        Mode::List => v,
    }
}

/// The session after a composing action: a character is appended, backspace
/// removes the last one, Enter is `after_enter`; nothing else changes it.
pub open spec fn after_key(v: AppView, action: Action) -> AppView {
    match action {
        Action::Char(c) => AppView { input: v.input.push(c), ..v },
        Action::Backspace => AppView {
            input: if v.input.len() > 0 { v.input.drop_last() } else { v.input },
            ..v
        },
        Action::Enter => after_enter(v),
        _ => v,
    }
}

/// The largest scroll offset for `lines` lines in an area `height` rows high.
pub open spec fn edit_scroll_limit(lines: int, height: int) -> int {
    let raw = lines + 2 - height;
    if raw <= 0 {
        0
    } else if raw > usize::MAX {
        usize::MAX as int
    } else {
        raw
    }
}

impl EditView {
    pub fn new() -> (r: EditView)
        ensures
            !r.focus,
            r.scroll == 0,
    {
        EditView { focus: false, scroll: 0 }
    }

    /// The cursor position after `input`, written inside the border of `area`.
    pub fn compute_cursor(&self, area: Rect, input: &str) -> (r: Position)
        requires
            area.x < u16::MAX,
            area.y < u16::MAX,
            area.x + area.width <= u16::MAX,
            area.y + area.height <= u16::MAX,
        ensures
            r == cursor_at(area, input@),
    {
        let width = area.width.saturating_sub(2) as usize;
        let n = input.unicode_len();
        let mut row: usize = 0;
        let mut col: usize = 0;
        let mut i: usize = 0;
        while i < n
            invariant
                n == input@.len(),
                i <= n,
                row <= i,
                col <= i,
                width == minus_or_zero(area.width as int, 2),
                (row as int, col as int) == cursor_walk(input@.subrange(0, i as int), width as int),
            decreases n - i,
        {
            let ch = input.get_char(i);
            assert(input@.subrange(0, i + 1).drop_last() =~= input@.subrange(0, i as int));
            if ch == '\n' {
                row = row + 1;
                col = 0;
            } else {
                if col >= width {
                    row = row + 1;
                    col = 0;
                }
                col = col + 1;
            }
            i = i + 1;
        }
        assert(input@.subrange(0, n as int) =~= input@);
        let max_rows = area.height.saturating_sub(2) as usize;
        if row > max_rows {
            row = max_rows;
        }
        if col > width {
            col = width;
        }
        let x = area.x + 1 + col as u16;
        let y = area.y + 1 + row as u16;
        Position { x, y }
    }

    /// Enter while composing; see `after_enter`.
    pub fn handle_enter(&mut self, app: &mut App)
        requires
            old(app).wf(),
        ensures
            final(app).wf(),
            final(app)@ == after_enter(old(app)@),
            *final(self) == *old(self),
    {
        match app.mode {
            Mode::AddTitle => self.handle_add_title(app),
            Mode::AddContent | Mode::EditContent => app.input.push('\n'),
            Mode::EditTitle => self.handle_edit_title(app),
            _ => {},
        }
    }

    /// The title is complete: it moves to the buffer, and the content of the
    /// new note is composed next.
    pub fn handle_add_title(&mut self, app: &mut App)
        requires
            old(app).wf(),
        ensures
            final(app).wf(),
            final(app)@ == (AppView {
                buffer: old(app)@.input,
                input: Seq::empty(),
                mode: Mode::AddContent,
                ..old(app)@
            }),
            *final(self) == *old(self),
    {
        app.buffer = app.input.clone();
        app.input = String::new();
        app.mode = Mode::AddContent;
    }

    /// The edited title is complete: it moves to the buffer, and the stored
    /// content of the note is loaded for editing.
    pub fn handle_edit_title(&mut self, app: &mut App)
        requires
            old(app).wf(),
        ensures
            final(app).wf(),
            final(app)@ == (AppView {
                buffer: old(app)@.input,
                input: stored_content(old(app)@),
                mode: Mode::EditContent,
                ..old(app)@
            }),
            *final(self) == *old(self),
    {
        app.buffer = app.input.clone();
        match app.edit_id {
            Some(id) => match app.note_client.get_note_by_id(id) {
                Some(n) => app.input = n.content,
                None => app.input = String::new(),
            },
            None => app.input = String::new(),
        }
        app.mode = Mode::EditContent;
    }

    /// Scrolls one line down, no further than the last line of `app.input`
    /// allows in `area`.
    pub fn scroll_down(&mut self, app: &App, area: Rect)
        ensures
            final(self).focus == old(self).focus,
            final(self).scroll == ({
                let limit = edit_scroll_limit(line_count(app.input@) as int, area.height as int);
                if old(self).scroll < limit {
                    old(self).scroll + 1
                } else {
                    limit
                }
            }),
    {
        let lines = count_lines(app.input.as_str());
        let height = area.height as usize;
        let limit: usize = if lines >= height {
            (lines - height).saturating_add(2)
        } else if lines + 2 > height {
            lines + 2 - height
        } else {
            0
        };
        if self.scroll < limit {
            self.scroll = self.scroll + 1;
        } else {
            self.scroll = limit;
        }
    }

    /// Scrolls one line up, stopping at the top.
    pub fn scroll_up(&mut self)
        ensures
            final(self).focus == old(self).focus,
            final(self).scroll == minus_or_zero(old(self).scroll as int, 1),
    {
        self.scroll = self.scroll.saturating_sub(1);
    }

    /// A composing action, when the view has the focus; see `after_key`.
    /// Saving and escaping are the controller's.
    pub fn handle(&mut self, action: &Action, app: &mut App)
        requires
            old(app).wf(),
        ensures
            final(app).wf(),
            final(app)@ == if old(self).focus {
                after_key(old(app)@, *action)
            } else {
                old(app)@
            },
            *final(self) == *old(self),
    {
        if !self.focus {
            return;
        }
        match action {
            Action::Char(c) => app.input.push(*c),
            Action::Backspace => {
                app.input.pop();
            },
            Action::Enter => self.handle_enter(app),
            _ => {},
        }
    }

    pub fn focused(&self) -> (r: bool)
        ensures
            r == self.focus,
    {
        self.focus
    }

    pub fn set_focus(&mut self, focus: bool)
        ensures
            final(self).focus == focus,
            final(self).scroll == old(self).scroll,
    {
        self.focus = focus;
    }
}

} // verus!
