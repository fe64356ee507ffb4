use crate::app::{App, AppView};
use crate::input::Action;
use vstd::prelude::*;

verus! {

/// The list of note titles, in store order, with a highlighted selection.
pub struct ListView {
    pub focus: bool,
}

/// The selection after `action` in the list: one up, one down, within the notes.
pub open spec fn moved_selection(v: AppView, action: Action) -> nat {
    match action {
        Action::Up => if v.selected > 0 { (v.selected - 1) as nat } else { v.selected },
        Action::Down => if v.selected + 1 < v.notes.len() { v.selected + 1 } else { v.selected },
        _ => v.selected,
    }
}

impl ListView {
    pub fn new() -> (r: ListView)
        ensures
            !r.focus,
    {
        ListView { focus: false }
    }

    /// Moves the selection up or down, when the list has the focus; the other
    /// actions are the controller's.
    pub fn handle(&mut self, action: &Action, app: &mut App)
        requires
            old(app).wf(),
        ensures
            final(app).wf(),
            final(self).focus == old(self).focus,
            final(app)@ == (AppView {
                selected: if old(self).focus { moved_selection(old(app)@, *action) } else { old(app)@.selected },
                ..old(app)@
            }),
    {
        if !self.focus {
            return;
        }
        let count = app.note_client.len();
        match action {
            Action::Up => {
                if app.selected > 0 {
                    app.selected = app.selected - 1;
                }
            },
            Action::Down => {
                if app.selected < count && app.selected + 1 < count {
                    app.selected = app.selected + 1;
                }
            },
            _ => {},
        }
    }

    pub fn focused(&self) -> (r: bool)
        ensures
            r == self.focus,
    {
        self.focus
    }

    pub fn set_focus(&mut self, focus: bool)
        ensures
            final(self).focus == focus,
    {
        self.focus = focus;
    }
}

} // verus!
