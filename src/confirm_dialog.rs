use crate::input::Action;
use vstd::prelude::*;

verus! {

/// A yes/no dialog: `o` answers yes, `x` answers no, anything else is ignored.
pub struct ConfirmDialog {
    pub focus: bool,
    pub prompt: String,
    pub result: Option<bool>,
}

/// The answer that `action` gives to a dialog, if it is one.
pub open spec fn answer_of(action: Action) -> Option<bool> {
    match action {
        Action::Char('o') => Some(true),
        Action::Char('x') => Some(false),
        _ => None,
    }
}

impl ConfirmDialog {
    /// An unfocused dialog asking `prompt`, with no answer yet.
    pub fn new(prompt: &str) -> (r: ConfirmDialog)
        ensures
            !r.focus,
            r.prompt@ == prompt@,
            r.result is None,
    {
        ConfirmDialog { focus: false, prompt: prompt.to_owned(), result: None }
    }

    /// Hands out the answer, if any, and clears it, so that it is used once.
    pub fn take_result(&mut self) -> (r: Option<bool>)
        ensures
            r == old(self).result,
            final(self).result is None,
            final(self).focus == old(self).focus,
            final(self).prompt == old(self).prompt,
    {
        let r = self.result;
        self.result = None;
        r
    }

    /// Records the answer that `action` gives, when the dialog has the focus.
    pub fn handle(&mut self, action: &Action)
        ensures
            final(self).focus == old(self).focus,
            final(self).prompt == old(self).prompt,
            final(self).result == if old(self).focus && answer_of(*action) is Some {
                answer_of(*action)
            } else {
                old(self).result
            },
    {
        if !self.focus {
            return;
        }
        match action {
            Action::Char('o') => self.result = Some(true),
            Action::Char('x') => self.result = Some(false),
            _ => {},
        }
    }

    pub fn focused(&self) -> (r: bool)
        ensures
            r == self.focus,
    {
        self.focus
    }

    pub fn set_focus(&mut self, focus: bool)
        ensures
            final(self).focus == focus,
            final(self).prompt == old(self).prompt,
            final(self).result == old(self).result,
    {
        self.focus = focus;
    }
}

} // verus!
