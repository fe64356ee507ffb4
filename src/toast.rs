use vstd::prelude::*;

verus! {

/// A short message shown for a set number of frames; it never takes the focus.
pub struct Toast {
    pub focus: bool,
    pub message: String,
    pub ttl: usize,
}

impl Toast {
    /// A message to be shown for `ttl_frames` frames.
    pub fn new(message: &str, ttl_frames: usize) -> (r: Toast)
        ensures
            !r.focus,
            r.message@ == message@,
            r.ttl == ttl_frames,
    {
        Toast { focus: false, message: message.to_owned(), ttl: ttl_frames }
    }

    /// Whether the message is shown in this frame; each frame shown uses one up.
    pub fn take_frame(&mut self) -> (r: bool)
        ensures
            r == (old(self).ttl > 0),
            final(self).ttl == if old(self).ttl > 0 { old(self).ttl - 1 } else { 0 },
            final(self).message == old(self).message,
            final(self).focus == old(self).focus,
    {
        if self.ttl == 0 {
            return false;
        }
        self.ttl = self.ttl - 1;
        true
    }

    pub fn focused(&self) -> (r: bool)
        ensures
            r == self.focus,
    {
        self.focus
    }
}

} // verus!
