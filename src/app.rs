use crate::note::{Note, NoteId};
use crate::store::NoteClient;
use vstd::prelude::*;

verus! {

/// Which field the edit session is composing, and for what.
#[derive(Clone, Copy, Debug, PartialEq, Eq, Structural)]
pub enum Mode {
    List,
    AddTitle,
    AddContent,
    EditTitle,
    EditContent,
}

/// The session state shared by the views: the selection in the list, the
/// text being composed, and the identities that a flow in progress refers to.
pub struct App {
    pub selected: usize,
    pub mode: Mode,
    pub input: String,
    pub buffer: String,
    pub edit_id: Option<NoteId>,
    pub delete_id: Option<NoteId>,
    pub note_client: NoteClient,
}

/// The session as a mathematical value.
pub struct AppView {
    pub selected: nat,
    pub mode: Mode,
    pub input: Seq<char>,
    pub buffer: Seq<char>,
    pub edit_id: Option<NoteId>,
    pub delete_id: Option<NoteId>,
    pub notes: Seq<Note>,
}

impl View for App {
    type V = AppView;

    open spec fn view(&self) -> AppView {
        AppView {
            selected: self.selected as nat,
            mode: self.mode,
            input: self.input@,
            buffer: self.buffer@,
            edit_id: self.edit_id,
            delete_id: self.delete_id,
            notes: self.note_client@,
        }
    }
}

/// A session is valid when its store is, and the selection is a stored
/// note's position (or 0 when there is none).
pub open spec fn session_wf(v: AppView) -> bool {
    &&& crate::store::newest_first(v.notes)
    &&& crate::store::distinct_ids(v.notes)
    &&& (v.selected == 0 || v.selected < v.notes.len())
}

impl App {
    pub open spec fn wf(&self) -> bool {
        self.note_client.wf() && session_wf(self@)
    }

    /// A session over `note_client`, showing the list with the first note selected.
    pub fn new(note_client: NoteClient) -> (r: App)
        requires
            note_client.wf(),
        ensures
            r.wf(),
            r@ == (AppView {
                selected: 0,
                mode: Mode::List,
                input: Seq::empty(),
                buffer: Seq::empty(),
                edit_id: None,
                delete_id: None,
                notes: note_client@,
            }),
    {
        App {
            selected: 0,
            mode: Mode::List,
            input: String::new(),
            buffer: String::new(),
            edit_id: None,
            delete_id: None,
            note_client,
        }
    }
}

} // verus!
