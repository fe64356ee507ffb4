use crate::app::{App, AppView, Mode};
use crate::confirm_dialog::{answer_of, ConfirmDialog};
use crate::edit_view::{after_key, EditView};
use crate::input::Action;
use crate::list_view::{moved_selection, ListView};
use crate::markdown_view::{scrolled, MarkdownView};
use crate::note::{Note, NoteId};
use crate::store::{
    has_id, inserted, lemma_add_then_get, lemma_removed_leaves_none, lookup, removed, StoreError,
};
use vstd::prelude::*;

verus! {

/// Which view holds the focus.
#[derive(Clone, Copy, Debug, PartialEq, Eq, Structural)]
pub enum State {
    List,
    Edit,
    Preview,
    ConfirmDelete,
    ConfirmDiscard,
}

/// What a turn asks of the world outside: a store write to make durable, or
/// the end of the session.
#[derive(Debug)]
pub enum Effect {
    Nothing,
    Quit,
    Added(Note),
    Updated(Note),
    Deleted(NoteId),
}

/// The modal controller: the active state and the views it routes input to.
pub struct Controller {
    pub state: State,
    pub list: ListView,
    pub edit: EditView,
    pub preview: MarkdownView,
    pub confirm_discarding_changes: ConfirmDialog,
    pub confirm_deleting_changes: ConfirmDialog,
}

/// A turn that changes nothing outside the session.
pub open spec fn no_effect() -> Result<Effect, StoreError> {
    Ok(Effect::Nothing)
}

/// The note under the list's selection, if any.
pub open spec fn selected_note(v: AppView) -> Option<Note> {
    if v.selected < v.notes.len() {
        Some(v.notes[v.selected as int])
    } else {
        None
    }
}

/// The session with its flow fields emptied and the list mode back.
pub open spec fn flow_cleared(v: AppView) -> AppView {
    AppView { mode: Mode::List, input: Seq::empty(), buffer: Seq::empty(), edit_id: None, ..v }
}

/// `sel` held within `len` positions: the last one when past the end, 0 when empty.
pub open spec fn clamped(sel: nat, len: nat) -> nat {
    if sel >= len {
        if len > 0 {
            (len - 1) as nat
        } else {
            0
        }
    } else {
        sel
    }
}

/// `m` is the stored note `id` of `before`, given `title` and `content`, with
/// its creation time kept and its modification time not moved back; `after`
/// holds it in the same place.
pub open spec fn revised_in_place(
    before: Seq<Note>,
    id: NoteId,
    title: Seq<char>,
    content: Seq<char>,
    m: Note,
    after: Seq<Note>,
) -> bool {
    exists|p: int|
        0 <= p < before.len() && before[p].id == id && after == before.update(p, m) && m.id == id
            && m.title@ == title && m.content@ == content && m.created_at == before[p].created_at
            && m.updated_at >= before[p].updated_at
}

/// A save from `v0`: a composed note is added, an edited one rewritten, and
/// the flow ends either way.
pub open spec fn saved(v0: AppView, v1: AppView, r: Result<Effect, StoreError>) -> bool {
    &&& v1 == AppView { notes: v1.notes, ..flow_cleared(v0) }
    &&& match v0.mode {
        Mode::AddContent => match r {
            Ok(Effect::Added(n)) => n.title@ == v0.buffer && n.content@ == v0.input
                && n.created_at == n.updated_at && !n.id.spec_is_nil() && !has_id(v0.notes, n.id)
                && inserted(v0.notes, n, v1.notes),
            Err(e) => e == StoreError::StorageError && v0.notes.len() > 0 && v1.notes == v0.notes,
            _ => false,
        },
        Mode::EditContent => match v0.edit_id {
            Some(id) => if has_id(v0.notes, id) {
                match r {
                    Ok(Effect::Updated(m)) => revised_in_place(
                        v0.notes,
                        id,
                        v0.buffer,
                        v0.input,
                        m,
                        v1.notes,
                    ),
                    _ => false,
                }
            } else {
                r == Err::<Effect, StoreError>(StoreError::NotFound) && v1.notes == v0.notes
            },
            None => r == no_effect() && v1.notes == v0.notes,
        },
        _ => r == no_effect() && v1.notes == v0.notes,
    }
}

/// A turn in the list: quit, start a flow on the selected note, or move the selection.
pub open spec fn list_turn(
    c0: Controller,
    v0: AppView,
    action: Action,
    c1: Controller,
    v1: AppView,
    r: Result<Effect, StoreError>,
) -> bool {
    match action {
        Action::Char('q') => c1.state == State::List && v1 == v0 && r == Ok::<Effect, StoreError>(
            Effect::Quit,
        ),
        Action::Char('a') => c1.state == State::Edit && v1 == (AppView {
            mode: Mode::AddTitle,
            input: Seq::empty(),
            buffer: Seq::empty(),
            edit_id: None,
            ..v0
        }) && r == no_effect(),
        Action::Char('e') => r == no_effect() && match selected_note(v0) {
            Some(n) => c1.state == State::Edit && v1 == (AppView {
                edit_id: Some(n.id),
                input: n.title@,
                mode: Mode::EditTitle,
                ..v0
            }),
            None => c1.state == State::List && v1 == v0,
        },
        Action::Char('d') => r == no_effect() && match selected_note(v0) {
            Some(n) => c1.state == State::ConfirmDelete && v1 == (AppView {
                delete_id: Some(n.id),
                ..v0
            }),
            None => c1.state == State::List && v1 == v0,
        },
        Action::Char('p') => r == no_effect() && match selected_note(v0) {
            Some(n) => c1.state == State::Preview && c1.preview.scroll == 0 && v1 == (AppView {
                buffer: n.title@,
                input: n.content@,
                ..v0
            }),
            None => c1.state == State::List && v1 == v0,
        },
        _ => c1.state == State::List && v1 == (AppView {
            selected: moved_selection(v0, action),
            ..v0
        }) && r == no_effect(),
    }
}

/// A turn while composing: save, ask before discarding, or edit the text.
pub open spec fn edit_turn(
    v0: AppView,
    action: Action,
    c1: Controller,
    v1: AppView,
    r: Result<Effect, StoreError>,
) -> bool {
    match action {
        Action::Save => c1.state == State::List && saved(v0, v1, r),
        Action::Esc => c1.state == State::ConfirmDiscard && v1 == v0 && r == no_effect(),
        _ => c1.state == State::Edit && v1 == after_key(v0, action) && r == no_effect(),
    }
}

/// A turn in the preview: scroll, or go back to the list.
pub open spec fn preview_turn(
    c0: Controller,
    v0: AppView,
    action: Action,
    c1: Controller,
    v1: AppView,
    r: Result<Effect, StoreError>,
) -> bool {
    &&& r == no_effect()
    &&& match action {
        Action::Esc => c1.state == State::List && v1 == (AppView { mode: Mode::List, ..v0 })
            && c1.preview.scroll == c0.preview.scroll,
        _ => c1.state == State::Preview && v1 == v0 && c1.preview.scroll == scrolled(
            c0.preview.scroll as int,
            v0.input,
            action,
        ),
    }
}

/// A turn in the delete dialog: on yes the pending note goes and the
/// selection is held within the rest; on no it is forgotten.
pub open spec fn confirm_delete_turn(
    v0: AppView,
    action: Action,
    c1: Controller,
    v1: AppView,
    r: Result<Effect, StoreError>,
) -> bool {
    match answer_of(action) {
        Some(true) => {
            &&& c1.state == State::List
            &&& v1 == (AppView {
                notes: v1.notes,
                selected: clamped(v0.selected, v1.notes.len()),
                delete_id: None,
                mode: Mode::List,
                ..v0
            })
            &&& match v0.delete_id {
                Some(id) => removed(v0.notes, id, v1.notes) && r == Ok::<Effect, StoreError>(
                    Effect::Deleted(id),
                ),
                None => v1.notes == v0.notes && r == no_effect(),
            }
        },
        Some(false) => c1.state == State::List && v1 == (AppView {
            delete_id: None,
            mode: Mode::List,
            ..v0
        }) && r == no_effect(),
        None => c1.state == State::ConfirmDelete && v1 == v0 && r == no_effect(),
    }
}

/// A turn in the discard dialog: on yes the composed text is dropped; on no
/// composing resumes, on the content, with the text kept.
pub open spec fn confirm_discard_turn(
    v0: AppView,
    action: Action,
    c1: Controller,
    v1: AppView,
    r: Result<Effect, StoreError>,
) -> bool {
    &&& r == no_effect()
    &&& match answer_of(action) {
        Some(true) => c1.state == State::List && v1 == flow_cleared(v0),
        Some(false) => c1.state == State::Edit && v1 == (AppView { mode: Mode::EditContent, ..v0 }),
        None => c1.state == State::ConfirmDiscard && v1 == v0,
    }
}

/// Neither view's scroll offset moved.
pub open spec fn scrolls_kept(c0: Controller, c1: Controller) -> bool {
    c1.preview.scroll == c0.preview.scroll && c1.edit.scroll == c0.edit.scroll
}

/// Confirming the delete of the selected note: the note is gone from the
/// store, the list is back with the selection on a remaining note (0 when
/// none is left), and nothing is pending any more.
pub proof fn lemma_delete_confirmed(
    c0: Controller,
    v0: AppView,
    c1: Controller,
    v1: AppView,
    r1: Result<Effect, StoreError>,
    c2: Controller,
    v2: AppView,
    r2: Result<Effect, StoreError>,
)
    requires
        crate::app::session_wf(v0),
        selected_note(v0) is Some,
        list_turn(c0, v0, Action::Char('d'), c1, v1, r1),
        confirm_delete_turn(v1, Action::Char('o'), c2, v2, r2),
    ensures
        c1.state == State::ConfirmDelete,
        r2 == Ok::<Effect, StoreError>(Effect::Deleted(selected_note(v0)->0.id)),
        !has_id(v2.notes, selected_note(v0)->0.id),
        lookup(v2.notes, selected_note(v0)->0.id) is None,
        v2.notes.len() + 1 == v0.notes.len(),
        c2.state == State::List,
        v2.mode == Mode::List,
        v2.delete_id is None,
        v2.selected == 0 || v2.selected < v2.notes.len(),
        v0.notes.len() == 1 ==> v2.notes.len() == 0 && v2.selected == 0,
{
    let id = selected_note(v0)->0.id;
    assert(v1.notes == v0.notes);
    lemma_removed_leaves_none(v0.notes, id, v2.notes);
    assert(has_id(v0.notes, id));
}

/// The add flow: "add", a title character, Enter, a content character, save.
/// The list is back and the flow emptied; on an empty store the save
/// succeeds, and whenever it succeeds the store holds one note more: the
/// composed one, found by its identity, with every earlier note kept.
pub proof fn lemma_add_flow(
    t: char,
    k: char,
    c0: Controller,
    v0: AppView,
    c1: Controller,
    v1: AppView,
    r1: Result<Effect, StoreError>,
    c2: Controller,
    v2: AppView,
    r2: Result<Effect, StoreError>,
    c3: Controller,
    v3: AppView,
    r3: Result<Effect, StoreError>,
    c4: Controller,
    v4: AppView,
    r4: Result<Effect, StoreError>,
    c5: Controller,
    v5: AppView,
    r5: Result<Effect, StoreError>,
)
    requires
        list_turn(c0, v0, Action::Char('a'), c1, v1, r1),
        edit_turn(v1, Action::Char(t), c2, v2, r2),
        edit_turn(v2, Action::Enter, c3, v3, r3),
        edit_turn(v3, Action::Char(k), c4, v4, r4),
        edit_turn(v4, Action::Save, c5, v5, r5),
        crate::store::distinct_ids(v5.notes),
    ensures
        c5.state == State::List,
        v5.mode == Mode::List,
        v5.input.len() == 0 && v5.buffer.len() == 0 && v5.edit_id is None,
        v0.notes.len() == 0 ==> r5 is Ok,
        r5 is Ok ==> match r5 {
            Ok(Effect::Added(n)) => {
                &&& n.title@ == seq![t]
                &&& n.content@ == seq![k]
                &&& lookup(v5.notes, n.id) == Some(n)
                &&& v5.notes.len() == v0.notes.len() + 1
                &&& forall|m: Note| v0.notes.contains(m) ==> #[trigger] v5.notes.contains(m)
            },
            _ => false,
        },
        r5 is Err ==> v5.notes == v0.notes,
{
    assert(v1.input =~= Seq::<char>::empty());
    assert(v2.input =~= seq![t]);
    assert(v3.mode == Mode::AddContent);
    assert(v4.input =~= seq![k]);
    assert(v4.notes == v0.notes);
    if let Ok(Effect::Added(n)) = r5 {
        lemma_add_then_get(v0.notes, n, v5.notes);
        let p = choose|p: int| 0 <= p <= v0.notes.len() && v5.notes == v0.notes.insert(p, n);
        assert forall|m: Note| v0.notes.contains(m) implies #[trigger] v5.notes.contains(m) by {
            let i = choose|i: int| 0 <= i < v0.notes.len() && v0.notes[i] == m;
            if i < p {
                assert(v5.notes[i] == m);
            } else {
                assert(v5.notes[i + 1] == m);
            }
        }
    }
}

/// Escaping an edit and declining the discard prompt resumes composing, on
/// the content, with the composed text and the store exactly as they were.
pub proof fn lemma_discard_declined_keeps_text(
    v0: AppView,
    c1: Controller,
    v1: AppView,
    r1: Result<Effect, StoreError>,
    c2: Controller,
    v2: AppView,
    r2: Result<Effect, StoreError>,
)
    requires
        edit_turn(v0, Action::Esc, c1, v1, r1),
        confirm_discard_turn(v1, Action::Char('x'), c2, v2, r2),
    ensures
        c1.state == State::ConfirmDiscard,
        c2.state == State::Edit,
        v2.mode == Mode::EditContent,
        v2.input == v0.input,
        v2.buffer == v0.buffer,
        v2.notes == v0.notes,
        r1 == no_effect() && r2 == no_effect(),
{
}

impl Controller {
    /// Exactly the active state's view has the focus, and no dialog answer is
    /// left over from an earlier turn.
    pub open spec fn wf(&self) -> bool {
        &&& self.list.focus == (self.state == State::List)
        &&& self.edit.focus == (self.state == State::Edit)
        &&& self.preview.focus == (self.state == State::Preview)
        &&& self.confirm_deleting_changes.focus == (self.state == State::ConfirmDelete)
        &&& self.confirm_discarding_changes.focus == (self.state == State::ConfirmDiscard)
        &&& self.confirm_deleting_changes.result is None
        &&& self.confirm_discarding_changes.result is None
    }

    /// A controller showing the list.
    pub fn new() -> (r: Controller)
        ensures
            r.wf(),
            r.state == State::List,
            r.preview.scroll == 0,
            r.edit.scroll == 0,
    {
        let mut list = ListView::new();
        list.set_focus(true);
        Controller {
            state: State::List,
            list,
            edit: EditView::new(),
            preview: MarkdownView::new(),
            confirm_discarding_changes: ConfirmDialog::new("Discard changes?"),
            confirm_deleting_changes: ConfirmDialog::new("Delete note?"),
        }
    }
    /// One turn: the action goes to the active state's handler. A store
    /// failure ends the flow in the list and is handed back.
    pub fn step(&mut self, app: &mut App, action: Action) -> (r: Result<Effect, StoreError>)
        requires
            old(self).wf(),
            old(app).wf(),
        ensures
            final(self).wf(),
            final(app).wf(),
            final(self).edit.scroll == old(self).edit.scroll,
            old(self).state == State::List ==> list_turn(
                *old(self),
                old(app)@,
                action,
                *final(self),
                final(app)@,
                r,
            ),
            old(self).state == State::Edit ==> edit_turn(
                old(app)@,
                action,
                *final(self),
                final(app)@,
                r,
            ),
            old(self).state == State::Preview ==> preview_turn(
                *old(self),
                old(app)@,
                action,
                *final(self),
                final(app)@,
                r,
            ),
            old(self).state == State::ConfirmDelete ==> confirm_delete_turn(
                old(app)@,
                action,
                *final(self),
                final(app)@,
                r,
            ),
            old(self).state == State::ConfirmDiscard ==> confirm_discard_turn(
                old(app)@,
                action,
                *final(self),
                final(app)@,
                r,
            ),
            old(self).state != State::Preview && !(old(self).state == State::List && action
                == Action::Char('p')) ==> final(self).preview.scroll == old(self).preview.scroll,
    {
        match self.state {
            State::List => self.handle_list_state(app, action),
            State::Edit => self.handle_edit_state(app, action),
            State::Preview => {
                self.handle_preview_state(app, action);
                Ok(Effect::Nothing)
            },
            State::ConfirmDelete => self.handle_confirm_delete_state(app, action),
            State::ConfirmDiscard => {
                self.handle_confirm_discard_state(app, action);
                Ok(Effect::Nothing)
            },
        }
    }

    fn handle_list_state(&mut self, app: &mut App, action: Action) -> (r: Result<
        Effect,
        StoreError,
    >)
        requires
            old(self).wf(),
            old(self).state == State::List,
            old(app).wf(),
        ensures
            final(self).wf(),
            final(app).wf(),
            list_turn(*old(self), old(app)@, action, *final(self), final(app)@, r),
            final(self).edit.scroll == old(self).edit.scroll,
            action != Action::Char('p') ==> final(self).preview.scroll == old(self).preview.scroll,
    {
        match action {
            Action::Char('q') => {
                return Ok(Effect::Quit);
            },
            Action::Char('a') => {
                self.start_add_note(app);
            },
            Action::Char('e') => {
                self.start_edit_note(app);
            },
            Action::Char('d') => {
                self.start_delete_note(app);
            },
            Action::Char('p') => {
                self.start_preview_note(app);
            },
            other => self.list.handle(&other, app),
        }
        Ok(Effect::Nothing)
    }

    fn handle_edit_state(&mut self, app: &mut App, action: Action) -> (r: Result<
        Effect,
        StoreError,
    >)
        requires
            old(self).wf(),
            old(self).state == State::Edit,
            old(app).wf(),
        ensures
            final(self).wf(),
            final(app).wf(),
            edit_turn(old(app)@, action, *final(self), final(app)@, r),
            scrolls_kept(*old(self), *final(self)),
    {
        match action {
            Action::Save => self.save_changes(app),
            Action::Esc => {
                self.discard_changes();
                Ok(Effect::Nothing)
            },
            other => {
                self.edit.handle(&other, app);
                Ok(Effect::Nothing)
            },
        }
    }

    fn handle_preview_state(&mut self, app: &mut App, action: Action)
        requires
            old(self).wf(),
            old(self).state == State::Preview,
            old(app).wf(),
        ensures
            final(self).wf(),
            final(app).wf(),
            preview_turn(*old(self), old(app)@, action, *final(self), final(app)@, no_effect()),
            final(self).edit.scroll == old(self).edit.scroll,
    {
        self.preview.handle(&action, app);
        if let Action::Esc = action {
            self.preview.set_focus(false);
            app.mode = Mode::List;
            self.list.set_focus(true);
            self.state = State::List;
        }
    }

    fn handle_confirm_delete_state(&mut self, app: &mut App, action: Action) -> (r: Result<
        Effect,
        StoreError,
    >)
        requires
            old(self).wf(),
            old(self).state == State::ConfirmDelete,
            old(app).wf(),
        ensures
            final(self).wf(),
            final(app).wf(),
            confirm_delete_turn(old(app)@, action, *final(self), final(app)@, r),
            scrolls_kept(*old(self), *final(self)),
    {
        self.confirm_deleting_changes.handle(&action);
        let mut effect = Effect::Nothing;
        if let Some(ok) = self.confirm_deleting_changes.take_result() {
            self.confirm_deleting_changes.set_focus(false);
            if ok {
                effect = delete_note(app);
            } else {
                app.delete_id = None;
            }
            app.mode = Mode::List;
            self.list.set_focus(true);
            self.state = State::List;
        }
        Ok(effect)
    }

    fn handle_confirm_discard_state(&mut self, app: &mut App, action: Action)
        requires
            old(self).wf(),
            old(self).state == State::ConfirmDiscard,
            old(app).wf(),
        ensures
            final(self).wf(),
            final(app).wf(),
            confirm_discard_turn(old(app)@, action, *final(self), final(app)@, no_effect()),
            scrolls_kept(*old(self), *final(self)),
    {
        self.confirm_discarding_changes.handle(&action);
        if let Some(ok) = self.confirm_discarding_changes.take_result() {
            self.confirm_discarding_changes.set_focus(false);
            if ok {
                app.input = String::new();
                app.buffer = String::new();
                app.edit_id = None;
                app.mode = Mode::List;
                self.list.set_focus(true);
                self.state = State::List;
            } else {
                app.mode = Mode::EditContent;
                self.edit.set_focus(true);
                self.state = State::Edit;
            }
        }
    }

    fn start_add_note(&mut self, app: &mut App)
        requires
            old(self).wf(),
            old(self).state == State::List,
            old(app).wf(),
        ensures
            final(self).wf(),
            final(app).wf(),
            final(self).state == State::Edit,
            final(app)@ == (AppView {
                mode: Mode::AddTitle,
                input: Seq::empty(),
                buffer: Seq::empty(),
                edit_id: None,
                ..old(app)@
            }),
            scrolls_kept(*old(self), *final(self)),
    {
        app.input = String::new();
        app.buffer = String::new();
        app.edit_id = None;
        app.mode = Mode::AddTitle;
        self.list.set_focus(false);
        self.edit.set_focus(true);
        self.state = State::Edit;
    }

    fn start_edit_note(&mut self, app: &mut App)
        requires
            old(self).wf(),
            old(self).state == State::List,
            old(app).wf(),
        ensures
            final(self).wf(),
            final(app).wf(),
            scrolls_kept(*old(self), *final(self)),
            match selected_note(old(app)@) {
                Some(n) => final(self).state == State::Edit && final(app)@ == (AppView {
                    edit_id: Some(n.id),
                    input: n.title@,
                    mode: Mode::EditTitle,
                    ..old(app)@
                }),
                None => final(self).state == State::List && final(app)@ == old(app)@,
            },
    {
        let notes = app.note_client.get_all_notes();
        if app.selected < notes.len() {
            let n = &notes[app.selected];
            app.edit_id = Some(n.id);
            app.input = n.title.clone();
            app.mode = Mode::EditTitle;
            self.list.set_focus(false);
            self.edit.set_focus(true);
            self.state = State::Edit;
        }
    }

    fn start_preview_note(&mut self, app: &mut App)
        requires
            old(self).wf(),
            old(self).state == State::List,
            old(app).wf(),
        ensures
            final(self).wf(),
            final(app).wf(),
            final(self).edit.scroll == old(self).edit.scroll,
            match selected_note(old(app)@) {
                Some(n) => final(self).state == State::Preview && final(self).preview.scroll == 0
                    && final(app)@ == (AppView { buffer: n.title@, input: n.content@, ..old(app)@ }),
                None => final(self).state == State::List && final(app)@ == old(app)@
                    && final(self).preview.scroll == old(self).preview.scroll,
            },
    {
        let notes = app.note_client.get_all_notes();
        if app.selected < notes.len() {
            let n = &notes[app.selected];
            app.buffer = n.title.clone();
            app.input = n.content.clone();
            self.list.set_focus(false);
            self.preview.scroll = 0;
            self.preview.set_focus(true);
            self.state = State::Preview;
        }
    }

    fn start_delete_note(&mut self, app: &mut App)
        requires
            old(self).wf(),
            old(self).state == State::List,
            old(app).wf(),
        ensures
            final(self).wf(),
            final(app).wf(),
            scrolls_kept(*old(self), *final(self)),
            match selected_note(old(app)@) {
                Some(n) => final(self).state == State::ConfirmDelete && final(app)@ == (AppView {
                    delete_id: Some(n.id),
                    ..old(app)@
                }),
                None => final(self).state == State::List && final(app)@ == old(app)@,
            },
    {
        let notes = app.note_client.get_all_notes();
        if app.selected < notes.len() {
            let n = &notes[app.selected];
            app.delete_id = Some(n.id);
            self.list.set_focus(false);
            self.confirm_deleting_changes.set_focus(true);
            self.state = State::ConfirmDelete;
        }
    }

    fn save_changes(&mut self, app: &mut App) -> (r: Result<Effect, StoreError>)
        requires
            old(self).wf(),
            old(self).state == State::Edit,
            old(app).wf(),
        ensures
            final(self).wf(),
            final(app).wf(),
            final(self).state == State::List,
            saved(old(app)@, final(app)@, r),
            scrolls_kept(*old(self), *final(self)),
    {
        let result = match app.mode {
            Mode::AddContent => {
                let note = Note::new(app.buffer.as_str(), app.input.as_str());
                match app.note_client.add_note(&note) {
                    Ok(()) => Ok(Effect::Added(note)),
                    Err(e) => Err(e),
                }
            },
            Mode::EditContent => match app.edit_id {
                Some(id) => match app.note_client.get_note_by_id(id) {
                    Some(found) => {
                        let mut n = found;
                        n.title = app.buffer.clone();
                        n.content = app.input.clone();
                        match app.note_client.update_note(&mut n) {
                            Ok(()) => Ok(Effect::Updated(n)),
                            Err(e) => Err(e),
                        }
                    },
                    None => Err(StoreError::NotFound),
                },
                None => Ok(Effect::Nothing),
            },
            _ => Ok(Effect::Nothing),
        };
        app.mode = Mode::List;
        app.input = String::new();
        app.buffer = String::new();
        app.edit_id = None;
        self.edit.set_focus(false);
        self.list.set_focus(true);
        self.state = State::List;
        result
    }

    fn discard_changes(&mut self)
        requires
            old(self).wf(),
            old(self).state == State::Edit,
        ensures
            final(self).wf(),
            final(self).state == State::ConfirmDiscard,
            scrolls_kept(*old(self), *final(self)),
    {
        self.edit.set_focus(false);
        self.confirm_discarding_changes.set_focus(true);
        self.state = State::ConfirmDiscard;
    }
}

/// Deletes the note pending confirmation, if any, and holds the selection
/// within the notes left.
fn delete_note(app: &mut App) -> (r: Effect)
    requires
        old(app).wf(),
    ensures
        final(app).wf(),
        final(app)@ == (AppView {
            notes: final(app)@.notes,
            selected: clamped(old(app)@.selected, final(app)@.notes.len()),
            delete_id: None,
            ..old(app)@
        }),
        match old(app)@.delete_id {
            Some(id) => removed(old(app)@.notes, id, final(app)@.notes) && r == Effect::Deleted(id),
            None => final(app)@.notes == old(app)@.notes && r == Effect::Nothing,
        },
{
    match app.delete_id.take() {
        Some(id) => {
            app.note_client.delete_note(id);
            let len = app.note_client.len();
            if app.selected >= len {
                app.selected = if len > 0 {
                    len - 1
                } else {
                    0
                };
            }
            Effect::Deleted(id)
        },
        None => Effect::Nothing,
    }
}
} // verus!
