use notebox::app::{App, Mode};
use notebox::controller::{Controller, Effect, State};
use notebox::input::Action;
use notebox::note::{Note, NoteId};
use notebox::store::{NoteClient, StoreError};

fn store_with(notes: &[(u128, &str, &str, i64)]) -> NoteClient {
    let mut store = NoteClient::new();
    for (id, title, content, at) in notes {
        store.add_note(&Note::with_stamp(NoteId { value: *id }, title, content, *at)).unwrap();
    }
    store
}

fn type_text(c: &mut Controller, app: &mut App, text: &str) {
    for ch in text.chars() {
        c.step(app, Action::Char(ch)).unwrap();
    }
}

#[test]
fn delete_confirmed_removes_note_and_clamps_selection() {
    let mut app = App::new(store_with(&[(1, "only", "x", 10)]));
    let mut c = Controller::new();
    assert_eq!(app.selected, 0);
    assert!(matches!(c.step(&mut app, Action::Char('d')), Ok(Effect::Nothing)));
    assert_eq!(c.state, State::ConfirmDelete);
    assert_eq!(app.delete_id, Some(NoteId { value: 1 }));
    let r = c.step(&mut app, Action::Char('o'));
    assert!(matches!(r, Ok(Effect::Deleted(NoteId { value: 1 }))));
    assert!(app.note_client.get_all_notes().is_empty());
    assert_eq!(app.selected, 0);
    assert_eq!(app.delete_id, None);
    assert_eq!(c.state, State::List);
    assert!(c.list.focused());
    assert!(!c.confirm_deleting_changes.focused());
}

#[test]
fn deleting_last_selected_note_moves_selection_up() {
    let mut app = App::new(store_with(&[(1, "old", "", 10), (2, "new", "", 20)]));
    let mut c = Controller::new();
    c.step(&mut app, Action::Down).unwrap();
    assert_eq!(app.selected, 1);
    c.step(&mut app, Action::Down).unwrap();
    assert_eq!(app.selected, 1);
    c.step(&mut app, Action::Char('d')).unwrap();
    assert_eq!(app.delete_id, Some(NoteId { value: 1 }));
    c.step(&mut app, Action::Char('y')).unwrap();
    assert_eq!(c.state, State::ConfirmDelete);
    c.step(&mut app, Action::Char('o')).unwrap();
    assert_eq!(app.selected, 0);
    assert_eq!(app.note_client.get_all_notes()[0].title, "new");
}

#[test]
fn delete_declined_keeps_note() {
    let mut app = App::new(store_with(&[(1, "only", "x", 10)]));
    let mut c = Controller::new();
    c.step(&mut app, Action::Char('d')).unwrap();
    assert!(matches!(c.step(&mut app, Action::Char('x')), Ok(Effect::Nothing)));
    assert_eq!(c.state, State::List);
    assert_eq!(app.delete_id, None);
    assert_eq!(app.note_client.len(), 1);
}

#[test]
fn add_flow_saves_title_and_content() {
    let mut app = App::new(NoteClient::new());
    let mut c = Controller::new();
    c.step(&mut app, Action::Char('a')).unwrap();
    assert_eq!(c.state, State::Edit);
    assert_eq!(app.mode, Mode::AddTitle);
    type_text(&mut c, &mut app, "T");
    c.step(&mut app, Action::Enter).unwrap();
    assert_eq!(app.mode, Mode::AddContent);
    assert_eq!(app.buffer, "T");
    assert_eq!(app.input, "");
    type_text(&mut c, &mut app, "C");
    let r = c.step(&mut app, Action::Save);
    match r {
        Ok(Effect::Added(n)) => {
            assert_eq!(n.title, "T");
            assert_eq!(n.content, "C");
        }
        other => panic!("unexpected {:?}", other),
    }
    let all = app.note_client.get_all_notes();
    assert_eq!(all.len(), 1);
    assert_eq!(all[0].title, "T");
    assert_eq!(all[0].content, "C");
    assert_eq!(c.state, State::List);
    assert_eq!(app.mode, Mode::List);
    assert_eq!(app.input, "");
    assert_eq!(app.buffer, "");
}

#[test]
fn enter_in_content_is_a_newline_and_backspace_removes_last() {
    let mut app = App::new(NoteClient::new());
    let mut c = Controller::new();
    c.step(&mut app, Action::Char('a')).unwrap();
    c.step(&mut app, Action::Backspace).unwrap();
    assert_eq!(app.input, "");
    type_text(&mut c, &mut app, "ab");
    c.step(&mut app, Action::Backspace).unwrap();
    assert_eq!(app.input, "a");
    c.step(&mut app, Action::Enter).unwrap();
    type_text(&mut c, &mut app, "x");
    c.step(&mut app, Action::Enter).unwrap();
    type_text(&mut c, &mut app, "y");
    assert_eq!(app.input, "x\ny");
    c.step(&mut app, Action::Up).unwrap();
    assert_eq!(app.input, "x\ny");
}

#[test]
fn escape_then_decline_resumes_with_text_intact() {
    let mut app = App::new(NoteClient::new());
    let mut c = Controller::new();
    c.step(&mut app, Action::Char('a')).unwrap();
    type_text(&mut c, &mut app, "Title");
    c.step(&mut app, Action::Enter).unwrap();
    type_text(&mut c, &mut app, "draft");
    c.step(&mut app, Action::Esc).unwrap();
    assert_eq!(c.state, State::ConfirmDiscard);
    c.step(&mut app, Action::Char('x')).unwrap();
    assert_eq!(c.state, State::Edit);
    assert_eq!(app.mode, Mode::EditContent);
    assert_eq!(app.input, "draft");
    assert_eq!(app.buffer, "Title");
    assert!(c.edit.focused());
}

#[test]
fn escape_then_confirm_discards_text() {
    let mut app = App::new(NoteClient::new());
    let mut c = Controller::new();
    c.step(&mut app, Action::Char('a')).unwrap();
    type_text(&mut c, &mut app, "gone");
    c.step(&mut app, Action::Esc).unwrap();
    c.step(&mut app, Action::Char('q')).unwrap();
    assert_eq!(c.state, State::ConfirmDiscard);
    c.step(&mut app, Action::Char('o')).unwrap();
    assert_eq!(c.state, State::List);
    assert_eq!(app.input, "");
    assert_eq!(app.buffer, "");
    assert_eq!(app.mode, Mode::List);
    assert_eq!(app.note_client.len(), 0);
}

#[test]
fn edit_flow_rewrites_selected_note() {
    let mut app = App::new(store_with(&[(1, "old title", "old body", 10)]));
    let mut c = Controller::new();
    c.step(&mut app, Action::Char('e')).unwrap();
    assert_eq!(app.mode, Mode::EditTitle);
    assert_eq!(app.input, "old title");
    assert_eq!(app.edit_id, Some(NoteId { value: 1 }));
    c.step(&mut app, Action::Char('!')).unwrap();
    c.step(&mut app, Action::Enter).unwrap();
    assert_eq!(app.mode, Mode::EditContent);
    assert_eq!(app.buffer, "old title!");
    assert_eq!(app.input, "old body");
    type_text(&mut c, &mut app, "?");
    match c.step(&mut app, Action::Save) {
        Ok(Effect::Updated(n)) => {
            assert_eq!(n.id, NoteId { value: 1 });
            assert_eq!(n.title, "old title!");
            assert_eq!(n.content, "old body?");
            assert_eq!(n.created_at, 10);
            assert!(n.updated_at >= 10);
        }
        other => panic!("unexpected {:?}", other),
    }
    let got = app.note_client.get_note_by_id(NoteId { value: 1 }).unwrap();
    assert_eq!(got.title, "old title!");
    assert_eq!(got.content, "old body?");
    assert_eq!(app.edit_id, None);
    assert_eq!(c.state, State::List);
}

#[test]
fn saving_an_edit_of_a_vanished_note_is_not_found() {
    let mut app = App::new(store_with(&[(1, "t", "b", 10)]));
    let mut c = Controller::new();
    c.step(&mut app, Action::Char('e')).unwrap();
    c.step(&mut app, Action::Enter).unwrap();
    app.note_client.delete_note(NoteId { value: 1 });
    assert_eq!(c.step(&mut app, Action::Save).err(), Some(StoreError::NotFound));
    assert_eq!(c.state, State::List);
    assert_eq!(app.mode, Mode::List);
}

#[test]
fn list_commands_without_notes_do_nothing() {
    let mut app = App::new(NoteClient::new());
    let mut c = Controller::new();
    for ch in ['e', 'd', 'p'] {
        c.step(&mut app, Action::Char(ch)).unwrap();
        assert_eq!(c.state, State::List);
    }
    c.step(&mut app, Action::Up).unwrap();
    c.step(&mut app, Action::Down).unwrap();
    assert_eq!(app.selected, 0);
    assert!(matches!(c.step(&mut app, Action::Char('q')), Ok(Effect::Quit)));
}

#[test]
fn preview_shows_note_scrolls_within_content_and_returns() {
    let mut app = App::new(store_with(&[(1, "head", "l1\nl2\nl3", 10)]));
    let mut c = Controller::new();
    c.step(&mut app, Action::Char('p')).unwrap();
    assert_eq!(c.state, State::Preview);
    assert_eq!(app.buffer, "head");
    assert_eq!(app.input, "l1\nl2\nl3");
    c.step(&mut app, Action::Up).unwrap();
    assert_eq!(c.preview.scroll, 0);
    for _ in 0..5 {
        c.step(&mut app, Action::Down).unwrap();
    }
    assert_eq!(c.preview.scroll, 2);
    c.step(&mut app, Action::Esc).unwrap();
    assert_eq!(c.state, State::List);
    assert!(c.list.focused());
    assert!(!c.preview.focused());
}

#[test]
fn starting_an_add_forgets_an_earlier_edit_identity() {
    let mut app = App::new(store_with(&[(1, "t", "b", 10)]));
    app.edit_id = Some(NoteId { value: 1 });
    let mut c = Controller::new();
    c.step(&mut app, Action::Char('a')).unwrap();
    assert_eq!(c.state, State::Edit);
    assert_eq!(app.mode, Mode::AddTitle);
    assert_eq!(app.edit_id, None);
}
