use notebox::app::App;
use notebox::confirm_dialog::ConfirmDialog;
use notebox::edit_view::{EditView, Position, Rect};
use notebox::input::{action_for_key, Action, Key};
use notebox::list_view::ListView;
use notebox::markdown_view::MarkdownView;
use notebox::store::NoteClient;
use notebox::text::count_lines;
use notebox::toast::Toast;

#[test]
fn confirm_dialog_answers_once() {
    let mut d = ConfirmDialog::new("Delete note?");
    assert_eq!(d.prompt, "Delete note?");
    assert!(!d.focused());
    d.handle(&Action::Char('o'));
    assert_eq!(d.take_result(), None);
    d.set_focus(true);
    d.handle(&Action::Char('z'));
    assert_eq!(d.take_result(), None);
    d.handle(&Action::Char('o'));
    assert_eq!(d.take_result(), Some(true));
    assert_eq!(d.take_result(), None);
    d.handle(&Action::Char('x'));
    assert_eq!(d.take_result(), Some(false));
}

#[test]
fn cursor_follows_text_and_wraps() {
    let e = EditView::new();
    let area = Rect { x: 2, y: 3, width: 7, height: 6 };
    assert_eq!(e.compute_cursor(area, ""), Position { x: 3, y: 4 });
    assert_eq!(e.compute_cursor(area, "hello"), Position { x: 8, y: 4 });
    assert_eq!(e.compute_cursor(area, "helloX"), Position { x: 4, y: 5 });
    assert_eq!(e.compute_cursor(area, "ab\ncd"), Position { x: 5, y: 5 });
    assert_eq!(e.compute_cursor(area, "\n\n\n\n\n\n"), Position { x: 3, y: 8 });
    let narrow = Rect { x: 0, y: 0, width: 1, height: 1 };
    assert_eq!(e.compute_cursor(narrow, "abc"), Position { x: 1, y: 1 });
}

#[test]
fn edit_view_scrolls_within_bounds() {
    let mut app = App::new(NoteClient::new());
    app.input = "a\nb\nc\nd\ne".to_string();
    let mut e = EditView::new();
    let area = Rect { x: 0, y: 0, width: 20, height: 5 };
    for _ in 0..5 {
        e.scroll_down(&app, area);
    }
    assert_eq!(e.scroll, 2);
    e.scroll_up();
    e.scroll_up();
    e.scroll_up();
    assert_eq!(e.scroll, 0);
}

#[test]
fn list_selection_stays_in_bounds() {
    let mut app = App::new(NoteClient::new());
    let mut l = ListView::new();
    l.handle(&Action::Down, &mut app);
    assert_eq!(app.selected, 0);
    l.set_focus(true);
    l.handle(&Action::Down, &mut app);
    l.handle(&Action::Up, &mut app);
    assert_eq!(app.selected, 0);
}

#[test]
fn markdown_view_needs_focus_to_scroll() {
    let mut app = App::new(NoteClient::new());
    app.input = "one\ntwo\n".to_string();
    let mut m = MarkdownView::new();
    m.handle(&Action::Down, &app);
    assert_eq!(m.scroll, 0);
    m.set_focus(true);
    m.handle(&Action::Down, &app);
    m.handle(&Action::Down, &app);
    assert_eq!(m.scroll, 1);
}

#[test]
fn toast_shows_for_its_frames() {
    let mut t = Toast::new("saved", 2);
    assert_eq!(t.message, "saved");
    assert!(!t.focused());
    assert!(t.take_frame());
    assert!(t.take_frame());
    assert!(!t.take_frame());
    assert_eq!(t.ttl, 0);
}

#[test]
fn keys_decode_to_actions() {
    assert_eq!(action_for_key(Key::Char('x'), true), Some(Action::Save));
    assert_eq!(action_for_key(Key::Char('s'), true), None);
    assert_eq!(action_for_key(Key::Up, true), None);
    assert_eq!(action_for_key(Key::Char('x'), false), Some(Action::Char('x')));
    assert_eq!(action_for_key(Key::Enter, false), Some(Action::Enter));
    assert_eq!(action_for_key(Key::Esc, false), Some(Action::Esc));
    assert_eq!(action_for_key(Key::Backspace, false), Some(Action::Backspace));
    assert_eq!(action_for_key(Key::Down, false), Some(Action::Down));
    assert_eq!(action_for_key(Key::Other, false), None);
}

#[test]
fn lines_are_counted_like_text_lines() {
    assert_eq!(count_lines(""), 0);
    assert_eq!(count_lines("a"), 1);
    assert_eq!(count_lines("a\n"), 1);
    assert_eq!(count_lines("a\nb"), 2);
    assert_eq!(count_lines("\n\n"), 2);
    assert_eq!(count_lines("é\nü"), 2);
}
