use notebox::note::{Note, NoteId};
use notebox::store::{NoteClient, StoreError};

fn stamped(id: u128, title: &str, content: &str, at: i64) -> Note {
    Note::with_stamp(NoteId { value: id }, title, content, at)
}

fn titles(notes: &[Note]) -> Vec<String> {
    notes.iter().map(|n| n.title.clone()).collect()
}

#[test]
fn note_test_note_creation() {
    let note = Note::new("Test Title", "This is a test content.");
    assert_eq!(note.title, "Test Title");
    assert_eq!(note.content, "This is a test content.");
    assert!(!note.id.is_nil());
    assert!(note.created_at <= chrono::Utc::now().timestamp_micros());
    assert!(note.updated_at <= chrono::Utc::now().timestamp_micros());
}

#[test]
fn new_notes_get_distinct_ids_and_equal_stamps() {
    let a = Note::new("a", "");
    let b = Note::new("b", "");
    assert_ne!(a.id, b.id);
    assert_eq!(a.created_at, a.updated_at);
    assert!(a.created_at > 1_600_000_000_000_000);
    assert_eq!(a.id.value & 0x0000_0000_0000_f000_c000_0000_0000_0000, 0x0000_0000_0000_4000_8000_0000_0000_0000);
}

#[test]
fn with_stamp_sets_every_field() {
    let n = stamped(7, "T", "C", 42);
    assert_eq!(n.id, NoteId { value: 7 });
    assert_eq!(n.title, "T");
    assert_eq!(n.content, "C");
    assert_eq!(n.created_at, 42);
    assert_eq!(n.updated_at, 42);
    assert!(NoteId { value: 0 }.is_nil());
}

#[test]
fn two_adds_list_newest_first() {
    let mut store = NoteClient::new();
    assert!(store.get_all_notes().is_empty());
    store.add_note(&stamped(1, "A", "a1", 100)).unwrap();
    store.add_note(&stamped(2, "B", "b1", 200)).unwrap();
    let all = store.get_all_notes();
    assert_eq!(titles(&all), vec!["B", "A"]);
    assert_eq!(all[0].content, "b1");
    assert_eq!(all[1].content, "a1");
}

#[test]
fn adds_in_any_order_list_by_creation_descending() {
    let mut store = NoteClient::new();
    for (id, t, at) in [(1u128, "m", 50i64), (2, "z", 10), (3, "a", 90), (4, "q", 70), (5, "tie_low", 50)] {
        store.add_note(&stamped(id, t, "", at)).unwrap();
    }
    let all = store.get_all_notes();
    assert_eq!(titles(&all), vec!["a", "q", "tie_low", "m", "z"]);
    assert_eq!(store.len(), 5);
    for w in all.windows(2) {
        assert!(w[0].created_at >= w[1].created_at);
    }
}

#[test]
fn repeated_identity_is_refused() {
    let mut store = NoteClient::new();
    store.add_note(&stamped(9, "first", "", 1)).unwrap();
    assert_eq!(store.add_note(&stamped(9, "second", "", 2)), Err(StoreError::StorageError));
    assert_eq!(titles(&store.get_all_notes()), vec!["first"]);
}

#[test]
fn add_then_get_by_id_round_trips() {
    let mut store = NoteClient::new();
    let n = Note::new("Title", "Body\nmore");
    store.add_note(&n).unwrap();
    let got = store.get_note_by_id(n.id).expect("stored");
    assert_eq!(got.id, n.id);
    assert_eq!(got.title, n.title);
    assert_eq!(got.content, n.content);
    assert_eq!(got.created_at, got.updated_at);
    assert!(store.get_note_by_id(NoteId { value: 12345 }).is_none());
}

#[test]
fn delete_twice_is_harmless() {
    let mut store = NoteClient::new();
    store.add_note(&stamped(1, "A", "", 1)).unwrap();
    store.add_note(&stamped(2, "B", "", 2)).unwrap();
    store.delete_note(NoteId { value: 1 });
    assert!(store.get_note_by_id(NoteId { value: 1 }).is_none());
    store.delete_note(NoteId { value: 1 });
    assert_eq!(titles(&store.get_all_notes()), vec!["B"]);
}

#[test]
fn update_keeps_creation_and_never_moves_stamp_back() {
    let mut store = NoteClient::new();
    store.add_note(&stamped(1, "A", "a", 100)).unwrap();
    let mut edit = stamped(1, "A2", "a2", 5);
    store.update_note_at(&mut edit, 300).unwrap();
    assert_eq!(edit.created_at, 100);
    assert_eq!(edit.updated_at, 300);
    let got = store.get_note_by_id(NoteId { value: 1 }).unwrap();
    assert_eq!(got.title, "A2");
    assert_eq!(got.content, "a2");
    assert_eq!(got.created_at, 100);
    assert_eq!(got.updated_at, 300);
    let mut again = stamped(1, "A3", "a3", 0);
    store.update_note_at(&mut again, 200).unwrap();
    assert_eq!(again.updated_at, 300);
    assert_eq!(store.get_note_by_id(NoteId { value: 1 }).unwrap().title, "A3");
}

#[test]
fn update_with_clock_moves_stamp_forward() {
    let mut store = NoteClient::new();
    store.add_note(&stamped(1, "A", "a", 100)).unwrap();
    let mut edit = stamped(1, "B", "b", 0);
    store.update_note(&mut edit).unwrap();
    assert!(edit.updated_at >= 100);
    assert!(edit.updated_at > 1_600_000_000_000_000);
    assert_eq!(edit.created_at, 100);
}

#[test]
fn update_of_unknown_identity_is_not_found() {
    let mut store = NoteClient::new();
    store.add_note(&stamped(1, "A", "a", 100)).unwrap();
    let mut edit = stamped(2, "X", "x", 0);
    assert_eq!(store.update_note_at(&mut edit, 50), Err(StoreError::NotFound));
    assert_eq!(edit.title, "X");
    assert_eq!(titles(&store.get_all_notes()), vec!["A"]);
}

#[test]
fn pages_concatenate_to_the_whole_order() {
    let mut store = NoteClient::new();
    for i in 0..5u128 {
        store.add_note(&stamped(i + 1, &format!("n{}", i), "", i as i64)).unwrap();
    }
    let all = titles(&store.get_all_notes());
    let mut joined = Vec::new();
    for page in 1..=3u32 {
        let p = store.get_notes_paginated(page, 2);
        assert!(p.len() <= 2);
        joined.extend(titles(&p));
    }
    assert_eq!(joined, all);
    assert!(store.get_notes_paginated(4, 2).is_empty());
    assert!(store.get_notes_paginated(u32::MAX, u32::MAX).is_empty());
    assert_eq!(titles(&store.get_notes_paginated(0, 2)), titles(&store.get_notes_paginated(1, 2)));
    assert_eq!(titles(&store.get_notes_paginated(3, 2)), vec!["n0"]);
    assert!(store.get_notes_paginated(1, 0).is_empty());
}
