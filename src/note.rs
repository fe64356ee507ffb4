use vstd::prelude::*;

verus! {

/// The identity of a note: a 128-bit value, unique among stored notes.
#[derive(Clone, Copy, Debug, PartialEq, Eq, Structural, Hash)]
pub struct NoteId {
    pub value: u128,
}

impl NoteId {
    /// The all-zero identity, which no freshly created note carries.
    pub open spec fn spec_is_nil(&self) -> bool {
        self.value == 0
    }

    #[verifier::when_used_as_spec(spec_is_nil)]
    pub fn is_nil(&self) -> (r: bool)
        ensures
            r == self.spec_is_nil(),
    {
        self.value == 0
    }
}

/// A note; timestamps are microseconds since the Unix epoch.
#[derive(Debug)]
pub struct Note {
    pub id: NoteId,
    pub title: String,
    pub content: String,
    pub created_at: i64,
    pub updated_at: i64,
}

impl Clone for Note {
    fn clone(&self) -> (r: Note)
        ensures
            r == *self,
    {
        Note {
            id: self.id,
            title: self.title.clone(),
            content: self.content.clone(),
            created_at: self.created_at,
            updated_at: self.updated_at,
        }
    }
}

/// Relies on uuid::Uuid::new_v4 and Uuid::as_u128: a random identity whose
/// version and variant bits are set, so it is never the all-zero value.
#[verifier::external_body]
pub(crate) fn random_note_id() -> (r: NoteId)
    ensures
        !r.spec_is_nil(),
{
    NoteId { value: uuid::Uuid::new_v4().as_u128() }
}

/// Relies on chrono::Utc::now and DateTime::timestamp_micros: the current
/// time, of which nothing is known in advance.
#[verifier::external_body]
pub(crate) fn now_micros() -> (r: i64) {
    chrono::Utc::now().timestamp_micros()
}

impl Note {
    /// A note with the given identity, text and creation time, not yet edited.
    pub fn with_stamp(id: NoteId, title: &str, content: &str, now: i64) -> (r: Note)
        ensures
            r.id == id,
            r.title@ == title@,
            r.content@ == content@,
            r.created_at == now,
            r.updated_at == now,
    {
        Note {
            id,
            title: title.to_owned(),
            content: content.to_owned(),
            created_at: now,
            updated_at: now,
        }
    }

    /// A new note with a fresh random identity, stamped with the current time.
    pub fn new(title: &str, content: &str) -> (r: Note)
        ensures
            !r.id.spec_is_nil(),
            r.title@ == title@,
            r.content@ == content@,
            r.created_at == r.updated_at,
    {
        let id = random_note_id();
        let now = now_micros();
        Note::with_stamp(id, title, content, now)
    }
}

} // verus!
