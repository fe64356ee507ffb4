use crate::note::{now_micros, Note, NoteId};
use vstd::prelude::*;

verus! {

broadcast use vstd::seq_lib::group_to_multiset_ensures;

/// Why a store operation failed.
#[derive(Clone, Copy, Debug, PartialEq, Eq, Structural)]
pub enum StoreError {
    /// The identity named by the operation is not stored.
    NotFound,
    /// The write would break the store's constraints (a repeated identity).
    StorageError,
}

/// `a` is listed before `b`: it is newer, or as new with the larger identity.
pub open spec fn precedes(a: Note, b: Note) -> bool {
    a.created_at > b.created_at || (a.created_at == b.created_at && a.id.value > b.id.value)
}

/// Every note is listed before all the notes after it.
pub open spec fn newest_first(s: Seq<Note>) -> bool {
    forall|i: int, j: int| 0 <= i < j < s.len() ==> precedes(#[trigger] s[i], #[trigger] s[j])
}

/// No identity occurs twice.
pub open spec fn distinct_ids(s: Seq<Note>) -> bool {
    forall|i: int, j: int| 0 <= i < j < s.len() ==> (#[trigger] s[i]).id != (#[trigger] s[j]).id
}

/// Some note in `s` carries identity `id`.
pub open spec fn has_id(s: Seq<Note>, id: NoteId) -> bool {
    exists|i: int| 0 <= i < s.len() && (#[trigger] s[i]).id == id
}

/// The note of `s` with identity `id`, if there is one.
pub open spec fn lookup(s: Seq<Note>, id: NoteId) -> Option<Note> {
    if has_id(s, id) {
        Some(s[choose|i: int| 0 <= i < s.len() && (#[trigger] s[i]).id == id])
    } else {
        None
    }
}

/// `after` is `before` with `n` put in at the one place that keeps it newest first.
pub open spec fn inserted(before: Seq<Note>, n: Note, after: Seq<Note>) -> bool {
    &&& exists|p: int| 0 <= p <= before.len() && after == before.insert(p, n)
    &&& newest_first(after)
}

/// `after` is `before` without the note of identity `id`; unchanged if there is none.
pub open spec fn removed(before: Seq<Note>, id: NoteId, after: Seq<Note>) -> bool {
    if has_id(before, id) {
        exists|p: int| 0 <= p < before.len() && before[p].id == id && after == before.remove(p)
    } else {
        after == before
    }
}

/// The modification time after an update at `now`: never earlier than before.
pub open spec fn later_stamp(previous: i64, now: i64) -> i64 {
    if now > previous {
        now
    } else {
        previous
    }
}

/// The stored record `old` with the title and content of `note`, updated at `now`.
pub open spec fn revised(old: Note, note: Note, now: i64) -> Note {
    Note {
        id: old.id,
        title: note.title,
        content: note.content,
        created_at: old.created_at,
        updated_at: later_stamp(old.updated_at, now),
    }
}

/// `after` is `before` with the record of `note`'s identity revised at `now`, in place.
pub open spec fn rewritten(before: Seq<Note>, note: Note, now: i64, after: Seq<Note>) -> bool {
    exists|p: int|
        0 <= p < before.len() && before[p].id == note.id && after == before.update(
            p,
            revised(before[p], note, now),
        )
}

/// Where page `page` (counted from 1, page 0 read as 1) of `per_page` notes starts.
pub open spec fn page_start(page: int, per_page: int) -> int {
    if page <= 1 {
        0
    } else {
        per_page * (page - 1)
    }
}

/// Page `page` of `s`, `per_page` notes to a page; empty past the end.
pub open spec fn page_of(s: Seq<Note>, page: int, per_page: int) -> Seq<Note> {
    let start = page_start(page, per_page);
    let lo = if start < s.len() { start } else { s.len() as int };
    let hi = if start + per_page < s.len() { start + per_page } else { s.len() as int };
    s.subrange(lo, hi)
}

/// The note store: every note, newest first, identities unique.
pub struct NoteClient {
    notes: Vec<Note>,
}

impl View for NoteClient {
    type V = Seq<Note>;

    closed spec fn view(&self) -> Seq<Note> {
        self.notes@
    }
}

impl NoteClient {
    pub open spec fn wf(&self) -> bool {
        newest_first(self@) && distinct_ids(self@)
    }

    /// An empty store.
    pub fn new() -> (r: NoteClient)
        ensures
            r.wf(),
            r@ == Seq::<Note>::empty(),
    {
        NoteClient { notes: Vec::new() }
    }

    /// How many notes are stored.
    pub fn len(&self) -> (r: usize)
        ensures
            r == self@.len(),
    {
        self.notes.len()
    }

    /// The position of the note with identity `id`, if there is one.
    fn position_of(&self, id: NoteId) -> (r: Option<usize>)
        requires
            self.wf(),
        ensures
            r is None <==> !has_id(self@, id),
            r matches Some(p) ==> p < self@.len() && self@[p as int].id == id,
    {
        let mut i: usize = 0;
        while i < self.notes.len()
            invariant
                i <= self.notes@.len(),
                forall|k: int| 0 <= k < i ==> (#[trigger] self.notes@[k]).id != id,
            decreases self.notes@.len() - i,
        {
            if self.notes[i].id == id {
                return Some(i);
            }
            i = i + 1;
        }
        None
    }

    /// Inserts `note` at its place in the order; refused if its identity is already stored.
    pub fn add_note(&mut self, note: &Note) -> (r: Result<(), StoreError>)
        requires
            old(self).wf(),
        ensures
            final(self).wf(),
            r is Ok <==> !has_id(old(self)@, note.id),
            r is Ok ==> inserted(old(self)@, *note, final(self)@),
            r is Err ==> r == Err::<(), StoreError>(StoreError::StorageError) && final(self)@ == old(
                self,
            )@,
    {
        if self.position_of(note.id).is_some() {
            return Err(StoreError::StorageError);
        }
        let ghost before = self.notes@;
        let mut i: usize = 0;
        while i < self.notes.len() && precedes_exec(&self.notes[i], note)
            invariant
                self.notes@ == before,
                i <= before.len(),
                forall|k: int| 0 <= k < i ==> precedes(#[trigger] before[k], *note),
            decreases before.len() - i,
        {
            i = i + 1;
        }
        self.notes.insert(i, note.clone());
        proof {
            let after = self.notes@;
            assert(after == before.insert(i as int, *note));
            assert forall|a: int, b: int| 0 <= a < b < after.len() implies precedes(
                #[trigger] after[a],
                #[trigger] after[b],
            ) by {
                if b < i {
                } else if a < i && b == i {
                } else if a < i {
                    assert(precedes(before[a], before[b - 1]));
                } else if a == i {
                    assert(!precedes(before[i as int], *note));
                    assert(before[i as int].id != note.id);
                    if b - 1 > i {
                        assert(precedes(before[i as int], before[b - 1]));
                    }
                } else {
                    assert(precedes(before[a - 1], before[b - 1]));
                }
            }
            assert forall|a: int, b: int| 0 <= a < b < after.len() implies (#[trigger] after[a]).id
                != (#[trigger] after[b]).id by {
                if a != i && b != i {
                    let a0 = if a < i { a } else { a - 1 };
                    let b0 = if b < i { b } else { b - 1 };
                    assert(before[a0].id != before[b0].id);
                } else if a == i {
                    assert(after[b] == before[b - 1]);
                } else {
                    assert(after[a] == before[a]);
                }
            }
        }
        Ok(())
    }

    /// Overwrites the stored title and content of `note`'s identity, stamped at
    /// `now` (or at the previous stamp, if `now` is earlier); `note` becomes the
    /// stored record.
    pub fn update_note_at(&mut self, note: &mut Note, now: i64) -> (r: Result<(), StoreError>)
        requires
            old(self).wf(),
        ensures
            final(self).wf(),
            r is Ok <==> has_id(old(self)@, old(note).id),
            r is Ok ==> rewritten(old(self)@, *old(note), now, final(self)@) && lookup(
                final(self)@,
                old(note).id,
            ) == Some(*final(note)),
            r is Err ==> r == Err::<(), StoreError>(StoreError::NotFound) && final(self)@ == old(
                self,
            )@ && *final(note) == *old(note),
    {
        match self.position_of(note.id) {
            None => Err(StoreError::NotFound),
            Some(p) => {
                let ghost before = self.notes@;
                let ghost given = *note;
                let stamp = if now > self.notes[p].updated_at {
                    now
                } else {
                    self.notes[p].updated_at
                };
                let record = Note {
                    id: self.notes[p].id,
                    title: note.title.clone(),
                    content: note.content.clone(),
                    created_at: self.notes[p].created_at,
                    updated_at: stamp,
                };
                assert(record == revised(before[p as int], given, now));
                *note = record.clone();
                self.notes.set(p, record);
                proof {
                    let after = self.notes@;
                    assert(after == before.update(p as int, revised(before[p as int], given, now)));
                    assert forall|a: int, b: int| 0 <= a < b < after.len() implies precedes(
                        #[trigger] after[a],
                        #[trigger] after[b],
                    ) by {
                        assert(precedes(before[a], before[b]));
                    }
                    assert forall|a: int, b: int| 0 <= a < b < after.len() implies (#[trigger] after[
                        a]).id != (#[trigger] after[b]).id by {
                        assert(before[a].id != before[b].id);
                    }
                    assert(after[p as int].id == given.id);
                    let c = choose|i: int| 0 <= i < after.len() && (#[trigger] after[i]).id == given.id;
                    assert(c == p);
                }
                Ok(())
            },
        }
    }

    /// Overwrites the stored title and content of `note`'s identity and stamps it
    /// with the current time; `note` becomes the stored record.
    pub fn update_note(&mut self, note: &mut Note) -> (r: Result<(), StoreError>)
        requires
            old(self).wf(),
        ensures
            final(self).wf(),
            r is Ok <==> has_id(old(self)@, old(note).id),
            r is Ok ==> exists|now: i64| rewritten(old(self)@, *old(note), now, final(self)@),
            r is Ok ==> lookup(final(self)@, old(note).id) == Some(*final(note)),
            r is Err ==> r == Err::<(), StoreError>(StoreError::NotFound) && final(self)@ == old(
                self,
            )@ && *final(note) == *old(note),
    {
        let now = now_micros();
        self.update_note_at(note, now)
    }

    /// Removes the note of identity `id`; nothing happens if there is none.
    pub fn delete_note(&mut self, id: NoteId)
        requires
            old(self).wf(),
        ensures
            final(self).wf(),
            removed(old(self)@, id, final(self)@),
    {
        if let Some(p) = self.position_of(id) {
            let ghost before = self.notes@;
            self.notes.remove(p);
            proof {
                let after = self.notes@;
                assert(after == before.remove(p as int));
                assert forall|a: int, b: int| 0 <= a < b < after.len() implies precedes(
                    #[trigger] after[a],
                    #[trigger] after[b],
                ) by {
                    let a0 = if a < p { a } else { a + 1 };
                    let b0 = if b < p { b } else { b + 1 };
                    assert(precedes(before[a0], before[b0]));
                }
                assert forall|a: int, b: int| 0 <= a < b < after.len() implies (#[trigger] after[
                    a]).id != (#[trigger] after[b]).id by {
                    let a0 = if a < p { a } else { a + 1 };
                    let b0 = if b < p { b } else { b + 1 };
                    assert(before[a0].id != before[b0].id);
                }
            }
        }
    }

    /// The note of identity `id`, or `None`.
    pub fn get_note_by_id(&self, id: NoteId) -> (r: Option<Note>)
        requires
            self.wf(),
        ensures
            r == lookup(self@, id),
    {
        match self.position_of(id) {
            None => None,
            Some(p) => {
                proof {
                    let c = choose|i: int| 0 <= i < self@.len() && (#[trigger] self@[i]).id == id;
                    assert(self@[c].id == self@[p as int].id);
                }
                Some(self.notes[p].clone())
            },
        }
    }

    /// Every note, newest first.
    pub fn get_all_notes(&self) -> (r: Vec<Note>)
        ensures
            r@ == self@,
    {
        let r = self.notes.clone();
        assert(r@ =~= self.notes@);
        r
    }

    /// Page `page` (from 1) of the notes in store order, `per_page` to a page;
    /// a page past the end is empty.
    pub fn get_notes_paginated(&self, page: u32, per_page: u32) -> (r: Vec<Note>)
        ensures
            r@ == page_of(self@, page as int, per_page as int),
    {
        let start: u64 = if page <= 1 {
            0
        } else {
            assert((per_page as int) * (page as int - 1) <= 0xffff_ffffu64 * 0xffff_ffffu64)
                by (nonlinear_arith)
                requires
                    per_page <= 0xffff_ffffu32,
                    1 <= page <= 0xffff_ffffu32,
            ;
            (per_page as u64) * ((page - 1) as u64)
        };
        let len = self.notes.len() as u64;
        let lo: u64 = if start < len {
            start
        } else {
            len
        };
        let hi: u64 = if start + (per_page as u64) < len {
            start + (per_page as u64)
        } else {
            len
        };
        let first = lo as usize;
        let last = hi as usize;
        let mut r: Vec<Note> = Vec::new();
        let mut i: usize = first;
        while i < last
            invariant
                first <= i <= last,
                last <= self.notes@.len(),
                first == lo,
                last == hi,
                r@ == self.notes@.subrange(first as int, i as int),
            decreases last - i,
        {
            let n = self.notes[i].clone();
            r.push(n);
            assert(r@ =~= self.notes@.subrange(first as int, i + 1));
            i = i + 1;
        }
        r
    }
}

/// The stores reached from `states[0]` by adding `adds[0]`, `adds[1]`, ... in
/// turn: each step puts the added note at its place in the order.
pub open spec fn add_chain(adds: Seq<Note>, states: Seq<Seq<Note>>) -> bool {
    &&& states.len() == adds.len() + 1
    &&& forall|i: int| 0 <= i < adds.len() ==> inserted(#[trigger] states[i], adds[i], states[i + 1])
}

proof fn lemma_add_chain_holds_prefix(adds: Seq<Note>, states: Seq<Seq<Note>>, k: int)
    requires
        add_chain(adds, states),
        states[0] == Seq::<Note>::empty(),
        0 <= k <= adds.len(),
    ensures
        states[k].to_multiset() == adds.subrange(0, k).to_multiset(),
    decreases k,
{
    if k == 0 {
        assert(adds.subrange(0, 0) =~= Seq::<Note>::empty());
    } else {
        lemma_add_chain_holds_prefix(adds, states, k - 1);
        assert(inserted(states[k - 1], adds[k - 1], states[k]));
        let prev = states[k - 1];
        let added = adds[k - 1];
        let p = choose|p: int| 0 <= p <= prev.len() && states[k] == prev.insert(p, added);
        assert(adds.subrange(0, k) =~= adds.subrange(0, k - 1).push(adds[k - 1]));
    }
}

/// Adding notes of distinct identities one after another to an empty store:
/// no add meets an identity already stored (so each succeeds), and the store
/// then lists exactly the added notes, newest first by creation time.
pub proof fn lemma_adds_list_newest_first(adds: Seq<Note>, states: Seq<Seq<Note>>)
    requires
        distinct_ids(adds),
        add_chain(adds, states),
        states[0] == Seq::<Note>::empty(),
    ensures
        forall|i: int| 0 <= i < adds.len() ==> !has_id(#[trigger] states[i], adds[i].id),
        states.last().to_multiset() == adds.to_multiset(),
        newest_first(states.last()),
        forall|i: int, j: int|
            0 <= i < j < states.last().len() ==> (#[trigger] states.last()[i]).created_at >= (
            #[trigger] states.last()[j]).created_at,
{
    let n = adds.len() as int;
    assert forall|i: int| 0 <= i < adds.len() implies !has_id(#[trigger] states[i], adds[i].id) by {
        lemma_add_chain_holds_prefix(adds, states, i);
        if has_id(states[i], adds[i].id) {
            let j = choose|j: int| 0 <= j < states[i].len() && (#[trigger] states[i][j]).id == adds[i].id;
            let x = states[i][j];
            assert(states[i].contains(x));
            assert(states[i].to_multiset().count(x) > 0);
            assert(adds.subrange(0, i).contains(x));
            let m = choose|m: int| 0 <= m < i && adds.subrange(0, i)[m] == x;
            assert(adds[m] == x);
            assert(adds[m].id != adds[i].id);
        }
    }
    lemma_add_chain_holds_prefix(adds, states, n);
    assert(adds.subrange(0, n) =~= adds);
    if n > 0 {
        assert(inserted(states[n - 1], adds[n - 1], states[n]));
    }
    assert forall|i: int, j: int| 0 <= i < j < states.last().len() implies (
    #[trigger] states.last()[i]).created_at >= (#[trigger] states.last()[j]).created_at by {
        if n > 0 {
            assert(precedes(states.last()[i], states.last()[j]));
        }
    }
}

/// Adding a note and then looking up its identity gives back that very note;
/// one made by `Note::new`, with equal times, comes back with equal times.
pub proof fn lemma_add_then_get(before: Seq<Note>, n: Note, after: Seq<Note>)
    requires
        distinct_ids(after),
        inserted(before, n, after),
    ensures
        lookup(after, n.id) == Some(n),
        n.created_at == n.updated_at ==> lookup(after, n.id)->0.created_at == lookup(
            after,
            n.id,
        )->0.updated_at,
{
    let p = choose|p: int| 0 <= p <= before.len() && after == before.insert(p, n);
    assert(after[p] == n);
    assert(has_id(after, n.id));
    let c = choose|i: int| 0 <= i < after.len() && (#[trigger] after[i]).id == n.id;
    if c != p {
        if c < p {
            assert(after[c].id != after[p].id);
        } else {
            assert(after[p].id != after[c].id);
        }
    }
}

/// After a delete, no note of the deleted identity is left.
pub proof fn lemma_removed_leaves_none(s0: Seq<Note>, id: NoteId, s1: Seq<Note>)
    requires
        distinct_ids(s0),
        removed(s0, id, s1),
    ensures
        !has_id(s1, id),
        lookup(s1, id) is None,
{
    if has_id(s0, id) {
        let p = choose|p: int| 0 <= p < s0.len() && s0[p].id == id && s1 == s0.remove(p);
        if has_id(s1, id) {
            let j = choose|j: int| 0 <= j < s1.len() && (#[trigger] s1[j]).id == id;
            let j0 = if j < p { j } else { j + 1 };
            assert(s1[j] == s0[j0]);
            if j0 < p {
                assert(s0[j0].id != s0[p].id);
            } else {
                assert(s0[p].id != s0[j0].id);
            }
        }
    }
}

/// Deleting an identity twice: after the first call no note of it is left,
/// and the second call changes nothing.
pub proof fn lemma_delete_twice(s0: Seq<Note>, id: NoteId, s1: Seq<Note>, s2: Seq<Note>)
    requires
        distinct_ids(s0),
        removed(s0, id, s1),
        removed(s1, id, s2),
    ensures
        !has_id(s1, id),
        lookup(s1, id) is None,
        s2 == s1,
{
    lemma_removed_leaves_none(s0, id, s1);
}

/// An update never moves the note's modification time back, and leaves its
/// creation time as it was; every other note stays as it was.
pub proof fn lemma_update_monotone(before: Seq<Note>, note: Note, now: i64, after: Seq<Note>)
    requires
        distinct_ids(before),
        rewritten(before, note, now, after),
    ensures
        lookup(before, note.id) is Some,
        lookup(after, note.id) is Some,
        lookup(after, note.id)->0.updated_at >= lookup(before, note.id)->0.updated_at,
        lookup(after, note.id)->0.created_at == lookup(before, note.id)->0.created_at,
        forall|other: NoteId| other != note.id ==> #[trigger] lookup(after, other) == lookup(before, other),
{
    let p = choose|p: int|
        0 <= p < before.len() && before[p].id == note.id && after == before.update(
            p,
            revised(before[p], note, now),
        );
    assert(has_id(before, note.id));
    assert(after[p].id == note.id);
    assert(has_id(after, note.id));
    let c0 = choose|i: int| 0 <= i < before.len() && (#[trigger] before[i]).id == note.id;
    let c1 = choose|i: int| 0 <= i < after.len() && (#[trigger] after[i]).id == note.id;
    if c0 != p {
        if c0 < p {
            assert(before[c0].id != before[p].id);
        } else {
            assert(before[p].id != before[c0].id);
        }
    }
    if c1 != p {
        assert(after[c1] == before[c1]);
        if c1 < p {
            assert(before[c1].id != before[p].id);
        } else {
            assert(before[p].id != before[c1].id);
        }
    }
    assert forall|other: NoteId| other != note.id implies #[trigger] lookup(after, other) == lookup(
        before,
        other,
    ) by {
        if has_id(before, other) {
            let b = choose|i: int| 0 <= i < before.len() && (#[trigger] before[i]).id == other;
            assert(b != p);
            assert(after[b] == before[b]);
            assert(has_id(after, other));
            let a = choose|i: int| 0 <= i < after.len() && (#[trigger] after[i]).id == other;
            assert(a != p);
            assert(after[a] == before[a]);
            if a != b {
                if a < b {
                    assert(before[a].id != before[b].id);
                } else {
                    assert(before[b].id != before[a].id);
                }
            }
        } else {
            if has_id(after, other) {
                let a = choose|i: int| 0 <= i < after.len() && (#[trigger] after[i]).id == other;
                assert(a != p);
                assert(before[a].id == other);
            }
        }
    }
}

/// Pages 1 through `m` of `s`, `per_page` to a page, one after another.
pub open spec fn pages_upto(s: Seq<Note>, per_page: int, m: nat) -> Seq<Note>
    decreases m,
{
    if m == 0 {
        Seq::<Note>::empty()
    } else {
        pages_upto(s, per_page, (m - 1) as nat) + page_of(s, m as int, per_page)
    }
}

/// How many pages of `per_page` notes it takes to hold `n` notes.
pub open spec fn page_count(n: int, per_page: int) -> nat {
    ((n + per_page - 1) / per_page) as nat
}

proof fn lemma_pages_prefix(s: Seq<Note>, per_page: int, m: nat)
    requires
        per_page > 0,
    ensures
        pages_upto(s, per_page, m) == s.subrange(
            0,
            if m * per_page < s.len() { m * per_page } else { s.len() as int },
        ),
    decreases m,
{
    if m == 0 {
        assert(s.subrange(0, 0) =~= Seq::<Note>::empty());
    } else {
        lemma_pages_prefix(s, per_page, (m - 1) as nat);
        assert(per_page * (m - 1) + per_page == m * per_page) by (nonlinear_arith);
        assert(per_page * (m - 1) == (m - 1) * per_page) by (nonlinear_arith);
        assert(per_page * (m - 1) >= 0) by (nonlinear_arith)
            requires
                per_page > 0,
                m >= 1,
        ;
        let lo = if (m - 1) * per_page < s.len() { (m - 1) * per_page } else { s.len() as int };
        let hi = if m * per_page < s.len() { m * per_page } else { s.len() as int };
        assert(s.subrange(0, lo) + s.subrange(lo, hi) =~= s.subrange(0, hi));
    }
}

/// For `per_page` above zero, pages 1 through ceil(n / per_page) laid end to
/// end give exactly the store order, each note once; every later page is empty.
pub proof fn lemma_pages_cover(s: Seq<Note>, per_page: int)
    requires
        per_page > 0,
    ensures
        pages_upto(s, per_page, page_count(s.len() as int, per_page)) == s,
        forall|m: int| m > page_count(s.len() as int, per_page) ==> #[trigger] page_of(s, m, per_page).len() == 0,
{
    let n = s.len() as int;
    let c = page_count(n, per_page);
    vstd::arithmetic::div_mod::lemma_fundamental_div_mod(n + per_page - 1, per_page);
    assert(c * per_page >= n) by (nonlinear_arith)
        requires
            n + per_page - 1 == per_page * ((n + per_page - 1) / per_page) + (n + per_page - 1)
                % per_page,
            (n + per_page - 1) % per_page < per_page,
            c == (n + per_page - 1) / per_page,
    ;
    lemma_pages_prefix(s, per_page, c);
    assert(s.subrange(0, n) =~= s);
    assert forall|m: int| m > c implies #[trigger] page_of(s, m, per_page).len() == 0 by {
        assert(per_page * (m - 1) >= c * per_page) by (nonlinear_arith)
            requires
                m - 1 >= c,
                per_page > 0,
        ;
    }
}

/// Whether `a` is listed before `b`.
fn precedes_exec(a: &Note, b: &Note) -> (r: bool)
    ensures
        r == precedes(*a, *b),
{
    a.created_at > b.created_at || (a.created_at == b.created_at && a.id.value > b.id.value)
}

} // verus!
