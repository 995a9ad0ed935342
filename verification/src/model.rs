//! The mathematical model of the row store: ghost views of both tables,
//! their well-formedness, and the transition each store operation makes.

use vstd::prelude::*;

verus! {

/// The model of one row of the notes table.
#[verifier::ext_equal]
pub struct NoteView {
    pub id: int,
    pub title: Seq<char>,
    pub content: Option<Seq<char>>,
}

/// The model of one row of the passwords table.
#[verifier::ext_equal]
pub struct EntryView {
    pub id: int,
    pub service: Seq<char>,
    pub username: Seq<char>,
    pub password: Seq<char>,
}

/// The model of the whole store: both tables, whether their schema has
/// been created, and the next id each table will assign.
#[verifier::ext_equal]
pub struct DbView {
    pub notes_ready: bool,
    pub passwords_ready: bool,
    pub next_note_id: int,
    pub next_password_id: int,
    pub notes: Seq<NoteView>,
    pub passwords: Seq<EntryView>,
}

/// A freshly opened store: no schema yet, both tables empty, ids start at 1.
pub open spec fn empty_db() -> DbView {
    DbView {
        notes_ready: false,
        passwords_ready: false,
        next_note_id: 1,
        next_password_id: 1,
        notes: Seq::empty(),
        passwords: Seq::empty(),
    }
}

/// Ids are assigned in increasing order starting at 1, so rows sit in the
/// store in strictly increasing id order, every id below the next one.
pub open spec fn db_wf(d: DbView) -> bool {
    &&& 1 <= d.next_note_id <= i64::MAX
    &&& 1 <= d.next_password_id <= i64::MAX
    &&& forall|i: int| 0 <= i < d.notes.len() ==> 1 <= #[trigger] d.notes[i].id < d.next_note_id
    &&& forall|i: int, j: int|
        0 <= i < j < d.notes.len() ==> #[trigger] d.notes[i].id < #[trigger] d.notes[j].id
    &&& forall|i: int|
        0 <= i < d.passwords.len() ==> 1 <= #[trigger] d.passwords[i].id < d.next_password_id
    &&& forall|i: int, j: int|
        0 <= i < j < d.passwords.len() ==> #[trigger] d.passwords[i].id
            < #[trigger] d.passwords[j].id
}

/// Creating the schema marks both tables ready and touches no row.
pub open spec fn with_schema(d: DbView) -> DbView {
    DbView { notes_ready: true, passwords_ready: true, ..d }
}

/// Inserting a note appends a row carrying the next id and bumps that id.
pub open spec fn with_note(d: DbView, title: Seq<char>, content: Option<Seq<char>>) -> DbView {
    DbView {
        notes: d.notes.push(NoteView { id: d.next_note_id, title, content }),
        next_note_id: d.next_note_id + 1,
        ..d
    }
}

/// The note rows that survive deleting `id`: every row but those carrying it.
pub open spec fn notes_without(s: Seq<NoteView>, id: int) -> Seq<NoteView>
    decreases s.len(),
{
    if s.len() == 0 {
        Seq::empty()
    } else {
        let rest = notes_without(s.drop_last(), id);
        if s.last().id == id {
            rest
        } else {
            rest.push(s.last())
        }
    }
}

/// Deleting a note keeps exactly the rows whose id differs.
pub open spec fn without_note(d: DbView, id: int) -> DbView {
    DbView { notes: notes_without(d.notes, id), ..d }
}

/// Inserting a password row appends it with the next id and bumps that id.
pub open spec fn with_entry(
    d: DbView,
    service: Seq<char>,
    username: Seq<char>,
    password: Seq<char>,
) -> DbView {
    DbView {
        passwords: d.passwords.push(
            EntryView { id: d.next_password_id, service, username, password },
        ),
        next_password_id: d.next_password_id + 1,
        ..d
    }
}

/// The password rows that survive deleting `id`: every row but those carrying it.
pub open spec fn entries_without(s: Seq<EntryView>, id: int) -> Seq<EntryView>
    decreases s.len(),
{
    if s.len() == 0 {
        Seq::empty()
    } else {
        let rest = entries_without(s.drop_last(), id);
        if s.last().id == id {
            rest
        } else {
            rest.push(s.last())
        }
    }
}

/// Deleting a password row keeps exactly the rows whose id differs.
pub open spec fn without_entry(d: DbView, id: int) -> DbView {
    DbView { passwords: entries_without(d.passwords, id), ..d }
}

/// Appending one row and then deleting keeps the row exactly when its id differs.
pub proof fn lemma_notes_without_push(s: Seq<NoteView>, e: NoteView, id: int)
    ensures
        notes_without(s.push(e), id) == if e.id == id {
            notes_without(s, id)
        } else {
            notes_without(s, id).push(e)
        },
{
    assert(s.push(e).drop_last() =~= s);
    assert(s.push(e).last() == e);
}

/// Deleting an id that no row carries changes nothing.
pub proof fn lemma_notes_without_absent(s: Seq<NoteView>, id: int)
    requires
        forall|i: int| 0 <= i < s.len() ==> #[trigger] s[i].id != id,
    ensures
        notes_without(s, id) == s,
    decreases s.len(),
{
    if s.len() > 0 {
        lemma_notes_without_absent(s.drop_last(), id);
        assert(s.drop_last().push(s.last()) =~= s);
    } else {
        assert(notes_without(s, id) =~= s);
    }
}

/// Every surviving row is one of the original rows, and survivors keep
/// their original relative order of ids.
pub proof fn lemma_notes_without_order(s: Seq<NoteView>, id: int)
    requires
        forall|i: int, j: int| 0 <= i < j < s.len() ==> #[trigger] s[i].id < #[trigger] s[j].id,
    ensures
        forall|i: int|
            0 <= i < notes_without(s, id).len() ==> exists|m: int|
                0 <= m < s.len() && #[trigger] notes_without(s, id)[i] == s[m],
        forall|i: int, j: int|
            0 <= i < j < notes_without(s, id).len() ==> #[trigger] notes_without(s, id)[i].id
                < #[trigger] notes_without(s, id)[j].id,
    decreases s.len(),
{
    if s.len() > 0 {
        let head = s.drop_last();
        let rest = notes_without(head, id);
        let out = notes_without(s, id);
        lemma_notes_without_order(head, id);
        assert forall|i: int| 0 <= i < out.len() implies exists|m: int|
            0 <= m < s.len() && #[trigger] out[i] == s[m] by {
            if i < rest.len() {
                assert(out[i] == rest[i]);
                let m = choose|m: int| 0 <= m < head.len() && rest[i] == head[m];
                assert(out[i] == s[m]);
            } else {
                assert(out[i] == s[s.len() - 1]);
            }
        }
        assert forall|i: int, j: int| 0 <= i < j < out.len() implies #[trigger] out[i].id
            < #[trigger] out[j].id by {
            if j < rest.len() {
                assert(out[i] == rest[i]);
                assert(out[j] == rest[j]);
            } else {
                assert(out[j] == s[s.len() - 1]);
                assert(out[i] == rest[i]);
                let m = choose|m: int| 0 <= m < head.len() && rest[i] == head[m];
                assert(s[m].id < s[s.len() - 1].id);
            }
        }
    }
}

/// Appending one row and then deleting keeps the row exactly when its id differs.
pub proof fn lemma_entries_without_push(s: Seq<EntryView>, e: EntryView, id: int)
    ensures
        entries_without(s.push(e), id) == if e.id == id {
            entries_without(s, id)
        } else {
            entries_without(s, id).push(e)
        },
{
    assert(s.push(e).drop_last() =~= s);
    assert(s.push(e).last() == e);
}

/// Deleting an id that no row carries changes nothing.
pub proof fn lemma_entries_without_absent(s: Seq<EntryView>, id: int)
    requires
        forall|i: int| 0 <= i < s.len() ==> #[trigger] s[i].id != id,
    ensures
        entries_without(s, id) == s,
    decreases s.len(),
{
    if s.len() > 0 {
        lemma_entries_without_absent(s.drop_last(), id);
        assert(s.drop_last().push(s.last()) =~= s);
    } else {
        assert(entries_without(s, id) =~= s);
    }
}

/// Every surviving row is one of the original rows, and survivors keep
/// their original relative order of ids.
pub proof fn lemma_entries_without_order(s: Seq<EntryView>, id: int)
    requires
        forall|i: int, j: int| 0 <= i < j < s.len() ==> #[trigger] s[i].id < #[trigger] s[j].id,
    ensures
        forall|i: int|
            0 <= i < entries_without(s, id).len() ==> exists|m: int|
                0 <= m < s.len() && #[trigger] entries_without(s, id)[i] == s[m],
        forall|i: int, j: int|
            0 <= i < j < entries_without(s, id).len() ==> #[trigger] entries_without(s, id)[i].id
                < #[trigger] entries_without(s, id)[j].id,
    decreases s.len(),
{
    if s.len() > 0 {
        let head = s.drop_last();
        let rest = entries_without(head, id);
        let out = entries_without(s, id);
        lemma_entries_without_order(head, id);
        assert forall|i: int| 0 <= i < out.len() implies exists|m: int|
            0 <= m < s.len() && #[trigger] out[i] == s[m] by {
            if i < rest.len() {
                assert(out[i] == rest[i]);
                let m = choose|m: int| 0 <= m < head.len() && rest[i] == head[m];
                assert(out[i] == s[m]);
            } else {
                assert(out[i] == s[s.len() - 1]);
            }
        }
        assert forall|i: int, j: int| 0 <= i < j < out.len() implies #[trigger] out[i].id
            < #[trigger] out[j].id by {
            if j < rest.len() {
                assert(out[i] == rest[i]);
                assert(out[j] == rest[j]);
            } else {
                assert(out[j] == s[s.len() - 1]);
                assert(out[i] == rest[i]);
                let m = choose|m: int| 0 <= m < head.len() && rest[i] == head[m];
                assert(s[m].id < s[s.len() - 1].id);
            }
        }
    }
}

} // verus!
