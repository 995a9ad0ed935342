//! The notes service: plain create, list and delete over the note rows.
//! A new note stores the caller's text as content under a fixed default
//! title; there is no per-note title and no update in place.

use vstd::prelude::*;

use crate::model::{db_wf, with_note, without_note};
use crate::store::{Database, Note};
use crate::store::StorageError;

verus! {

/// The fixed title every note is stored under.
pub open spec fn default_title() -> Seq<char> {
    "Note"@
}

/// Stores the text as a new note's content, under the default title.
pub fn add_note(db: &mut Database, text: String) -> (r: Result<(), StorageError>)
    requires
        db_wf(old(db)@),
    ensures
        db_wf(final(db)@),
        !old(db)@.notes_ready ==> r == Err::<(), StorageError>(StorageError::MissingTable) && final(db)@ == old(db)@,
        old(db)@.notes_ready && old(db)@.next_note_id == i64::MAX ==> r == Err::<
            (),
            StorageError,
        >(StorageError::Full) && final(db)@ == old(db)@,
        old(db)@.notes_ready && old(db)@.next_note_id < i64::MAX ==> r is Ok && final(db)@
            == with_note(old(db)@, default_title(), Some(text@)),
{
    db.insert_note(String::from_str("Note"), Some(text))
}

/// Lists all notes, most recently added (largest id) first.
pub fn list_notes(db: &Database) -> (r: Result<Vec<Note>, StorageError>)
    requires
        db_wf(db@),
    ensures
        !db@.notes_ready ==> r == Err::<Vec<Note>, StorageError>(StorageError::MissingTable),
        db@.notes_ready ==> r is Ok,
        r matches Ok(v) ==> {
            &&& v@.len() == db@.notes.len()
            &&& forall|i: int|
                0 <= i < v@.len() ==> #[trigger] v@[i]@ == db@.notes[db@.notes.len() - 1 - i]
            &&& forall|i: int, j: int|
                0 <= i < j < v@.len() ==> #[trigger] v@[i]@.id > #[trigger] v@[j]@.id
        },
{
    db.list_notes()
}

/// Deletes the note with the given id; an id that is not stored is a
/// successful no-op.
pub fn remove_note(db: &mut Database, id: i64) -> (r: Result<(), StorageError>)
    requires
        db_wf(old(db)@),
    ensures
        db_wf(final(db)@),
        !old(db)@.notes_ready ==> r == Err::<(), StorageError>(StorageError::MissingTable) && final(db)@ == old(db)@,
        old(db)@.notes_ready ==> r is Ok && final(db)@ == without_note(old(db)@, id as int),
{
    db.delete_note(id)
}

} // verus!
