//! Laws of the store model, stated once for every state and proved.

use vstd::prelude::*;

use crate::model::{
    db_wf, lemma_entries_without_absent, lemma_notes_without_absent, with_schema, without_entry,
    without_note, DbView,
};

verus! {

/// Creating the schema a second time changes nothing further, and creating
/// it never touches a stored row: repeated startups never lose data.
pub proof fn schema_creation_idempotent(d: DbView)
    ensures
        with_schema(with_schema(d)) == with_schema(d),
        with_schema(d).notes == d.notes,
        with_schema(d).passwords == d.passwords,
        db_wf(d) ==> db_wf(with_schema(d)),
{
    assert(with_schema(with_schema(d)) =~~= with_schema(d));
}

/// Deleting a note id that no row carries leaves the store unchanged.
pub proof fn delete_absent_note_is_noop(d: DbView, id: int)
    requires
        forall|i: int| 0 <= i < d.notes.len() ==> #[trigger] d.notes[i].id != id,
    ensures
        without_note(d, id) == d,
{
    lemma_notes_without_absent(d.notes, id);
    assert(without_note(d, id) =~~= d);
}

/// Deleting a password id that no row carries leaves the store unchanged.
pub proof fn delete_absent_entry_is_noop(d: DbView, id: int)
    requires
        forall|i: int| 0 <= i < d.passwords.len() ==> #[trigger] d.passwords[i].id != id,
    ensures
        without_entry(d, id) == d,
{
    lemma_entries_without_absent(d.passwords, id);
    assert(without_entry(d, id) =~~= d);
}

} // verus!
