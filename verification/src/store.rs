//! The persistence gateway: an embedded row store holding the notes and
//! passwords tables, with idempotent schema creation and parameterized
//! row-level operations. Ids are unique and assigned by the store itself,
//! and both listings come back in descending id order (most recent first).

use vstd::prelude::*;

use crate::model::{
    db_wf, empty_db, entries_without, lemma_entries_without_order, lemma_entries_without_push,
    lemma_notes_without_order, lemma_notes_without_push, notes_without, with_entry, with_note,
    with_schema, without_entry, without_note, DbView, EntryView, NoteView,
};

verus! {

/// An error of the row store.
#[derive(Clone, Copy, Debug, PartialEq, Eq, Structural)]
pub enum StorageError {
    /// A table was used before the schema was created.
    MissingTable,
    /// The next row id would not fit in an `i64`.
    Full,
}

impl StorageError {
    /// The user-facing description of this error.
    pub fn message(&self) -> (r: String)
        ensures
            *self == StorageError::MissingTable ==> r@ == "no such table"@,
            *self == StorageError::Full ==> r@ == "table is full"@,
    {
        match self {
            StorageError::MissingTable => String::from_str("no such table"),
            StorageError::Full => String::from_str("table is full"),
        }
    }
}

/// One row of the notes table.
#[derive(Debug)]
pub struct Note {
    pub id: i64,
    pub title: String,
    pub content: Option<String>,
}

/// One row of the passwords table. At rest, `password` holds ciphertext;
/// the vault service replaces it with plaintext (or a sentinel) on read.
#[derive(Debug)]
pub struct PasswordEntry {
    pub id: i64,
    pub service: String,
    pub username: String,
    pub password: String,
}

/// The views of a sequence of note rows.
pub open spec fn note_views(s: Seq<Note>) -> Seq<NoteView> {
    s.map_values(|n: Note| n@)
}

/// The views of a sequence of password rows.
pub open spec fn entry_views(s: Seq<PasswordEntry>) -> Seq<EntryView> {
    s.map_values(|e: PasswordEntry| e@)
}

/// The view of an optional text column.
pub open spec fn opt_text_view(c: Option<String>) -> Option<Seq<char>> {
    match c {
        Some(s) => Some(s@),
        None => None,
    }
}

impl View for Note {
    type V = NoteView;

    open spec fn view(&self) -> NoteView {
        NoteView { id: self.id as int, title: self.title@, content: opt_text_view(self.content) }
    }
}

impl Note {
    /// An exact copy of this row.
    pub fn duplicate(&self) -> (r: Note)
        ensures
            r@ == self@,
    {
        Note {
            id: self.id,
            title: self.title.clone(),
            content: match &self.content {
                Some(s) => Some(s.clone()),
                None => None,
            },
        }
    }
}

impl View for PasswordEntry {
    type V = EntryView;

    open spec fn view(&self) -> EntryView {
        EntryView {
            id: self.id as int,
            service: self.service@,
            username: self.username@,
            password: self.password@,
        }
    }
}

impl PasswordEntry {
    /// An exact copy of this row.
    pub fn duplicate(&self) -> (r: PasswordEntry)
        ensures
            r@ == self@,
    {
        PasswordEntry {
            id: self.id,
            service: self.service.clone(),
            username: self.username.clone(),
            password: self.password.clone(),
        }
    }
}

/// The embedded row store. It owns both tables for the life of the
/// process; services borrow it per call.
pub struct Database {
    notes_ready: bool,
    passwords_ready: bool,
    next_note_id: i64,
    next_password_id: i64,
    notes: Vec<Note>,
    passwords: Vec<PasswordEntry>,
}

impl View for Database {
    type V = DbView;

    closed spec fn view(&self) -> DbView {
        DbView {
            notes_ready: self.notes_ready,
            passwords_ready: self.passwords_ready,
            next_note_id: self.next_note_id as int,
            next_password_id: self.next_password_id as int,
            notes: note_views(self.notes@),
            passwords: entry_views(self.passwords@),
        }
    }
}

impl Database {
    /// A freshly opened store: no tables yet, nothing stored.
    pub fn open() -> (db: Database)
        ensures
            db@ == empty_db(),
            db_wf(db@),
    {
        let db = Database {
            notes_ready: false,
            passwords_ready: false,
            next_note_id: 1,
            next_password_id: 1,
            notes: Vec::new(),
            passwords: Vec::new(),
        };
        proof {
            assert(db@ =~~= empty_db());
        }
        db
    }

    /// Creates both tables if they do not exist yet. Never fails, touches
    /// no existing row, and a repeated call changes nothing further.
    pub fn create_schema(&mut self) -> (r: Result<(), StorageError>)
        requires
            db_wf(old(self)@),
        ensures
            db_wf(final(self)@),
            r is Ok,
            final(self)@ == with_schema(old(self)@),
    {
        self.notes_ready = true;
        self.passwords_ready = true;
        proof {
            assert(self@ =~~= with_schema(old(self)@));
        }
        Ok(())
    }

    /// Inserts a note row; the store assigns the next id.
    pub fn insert_note(&mut self, title: String, content: Option<String>) -> (r: Result<
        (),
        StorageError,
    >)
        requires
            db_wf(old(self)@),
        ensures
            db_wf(final(self)@),
            !old(self)@.notes_ready ==> r == Err::<(), StorageError>(StorageError::MissingTable)
                && final(self)@ == old(self)@,
            old(self)@.notes_ready && old(self)@.next_note_id == i64::MAX ==> r == Err::<
                (),
                StorageError,
            >(StorageError::Full) && final(self)@ == old(self)@,
            old(self)@.notes_ready && old(self)@.next_note_id < i64::MAX ==> r is Ok && final(self)@
                == with_note(old(self)@, title@, opt_text_view(content)),
    {
        if !self.notes_ready {
            return Err(StorageError::MissingTable);
        }
        if self.next_note_id == i64::MAX {
            return Err(StorageError::Full);
        }
        let id = self.next_note_id;
        self.next_note_id = id + 1;
        self.notes.push(Note { id, title, content });
        proof {
            assert(self@ =~~= with_note(old(self)@, title@, opt_text_view(content)));
        }
        Ok(())
    }

    /// Lists all note rows, most recently inserted (largest id) first.
    pub fn list_notes(&self) -> (r: Result<Vec<Note>, StorageError>)
        requires
            db_wf(self@),
        ensures
            !self@.notes_ready ==> r == Err::<Vec<Note>, StorageError>(StorageError::MissingTable),
            self@.notes_ready ==> r is Ok,
            r matches Ok(v) ==> {
                &&& v@.len() == self@.notes.len()
                &&& forall|i: int|
                    0 <= i < v@.len() ==> #[trigger] v@[i]@ == self@.notes[self@.notes.len() - 1
                        - i]
                &&& forall|i: int, j: int|
                    0 <= i < j < v@.len() ==> #[trigger] v@[i]@.id > #[trigger] v@[j]@.id
            },
    {
        if !self.notes_ready {
            return Err(StorageError::MissingTable);
        }
        let mut out: Vec<Note> = Vec::new();
        let mut i: usize = self.notes.len();
        while i > 0
            invariant
                i <= self.notes@.len(),
                out@.len() == self.notes@.len() - i,
                forall|k: int|
                    0 <= k < out@.len() ==> #[trigger] out@[k]@ == self@.notes[self@.notes.len() - 1
                        - k],
            decreases i,
        {
            i = i - 1;
            out.push(self.notes[i].duplicate());
        }
        Ok(out)
    }

    /// Deletes the note row with the given id; deleting an id that is not
    /// stored succeeds and changes nothing.
    pub fn delete_note(&mut self, id: i64) -> (r: Result<(), StorageError>)
        requires
            db_wf(old(self)@),
        ensures
            db_wf(final(self)@),
            !old(self)@.notes_ready ==> r == Err::<(), StorageError>(StorageError::MissingTable)
                && final(self)@ == old(self)@,
            old(self)@.notes_ready ==> r is Ok && final(self)@ == without_note(old(self)@, id as int),
    {
        if !self.notes_ready {
            return Err(StorageError::MissingTable);
        }
        let ghost s = self@.notes;
        let mut kept: Vec<Note> = Vec::new();
        let mut i: usize = 0;
        while i < self.notes.len()
            invariant
                i <= self.notes@.len(),
                s == self@.notes,
                self.notes@.len() == s.len(),
                note_views(kept@) == notes_without(s.subrange(0, i as int), id as int),
            decreases self.notes@.len() - i,
        {
            proof {
                assert(self.notes@[i as int]@ == s[i as int]);
                lemma_notes_without_push(s.subrange(0, i as int), s[i as int], id as int);
                assert(s.subrange(0, i as int).push(s[i as int]) =~= s.subrange(0, i + 1 as int));
            }
            if self.notes[i].id != id {
                let row = self.notes[i].duplicate();
                let ghost prev = kept@;
                kept.push(row);
                proof {
                    assert(kept@ == prev.push(row));
                    assert(note_views(kept@) =~= note_views(prev).push(row@));
                    assert(note_views(kept@) =~= notes_without(
                        s.subrange(0, i + 1 as int),
                        id as int,
                    ));
                }
            }
            i = i + 1;
        }
        proof {
            assert(s.subrange(0, s.len() as int) =~= s);
            lemma_notes_without_order(s, id as int);
        }
        self.notes = kept;
        proof {
            assert(self@ =~~= without_note(old(self)@, id as int));
        }
        Ok(())
    }

    /// Inserts a password row (ciphertext in `password`); the store
    /// assigns the next id.
    pub fn insert_password_entry(
        &mut self,
        service: String,
        username: String,
        password: String,
    ) -> (r: Result<(), StorageError>)
        requires
            db_wf(old(self)@),
        ensures
            db_wf(final(self)@),
            !old(self)@.passwords_ready ==> r == Err::<(), StorageError>(StorageError::MissingTable)
                && final(self)@ == old(self)@,
            old(self)@.passwords_ready && old(self)@.next_password_id == i64::MAX ==> r == Err::<
                (),
                StorageError,
            >(StorageError::Full) && final(self)@ == old(self)@,
            old(self)@.passwords_ready && old(self)@.next_password_id < i64::MAX ==> r is Ok
                && final(self)@ == with_entry(old(self)@, service@, username@, password@),
    {
        if !self.passwords_ready {
            return Err(StorageError::MissingTable);
        }
        if self.next_password_id == i64::MAX {
            return Err(StorageError::Full);
        }
        let id = self.next_password_id;
        self.next_password_id = id + 1;
        self.passwords.push(PasswordEntry { id, service, username, password });
        proof {
            assert(self@ =~~= with_entry(old(self)@, service@, username@, password@));
        }
        Ok(())
    }

    /// Lists all password rows as stored (ciphertext), most recently
    /// inserted (largest id) first.
    pub fn list_password_entries(&self) -> (r: Result<Vec<PasswordEntry>, StorageError>)
        requires
            db_wf(self@),
        ensures
            !self@.passwords_ready ==> r == Err::<Vec<PasswordEntry>, StorageError>(
                StorageError::MissingTable,
            ),
            self@.passwords_ready ==> r is Ok,
            r matches Ok(v) ==> {
                &&& v@.len() == self@.passwords.len()
                &&& forall|i: int|
                    0 <= i < v@.len() ==> #[trigger] v@[i]@ == self@.passwords[self@.passwords.len()
                        - 1 - i]
                &&& forall|i: int, j: int|
                    0 <= i < j < v@.len() ==> #[trigger] v@[i]@.id > #[trigger] v@[j]@.id
            },
    {
        if !self.passwords_ready {
            return Err(StorageError::MissingTable);
        }
        let mut out: Vec<PasswordEntry> = Vec::new();
        let mut i: usize = self.passwords.len();
        while i > 0
            invariant
                i <= self.passwords@.len(),
                out@.len() == self.passwords@.len() - i,
                forall|k: int|
                    0 <= k < out@.len() ==> #[trigger] out@[k]@ == self@.passwords[
                        self@.passwords.len() - 1 - k],
            decreases i,
        {
            i = i - 1;
            out.push(self.passwords[i].duplicate());
        }
        Ok(out)
    }

    /// Deletes the password row with the given id; deleting an id that is
    /// not stored succeeds and changes nothing.
    pub fn delete_password_entry(&mut self, id: i64) -> (r: Result<(), StorageError>)
        requires
            db_wf(old(self)@),
        ensures
            db_wf(final(self)@),
            !old(self)@.passwords_ready ==> r == Err::<(), StorageError>(StorageError::MissingTable)
                && final(self)@ == old(self)@,
            old(self)@.passwords_ready ==> r is Ok && final(self)@ == without_entry(
                old(self)@,
                id as int,
            ),
    {
        if !self.passwords_ready {
            return Err(StorageError::MissingTable);
        }
        let ghost s = self@.passwords;
        let mut kept: Vec<PasswordEntry> = Vec::new();
        let mut i: usize = 0;
        while i < self.passwords.len()
            invariant
                i <= self.passwords@.len(),
                s == self@.passwords,
                self.passwords@.len() == s.len(),
                entry_views(kept@) == entries_without(s.subrange(0, i as int), id as int),
            decreases self.passwords@.len() - i,
        {
            proof {
                assert(self.passwords@[i as int]@ == s[i as int]);
                lemma_entries_without_push(s.subrange(0, i as int), s[i as int], id as int);
                assert(s.subrange(0, i as int).push(s[i as int]) =~= s.subrange(0, i + 1 as int));
            }
            if self.passwords[i].id != id {
                let row = self.passwords[i].duplicate();
                let ghost prev = kept@;
                kept.push(row);
                proof {
                    assert(kept@ == prev.push(row));
                    assert(entry_views(kept@) =~= entry_views(prev).push(row@));
                    assert(entry_views(kept@) =~= entries_without(
                        s.subrange(0, i + 1 as int),
                        id as int,
                    ));
                }
            }
            i = i + 1;
        }
        proof {
            assert(s.subrange(0, s.len() as int) =~= s);
            lemma_entries_without_order(s, id as int);
        }
        self.passwords = kept;
        proof {
            assert(self@ =~~= without_entry(old(self)@, id as int));
        }
        Ok(())
    }
}

} // verus!
