//! The command facade: one method per externally invokable command. Each
//! maps 1:1 to a service call and normalizes every failure to a plain
//! descriptive string; no structured error crosses this boundary.

use vstd::prelude::*;

use crate::cipher::{dec_of, enc_of, Cipher};
use crate::model::{db_wf, empty_db, with_entry, with_note, with_schema, without_entry,
    without_note};
use crate::notes;
use crate::notes::default_title;
use crate::store::{Database, Note, PasswordEntry};
use crate::vault;
use crate::vault::decrypted_row;

verus! {

/// The backend behind the command surface: the row store and the cipher,
/// built once at startup and borrowed by every command.
pub struct Backend {
    pub db: Database,
    pub cipher: Cipher,
}

impl Backend {
    /// Starts the backend: opens the store, creates the schema, and derives
    /// the cipher from the given passphrase.
    pub fn new(passphrase: String) -> (b: Backend)
        ensures
            b.cipher@ == passphrase@,
            b.db@ == with_schema(empty_db()),
            db_wf(b.db@),
    {
        let mut db = Database::open();
        let _ = db.create_schema();
        Backend { db, cipher: Cipher::new(passphrase) }
    }

    /// Stores a note holding the given text; answers with a confirmation
    /// string, or with the storage error's description.
    pub fn add_note(&mut self, text: String) -> (r: Result<String, String>)
        requires
            db_wf(old(self).db@),
        ensures
            db_wf(final(self).db@),
            final(self).cipher@ == old(self).cipher@,
            old(self).db@.notes_ready && old(self).db@.next_note_id < i64::MAX ==> (r matches Ok(m) && m@ == "Saved!"@ && final(self).db@ == with_note(
                old(self).db@,
                default_title(),
                Some(text@),
            )),
            !old(self).db@.notes_ready ==> (r matches Err(m) && m@ == "no such table"@ && final(self).db@ == old(self).db@),
            old(self).db@.notes_ready && old(self).db@.next_note_id == i64::MAX ==> (r matches Err(m) && m@ == "table is full"@ && final(self).db@ == old(self).db@),
    {
        match notes::add_note(&mut self.db, text) {
            Ok(()) => Ok(String::from_str("Saved!")),
            Err(e) => Err(e.message()),
        }
    }

    /// Lists all notes, most recent first, or describes the storage error.
    pub fn get_notes(&self) -> (r: Result<Vec<Note>, String>)
        requires
            db_wf(self.db@),
        ensures
            !self.db@.notes_ready ==> (r matches Err(m) && m@ == "no such table"@),
            self.db@.notes_ready ==> r is Ok,
            r matches Ok(v) ==> {
                &&& v@.len() == self.db@.notes.len()
                &&& forall|i: int|
                    0 <= i < v@.len() ==> #[trigger] v@[i]@ == self.db@.notes[self.db@.notes.len()
                        - 1 - i]
                &&& forall|i: int, j: int|
                    0 <= i < j < v@.len() ==> #[trigger] v@[i]@.id > #[trigger] v@[j]@.id
            },
    {
        match notes::list_notes(&self.db) {
            Ok(v) => Ok(v),
            Err(e) => Err(e.message()),
        }
    }

    /// Deletes the note with the given id; a missing id is a successful
    /// no-op. Failures come back as their description.
    pub fn delete_note(&mut self, id: i64) -> (r: Result<(), String>)
        requires
            db_wf(old(self).db@),
        ensures
            db_wf(final(self).db@),
            final(self).cipher@ == old(self).cipher@,
            !old(self).db@.notes_ready ==> (r matches Err(m) && m@ == "no such table"@ && final(self).db@ == old(self).db@),
            old(self).db@.notes_ready ==> r is Ok && final(self).db@ == without_note(
                old(self).db@,
                id as int,
            ),
    {
        match notes::remove_note(&mut self.db, id) {
            Ok(()) => Ok(()),
            Err(e) => Err(e.message()),
        }
    }

    /// Encrypts the password and stores the entry; answers with a
    /// confirmation string, or with the storage error's description. The
    /// plaintext never reaches the store.
    pub fn add_password_entry(
        &mut self,
        service: String,
        username: String,
        password: String,
    ) -> (r: Result<String, String>)
        requires
            db_wf(old(self).db@),
        ensures
            db_wf(final(self).db@),
            final(self).cipher@ == old(self).cipher@,
            dec_of(old(self).cipher@, enc_of(old(self).cipher@, password@)) == Some(password@),
            old(self).db@.passwords_ready && old(self).db@.next_password_id < i64::MAX ==> (r
                matches Ok(m) && m@ == "Entry Saved Encrypted"@ && final(self).db@ == with_entry(
                old(self).db@,
                service@,
                username@,
                enc_of(old(self).cipher@, password@),
            )),
            !old(self).db@.passwords_ready ==> (r matches Err(m) && m@ == "no such table"@
                && final(self).db@ == old(self).db@),
            old(self).db@.passwords_ready && old(self).db@.next_password_id == i64::MAX ==> (r
                matches Err(m) && m@ == "table is full"@ && final(self).db@ == old(self).db@),
    {
        match vault::add_entry(&mut self.db, &self.cipher, service, username, password.as_str()) {
            Ok(()) => Ok(String::from_str("Entry Saved Encrypted")),
            Err(e) => Err(e.message()),
        }
    }

    /// Lists all password entries, most recent first, each password
    /// decrypted or replaced by the sentinel, or describes the storage
    /// error.
    pub fn get_password_entries(&self) -> (r: Result<Vec<PasswordEntry>, String>)
        requires
            db_wf(self.db@),
        ensures
            !self.db@.passwords_ready ==> (r matches Err(m) && m@ == "no such table"@),
            self.db@.passwords_ready ==> r is Ok,
            r matches Ok(v) ==> {
                &&& v@.len() == self.db@.passwords.len()
                &&& forall|i: int|
                    0 <= i < v@.len() ==> #[trigger] v@[i]@ == decrypted_row(
                        self.cipher@,
                        self.db@.passwords[self.db@.passwords.len() - 1 - i],
                    )
                &&& forall|i: int, j: int|
                    0 <= i < j < v@.len() ==> #[trigger] v@[i]@.id > #[trigger] v@[j]@.id
            },
    {
        match vault::list_entries(&self.db, &self.cipher) {
            Ok(v) => Ok(v),
            Err(e) => Err(e.message()),
        }
    }

    /// Deletes the password entry with the given id; a missing id is a
    /// successful no-op. Failures come back as their description.
    pub fn delete_password_entry(&mut self, id: i64) -> (r: Result<(), String>)
        requires
            db_wf(old(self).db@),
        ensures
            db_wf(final(self).db@),
            final(self).cipher@ == old(self).cipher@,
            !old(self).db@.passwords_ready ==> (r matches Err(m) && m@ == "no such table"@
                && final(self).db@ == old(self).db@),
            old(self).db@.passwords_ready ==> r is Ok && final(self).db@ == without_entry(
                old(self).db@,
                id as int,
            ),
    {
        match vault::remove_entry(&mut self.db, id) {
            Ok(()) => Ok(()),
            Err(e) => Err(e.message()),
        }
    }
}

} // verus!
