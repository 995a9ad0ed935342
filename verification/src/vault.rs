//! The vault service: create, list and delete password entries. Plaintext
//! is encrypted before it reaches the store, so ciphertext and never
//! plaintext rests there; on read each row is decrypted on its own, a row
//! that fails to decrypt yielding a fixed sentinel instead of an error.

use vstd::prelude::*;

use crate::cipher::{dec_of, enc_of, Cipher};
use crate::model::{db_wf, with_entry, without_entry, EntryView};
use crate::store::{Database, PasswordEntry};
use crate::store::StorageError;

verus! {

/// The sentinel shown in place of a password that would not decrypt.
pub open spec fn sentinel() -> Seq<char> {
    "Decryption Failed!"@
}

/// What a stored password decrypts to: the plaintext, or the sentinel when
/// decryption fails.
pub open spec fn plain_or_sentinel(key: Seq<char>, stored: Seq<char>) -> Seq<char> {
    match dec_of(key, stored) {
        Some(p) => p,
        None => sentinel(),
    }
}

/// A stored row as the vault hands it out: the password field decrypted,
/// or the sentinel where decryption failed; everything else untouched.
pub open spec fn decrypted_row(key: Seq<char>, e: EntryView) -> EntryView {
    EntryView { password: plain_or_sentinel(key, e.password), ..e }
}

/// Decrypts one stored password, substituting the sentinel when decryption
/// fails, so one bad row never aborts a batch read.
pub fn decrypt_stored(cipher: &Cipher, stored: &str) -> (r: String)
    ensures
        r@ == plain_or_sentinel(cipher@, stored@),
{
    match cipher.decrypt(stored) {
        Some(p) => p,
        None => String::from_str("Decryption Failed!"),
    }
}

/// Encrypts the password and stores the entry; the plaintext never reaches
/// the store, and decrypting what was stored gives the plaintext back.
pub fn add_entry(
    db: &mut Database,
    cipher: &Cipher,
    service: String,
    username: String,
    plaintext: &str,
) -> (r: Result<(), StorageError>)
    requires
        db_wf(old(db)@),
    ensures
        db_wf(final(db)@),
        dec_of(cipher@, enc_of(cipher@, plaintext@)) == Some(plaintext@),
        !old(db)@.passwords_ready ==> r == Err::<(), StorageError>(StorageError::MissingTable)
            && final(db)@ == old(db)@,
        old(db)@.passwords_ready && old(db)@.next_password_id == i64::MAX ==> r == Err::<
            (),
            StorageError,
        >(StorageError::Full) && final(db)@ == old(db)@,
        old(db)@.passwords_ready && old(db)@.next_password_id < i64::MAX ==> r is Ok && final(db)@
            == with_entry(old(db)@, service@, username@, enc_of(cipher@, plaintext@)),
{
    let ciphertext = cipher.encrypt(plaintext);
    db.insert_password_entry(service, username, ciphertext)
}

/// Lists all entries, most recent first, each password decrypted; a row
/// whose ciphertext fails to decrypt comes back with the sentinel instead,
/// never blocking the other rows.
pub fn list_entries(db: &Database, cipher: &Cipher) -> (r: Result<Vec<PasswordEntry>, StorageError>)
    requires
        db_wf(db@),
    ensures
        !db@.passwords_ready ==> r == Err::<Vec<PasswordEntry>, StorageError>(
            StorageError::MissingTable,
        ),
        db@.passwords_ready ==> r is Ok,
        r matches Ok(v) ==> {
            &&& v@.len() == db@.passwords.len()
            &&& forall|i: int|
                0 <= i < v@.len() ==> #[trigger] v@[i]@ == decrypted_row(
                    cipher@,
                    db@.passwords[db@.passwords.len() - 1 - i],
                )
            &&& forall|i: int, j: int|
                0 <= i < j < v@.len() ==> #[trigger] v@[i]@.id > #[trigger] v@[j]@.id
        },
    {
    let raw = match db.list_password_entries() {
        Ok(v) => v,
        Err(e) => {
            return Err(e);
        },
    };
    let mut out: Vec<PasswordEntry> = Vec::new();
    let mut i: usize = 0;
    while i < raw.len()
        invariant
            db@.passwords_ready,
            i <= raw@.len(),
            out@.len() == i,
            raw@.len() == db@.passwords.len(),
            forall|k: int|
                0 <= k < raw@.len() ==> #[trigger] raw@[k]@ == db@.passwords[db@.passwords.len() - 1
                    - k],
            forall|k: int|
                0 <= k < out@.len() ==> #[trigger] out@[k]@ == decrypted_row(
                    cipher@,
                    db@.passwords[db@.passwords.len() - 1 - k],
                ),
        decreases raw@.len() - i,
    {
        let plain = decrypt_stored(cipher, raw[i].password.as_str());
        out.push(
            PasswordEntry {
                id: raw[i].id,
                service: raw[i].service.clone(),
                username: raw[i].username.clone(),
                password: plain,
            },
        );
        proof {
            assert(raw@[i as int]@ == db@.passwords[db@.passwords.len() - 1 - i]);
            assert(out@[i as int]@ =~= decrypted_row(
                cipher@,
                db@.passwords[db@.passwords.len() - 1 - i],
            ));
        }
        i = i + 1;
    }
    Ok(out)
}

/// Deletes the entry with the given id; an id that is not stored is a
/// successful no-op.
pub fn remove_entry(db: &mut Database, id: i64) -> (r: Result<(), StorageError>)
    requires
        db_wf(old(db)@),
    ensures
        db_wf(final(db)@),
        !old(db)@.passwords_ready ==> r == Err::<(), StorageError>(StorageError::MissingTable)
            && final(db)@ == old(db)@,
        old(db)@.passwords_ready ==> r is Ok && final(db)@ == without_entry(old(db)@, id as int),
{
    db.delete_password_entry(id)
}

} // verus!
