use pwvault::cipher::Cipher;
use pwvault::facade::Backend;
use pwvault::notes;
use pwvault::store::Database;
use pwvault::vault;

fn backend() -> Backend {
    Backend::new(String::from("super_secret_key_1234"))
}

#[test]
fn add_note_then_get_notes_round_trip() {
    let mut b = backend();
    let confirmation = b.add_note(String::from("buy milk")).unwrap();
    assert_eq!(confirmation, "Saved!");
    let notes = b.get_notes().unwrap();
    assert_eq!(notes.len(), 1);
    assert_eq!(notes[0].title, "Note");
    assert_eq!(notes[0].content.as_deref(), Some("buy milk"));
    let id = notes[0].id;
    b.delete_note(id).unwrap();
    assert!(b.get_notes().unwrap().is_empty());
}

#[test]
fn notes_listed_in_descending_id_order() {
    let mut b = backend();
    b.add_note(String::from("first")).unwrap();
    b.add_note(String::from("second")).unwrap();
    b.add_note(String::from("third")).unwrap();
    let notes = b.get_notes().unwrap();
    let ids: Vec<i64> = notes.iter().map(|n| n.id).collect();
    assert_eq!(ids, vec![3, 2, 1]);
    assert_eq!(notes[0].content.as_deref(), Some("third"));
    assert_eq!(notes[2].content.as_deref(), Some("first"));
}

#[test]
fn entries_listed_in_descending_id_order() {
    let mut b = backend();
    b.add_password_entry(String::from("a"), String::from("u1"), String::from("p1")).unwrap();
    b.add_password_entry(String::from("b"), String::from("u2"), String::from("p2")).unwrap();
    b.add_password_entry(String::from("c"), String::from("u3"), String::from("p3")).unwrap();
    let entries = b.get_password_entries().unwrap();
    let ids: Vec<i64> = entries.iter().map(|e| e.id).collect();
    assert_eq!(ids, vec![3, 2, 1]);
    assert_eq!(entries[0].service, "c");
    assert_eq!(entries[2].password, "p1");
}

#[test]
fn delete_of_missing_note_id_is_a_noop() {
    let mut b = backend();
    b.add_note(String::from("keep me")).unwrap();
    b.delete_note(9999).unwrap();
    let notes = b.get_notes().unwrap();
    assert_eq!(notes.len(), 1);
    assert_eq!(notes[0].content.as_deref(), Some("keep me"));
}

#[test]
fn delete_of_missing_entry_id_is_a_noop() {
    let mut b = backend();
    b.add_password_entry(String::from("s"), String::from("u"), String::from("p")).unwrap();
    b.delete_password_entry(9999).unwrap();
    assert_eq!(b.get_password_entries().unwrap().len(), 1);
}

#[test]
fn password_entry_round_trip_and_ciphertext_at_rest() {
    let mut b = backend();
    let confirmation = b
        .add_password_entry(
            String::from("github"),
            String::from("alice"),
            String::from("hunter2"),
        )
        .unwrap();
    assert_eq!(confirmation, "Entry Saved Encrypted");

    let entries = b.get_password_entries().unwrap();
    assert_eq!(entries.len(), 1);
    assert_eq!(entries[0].service, "github");
    assert_eq!(entries[0].username, "alice");
    assert_eq!(entries[0].password, "hunter2");

    // What rests in storage is the ciphertext, never the plaintext.
    let raw = b.db.list_password_entries().unwrap();
    assert_eq!(raw.len(), 1);
    assert_ne!(raw[0].password, "hunter2");
}

#[test]
fn tampered_ciphertext_yields_sentinel_without_blocking_other_rows() {
    let mut b = backend();
    b.add_password_entry(String::from("good"), String::from("u"), String::from("pw")).unwrap();
    // A ciphertext that encrypt never produced.
    b.db
        .insert_password_entry(
            String::from("bad"),
            String::from("u"),
            String::from("%%% not base64 %%%"),
        )
        .unwrap();
    let entries = b.get_password_entries().unwrap();
    assert_eq!(entries.len(), 2);
    assert_eq!(entries[0].service, "bad");
    assert_eq!(entries[0].password, "Decryption Failed!");
    assert_eq!(entries[1].service, "good");
    assert_eq!(entries[1].password, "pw");
}

#[test]
fn schema_creation_twice_keeps_rows_and_reports_no_error() {
    let mut db = Database::open();
    db.create_schema().unwrap();
    db.insert_note(String::from("Note"), Some(String::from("kept"))).unwrap();
    db.create_schema().unwrap();
    db.create_schema().unwrap();
    let notes = db.list_notes().unwrap();
    assert_eq!(notes.len(), 1);
    assert_eq!(notes[0].content.as_deref(), Some("kept"));
}

#[test]
fn store_rejects_use_before_schema_creation() {
    let mut db = Database::open();
    assert!(db.insert_note(String::from("Note"), None).is_err());
    assert!(db.list_notes().is_err());
    assert!(db.delete_note(1).is_err());
    assert!(db.insert_password_entry(String::from("s"), String::from("u"), String::from("c"))
        .is_err());
    assert!(db.list_password_entries().is_err());
    assert!(db.delete_password_entry(1).is_err());
}

#[test]
fn facade_reports_missing_table_as_string() {
    let mut b = Backend {
        db: Database::open(),
        cipher: Cipher::new(String::from("k")),
    };
    assert_eq!(b.add_note(String::from("x")).unwrap_err(), "no such table");
    assert_eq!(b.get_notes().unwrap_err(), "no such table");
    assert_eq!(b.delete_note(1).unwrap_err(), "no such table");
    assert_eq!(
        b.add_password_entry(String::from("s"), String::from("u"), String::from("p"))
            .unwrap_err(),
        "no such table"
    );
    assert_eq!(b.get_password_entries().unwrap_err(), "no such table");
    assert_eq!(b.delete_password_entry(1).unwrap_err(), "no such table");
}

#[test]
fn services_share_one_store() {
    let mut db = Database::open();
    db.create_schema().unwrap();
    notes::add_note(&mut db, String::from("a note")).unwrap();
    let cipher = Cipher::new(String::from("k"));
    vault::add_entry(&mut db, &cipher, String::from("s"), String::from("u"), "p").unwrap();
    assert_eq!(notes::list_notes(&db).unwrap().len(), 1);
    assert_eq!(vault::list_entries(&db, &cipher).unwrap().len(), 1);
    vault::remove_entry(&mut db, 1).unwrap();
    assert!(vault::list_entries(&db, &cipher).unwrap().is_empty());
    notes::remove_note(&mut db, 1).unwrap();
    assert!(notes::list_notes(&db).unwrap().is_empty());
}
