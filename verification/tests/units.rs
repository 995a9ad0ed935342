use pwvault::cipher::Cipher;
use pwvault::passgen::generate_password;
use pwvault::stats::{format_system_stats, u64_to_dec};
use pwvault::store::StorageError;
use pwvault::vault::decrypt_stored;

#[test]
fn encrypt_decrypt_round_trip() {
    let cipher = Cipher::new(String::from("super_secret_key_1234"));
    for plaintext in ["hunter2", "", "a", "correct horse battery staple", "pässwörd ✓"] {
        let ciphertext = cipher.encrypt(plaintext);
        assert_eq!(cipher.decrypt(&ciphertext).as_deref(), Some(plaintext));
    }
}

#[test]
fn ciphertext_differs_from_plaintext() {
    let cipher = Cipher::new(String::from("super_secret_key_1234"));
    let ciphertext = cipher.encrypt("hunter2");
    assert_ne!(ciphertext, "hunter2");
    assert!(!ciphertext.is_empty());
}

#[test]
fn encryption_is_stable_across_cipher_instances() {
    let one = Cipher::new(String::from("k"));
    let two = Cipher::new(String::from("k"));
    let ciphertext = one.encrypt("stored long ago");
    assert_eq!(two.decrypt(&ciphertext).as_deref(), Some("stored long ago"));
}

#[test]
fn malformed_ciphertext_fails_to_decrypt() {
    let cipher = Cipher::new(String::from("k"));
    assert_eq!(cipher.decrypt("%%% not base64 %%%"), None);
    assert_eq!(decrypt_stored(&cipher, "%%% not base64 %%%"), "Decryption Failed!");
}

#[test]
fn decrypt_stored_passes_good_ciphertext_through() {
    let cipher = Cipher::new(String::from("k"));
    let ciphertext = cipher.encrypt("pw");
    assert_eq!(decrypt_stored(&cipher, &ciphertext), "pw");
}

#[test]
fn generated_password_has_requested_length() {
    assert_eq!(generate_password(0, false, false).chars().count(), 0);
    assert_eq!(generate_password(16, false, false).chars().count(), 16);
    assert_eq!(generate_password(64, true, true).chars().count(), 64);
}

#[test]
fn generated_password_draws_from_requested_alphabet() {
    let letters_only = generate_password(200, false, false);
    assert!(letters_only.chars().all(|c| c.is_ascii_alphabetic()));
    let with_numbers = generate_password(200, true, false);
    assert!(with_numbers.chars().all(|c| c.is_ascii_alphanumeric()));
    let with_all = generate_password(200, true, true);
    let symbols = "!@#$%^&*()_+-=[]{}|;:,.<>?";
    assert!(with_all
        .chars()
        .all(|c| c.is_ascii_alphanumeric() || symbols.contains(c)));
}

#[test]
fn decimal_formatting_is_exact() {
    assert_eq!(u64_to_dec(0), "0");
    assert_eq!(u64_to_dec(7), "7");
    assert_eq!(u64_to_dec(10), "10");
    assert_eq!(u64_to_dec(90210), "90210");
    assert_eq!(u64_to_dec(u64::MAX), "18446744073709551615");
}

#[test]
fn ram_report_is_exact() {
    let gib: u64 = 1024 * 1024 * 1024;
    assert_eq!(format_system_stats(8 * gib, 3 * gib), "RAM: 3 GB Used / 8 GB Total");
    // Partial gibibytes round down, as whole-number division does.
    assert_eq!(format_system_stats(16 * gib + 7, 0), "RAM: 0 GB Used / 16 GB Total");
}

#[test]
fn storage_error_messages() {
    assert_eq!(StorageError::MissingTable.message(), "no such table");
    assert_eq!(StorageError::Full.message(), "table is full");
}
