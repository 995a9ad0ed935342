//! The cipher unit: a symmetric cipher derived from a passphrase handed in
//! at startup, turning password strings into a text-safe encoding and back.
//! The same passphrase always derives the same cipher, so ciphertext stored
//! by an earlier run stays decryptable.

use vstd::prelude::*;

use magic_crypt::MagicCryptTrait;

verus! {

/// The ciphertext that encrypting `plaintext` under `key` produces.
pub uninterp spec fn enc_of(key: Seq<char>, plaintext: Seq<char>) -> Seq<char>;

/// What decrypting `ciphertext` under `key` yields: the recovered plaintext,
/// or nothing when the ciphertext is malformed or was made under another key.
pub uninterp spec fn dec_of(key: Seq<char>, ciphertext: Seq<char>) -> Option<Seq<char>>;

/// Relies on magic_crypt's `MagicCrypt256::new` and `encrypt_str_to_base64`:
/// the cipher is derived from the passphrase alone (a SHA-256 key and a fixed
/// zero IV), so for a fixed passphrase the base64 ciphertext is a function of
/// the plaintext alone, and `decrypt_base64_to_string` of that ciphertext
/// under the same passphrase gives the plaintext back.
#[verifier::external_body]
fn encrypt_with(passphrase: &str, plaintext: &str) -> (r: String)
    ensures
        r@ == enc_of(passphrase@, plaintext@),
        dec_of(passphrase@, r@) == Some(plaintext@),
{
    let mc = magic_crypt::MagicCrypt256::new(passphrase, None::<&str>);
    mc.encrypt_str_to_base64(plaintext)
}

/// Relies on magic_crypt's `MagicCrypt256::new` and
/// `decrypt_base64_to_string`: the cipher is derived from the passphrase
/// alone, so the outcome is a function of the ciphertext alone; it returns a
/// string where the ciphertext decodes and decrypts, and an error otherwise.
#[verifier::external_body]
fn decrypt_with(passphrase: &str, ciphertext: &str) -> (r: Option<String>)
    ensures
        r is Some <==> dec_of(passphrase@, ciphertext@) is Some,
        r matches Some(p) ==> dec_of(passphrase@, ciphertext@) == Some(p@),
{
    let mc = magic_crypt::MagicCrypt256::new(passphrase, None::<&str>);
    match mc.decrypt_base64_to_string(ciphertext) {
        Ok(p) => Some(p),
        Err(_) => None,
    }
}

/// A symmetric cipher. Its view is the passphrase the cipher was derived
/// from; the key material is immutable for the life of the process.
pub struct Cipher {
    passphrase: String,
}

impl View for Cipher {
    type V = Seq<char>;

    closed spec fn view(&self) -> Seq<char> {
        self.passphrase@
    }
}

impl Cipher {
    /// Derives the process-wide cipher from a passphrase.
    pub fn new(passphrase: String) -> (c: Cipher)
        ensures
            c@ == passphrase@,
    {
        Cipher { passphrase }
    }

    /// Encrypts a password string to its text-safe ciphertext. Decrypting
    /// that ciphertext under the same cipher gives the plaintext back.
    pub fn encrypt(&self, plaintext: &str) -> (r: String)
        ensures
            r@ == enc_of(self@, plaintext@),
            dec_of(self@, enc_of(self@, plaintext@)) == Some(plaintext@),
    {
        encrypt_with(self.passphrase.as_str(), plaintext)
    }

    /// Decrypts a stored ciphertext; yields nothing when the ciphertext is
    /// malformed or was not produced under this cipher.
    pub fn decrypt(&self, ciphertext: &str) -> (r: Option<String>)
        ensures
            r is Some <==> dec_of(self@, ciphertext@) is Some,
            r matches Some(p) ==> dec_of(self@, ciphertext@) == Some(p@),
    {
        decrypt_with(self.passphrase.as_str(), ciphertext)
    }
}

} // verus!
