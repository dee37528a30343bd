use vstd::prelude::*;
use vstd::string::StringSliceAdditionalSpecFns;

use crate::constants::ArgonHash;
use crate::constants::HASH_LENGTH;
use crate::errors::KeyringError;

use aes_gcm_siv::aead::Aead;
use aes_gcm_siv::aead::NewAead;
use argon2::Algorithm;
use argon2::Argon2;
use argon2::Params;
use argon2::Version;
use sha3::Digest;
use sha3::Sha3_256;

verus! {

/// The SHA3-256 digest of a byte string.
pub uninterp spec fn sha3_256_of(data: Seq<u8>) -> Seq<u8>;

/// The Argon2id hash (version 0x13, default cost parameters) of a password
/// under a salt and a secret pepper.
pub uninterp spec fn argon2id_of(pwd: Seq<u8>, salt: Seq<u8>, pepper: Seq<u8>) -> Seq<u8>;

/// The AES-256-GCM-SIV sealing of a plaintext under a key and a nonce.
pub uninterp spec fn gcm_siv_seal(key: Seq<u8>, iv: Seq<u8>, pt: Seq<u8>) -> Seq<u8>;

/// What AES-256-GCM-SIV authenticated decryption returns for a ciphertext
/// under a key and a nonce: the plaintext, or `None` when the tag does not
/// verify.
pub uninterp spec fn gcm_siv_open(key: Seq<u8>, iv: Seq<u8>, ct: Seq<u8>) -> Option<Seq<u8>>;

/// Relies on sha3::Sha3_256 (Digest::new / update / finalize): a 32-byte
/// digest that is a function of the input bytes alone.
#[verifier::external_body]
pub fn hash(cleartext: &[u8]) -> (r: Result<Vec<u8>, KeyringError>)
    ensures
        r is Ok,
        r matches Ok(v) ==> v@ == sha3_256_of(cleartext@) && v@.len() == 32,
{
    let mut hasher = Sha3_256::new();
    hasher.update(cleartext);
    Ok(hasher.finalize().to_vec())
}

/// Relies on argon2::Argon2::hash_password_into (Argon2id, version 0x13,
/// default cost parameters, the pepper installed as the secret key): fills a
/// 32-byte buffer with a hash that is a function of (password, salt, pepper)
/// alone. The source rejects only a salt shorter than 8 bytes and a password,
/// salt or secret longer than 2^32 - 1 bytes.
#[verifier::external_body]
fn argon2id_hash(pwd: &[u8], salt: &[u8], pepper: &[u8]) -> (r: Result<ArgonHash, KeyringError>)
    ensures
        r matches Ok(h) ==> h@ == argon2id_of(pwd@, salt@, pepper@),
        r matches Err(e) ==> e == KeyringError::KeyDerivation,
        pwd@.len() <= 0xFFFF_FFFF && 8 <= salt@.len() && salt@.len() <= 0xFFFF_FFFF
            && pepper@.len() <= 0xFFFF_FFFF ==> r is Ok,
{
    let argon = match Argon2::new_with_secret(
        pepper,
        Algorithm::Argon2id,
        Version::V0x13,
        Params::default(),
    ) {
        Ok(a) => a,
        Err(_) => return Err(KeyringError::KeyDerivation),
    };
    let mut buf = [0u8; HASH_LENGTH];
    match argon.hash_password_into(pwd, salt, &mut buf) {
        Ok(()) => Ok(buf),
        Err(_) => Err(KeyringError::KeyDerivation),
    }
}

/// What key derivation computes: Argon2id over the password bytes, with the
/// SHA3-256 digest of the salt text as the salt and the file key as the
/// pepper.
pub open spec fn derive_spec(pwd: Seq<u8>, salt_text: Seq<u8>, pepper: Seq<u8>) -> Seq<u8> {
    argon2id_of(pwd, sha3_256_of(salt_text), pepper)
}

/// Inputs on which the password-hashing primitive is owed to succeed: the
/// password and pepper fit its 2^32 - 1 byte bounds (the salt handed to it is
/// always a 32-byte digest).
pub open spec fn kd_lens_ok(pwd: Seq<u8>, pepper: Seq<u8>) -> bool {
    pwd.len() <= 0xFFFF_FFFF && pepper.len() <= 0xFFFF_FFFF
}

/// Derives the master key from the master password, the login (as salt text)
/// and the file key (as pepper).
pub fn hash_password(password: &str, salt: &str, pepper: &[u8]) -> (r: Result<
    ArgonHash,
    KeyringError,
>)
    ensures
        r matches Ok(h) ==> h@ == derive_spec(password.spec_bytes(), salt.spec_bytes(), pepper@),
        r matches Err(e) ==> e == KeyringError::KeyDerivation,
        kd_lens_ok(password.spec_bytes(), pepper@) ==> r is Ok,
{
    let salted = match hash(salt.as_bytes()) {
        Ok(v) => v,
        Err(e) => return Err(e),
    };
    argon2id_hash(password.as_bytes(), salted.as_slice(), pepper)
}

/// Key derivation is deterministic: the derived key depends on the password,
/// salt and pepper alone, so identical inputs always reproduce the same
/// master key.
pub proof fn lemma_derive_deterministic(
    pwd1: Seq<u8>,
    salt1: Seq<u8>,
    pepper1: Seq<u8>,
    pwd2: Seq<u8>,
    salt2: Seq<u8>,
    pepper2: Seq<u8>,
)
    requires
        pwd1 == pwd2,
        salt1 == salt2,
        pepper1 == pepper2,
    ensures
        derive_spec(pwd1, salt1, pepper1) == derive_spec(pwd2, salt2, pepper2),
{
}

/// Relies on aes_gcm_siv::Aes256GcmSiv::encrypt (RFC 8452): the ciphertext is
/// the plaintext sealed under (key, nonce) followed by a 16-byte tag, is a
/// function of (key, nonce, plaintext) alone, and decrypting it under the
/// same key and nonce yields the plaintext back. The source fails only when
/// the plaintext is longer than 2^36 bytes.
#[verifier::external_body]
pub fn sym_encrypt(cleartext: &[u8], mk: &[u8], iv: &[u8]) -> (r: Result<Vec<u8>, KeyringError>)
    requires
        mk@.len() == 32,
        iv@.len() == 12,
    ensures
        r matches Ok(ct) ==> ct@ == gcm_siv_seal(mk@, iv@, cleartext@) && gcm_siv_open(
            mk@,
            iv@,
            ct@,
        ) == Some(cleartext@) && ct@.len() == cleartext@.len() + 16,
        r matches Err(e) ==> e == KeyringError::InvalidInput,
        cleartext@.len() <= 0x10_0000_0000 ==> r is Ok,
{
    let key = aes_gcm_siv::Key::from_slice(mk);
    let cipher = aes_gcm_siv::Aes256GcmSiv::new(key);
    let nonce = aes_gcm_siv::Nonce::from_slice(iv);
    match cipher.encrypt(nonce, cleartext) {
        Ok(ct) => Ok(ct),
        Err(_) => Err(KeyringError::InvalidInput),
    }
}

/// Relies on aes_gcm_siv::Aes256GcmSiv::decrypt (RFC 8452): authenticated
/// decryption returns the plaintext exactly when the ciphertext carries a
/// valid tag under (key, nonce), and fails otherwise; the outcome is a
/// function of (key, nonce, ciphertext) alone.
#[verifier::external_body]
pub fn sym_decrypt(ciphertext: &[u8], mk: &[u8], iv: &[u8]) -> (r: Result<Vec<u8>, KeyringError>)
    requires
        mk@.len() == 32,
        iv@.len() == 12,
    ensures
        r matches Ok(pt) ==> gcm_siv_open(mk@, iv@, ciphertext@) == Some(pt@),
        r is Err ==> gcm_siv_open(mk@, iv@, ciphertext@) is None,
        r matches Err(e) ==> e == KeyringError::AuthenticationFailed,
{
    let key = aes_gcm_siv::Key::from_slice(mk);
    let cipher = aes_gcm_siv::Aes256GcmSiv::new(key);
    let nonce = aes_gcm_siv::Nonce::from_slice(iv);
    match cipher.decrypt(nonce, ciphertext) {
        Ok(pt) => Ok(pt),
        Err(_) => Err(KeyringError::AuthenticationFailed),
    }
}

} // verus!
