use keyring::constants::HASH_LENGTH;
use keyring::constants::IV_LENGTH;
use keyring::constants::KEY_LENGTH;
use keyring::cryptutils::hash;
use keyring::cryptutils::hash_password;
use keyring::cryptutils::sym_decrypt;
use keyring::cryptutils::sym_encrypt;
use keyring::errors::KeyringError;
use keyring::utils::gen_rand_iv;
use keyring::utils::gen_rand_key;
use keyring::utils::times;

const KEY: [u8; 32] = [7u8; 32];
const IV: [u8; 12] = [9u8; 12];

#[test]
fn seal_open_round_trip() {
    let plain = b"some payload";
    let ct = sym_encrypt(plain, &KEY, &IV).unwrap();
    assert_eq!(ct.len(), plain.len() + 16);
    assert_ne!(&ct[..plain.len()], &plain[..]);
    let back = sym_decrypt(&ct, &KEY, &IV).unwrap();
    assert_eq!(back, plain.to_vec());
}

#[test]
fn seal_open_round_trip_empty() {
    let ct = sym_encrypt(b"", &KEY, &IV).unwrap();
    assert_eq!(ct.len(), 16);
    let back = sym_decrypt(&ct, &KEY, &IV).unwrap();
    assert_eq!(back, Vec::<u8>::new());
}

#[test]
fn seal_open_round_trip_multi_block() {
    let plain = vec![0x5au8; 100];
    let ct = sym_encrypt(&plain, &KEY, &IV).unwrap();
    assert_eq!(ct.len(), 116);
    let back = sym_decrypt(&ct, &KEY, &IV).unwrap();
    assert_eq!(back, plain);
}

#[test]
fn open_rejects_wrong_key() {
    let ct = sym_encrypt(b"payload", &KEY, &IV).unwrap();
    let wrong = [8u8; 32];
    let r = sym_decrypt(&ct, &wrong, &IV);
    assert_eq!(r, Err(KeyringError::AuthenticationFailed));
}

#[test]
fn open_rejects_wrong_iv() {
    let ct = sym_encrypt(b"payload", &KEY, &IV).unwrap();
    let wrong = [1u8; 12];
    let r = sym_decrypt(&ct, &KEY, &wrong);
    assert_eq!(r, Err(KeyringError::AuthenticationFailed));
}

#[test]
fn open_rejects_flipped_byte() {
    let mut ct = sym_encrypt(b"payload", &KEY, &IV).unwrap();
    ct[3] ^= 0x80;
    let r = sym_decrypt(&ct, &KEY, &IV);
    assert_eq!(r, Err(KeyringError::AuthenticationFailed));
}

#[test]
fn derive_is_deterministic() {
    let pepper = [3u8; 64];
    let h1 = hash_password("CorrectHorse1", "alice", &pepper).unwrap();
    let h2 = hash_password("CorrectHorse1", "alice", &pepper).unwrap();
    assert_eq!(h1, h2);
    assert_eq!(h1.len(), HASH_LENGTH);
}

#[test]
fn derive_depends_on_every_input() {
    let pepper = [3u8; 64];
    let base = hash_password("CorrectHorse1", "alice", &pepper).unwrap();
    let other_pass = hash_password("CorrectHorse2", "alice", &pepper).unwrap();
    let other_salt = hash_password("CorrectHorse1", "bob", &pepper).unwrap();
    let other_pepper = hash_password("CorrectHorse1", "alice", &[4u8; 64]).unwrap();
    assert_ne!(base, other_pass);
    assert_ne!(base, other_salt);
    assert_ne!(base, other_pepper);
    assert_ne!(&base[..], b"CorrectHorse1".as_slice());
}

#[test]
fn sha3_digest_shape() {
    let d1 = hash(b"abc").unwrap();
    let d2 = hash(b"abc").unwrap();
    let d3 = hash(b"abd").unwrap();
    assert_eq!(d1.len(), 32);
    assert_eq!(d1, d2);
    assert_ne!(d1, d3);
    assert_ne!(d1.as_slice(), b"abc".as_slice());
}

#[test]
fn random_buffers_have_fixed_lengths() {
    let iv = gen_rand_iv();
    let key = gen_rand_key();
    assert_eq!(iv.len(), IV_LENGTH);
    assert_eq!(key.len(), KEY_LENGTH);
}

#[test]
fn two_random_keys_differ() {
    // 256 random bytes colliding is beyond astronomically unlikely.
    assert_ne!(gen_rand_key().to_vec(), gen_rand_key().to_vec());
}

#[test]
fn times_rounds_up() {
    assert_eq!(times(0, 16), 0);
    assert_eq!(times(1, 16), 1);
    assert_eq!(times(16, 16), 1);
    assert_eq!(times(17, 16), 2);
    assert_eq!(times(32, 16), 2);
    assert_eq!(times(33, 16), 3);
    assert_eq!(times(7, 1), 7);
}
