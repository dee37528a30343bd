use keyring::check_db_exists;
use keyring::create_cred;
use keyring::cred::Cred;
use keyring::errors::KeyringError;
use keyring::io::read::read_cred_file;
use keyring::io::read::read_iv_file;
use keyring::io::write::write_cred_file;
use keyring::obtain_cred;
use keyring::sign_in;
use keyring::sign_up;
use keyring::store::BlobStore;

fn cred(login: &str, pass: &str) -> Cred {
    Cred::from(login.to_string(), pass.to_string())
}

fn fresh_vault() -> BlobStore {
    let mut store = BlobStore::new();
    let r = sign_up(&mut store, cred("alice", "CorrectHorse1"));
    assert_eq!(r, Ok(true));
    store
}

#[test]
fn sign_up_creates_vault() {
    let mut store = BlobStore::new();
    assert!(!check_db_exists(&store));
    let r = sign_up(&mut store, cred("alice", "CorrectHorse1"));
    assert_eq!(r, Ok(true));
    assert!(check_db_exists(&store));
}

#[test]
fn auth_correct_password_succeeds() {
    let store = fresh_vault();
    let r = sign_in(&store, cred("alice", "CorrectHorse1"));
    assert_eq!(r, Ok(true));
}

#[test]
fn auth_wrong_password_fails() {
    let store = fresh_vault();
    let r = sign_in(&store, cred("alice", "wrong"));
    assert_eq!(r, Ok(false));
}

#[test]
fn auth_wrong_login_fails() {
    let store = fresh_vault();
    let r = sign_in(&store, cred("bob", "CorrectHorse1"));
    assert_eq!(r, Ok(false));
}

#[test]
fn sign_in_without_vault_is_not_initialized() {
    let store = BlobStore::new();
    let r = sign_in(&store, cred("alice", "CorrectHorse1"));
    assert_eq!(r, Err(KeyringError::NotInitialized));
}

#[test]
fn double_init_rejected() {
    let mut store = fresh_vault();
    let r = create_cred(
        &mut store,
        cred("alice", "CorrectHorse1"),
        cred("github", "s3cr3t"),
    );
    assert_eq!(r, Ok(true));
    let r2 = sign_up(&mut store, cred("mallory", "OtherPass99"));
    assert_eq!(r2, Err(KeyringError::AlreadyInitialized));
    // The first vault and its credentials are unchanged.
    let r3 = obtain_cred(&store, cred("alice", "CorrectHorse1"), "github");
    assert_eq!(r3, Ok("s3cr3t".to_string()));
}

#[test]
fn sign_up_rejects_empty_login() {
    let mut store = BlobStore::new();
    let r = sign_up(&mut store, cred("", "CorrectHorse1"));
    assert_eq!(r, Err(KeyringError::InvalidInput));
    assert!(!check_db_exists(&store));
}

#[test]
fn sign_up_rejects_empty_password() {
    let mut store = BlobStore::new();
    let r = sign_up(&mut store, cred("alice", ""));
    assert_eq!(r, Err(KeyringError::InvalidInput));
}

#[test]
fn credential_round_trip() {
    let mut store = fresh_vault();
    let r = create_cred(
        &mut store,
        cred("alice", "CorrectHorse1"),
        cred("github", "s3cr3t"),
    );
    assert_eq!(r, Ok(true));
    let r2 = obtain_cred(&store, cred("alice", "CorrectHorse1"), "github");
    assert_eq!(r2, Ok("s3cr3t".to_string()));
}

#[test]
fn unknown_credential_not_found() {
    let store = fresh_vault();
    let r = obtain_cred(&store, cred("alice", "CorrectHorse1"), "unknown");
    assert_eq!(r, Err(KeyringError::CredentialNotFound));
}

#[test]
fn obtain_without_vault_is_not_initialized() {
    let store = BlobStore::new();
    let r = obtain_cred(&store, cred("alice", "CorrectHorse1"), "github");
    assert_eq!(r, Err(KeyringError::NotInitialized));
}

#[test]
fn obtain_with_wrong_password_is_auth_failure() {
    let mut store = fresh_vault();
    let r = create_cred(
        &mut store,
        cred("alice", "CorrectHorse1"),
        cred("github", "s3cr3t"),
    );
    assert_eq!(r, Ok(true));
    let r2 = obtain_cred(&store, cred("alice", "wrong"), "github");
    assert_eq!(r2, Err(KeyringError::AuthenticationFailed));
}

#[test]
fn create_without_vault_is_not_initialized() {
    let mut store = BlobStore::new();
    let r = create_cred(
        &mut store,
        cred("alice", "CorrectHorse1"),
        cred("github", "s3cr3t"),
    );
    assert_eq!(r, Err(KeyringError::NotInitialized));
}

#[test]
fn create_with_wrong_password_is_auth_failure() {
    let mut store = fresh_vault();
    let r = create_cred(
        &mut store,
        cred("alice", "wrong"),
        cred("github", "s3cr3t"),
    );
    assert_eq!(r, Err(KeyringError::AuthenticationFailed));
}

#[test]
fn create_rejects_empty_name() {
    let mut store = fresh_vault();
    let r = create_cred(
        &mut store,
        cred("alice", "CorrectHorse1"),
        cred("", "s3cr3t"),
    );
    assert_eq!(r, Err(KeyringError::InvalidInput));
}

#[test]
fn create_rejects_reserved_names() {
    let mut store = fresh_vault();
    let r = create_cred(
        &mut store,
        cred("alice", "CorrectHorse1"),
        cred(".key", "s3cr3t"),
    );
    assert_eq!(r, Err(KeyringError::InvalidInput));
    let r2 = create_cred(
        &mut store,
        cred("alice", "CorrectHorse1"),
        cred(".control", "s3cr3t"),
    );
    assert_eq!(r2, Err(KeyringError::InvalidInput));
}

#[test]
fn empty_secret_round_trips() {
    let mut store = fresh_vault();
    let r = create_cred(
        &mut store,
        cred("alice", "CorrectHorse1"),
        cred("emptyone", ""),
    );
    assert_eq!(r, Ok(true));
    let r2 = obtain_cred(&store, cred("alice", "CorrectHorse1"), "emptyone");
    assert_eq!(r2, Ok(String::new()));
}

#[test]
fn long_secret_round_trips() {
    let mut store = fresh_vault();
    let secret = "a secret much longer than one cipher block: 0123456789abcdef0123456789abcdef";
    let r = create_cred(
        &mut store,
        cred("alice", "CorrectHorse1"),
        cred("longone", secret),
    );
    assert_eq!(r, Ok(true));
    let r2 = obtain_cred(&store, cred("alice", "CorrectHorse1"), "longone");
    assert_eq!(r2, Ok(secret.to_string()));
}

#[test]
fn iv_unique_across_names() {
    let mut store = fresh_vault();
    let master = || cred("alice", "CorrectHorse1");
    assert_eq!(
        create_cred(&mut store, master(), cred("github", "s3cr3t")),
        Ok(true)
    );
    assert_eq!(
        create_cred(&mut store, master(), cred("gitlab", "0ther")),
        Ok(true)
    );
    let iv_ctrl = read_iv_file(&store, "").unwrap();
    let iv_a = read_iv_file(&store, "github").unwrap();
    let iv_b = read_iv_file(&store, "gitlab").unwrap();
    assert_ne!(iv_a, iv_b);
    assert_ne!(iv_a, iv_ctrl);
    assert_ne!(iv_b, iv_ctrl);
}

#[test]
fn restore_same_name_mints_new_iv() {
    let mut store = fresh_vault();
    let master = || cred("alice", "CorrectHorse1");
    assert_eq!(
        create_cred(&mut store, master(), cred("github", "s3cr3t")),
        Ok(true)
    );
    let iv_first = read_iv_file(&store, "github").unwrap();
    assert_eq!(
        create_cred(&mut store, master(), cred("github", "n3wpass")),
        Ok(true)
    );
    let iv_second = read_iv_file(&store, "github").unwrap();
    assert_ne!(iv_first, iv_second);
    let r = obtain_cred(&store, master(), "github");
    assert_eq!(r, Ok("n3wpass".to_string()));
}

#[test]
fn tampered_ciphertext_is_corrupted() {
    let mut store = fresh_vault();
    assert_eq!(
        create_cred(
            &mut store,
            cred("alice", "CorrectHorse1"),
            cred("github", "s3cr3t"),
        ),
        Ok(true)
    );
    let mut ct = read_cred_file(&store, "github").unwrap();
    ct[0] ^= 0x01;
    write_cred_file(&mut store, "github", ct.as_slice()).unwrap();
    let r = obtain_cred(&store, cred("alice", "CorrectHorse1"), "github");
    assert_eq!(r, Err(KeyringError::CorruptedCredential));
}

#[test]
fn truncated_ciphertext_is_corrupted() {
    let mut store = fresh_vault();
    assert_eq!(
        create_cred(
            &mut store,
            cred("alice", "CorrectHorse1"),
            cred("github", "s3cr3t"),
        ),
        Ok(true)
    );
    let ct = read_cred_file(&store, "github").unwrap();
    write_cred_file(&mut store, "github", &ct[..ct.len() - 1]).unwrap();
    let r = obtain_cred(&store, cred("alice", "CorrectHorse1"), "github");
    assert_eq!(r, Err(KeyringError::CorruptedCredential));
}

#[test]
fn cred_from_keeps_fields() {
    let c = Cred::from("alice".to_string(), "pw".to_string());
    assert_eq!(c.login, "alice");
    assert_eq!(c.pass, "pw");
}
