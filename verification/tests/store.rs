use keyring::constants::control_file_content;
use keyring::errors::KeyringError;
use keyring::io::read::check_cred_file_exists;
use keyring::io::read::check_db_file_exists;
use keyring::io::read::read_cred_file;
use keyring::io::read::read_ctrl_file;
use keyring::io::read::read_key_file;
use keyring::io::write::write_ctrl_file;
use keyring::io::write::write_cred_file;
use keyring::io::write::write_iv_file;
use keyring::io::write::write_key_file;
use keyring::store::BlobStore;
use keyring::utils::bytes_eq;
use keyring::utils::str_equal;

#[test]
fn empty_store_has_nothing() {
    let store = BlobStore::new();
    assert!(!store.contains("anything"));
    assert!(store.read("anything").is_none());
    assert!(!check_db_file_exists(&store));
    assert!(!check_cred_file_exists(&store, "github"));
    assert_eq!(read_key_file(&store), Err(KeyringError::NotFound));
    assert_eq!(read_ctrl_file(&store), Err(KeyringError::NotFound));
}

#[test]
fn write_then_read_back() {
    let mut store = BlobStore::new();
    store.write("a", vec![1, 2, 3]);
    assert!(store.contains("a"));
    assert_eq!(store.read("a"), Some(vec![1, 2, 3]));
    assert!(store.read("b").is_none());
}

#[test]
fn write_overwrites_in_place() {
    let mut store = BlobStore::new();
    store.write("a", vec![1]);
    store.write("b", vec![2]);
    store.write("a", vec![3]);
    assert_eq!(store.read("a"), Some(vec![3]));
    assert_eq!(store.read("b"), Some(vec![2]));
}

#[test]
fn record_files_use_their_extensions() {
    let mut store = BlobStore::new();
    write_cred_file(&mut store, "github", &[4, 5]).unwrap();
    write_iv_file(&mut store, "github").unwrap();
    assert!(check_cred_file_exists(&store, "github"));
    assert!(store.contains("github.cred"));
    assert!(store.contains("github.iv"));
    assert!(!store.contains("github"));
    assert_eq!(read_cred_file(&store, "github"), Ok(vec![4, 5]));
}

#[test]
fn key_and_ctrl_files_live_under_fixed_names() {
    let mut store = BlobStore::new();
    let key = write_key_file(&mut store).unwrap();
    write_ctrl_file(&mut store, &[9]).unwrap();
    assert!(store.contains(".key"));
    assert!(store.contains(".control"));
    assert!(check_db_file_exists(&store));
    assert_eq!(read_key_file(&store), Ok(key.to_vec()));
    assert_eq!(read_ctrl_file(&store), Ok(vec![9]));
}

#[test]
fn control_marker_bytes() {
    assert_eq!(control_file_content(), b"control".to_vec());
}

#[test]
fn byte_and_str_equality_helpers() {
    assert!(bytes_eq(&[1, 2], &[1, 2]));
    assert!(!bytes_eq(&[1, 2], &[1, 3]));
    assert!(!bytes_eq(&[1, 2], &[1, 2, 3]));
    assert!(bytes_eq(&[], &[]));
    assert!(str_equal("abc", "abc"));
    assert!(!str_equal("abc", "abd"));
    assert!(!str_equal("abc", "ab"));
    assert!(str_equal("", ""));
    assert!(str_equal("na\u{ef}ve", "na\u{ef}ve"));
    assert!(!str_equal("na\u{ef}ve", "naive"));
}
