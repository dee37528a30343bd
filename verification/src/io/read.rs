use vstd::prelude::*;
use vstd::string::StringExecFns;

use crate::constants::control_file_name;
use crate::constants::cred_file_ext;
use crate::constants::cred_path;
use crate::constants::ctrl_path;
use crate::constants::iv_file_ext;
use crate::constants::iv_path;
use crate::constants::key_file_name;
use crate::constants::key_path;
use crate::errors::KeyringError;
use crate::store::BlobStore;

verus! {

/// Whether the control record exists; this is the definition of vault
/// existence.
pub fn check_db_file_exists(store: &BlobStore) -> (r: bool)
    ensures
        r == store@.contains_key(ctrl_path()),
{
    check_file_exists(store, control_file_name())
}

fn check_file_exists(store: &BlobStore, filename: &str) -> (r: bool)
    ensures
        r == store@.contains_key(filename@),
{
    store.contains(filename)
}

/// Whether a credential ciphertext is stored under `cred_name`.
pub fn check_cred_file_exists(store: &BlobStore, cred_name: &str) -> (r: bool)
    ensures
        r == store@.contains_key(cred_path(cred_name@)),
{
    let mut path = String::new();
    path.append(cred_name);
    path.append(cred_file_ext());
    proof {
        assert(path@ =~= cred_path(cred_name@));
    }
    check_file_exists(store, path.as_str())
}

/// The persisted file key (pepper).
pub fn read_key_file(store: &BlobStore) -> (r: Result<Vec<u8>, KeyringError>)
    requires
        store.wf(),
    ensures
        r matches Ok(v) ==> store@.contains_key(key_path()) && v@ == store@[key_path()],
        r matches Err(e) ==> !store@.contains_key(key_path()) && e == KeyringError::NotFound,
{
    read_file_to_string(store, key_file_name())
}

/// The persisted control-record ciphertext.
pub fn read_ctrl_file(store: &BlobStore) -> (r: Result<Vec<u8>, KeyringError>)
    requires
        store.wf(),
    ensures
        r matches Ok(v) ==> store@.contains_key(ctrl_path()) && v@ == store@[ctrl_path()],
        r matches Err(e) ==> !store@.contains_key(ctrl_path()) && e == KeyringError::NotFound,
{
    read_file_to_string(store, control_file_name())
}

/// The persisted IV of the record named `filename` (the empty name addresses
/// the control record's IV).
pub fn read_iv_file(store: &BlobStore, filename: &str) -> (r: Result<Vec<u8>, KeyringError>)
    requires
        store.wf(),
    ensures
        r matches Ok(v) ==> store@.contains_key(iv_path(filename@)) && v@ == store@[iv_path(
            filename@,
        )],
        r matches Err(e) ==> !store@.contains_key(iv_path(filename@)) && e
            == KeyringError::NotFound,
{
    let mut path = String::new();
    path.append(filename);
    path.append(iv_file_ext());
    proof {
        assert(path@ =~= iv_path(filename@));
    }
    read_file_to_string(store, path.as_str())
}

/// The persisted ciphertext of the credential named `cred_name`.
pub fn read_cred_file(store: &BlobStore, cred_name: &str) -> (r: Result<Vec<u8>, KeyringError>)
    requires
        store.wf(),
    ensures
        r matches Ok(v) ==> store@.contains_key(cred_path(cred_name@)) && v@ == store@[cred_path(
            cred_name@,
        )],
        r matches Err(e) ==> !store@.contains_key(cred_path(cred_name@)) && e
            == KeyringError::NotFound,
{
    let mut path = String::new();
    path.append(cred_name);
    path.append(cred_file_ext());
    proof {
        assert(path@ =~= cred_path(cred_name@));
    }
    read_file_to_string(store, path.as_str())
}

fn read_file_to_string(store: &BlobStore, path: &str) -> (r: Result<Vec<u8>, KeyringError>)
    requires
        store.wf(),
    ensures
        r matches Ok(v) ==> store@.contains_key(path@) && v@ == store@[path@],
        r matches Err(e) ==> !store@.contains_key(path@) && e == KeyringError::NotFound,
{
    match store.read(path) {
        Some(v) => Ok(v),
        None => Err(KeyringError::NotFound),
    }
}

} // verus!
