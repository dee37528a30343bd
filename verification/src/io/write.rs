use vstd::prelude::*;
use vstd::slice::slice_to_vec;
use vstd::string::StringExecFns;

use crate::constants::control_file_name;
use crate::constants::cred_file_ext;
use crate::constants::cred_path;
use crate::constants::ctrl_path;
use crate::constants::iv_file_ext;
use crate::constants::iv_path;
use crate::constants::key_file_name;
use crate::constants::key_path;
use crate::constants::Key;
use crate::constants::IV;
use crate::errors::KeyringError;
use crate::store::BlobStore;
use crate::utils::gen_rand_iv;
use crate::utils::gen_rand_key;

verus! {

fn write_file_w_contents(store: &mut BlobStore, filename: &str, content: &[u8]) -> (r: Result<
    (),
    KeyringError,
>)
    requires
        old(store).wf(),
    ensures
        final(store).wf(),
        final(store)@ == old(store)@.insert(filename@, content@),
        r is Ok,
{
    let data = slice_to_vec(content);
    store.write(filename, data);
    Ok(())
}

/// Persists a credential ciphertext under `cred_name`.
pub fn write_cred_file(store: &mut BlobStore, cred_name: &str, content: &[u8]) -> (r: Result<
    (),
    KeyringError,
>)
    requires
        old(store).wf(),
    ensures
        final(store).wf(),
        final(store)@ == old(store)@.insert(cred_path(cred_name@), content@),
        r is Ok,
{
    let mut path = String::new();
    path.append(cred_name);
    path.append(cred_file_ext());
    proof {
        assert(path@ =~= cred_path(cred_name@));
    }
    write_file_w_contents(store, path.as_str(), content)
}

/// Mints a fresh random file key, persists it, and returns it.
pub fn write_key_file(store: &mut BlobStore) -> (r: Result<Key, KeyringError>)
    requires
        old(store).wf(),
    ensures
        final(store).wf(),
        r is Ok,
        r matches Ok(k) ==> final(store)@ == old(store)@.insert(key_path(), k@),
{
    let key = gen_rand_key();
    let res = write_file_w_contents(store, key_file_name(), key.as_slice());
    match res {
        Ok(()) => Ok(key),
        Err(e) => Err(e),
    }
}

/// Persists the control-record ciphertext.
pub fn write_ctrl_file(store: &mut BlobStore, content: &[u8]) -> (r: Result<(), KeyringError>)
    requires
        old(store).wf(),
    ensures
        final(store).wf(),
        final(store)@ == old(store)@.insert(ctrl_path(), content@),
        r is Ok,
{
    write_file_w_contents(store, control_file_name(), content)
}

/// Persists an already-minted IV under the record named `filename`.
pub fn write_iv_blob(store: &mut BlobStore, filename: &str, iv: &IV) -> (r: Result<
    (),
    KeyringError,
>)
    requires
        old(store).wf(),
    ensures
        final(store).wf(),
        final(store)@ == old(store)@.insert(iv_path(filename@), iv@),
        r is Ok,
{
    let mut path = String::new();
    path.append(filename);
    path.append(iv_file_ext());
    proof {
        assert(path@ =~= iv_path(filename@));
    }
    write_file_w_contents(store, path.as_str(), iv.as_slice())
}

/// Mints a fresh random IV, persists it under the record named `filename`
/// (the empty name addresses the control record's IV slot), and returns it.
pub fn write_iv_file(store: &mut BlobStore, filename: &str) -> (r: Result<IV, KeyringError>)
    requires
        old(store).wf(),
    ensures
        final(store).wf(),
        r is Ok,
        r matches Ok(iv) ==> final(store)@ == old(store)@.insert(iv_path(filename@), iv@),
{
    let mut path = String::new();
    path.append(filename);
    path.append(iv_file_ext());
    proof {
        assert(path@ =~= iv_path(filename@));
    }
    let iv = gen_rand_iv();
    let res = write_file_w_contents(store, path.as_str(), iv.as_slice());
    match res {
        Ok(()) => Ok(iv),
        Err(e) => Err(e),
    }
}

} // verus!
