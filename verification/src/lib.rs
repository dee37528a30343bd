//! A single-user credential vault: a master login/password pair authenticates
//! the user, and authenticated callers store and retrieve named secrets
//! sealed under a key derived from the master password.
//!
//! The vault persists everything through a named blob store: a random file
//! key (the pepper), one IV per sealed record, a control record whose
//! ciphertext is a known marker sealed under the master key, and one
//! ciphertext per credential. Successful decryption of the control record to
//! the marker is the sole proof of a correct password.

pub mod constants;
pub mod cred;
pub mod cryptutils;
pub mod errors;
pub mod io;
pub mod store;
pub mod utils;

use vstd::prelude::*;
use vstd::slice::slice_to_vec;
use vstd::string::StringSliceAdditionalSpecFns;
use vstd::utf8::decode_utf8;
use vstd::utf8::encode_utf8;
use vstd::utf8::encode_utf8_decode_utf8;
use vstd::utf8::encode_utf8_valid_utf8;
use vstd::utf8::valid_utf8;

use crate::constants::control_file_content;
use crate::constants::control_file_name;
use crate::constants::cred_path;
use crate::constants::ctrl_iv_path;
use crate::constants::ctrl_marker;
use crate::constants::ctrl_path;
use crate::constants::iv_file_ext;
use crate::constants::iv_path;
use crate::constants::key_file_name;
use crate::constants::key_path;
use crate::constants::lemma_path_families_disjoint;
use crate::constants::lemma_path_injective;
use crate::constants::ArgonHash;
use crate::constants::KEY_LENGTH;
use crate::constants::IV_LENGTH;
use crate::cred::Cred;
use crate::cryptutils::derive_spec;
use crate::cryptutils::gcm_siv_open;
use crate::cryptutils::gcm_siv_seal;
use crate::cryptutils::hash_password;
use crate::cryptutils::kd_lens_ok;
use crate::cryptutils::sym_decrypt;
use crate::cryptutils::sym_encrypt;
use crate::errors::KeyringError;
use crate::io::read::check_cred_file_exists;
use crate::io::read::check_db_file_exists;
use crate::io::read::read_cred_file;
use crate::io::read::read_ctrl_file;
use crate::io::read::read_iv_file;
use crate::io::read::read_key_file;
use crate::io::write::write_ctrl_file;
use crate::io::write::write_cred_file;
use crate::io::write::write_iv_blob;
use crate::store::BlobStore;
use crate::utils::bytes_eq;
use crate::utils::bytes_to_string;
use crate::utils::gen_rand_iv;
use crate::utils::gen_rand_key;
use crate::utils::str_equal;

verus! {

/// Whether a vault exists in the store: defined as the presence of the
/// control record.
pub open spec fn vault_present(m: Map<Seq<char>, Seq<u8>>) -> bool {
    m.contains_key(ctrl_path())
}

/// Initialization is blocked as soon as a file key or a control record
/// already exists.
pub open spec fn init_blocked(m: Map<Seq<char>, Seq<u8>>) -> bool {
    m.contains_key(ctrl_path()) || m.contains_key(key_path())
}

/// The master key a login/password pair derives against this store: Argon2id
/// over the password bytes, salted with the login and peppered with the
/// stored file key.
pub open spec fn master_key_of(m: Map<Seq<char>, Seq<u8>>, login: Seq<char>, pass: Seq<char>) -> Seq<
    u8,
> {
    derive_spec(encode_utf8(pass), encode_utf8(login), m[key_path()])
}

/// Whether the password-hashing primitive is owed to accept this pair: the
/// password bytes and the stored file key fit its bounds.
pub open spec fn kd_ok(m: Map<Seq<char>, Seq<u8>>, pass: Seq<char>) -> bool {
    kd_lens_ok(encode_utf8(pass), m[key_path()])
}

/// Whether a login/password pair opens this vault: the file key, control IV
/// and control record are all present, and the control record decrypts under
/// the derived master key to the known marker.
pub open spec fn auth_ok(m: Map<Seq<char>, Seq<u8>>, login: Seq<char>, pass: Seq<char>) -> bool {
    &&& m.contains_key(key_path())
    &&& m.contains_key(ctrl_iv_path())
    &&& m.contains_key(ctrl_path())
    &&& m[ctrl_iv_path()].len() == IV_LENGTH
    &&& gcm_siv_open(master_key_of(m, login, pass), m[ctrl_iv_path()], m[ctrl_path()]) == Some(
        ctrl_marker(),
    )
}

/// Names a credential may not use: the empty name is the control record's IV
/// slot, and the file-key and control-record names are vault metadata.
pub open spec fn reserved_name(n: Seq<char>) -> bool {
    n.len() == 0 || n == key_path() || n == ctrl_path()
}

/// The secret bytes the record named `n` decrypts to under the master key
/// this pair derives, or `None` when the record is absent, malformed or does
/// not decrypt.
pub open spec fn stored_secret_bytes(
    m: Map<Seq<char>, Seq<u8>>,
    login: Seq<char>,
    pass: Seq<char>,
    n: Seq<char>,
) -> Option<Seq<u8>> {
    if m.contains_key(iv_path(n)) && m.contains_key(cred_path(n)) && m[iv_path(n)].len()
        == IV_LENGTH {
        gcm_siv_open(master_key_of(m, login, pass), m[iv_path(n)], m[cred_path(n)])
    } else {
        None
    }
}

/// The secret string the record named `n` yields to this pair: its decrypted
/// bytes decoded as UTF-8, or `None` when it is absent, does not decrypt, or
/// does not decode.
pub open spec fn retrievable(
    m: Map<Seq<char>, Seq<u8>>,
    login: Seq<char>,
    pass: Seq<char>,
    n: Seq<char>,
) -> Option<Seq<char>> {
    match stored_secret_bytes(m, login, pass, n) {
        Some(b) => if valid_utf8(b) {
            Some(decode_utf8(b))
        } else {
            None
        },
        None => None,
    }
}

/// Checks whether a password database already exists.
pub fn check_db_exists(store: &BlobStore) -> (r: bool)
    ensures
        r == vault_present(store@),
{
    check_db_file_exists(store)
}

/// Creates the vault: mints a file key, derives the master key, and persists
/// the file key, a control IV and the sealed control marker. Rejected when a
/// vault (or a stray file key) already exists, and on empty credentials; a
/// rejected call leaves the store untouched.
pub fn sign_up(store: &mut BlobStore, user_cred: Cred) -> (r: Result<bool, KeyringError>)
    requires
        old(store).wf(),
    ensures
        final(store).wf(),
        r matches Err(_) ==> final(store)@ == old(store)@,
        ({
            let m0 = old(store)@;
            let m1 = final(store)@;
            let login = user_cred.login@;
            let pass = user_cred.pass@;
            &&& (init_blocked(m0) ==> (r matches Err(e) && e == KeyringError::AlreadyInitialized))
            &&& (!init_blocked(m0) && (login.len() == 0 || pass.len() == 0) ==> (r matches Err(e)
                && e == KeyringError::InvalidInput))
            &&& (r matches Ok(b) ==> {
                &&& b == true
                &&& !init_blocked(m0)
                &&& login.len() > 0 && pass.len() > 0
                &&& m1 == m0.insert(key_path(), m1[key_path()]).insert(
                    ctrl_iv_path(),
                    m1[ctrl_iv_path()],
                ).insert(ctrl_path(), m1[ctrl_path()])
                &&& m1[key_path()].len() == KEY_LENGTH
                &&& m1[ctrl_iv_path()].len() == IV_LENGTH
                &&& m1[ctrl_path()] == gcm_siv_seal(
                    master_key_of(m1, login, pass),
                    m1[ctrl_iv_path()],
                    ctrl_marker(),
                )
                &&& vault_present(m1)
                &&& auth_ok(m1, login, pass)
            })
            &&& (!init_blocked(m0) && login.len() > 0 && pass.len() > 0 && encode_utf8(pass).len()
                <= 0xFFFF_FFFF ==> r is Ok)
        }),
{
    if check_db_exists(store) || store.contains(key_file_name()) {
        return Err(KeyringError::AlreadyInitialized);
    }
    if user_cred.login.as_str().is_empty() || user_cred.pass.as_str().is_empty() {
        return Err(KeyringError::InvalidInput);
    }
    let fk = gen_rand_key();
    let mk = match hash_password(user_cred.pass.as_str(), user_cred.login.as_str(), fk.as_slice()) {
        Ok(mk) => mk,
        Err(e) => {
            return Err(e);
        },
    };
    store.write(key_file_name(), slice_to_vec(fk.as_slice()));
    let res = create_ctrl_file(store, mk);
    proof {
        lemma_path_families_disjoint(Seq::<char>::empty(), Seq::<char>::empty());
        assert(store@ =~= old(store)@.insert(key_path(), store@[key_path()]).insert(
            ctrl_iv_path(),
            store@[ctrl_iv_path()],
        ).insert(ctrl_path(), store@[ctrl_path()]));
    }
    match res {
        Ok(()) => Ok(true),
        Err(e) => Err(e),
    }
}

/// Seals the known marker under the freshly derived master key and persists
/// the control IV and control record.
fn create_ctrl_file(store: &mut BlobStore, mk: ArgonHash) -> (r: Result<(), KeyringError>)
    requires
        old(store).wf(),
    ensures
        final(store).wf(),
        r is Ok,
        ({
            let m0 = old(store)@;
            let m1 = final(store)@;
            &&& m1 == m0.insert(ctrl_iv_path(), m1[ctrl_iv_path()]).insert(
                ctrl_path(),
                m1[ctrl_path()],
            )
            &&& m1[ctrl_iv_path()].len() == IV_LENGTH
            &&& m1[ctrl_path()] == gcm_siv_seal(mk@, m1[ctrl_iv_path()], ctrl_marker())
            &&& gcm_siv_open(mk@, m1[ctrl_iv_path()], m1[ctrl_path()]) == Some(ctrl_marker())
        }),
{
    let iv = gen_rand_iv();
    let marker = control_file_content();
    let ciphered = match sym_encrypt(marker.as_slice(), mk.as_slice(), iv.as_slice()) {
        Ok(c) => c,
        Err(e) => {
            return Err(e);
        },
    };
    let mut iv_name = String::new();
    iv_name.append(iv_file_ext());
    proof {
        reveal_strlit("");
        assert(iv_name@ =~= iv_path(Seq::<char>::empty()));
    }
    store.write(iv_name.as_str(), slice_to_vec(iv.as_slice()));
    let res = write_ctrl_file(store, ciphered.as_slice());
    proof {
        lemma_path_families_disjoint(Seq::<char>::empty(), Seq::<char>::empty());
    }
    res
}

/// Returns true if the credentials match the database: the control record
/// decrypts to the marker under the key this pair derives.
pub fn sign_in(store: &BlobStore, user_cred: Cred) -> (r: Result<bool, KeyringError>)
    requires
        store.wf(),
    ensures
        !vault_present(store@) ==> (r matches Err(e) && e == KeyringError::NotInitialized),
        vault_present(store@) ==> r is Ok,
        r matches Ok(b) && b ==> auth_ok(store@, user_cred.login@, user_cred.pass@),
        vault_present(store@) && kd_ok(store@, user_cred.pass@) ==> (r matches Ok(b) && b
            == auth_ok(store@, user_cred.login@, user_cred.pass@)),
{
    if !check_db_exists(store) {
        return Err(KeyringError::NotInitialized);
    }
    match check_login(store, &user_cred) {
        Ok(_) => Ok(true),
        Err(_) => Ok(false),
    }
}

/// Returns the master key if it deciphers the control file to the marker.
/// Every way the check can fail — missing control data, a malformed IV, a
/// failed decryption or a wrong marker — reports the same
/// `AuthenticationFailed`, so no oracle distinguishes a bad password from a
/// tampered store.
fn check_login(store: &BlobStore, user_cred: &Cred) -> (r: Result<ArgonHash, KeyringError>)
    requires
        store.wf(),
    ensures
        r matches Ok(mk) ==> auth_ok(store@, user_cred.login@, user_cred.pass@) && mk@
            == master_key_of(store@, user_cred.login@, user_cred.pass@),
        r matches Err(e) ==> e == KeyringError::AuthenticationFailed || e
            == KeyringError::KeyDerivation,
        r matches Err(e) && e == KeyringError::AuthenticationFailed ==> !auth_ok(
            store@,
            user_cred.login@,
            user_cred.pass@,
        ),
        r matches Err(e) && e == KeyringError::KeyDerivation ==> !kd_ok(store@, user_cred.pass@),
        auth_ok(store@, user_cred.login@, user_cred.pass@) && kd_ok(store@, user_cred.pass@)
            ==> r is Ok,
{
    proof {
        reveal_strlit("");
        assert(""@ =~= Seq::<char>::empty());
    }
    let iv = match read_iv_file(store, "") {
        Ok(v) => v,
        Err(_) => {
            return Err(KeyringError::AuthenticationFailed);
        },
    };
    if iv.len() != IV_LENGTH {
        return Err(KeyringError::AuthenticationFailed);
    }
    let fk = match read_key_file(store) {
        Ok(v) => v,
        Err(_) => {
            return Err(KeyringError::AuthenticationFailed);
        },
    };
    let mk = match hash_password(user_cred.pass.as_str(), user_cred.login.as_str(), fk.as_slice()) {
        Ok(mk) => mk,
        Err(_) => {
            return Err(KeyringError::KeyDerivation);
        },
    };
    let ctrl = match read_ctrl_file(store) {
        Ok(v) => v,
        Err(_) => {
            return Err(KeyringError::AuthenticationFailed);
        },
    };
    let cleared = match sym_decrypt(ctrl.as_slice(), mk.as_slice(), iv.as_slice()) {
        Ok(v) => v,
        Err(_) => {
            return Err(KeyringError::AuthenticationFailed);
        },
    };
    let marker = control_file_content();
    if bytes_eq(cleared.as_slice(), marker.as_slice()) {
        Ok(mk)
    } else {
        Err(KeyringError::AuthenticationFailed)
    }
}

/// Retrieves and decrypts the secret stored under `cred_name`, after
/// authenticating the master credentials. A record that is missing its IV,
/// fails authenticated decryption, or does not decode as UTF-8 is reported
/// as corrupted — distinct from a wrong password, which authentication has
/// already ruled out at that point.
pub fn obtain_cred(store: &BlobStore, user_cred: Cred, cred_name: &str) -> (r: Result<
    String,
    KeyringError,
>)
    requires
        store.wf(),
    ensures
        ({
            let m = store@;
            let login = user_cred.login@;
            let pass = user_cred.pass@;
            let n = cred_name@;
            &&& (!vault_present(m) ==> (r matches Err(e) && e == KeyringError::NotInitialized))
            &&& (r matches Err(e) && e == KeyringError::AuthenticationFailed ==> !auth_ok(
                m,
                login,
                pass,
            ))
            &&& (vault_present(m) && kd_ok(m, pass) && !auth_ok(m, login, pass) ==> (r matches Err(
                e,
            ) && e == KeyringError::AuthenticationFailed))
            &&& (auth_ok(m, login, pass) && kd_ok(m, pass) && !m.contains_key(cred_path(n)) ==> (
            r matches Err(e) && e == KeyringError::CredentialNotFound))
            &&& (auth_ok(m, login, pass) && kd_ok(m, pass) && m.contains_key(cred_path(n)) ==> match
                retrievable(m, login, pass, n) {
                Some(s) => (r matches Ok(out) && out@ == s),
                None => (r matches Err(e) && e == KeyringError::CorruptedCredential),
            })
            &&& (r matches Ok(out) ==> auth_ok(m, login, pass) && retrievable(m, login, pass, n)
                == Some(out@))
        }),
{
    if !check_db_exists(store) {
        return Err(KeyringError::NotInitialized);
    }
    let mk = match check_login(store, &user_cred) {
        Ok(mk) => mk,
        Err(e) => {
            return Err(e);
        },
    };
    if !check_cred_file_exists(store, cred_name) {
        return Err(KeyringError::CredentialNotFound);
    }
    let cred_iv = match read_iv_file(store, cred_name) {
        Ok(v) => v,
        Err(_) => {
            return Err(KeyringError::CorruptedCredential);
        },
    };
    if cred_iv.len() != IV_LENGTH {
        return Err(KeyringError::CorruptedCredential);
    }
    let ciphertext = match read_cred_file(store, cred_name) {
        Ok(v) => v,
        Err(_) => {
            return Err(KeyringError::CorruptedCredential);
        },
    };
    let cleared = match sym_decrypt(ciphertext.as_slice(), mk.as_slice(), cred_iv.as_slice()) {
        Ok(v) => v,
        Err(_) => {
            return Err(KeyringError::CorruptedCredential);
        },
    };
    match bytes_to_string(cleared) {
        Some(s) => Ok(s),
        None => Err(KeyringError::CorruptedCredential),
    }
}

/// Seals `target_cred.pass` under the master key with a fresh IV and persists
/// the pair under `target_cred.login`, after authenticating the master
/// credentials. Empty and reserved names are rejected so vault metadata can
/// never be overwritten; a rejected call leaves the store untouched.
pub fn create_cred(store: &mut BlobStore, user_cred: Cred, target_cred: Cred) -> (r: Result<
    bool,
    KeyringError,
>)
    requires
        old(store).wf(),
    ensures
        final(store).wf(),
        r matches Err(_) ==> final(store)@ == old(store)@,
        ({
            let m0 = old(store)@;
            let m1 = final(store)@;
            let login = user_cred.login@;
            let pass = user_cred.pass@;
            let n = target_cred.login@;
            let secret = target_cred.pass@;
            &&& (!vault_present(m0) ==> (r matches Err(e) && e == KeyringError::NotInitialized))
            &&& (r matches Err(e) && e == KeyringError::AuthenticationFailed ==> !auth_ok(
                m0,
                login,
                pass,
            ))
            &&& (vault_present(m0) && kd_ok(m0, pass) && !auth_ok(m0, login, pass) ==> (
            r matches Err(e) && e == KeyringError::AuthenticationFailed))
            &&& (auth_ok(m0, login, pass) && kd_ok(m0, pass) && reserved_name(n) ==> (
            r matches Err(e) && e == KeyringError::InvalidInput))
            &&& (r matches Ok(b) ==> {
                &&& b == true
                &&& auth_ok(m0, login, pass)
                &&& !reserved_name(n)
                &&& m1 == m0.insert(iv_path(n), m1[iv_path(n)]).insert(
                    cred_path(n),
                    m1[cred_path(n)],
                )
                &&& m1[iv_path(n)].len() == IV_LENGTH
                &&& m1[cred_path(n)] == gcm_siv_seal(
                    master_key_of(m0, login, pass),
                    m1[iv_path(n)],
                    encode_utf8(secret),
                )
                &&& m1[key_path()] == m0[key_path()]
                &&& stored_secret_bytes(m1, login, pass, n) == Some(encode_utf8(secret))
                &&& retrievable(m1, login, pass, n) == Some(secret)
                &&& auth_ok(m1, login, pass)
                &&& vault_present(m1)
            })
            &&& (auth_ok(m0, login, pass) && kd_ok(m0, pass) && !reserved_name(n) && encode_utf8(
                secret,
            ).len() <= 0x10_0000_0000 ==> r is Ok)
        }),
{
    if !check_db_exists(store) {
        return Err(KeyringError::NotInitialized);
    }
    let mk = match check_login(store, &user_cred) {
        Ok(mk) => mk,
        Err(e) => {
            return Err(e);
        },
    };
    if target_cred.login.as_str().is_empty() {
        return Err(KeyringError::InvalidInput);
    }
    if str_equal(target_cred.login.as_str(), key_file_name()) || str_equal(
        target_cred.login.as_str(),
        control_file_name(),
    ) {
        return Err(KeyringError::InvalidInput);
    }
    let cred_iv = gen_rand_iv();
    let ciphered = match sym_encrypt(
        target_cred.pass.as_str().as_bytes(),
        mk.as_slice(),
        cred_iv.as_slice(),
    ) {
        Ok(c) => c,
        Err(e) => {
            return Err(e);
        },
    };
    let res_iv = write_iv_blob(store, target_cred.login.as_str(), &cred_iv);
    match res_iv {
        Ok(()) => (),
        Err(e) => {
            return Err(e);
        },
    }
    let res = write_cred_file(store, target_cred.login.as_str(), ciphered.as_slice());
    proof {
        let n = target_cred.login@;
        lemma_path_families_disjoint(n, n);
        lemma_path_families_disjoint(Seq::<char>::empty(), n);
        lemma_path_injective(n, Seq::<char>::empty());
        encode_utf8_valid_utf8(target_cred.pass@);
        encode_utf8_decode_utf8(target_cred.pass@);
    }
    match res {
        Ok(()) => Ok(true),
        Err(e) => Err(e),
    }
}

} // verus!
