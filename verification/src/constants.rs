use vstd::prelude::*;

verus! {

/// Nonce length of the AES-256-GCM-SIV cipher, in bytes.
pub const IV_LENGTH: usize = 12;
/// Length of the random per-vault file key (the pepper), in bytes.
pub const KEY_LENGTH: usize = 256;
/// Length of the derived master key, in bytes: the Argon2id output, which is
/// also the AES-256 key size.
pub const HASH_LENGTH: usize = 32;

pub type IV = [u8; IV_LENGTH];
pub type Key = [u8; KEY_LENGTH];
pub type ArgonHash = [u8; HASH_LENGTH];

/// Store key under which the control-record ciphertext is persisted.
pub fn control_file_name() -> (r: &'static str)
    ensures
        r@ == ctrl_path(),
{
    ".control"
}

/// Store key under which the file key (pepper) is persisted.
pub fn key_file_name() -> (r: &'static str)
    ensures
        r@ == key_path(),
{
    ".key"
}

/// Extension appended to a credential name to form its IV's store key.
pub fn iv_file_ext() -> (r: &'static str)
    ensures
        r@ == iv_ext(),
{
    ".iv"
}

/// Extension appended to a credential name to form its ciphertext's store key.
pub fn cred_file_ext() -> (r: &'static str)
    ensures
        r@ == cred_ext(),
{
    ".cred"
}

pub open spec fn ctrl_path() -> Seq<char> {
    ".control"@
}

pub open spec fn key_path() -> Seq<char> {
    ".key"@
}

pub open spec fn iv_ext() -> Seq<char> {
    ".iv"@
}

pub open spec fn cred_ext() -> Seq<char> {
    ".cred"@
}

/// Store key of the IV belonging to the record named `n`; the control record
/// uses the empty name, so its IV lives under the bare extension.
pub open spec fn iv_path(n: Seq<char>) -> Seq<char> {
    n + iv_ext()
}

/// Store key of the ciphertext of the credential named `n`.
pub open spec fn cred_path(n: Seq<char>) -> Seq<char> {
    n + cred_ext()
}

/// Store key of the control record's IV: the empty-name IV slot.
pub open spec fn ctrl_iv_path() -> Seq<char> {
    iv_path(Seq::empty())
}

/// The known plaintext marker sealed into the control record: the bytes of
/// "control". Successful decryption to this marker is the proof of a correct
/// password.
pub open spec fn ctrl_marker() -> Seq<u8> {
    seq![99u8, 111u8, 110u8, 116u8, 114u8, 111u8, 108u8]
}

/// Exec counterpart of [`ctrl_marker`].
pub fn control_file_content() -> (r: Vec<u8>)
    ensures
        r@ == ctrl_marker(),
{
    let v: Vec<u8> = vec![99u8, 111u8, 110u8, 116u8, 114u8, 111u8, 108u8];
    proof {
        assert(v@ =~= ctrl_marker());
    }
    v
}

/// The four kinds of store key never collide across families: an IV key ends
/// in ".iv", a credential key in ".cred", and neither is the file-key key nor
/// the control key.
pub proof fn lemma_path_families_disjoint(n: Seq<char>, m: Seq<char>)
    ensures
        iv_path(n) != key_path(),
        iv_path(n) != ctrl_path(),
        cred_path(n) != key_path(),
        cred_path(n) != ctrl_path(),
        iv_path(n) != cred_path(m),
        key_path() != ctrl_path(),
{
    reveal_strlit(".iv");
    reveal_strlit(".cred");
    reveal_strlit(".key");
    reveal_strlit(".control");
    assert(iv_path(n).last() == 'v');
    assert(cred_path(n).last() == 'd');
    assert(key_path().last() == 'y');
    assert(ctrl_path().last() == 'l');
    if iv_path(n) == cred_path(m) {
        assert(iv_path(n).last() == cred_path(m).last());
    }
}

/// Within one family the name is recoverable: equal IV keys (or equal
/// credential keys) come from equal names.
pub proof fn lemma_path_injective(n: Seq<char>, m: Seq<char>)
    ensures
        iv_path(n) == iv_path(m) ==> n == m,
        cred_path(n) == cred_path(m) ==> n == m,
{
    reveal_strlit(".iv");
    reveal_strlit(".cred");
    if iv_path(n) == iv_path(m) {
        assert(iv_path(n).len() == n.len() + iv_ext().len());
        assert(iv_path(m).len() == m.len() + iv_ext().len());
        assert(n.len() == m.len());
        assert forall|i: int| 0 <= i < n.len() implies n[i] == m[i] by {
            assert(iv_path(n)[i] == n[i]);
            assert(iv_path(m)[i] == m[i]);
        }
        assert(n =~= m);
    }
    if cred_path(n) == cred_path(m) {
        assert(cred_path(n).len() == n.len() + cred_ext().len());
        assert(cred_path(m).len() == m.len() + cred_ext().len());
        assert(n.len() == m.len());
        assert forall|i: int| 0 <= i < n.len() implies n[i] == m[i] by {
            assert(cred_path(n)[i] == n[i]);
            assert(cred_path(m)[i] == m[i]);
        }
        assert(n =~= m);
    }
}

} // verus!
