use vstd::prelude::*;

verus! {

/// The failures a vault operation can surface, as a typed taxonomy.
///
/// `AuthenticationFailed` deliberately covers every way the control record can
/// fail to check out (wrong password, missing or malformed control data), so a
/// caller cannot distinguish a bad password from a tampered control record.
/// `CorruptedCredential` is distinct: it is only reported after authentication
/// has already succeeded, when a stored credential record does not decrypt.
#[derive(Clone, Copy, Debug, PartialEq, Eq)]
pub enum KeyringError {
    /// The vault already holds a file key or control record.
    AlreadyInitialized,
    /// No vault exists in the store.
    NotInitialized,
    /// The login/password pair does not open the control record.
    AuthenticationFailed,
    /// No credential record is stored under the requested name.
    CredentialNotFound,
    /// A credential record exists but does not decrypt or decode.
    CorruptedCredential,
    /// An empty or reserved name, or an empty credential, was supplied.
    InvalidInput,
    /// The password hashing primitive rejected its inputs.
    KeyDerivation,
    /// A requested blob is absent from the store.
    NotFound,
}

} // verus!
