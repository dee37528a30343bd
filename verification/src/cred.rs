use vstd::prelude::*;

verus! {

/// A name/secret pair handed to the vault operations. As the master
/// credential its `login` doubles as the salt input for key derivation; as a
/// target credential its `login` is the record name and its `pass` the secret
/// to seal. Transient: never persisted in plaintext.
pub struct Cred {
    pub login: String,
    pub pass: String,
}

impl Cred {
    /// Builds a credential from its two parts.
    pub fn from(login: String, pass: String) -> (r: Cred)
        ensures
            r.login@ == login@,
            r.pass@ == pass@,
    {
        Cred { login, pass }
    }
}

} // verus!
