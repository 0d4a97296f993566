//! Secrets stored in the system keyring.

use vstd::prelude::*;

verus! {

/// How a keyring call failed.
#[derive(Debug, PartialEq, Eq)]
pub enum KeyringFailure {
    /// The entry handle could not be made.
    Entry(String),
    /// The entry holds no secret.
    NoEntry,
    /// Any other failure, with its message.
    Other(String),
}

/// Errors of keyring entries; each holds the entry's key.
#[derive(Debug, PartialEq, Eq)]
pub enum KeyringError {
    GetEntryError(String),
    GetSecretError(String),
    FindSecretError(String),
    SetSecretError(String),
    DeleteSecretError(String),
}

/// Relies on keyring's `Entry::new` and `Entry::get_password`: reads the
/// secret of `key` under `service`.
#[verifier::external_body]
fn keyring_get(service: &str, key: &str) -> (r: Result<String, KeyringFailure>) {
    let entry = keyring::Entry::new(service, key).map_err(|e| KeyringFailure::Entry(e.to_string()))?;
    entry.get_password().map_err(|e| match e {
        keyring::Error::NoEntry => KeyringFailure::NoEntry,
        e => KeyringFailure::Other(e.to_string()),
    })
}

/// Relies on keyring's `Entry::new` and `Entry::set_password`: stores
/// `secret` as the secret of `key` under `service`.
#[verifier::external_body]
fn keyring_set(service: &str, key: &str, secret: &str) -> (r: Result<(), KeyringFailure>) {
    let entry = keyring::Entry::new(service, key).map_err(|e| KeyringFailure::Entry(e.to_string()))?;
    entry.set_password(secret).map_err(|e| match e {
        keyring::Error::NoEntry => KeyringFailure::NoEntry,
        e => KeyringFailure::Other(e.to_string()),
    })
}

/// Relies on keyring's `Entry::new` and `Entry::delete_password`: deletes
/// the secret of `key` under `service`.
#[verifier::external_body]
fn keyring_delete(service: &str, key: &str) -> (r: Result<(), KeyringFailure>) {
    let entry = keyring::Entry::new(service, key).map_err(|e| KeyringFailure::Entry(e.to_string()))?;
    entry.delete_password().map_err(|e| match e {
        keyring::Error::NoEntry => KeyringFailure::NoEntry,
        e => KeyringFailure::Other(e.to_string()),
    })
}

/// A keyring entry, named by its key.
#[derive(Debug, PartialEq, Eq)]
pub struct Entry {
    pub key: String,
}

impl Entry {
    /// The entry of `key`.
    pub fn new(key: String) -> (r: Entry)
        ensures
            r.key == key,
    {
        Entry { key }
    }

    /// The key of the entry.
    pub fn get_key(&self) -> (r: &str)
        ensures
            r@ == self.key@,
    {
        self.key.as_str()
    }

    /// The key of the entry.
    pub fn to_string(&self) -> (r: String)
        ensures
            r@ == self.key@,
    {
        self.key.clone()
    }

    /// What reading the secret gave, as the entry reports it.
    pub fn secret_outcome(&self, outcome: Result<String, KeyringFailure>) -> (r: Result<String, KeyringError>)
        ensures
            match outcome {
                Ok(s) => r == Ok::<String, KeyringError>(s),
                Err(KeyringFailure::Entry(_)) => r is Err && r->Err_0 is GetEntryError
                    && r->Err_0->GetEntryError_0@ == self.key@,
                Err(_) => r is Err && r->Err_0 is GetSecretError
                    && r->Err_0->GetSecretError_0@ == self.key@,
            },
    {
        match outcome {
            Ok(s) => Ok(s),
            Err(KeyringFailure::Entry(_)) => Err(KeyringError::GetEntryError(self.key.clone())),
            Err(_) => Err(KeyringError::GetSecretError(self.key.clone())),
        }
    }

    /// What looking the secret up gave, as the entry reports it: no
    /// secret is none, not an error.
    pub fn find_outcome(&self, outcome: Result<String, KeyringFailure>) -> (r: Result<Option<String>, KeyringError>)
        ensures
            match outcome {
                Ok(s) => r == Ok::<Option<String>, KeyringError>(Some(s)),
                Err(KeyringFailure::NoEntry) => r == Ok::<Option<String>, KeyringError>(None),
                Err(KeyringFailure::Entry(_)) => r is Err && r->Err_0 is GetEntryError
                    && r->Err_0->GetEntryError_0@ == self.key@,
                Err(KeyringFailure::Other(_)) => r is Err && r->Err_0 is FindSecretError
                    && r->Err_0->FindSecretError_0@ == self.key@,
            },
    {
        match outcome {
            Ok(s) => Ok(Some(s)),
            Err(KeyringFailure::NoEntry) => Ok(None),
            Err(KeyringFailure::Entry(_)) => Err(KeyringError::GetEntryError(self.key.clone())),
            Err(KeyringFailure::Other(_)) => Err(KeyringError::FindSecretError(self.key.clone())),
        }
    }

    /// What storing or deleting the secret gave, as the entry reports it:
    /// `deleting` picks the error of a deletion over that of a store.
    pub fn update_outcome(&self, outcome: Result<(), KeyringFailure>, deleting: bool) -> (r: Result<(), KeyringError>)
        ensures
            match outcome {
                Ok(()) => r is Ok,
                Err(KeyringFailure::Entry(_)) => r is Err && r->Err_0 is GetEntryError
                    && r->Err_0->GetEntryError_0@ == self.key@,
                Err(_) => r is Err && (if deleting {
                    r->Err_0 is DeleteSecretError && r->Err_0->DeleteSecretError_0@ == self.key@
                } else {
                    r->Err_0 is SetSecretError && r->Err_0->SetSecretError_0@ == self.key@
                }),
            },
    {
        match outcome {
            Ok(()) => Ok(()),
            Err(KeyringFailure::Entry(_)) => Err(KeyringError::GetEntryError(self.key.clone())),
            Err(_) => if deleting {
                Err(KeyringError::DeleteSecretError(self.key.clone()))
            } else {
                Err(KeyringError::SetSecretError(self.key.clone()))
            },
        }
    }

    /// The secret of the entry under keyring service `service`.
    pub fn get_secret(&self, service: &str) -> (r: Result<String, KeyringError>)
        ensures
            r matches Err(e) ==> (e matches KeyringError::GetEntryError(k) && k@ == self.key@)
                || (e matches KeyringError::GetSecretError(k) && k@ == self.key@),
    {
        self.secret_outcome(keyring_get(service, self.key.as_str()))
    }

    /// The secret of the entry under keyring service `service`, none when
    /// it holds none.
    pub fn find_secret(&self, service: &str) -> (r: Result<Option<String>, KeyringError>)
        ensures
            r matches Err(e) ==> (e matches KeyringError::GetEntryError(k) && k@ == self.key@)
                || (e matches KeyringError::FindSecretError(k) && k@ == self.key@),
    {
        self.find_outcome(keyring_get(service, self.key.as_str()))
    }

    /// Stores `secret` as the secret of the entry under keyring service
    /// `service`.
    pub fn set_secret(&self, service: &str, secret: &str) -> (r: Result<(), KeyringError>)
        ensures
            r matches Err(e) ==> (e matches KeyringError::GetEntryError(k) && k@ == self.key@)
                || (e matches KeyringError::SetSecretError(k) && k@ == self.key@),
    {
        self.update_outcome(keyring_set(service, self.key.as_str(), secret), false)
    }

    /// Deletes the secret of the entry under keyring service `service`.
    pub fn delete_secret(&self, service: &str) -> (r: Result<(), KeyringError>)
        ensures
            r matches Err(e) ==> (e matches KeyringError::GetEntryError(k) && k@ == self.key@)
                || (e matches KeyringError::DeleteSecretError(k) && k@ == self.key@),
    {
        self.update_outcome(keyring_delete(service, self.key.as_str()), true)
    }
}

} // verus!
