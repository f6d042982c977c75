//! The secret store: a thin verified layer over the OS keyring, mapping
//! its outcomes onto the library's error taxonomy. The store itself is an
//! external collaborator; nothing here inspects or transforms the secret
//! beyond passing it through.

use vstd::prelude::*;

use crate::errors::{ClientError, ErrorKind};

verus! {

#[verifier::external_type_specification]
#[verifier::external_body]
pub struct ExEntry(keyring::Entry);

#[verifier::external_type_specification]
#[verifier::external_body]
pub struct ExKeyringError(keyring::Error);

/// Relies on keyring::Entry::new: builds the entry addressing the secret
/// kept under (service, profile); it does not touch the stored data.
#[verifier::external_body]
fn entry_new(service: &str, profile: &str) -> (r: Result<keyring::Entry, keyring::Error>) {
    keyring::Entry::new(service, profile)
}

/// Relies on keyring::Entry::get_password: returns the stored secret, a
/// NoEntry error when none is stored, or another error of the backend.
#[verifier::external_body]
fn entry_get_password(entry: &keyring::Entry) -> (r: Result<String, keyring::Error>) {
    entry.get_password()
}

/// Relies on keyring::Entry::set_password: overwrites the stored secret
/// with the given one.
#[verifier::external_body]
fn entry_set_password(entry: &keyring::Entry, secret: &str) -> (r: Result<(), keyring::Error>) {
    entry.set_password(secret)
}

/// Relies on keyring::Entry::delete_credential: removes the stored secret;
/// NoEntry when none was stored.
#[verifier::external_body]
fn entry_delete(entry: &keyring::Entry) -> (r: Result<(), keyring::Error>) {
    entry.delete_credential()
}

/// Relies on the variants of keyring::Error: NoEntry is the one that means
/// "nothing stored under this key".
#[verifier::external_body]
fn error_is_no_entry(e: &keyring::Error) -> (r: bool) {
    match e {
        keyring::Error::NoEntry => true,
        _ => false,
    }
}

/// How a failed lookup is classified: exactly the backend's "no entry"
/// answer becomes `NotFound`; every other failure is a `StoreError`.
pub fn lookup_failure_kind(no_entry: bool) -> (k: ErrorKind)
    ensures
        k == (if no_entry {
            ErrorKind::NotFound
        } else {
            ErrorKind::StoreError
        }),
{
    if no_entry {
        ErrorKind::NotFound
    } else {
        ErrorKind::StoreError
    }
}

/// A handle on the secret store, scoped to one service name.
pub struct Keyring {
    pub service: &'static str,
}

impl Clone for Keyring {
    /// An equal copy of the handle.
    fn clone(&self) -> (r: Self)
        ensures
            r == *self,
    {
        Keyring { service: self.service }
    }
}

impl Keyring {
    /// A handle scoped to `service`.
    pub fn new(service: &'static str) -> (r: Keyring)
        ensures
            r.service@ == service@,
    {
        Keyring { service }
    }

    /// Persist `token` for `profile`, overwriting any prior value. A
    /// failure of the backend is a `StoreError` carrying the profile name;
    /// the secret itself never appears in the error.
    pub fn store_token(&self, profile: &str, token: &str) -> (r: Result<(), ClientError>)
        ensures
            r matches Err(e) ==> e.kind == ErrorKind::StoreError && e.context@ == profile@,
    {
        let entry = match open_entry(self.service, profile) {
            Ok(entry) => entry,
            Err(e) => {
                return Err(e);
            },
        };
        set_secret(&entry, profile, token)
    }

    /// Read the secret stored for `profile`. A missing value is reported
    /// as `NotFound` and any other backend failure as `StoreError`, never
    /// the one for the other.
    pub fn load_token(&self, profile: &str) -> (r: Result<String, ClientError>)
        ensures
            r matches Err(e) ==> (e.kind == ErrorKind::NotFound || e.kind
                == ErrorKind::StoreError) && e.context@ == profile@,
    {
        let entry = match open_entry(self.service, profile) {
            Ok(entry) => entry,
            Err(e) => {
                return Err(e);
            },
        };
        get_secret(&entry, profile)
    }
}

/// Build the entry addressing (service, profile), mapping a failure of
/// the backend to a `StoreError` carrying the profile name.
pub(crate) fn open_entry(service: &str, profile: &str) -> (r: Result<keyring::Entry, ClientError>)
    ensures
        r matches Err(e) ==> e.kind == ErrorKind::StoreError && e.context@ == profile@,
{
    match entry_new(service, profile) {
        Ok(entry) => Ok(entry),
        Err(_) => Err(ClientError::new(ErrorKind::StoreError, profile.to_owned())),
    }
}

/// Overwrite the secret behind `entry`, mapping a failure to `StoreError`.
pub(crate) fn set_secret(entry: &keyring::Entry, profile: &str, secret: &str) -> (r: Result<
    (),
    ClientError,
>)
    ensures
        r matches Err(e) ==> e.kind == ErrorKind::StoreError && e.context@ == profile@,
{
    match entry_set_password(entry, secret) {
        Ok(_) => Ok(()),
        Err(_) => Err(ClientError::new(ErrorKind::StoreError, profile.to_owned())),
    }
}

/// Read the secret behind `entry`: a missing value is `NotFound`, any
/// other backend failure `StoreError`, never the one for the other.
pub(crate) fn get_secret(entry: &keyring::Entry, profile: &str) -> (r: Result<String, ClientError>)
    ensures
        r matches Err(e) ==> (e.kind == ErrorKind::NotFound || e.kind == ErrorKind::StoreError)
            && e.context@ == profile@,
{
    match entry_get_password(entry) {
        Ok(secret) => Ok(secret),
        Err(e) => {
            let kind = lookup_failure_kind(error_is_no_entry(&e));
            Err(ClientError::new(kind, profile.to_owned()))
        },
    }
}

/// Remove the secret behind `entry`: a missing value is `NotFound`, any
/// other backend failure `StoreError`.
pub(crate) fn delete_secret(entry: &keyring::Entry, profile: &str) -> (r: Result<(), ClientError>)
    ensures
        r matches Err(e) ==> (e.kind == ErrorKind::NotFound || e.kind == ErrorKind::StoreError)
            && e.context@ == profile@,
{
    match entry_delete(entry) {
        Ok(_) => Ok(()),
        Err(e) => {
            let kind = lookup_failure_kind(error_is_no_entry(&e));
            Err(ClientError::new(kind, profile.to_owned()))
        },
    }
}

} // verus!
