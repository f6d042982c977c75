//! Free-standing access to the secret store under the fixed service name,
//! for callers that do not carry a `Keyring` handle around.

use vstd::prelude::*;

use crate::errors::{ClientError, ErrorKind};
use crate::storage::{delete_secret, get_secret, open_entry, set_secret};

verus! {

/// The service name the free-standing helpers store under.
pub const SERVICE_NAME: &'static str = "slack-nvim";

/// Persist `token` for `profile`, overwriting any prior value.
pub fn save_token(profile: &str, token: &str) -> (r: Result<(), ClientError>)
    ensures
        r matches Err(e) ==> e.kind == ErrorKind::StoreError && e.context@ == profile@,
{
    let entry = match open_entry(SERVICE_NAME, profile) {
        Ok(entry) => entry,
        Err(e) => {
            return Err(e);
        },
    };
    set_secret(&entry, profile, token)
}

/// Read the secret stored for `profile`: `NotFound` when none is stored,
/// `StoreError` on any other backend failure, never the one for the
/// other.
pub fn load_token(profile: &str) -> (r: Result<String, ClientError>)
    ensures
        r matches Err(e) ==> (e.kind == ErrorKind::NotFound || e.kind == ErrorKind::StoreError)
            && e.context@ == profile@,
{
    let entry = match open_entry(SERVICE_NAME, profile) {
        Ok(entry) => entry,
        Err(e) => {
            return Err(e);
        },
    };
    get_secret(&entry, profile)
}

/// Remove the secret stored for `profile`: `NotFound` when none is
/// stored, `StoreError` on any other backend failure.
pub fn delete_token(profile: &str) -> (r: Result<(), ClientError>)
    ensures
        r matches Err(e) ==> (e.kind == ErrorKind::NotFound || e.kind == ErrorKind::StoreError)
            && e.context@ == profile@,
{
    let entry = match open_entry(SERVICE_NAME, profile) {
        Ok(entry) => entry,
        Err(e) => {
            return Err(e);
        },
    };
    delete_secret(&entry, profile)
}

} // verus!
