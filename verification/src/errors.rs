//! The failure taxonomy of the library.

use vstd::prelude::*;

verus! {

/// Every way an operation of this library can fail.
#[derive(Clone, Copy, Debug, PartialEq, Eq, Structural)]
pub enum ErrorKind {
    /// The credential string is empty after trimming.
    EmptyToken,
    /// The credential string carries a `:` separator, the retired
    /// token-and-cookie form.
    LegacyFormatRejected,
    /// The credential string starts with neither accepted token prefix.
    UnrecognizedPrefix,
    /// No secret is stored for the profile.
    NotFound,
    /// The secret store backend failed.
    StoreError,
    /// The remote identity check failed.
    VerificationFailed,
    /// A remote page fetch failed while listing conversations.
    RemoteListFailed,
    /// No profile is active.
    NotInitialized,
    /// The active profile has no credential attached.
    NoCredential,
    /// The secret store refused to persist a freshly verified credential.
    PersistenceFailed,
}

/// An error of the library: its kind together with a context string,
/// the profile name or a redacted rendering of the offending credential.
#[derive(Debug)]
pub struct ClientError {
    pub kind: ErrorKind,
    pub context: String,
}

/// The wording that `ClientError::message` puts in front of the context.
pub open spec fn kind_phrase(k: ErrorKind) -> Seq<char> {
    match k {
        ErrorKind::EmptyToken => "token is empty"@,
        ErrorKind::LegacyFormatRejected => "web tokens with cookies are not supported, expected a single token"@,
        ErrorKind::UnrecognizedPrefix => "expected an app OAuth token (xoxb-... or xoxp-...)"@,
        ErrorKind::NotFound => "no token stored for this profile"@,
        ErrorKind::StoreError => "the secret store failed"@,
        ErrorKind::VerificationFailed => "identity verification failed"@,
        ErrorKind::RemoteListFailed => "the conversations listing call failed"@,
        ErrorKind::NotInitialized => "not initialized; initialize a profile first"@,
        ErrorKind::NoCredential => "the active profile has no token loaded"@,
        ErrorKind::PersistenceFailed => "failed to store the token in the secret store"@,
    }
}

impl ClientError {
    /// Build an error with an explicit context string.
    pub fn new(kind: ErrorKind, context: String) -> (r: ClientError)
        ensures
            r.kind == kind,
            r.context@ == context@,
    {
        ClientError { kind, context }
    }

    /// Build an error whose context is still empty.
    pub fn bare(kind: ErrorKind) -> (r: ClientError)
        ensures
            r.kind == kind,
            r.context@ == Seq::<char>::empty(),
    {
        ClientError { kind, context: String::new() }
    }

    /// Attach the name of the profile an operation was working for.
    pub fn annotate(self, profile: &str) -> (r: ClientError)
        ensures
            r.kind == self.kind,
            r.context@ == self.context@ + " (profile="@ + profile@ + ")"@,
    {
        let mut context = self.context;
        context.append(" (profile=");
        context.append(profile);
        context.append(")");
        ClientError { kind: self.kind, context }
    }

    /// A readable rendering of the error, the context set off behind the
    /// phrase; the context never holds an unredacted credential.
    pub fn message(&self) -> (r: String)
        ensures
            r@ == kind_phrase(self.kind) + (if self.context@.len() == 0 {
                Seq::<char>::empty()
            } else {
                ": "@ + self.context@
            }),
    {
        let phrase: &str = match self.kind {
            ErrorKind::EmptyToken => "token is empty",
            ErrorKind::LegacyFormatRejected => "web tokens with cookies are not supported, expected a single token",
            ErrorKind::UnrecognizedPrefix => "expected an app OAuth token (xoxb-... or xoxp-...)",
            ErrorKind::NotFound => "no token stored for this profile",
            ErrorKind::StoreError => "the secret store failed",
            ErrorKind::VerificationFailed => "identity verification failed",
            ErrorKind::RemoteListFailed => "the conversations listing call failed",
            ErrorKind::NotInitialized => "not initialized; initialize a profile first",
            ErrorKind::NoCredential => "the active profile has no token loaded",
            ErrorKind::PersistenceFailed => "failed to store the token in the secret store",
        };
        let mut message = String::from_str(phrase);
        if !self.context.as_str().is_empty() {
            message.append(": ");
            message.append(self.context.as_str());
        } else {
            proof {
                assert(message@ =~= message@ + Seq::<char>::empty());
            }
        }
        message
    }
}

} // verus!
