use slack_client::errors::{ClientError, ErrorKind};

#[test]
fn remote_failure_kinds_have_their_own_wording() {
    let e = ClientError::new(ErrorKind::VerificationFailed, "work".to_string());
    assert_eq!(e.kind, ErrorKind::VerificationFailed);
    assert_eq!(e.message(), "identity verification failed: work");

    let e = ClientError::bare(ErrorKind::RemoteListFailed);
    assert_eq!(e.message(), "the conversations listing call failed");

    let e = ClientError::bare(ErrorKind::PersistenceFailed);
    assert_eq!(e.message(), "failed to store the token in the secret store");
}

#[test]
fn annotate_keeps_the_kind_and_extends_the_context() {
    let e = ClientError::bare(ErrorKind::NotFound).annotate("work");
    assert_eq!(e.kind, ErrorKind::NotFound);
    assert_eq!(e.context, " (profile=work)");
}
