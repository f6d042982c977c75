use slack_client::errors::ErrorKind;
use slack_client::token::{build_slack_token, parse_app_token, parse_session_token, redact, ApiToken};

#[test]
fn app_token_round_trips_bot_token() {
    let tok = parse_app_token("xoxb-abc123def").expect("bot token accepted");
    assert!(tok.is_app());
    assert_eq!(tok.secret(), "xoxb-abc123def");
}

#[test]
fn app_token_round_trips_user_token() {
    let tok = parse_app_token("xoxp-0001-aaaa").expect("user token accepted");
    assert!(tok.is_app());
    assert_eq!(tok.secret(), "xoxp-0001-aaaa");
}

#[test]
fn app_token_trims_whitespace() {
    let tok = parse_app_token("  xoxb-abc \n").expect("padded token accepted");
    assert_eq!(tok.secret(), "xoxb-abc");
}

#[test]
fn empty_token_rejected() {
    let e = parse_app_token("").unwrap_err();
    assert_eq!(e.kind, ErrorKind::EmptyToken);
    let e = parse_app_token("   \t ").unwrap_err();
    assert_eq!(e.kind, ErrorKind::EmptyToken);
}

#[test]
fn colon_always_means_legacy_rejection() {
    for s in ["xoxb-abc:cookie", "a:b", ":", "xoxp-1:d=2;d-s=3", " : "] {
        let e = parse_app_token(s).unwrap_err();
        assert_eq!(e.kind, ErrorKind::LegacyFormatRejected, "input {s:?}");
    }
}

#[test]
fn unrecognized_prefix_rejected() {
    for s in ["abc", "xoxa-123", "token", "xox", "xoxb41234"] {
        let e = parse_app_token(s).unwrap_err();
        assert_eq!(e.kind, ErrorKind::UnrecognizedPrefix, "input {s:?}");
    }
}

#[test]
fn rejection_context_is_redacted() {
    let legacy = format!("xoxb-{}:secretcookie", "edge9999");
    let e = parse_app_token(&legacy).unwrap_err();
    assert_eq!(e.kind, ErrorKind::LegacyFormatRejected);
    assert!(!e.context.contains("secretcookie"));
    assert!(e.context.contains('\u{2026}'));
}

#[test]
fn redact_hides_short_tokens_entirely() {
    assert_eq!(redact("short"), "<redacted>");
    assert_eq!(redact("1234567890"), "<redacted>");
}

#[test]
fn redact_keeps_only_edges_of_long_tokens() {
    let long = format!("xoxb-{}", "edge9999");
    let expected = format!("xoxb-e\u{2026}{}", "9999");
    assert_eq!(redact(&long), expected);
    assert_eq!(redact(&format!("  {long}  ")), expected);
}

#[test]
fn session_token_without_colon_has_no_cookie() {
    let solo = format!("xoxc-{}", "solo-tk");
    let parts = parse_session_token(&solo);
    assert_eq!(parts.token, solo);
    assert!(parts.cookie.is_none());
}

#[test]
fn session_token_bare_cookie_becomes_d_field() {
    let parts = parse_session_token("xoxc-abc:cookieval");
    assert_eq!(parts.token, "xoxc-abc");
    assert_eq!(parts.cookie.as_deref(), Some("d=cookieval"));
}

#[test]
fn session_token_formatted_cookie_kept_verbatim() {
    let parts = parse_session_token("xoxc-abc:d=aaa;d-s=bbb");
    assert_eq!(parts.token, "xoxc-abc");
    assert_eq!(parts.cookie.as_deref(), Some("d=aaa;d-s=bbb"));
}

#[test]
fn session_token_empty_cookie_dropped() {
    let parts = parse_session_token("xoxc-abc:");
    assert_eq!(parts.token, "xoxc-abc");
    assert!(parts.cookie.is_none());
}

#[test]
fn session_token_trims_both_halves() {
    let parts = parse_session_token("  xoxc-abc : val  ");
    assert_eq!(parts.token, "xoxc-abc");
    assert_eq!(parts.cookie.as_deref(), Some("d=val"));
}

#[test]
fn session_token_splits_at_first_colon() {
    let parts = parse_session_token("tok:d=a:b");
    assert_eq!(parts.token, "tok");
    assert_eq!(parts.cookie.as_deref(), Some("d=a:b"));
}

#[test]
fn built_session_token_carries_cookie_material() {
    let parts = parse_session_token("xoxc-abc:cookieval");
    let tok = build_slack_token(&parts);
    assert!(!tok.is_app());
    assert_eq!(tok.secret(), "xoxc-abc");
    match tok {
        ApiToken::Session { cookie, .. } => assert_eq!(cookie.as_deref(), Some("d=cookieval")),
        ApiToken::App { .. } => panic!("session parser must not yield an app token"),
    }
}

#[test]
fn error_messages_name_the_cause() {
    let e = parse_app_token("").unwrap_err();
    assert_eq!(e.message(), "token is empty");
    let e = parse_app_token("plain").unwrap_err();
    assert!(e.message().starts_with("expected an app OAuth token"));
}
