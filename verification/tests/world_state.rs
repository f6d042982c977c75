use slack_client::errors::ErrorKind;
use slack_client::token::ApiToken;
use slack_client::types::AuthSummary;
use slack_client::world::World;

fn summary(team: &str) -> AuthSummary {
    AuthSummary {
        team_id: Some(format!("T-{team}")),
        user_id: Some(format!("U-{team}")),
        team: Some(team.to_string()),
        user: None,
        url: Some(format!("https://{team}.example.com/")),
    }
}

fn app_token(value: &str) -> ApiToken {
    ApiToken::App { value: value.to_string() }
}

#[test]
fn a_name_keeps_its_entity() {
    let mut w = World::new();
    let a1 = w.get_or_spawn_profile("alpha");
    let b = w.get_or_spawn_profile("beta");
    let a2 = w.get_or_spawn_profile("alpha");
    assert_eq!(a1, a2);
    assert_ne!(a1, b);
}

#[test]
fn entity_ids_are_assigned_monotonically() {
    let mut w = World::new();
    let a = w.get_or_spawn_profile("alpha");
    let b = w.get_or_spawn_profile("beta");
    let c = w.get_or_spawn_profile("gamma");
    assert_eq!(a.0, 1);
    assert_eq!(b.0, 2);
    assert_eq!(c.0, 3);
}

#[test]
fn active_entity_requires_initialization() {
    let w = World::new();
    let e = w.active_entity().unwrap_err();
    assert_eq!(e.kind, ErrorKind::NotInitialized);
}

#[test]
fn active_token_not_initialized() {
    let w = World::new();
    let e = w.active_token().unwrap_err();
    assert_eq!(e.kind, ErrorKind::NotInitialized);
}

#[test]
fn active_token_without_credential_is_checked_defensively() {
    let mut w = World::new();
    let a = w.get_or_spawn_profile("alpha");
    w.set_active_profile(a);
    let e = w.active_token().unwrap_err();
    assert_eq!(e.kind, ErrorKind::NoCredential);
}

#[test]
fn active_token_returns_the_stored_credential() {
    let mut w = World::new();
    let a = w.get_or_spawn_profile("alpha");
    w.set_token(a, app_token("xoxb-alpha"));
    w.set_active_profile(a);
    let t = w.active_token().expect("credential present");
    assert_eq!(t.secret(), "xoxb-alpha");
}

#[test]
fn cached_auth_is_per_profile() {
    let mut w = World::new();
    let a = w.get_or_spawn_profile("alpha");
    w.set_auth(a, summary("alpha"));
    assert_eq!(w.maybe_cached_auth_for_profile("alpha"), Some(summary("alpha")));
    assert_eq!(w.maybe_cached_auth_for_profile("beta"), None);
}

#[test]
fn components_are_overwritten_wholesale() {
    let mut w = World::new();
    let a = w.get_or_spawn_profile("alpha");
    w.set_auth(a, summary("one"));
    w.set_auth(a, summary("two"));
    assert_eq!(w.maybe_cached_auth_for_profile("alpha"), Some(summary("two")));
}

#[test]
fn registering_one_profile_leaves_the_other_untouched() {
    let mut w = World::new();
    let a = w.get_or_spawn_profile("alpha");
    let b = w.get_or_spawn_profile("beta");
    w.set_token(a, app_token("xoxb-alpha"));
    w.set_auth(a, summary("alpha"));
    w.set_token(b, app_token("xoxb-beta"));
    w.set_auth(b, summary("beta"));
    w.set_active_profile(b);
    assert_eq!(w.maybe_cached_auth_for_profile("alpha"), Some(summary("alpha")));
    let t = w.active_token().unwrap();
    assert_eq!(t.secret(), "xoxb-beta");
}
