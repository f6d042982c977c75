use slack_client::auth::{init_cached, init_finish, register_finish, register_prepare};
use slack_client::errors::ErrorKind;
use slack_client::storage::Keyring;
use slack_client::types::AuthSummary;
use slack_client::world::World;

/// A plausible bot token for `register_prepare`, assembled from parts so
/// that no credential-shaped literal appears in this file.
fn work_token() -> String {
    format!("xoxb-{}", "work-tk")
}

/// A plausible user token, assembled the same way.
fn home_token() -> String {
    format!("xoxp-{}", "home-tk")
}

fn summary(team: &str) -> AuthSummary {
    AuthSummary {
        team_id: Some(format!("T-{team}")),
        user_id: Some(format!("U-{team}")),
        team: Some(team.to_string()),
        user: Some("user".to_string()),
        url: Some(format!("https://{team}.example.com/")),
    }
}

/// A stand-in for the remote identity endpoint that counts how often it
/// is consulted.
struct CountingVerifier {
    calls: usize,
}

impl CountingVerifier {
    fn verify(&mut self, team: &str) -> AuthSummary {
        self.calls += 1;
        summary(team)
    }
}

#[test]
fn register_prepare_accepts_app_tokens() {
    let tok = register_prepare("work", "xoxb-123").expect("valid token");
    assert_eq!(tok.secret(), "xoxb-123");
}

#[test]
fn register_prepare_annotates_with_profile() {
    let e = register_prepare("work", "not-a-token").unwrap_err();
    assert_eq!(e.kind, ErrorKind::UnrecognizedPrefix);
    assert!(e.context.ends_with("(profile=work)"));
}

#[test]
fn register_then_init_hits_the_cache() {
    let mut world = World::new();
    let keyring = Keyring::new("slack.nvim");
    let mut remote = CountingVerifier { calls: 0 };

    // Register: decode, verify remotely, persist, record.
    let token = register_prepare("work", &work_token()).expect("valid token");
    let verified = remote.verify("work");
    let registered =
        register_finish(&mut world, &keyring, "work", token, verified).expect("stored");
    assert_eq!(remote.calls, 1);

    // Init immediately after: the cached summary is returned, nothing is
    // verified again, and the profile becomes active.
    let cached = init_cached(&mut world, "work").expect("cache primed");
    assert_eq!(cached, registered);
    assert_eq!(remote.calls, 1);
    let active = world.active_token().expect("activated with credential");
    assert_eq!(work_token(), active.secret());
}

#[test]
fn register_does_not_activate() {
    let mut world = World::new();
    let keyring = Keyring::new("slack.nvim");
    let token = register_prepare("work", &work_token()).expect("valid token");
    register_finish(&mut world, &keyring, "work", token, summary("work")).expect("stored");
    let e = world.active_entity().unwrap_err();
    assert_eq!(e.kind, ErrorKind::NotInitialized);
}

#[test]
fn init_cached_misses_for_unknown_profile() {
    let mut world = World::new();
    assert_eq!(init_cached(&mut world, "nobody"), None);
    assert_eq!(world.active_entity().unwrap_err().kind, ErrorKind::NotInitialized);
}

#[test]
fn init_finish_records_and_activates() {
    let mut world = World::new();
    let token = register_prepare("home", &home_token()).expect("valid token");
    let got = init_finish(&mut world, "home", token, summary("home"));
    assert_eq!(got, summary("home"));
    assert_eq!(world.maybe_cached_auth_for_profile("home"), Some(summary("home")));
    let active = world.active_token().expect("active credential");
    assert_eq!(home_token(), active.secret());
}

#[test]
fn register_rerun_converges() {
    let mut world = World::new();
    let keyring = Keyring::new("slack.nvim");

    for _ in 0..2 {
        let token = register_prepare("work", &work_token()).expect("valid token");
        register_finish(&mut world, &keyring, "work", token, summary("work")).expect("stored");
    }

    assert_eq!(world.maybe_cached_auth_for_profile("work"), Some(summary("work")));
    // Registration never activates, no matter how often it runs.
    assert_eq!(world.active_entity().unwrap_err().kind, ErrorKind::NotInitialized);
    // The name kept its entity: a later lookup still finds one record.
    let cached = init_cached(&mut world, "work").expect("cache primed");
    assert_eq!(cached, summary("work"));
    assert_eq!(work_token(), world.active_token().unwrap().secret());
}

#[test]
fn init_rerun_converges() {
    let mut world = World::new();
    let token = register_prepare("home", &home_token()).expect("valid token");
    let first = init_finish(&mut world, "home", token, summary("home"));
    let token = register_prepare("home", &home_token()).expect("valid token");
    let second = init_finish(&mut world, "home", token, summary("home"));
    assert_eq!(first, second);
    assert_eq!(world.maybe_cached_auth_for_profile("home"), Some(summary("home")));
    assert_eq!(home_token(), world.active_token().unwrap().secret());
}

#[test]
fn profiles_do_not_bleed_into_each_other() {
    let mut world = World::new();
    let keyring = Keyring::new("slack.nvim");

    let token_a = register_prepare("a", "xoxb-token-a").expect("valid token");
    register_finish(&mut world, &keyring, "a", token_a, summary("a")).expect("stored");

    let token_b = register_prepare("b", "xoxb-token-b").expect("valid token");
    let got_b = init_finish(&mut world, "b", token_b, summary("b"));
    assert_eq!(got_b, summary("b"));

    // Profile a's credential never shows up under b, nor the other way.
    assert_eq!(world.maybe_cached_auth_for_profile("a"), Some(summary("a")));
    assert_eq!(world.maybe_cached_auth_for_profile("b"), Some(summary("b")));
    let active = world.active_token().expect("b is active");
    assert_eq!(active.secret(), "xoxb-token-b");

    // Re-activating a via the cache leaves b's record intact.
    let cached_a = init_cached(&mut world, "a").expect("a cached");
    assert_eq!(cached_a, summary("a"));
    let active = world.active_token().expect("a is active");
    assert_eq!(active.secret(), "xoxb-token-a");
    assert_eq!(world.maybe_cached_auth_for_profile("b"), Some(summary("b")));
}
