//! The two authentication workflows, register and init, as verified
//! decision steps.
//!
//! The remote identity check in the middle of each workflow is performed
//! by the embedding layer between the steps: `register_prepare` decodes
//! and validates the raw credential, the embedding layer verifies it
//! remotely, and `register_finish` persists and records the outcome.
//! Verify-before-persist is therefore enforced by construction: the
//! persisting step does not exist until a summary has been produced.

use vstd::prelude::*;

use crate::errors::{ClientError, ErrorKind};
use crate::storage::Keyring;
use crate::strings::{has_app_prefix, trimmed};
use crate::token::{parse_app_token, redacted, ApiToken};
use crate::types::AuthSummary;
use crate::world::{lemma_name_index_props, World};

verus! {

/// What a successful registration of `p` with token `t` and summary `a`
/// does to the world: the profile's record carries exactly that credential
/// and summary, every other record is untouched, and the active pointer
/// does not move.
pub open spec fn register_updates(
    w0: World,
    w1: World,
    p: Seq<char>,
    t: ApiToken,
    a: AuthSummary,
) -> bool {
    &&& w1.wf()
    &&& w1.has_name(p)
    &&& w1.token_of(p) == Some(t)
    &&& w1.auth_of(p) == Some(a)
    &&& forall|n: Seq<char>| n != p ==> w1.record_of(n) == w0.record_of(n)
    &&& forall|n: Seq<char>| w0.has_name(n) ==> w1.has_name(n) && w1.id_of(n) == w0.id_of(n)
    &&& w1.active_profile == w0.active_profile
}

/// What a successful initialization of `p` does to the world: as a
/// registration, except that `p` becomes the active profile.
pub open spec fn init_updates(
    w0: World,
    w1: World,
    p: Seq<char>,
    t: ApiToken,
    a: AuthSummary,
) -> bool {
    &&& w1.wf()
    &&& w1.has_name(p)
    &&& w1.token_of(p) == Some(t)
    &&& w1.auth_of(p) == Some(a)
    &&& forall|n: Seq<char>| n != p ==> w1.record_of(n) == w0.record_of(n)
    &&& forall|n: Seq<char>| w0.has_name(n) ==> w1.has_name(n) && w1.id_of(n) == w0.id_of(n)
    &&& w1.active_profile == Some(w1.id_of(p))
}

/// The first step of registration: decode the raw credential on the
/// app-token path, annotating any rejection with the profile name.
pub fn register_prepare(profile: &str, token_raw: &str) -> (r: Result<ApiToken, ClientError>)
    ensures
        ({
            let t = trimmed(token_raw@);
            match r {
                Ok(tok) => t.len() > 0 && !t.contains(':') && has_app_prefix(t)
                    && tok.spec_is_app() && tok.secret_view() == t && tok.cookie_view() is None,
                Err(e) => {
                    &&& (e.kind == ErrorKind::EmptyToken <==> t.len() == 0)
                    &&& (e.kind == ErrorKind::LegacyFormatRejected <==> t.len() > 0 && t.contains(
                        ':',
                    ))
                    &&& (e.kind == ErrorKind::UnrecognizedPrefix <==> t.len() > 0 && !t.contains(
                        ':',
                    ) && !has_app_prefix(t))
                    &&& e.context@ == (if e.kind == ErrorKind::EmptyToken {
                        Seq::<char>::empty()
                    } else {
                        redacted(token_raw@)
                    }) + " (profile="@ + profile@ + ")"@
                },
            }
        }),
        r is Err <==> (trimmed(token_raw@).len() == 0 || trimmed(token_raw@).contains(':')
            || !has_app_prefix(trimmed(token_raw@))),
{
    match parse_app_token(token_raw) {
        Ok(tok) => Ok(tok),
        Err(e) => {
            let annotated = e.annotate(profile);
            proof {
                assert(annotated.context@ =~= (if annotated.kind == ErrorKind::EmptyToken {
                    Seq::<char>::empty()
                } else {
                    redacted(token_raw@)
                }) + " (profile="@ + profile@ + ")"@);
            }
            Err(annotated)
        },
    }
}

/// The last step of registration, entered only after the remote identity
/// check succeeded: persist the raw secret, then record credential and
/// summary on the profile's entity. Nothing is recorded when persistence
/// fails, and the active pointer is never moved here: registration is
/// independent of activation.
pub fn register_finish(
    world: &mut World,
    keyring: &Keyring,
    profile: &str,
    token: ApiToken,
    auth: AuthSummary,
) -> (r: Result<AuthSummary, ClientError>)
    requires
        old(world).wf(),
        old(world).profiles@.len() + 1 < usize::MAX as int,
    ensures
        match r {
            Ok(s) => s == auth && register_updates(
                *old(world),
                *final(world),
                profile@,
                token,
                auth,
            ),
            Err(e) => e.kind == ErrorKind::PersistenceFailed && e.context@ == profile@
                && *final(world) == *old(world),
        },
{
    match keyring.store_token(profile, token.secret()) {
        Ok(_) => {},
        Err(_) => {
            return Err(ClientError::new(ErrorKind::PersistenceFailed, profile.to_owned()));
        },
    }
    let entity = world.get_or_spawn_profile(profile);
    world.set_token(entity, token);
    world.set_auth(entity, auth.clone());
    Ok(auth)
}

/// The cheap path of initialization: when the profile already has a cached
/// identity summary, activate it and hand the summary back with no remote
/// call; otherwise leave the world exactly as it was.
pub fn init_cached(world: &mut World, profile: &str) -> (r: Option<AuthSummary>)
    requires
        old(world).wf(),
        old(world).profiles@.len() + 1 < usize::MAX as int,
    ensures
        r == old(world).auth_of(profile@),
        match r {
            Some(_) => {
                &&& final(world).wf()
                &&& final(world).profiles@ == old(world).profiles@
                &&& final(world).next_id == old(world).next_id
                &&& final(world).active_profile == Some(old(world).id_of(profile@))
            },
            None => *final(world) == *old(world),
        },
{
    match world.maybe_cached_auth_for_profile(profile) {
        Some(a) => {
            let entity = world.get_or_spawn_profile(profile);
            world.set_active_profile(entity);
            Some(a)
        },
        None => None,
    }
}

/// The last step of initialization, entered only after the remote identity
/// check succeeded: record credential and summary and make the profile
/// active.
pub fn init_finish(
    world: &mut World,
    profile: &str,
    token: ApiToken,
    auth: AuthSummary,
) -> (r: AuthSummary)
    requires
        old(world).wf(),
        old(world).profiles@.len() + 1 < usize::MAX as int,
    ensures
        r == auth,
        init_updates(*old(world), *final(world), profile@, token, auth),
{
    let entity = world.get_or_spawn_profile(profile);
    world.set_token(entity, token);
    world.set_auth(entity, auth.clone());
    world.set_active_profile(entity);
    auth
}

/// Law: registering a profile primes the cache with exactly the summary
/// the verification returned, so an initialization that follows at once
/// takes the cached path of `init_cached` and returns the same summary,
/// with no further remote verification.
pub proof fn lemma_register_then_init_cached(
    w0: World,
    w1: World,
    p: Seq<char>,
    t: ApiToken,
    a: AuthSummary,
)
    requires
        register_updates(w0, w1, p, t, a),
    ensures
        w1.auth_of(p) == Some(a),
        w1.wf(),
{
}

/// Law: an update for one profile never touches another profile's record;
/// in particular a credential registered for `p` can never appear on the
/// entity of a different name `q`, however calls are serialized.
pub proof fn lemma_register_isolated(
    w0: World,
    w1: World,
    p: Seq<char>,
    t: ApiToken,
    a: AuthSummary,
    q: Seq<char>,
)
    requires
        register_updates(w0, w1, p, t, a),
        q != p,
    ensures
        w1.record_of(q) == w0.record_of(q),
        w1.token_of(q) == w0.token_of(q),
        w1.auth_of(q) == w0.auth_of(q),
{
}

/// Law: a registration re-run with the same inputs converges: the second
/// run leaves every component value, every other record, the active
/// pointer and the profile's entity exactly as the first run left them.
pub proof fn lemma_register_idempotent(
    w0: World,
    w1: World,
    w2: World,
    p: Seq<char>,
    t: ApiToken,
    a: AuthSummary,
)
    requires
        register_updates(w0, w1, p, t, a),
        register_updates(w1, w2, p, t, a),
    ensures
        w2.token_of(p) == w1.token_of(p),
        w2.auth_of(p) == w1.auth_of(p),
        forall|n: Seq<char>| n != p ==> w2.record_of(n) == w1.record_of(n),
        w2.active_profile == w1.active_profile,
        w2.id_of(p) == w1.id_of(p),
{
}

/// Law: an initialization re-run with the same inputs converges in the
/// same way, the active pointer included.
pub proof fn lemma_init_idempotent(
    w0: World,
    w1: World,
    w2: World,
    p: Seq<char>,
    t: ApiToken,
    a: AuthSummary,
)
    requires
        init_updates(w0, w1, p, t, a),
        init_updates(w1, w2, p, t, a),
    ensures
        w2.token_of(p) == w1.token_of(p),
        w2.auth_of(p) == w1.auth_of(p),
        forall|n: Seq<char>| n != p ==> w2.record_of(n) == w1.record_of(n),
        w2.id_of(p) == w1.id_of(p),
        w2.active_profile == w1.active_profile,
{
}

/// Law: after an initialization the active pointer refers to an entity
/// that carries both a credential and an identity summary.
pub proof fn lemma_active_entity_has_components(
    w0: World,
    w1: World,
    p: Seq<char>,
    t: ApiToken,
    a: AuthSummary,
)
    requires
        init_updates(w0, w1, p, t, a),
    ensures
        w1.active_profile matches Some(e) && w1.entry_of(e).token is Some && w1.entry_of(e).auth
            is Some,
{
    lemma_name_index_props(w1.profiles@, p);
}

/// Law: initialization is as isolated as registration.
pub proof fn lemma_init_isolated(
    w0: World,
    w1: World,
    p: Seq<char>,
    t: ApiToken,
    a: AuthSummary,
    q: Seq<char>,
)
    requires
        init_updates(w0, w1, p, t, a),
        q != p,
    ensures
        w1.record_of(q) == w0.record_of(q),
        w1.token_of(q) == w0.token_of(q),
        w1.auth_of(q) == w0.auth_of(q),
{
}

} // verus!
