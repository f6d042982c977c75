//! The authoritative in-process state: an arena of profile records, a
//! name-to-entity index kept bijective by construction, and the single
//! active-profile pointer.
//!
//! Entities are created lazily, never deleted, and a name never remaps to
//! a different entity. Components are replaced wholesale, never partially
//! updated.

use vstd::prelude::*;

use crate::errors::{ClientError, ErrorKind};
use crate::strings::str_eq;
use crate::token::ApiToken;
use crate::types::AuthSummary;

verus! {

/// The identifier of a profile entity: stable for the process lifetime and
/// assigned monotonically from 1.
#[derive(Clone, Copy, Debug, PartialEq, Eq, Hash, Structural)]
pub struct EntityId(pub u64);

/// The profile component: the name under which the entity was created.
#[derive(Debug)]
pub struct Profile {
    pub name: String,
}

/// The credential component: attached only after a successful remote
/// verification of this token.
pub struct Token {
    pub token: ApiToken,
}

/// The identity component: the summary of the most recent successful
/// verification.
#[derive(Debug)]
pub struct Auth {
    pub summary: AuthSummary,
}

/// One entity of the arena with its components.
pub struct ProfileEntry {
    pub profile: Profile,
    pub token: Option<Token>,
    pub auth: Option<Auth>,
}

/// The index of the first record of `s` whose name is `n`, or `-1`.
pub open spec fn name_index(s: Seq<ProfileEntry>, n: Seq<char>) -> int
    decreases s.len(),
{
    if s.len() == 0 {
        -1
    } else if s[0].profile.name@ == n {
        0
    } else if name_index(s.drop_first(), n) < 0 {
        -1
    } else {
        1 + name_index(s.drop_first(), n)
    }
}

/// What `name_index` finds: the first record with the name, if any.
pub proof fn lemma_name_index_props(s: Seq<ProfileEntry>, n: Seq<char>)
    ensures
        -1 <= name_index(s, n) < s.len(),
        name_index(s, n) >= 0 ==> s[name_index(s, n)].profile.name@ == n,
        name_index(s, n) >= 0 ==> forall|k: int|
            0 <= k < name_index(s, n) ==> s[k].profile.name@ != n,
        name_index(s, n) == -1 ==> forall|k: int|
            0 <= k < s.len() ==> s[k].profile.name@ != n,
    decreases s.len(),
{
    if s.len() == 0 {
    } else if s[0].profile.name@ == n {
    } else {
        lemma_name_index_props(s.drop_first(), n);
        let r = name_index(s.drop_first(), n);
        if r >= 0 {
            assert(s[1 + r] == s.drop_first()[r]);
            assert forall|k: int| 0 <= k < 1 + r implies s[k].profile.name@ != n by {
                if k > 0 {
                    assert(s[k] == s.drop_first()[k - 1]);
                }
            }
        } else {
            assert forall|k: int| 0 <= k < s.len() implies s[k].profile.name@ != n by {
                if k > 0 {
                    assert(s[k] == s.drop_first()[k - 1]);
                }
            }
        }
    }
}

/// A record that is the first of its name is the one `name_index` finds.
pub proof fn lemma_name_index_first(s: Seq<ProfileEntry>, n: Seq<char>, i: int)
    requires
        0 <= i < s.len(),
        s[i].profile.name@ == n,
        forall|k: int| 0 <= k < i ==> s[k].profile.name@ != n,
    ensures
        name_index(s, n) == i,
{
    lemma_name_index_props(s, n);
    let idx = name_index(s, n);
    if idx == -1 {
        assert(s[i].profile.name@ != n);
    } else if idx < i {
        assert(s[idx].profile.name@ != n);
    } else if idx > i {
        assert(s[i].profile.name@ != n);
    }
}

/// How appending a record moves the index of each name.
pub proof fn lemma_name_index_push(s: Seq<ProfileEntry>, x: ProfileEntry, n: Seq<char>)
    ensures
        name_index(s.push(x), n) == (if name_index(s, n) >= 0 {
            name_index(s, n)
        } else if x.profile.name@ == n {
            s.len() as int
        } else {
            -1
        }),
    decreases s.len(),
{
    let t = s.push(x);
    if s.len() == 0 {
        assert(t[0] == x);
        assert(t.drop_first() =~= Seq::<ProfileEntry>::empty());
        assert(name_index(t.drop_first(), n) == -1);
        if x.profile.name@ == n {
            assert(name_index(t, n) == 0);
        } else {
            assert(name_index(t, n) == -1);
        }
    } else {
        lemma_name_index_push(s.drop_first(), x, n);
        assert(t[0] == s[0]);
        assert(t.drop_first() =~= s.drop_first().push(x));
        assert(name_index(t.drop_first(), n) == name_index(s.drop_first().push(x), n));
        if s[0].profile.name@ == n {
            assert(name_index(t, n) == 0);
            assert(name_index(s, n) == 0);
        } else {
            assert(name_index(t, n) == (if name_index(t.drop_first(), n) < 0 {
                -1
            } else {
                1 + name_index(t.drop_first(), n)
            }));
            assert(name_index(s, n) == (if name_index(s.drop_first(), n) < 0 {
                -1
            } else {
                1 + name_index(s.drop_first(), n)
            }));
        }
    }
}

/// Replacing a record with one of the same name leaves every index as it
/// was.
pub proof fn lemma_name_index_update(s: Seq<ProfileEntry>, i: int, x: ProfileEntry, n: Seq<char>)
    requires
        0 <= i < s.len(),
        x.profile.name@ == s[i].profile.name@,
    ensures
        name_index(s.update(i, x), n) == name_index(s, n),
    decreases s.len(),
{
    let t = s.update(i, x);
    if i == 0 {
        assert(t[0].profile.name@ == s[0].profile.name@);
        assert(t.drop_first() =~= s.drop_first());
    } else {
        assert(t[0] == s[0]);
        assert(t.drop_first() =~= s.drop_first().update(i - 1, x));
        lemma_name_index_update(s.drop_first(), i - 1, x, n);
    }
}

/// The in-process state. One instance exists per process; the embedding
/// layer owns its lifetime and serializes access to it.
pub struct World {
    pub next_id: u64,
    pub profiles: Vec<ProfileEntry>,
    pub active_profile: Option<EntityId>,
}

impl World {
    /// Identifiers are dense from 1; no two records share a name; the
    /// active pointer, if set, refers to a real entity.
    pub open spec fn wf(&self) -> bool {
        &&& self.next_id as int == self.profiles@.len() + 1
        &&& forall|i: int, j: int|
            0 <= i < j < self.profiles@.len() ==> self.profiles@[i].profile.name@
                != self.profiles@[j].profile.name@
        &&& match self.active_profile {
            Some(e) => self.valid_id(e),
            None => true,
        }
    }

    /// Whether `e` names an entity of this world.
    pub open spec fn valid_id(&self, e: EntityId) -> bool {
        1 <= e.0 <= self.profiles@.len()
    }

    /// The record of entity `e`.
    pub open spec fn entry_of(&self, e: EntityId) -> ProfileEntry {
        self.profiles@[e.0 as int - 1]
    }

    /// Whether some entity carries the name `n`.
    pub open spec fn has_name(&self, n: Seq<char>) -> bool {
        name_index(self.profiles@, n) >= 0
    }

    /// The entity carrying the name `n`.
    pub open spec fn id_of(&self, n: Seq<char>) -> EntityId {
        EntityId((name_index(self.profiles@, n) + 1) as u64)
    }

    /// The record of the entity named `n`, if any.
    pub open spec fn record_of(&self, n: Seq<char>) -> Option<ProfileEntry> {
        if self.has_name(n) {
            Some(self.profiles@[name_index(self.profiles@, n)])
        } else {
            None
        }
    }

    /// The credential attached to the entity named `n`, if any.
    pub open spec fn token_of(&self, n: Seq<char>) -> Option<ApiToken> {
        match self.record_of(n) {
            Some(rec) => match rec.token {
                Some(t) => Some(t.token),
                None => None,
            },
            None => None,
        }
    }

    /// The identity summary cached for the entity named `n`, if any.
    pub open spec fn auth_of(&self, n: Seq<char>) -> Option<AuthSummary> {
        match self.record_of(n) {
            Some(rec) => match rec.auth {
                Some(a) => Some(a.summary),
                None => None,
            },
            None => None,
        }
    }

    /// An empty world: no entities, nothing active.
    pub fn new() -> (w: World)
        ensures
            w.wf(),
            w.profiles@.len() == 0,
            w.active_profile is None,
            w.next_id == 1,
    {
        World { next_id: 1, profiles: Vec::new(), active_profile: None }
    }

    /// The entity mapped to `profile`, created on first sight. An existing
    /// mapping is never changed: a name, once bound, keeps its entity.
    pub fn get_or_spawn_profile(&mut self, profile: &str) -> (e: EntityId)
        requires
            old(self).wf(),
            old(self).profiles@.len() + 1 < usize::MAX as int,
        ensures
            final(self).wf(),
            final(self).valid_id(e),
            final(self).has_name(profile@),
            e == final(self).id_of(profile@),
            final(self).entry_of(e).profile.name@ == profile@,
            final(self).active_profile == old(self).active_profile,
            old(self).has_name(profile@) ==> *final(self) == *old(self),
            !old(self).has_name(profile@) ==> {
                &&& final(self).profiles@.len() == old(self).profiles@.len() + 1
                &&& final(self).profiles@.subrange(0, old(self).profiles@.len() as int) == old(self).profiles@
                &&& e.0 as int == old(self).profiles@.len() + 1
                &&& final(self).entry_of(e).token is None
                &&& final(self).entry_of(e).auth is None
            },
            forall|n: Seq<char>| n != profile@ ==> final(self).record_of(n) == old(self).record_of(n),
            forall|n: Seq<char>|
                old(self).has_name(n) ==> final(self).has_name(n) && final(self).id_of(n) == old(
                    self,
                ).id_of(n),
    {
        match find_name(&self.profiles, profile) {
            Some(i) => {
                proof {
                    lemma_name_index_props(self.profiles@, profile@);
                }
                EntityId((i as u64) + 1)
            },
            None => {
                let id = self.next_id;
                let entry = ProfileEntry {
                    profile: Profile { name: profile.to_owned() },
                    token: None,
                    auth: None,
                };
                let ghost prior = self.profiles@;
                self.profiles.push(entry);
                self.next_id = self.next_id + 1;
                proof {
                    let added = self.profiles@.last();
                    assert(added.profile.name@ == profile@);
                    lemma_name_index_props(prior, profile@);
                    lemma_name_index_push(prior, added, profile@);
                    assert(self.profiles@.subrange(0, prior.len() as int) =~= prior);
                    assert forall|i: int, j: int|
                        0 <= i < j < self.profiles@.len() implies self.profiles@[i].profile.name@
                        != self.profiles@[j].profile.name@ by {
                        if j < prior.len() {
                        } else {
                            assert(self.profiles@[j].profile.name@ == profile@);
                            assert(prior[i].profile.name@ != profile@);
                        }
                    }
                    assert forall|n: Seq<char>| n != profile@ implies self.record_of(n) == old(
                        self,
                    ).record_of(n) by {
                        lemma_name_index_push(prior, added, n);
                        lemma_name_index_props(prior, n);
                    }
                    assert forall|n: Seq<char>| old(self).has_name(n) implies self.has_name(n)
                        && self.id_of(n) == old(self).id_of(n) by {
                        lemma_name_index_push(prior, added, n);
                    }
                }
                EntityId(id)
            },
        }
    }

    /// Attach `token` to `entity`, replacing any previous credential.
    pub fn set_token(&mut self, entity: EntityId, token: ApiToken)
        requires
            old(self).wf(),
            old(self).valid_id(entity),
        ensures
            final(self).wf(),
            final(self).profiles@ == old(self).profiles@.update(
                entity.0 as int - 1,
                (ProfileEntry {
                    profile: old(self).entry_of(entity).profile,
                    token: Some(Token { token }),
                    auth: old(self).entry_of(entity).auth,
                }),
            ),
            final(self).next_id == old(self).next_id,
            final(self).active_profile == old(self).active_profile,
            forall|n: Seq<char>| n != old(self).entry_of(entity).profile.name@ ==> final(self).record_of(n) == old(self).record_of(n),
            forall|n: Seq<char>|
                name_index(final(self).profiles@, n) == name_index(old(self).profiles@, n),
            final(self).token_of(old(self).entry_of(entity).profile.name@) == Some(token),
            final(self).auth_of(old(self).entry_of(entity).profile.name@) == old(self).auth_of(
                old(self).entry_of(entity).profile.name@,
            ),
    {
        // a Vec holds at most usize::MAX elements, which bounds the index
        let len = self.profiles.len();
        let i = (entity.0 - 1) as usize;
        let slot = &mut self.profiles[i];
        slot.token = Some(Token { token });
        proof {
            self.lemma_component_update(*old(self), entity);
        }
    }

    /// Attach `summary` to `entity`, replacing any previous identity.
    pub fn set_auth(&mut self, entity: EntityId, summary: AuthSummary)
        requires
            old(self).wf(),
            old(self).valid_id(entity),
        ensures
            final(self).wf(),
            final(self).profiles@ == old(self).profiles@.update(
                entity.0 as int - 1,
                (ProfileEntry {
                    profile: old(self).entry_of(entity).profile,
                    token: old(self).entry_of(entity).token,
                    auth: Some(Auth { summary }),
                }),
            ),
            final(self).next_id == old(self).next_id,
            final(self).active_profile == old(self).active_profile,
            forall|n: Seq<char>| n != old(self).entry_of(entity).profile.name@ ==> final(self).record_of(n) == old(self).record_of(n),
            forall|n: Seq<char>|
                name_index(final(self).profiles@, n) == name_index(old(self).profiles@, n),
            final(self).auth_of(old(self).entry_of(entity).profile.name@) == Some(summary),
            final(self).token_of(old(self).entry_of(entity).profile.name@) == old(self).token_of(
                old(self).entry_of(entity).profile.name@,
            ),
    {
        // a Vec holds at most usize::MAX elements, which bounds the index
        let len = self.profiles.len();
        let i = (entity.0 - 1) as usize;
        let slot = &mut self.profiles[i];
        slot.auth = Some(Auth { summary });
        proof {
            self.lemma_component_update(*old(self), entity);
        }
    }

    /// The facts shared by the two component writers: replacing the
    /// components of one record while keeping its name leaves the index,
    /// well-formedness and every other record as they were.
    proof fn lemma_component_update(&self, prior: World, entity: EntityId)
        requires
            prior.wf(),
            prior.valid_id(entity),
            self.next_id == prior.next_id,
            self.active_profile == prior.active_profile,
            self.profiles@.len() == prior.profiles@.len(),
            self.profiles@ == prior.profiles@.update(
                entity.0 as int - 1,
                self.profiles@[entity.0 as int - 1],
            ),
            self.profiles@[entity.0 as int - 1].profile == prior.entry_of(entity).profile,
        ensures
            self.wf(),
            forall|n: Seq<char>| name_index(self.profiles@, n) == name_index(prior.profiles@, n),
            forall|n: Seq<char>| n != prior.entry_of(entity).profile.name@ ==> self.record_of(n)
                == prior.record_of(n),
            name_index(prior.profiles@, prior.entry_of(entity).profile.name@) == entity.0 as int
                - 1,
            self.record_of(prior.entry_of(entity).profile.name@) == Some(
                self.profiles@[entity.0 as int - 1],
            ),
            prior.record_of(prior.entry_of(entity).profile.name@) == Some(
                prior.profiles@[entity.0 as int - 1],
            ),
    {
        let i = entity.0 as int - 1;
        assert forall|n: Seq<char>|
            name_index(self.profiles@, n) == name_index(prior.profiles@, n) by {
            lemma_name_index_update(prior.profiles@, i, self.profiles@[i], n);
        }
        assert forall|ii: int, jj: int|
            0 <= ii < jj < self.profiles@.len() implies self.profiles@[ii].profile.name@
            != self.profiles@[jj].profile.name@ by {
            assert(prior.profiles@[ii].profile.name@ != prior.profiles@[jj].profile.name@);
        }
        let nm = prior.entry_of(entity).profile.name@;
        lemma_name_index_first(prior.profiles@, nm, i);
        assert forall|n: Seq<char>| n != nm implies self.record_of(n) == prior.record_of(n) by {
            lemma_name_index_props(prior.profiles@, n);
            let idx = name_index(prior.profiles@, n);
            if idx >= 0 {
                assert(prior.profiles@[idx].profile.name@ == n);
                assert(idx != i);
                assert(self.profiles@[idx] == prior.profiles@[idx]);
            }
        }
    }

    /// Make `entity` the active profile.
    pub fn set_active_profile(&mut self, entity: EntityId)
        requires
            old(self).wf(),
            old(self).valid_id(entity),
        ensures
            final(self).wf(),
            final(self).profiles@ == old(self).profiles@,
            final(self).next_id == old(self).next_id,
            final(self).active_profile == Some(entity),
    {
        self.active_profile = Some(entity);
    }

    /// The active entity, or `NotInitialized` when none has been set.
    pub fn active_entity(&self) -> (r: Result<EntityId, ClientError>)
        ensures
            match r {
                Ok(e) => self.active_profile == Some(e),
                Err(er) => self.active_profile is None && er.kind == ErrorKind::NotInitialized,
            },
    {
        match self.active_profile {
            Some(e) => Ok(e),
            None => Err(ClientError::bare(ErrorKind::NotInitialized)),
        }
    }

    /// The credential of the active entity: `NotInitialized` when nothing
    /// is active, `NoCredential` when the active entity has no token (a
    /// state the workflows never produce, checked defensively all the
    /// same).
    pub fn active_token(&self) -> (r: Result<ApiToken, ClientError>)
        requires
            self.wf(),
        ensures
            match r {
                Ok(t) => self.active_profile matches Some(e) && self.entry_of(e).token
                    matches Some(tok) && tok.token == t,
                Err(er) => {
                    &&& (er.kind == ErrorKind::NotInitialized <==> self.active_profile is None)
                    &&& (er.kind == ErrorKind::NoCredential <==> (self.active_profile
                        matches Some(e) && self.entry_of(e).token is None))
                },
            },
            r is Ok <==> (self.active_profile matches Some(e) && self.entry_of(e).token is Some),
    {
        let e = match self.active_entity() {
            Ok(e) => e,
            Err(er) => {
                return Err(er);
            },
        };
        // a Vec holds at most usize::MAX elements, which bounds the index
        let len = self.profiles.len();
        let i = (e.0 - 1) as usize;
        match &self.profiles[i].token {
            Some(t) => Ok(t.token.clone()),
            None => Err(ClientError::bare(ErrorKind::NoCredential)),
        }
    }

    /// The cached identity summary for `profile`, if one is recorded; the
    /// world is not changed.
    pub fn maybe_cached_auth_for_profile(&self, profile: &str) -> (r: Option<AuthSummary>)
        requires
            self.wf(),
        ensures
            r == self.auth_of(profile@),
    {
        match find_name(&self.profiles, profile) {
            Some(i) => match &self.profiles[i].auth {
                Some(a) => Some(a.summary.clone()),
                None => None,
            },
            None => None,
        }
    }
}

/// The position of the record named `profile`, found by a linear scan of
/// the arena.
fn find_name(profiles: &Vec<ProfileEntry>, profile: &str) -> (r: Option<usize>)
    ensures
        match r {
            Some(i) => i < profiles@.len() && name_index(profiles@, profile@) == i as int,
            None => name_index(profiles@, profile@) == -1,
        },
{
    let n = profiles.len();
    let mut i: usize = 0;
    while i < n
        invariant
            n == profiles@.len(),
            i <= n,
            forall|k: int| 0 <= k < i ==> profiles@[k].profile.name@ != profile@,
        decreases n - i,
    {
        if str_eq(profiles[i].profile.name.as_str(), profile) {
            proof {
                lemma_name_index_first(profiles@, profile@, i as int);
            }
            return Some(i);
        }
        i = i + 1;
    }
    proof {
        lemma_name_index_props(profiles@, profile@);
        if name_index(profiles@, profile@) >= 0 {
            assert(profiles@[name_index(profiles@, profile@)].profile.name@ != profile@);
        }
    }
    None
}

} // verus!
