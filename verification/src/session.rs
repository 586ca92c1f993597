//! The session store: which tokens are live, when each was last seen, and how
//! sliding expiration decides their fate.
//!
//! Time is a plain `u64` count of milliseconds that the caller reads from its
//! clock. The store never reads a clock itself, so every rule below is a
//! function of the values handed in.

use crate::token::{is_hyphenated_uuid, new_token, token_len, token_of};
use vstd::hash_map::StringHashMap;
use vstd::prelude::*;

verus! {

/// Session lifetime used when nothing else is configured: seven days, in milliseconds.
pub const DEFAULT_TTL_MS: u64 = 604_800_000;

/// What the store remembers of one live session.
#[derive(Clone, Copy, Debug, PartialEq, Eq, Structural)]
pub struct SessionEntry {
    /// When the session was created.
    pub issued_at: u64,
    /// When the session was last validated (or created, if never validated).
    pub last_seen_at: u64,
}

/// The sessions of a store as a mathematical map from token to entry.
pub type Sessions = Map<Seq<char>, SessionEntry>;

/// The entry of a session created at `now`.
pub open spec fn fresh_entry(now: u64) -> SessionEntry {
    SessionEntry { issued_at: now, last_seen_at: now }
}

/// Whether an entry is still within its lifetime at `now`: no more than `ttl`
/// has passed since it was last seen. A `now` that lies before `last_seen_at`
/// counts as no time passed.
pub open spec fn is_live(entry: SessionEntry, now: u64, ttl: u64) -> bool {
    now - entry.last_seen_at <= ttl
}

/// The entry after a successful validation at `now`: the last-seen time moves
/// forward to `now`, and never backward.
pub open spec fn renewed(entry: SessionEntry, now: u64) -> SessionEntry {
    SessionEntry {
        issued_at: entry.issued_at,
        last_seen_at: if now > entry.last_seen_at {
            now
        } else {
            entry.last_seen_at
        },
    }
}

/// The sessions after `token` was issued at `now`.
pub open spec fn issued(sessions: Sessions, token: Seq<char>, now: u64) -> Sessions {
    sessions.insert(token, fresh_entry(now))
}

/// Whether a validation of `token` at `now` succeeds.
pub open spec fn accepted(sessions: Sessions, ttl: u64, token: Seq<char>, now: u64) -> bool {
    sessions.contains_key(token) && is_live(sessions[token], now, ttl)
}

/// The sessions after a validation of `token` at `now`: an unknown token
/// changes nothing, a live one is renewed, an expired one is removed.
pub open spec fn validated(sessions: Sessions, ttl: u64, token: Seq<char>, now: u64) -> Sessions {
    if !sessions.contains_key(token) {
        sessions
    } else if is_live(sessions[token], now, ttl) {
        sessions.insert(token, renewed(sessions[token], now))
    } else {
        sessions.remove(token)
    }
}

/// One issue: the token and the time.
pub type Issue = (Seq<char>, u64);

/// The sessions after every issue of `issues` was made, one after the other.
pub open spec fn issued_all(sessions: Sessions, issues: Seq<Issue>) -> Sessions
    decreases issues.len(),
{
    if issues.len() == 0 {
        sessions
    } else {
        issued(issued_all(sessions, issues.drop_last()), issues.last().0, issues.last().1)
    }
}

/// The sessions after `token` was revoked.
pub open spec fn revoked(sessions: Sessions, token: Seq<char>) -> Sessions {
    sessions.remove(token)
}

/// A map from session token to session entry with a fixed session lifetime.
///
/// The store owns no lock: whoever shares it between tasks wraps it in one and
/// calls these methods inside the exclusive section.
pub struct SessionStore {
    entries: StringHashMap<SessionEntry>,
    ttl: u64,
}

impl View for SessionStore {
    type V = Sessions;

    closed spec fn view(&self) -> Sessions {
        self.entries@
    }
}

impl SessionStore {
    /// Every store holds finitely many sessions, and none was seen before it was issued.
    #[verifier::type_invariant]
    spec fn well_formed(&self) -> bool {
        &&& self.entries@.dom().finite()
        &&& forall|token: Seq<char>| #[trigger]
            self.entries@.contains_key(token) ==> self.entries@[token].issued_at
                <= self.entries@[token].last_seen_at
    }

    /// The session lifetime of this store.
    pub closed spec fn ttl(&self) -> u64 {
        self.ttl
    }

    /// An empty store with the default lifetime of seven days.
    pub fn new() -> (store: Self)
        ensures
            store@ == Sessions::empty(),
            store.ttl() == DEFAULT_TTL_MS,
    {
        SessionStore { entries: StringHashMap::new(), ttl: DEFAULT_TTL_MS }
    }

    /// An empty store whose sessions live for `ttl` milliseconds after they were last seen.
    pub fn with_ttl(ttl: u64) -> (store: Self)
        ensures
            store@ == Sessions::empty(),
            store.ttl() == ttl,
    {
        SessionStore { entries: StringHashMap::new(), ttl }
    }

    /// The session lifetime of this store, in milliseconds.
    pub fn ttl_ms(&self) -> (ttl: u64)
        ensures
            ttl == self.ttl(),
    {
        self.ttl
    }

    /// The number of sessions in the store, expired ones that no validation
    /// has met yet included.
    pub fn len(&self) -> (n: usize)
        ensures
            n == self@.len(),
            self@.dom().finite(),
    {
        proof {
            use_type_invariant(self);
        }
        self.entries.len()
    }

    /// The entry of `token`, if the store holds one.
    pub fn entry(&self, token: &str) -> (found: Option<SessionEntry>)
        ensures
            found.is_some() == self@.contains_key(token@),
            found matches Some(entry) ==> entry == self@[token@] && entry.issued_at
                <= entry.last_seen_at,
    {
        proof {
            use_type_invariant(self);
        }
        match self.entries.get(token) {
            Some(entry) => Some(*entry),
            None => None,
        }
    }

    /// Records a new session under `token`, created and last seen at `now`.
    /// A session already stored under the same token is replaced.
    pub fn issue_with(&mut self, token: String, now: u64)
        ensures
            final(self)@ == issued(old(self)@, token@, now),
            final(self).ttl() == old(self).ttl(),
    {
        self.put(token, SessionEntry { issued_at: now, last_seen_at: now });
    }

    /// Makes a token from a fresh random identifier and `now`, records a
    /// session under it that was created and last seen at `now`, and returns
    /// the token.
    pub fn issue(&mut self, now: u64) -> (token: String)
        ensures
            exists|uuid: Seq<char>| is_hyphenated_uuid(uuid) && token@ == token_of(uuid, now),
            token@.len() == token_len(now),
            token@.len() > 0,
            final(self)@ == issued(old(self)@, token@, now),
            final(self).ttl() == old(self).ttl(),
            accepted(final(self)@, final(self).ttl(), token@, now),
    {
        let token = new_token(now);
        self.issue_with(token.clone(), now);
        token
    }

    /// Checks `token` at `now` and applies sliding expiration in the same step.
    ///
    /// An unknown token is refused and nothing changes. A known token whose
    /// lifetime has run out is removed and refused. Any other known token is
    /// accepted and its last-seen time moves forward to `now`.
    pub fn validate_and_refresh(&mut self, token: &str, now: u64) -> (valid: bool)
        ensures
            valid == accepted(old(self)@, old(self).ttl(), token@, now),
            final(self)@ == validated(old(self)@, old(self).ttl(), token@, now),
            final(self).ttl() == old(self).ttl(),
    {
        proof {
            use_type_invariant(&*self);
        }
        match self.entry(token) {
            None => false,
            Some(entry) => {
                if now <= entry.last_seen_at || now - entry.last_seen_at <= self.ttl {
                    let last_seen_at: u64 = if now > entry.last_seen_at {
                        now
                    } else {
                        entry.last_seen_at
                    };
                    self.put(
                        token.to_owned(),
                        SessionEntry { issued_at: entry.issued_at, last_seen_at },
                    );
                    true
                } else {
                    self.take(token);
                    false
                }
            },
        }
    }

    /// Removes the session of `token`, if there is one.
    pub fn revoke(&mut self, token: &str)
        ensures
            final(self)@ == revoked(old(self)@, token@),
            final(self).ttl() == old(self).ttl(),
    {
        self.take(token);
    }

    /// Stores `entry` under `token`. The map leaves the store while it is
    /// changed, so that the store is well formed at every step.
    fn put(&mut self, token: String, entry: SessionEntry)
        requires
            entry.issued_at <= entry.last_seen_at,
        ensures
            final(self)@ == old(self)@.insert(token@, entry),
            final(self).ttl() == old(self).ttl(),
    {
        proof {
            use_type_invariant(&*self);
        }
        let mut entries = StringHashMap::new();
        core::mem::swap(&mut self.entries, &mut entries);
        entries.insert(token, entry);
        self.entries = entries;
    }

    /// Removes what is stored under `token`, in the same manner as `put`.
    fn take(&mut self, token: &str)
        ensures
            final(self)@ == old(self)@.remove(token@),
            final(self).ttl() == old(self).ttl(),
    {
        proof {
            use_type_invariant(&*self);
        }
        let mut entries = StringHashMap::new();
        core::mem::swap(&mut self.entries, &mut entries);
        entries.remove(token);
        self.entries = entries;
    }
}

/// A token is accepted right after it was issued, and at any later time that
/// lies no more than the lifetime after the issue.
pub proof fn issued_token_is_accepted(
    sessions: Sessions,
    ttl: u64,
    token: Seq<char>,
    now: u64,
    later: u64,
)
    requires
        later - now <= ttl,
    ensures
        accepted(issued(sessions, token, now), ttl, token, now),
        accepted(issued(sessions, token, now), ttl, token, later),
{
}

/// Issuing a token that the store does not hold loses no session: every
/// earlier session is still there, unchanged, and the store has grown by one.
pub proof fn fresh_token_adds_one_session(sessions: Sessions, token: Seq<char>, now: u64)
    requires
        sessions.dom().finite(),
        !sessions.contains_key(token),
    ensures
        issued(sessions, token, now).len() == sessions.len() + 1,
        forall|other: Seq<char>| #[trigger]
            sessions.contains_key(other) ==> issued(sessions, token, now).contains_key(other)
                && issued(sessions, token, now)[other] == sessions[other],
{
}

/// Many issues lose no session. Where the tokens differ from each other and
/// from every token in the store, in whatever order the issues are made the
/// store grows by their number, holds each of them as it was issued, holds
/// every earlier session unchanged, and holds nothing else.
pub proof fn distinct_tokens_lose_no_session(sessions: Sessions, issues: Seq<Issue>)
    requires
        sessions.dom().finite(),
        forall|i: int| 0 <= i < issues.len() ==> !sessions.contains_key(#[trigger] issues[i].0),
        forall|i: int, j: int|
            0 <= i < j < issues.len() ==> (#[trigger] issues[i]).0 != (#[trigger] issues[j]).0,
    ensures
        issued_all(sessions, issues).dom().finite(),
        issued_all(sessions, issues).len() == sessions.len() + issues.len(),
        forall|i: int|
            0 <= i < issues.len() ==> issued_all(sessions, issues).contains_key(
                #[trigger] issues[i].0,
            ) && issued_all(sessions, issues)[issues[i].0] == fresh_entry(issues[i].1),
        forall|token: Seq<char>| #[trigger]
            sessions.contains_key(token) ==> issued_all(sessions, issues).contains_key(token)
                && issued_all(sessions, issues)[token] == sessions[token],
        forall|token: Seq<char>| #[trigger]
            issued_all(sessions, issues).contains_key(token) ==> sessions.contains_key(token) || (
            exists|i: int| 0 <= i < issues.len() && #[trigger] issues[i].0 == token),
    decreases issues.len(),
{
    if issues.len() > 0 {
        let earlier = issues.drop_last();
        distinct_tokens_lose_no_session(sessions, earlier);
        assert forall|i: int| 0 <= i < issues.len() implies issued_all(
            sessions,
            issues,
        ).contains_key(#[trigger] issues[i].0) && issued_all(sessions, issues)[issues[i].0]
            == fresh_entry(issues[i].1) by {
            if i < earlier.len() {
                assert(earlier[i] == issues[i]);
            }
        }
    }
}

/// After a revocation the token is refused at every time, and the refused
/// validation leaves the store as the revocation left it.
pub proof fn revoked_token_is_refused(sessions: Sessions, ttl: u64, token: Seq<char>, now: u64)
    ensures
        !accepted(revoked(sessions, token), ttl, token, now),
        validated(revoked(sessions, token), ttl, token, now) == revoked(sessions, token),
{
}

/// Revoking a token a second time changes nothing.
pub proof fn revoke_is_idempotent(sessions: Sessions, token: Seq<char>)
    ensures
        revoked(revoked(sessions, token), token) == revoked(sessions, token),
{
}

/// Sliding renewal: after a validation that succeeded at `at`, a validation at
/// any `later` no more than the lifetime after `at` succeeds too.
pub proof fn renewal_extends_session(
    sessions: Sessions,
    ttl: u64,
    token: Seq<char>,
    at: u64,
    later: u64,
)
    requires
        accepted(sessions, ttl, token, at),
        later - at <= ttl,
    ensures
        accepted(validated(sessions, ttl, token, at), ttl, token, later),
{
}

/// Expiry: after a validation that succeeded at `at`, and that was not
/// overtaken by a later one, a validation more than the lifetime after `at`
/// fails and removes the session.
pub proof fn unrenewed_session_expires(
    sessions: Sessions,
    ttl: u64,
    token: Seq<char>,
    at: u64,
    later: u64,
)
    requires
        accepted(sessions, ttl, token, at),
        sessions[token].last_seen_at <= at,
        later - at > ttl,
    ensures
        !accepted(validated(sessions, ttl, token, at), ttl, token, later),
        !validated(validated(sessions, ttl, token, at), ttl, token, later).contains_key(token),
{
}

/// No validation moves a last-seen time backward, and an accepted token has
/// been seen no earlier than the time of its validation.
pub proof fn last_seen_never_moves_back(sessions: Sessions, ttl: u64, token: Seq<char>, now: u64)
    requires
        accepted(sessions, ttl, token, now),
    ensures
        validated(sessions, ttl, token, now).contains_key(token),
        validated(sessions, ttl, token, now)[token].last_seen_at >= sessions[token].last_seen_at,
        validated(sessions, ttl, token, now)[token].last_seen_at >= now,
        validated(sessions, ttl, token, now)[token].issued_at == sessions[token].issued_at,
{
}

/// A validation of one token leaves the session of every other token as it was.
pub proof fn validation_touches_one_token(
    sessions: Sessions,
    ttl: u64,
    token: Seq<char>,
    other: Seq<char>,
    now: u64,
)
    requires
        other != token,
    ensures
        validated(sessions, ttl, token, now).contains_key(other) == sessions.contains_key(other),
        sessions.contains_key(other) ==> validated(sessions, ttl, token, now)[other]
            == sessions[other],
{
}

} // verus!
