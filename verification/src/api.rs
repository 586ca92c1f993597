//! The guard that stands before the protected routes, and the handlers for
//! login, logout, session check and profile update.
//!
//! A handler takes what was read from the request as plain values and returns
//! a `Reply` that says what to answer. Reading the request and writing the
//! answer are the caller's part.

use crate::config::{
    bcrypt_verdict, is_hash_at, AppConfig, CredentialError, Info, HASH_COST,
};
use crate::json::{string_member, string_member_of};
use crate::session::{accepted, issued, revoked, validated, SessionStore, Sessions};
use crate::token::{is_hyphenated_uuid, token_len, token_of};
use vstd::prelude::*;

verus! {

/// The name of the cookie that carries the session token.
pub const COOKIE_NAME: &'static str = "Token";

/// The path for which the session cookie is valid.
pub const COOKIE_PATH: &'static str = "/";

/// The body of a rejection, where one is configured.
pub const REJECTION_ENVELOPE: &'static str = "{\"error\":\"unauthorized\"}";

pub const STATUS_NO_CONTENT: u16 = 204;

pub const STATUS_BAD_REQUEST: u16 = 400;

pub const STATUS_UNAUTHORIZED: u16 = 401;

/// The two ways a request leaves the guard.
#[derive(Clone, Copy, Debug, PartialEq, Eq, Structural)]
pub enum Gate {
    /// The request carries a live session; the pipeline goes on.
    Authorized,
    /// The request carries none; nothing after the guard may run.
    Rejected,
}

/// What a rejected request is given as its body.
#[derive(Clone, Copy, Debug, PartialEq, Eq, Structural)]
pub enum RejectionBody {
    /// Nothing.
    Empty,
    /// A small JSON object that names the error.
    JsonEnvelope,
}

/// A name and a password, as a login or a profile update submits them.
#[derive(Debug)]
pub struct Credentials {
    pub username: String,
    pub password: String,
}

/// The cookie that hands a session token to the browser.
#[derive(Debug)]
pub struct SessionCookie {
    pub name: String,
    pub value: String,
    pub path: String,
    /// Whether the browser is to keep the cookie beyond its own session.
    pub permanent: bool,
    /// The cookie written out as the value of a `Set-Cookie` header.
    pub header: String,
}

/// What a handler answers.
#[derive(Debug)]
pub struct Reply {
    pub status: u16,
    /// A cookie to set, if any.
    pub cookie: Option<SessionCookie>,
    /// A JSON body, if any.
    pub body: Option<String>,
    /// Whether the pipeline stops here, so that no later step runs.
    pub skip_rest: bool,
}

/// A name and a password as texts.
pub type Pair = (Seq<char>, Seq<char>);

impl Credentials {
    /// The name and the password as texts.
    pub open spec fn pair(&self) -> Pair {
        (self.username@, self.password@)
    }
}

impl Reply {
    /// Whether the reply is nothing but a status: no cookie and no body.
    pub open spec fn is_bare(&self, status: u16, skip_rest: bool) -> bool {
        &&& self.status == status
        &&& self.cookie is None
        &&& self.body is None
        &&& self.skip_rest == skip_rest
    }

    /// Whether the reply reports a login that succeeded with `token`: no
    /// content, and the token in a permanent cookie for the whole site.
    pub open spec fn grants(&self, token: Seq<char>) -> bool {
        &&& self.status == STATUS_NO_CONTENT
        &&& self.body is None
        &&& !self.skip_rest
        &&& self.cookie matches Some(cookie) && cookie.name@ == COOKIE_NAME@ && cookie.value@
            == token && cookie.path@ == COOKIE_PATH@ && cookie.permanent && written_cookie(
            COOKIE_NAME@,
            token,
            COOKIE_PATH@,
        ).is_prefix_of(cookie.header@)
    }

    /// Whether the reply is the rejection that the guard gives under
    /// `policy`: unauthorized, the pipeline stopped, the body as configured.
    pub open spec fn rejects(&self, policy: RejectionBody) -> bool {
        &&& self.status == STATUS_UNAUTHORIZED
        &&& self.cookie is None
        &&& self.skip_rest
        &&& match policy {
            RejectionBody::Empty => self.body is None,
            RejectionBody::JsonEnvelope => self.body matches Some(text) && text@
                == REJECTION_ENVELOPE@,
        }
    }

    fn bare(status: u16, skip_rest: bool) -> (reply: Reply)
        ensures
            reply.is_bare(status, skip_rest),
    {
        Reply { status, cookie: None, body: None, skip_rest }
    }
}

/// How the header of a permanent cookie begins: the name and the value, the
/// path, and a lifetime of twenty years in seconds. The date of expiry, which
/// follows, depends on the day.
pub open spec fn written_cookie(name: Seq<char>, value: Seq<char>, path: Seq<char>) -> Seq<char> {
    name + "="@ + value + "; Path="@ + path + "; Max-Age=630720000; Expires="@
}

/// Calls `Cookie::build`, `path`, `permanent` and `build` of the crate
/// `cookie`, which `salvo` hands on, and writes the cookie out with its
/// `Display`, as the value of a `Set-Cookie` header. `permanent` counts the
/// date of expiry from the moment of the call, so the contract states how
/// the text begins and leaves the date open.
#[verifier::external_body]
fn permanent_cookie(name: &str, value: &str, path: &str) -> (header: String)
    ensures
        written_cookie(name@, value@, path@).is_prefix_of(header@),
{
    salvo::http::cookie::Cookie::build((name, value)).path(path).permanent().build().to_string()
}

/// The text of an optional string slice.
pub open spec fn text_of(text: Option<&str>) -> Option<Seq<char>> {
    match text {
        Some(t) => Some(t@),
        None => None,
    }
}

/// The document behind an optional reference.
pub open spec fn document_of(body: Option<&serde_json::Value>) -> Option<serde_json::Value> {
    match body {
        Some(document) => Some(*document),
        None => None,
    }
}

/// The pair of optional credentials.
pub open spec fn pair_of(credentials: Option<Credentials>) -> Option<Pair> {
    match credentials {
        Some(c) => Some(c.pair()),
        None => None,
    }
}

/// The pair behind an optional reference to credentials.
pub open spec fn pair_behind(credentials: Option<&Credentials>) -> Option<Pair> {
    match credentials {
        Some(c) => Some(c.pair()),
        None => None,
    }
}

/// The name and the password that a request body holds: both must be there,
/// and both must be strings. A request without a readable body holds none.
pub open spec fn credentials_in(body: Option<serde_json::Value>) -> Option<Pair> {
    match body {
        None => None,
        Some(document) => match (
            string_member_of(document, "username"@),
            string_member_of(document, "password"@),
        ) {
            (Some(username), Some(password)) => Some((username, password)),
            _ => None,
        },
    }
}

/// Whether the guard lets a request with this cookie through at `now`.
pub open spec fn guard_passes(
    sessions: Sessions,
    ttl: u64,
    cookie: Option<Seq<char>>,
    now: u64,
) -> bool {
    cookie matches Some(token) && accepted(sessions, ttl, token, now)
}

/// The sessions after the guard has seen a request with this cookie at `now`.
pub open spec fn after_guard(
    sessions: Sessions,
    ttl: u64,
    cookie: Option<Seq<char>>,
    now: u64,
) -> Sessions {
    match cookie {
        Some(token) => validated(sessions, ttl, token, now),
        None => sessions,
    }
}

/// The status that answers a login with these credentials at a store whose
/// record is `info`: bad request without credentials, unauthorized for
/// credentials that the record does not admit, no content otherwise.
pub open spec fn login_status(info: Info, credentials: Option<Pair>) -> u16 {
    match credentials {
        None => STATUS_BAD_REQUEST,
        Some((username, password)) => if info.admits(username, password) {
            STATUS_NO_CONTENT
        } else {
            STATUS_UNAUTHORIZED
        },
    }
}

/// Whether `reply` and the sessions `after` are what a login with
/// `credentials` at `now` makes of the sessions `before`.
///
/// Without credentials the request is bad and the pipeline stops. With
/// credentials that the record does not admit the answer is unauthorized,
/// whichever of the two was wrong. In both cases the sessions stay as they
/// were. With credentials that the record admits, a session is issued at
/// `now` under a new token, the token is handed out as a cookie, and the guard
/// accepts it from that moment. The token has the length of every token made
/// at `now`, which is never nothing.
pub open spec fn is_login(
    reply: Reply,
    before: Sessions,
    after: Sessions,
    ttl: u64,
    info: Info,
    credentials: Option<Pair>,
    now: u64,
) -> bool {
    &&& reply.status == login_status(info, credentials)
    &&& match credentials {
        None => reply.is_bare(STATUS_BAD_REQUEST, true) && after == before,
        Some((username, password)) => if info.admits(username, password) {
            exists|uuid: Seq<char>|
                is_hyphenated_uuid(uuid) && #[trigger] reply.grants(token_of(uuid, now))
                    && token_of(uuid, now).len() == token_len(now) && after == issued(
                    before,
                    token_of(uuid, now),
                    now,
                ) && accepted(after, ttl, token_of(uuid, now), now)
        } else {
            reply.is_bare(STATUS_UNAUTHORIZED, false) && after == before
        },
    }
}

/// Whether `reply` and the record `after` are what a profile update with
/// `credentials` makes of the record `before`.
///
/// Without credentials the request is bad. With credentials the update
/// either succeeds, and the record then holds the new name and a hash at the
/// work factor of the store that admits the name with the new password, or no
/// hash could be made and the request is bad. After every bad request the
/// record is as it was.
pub open spec fn is_update(
    reply: Reply,
    before: Info,
    after: Info,
    credentials: Option<Pair>,
) -> bool {
    match credentials {
        None => reply.is_bare(STATUS_BAD_REQUEST, false) && after == before,
        Some((username, password)) => if reply.status == STATUS_NO_CONTENT {
            &&& reply.is_bare(STATUS_NO_CONTENT, false)
            &&& after.username@ == username
            &&& after.admits(username, password)
            &&& is_hash_at(after.password@, HASH_COST)
        } else {
            &&& reply.is_bare(STATUS_BAD_REQUEST, false)
            &&& after == before
        },
    }
}

/// Reads the credentials out of a request body. `None` stands for a body
/// that is missing or malformed, a missing member, or a member that is no
/// string.
pub fn credentials(body: Option<&serde_json::Value>) -> (found: Option<Credentials>)
    ensures
        pair_of(found) == credentials_in(document_of(body)),
{
    match body {
        None => None,
        Some(document) => {
            let username = string_member(document, "username");
            let password = string_member(document, "password");
            match (username, password) {
                (Some(username), Some(password)) => Some(Credentials { username, password }),
                _ => None,
            }
        },
    }
}

/// The guard. A request without the session cookie is rejected at once. With
/// one, the session store decides and renews or removes the session in the
/// same step.
pub fn auth(cookie: Option<&str>, sessions: &mut SessionStore, now: u64) -> (gate: Gate)
    ensures
        (gate == Gate::Authorized) == guard_passes(
            old(sessions)@,
            old(sessions).ttl(),
            text_of(cookie),
            now,
        ),
        final(sessions)@ == after_guard(old(sessions)@, old(sessions).ttl(), text_of(cookie), now),
        final(sessions).ttl() == old(sessions).ttl(),
{
    match cookie {
        None => Gate::Rejected,
        Some(token) => {
            if sessions.validate_and_refresh(token, now) {
                Gate::Authorized
            } else {
                Gate::Rejected
            }
        },
    }
}

/// What a rejected request is answered: unauthorized, nothing after the guard
/// runs, and the body that `policy` asks for.
pub fn refuse(policy: RejectionBody) -> (reply: Reply)
    ensures
        reply.rejects(policy),
{
    let body = match policy {
        RejectionBody::Empty => None,
        RejectionBody::JsonEnvelope => Some(REJECTION_ENVELOPE.to_owned()),
    };
    Reply { status: STATUS_UNAUTHORIZED, cookie: None, body, skip_rest: true }
}

/// The reply to a login that succeeded: no content, and the token as a
/// permanent cookie for the whole site.
pub fn grant(token: String) -> (reply: Reply)
    ensures
        reply.grants(token@),
{
    let header = permanent_cookie(COOKIE_NAME, token.as_str(), COOKIE_PATH);
    Reply {
        status: STATUS_NO_CONTENT,
        cookie: Some(
            SessionCookie {
                name: COOKIE_NAME.to_owned(),
                value: token,
                path: COOKIE_PATH.to_owned(),
                permanent: true,
                header,
            },
        ),
        body: None,
        skip_rest: false,
    }
}

/// Login with credentials that were read already.
pub fn login_with(
    credentials: Option<&Credentials>,
    config: &AppConfig,
    sessions: &mut SessionStore,
    now: u64,
) -> (reply: Reply)
    ensures
        final(sessions).ttl() == old(sessions).ttl(),
        is_login(
            reply,
            old(sessions)@,
            final(sessions)@,
            old(sessions).ttl(),
            config.info,
            pair_behind(credentials),
            now,
        ),
{
    match credentials {
        None => Reply::bare(STATUS_BAD_REQUEST, true),
        Some(c) => {
            if config.verify(c.username.as_str(), c.password.as_str()) {
                let token = sessions.issue(now);
                grant(token)
            } else {
                Reply::bare(STATUS_UNAUTHORIZED, false)
            }
        },
    }
}

/// Login. The body is the request's JSON document, or `None` where the
/// request had no readable one.
pub fn login(
    body: Option<&serde_json::Value>,
    config: &AppConfig,
    sessions: &mut SessionStore,
    now: u64,
) -> (reply: Reply)
    ensures
        final(sessions).ttl() == old(sessions).ttl(),
        is_login(
            reply,
            old(sessions)@,
            final(sessions)@,
            old(sessions).ttl(),
            config.info,
            credentials_in(document_of(body)),
            now,
        ),
{
    let found = credentials(body);
    login_with(found.as_ref(), config, sessions, now)
}

/// Logout: the session of the cookie, if the request had one, is revoked. The
/// answer is the same whether or not there was anything to revoke.
pub fn logout(cookie: Option<&str>, sessions: &mut SessionStore) -> (reply: Reply)
    ensures
        reply.is_bare(STATUS_NO_CONTENT, false),
        final(sessions)@ == match cookie {
            Some(token) => revoked(old(sessions)@, token@),
            None => old(sessions)@,
        },
        final(sessions).ttl() == old(sessions).ttl(),
{
    match cookie {
        Some(token) => {
            sessions.revoke(token);
        },
        None => {},
    }
    Reply::bare(STATUS_NO_CONTENT, false)
}

/// Session check: there is nothing to do, the guard has done it.
pub fn check() -> (reply: Reply)
    ensures
        reply.is_bare(STATUS_NO_CONTENT, false),
{
    Reply::bare(STATUS_NO_CONTENT, false)
}

/// The end of a profile update: a record that could be made replaces the
/// stored one; where none could be made the request is bad and the store
/// stays as it was.
pub fn apply_update(config: &mut AppConfig, made: Result<Info, CredentialError>) -> (reply: Reply)
    ensures
        final(config).listen == old(config).listen,
        final(config).zerotier == old(config).zerotier,
        match made {
            Ok(info) => reply.is_bare(STATUS_NO_CONTENT, false) && final(config).info == info,
            Err(_) => reply.is_bare(STATUS_BAD_REQUEST, false) && final(config).info == old(
                config
            ).info,
        },
{
    match config.store(made) {
        Ok(()) => Reply::bare(STATUS_NO_CONTENT, false),
        Err(_) => Reply::bare(STATUS_BAD_REQUEST, false),
    }
}

/// Profile update with credentials that were read already. The sessions are
/// out of its reach: whoever was logged in stays so.
pub fn modify_with(credentials: Option<&Credentials>, config: &mut AppConfig) -> (reply: Reply)
    ensures
        final(config).listen == old(config).listen,
        final(config).zerotier == old(config).zerotier,
        is_update(reply, old(config).info, final(config).info, pair_behind(credentials)),
{
    match credentials {
        None => Reply::bare(STATUS_BAD_REQUEST, false),
        Some(c) => {
            let made = Info::with_password(c.username.as_str(), c.password.as_str());
            apply_update(config, made)
        },
    }
}

/// Profile update. The body is the request's JSON document, or `None` where
/// the request had no readable one.
pub fn modify(body: Option<&serde_json::Value>, config: &mut AppConfig) -> (reply: Reply)
    ensures
        final(config).listen == old(config).listen,
        final(config).zerotier == old(config).zerotier,
        is_update(reply, old(config).info, final(config).info, credentials_in(document_of(body))),
{
    let found = credentials(body);
    modify_with(found.as_ref(), config)
}

/// What a profile update means for later logins. Once the record holds
/// `username` and admits it with `password`, as it does after every update
/// that succeeded, a login with that pair is granted. A login with any other
/// pair is refused, unless the pair has the new name and a password that
/// bcrypt takes for the new one.
pub proof fn login_follows_update(after: Info, username: Seq<char>, password: Seq<char>, other: Pair)
    requires
        after.username@ == username,
        after.admits(username, password),
        other.0 != username || bcrypt_verdict(other.1, after.password@) != Some(true),
    ensures
        login_status(after, Some((username, password))) == STATUS_NO_CONTENT,
        login_status(after, Some(other)) == STATUS_UNAUTHORIZED,
{
}

} // verus!
