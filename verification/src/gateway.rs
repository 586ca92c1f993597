//! The gateway as one object: its state, its routes, and the one path every
//! request takes through the guard to its handler.

use crate::api::{
    after_guard, auth, check, credentials_in, guard_passes, is_login, is_update, login, logout,
    modify, refuse, Gate, RejectionBody, Reply, STATUS_NO_CONTENT,
};
use crate::config::AppConfig;
use crate::session::{revoked, SessionStore, Sessions, DEFAULT_TTL_MS};
use crate::statics::{answers, bundle_files, index, StaticReply};
use crate::text::{has_prefix, same_text};
use crate::zerotier::{
    forward_to_zt, is_upstream_headers, upstream_url, without_prefix, UpstreamRequest, ZeroTier,
    ROUTE_PREFIX,
};
use vstd::prelude::*;

verus! {

/// The routes of the gateway.
#[derive(Clone, Copy, Debug, PartialEq, Eq, Structural)]
pub enum Route {
    /// `POST /api/login`
    Login,
    /// `GET /api/logout`
    Logout,
    /// `GET /api/check`
    Check,
    /// `POST /api/editprofile`
    EditProfile,
    /// Any method on a path below `/ztapi/`
    Forward,
    /// `GET` on any other path
    Asset,
}

/// What the gateway reads of a request.
#[derive(Debug)]
pub struct Inbound {
    pub route: Route,
    /// The value of the session cookie, if the request has one.
    pub cookie: Option<String>,
    /// The JSON document in the body, if the request has a readable one.
    pub body: Option<serde_json::Value>,
    pub path: String,
    pub method: reqwest::Method,
}

/// What is to be done for a request.
#[derive(Debug)]
pub enum Step {
    /// Answer with this reply.
    Answer(Reply),
    /// Write the configuration to where it is kept, and only then answer
    /// with this reply.
    Save(Reply),
    /// Send this request to the controller and answer with what `relay`
    /// makes of the outcome.
    Forward(UpstreamRequest),
    /// Answer with this static file or redirect.
    Serve(StaticReply),
}

/// The state that all requests share, and the policy for rejections.
pub struct Gateway {
    pub config: AppConfig,
    /// The controller as it was configured when the gateway started. No
    /// request changes it.
    pub zerotier: ZeroTier,
    pub sessions: SessionStore,
    pub rejection: RejectionBody,
}

/// The route of a request with this method and this path, if there is one.
///
/// The four local routes answer to one method and one path each. Every path
/// below the forwarding prefix is forwarded, whatever the method. Of the
/// rest, a `GET` asks for a static file and anything else has no route.
pub open spec fn route_of(method: Seq<char>, path: Seq<char>) -> Option<Route> {
    if method == "POST"@ && path == "/api/login"@ {
        Some(Route::Login)
    } else if method == "GET"@ && path == "/api/logout"@ {
        Some(Route::Logout)
    } else if method == "GET"@ && path == "/api/check"@ {
        Some(Route::Check)
    } else if method == "POST"@ && path == "/api/editprofile"@ {
        Some(Route::EditProfile)
    } else if ROUTE_PREFIX@.is_prefix_of(path) {
        Some(Route::Forward)
    } else if method == "GET"@ {
        Some(Route::Asset)
    } else {
        None
    }
}

/// The text of an optional string.
pub open spec fn cookie_text(cookie: Option<String>) -> Option<Seq<char>> {
    match cookie {
        Some(value) => Some(value@),
        None => None,
    }
}

impl Route {
    /// Whether the guard stands before this route: it does before every route
    /// but the login and the static files.
    pub open spec fn is_guarded(self) -> bool {
        !(self is Login) && !(self is Asset)
    }

    /// Finds the route of a request by its method, in upper case, and its path.
    pub fn of(method: &str, path: &str) -> (route: Option<Route>)
        ensures
            route == route_of(method@, path@),
    {
        let get = same_text(method, "GET");
        let post = same_text(method, "POST");
        if post && same_text(path, "/api/login") {
            Some(Route::Login)
        } else if get && same_text(path, "/api/logout") {
            Some(Route::Logout)
        } else if get && same_text(path, "/api/check") {
            Some(Route::Check)
        } else if post && same_text(path, "/api/editprofile") {
            Some(Route::EditProfile)
        } else if has_prefix(path, ROUTE_PREFIX) {
            Some(Route::Forward)
        } else if get {
            Some(Route::Asset)
        } else {
            None
        }
    }

    /// Whether requests on this route carry a body that the gateway reads.
    pub open spec fn has_body(self) -> bool {
        self is Login || self is EditProfile || self is Forward
    }

    /// Whether the body of a request on this route is to be read.
    pub fn reads_body(self) -> (reads: bool)
        ensures
            reads == self.has_body(),
    {
        match self {
            Route::Login => true,
            Route::EditProfile => true,
            Route::Forward => true,
            _ => false,
        }
    }

    /// Whether a request on this route needs a live session.
    pub fn auth_required(self) -> (required: bool)
        ensures
            required == self.is_guarded(),
    {
        match self {
            Route::Login => false,
            Route::Asset => false,
            _ => true,
        }
    }
}

impl Gateway {
    /// Whether the guard stops `inbound` at `now`: its route is guarded and
    /// its cookie names no live session.
    pub open spec fn stops(&self, inbound: Inbound, now: u64) -> bool {
        inbound.route.is_guarded() && !guard_passes(
            self.sessions@,
            self.sessions.ttl(),
            cookie_text(inbound.cookie),
            now,
        )
    }

    /// The sessions once `inbound` has been at the guard at `now`. A route
    /// without guard leaves them as they are.
    pub open spec fn guarded_sessions(&self, inbound: Inbound, now: u64) -> Sessions {
        if inbound.route.is_guarded() {
            after_guard(self.sessions@, self.sessions.ttl(), cookie_text(inbound.cookie), now)
        } else {
            self.sessions@
        }
    }

    /// Whether `step` and the gateway `after` are what the handler of the
    /// request's route makes of this gateway, once the guard has let the
    /// request through.
    pub open spec fn handles(
        &self,
        after: Gateway,
        inbound: Inbound,
        files: Map<Seq<char>, Seq<u8>>,
        now: u64,
        step: Step,
    ) -> bool {
        match inbound.route {
            Route::Login => {
                &&& step matches Step::Answer(reply) && is_login(
                    reply,
                    self.sessions@,
                    after.sessions@,
                    self.sessions.ttl(),
                    self.config.info,
                    credentials_in(inbound.body),
                    now,
                )
                &&& after.config == self.config
            },
            Route::Logout => {
                &&& step matches Step::Answer(reply) && reply.is_bare(STATUS_NO_CONTENT, false)
                &&& inbound.cookie matches Some(token) && after.sessions@ =~= revoked(
                    self.sessions@,
                    token@,
                )
                &&& after.config == self.config
            },
            Route::Check => {
                &&& step matches Step::Answer(reply) && reply.is_bare(STATUS_NO_CONTENT, false)
                &&& after.sessions@ =~= self.guarded_sessions(inbound, now)
                &&& after.config == self.config
            },
            Route::EditProfile => {
                &&& match step {
                    Step::Save(reply) => reply.status == STATUS_NO_CONTENT && is_update(
                        reply,
                        self.config.info,
                        after.config.info,
                        credentials_in(inbound.body),
                    ),
                    Step::Answer(reply) => reply.status != STATUS_NO_CONTENT && is_update(
                        reply,
                        self.config.info,
                        after.config.info,
                        credentials_in(inbound.body),
                    ),
                    _ => false,
                }
                &&& after.sessions@ =~= self.guarded_sessions(inbound, now)
            },
            Route::Forward => {
                &&& step matches Step::Forward(request) && request.url@ == upstream_url(
                    self.zerotier.address@,
                    without_prefix(inbound.path@),
                ) && request.method == inbound.method && request.body == inbound.body
                    && is_upstream_headers(request.headers@, self.zerotier.auth_token@)
                &&& after.sessions@ =~= self.guarded_sessions(inbound, now)
                &&& after.config == self.config
            },
            Route::Asset => {
                &&& step matches Step::Serve(reply) && answers(reply, inbound.path@, files)
                &&& after.sessions@ =~= self.sessions@
                &&& after.config == self.config
            },
        }
    }

    /// A gateway with this configuration, the controller that the
    /// configuration names, no session, and rejections of this kind.
    pub fn new(config: AppConfig, rejection: RejectionBody) -> (gateway: Self)
        ensures
            gateway.config == config,
            gateway.zerotier.address@ == config.zerotier.address@,
            gateway.zerotier.auth_token@ == config.zerotier.auth_token@,
            gateway.rejection == rejection,
            gateway.sessions@ == Sessions::empty(),
            gateway.sessions.ttl() == DEFAULT_TTL_MS,
    {
        let mut zerotier = ZeroTier::new();
        zerotier.init(&config.zerotier);
        Gateway { config, zerotier, sessions: SessionStore::new(), rejection }
    }

    /// Takes a request through the guard, where its route has one, and then
    /// to its handler.
    ///
    /// A request that the guard stops is answered with the rejection and
    /// reaches no handler: the configuration stays as it was, nothing is
    /// forwarded, and of the sessions only the one of the request's own cookie
    /// can have changed, removed for being expired. Any other request gets
    /// what the handler of its route makes of it. A profile update that
    /// succeeded asks for the configuration to be saved before the answer
    /// goes out; nothing else does.
    pub fn handle(&mut self, inbound: Inbound, bundle: &include_dir::Dir, now: u64) -> (step: Step)
        ensures
            final(self).rejection == old(self).rejection,
            final(self).zerotier == old(self).zerotier,
            final(self).sessions.ttl() == old(self).sessions.ttl(),
            final(self).config.listen == old(self).config.listen,
            final(self).config.zerotier == old(self).config.zerotier,
            if old(self).stops(inbound, now) {
                &&& step matches Step::Answer(reply) && reply.rejects(old(self).rejection)
                &&& final(self).config == old(self).config
                &&& final(self).sessions@ == old(self).guarded_sessions(inbound, now)
            } else {
                old(self).handles(*final(self), inbound, bundle_files(*bundle), now, step)
            },
    {
        let cookie = match &inbound.cookie {
            Some(value) => Some(value.as_str()),
            None => None,
        };
        if inbound.route.auth_required() {
            match auth(cookie, &mut self.sessions, now) {
                Gate::Rejected => {
                    return Step::Answer(refuse(self.rejection));
                },
                Gate::Authorized => {},
            }
        }
        match inbound.route {
            Route::Login => Step::Answer(
                login(inbound.body.as_ref(), &self.config, &mut self.sessions, now),
            ),
            Route::Logout => Step::Answer(logout(cookie, &mut self.sessions)),
            Route::Check => Step::Answer(check()),
            Route::EditProfile => {
                let reply = modify(inbound.body.as_ref(), &mut self.config);
                if reply.status == STATUS_NO_CONTENT {
                    Step::Save(reply)
                } else {
                    Step::Answer(reply)
                }
            },
            Route::Forward => Step::Forward(
                forward_to_zt(&self.zerotier, inbound.path.as_str(), inbound.method, inbound.body),
            ),
            Route::Asset => Step::Serve(index(inbound.path.as_str(), bundle)),
        }
    }
}

} // verus!
