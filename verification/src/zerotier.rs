//! The forwarding gateway: how a request that passed the guard becomes a
//! request to the controller, and how the controller's answer, or the lack of
//! one, becomes the reply to the caller.
//!
//! Nothing here touches the network. `ZeroTier::forward` describes the request
//! to send; whoever sends it hands the outcome to `relay`.

use crate::text::{has_prefix, skip_chars};
use vstd::prelude::*;

verus! {

/// The HTTP method of a request, as the crate `reqwest` has it. The gateway
/// never looks inside: it hands on the method it was given.
#[verifier::external_type_specification]
#[verifier::external_body]
pub struct ExMethod(reqwest::Method);

/// The prefix under which the gateway offers the controller's interface.
pub const ROUTE_PREFIX: &'static str = "/ztapi/";

/// The header that carries the controller's credential.
pub const AUTH_HEADER: &'static str = "X-ZT1-AUTH";

/// The status of the reply when the controller could not be reached.
pub const STATUS_UNREACHABLE: u16 = 400;

/// The status of the reply when the controller's answer was not JSON.
pub const STATUS_UNREADABLE: u16 = 500;

/// Where the controller listens and the credential it asks for.
#[derive(Debug)]
pub struct ZeroTier {
    pub auth_token: String,
    pub address: String,
}

/// One header of a request: its name and its value.
#[derive(Debug)]
pub struct Header {
    pub name: String,
    pub value: String,
}

/// A request to the controller, ready to be sent as it stands.
#[derive(Debug)]
pub struct UpstreamRequest {
    pub method: reqwest::Method,
    pub url: String,
    pub headers: Vec<Header>,
    pub body: Option<serde_json::Value>,
}

/// What came of sending a request to the controller.
#[derive(Debug)]
pub enum UpstreamOutcome {
    /// No answer arrived; the text says why.
    Unreachable(String),
    /// The controller answered with this status and, where its body was JSON, that body.
    Answered { status: u16, body: Option<serde_json::Value> },
}

/// The reply to the caller of the gateway.
#[derive(Debug)]
pub enum GatewayReply {
    /// The controller's own status and body, passed on untouched.
    Relayed { status: u16, body: serde_json::Value },
    /// A failure of the gateway itself, with a short reason for the caller.
    Failed { status: u16, brief: String },
}

/// The path without the gateway's prefix; a path that does not begin with the
/// prefix is left as it is.
pub open spec fn without_prefix(path: Seq<char>) -> Seq<char> {
    if ROUTE_PREFIX@.is_prefix_of(path) {
        path.skip(ROUTE_PREFIX@.len() as int)
    } else {
        path
    }
}

/// The controller's address, a slash, and the endpoint.
pub open spec fn upstream_url(address: Seq<char>, endpoint: Seq<char>) -> Seq<char> {
    address + seq!['/'] + endpoint
}

/// Whether `headers` are the two that every request to the controller
/// carries: the credential, then the content type.
pub open spec fn is_upstream_headers(headers: Seq<Header>, auth_token: Seq<char>) -> bool {
    &&& headers.len() == 2
    &&& headers[0].name@ == AUTH_HEADER@
    &&& headers[0].value@ == auth_token
    &&& headers[1].name@ == "Content-Type"@
    &&& headers[1].value@ == "application/json"@
}

/// Strips the gateway's prefix from the path of an incoming request.
pub fn upstream_endpoint(path: &str) -> (endpoint: String)
    ensures
        endpoint@ == without_prefix(path@),
{
    if has_prefix(path, ROUTE_PREFIX) {
        let prefix_len = ROUTE_PREFIX.unicode_len();
        skip_chars(path, prefix_len)
    } else {
        path.to_owned()
    }
}

impl ZeroTier {
    /// A controller with neither address nor credential.
    pub fn new() -> (zerotier: Self)
        ensures
            zerotier.auth_token@ == Seq::<char>::empty(),
            zerotier.address@ == Seq::<char>::empty(),
    {
        ZeroTier { auth_token: String::new(), address: String::new() }
    }

    /// Takes over the address and the credential of `zerotier`.
    pub fn init(&mut self, zerotier: &ZeroTier)
        ensures
            final(self).auth_token@ == zerotier.auth_token@,
            final(self).address@ == zerotier.address@,
    {
        self.auth_token = zerotier.auth_token.clone();
        self.address = zerotier.address.clone();
    }

    /// Describes the request that relays a call of `endpoint` to the
    /// controller: the same method, the same body if there is one, the
    /// controller's credential and the JSON content type.
    pub fn forward(
        &self,
        endpoint: &str,
        method: reqwest::Method,
        body: Option<serde_json::Value>,
    ) -> (request: UpstreamRequest)
        ensures
            request.url@ == upstream_url(self.address@, endpoint@),
            request.method == method,
            request.body == body,
            is_upstream_headers(request.headers@, self.auth_token@),
    {
        proof {
            reveal_strlit("/");
        }
        let url = self.address.clone().concat("/").concat(endpoint);
        let mut headers: Vec<Header> = Vec::new();
        headers.push(Header { name: AUTH_HEADER.to_owned(), value: self.auth_token.clone() });
        headers.push(
            Header { name: "Content-Type".to_owned(), value: "application/json".to_owned() },
        );
        UpstreamRequest { method, url, headers, body }
    }
}

impl Default for ZeroTier {
    /// A controller with neither address nor credential.
    fn default() -> (zerotier: Self)
        ensures
            zerotier.auth_token@ == Seq::<char>::empty(),
            zerotier.address@ == Seq::<char>::empty(),
    {
        ZeroTier::new()
    }
}

/// Describes the request that relays an incoming request to the controller:
/// the path loses the gateway's prefix, the rest is as `ZeroTier::forward`
/// says.
pub fn forward_to_zt(
    zerotier: &ZeroTier,
    path: &str,
    method: reqwest::Method,
    body: Option<serde_json::Value>,
) -> (request: UpstreamRequest)
    ensures
        request.url@ == upstream_url(zerotier.address@, without_prefix(path@)),
        request.method == method,
        request.body == body,
        is_upstream_headers(request.headers@, zerotier.auth_token@),
{
    let endpoint = upstream_endpoint(path);
    zerotier.forward(endpoint.as_str(), method, body)
}

/// Turns the outcome of a request to the controller into the reply to the
/// caller. An answer with a JSON body is passed on with its status, whatever
/// the status is. No answer, or an answer that is not JSON, becomes a failure.
pub fn relay(outcome: UpstreamOutcome) -> (reply: GatewayReply)
    ensures
        match outcome {
            UpstreamOutcome::Unreachable(reason) => reply == (GatewayReply::Failed {
                status: STATUS_UNREACHABLE,
                brief: reason,
            }),
            UpstreamOutcome::Answered { status, body: Some(body) } => reply
                == (GatewayReply::Relayed { status, body }),
            UpstreamOutcome::Answered { status, body: None } => reply matches GatewayReply::Failed {
                status: failure,
                brief,
            } && failure == STATUS_UNREADABLE && brief@ == "Failed to parse response"@,
        },
{
    match outcome {
        UpstreamOutcome::Unreachable(reason) => GatewayReply::Failed {
            status: STATUS_UNREACHABLE,
            brief: reason,
        },
        UpstreamOutcome::Answered { status, body: Some(body) } => GatewayReply::Relayed {
            status,
            body,
        },
        UpstreamOutcome::Answered { status: _, body: None } => GatewayReply::Failed {
            status: STATUS_UNREADABLE,
            brief: "Failed to parse response".to_owned(),
        },
    }
}

} // verus!
