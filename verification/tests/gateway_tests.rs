use include_dir::{Dir, DirEntry, File};
use zt_gateway::api::RejectionBody;
use zt_gateway::config::{AppConfig, Info, DEFAULT_PASSWORD_HASH};
use zt_gateway::gateway::{Gateway, Inbound, Route, Step};
use zt_gateway::statics::StaticReply;
use zt_gateway::zerotier::{
    forward_to_zt, relay, upstream_endpoint, GatewayReply, UpstreamOutcome, ZeroTier, AUTH_HEADER,
    ROUTE_PREFIX, STATUS_UNREACHABLE, STATUS_UNREADABLE,
};

fn gateway(rejection: RejectionBody) -> Gateway {
    Gateway::new(
        AppConfig {
            info: Info::initial(),
            listen: "127.0.0.1:5800".to_string(),
            zerotier: ZeroTier {
                auth_token: "secret".to_string(),
                address: "http://127.0.0.1:9993".to_string(),
            },
        },
        rejection,
    )
}

fn inbound(route: Route, cookie: Option<&str>, body: Option<&str>, path: &str) -> Inbound {
    Inbound {
        route,
        cookie: cookie.map(|c| c.to_string()),
        body: body.map(|b| serde_json::from_str(b).unwrap()),
        path: path.to_string(),
        method: reqwest::Method::POST,
    }
}

fn reply_of(step: Step) -> zt_gateway::api::Reply {
    match step {
        Step::Answer(reply) => reply,
        Step::Save(reply) => reply,
        _ => panic!("an answer was expected"),
    }
}

fn log_in(gateway: &mut Gateway, now: u64) -> String {
    let bundle = Dir::new("", &[]);
    let body = r#"{"username":"admin","password":"password"}"#;
    let reply = reply_of(gateway.handle(inbound(Route::Login, None, Some(body), "/api/login"), &bundle, now));
    match reply.cookie {
        Some(cookie) => cookie.value,
        None => panic!("the login succeeds"),
    }
}

#[test]
fn zerotier_new_is_empty() {
    let zerotier = ZeroTier::new();
    assert_eq!(zerotier.auth_token, "");
    assert_eq!(zerotier.address, "");
}

#[test]
fn zerotier_default_is_empty() {
    let zerotier = ZeroTier::default();
    assert_eq!(zerotier.auth_token, "");
    assert_eq!(zerotier.address, "");
}

#[test]
fn forward_to_zt_strips_the_prefix_and_forwards() {
    let zerotier = ZeroTier { auth_token: "secret".to_string(), address: "http://localhost:9993".to_string() };
    let request = forward_to_zt(&zerotier, "/ztapi/peer", reqwest::Method::DELETE, None);
    assert_eq!(request.url, "http://localhost:9993/peer");
    assert_eq!(request.method, reqwest::Method::DELETE);
    assert!(request.body.is_none());
    assert_eq!(request.headers[0].value, "secret");
    let odd = forward_to_zt(&zerotier, "/elsewhere", reqwest::Method::GET, None);
    assert_eq!(odd.url, "http://localhost:9993//elsewhere");
}

#[test]
fn gateway_takes_the_controller_from_its_configuration() {
    let gateway = gateway(RejectionBody::Empty);
    assert_eq!(gateway.zerotier.address, "http://127.0.0.1:9993");
    assert_eq!(gateway.zerotier.auth_token, "secret");
    assert_eq!(gateway.config.zerotier.address, "http://127.0.0.1:9993");
}

#[test]
fn zerotier_init_takes_over_both_fields() {
    let mut zerotier = ZeroTier::new();
    zerotier.init(&ZeroTier { auth_token: "test_token".to_string(), address: "12312".to_string() });
    assert_eq!(zerotier.auth_token, "test_token");
    assert_eq!(zerotier.address, "12312");
}

#[test]
fn endpoint_is_the_path_without_the_prefix() {
    assert_eq!(ROUTE_PREFIX, "/ztapi/");
    assert_eq!(upstream_endpoint("/ztapi/status"), "status");
    assert_eq!(upstream_endpoint("/ztapi/controller/network/abc"), "controller/network/abc");
    assert_eq!(upstream_endpoint("/ztapi/"), "");
}

#[test]
fn only_the_leading_prefix_is_stripped() {
    assert_eq!(upstream_endpoint("/ztapi/a/ztapi/b"), "a/ztapi/b");
    assert_eq!(upstream_endpoint("/other/ztapi/b"), "/other/ztapi/b");
    assert_eq!(upstream_endpoint("/ztapi"), "/ztapi");
    assert_eq!(upstream_endpoint(""), "");
}

#[test]
fn forward_describes_the_upstream_request() {
    let zerotier = ZeroTier { auth_token: "secret".to_string(), address: "http://127.0.0.1:9993".to_string() };
    let body: serde_json::Value = serde_json::from_str(r#"{"name":"net"}"#).unwrap();
    let request = zerotier.forward("controller/network", reqwest::Method::POST, Some(body.clone()));
    assert_eq!(request.url, "http://127.0.0.1:9993/controller/network");
    assert_eq!(request.method, reqwest::Method::POST);
    assert_eq!(request.body, Some(body));
    assert_eq!(request.headers.len(), 2);
    assert_eq!(request.headers[0].name, "X-ZT1-AUTH");
    assert_eq!(request.headers[0].name, AUTH_HEADER);
    assert_eq!(request.headers[0].value, "secret");
    assert_eq!(request.headers[1].name, "Content-Type");
    assert_eq!(request.headers[1].value, "application/json");
}

#[test]
fn forward_without_body_sends_none() {
    let zerotier = ZeroTier { auth_token: "t".to_string(), address: "a".to_string() };
    let request = zerotier.forward("status", reqwest::Method::GET, None);
    assert_eq!(request.url, "a/status");
    assert_eq!(request.method, reqwest::Method::GET);
    assert!(request.body.is_none());
}

#[test]
fn unreachable_upstream_is_a_failure_with_the_reason() {
    let reply = relay(UpstreamOutcome::Unreachable("connection refused".to_string()));
    match reply {
        GatewayReply::Failed { status, brief } => {
            assert_eq!(status, 400);
            assert_eq!(status, STATUS_UNREACHABLE);
            assert_ne!(status, 200);
            assert_eq!(brief, "connection refused");
        }
        GatewayReply::Relayed { .. } => panic!("nothing was there to relay"),
    }
}

#[test]
fn forward_to_status_with_no_upstream_fails() {
    let mut gateway = gateway(RejectionBody::Empty);
    let token = log_in(&mut gateway, 1);
    let bundle = Dir::new("", &[]);
    let mut request = inbound(Route::Forward, Some(&token), None, "/ztapi/status");
    request.method = reqwest::Method::GET;
    let step = gateway.handle(request, &bundle, 2);
    match step {
        Step::Forward(request) => {
            assert_eq!(request.url, "http://127.0.0.1:9993/status");
            assert_eq!(request.method, reqwest::Method::GET);
        }
        _ => panic!("the request is forwarded"),
    }
    // nobody listens: the one who sends reports it
    match relay(UpstreamOutcome::Unreachable("error sending request".to_string())) {
        GatewayReply::Failed { status, brief } => {
            assert!(status >= 400);
            assert_eq!(brief, "error sending request");
        }
        GatewayReply::Relayed { .. } => panic!("a failure must not look like an answer"),
    }
}

#[test]
fn upstream_answer_is_relayed_untouched() {
    let body: serde_json::Value = serde_json::from_str(r#"{"online":true,"version":"1.12.2"}"#).unwrap();
    match relay(UpstreamOutcome::Answered { status: 200, body: Some(body.clone()) }) {
        GatewayReply::Relayed { status, body: relayed } => {
            assert_eq!(status, 200);
            assert_eq!(relayed, body);
        }
        GatewayReply::Failed { .. } => panic!("the answer is relayed"),
    }
    match relay(UpstreamOutcome::Answered { status: 404, body: Some(serde_json::Value::Null) }) {
        GatewayReply::Relayed { status, body: relayed } => {
            assert_eq!(status, 404);
            assert_eq!(relayed, serde_json::Value::Null);
        }
        GatewayReply::Failed { .. } => panic!("an upstream error is relayed as it is"),
    }
}

#[test]
fn upstream_answer_that_is_no_json_is_a_failure() {
    match relay(UpstreamOutcome::Answered { status: 200, body: None }) {
        GatewayReply::Failed { status, brief } => {
            assert_eq!(status, 500);
            assert_eq!(status, STATUS_UNREADABLE);
            assert_eq!(brief, "Failed to parse response");
        }
        GatewayReply::Relayed { .. } => panic!("nothing readable was there to relay"),
    }
}

#[test]
fn routes_follow_method_and_path() {
    assert_eq!(Route::of("POST", "/api/login"), Some(Route::Login));
    assert_eq!(Route::of("GET", "/api/logout"), Some(Route::Logout));
    assert_eq!(Route::of("GET", "/api/check"), Some(Route::Check));
    assert_eq!(Route::of("POST", "/api/editprofile"), Some(Route::EditProfile));
    assert_eq!(Route::of("GET", "/ztapi/status"), Some(Route::Forward));
    assert_eq!(Route::of("DELETE", "/ztapi/controller/network/1"), Some(Route::Forward));
    assert_eq!(Route::of("GET", "/"), Some(Route::Asset));
    assert_eq!(Route::of("GET", "/assets/app.js"), Some(Route::Asset));
}

#[test]
fn wrong_method_on_a_local_route_is_no_local_route() {
    assert_eq!(Route::of("GET", "/api/login"), Some(Route::Asset));
    assert_eq!(Route::of("GET", "/api/editprofile"), Some(Route::Asset));
    assert_eq!(Route::of("POST", "/api/logout"), None);
    assert_eq!(Route::of("POST", "/api/check"), None);
    assert_eq!(Route::of("POST", "/"), None);
    assert_eq!(Route::of("get", "/"), None);
    assert_eq!(Route::of("POST", "/ztapi"), None);
}

#[test]
fn guard_stands_before_all_but_login_and_assets() {
    assert!(!Route::Login.auth_required());
    assert!(!Route::Asset.auth_required());
    assert!(Route::Logout.auth_required());
    assert!(Route::Check.auth_required());
    assert!(Route::EditProfile.auth_required());
    assert!(Route::Forward.auth_required());
}

#[test]
fn new_gateway_has_no_session() {
    let gateway = gateway(RejectionBody::JsonEnvelope);
    assert_eq!(gateway.sessions.len(), 0);
    assert_eq!(gateway.sessions.ttl_ms(), 604_800_000);
    assert_eq!(gateway.rejection, RejectionBody::JsonEnvelope);
    assert_eq!(gateway.config.info.username, "admin");
}

#[test]
fn editprofile_without_session_is_rejected_and_changes_nothing() {
    let mut gateway = gateway(RejectionBody::Empty);
    let bundle = Dir::new("", &[]);
    let body = r#"{"username":"intruder","password":"owned"}"#;
    for cookie in [None, Some("guess"), Some("")] {
        let reply = reply_of(gateway.handle(inbound(Route::EditProfile, cookie, Some(body), "/api/editprofile"), &bundle, 5));
        assert_eq!(reply.status, 401);
        assert!(reply.skip_rest);
        assert!(reply.body.is_none());
        assert!(reply.cookie.is_none());
    }
    assert_eq!(gateway.config.info.username, "admin");
    assert_eq!(gateway.config.info.password, DEFAULT_PASSWORD_HASH);
    assert!(gateway.config.verify("admin", "password"));
}

#[test]
fn editprofile_with_session_changes_the_password() {
    let mut gateway = gateway(RejectionBody::Empty);
    let bundle = Dir::new("", &[]);
    let token = log_in(&mut gateway, 1);
    let body = r#"{"username":"admin","password":"better"}"#;
    let reply = reply_of(gateway.handle(inbound(Route::EditProfile, Some(&token), Some(body), "/api/editprofile"), &bundle, 2));
    assert_eq!(reply.status, 204);
    let new = r#"{"username":"admin","password":"better"}"#;
    let old = r#"{"username":"admin","password":"password"}"#;
    let with_new = reply_of(gateway.handle(inbound(Route::Login, None, Some(new), "/api/login"), &bundle, 3));
    assert_eq!(with_new.status, 204);
    assert!(with_new.cookie.is_some());
    let with_old = reply_of(gateway.handle(inbound(Route::Login, None, Some(old), "/api/login"), &bundle, 3));
    assert_eq!(with_old.status, 401);
    assert!(with_old.cookie.is_none());
    // the session that made the change is still good
    let check = reply_of(gateway.handle(inbound(Route::Check, Some(&token), None, "/api/check"), &bundle, 4));
    assert_eq!(check.status, 204);
}

#[test]
fn only_an_update_that_succeeded_asks_to_save() {
    let mut gateway = gateway(RejectionBody::Empty);
    let bundle = Dir::new("", &[]);
    let token = log_in(&mut gateway, 1);
    let good = r#"{"username":"admin","password":"better"}"#;
    let step = gateway.handle(inbound(Route::EditProfile, Some(&token), Some(good), "/api/editprofile"), &bundle, 2);
    assert!(matches!(&step, Step::Save(reply) if reply.status == 204));
    let bad = r#"{"username":"admin"}"#;
    let step = gateway.handle(inbound(Route::EditProfile, Some(&token), Some(bad), "/api/editprofile"), &bundle, 3);
    assert!(matches!(&step, Step::Answer(reply) if reply.status == 400));
    let step = gateway.handle(inbound(Route::EditProfile, None, Some(good), "/api/editprofile"), &bundle, 4);
    assert!(matches!(&step, Step::Answer(reply) if reply.status == 401));
    let step = gateway.handle(inbound(Route::Check, Some(&token), None, "/api/check"), &bundle, 5);
    assert!(matches!(&step, Step::Answer(reply) if reply.status == 204));
    let login = r#"{"username":"admin","password":"better"}"#;
    let step = gateway.handle(inbound(Route::Login, None, Some(login), "/api/login"), &bundle, 6);
    assert!(matches!(&step, Step::Answer(reply) if reply.status == 204));
}

#[test]
fn bodies_are_read_where_a_handler_wants_them() {
    assert!(Route::Login.reads_body());
    assert!(Route::EditProfile.reads_body());
    assert!(Route::Forward.reads_body());
    assert!(!Route::Logout.reads_body());
    assert!(!Route::Check.reads_body());
    assert!(!Route::Asset.reads_body());
}

#[test]
fn expired_session_is_rejected_on_every_guarded_route() {
    let bundle = Dir::new("", &[]);
    for route in [Route::Logout, Route::Check, Route::EditProfile, Route::Forward] {
        let mut gateway = gateway(RejectionBody::JsonEnvelope);
        let token = log_in(&mut gateway, 0);
        let late = 604_800_001;
        let reply = reply_of(gateway.handle(inbound(route, Some(&token), None, "/ztapi/status"), &bundle, late));
        assert_eq!(reply.status, 401);
        assert!(reply.skip_rest);
        assert_eq!(reply.body, Some(r#"{"error":"unauthorized"}"#.to_string()));
        assert_eq!(gateway.sessions.len(), 0);
    }
}

#[test]
fn check_with_session_renews_it() {
    let mut gateway = gateway(RejectionBody::Empty);
    let bundle = Dir::new("", &[]);
    let token = log_in(&mut gateway, 10);
    let reply = reply_of(gateway.handle(inbound(Route::Check, Some(&token), None, "/api/check"), &bundle, 500));
    assert_eq!(reply.status, 204);
    assert_eq!(gateway.sessions.entry(&token).map(|e| (e.issued_at, e.last_seen_at)), Some((10, 500)));
}

#[test]
fn logout_through_the_gateway_ends_the_session() {
    let mut gateway = gateway(RejectionBody::Empty);
    let bundle = Dir::new("", &[]);
    let token = log_in(&mut gateway, 1);
    let out = reply_of(gateway.handle(inbound(Route::Logout, Some(&token), None, "/api/logout"), &bundle, 2));
    assert_eq!(out.status, 204);
    assert_eq!(gateway.sessions.len(), 0);
    let check = reply_of(gateway.handle(inbound(Route::Check, Some(&token), None, "/api/check"), &bundle, 3));
    assert_eq!(check.status, 401);
    let again = reply_of(gateway.handle(inbound(Route::Logout, Some(&token), None, "/api/logout"), &bundle, 4));
    assert_eq!(again.status, 401);
}

#[test]
fn login_needs_no_session() {
    let mut gateway = gateway(RejectionBody::Empty);
    let bundle = Dir::new("", &[]);
    let bad = reply_of(gateway.handle(inbound(Route::Login, None, Some(r#"{"username":"admin","password":"wrong"}"#), "/api/login"), &bundle, 1));
    assert_eq!(bad.status, 401);
    assert!(!bad.skip_rest);
    let none = reply_of(gateway.handle(inbound(Route::Login, None, None, "/api/login"), &bundle, 1));
    assert_eq!(none.status, 400);
    assert_eq!(gateway.sessions.len(), 0);
}

#[test]
fn forward_through_the_gateway_keeps_method_and_body() {
    let mut gateway = gateway(RejectionBody::Empty);
    let bundle = Dir::new("", &[]);
    let token = log_in(&mut gateway, 1);
    let body = r#"{"config":{"name":"lan"}}"#;
    let step = gateway.handle(inbound(Route::Forward, Some(&token), Some(body), "/ztapi/controller/network/1"), &bundle, 2);
    match step {
        Step::Forward(request) => {
            assert_eq!(request.url, "http://127.0.0.1:9993/controller/network/1");
            assert_eq!(request.method, reqwest::Method::POST);
            assert_eq!(request.body, Some(serde_json::from_str::<serde_json::Value>(body).unwrap()));
            assert_eq!(request.headers[0].name, "X-ZT1-AUTH");
            assert_eq!(request.headers[0].value, "secret");
        }
        _ => panic!("the request is forwarded"),
    }
}

#[test]
fn forward_without_session_sends_nothing() {
    let mut gateway = gateway(RejectionBody::Empty);
    let bundle = Dir::new("", &[]);
    let step = gateway.handle(inbound(Route::Forward, None, None, "/ztapi/status"), &bundle, 2);
    assert_eq!(reply_of(step).status, 401);
}

#[test]
fn assets_need_no_session() {
    let mut gateway = gateway(RejectionBody::Empty);
    let entries = [DirEntry::File(File::new("index.html", b"<html></html>"))];
    let bundle = Dir::new("", &entries);
    match gateway.handle(inbound(Route::Asset, None, None, "/"), &bundle, 1) {
        Step::Serve(StaticReply::Asset { content_type, body }) => {
            assert_eq!(content_type, Some("text/html".to_string()));
            assert_eq!(body, b"<html></html>".to_vec());
        }
        _ => panic!("the root page is served"),
    }
    assert_eq!(gateway.sessions.len(), 0);
}
