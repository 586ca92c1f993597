//! The session and forwarding core of a small web gateway that stands in
//! front of a local network controller.
//!
//! The gateway lets one administrator log in, keeps their sessions alive while
//! they are used, and relays their requests to the controller with the
//! controller's own credential. This crate decides; it performs no input or
//! output. A program around it reads each request, asks
//! [`gateway::Gateway::handle`] what to do, and does it.
//!
//! - [`session`]: the session store and sliding expiration
//! - [`token`]: how a session token is made
//! - [`config`]: the configuration and the credential record
//! - [`json`]: reading the members of a request body
//! - [`api`]: the guard and the handlers for login, logout, check and profile update
//! - [`zerotier`]: the request to the controller and the reply to the caller
//! - [`statics`]: the bundled front end
//! - [`gateway`]: the routes, and the way of a request through guard and handler
//! - [`text`]: comparing and cutting text

pub mod api;
pub mod config;
pub mod gateway;
pub mod json;
pub mod session;
pub mod statics;
pub mod text;
pub mod token;
pub mod zerotier;
