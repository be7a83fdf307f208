//! Client for a discovery gateway: announce a named service on a port, look up
//! the hosts that announce a service.
//!
//! This crate holds the client's rules: how requests are built, how responses
//! are decoded and validated, when an attempt is repeated, and which services
//! are being announced. Sending bytes, sleeping and running background tasks
//! are left to the caller, which performs the actions that the functions here
//! decide on.

pub mod client;
pub mod error;
pub mod escape;
pub mod hosts;
pub mod json;
pub mod payload;
pub mod request;
pub mod retry;
pub mod task;

pub use client::GrenacheClient;
pub use error::{Error, ErrorKind};
pub use json::{decode_response, JsonMember, JsonTree, JsonValue};
pub use request::{JsonPostRequest, CONTENT_TYPE};
pub use retry::{RetryStep, LOOKUP_RETRY_PERIOD};
pub use task::{
    AnnounceMessage, AnnounceTask, TaskStep, ANNOUNCE_RETRY_PERIOD, REANNOUNCE_PERIOD,
};
