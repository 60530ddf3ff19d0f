//! Client core for the Capital.com trading REST API.
//!
//! The library owns the session state of a client (credentials, session
//! tokens, the time of the last request, the active account) and decides,
//! for every logical operation, whether it may be sent and what exactly is
//! sent. Sending and receiving bytes is left to the caller: the library
//! describes each outgoing call as a [`request::Request`] and takes the
//! transport's answer back as a [`request::Response`].
use vstd::prelude::*;

pub mod credentials;
pub mod datetime;
pub mod endpoint;
pub mod enums;
pub mod error;
pub mod json;
pub mod keeper;
pub mod laws;
pub mod rate_gate;
pub mod request;
pub mod request_bodies;
pub mod responses;
pub mod session;
pub mod text;

pub use datetime::UtcDateTime;
pub use endpoint::{CapitalDotComApiEndpoints, SessionType};
pub use enums::{Direction, Resolution};
pub use error::CapitalDotComError;
pub use keeper::{keeper_step, KeeperAction};
pub use request::{Method, Operation, Request, Response};
pub use session::AccountSession;

verus! {

} // verus!
