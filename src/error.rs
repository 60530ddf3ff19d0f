//! The errors of every operation of the client.
use vstd::prelude::*;

use crate::responses::APIError;

verus! {

#[verifier::external_type_specification]
#[verifier::external_body]
pub struct ExFromUtf8Error(std::string::FromUtf8Error);

#[derive(Debug)]
pub enum CapitalDotComError {
    /// The transport could not deliver the request or read the answer; the
    /// transport's own description of the failure.
    ReqwestError(String),
    /// A payload could not be encoded or decoded as JSON.
    JsonError(serde_json::Error),
    /// The API answered with a status other than 200: the status, the
    /// structured error if the body holds one, and the body as received.
    StatusCode(u16, Option<APIError>, String),
    HeaderNotFound,
    /// Bytes that were expected to be UTF-8 text were not.
    FromUtf8Error(std::string::FromUtf8Error),
    /// More instrument identifiers than one market search may carry.
    TooManyParameters,
    Unauthorized,
    /// An operation that needs a session was asked for without one.
    MissingAuthorization,
    /// The previous request was sent too recently: the milliseconds since it.
    RequestingTooFast(i64),
    /// The accounts list holds no account with the active account's id.
    CurrentAccountNotFound,
    /// A switch to the account that is already active.
    NotDifferentAccountId,
}

} // verus!
