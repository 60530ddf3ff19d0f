//! Response payloads of the API that carry no prices.
//!
//! Payloads with prices and sizes are decoded by the caller; the library only
//! needs the ones below, and the account identifiers of an accounts list.
#![allow(non_camel_case_types)]

use vstd::prelude::*;

use crate::enums;
use crate::json::{json_string_member, read_json_string_member};

verus! {

/// The structured error body the API sends with a non-200 status.
#[derive(Debug, Clone)]
pub struct APIError {
    pub error_code: String,
}

#[derive(Debug, Clone)]
pub struct ServerTimeResponse {
    pub server_time: i64,
}

#[derive(Debug, Clone)]
pub struct PingResponse {
    pub status: Status,
}

#[derive(Debug, Clone)]
pub struct EncryptionKeyResponse {
    pub encryption_key: String,
    pub time_stamp: i64,
}

#[derive(Debug, Clone)]
pub struct SessionDetailsResponse {
    pub client_id: String,
    pub account_id: String,
    pub timezone_offset: i8,
    pub locale: enums::Locale,
    pub currency: enums::Currency,
    pub stream_endpoint: String,
}

#[derive(Debug, Clone)]
pub struct SwitchAccountResponse {
    pub trailing_stops_enabled: bool,
    pub dealing_enabled: bool,
    pub has_active_demo_accounts: bool,
    pub has_active_live_accounts: bool,
}

#[derive(Debug, Clone)]
pub struct SessionLogOutResponse {
    pub status: String,
}

#[derive(Debug, Clone)]
pub struct AffectedDeal {
    pub deal_id: String,
    pub status: Status,
}

#[derive(Debug, Clone)]
pub struct DealReferenceResponse {
    pub deal_reference: String,
}

#[derive(Debug, Clone)]
pub struct Snapshot {
    pub market_status: MarketStatus,
}

#[derive(Debug, Clone)]
pub struct OpeningHours {
    pub mon: Vec<String>,
    pub tue: Vec<String>,
    pub wed: Vec<String>,
    pub thu: Vec<String>,
    pub fri: Vec<String>,
    pub sat: Vec<String>,
    pub sun: Vec<String>,
    pub zone: enums::TimeZone,
}

#[derive(Debug, Clone, Copy, PartialEq, Eq, Structural)]
pub enum MarketStatus {
    TRADEABLE,
    CLOSED,
}

#[derive(Debug, Clone, Copy, PartialEq, Eq, Structural)]
pub enum Status {
    OPEN,
    OPENED,
    PENDING,
}

#[derive(Debug, Clone, Copy, PartialEq, Eq, Structural)]
pub enum DealStatus {
    ACCEPTED,
}

} // verus!

verus! {

/// The member of an error body that names the error.
pub const ERROR_CODE_MEMBER: &'static str = "errorCode";

impl APIError {
    /// The structured error that a response body holds: the string member
    /// `errorCode` of the JSON object; `None` where the body holds none.
    /// Only the object form is read: an array body is no structured error,
    /// and of a repeated `errorCode` member the last one counts.
    pub fn from_json(text: &str) -> (r: Option<APIError>)
        ensures
            match r {
                Some(e) => json_string_member(text@, ERROR_CODE_MEMBER@) == Some(e.error_code@),
                None => json_string_member(text@, ERROR_CODE_MEMBER@) is None,
            },
    {
        match read_json_string_member(text, ERROR_CODE_MEMBER) {
            Some(code) => Some(APIError { error_code: code }),
            None => None,
        }
    }
}

} // verus!
