//! The request dispatcher: the state of one client, what each operation
//! sends, and what each answer does to the state.
use vstd::prelude::*;

use crate::credentials::{
    header_value, SessionTokens, API_KEY_HEADER, CST_HEADER, SECURITY_TOKEN_HEADER,
};
use crate::error::CapitalDotComError;
use crate::json::json_string_member;
use crate::rate_gate::RateGate;
use crate::request::{Operation, Request, RequestView, Response};
use crate::request_bodies::{
    create_session_json, switch_account_json, CreateSessionBody, SwitchActiveAccountBody,
};
use crate::responses::{APIError, DealReferenceResponse, ERROR_CODE_MEMBER};

verus! {

pub const CONTENT_TYPE_HEADER: &'static str = "Content-Type";

pub const JSON_CONTENT_TYPE: &'static str = "application/json";

/// Which of the two servers a client talks to.
#[derive(Debug, Clone, Copy, PartialEq, Eq, Structural)]
pub enum SessionType {
    Live,
    Demo,
}

impl SessionType {
    pub open spec fn base_url(self) -> Seq<char> {
        match self {
            SessionType::Live => "https://api-capital.backend-capital.com"@,
            SessionType::Demo => "https://demo-api-capital.backend-capital.com"@,
        }
    }
}

/// The structured error that a non-200 body holds, as a status error carries it.
pub open spec fn api_error_matches(api_error: Option<APIError>, body: Seq<char>) -> bool {
    match api_error {
        Some(e) => json_string_member(body, ERROR_CODE_MEMBER@) == Some(e.error_code@),
        None => json_string_member(body, ERROR_CODE_MEMBER@) is None,
    }
}

/// The error for an answer with a status other than 200.
pub open spec fn is_status_error(e: CapitalDotComError, status: u16, body: Seq<char>) -> bool {
    e matches CapitalDotComError::StatusCode(s, api_error, raw) && s == status && raw@ == body
        && api_error_matches(api_error, body)
}

/// The state of a client, as its contracts see it.
pub struct EndpointsView {
    pub base_url: Seq<char>,
    pub x_cap_api_key: Seq<char>,
    pub identifier: Seq<char>,
    pub password: Seq<char>,
    pub x_security_token: Seq<char>,
    pub cst: Seq<char>,
    pub last_request_ms: Option<i64>,
}

impl EndpointsView {
    pub open spec fn is_authenticated(self) -> bool {
        self.x_security_token.len() > 0 || self.cst.len() > 0
    }

    pub open spec fn gate(self) -> RateGate {
        RateGate { last_request_ms: self.last_request_ms }
    }

    /// The JSON body that the client writes for an operation.
    pub open spec fn body_for(self, op: Operation) -> Option<Seq<char>> {
        match op {
            Operation::CreateSession => Some(create_session_json(self.identifier, self.password)),
            Operation::SwitchAccount { account_id } => Some(switch_account_json(account_id@)),
            Operation::OpenPosition { body } => Some(body@),
            Operation::UpdatePosition { body, .. } => Some(body@),
            _ => None,
        }
    }

    /// The headers of an operation: the API key for the calls that open a
    /// session, the session tokens for the others that need them, and the
    /// content type where there is a body.
    pub open spec fn headers_for(self, op: Operation, has_body: bool) -> Seq<
        (Seq<char>, Seq<char>),
    > {
        let base = if op is ServerTime {
            Seq::empty()
        } else if op is EncryptionKey || op is CreateSession {
            seq![(API_KEY_HEADER@, self.x_cap_api_key)]
        } else {
            seq![(SECURITY_TOKEN_HEADER@, self.x_security_token), (CST_HEADER@, self.cst)]
        };
        if has_body {
            base.push((CONTENT_TYPE_HEADER@, JSON_CONTENT_TYPE@))
        } else {
            base
        }
    }

    /// The call that carries `op` with the body `body`.
    pub open spec fn request_with_body(self, op: Operation, body: Option<Seq<char>>) -> RequestView {
        RequestView {
            method: op.spec_method(),
            url: self.base_url + op.spec_path(),
            query: op.spec_query(),
            headers: self.headers_for(op, body is Some),
            body: body,
        }
    }

    /// The call that carries `op`.
    pub open spec fn request_for(self, op: Operation) -> RequestView {
        self.request_with_body(op, self.body_for(op))
    }

    /// The fields that no answer changes.
    pub open spec fn same_settings(self, other: Self) -> bool {
        &&& self.base_url == other.base_url
        &&& self.x_cap_api_key == other.x_cap_api_key
        &&& self.identifier == other.identifier
        &&& self.password == other.password
    }
}

/// Everything a client keeps between requests: where it sends them, the
/// credentials of its login, the tokens of its session and the time of its
/// last request.
#[derive(Debug)]
pub struct CapitalDotComApiEndpoints {
    base_url: String,
    x_cap_api_key: String,
    identifier: String,
    password: String,
    tokens: SessionTokens,
    gate: RateGate,
}

impl View for CapitalDotComApiEndpoints {
    type V = EndpointsView;

    closed spec fn view(&self) -> EndpointsView {
        EndpointsView {
            base_url: self.base_url@,
            x_cap_api_key: self.x_cap_api_key@,
            identifier: self.identifier@,
            password: self.password@,
            x_security_token: self.tokens.x_security_token@,
            cst: self.tokens.cst@,
            last_request_ms: self.gate.last_request_ms,
        }
    }
}

impl CapitalDotComApiEndpoints {
    /// A client with no session and no request sent yet.
    pub fn new(
        session_type: SessionType,
        x_cap_api_key: String,
        identifier: String,
        password: String,
    ) -> (r: Self)
        ensures
            r@.base_url == session_type.base_url(),
            r@.x_cap_api_key == x_cap_api_key@,
            r@.identifier == identifier@,
            r@.password == password@,
            r@.x_security_token.len() == 0,
            r@.cst.len() == 0,
            r@.last_request_ms is None,
    {
        CapitalDotComApiEndpoints {
            base_url: Self::get_session_url_from_sessiontype(session_type),
            x_cap_api_key,
            identifier,
            password,
            tokens: SessionTokens::new(),
            gate: RateGate::new(),
        }
    }

    fn get_session_url_from_sessiontype(session_type: SessionType) -> (r: String)
        ensures
            r@ == session_type.base_url(),
    {
        match session_type {
            SessionType::Live => "https://api-capital.backend-capital.com".to_owned(),
            SessionType::Demo => "https://demo-api-capital.backend-capital.com".to_owned(),
        }
    }

    /// The full URL of a path.
    pub fn get_url(&self, path: &str) -> (r: String)
        ensures
            r@ == self@.base_url + path@,
    {
        let mut endpoint = self.base_url.clone();
        endpoint.append(path);
        endpoint
    }

    /// The tokens of the session.
    pub fn tokens(&self) -> (r: &SessionTokens)
        ensures
            r.x_security_token@ == self@.x_security_token,
            r.cst@ == self@.cst,
    {
        &self.tokens
    }

    /// When the last request went out.
    pub fn last_request_ms(&self) -> (r: Option<i64>)
        ensures
            r == self@.last_request_ms,
    {
        self.gate.last_request_ms
    }

    /// Fails with `MissingAuthorization` exactly when both tokens are empty.
    pub fn has_credentials(&self) -> (r: Result<(), CapitalDotComError>)
        ensures
            r is Ok <==> self@.is_authenticated(),
            r matches Err(e) ==> e is MissingAuthorization,
    {
        self.tokens.has_credentials()
    }

    /// Takes the session tokens from the headers of a login answer; a missing
    /// header leaves its token empty.
    pub fn update_auth(&mut self, headers: &Vec<(String, String)>)
        ensures
            final(self)@.x_security_token == header_value(
                headers.deep_view(),
                SECURITY_TOKEN_HEADER@,
            ),
            final(self)@.cst == header_value(headers.deep_view(), CST_HEADER@),
            final(self)@.same_settings(old(self)@),
            final(self)@.last_request_ms == old(self)@.last_request_ms,
    {
        self.tokens.update_auth(headers);
    }

    /// The call that carries `op` with the body `body`, with no check made.
    pub fn build_request(&self, op: &Operation, body: Option<String>) -> (r: Request)
        ensures
            r@ == self@.request_with_body(*op, body.deep_view()),
    {
        let has_body = body.is_some();
        let mut headers: Vec<(String, String)> = match op {
            Operation::ServerTime => Vec::new(),
            Operation::EncryptionKey | Operation::CreateSession => {
                let mut h: Vec<(String, String)> = Vec::new();
                h.push((API_KEY_HEADER.to_owned(), self.x_cap_api_key.clone()));
                h
            },
            _ => self.tokens.auth_headers(),
        };
        if has_body {
            headers.push((CONTENT_TYPE_HEADER.to_owned(), JSON_CONTENT_TYPE.to_owned()));
        }
        let path = op.path();
        let r = Request {
            method: op.method(),
            url: self.get_url(path.as_str()),
            query: op.query(),
            headers,
            body,
        };
        assert(r@.headers =~= self@.headers_for(*op, body.deep_view() is Some));
        r
    }

    /// The JSON body that the client writes for `op`, if any.
    fn body_for(&self, op: &Operation) -> (r: Result<Option<String>, CapitalDotComError>)
        ensures
            r is Ok,
            r matches Ok(b) ==> b.deep_view() == self@.body_for(*op),
    {
        match op {
            Operation::CreateSession => {
                let body = CreateSessionBody::new(self.identifier.as_str(), self.password.as_str());
                match body.to_json() {
                    Ok(t) => Ok(Some(t)),
                    Err(e) => Err(e),
                }
            },
            Operation::SwitchAccount { account_id } => {
                let body = SwitchActiveAccountBody::new(account_id.clone());
                match body.to_json() {
                    Ok(t) => Ok(Some(t)),
                    Err(e) => Err(e),
                }
            },
            Operation::OpenPosition { body } => Ok(Some(body.clone())),
            Operation::UpdatePosition { body, .. } => Ok(Some(body.clone())),
            _ => Ok(None),
        }
    }

    /// Decides whether `op` may be sent at `now_ms` and, if so, what is sent.
    /// In order: an operation that needs a session fails without one; any
    /// operation fails if it comes too soon after the last request; a market
    /// search fails with more than fifty identifiers; then the call is built.
    /// Changes nothing: the time of the request is noted by `complete`.
    pub fn prepare(&self, op: &Operation, now_ms: i64) -> (r: Result<Request, CapitalDotComError>)
        ensures
            op.requires_auth() && !self@.is_authenticated() ==> (r matches Err(e)
                && e is MissingAuthorization),
            !(op.requires_auth() && !self@.is_authenticated()) && self@.gate().too_fast(
                now_ms,
                op.min_interval(),
            ) ==> (r matches Err(e) && e matches CapitalDotComError::RequestingTooFast(d) && d
                == self@.gate().elapsed(now_ms)),
            !(op.requires_auth() && !self@.is_authenticated()) && !self@.gate().too_fast(
                now_ms,
                op.min_interval(),
            ) && op.has_too_many_parameters() ==> (r matches Err(e) && e is TooManyParameters),
            !(op.requires_auth() && !self@.is_authenticated()) && !self@.gate().too_fast(
                now_ms,
                op.min_interval(),
            ) && !op.has_too_many_parameters() ==> (r matches Ok(req) && req@ == self@.request_for(
                *op,
            )),
    {
        let needs_auth = match op {
            Operation::ServerTime | Operation::EncryptionKey | Operation::CreateSession => false,
            _ => true,
        };
        if needs_auth {
            match self.tokens.has_credentials() {
                Ok(()) => {},
                Err(e) => return Err(e),
            }
        }
        match self.gate.check_allowed(now_ms, op.min_interval_ms()) {
            Ok(()) => {},
            Err(e) => return Err(e),
        }
        match op {
            Operation::MarketSearch { epics, .. } => {
                if epics.len() > crate::request::MAX_SEARCH_EPICS {
                    return Err(CapitalDotComError::TooManyParameters);
                }
            },
            _ => {},
        }
        match self.body_for(op) {
            Ok(body) => Ok(self.build_request(op, body)),
            Err(e) => Err(e),
        }
    }

    /// The step after a position was opened at the deal reference `created`:
    /// the confirmation of that deal, and the milliseconds to wait at
    /// `now_ms` before the rate gate lets it pass.
    pub fn confirmation_after_open(
        &self,
        created: &DealReferenceResponse,
        now_ms: i64,
    ) -> (r: (Operation, i64))
        ensures
            r.0 matches Operation::OrderConfirmation { deal_reference } && deal_reference@
                == created.deal_reference@,
            r.1 == self@.gate().wait(now_ms, r.0.min_interval()),
            r.1 >= 0,
    {
        let confirm = Operation::OrderConfirmation { deal_reference: created.deal_reference.clone() };
        let wait = self.gate.wait_ms(now_ms, confirm.min_interval_ms());
        (confirm, wait)
    }

    /// What an answer with status `status` and body `body` yields: the body
    /// for status 200; otherwise a `StatusCode` error with the status, the
    /// structured error if the body holds one, and the body as received.
    pub fn get_body(status: u16, body: String) -> (r: Result<String, CapitalDotComError>)
        ensures
            status == 200 ==> (r matches Ok(b) && b@ == body@),
            status != 200 ==> (r matches Err(e) && is_status_error(e, status, body@)),
    {
        if status == 200 {
            Ok(body)
        } else {
            let api_error = APIError::from_json(body.as_str());
            Err(CapitalDotComError::StatusCode(status, api_error, body))
        }
    }

    /// Takes the transport's outcome, at `now_ms`, for a call that `prepare`
    /// built. A transport failure changes nothing and is returned as
    /// `ReqwestError`. An answer, whatever its status, notes `now_ms` as the
    /// time of the last request; a 200 answer yields its headers and body.
    /// The session tokens stay as they were: a login takes its tokens with
    /// `update_auth`, once its body has been decoded.
    pub fn complete(
        &mut self,
        outcome: Result<Response, String>,
        now_ms: i64,
    ) -> (r: Result<(Vec<(String, String)>, String), CapitalDotComError>)
        ensures
            final(self)@.same_settings(old(self)@),
            match outcome {
                Err(m) => {
                    &&& final(self)@ == old(self)@
                    &&& r matches Err(e) && e matches CapitalDotComError::ReqwestError(t) && t@
                        == m@
                },
                Ok(resp) => {
                    &&& final(self)@.last_request_ms == Some(now_ms)
                    &&& resp.status == 200 ==> (r matches Ok((h, b)) && h.deep_view()
                        == resp.headers.deep_view() && b@ == resp.body@)
                    &&& resp.status != 200 ==> (r matches Err(e) && is_status_error(
                        e,
                        resp.status,
                        resp.body@,
                    ))
                    &&& final(self)@.x_security_token == old(self)@.x_security_token
                    &&& final(self)@.cst == old(self)@.cst
                },
            },
    {
        match outcome {
            Err(m) => Err(CapitalDotComError::ReqwestError(m)),
            Ok(resp) => {
                self.gate.record(now_ms);
                let Response { status, headers, body } = resp;
                match Self::get_body(status, body) {
                    Ok(b) => Ok((headers, b)),
                    Err(e) => Err(e),
                }
            },
        }
    }
}

} // verus!
