//! Request bodies the library writes itself, as JSON text.
use vstd::prelude::*;

use crate::error::CapitalDotComError;
use crate::json::{json_string_literal, quote_json};

verus! {

/// The body of a login: the account's identifier and the API key's password.
#[derive(Debug, Clone)]
pub struct CreateSessionBody {
    pub identifier: String,
    pub password: String,
}

/// The JSON text of a login body.
pub open spec fn create_session_json(identifier: Seq<char>, password: Seq<char>) -> Seq<char> {
    "{\"identifier\":"@ + json_string_literal(identifier) + ",\"password\":"@
        + json_string_literal(password) + "}"@
}

impl CreateSessionBody {
    pub fn new(identifier: &str, password: &str) -> (r: Self)
        ensures
            r.identifier@ == identifier@,
            r.password@ == password@,
    {
        CreateSessionBody { identifier: identifier.to_owned(), password: password.to_owned() }
    }

    /// The body as a JSON object with the members `identifier` and `password`.
    pub fn to_json(&self) -> (r: Result<String, CapitalDotComError>)
        ensures
            r is Ok,
            r matches Ok(t) ==> t@ == create_session_json(self.identifier@, self.password@),
    {
        let identifier = match quote_json(self.identifier.as_str()) {
            Ok(q) => q,
            Err(e) => return Err(CapitalDotComError::JsonError(e)),
        };
        let password = match quote_json(self.password.as_str()) {
            Ok(q) => q,
            Err(e) => return Err(CapitalDotComError::JsonError(e)),
        };
        let mut text = "{\"identifier\":".to_owned();
        text.append(identifier.as_str());
        text.append(",\"password\":");
        text.append(password.as_str());
        text.append("}");
        Ok(text)
    }
}

/// The body of an account switch: the id of the account to make active.
#[derive(Debug, Clone)]
pub struct SwitchActiveAccountBody {
    pub account_id: String,
}

/// The JSON text of an account-switch body.
pub open spec fn switch_account_json(account_id: Seq<char>) -> Seq<char> {
    "{\"accountId\":"@ + json_string_literal(account_id) + "}"@
}

impl SwitchActiveAccountBody {
    pub fn new(account_id: String) -> (r: Self)
        ensures
            r.account_id == account_id,
    {
        SwitchActiveAccountBody { account_id }
    }

    /// The body as a JSON object with the member `accountId`.
    pub fn to_json(&self) -> (r: Result<String, CapitalDotComError>)
        ensures
            r is Ok,
            r matches Ok(t) ==> t@ == switch_account_json(self.account_id@),
    {
        let account_id = match quote_json(self.account_id.as_str()) {
            Ok(q) => q,
            Err(e) => return Err(CapitalDotComError::JsonError(e)),
        };
        let mut text = "{\"accountId\":".to_owned();
        text.append(account_id.as_str());
        text.append("}");
        Ok(text)
    }
}

} // verus!
