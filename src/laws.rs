//! Properties that hold across the operations of a client.
use vstd::prelude::*;

use crate::credentials::{header_value, CST_HEADER, SECURITY_TOKEN_HEADER};
use crate::endpoint::{is_status_error, EndpointsView};
use crate::error::CapitalDotComError;
use crate::json::json_string_member;
use crate::keeper::{idle_too_long, keeper_decision, KeeperAction, PING_THRESHOLD_MS};
use crate::request::Operation;
use crate::responses::ERROR_CODE_MEMBER;
use crate::session::first_index_of;

verus! {

/// A request that follows the last one by less than the operation's minimum
/// interval is refused by the rate gate, with the milliseconds between the
/// two; `prepare` then builds no call for it.
pub proof fn lemma_rapid_request_rejected(
    after_first: EndpointsView,
    op: Operation,
    first_ms: i64,
    second_ms: i64,
)
    requires
        after_first.last_request_ms == Some(first_ms),
        0 <= second_ms - first_ms < op.min_interval(),
    ensures
        after_first.gate().too_fast(second_ms, op.min_interval()),
        after_first.gate().elapsed(second_ms) == second_ms - first_ms,
{
}

/// A client without tokens has no credentials; after a login answer it has
/// them exactly when the answer carried at least one non-empty token header.
pub proof fn lemma_login_provides_credentials(
    fresh: EndpointsView,
    after_login: EndpointsView,
    headers: Seq<(Seq<char>, Seq<char>)>,
)
    requires
        fresh.x_security_token.len() == 0,
        fresh.cst.len() == 0,
        after_login.x_security_token == header_value(headers, SECURITY_TOKEN_HEADER@),
        after_login.cst == header_value(headers, CST_HEADER@),
    ensures
        !fresh.is_authenticated(),
        after_login.is_authenticated() <==> (header_value(headers, SECURITY_TOKEN_HEADER@).len()
            > 0 || header_value(headers, CST_HEADER@).len() > 0),
{
}

/// A market search without identifiers carries the search term alone, and
/// no market search carries an empty `epics` parameter.
pub proof fn lemma_search_query(search_term: String, epics: Vec<String>)
    ensures
        epics@.len() == 0 ==> (Operation::MarketSearch { search_term, epics }).spec_query()
            == seq![("searchTerm"@, search_term@)],
        forall|i: int|
            0 <= i < (Operation::MarketSearch { search_term, epics }).spec_query().len() && (
            #[trigger] (Operation::MarketSearch { search_term, epics }).spec_query()[i]).0
                == "epics"@ ==> (Operation::MarketSearch { search_term, epics }).spec_query()[i].1.len()
                > 0,
{
    reveal_strlit("epics");
    reveal_strlit("searchTerm");
    let q = (Operation::MarketSearch { search_term, epics }).spec_query();
    if epics@.len() == 0 {
        assert(epics.deep_view().len() == 0);
    }
    assert forall|i: int| 0 <= i < q.len() && (#[trigger] q[i]).0 == "epics"@ implies q[i].1.len()
        > 0 by {
        if i == 0 {
            assert("searchTerm"@.len() != "epics"@.len());
        }
    }
}

/// The error for a non-200 answer is never a transport error: it keeps the
/// status and the body as received, and the structured error whenever the
/// body holds one.
pub proof fn lemma_status_error_kept_apart(e: CapitalDotComError, status: u16, body: Seq<char>)
    requires
        is_status_error(e, status, body),
    ensures
        !(e is ReqwestError),
        e matches CapitalDotComError::StatusCode(s, _, raw) && s == status && raw@ == body,
        json_string_member(body, ERROR_CODE_MEMBER@) matches Some(code) ==> (
        e matches CapitalDotComError::StatusCode(_, Some(api_error), _) && api_error.error_code@
            == code),
{
}

/// An accounts list without the active account's id yields no position.
pub proof fn lemma_absent_account_not_found(ids: Seq<Seq<char>>, id: Seq<char>)
    requires
        forall|i: int| 0 <= i < ids.len() ==> ids[i] != id,
    ensures
        first_index_of(ids, id) is None,
{
}

/// Once the session is inactive the keeper stops, however long the session
/// has been idle.
pub proof fn lemma_inactive_session_never_pinged(last_request_ms: Option<i64>, now_ms: i64)
    ensures
        keeper_decision(false, last_request_ms, now_ms) == KeeperAction::Stop,
{
}

/// A ping that failed at the transport leaves the time of the last request
/// as it was, so an active session that was idle too long is pinged again on
/// every later tick.
pub proof fn lemma_failed_ping_retried(
    before: EndpointsView,
    after: EndpointsView,
    ping_ms: i64,
    later_ms: i64,
)
    requires
        after == before,
        idle_too_long(before.last_request_ms, ping_ms),
        ping_ms <= later_ms,
    ensures
        keeper_decision(true, after.last_request_ms, later_ms) == KeeperAction::Ping,
{
}

/// An answered ping notes its time, so the keeper waits until the session
/// has again been idle longer than the threshold.
pub proof fn lemma_answered_ping_resets_idle(after: EndpointsView, ping_ms: i64, later_ms: i64)
    requires
        after.last_request_ms == Some(ping_ms),
        later_ms - ping_ms <= PING_THRESHOLD_MS,
    ensures
        keeper_decision(true, after.last_request_ms, later_ms) == KeeperAction::Wait,
{
}

} // verus!
