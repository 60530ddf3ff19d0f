//! Logical operations of the API and the outgoing calls that carry them.
use vstd::prelude::*;

use crate::datetime::UtcDateTime;
use crate::enums::Resolution;
use crate::rate_gate::{MIN_REQUEST_INTERVAL_MS, MIN_SESSION_INTERVAL_MS};
use crate::text::{signed_decimal, signed_decimal_text};

verus! {

/// Most instrument identifiers one market search may carry.
pub const MAX_SEARCH_EPICS: usize = 50;

#[derive(Debug, Clone, Copy, PartialEq, Eq, Structural)]
pub enum Method {
    Get,
    Post,
    Put,
    Delete,
}

/// One outgoing call, ready for a transport: the URL holds no query; the
/// query parameters are listed apart, in order, and not yet encoded.
#[derive(Debug, Clone)]
pub struct Request {
    pub method: Method,
    pub url: String,
    pub query: Vec<(String, String)>,
    pub headers: Vec<(String, String)>,
    pub body: Option<String>,
}

pub struct RequestView {
    pub method: Method,
    pub url: Seq<char>,
    pub query: Seq<(Seq<char>, Seq<char>)>,
    pub headers: Seq<(Seq<char>, Seq<char>)>,
    pub body: Option<Seq<char>>,
}

impl View for Request {
    type V = RequestView;

    open spec fn view(&self) -> RequestView {
        RequestView {
            method: self.method,
            url: self.url@,
            query: self.query.deep_view(),
            headers: self.headers.deep_view(),
            body: self.body.deep_view(),
        }
    }
}

/// What the transport received for a request: the status, the headers with
/// their names as received, and the body as text.
#[derive(Debug, Clone)]
pub struct Response {
    pub status: u16,
    pub headers: Vec<(String, String)>,
    pub body: String,
}

/// The identifiers joined with commas.
pub open spec fn join_commas(items: Seq<Seq<char>>) -> Seq<char>
    decreases items.len(),
{
    if items.len() == 0 {
        Seq::empty()
    } else if items.len() == 1 {
        items[0]
    } else {
        join_commas(items.drop_last()) + seq![','] + items.last()
    }
}

/// The identifiers joined with commas.
pub fn join_epics(epics: &Vec<String>) -> (r: String)
    ensures
        r@ == join_commas(epics.deep_view()),
{
    proof {
        reveal_strlit(",");
    }
    let ghost all = epics.deep_view();
    let mut r = String::new();
    let mut i: usize = 0;
    while i < epics.len()
        invariant
            all == epics.deep_view(),
            i <= epics.len(),
            r@ == join_commas(all.subrange(0, i as int)),
        decreases epics.len() - i,
    {
        proof {
            reveal_strlit(",");
        }
        let ghost before = all.subrange(0, i as int);
        let ghost after = all.subrange(0, i + 1);
        assert(after.drop_last() =~= before);
        assert(after.last() == all[i as int]);
        if i > 0 {
            r.append(",");
        }
        r.append(epics[i].as_str());
        i = i + 1;
        assert(r@ =~= join_commas(after));
    }
    assert(all.subrange(0, all.len() as int) =~= all);
    r
}

/// A logical operation of the API, with what the caller supplies for it.
#[derive(Debug, Clone)]
pub enum Operation {
    ServerTime,
    Ping,
    EncryptionKey,
    SessionDetails,
    /// Login with the client's credentials.
    CreateSession,
    AllAccounts,
    SwitchAccount { account_id: String },
    LogOut,
    OrderConfirmation { deal_reference: String },
    AllPositions,
    /// `body` is the JSON text of the position to open.
    OpenPosition { body: String },
    GetPosition { deal_id: String },
    /// `body` is the JSON text of the new stops and limits.
    UpdatePosition { deal_id: String, body: String },
    ClosePosition { deal_id: String },
    MarketSearch { search_term: String, epics: Vec<String> },
    SingleMarket { epic: String },
    HistoricalPrices {
        epic: String,
        resolution: Resolution,
        max: Option<i32>,
        from: UtcDateTime,
        to: UtcDateTime,
    },
}

impl Operation {
    /// Operations that need session tokens; the others send the API key or
    /// nothing.
    pub open spec fn requires_auth(&self) -> bool {
        !(self is ServerTime || self is EncryptionKey || self is CreateSession)
    }

    /// The spacing this operation needs after the previous request.
    pub open spec fn min_interval(&self) -> i64 {
        if self is CreateSession {
            MIN_SESSION_INTERVAL_MS
        } else {
            MIN_REQUEST_INTERVAL_MS
        }
    }

    /// A market search with more identifiers than one search may carry.
    pub open spec fn has_too_many_parameters(&self) -> bool {
        self matches Operation::MarketSearch { epics, .. } && epics.len() > MAX_SEARCH_EPICS
    }

    pub open spec fn spec_method(&self) -> Method {
        match self {
            Operation::CreateSession | Operation::OpenPosition { .. } => Method::Post,
            Operation::SwitchAccount { .. } | Operation::UpdatePosition { .. } => Method::Put,
            Operation::LogOut | Operation::ClosePosition { .. } => Method::Delete,
            _ => Method::Get,
        }
    }

    pub open spec fn spec_path(&self) -> Seq<char> {
        match self {
            Operation::ServerTime => "/api/v1/time"@,
            Operation::Ping => "/api/v1/ping"@,
            Operation::EncryptionKey => "/api/v1/session/encryptionKey"@,
            Operation::SessionDetails => "/api/v1/session"@,
            Operation::CreateSession => "/api/v1/session"@,
            Operation::AllAccounts => "/api/v1/accounts"@,
            Operation::SwitchAccount { .. } => "/api/v1/session"@,
            Operation::LogOut => "/api/v1/session"@,
            Operation::OrderConfirmation { deal_reference } => "/api/v1/confirms/"@
                + deal_reference@,
            Operation::AllPositions => "/api/v1/positions"@,
            Operation::OpenPosition { .. } => "/api/v1/positions"@,
            Operation::GetPosition { deal_id } => "/api/v1/positions/"@ + deal_id@,
            Operation::UpdatePosition { deal_id, .. } => "/api/v1/positions/"@ + deal_id@,
            Operation::ClosePosition { deal_id } => "/api/v1/positions/"@ + deal_id@,
            Operation::MarketSearch { .. } => "/api/v1/markets"@,
            Operation::SingleMarket { epic } => "/api/v1/markets/"@ + epic@,
            Operation::HistoricalPrices { epic, .. } => "/api/v1/prices/"@ + epic@,
        }
    }

    pub open spec fn spec_query(&self) -> Seq<(Seq<char>, Seq<char>)> {
        match self {
            Operation::MarketSearch { search_term, epics } => {
                let joined = join_commas(epics.deep_view());
                if joined.len() == 0 {
                    seq![("searchTerm"@, search_term@)]
                } else {
                    seq![("searchTerm"@, search_term@), ("epics"@, joined)]
                }
            },
            Operation::HistoricalPrices { resolution, max, from, to, .. } => {
                let base = seq![
                    ("resolution"@, resolution.wire_name()),
                    ("from"@, from.readable()),
                    ("to"@, to.readable()),
                ];
                match max {
                    Some(m) => base.push(("max"@, signed_decimal(*m as int))),
                    None => base,
                }
            },
            _ => Seq::empty(),
        }
    }

    /// The spacing this operation needs after the previous request.
    pub fn min_interval_ms(&self) -> (r: i64)
        ensures
            r == self.min_interval(),
    {
        match self {
            Operation::CreateSession => MIN_SESSION_INTERVAL_MS,
            _ => MIN_REQUEST_INTERVAL_MS,
        }
    }

    pub fn method(&self) -> (r: Method)
        ensures
            r == self.spec_method(),
    {
        match self {
            Operation::CreateSession | Operation::OpenPosition { .. } => Method::Post,
            Operation::SwitchAccount { .. } | Operation::UpdatePosition { .. } => Method::Put,
            Operation::LogOut | Operation::ClosePosition { .. } => Method::Delete,
            _ => Method::Get,
        }
    }

    pub fn path(&self) -> (r: String)
        ensures
            r@ == self.spec_path(),
    {
        match self {
            Operation::ServerTime => "/api/v1/time".to_owned(),
            Operation::Ping => "/api/v1/ping".to_owned(),
            Operation::EncryptionKey => "/api/v1/session/encryptionKey".to_owned(),
            Operation::SessionDetails => "/api/v1/session".to_owned(),
            Operation::CreateSession => "/api/v1/session".to_owned(),
            Operation::AllAccounts => "/api/v1/accounts".to_owned(),
            Operation::SwitchAccount { .. } => "/api/v1/session".to_owned(),
            Operation::LogOut => "/api/v1/session".to_owned(),
            Operation::OrderConfirmation { deal_reference } => {
                let mut p = "/api/v1/confirms/".to_owned();
                p.append(deal_reference.as_str());
                p
            },
            Operation::AllPositions => "/api/v1/positions".to_owned(),
            Operation::OpenPosition { .. } => "/api/v1/positions".to_owned(),
            Operation::GetPosition { deal_id } => {
                let mut p = "/api/v1/positions/".to_owned();
                p.append(deal_id.as_str());
                p
            },
            Operation::UpdatePosition { deal_id, .. } => {
                let mut p = "/api/v1/positions/".to_owned();
                p.append(deal_id.as_str());
                p
            },
            Operation::ClosePosition { deal_id } => {
                let mut p = "/api/v1/positions/".to_owned();
                p.append(deal_id.as_str());
                p
            },
            Operation::MarketSearch { .. } => "/api/v1/markets".to_owned(),
            Operation::SingleMarket { epic } => {
                let mut p = "/api/v1/markets/".to_owned();
                p.append(epic.as_str());
                p
            },
            Operation::HistoricalPrices { epic, .. } => {
                let mut p = "/api/v1/prices/".to_owned();
                p.append(epic.as_str());
                p
            },
        }
    }

    /// The query parameters of the operation, in order.
    pub fn query(&self) -> (r: Vec<(String, String)>)
        ensures
            r.deep_view() == self.spec_query(),
    {
        match self {
            Operation::MarketSearch { search_term, epics } => {
                let joined = join_epics(epics);
                let mut q: Vec<(String, String)> = Vec::new();
                q.push(("searchTerm".to_owned(), search_term.clone()));
                if !joined.as_str().is_empty() {
                    q.push(("epics".to_owned(), joined));
                }
                assert(q.deep_view() =~= self.spec_query());
                q
            },
            Operation::HistoricalPrices { resolution, max, from, to, .. } => {
                let mut q: Vec<(String, String)> = Vec::new();
                q.push(("resolution".to_owned(), resolution.to_string()));
                q.push(("from".to_owned(), from.to_readable()));
                q.push(("to".to_owned(), to.to_readable()));
                match max {
                    Some(m) => {
                        q.push(("max".to_owned(), signed_decimal_text(*m as i64)));
                    },
                    None => {},
                }
                assert(q.deep_view() =~= self.spec_query());
                q
            },
            _ => {
                let q: Vec<(String, String)> = Vec::new();
                assert(q.deep_view() =~= self.spec_query());
                q
            },
        }
    }
}

} // verus!
