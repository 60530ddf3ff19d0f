use capital_dot_com_api::endpoint::{CapitalDotComApiEndpoints, SessionType};
use capital_dot_com_api::rate_gate::RateGate;
use capital_dot_com_api::responses::DealReferenceResponse;
use capital_dot_com_api::request::{Method, Operation, Request, Response};
use capital_dot_com_api::{CapitalDotComError, Resolution, UtcDateTime};

fn pairs(items: &[(&str, &str)]) -> Vec<(String, String)> {
    items.iter().map(|(a, b)| (a.to_string(), b.to_string())).collect()
}

fn client() -> CapitalDotComApiEndpoints {
    CapitalDotComApiEndpoints::new(
        SessionType::Demo,
        "key-1".to_string(),
        "me@example.com".to_string(),
        "secret".to_string(),
    )
}

fn ok_response(headers: &[(&str, &str)], body: &str) -> Result<Response, String> {
    Ok(Response { status: 200, headers: pairs(headers), body: body.to_string() })
}

/// A login answered at `at_ms` with `headers`, whose body decoded.
fn login(c: &mut CapitalDotComApiEndpoints, headers: &[(&str, &str)], at_ms: i64) {
    let (received, _) = c.complete(ok_response(headers, "{}"), at_ms).unwrap();
    c.update_auth(&received);
}

/// A client that logged in at `at_ms` with both tokens.
fn logged_in(at_ms: i64) -> CapitalDotComApiEndpoints {
    let mut c = client();
    c.prepare(&Operation::CreateSession, at_ms).unwrap();
    login(&mut c, &[("x-security-token", "tok"), ("cst", "cst-1")], at_ms);
    c
}

fn epics(n: usize) -> Vec<String> {
    (0..n).map(|i| format!("EPIC{}", i)).collect()
}

#[test]
fn rapid_request_is_rejected_with_delta() {
    let c = logged_in(1_000);
    match c.prepare(&Operation::Ping, 1_050) {
        Err(CapitalDotComError::RequestingTooFast(d)) => assert_eq!(d, 50),
        other => panic!("unexpected {:?}", other),
    }
    match c.prepare(&Operation::AllAccounts, 1_099) {
        Err(CapitalDotComError::RequestingTooFast(d)) => assert_eq!(d, 99),
        other => panic!("unexpected {:?}", other),
    }
    assert!(c.prepare(&Operation::Ping, 1_100).is_ok());
}

#[test]
fn rapid_login_is_rejected_below_one_second() {
    let c = logged_in(5_000);
    match c.prepare(&Operation::CreateSession, 5_999) {
        Err(CapitalDotComError::RequestingTooFast(d)) => assert_eq!(d, 999),
        other => panic!("unexpected {:?}", other),
    }
    assert!(c.prepare(&Operation::CreateSession, 6_000).is_ok());
}

#[test]
fn first_request_is_never_too_fast() {
    let c = client();
    assert!(c.prepare(&Operation::ServerTime, 0).is_ok());
    assert_eq!(c.last_request_ms(), None);
}

#[test]
fn missing_credentials_before_login() {
    let c = client();
    assert!(matches!(c.has_credentials(), Err(CapitalDotComError::MissingAuthorization)));
    assert!(matches!(c.prepare(&Operation::Ping, 0), Err(CapitalDotComError::MissingAuthorization)));
    assert!(matches!(
        c.prepare(&Operation::MarketSearch { search_term: "x".to_string(), epics: epics(51) }, 0),
        Err(CapitalDotComError::MissingAuthorization)
    ));
}

#[test]
fn login_answer_provides_credentials() {
    let c = logged_in(0);
    assert!(c.has_credentials().is_ok());
    assert_eq!(c.tokens().x_security_token, "tok");
    assert_eq!(c.tokens().cst, "cst-1");
    assert_eq!(c.last_request_ms(), Some(0));
}

#[test]
fn token_headers_are_matched_ignoring_case() {
    let mut c = client();
    login(&mut c, &[("X-Security-Token", "A"), ("CsT", "B")], 0);
    assert_eq!(c.tokens().x_security_token, "A");
    assert_eq!(c.tokens().cst, "B");
}

#[test]
fn one_token_header_suffices_and_blanks_the_other() {
    let mut c = logged_in(0);
    login(&mut c, &[("cst", "only")], 2_000);
    assert_eq!(c.tokens().x_security_token, "");
    assert_eq!(c.tokens().cst, "only");
    assert!(c.has_credentials().is_ok());
}

#[test]
fn login_answer_without_tokens_leaves_no_credentials() {
    let mut c = client();
    login(&mut c, &[("content-type", "application/json")], 0);
    assert!(matches!(c.has_credentials(), Err(CapitalDotComError::MissingAuthorization)));
}

#[test]
fn first_token_header_wins() {
    let mut c = client();
    login(&mut c, &[("cst", "one"), ("cst", "two")], 0);
    assert_eq!(c.tokens().cst, "one");
}

#[test]
fn other_answers_leave_tokens_alone() {
    let mut c = logged_in(0);
    c.complete(ok_response(&[("cst", "other")], "{}"), 500).unwrap();
    assert_eq!(c.tokens().cst, "cst-1");
    assert_eq!(c.last_request_ms(), Some(500));
}

#[test]
fn login_answer_alone_does_not_replace_tokens() {
    let mut c = logged_in(0);
    let (headers, body) = c.complete(ok_response(&[("cst", "new")], "not a session"), 2_000).unwrap();
    assert_eq!(body, "not a session");
    assert_eq!(c.tokens().cst, "cst-1");
    c.update_auth(&headers);
    assert_eq!(c.tokens().cst, "new");
    assert_eq!(c.tokens().x_security_token, "");
}

#[test]
fn search_with_fifty_epics_succeeds() {
    let c = logged_in(0);
    let op = Operation::MarketSearch { search_term: "Tesla".to_string(), epics: epics(50) };
    let req = c.prepare(&op, 1_000).unwrap();
    assert_eq!(req.query.len(), 2);
    assert_eq!(req.query[1].0, "epics");
    assert_eq!(req.query[1].1, epics(50).join(","));
}

#[test]
fn search_with_fifty_one_epics_fails() {
    let c = logged_in(0);
    let op = Operation::MarketSearch { search_term: "Tesla".to_string(), epics: epics(51) };
    assert!(matches!(c.prepare(&op, 1_000), Err(CapitalDotComError::TooManyParameters)));
}

#[test]
fn search_without_epics_carries_search_term_only() {
    let c = logged_in(0);
    let op = Operation::MarketSearch { search_term: "Tesla".to_string(), epics: Vec::new() };
    let req = c.prepare(&op, 1_000).unwrap();
    assert_eq!(req.method, Method::Get);
    assert_eq!(req.url, "https://demo-api-capital.backend-capital.com/api/v1/markets");
    assert_eq!(req.query, pairs(&[("searchTerm", "Tesla")]));
    assert_eq!(req.body, None);
}

#[test]
fn search_epics_are_joined_with_commas() {
    let c = logged_in(0);
    let op = Operation::MarketSearch {
        search_term: "t".to_string(),
        epics: vec!["AAPL".to_string(), "TSLA".to_string()],
    };
    let req = c.prepare(&op, 1_000).unwrap();
    assert_eq!(req.query, pairs(&[("searchTerm", "t"), ("epics", "AAPL,TSLA")]));
}

#[test]
fn search_with_only_empty_epics_omits_parameter() {
    let c = logged_in(0);
    let op = Operation::MarketSearch { search_term: "t".to_string(), epics: vec![String::new()] };
    let req = c.prepare(&op, 1_000).unwrap();
    assert_eq!(req.query, pairs(&[("searchTerm", "t")]));
}

#[test]
fn login_request_carries_api_key_and_json_body() {
    let c = client();
    let req: Request = c.prepare(&Operation::CreateSession, 0).unwrap();
    assert_eq!(req.method, Method::Post);
    assert_eq!(req.url, "https://demo-api-capital.backend-capital.com/api/v1/session");
    assert_eq!(
        req.headers,
        pairs(&[("X-CAP-API-KEY", "key-1"), ("Content-Type", "application/json")])
    );
    assert_eq!(
        req.body.as_deref(),
        Some("{\"identifier\":\"me@example.com\",\"password\":\"secret\"}")
    );
}

#[test]
fn authenticated_request_carries_tokens() {
    let c = logged_in(0);
    let req = c.prepare(&Operation::GetPosition { deal_id: "D1".to_string() }, 200).unwrap();
    assert_eq!(req.method, Method::Get);
    assert_eq!(req.url, "https://demo-api-capital.backend-capital.com/api/v1/positions/D1");
    assert_eq!(req.headers, pairs(&[("X-SECURITY-TOKEN", "tok"), ("CST", "cst-1")]));
    assert!(req.query.is_empty());
}

#[test]
fn switch_request_body_and_method() {
    let c = logged_in(0);
    let op = Operation::SwitchAccount { account_id: "acc-2".to_string() };
    let req = c.prepare(&op, 200).unwrap();
    assert_eq!(req.method, Method::Put);
    assert_eq!(req.body.as_deref(), Some("{\"accountId\":\"acc-2\"}"));
    assert_eq!(
        req.headers,
        pairs(&[("X-SECURITY-TOKEN", "tok"), ("CST", "cst-1"), ("Content-Type", "application/json")])
    );
}

#[test]
fn paths_and_methods_of_operations() {
    let c = logged_in(0);
    let base = "https://demo-api-capital.backend-capital.com";
    let cases: Vec<(Operation, Method, &str)> = vec![
        (Operation::ServerTime, Method::Get, "/api/v1/time"),
        (Operation::Ping, Method::Get, "/api/v1/ping"),
        (Operation::EncryptionKey, Method::Get, "/api/v1/session/encryptionKey"),
        (Operation::SessionDetails, Method::Get, "/api/v1/session"),
        (Operation::AllAccounts, Method::Get, "/api/v1/accounts"),
        (Operation::LogOut, Method::Delete, "/api/v1/session"),
        (Operation::OrderConfirmation { deal_reference: "R".to_string() }, Method::Get, "/api/v1/confirms/R"),
        (Operation::AllPositions, Method::Get, "/api/v1/positions"),
        (Operation::OpenPosition { body: "{}".to_string() }, Method::Post, "/api/v1/positions"),
        (Operation::UpdatePosition { deal_id: "D".to_string(), body: "{}".to_string() }, Method::Put, "/api/v1/positions/D"),
        (Operation::ClosePosition { deal_id: "D".to_string() }, Method::Delete, "/api/v1/positions/D"),
        (Operation::SingleMarket { epic: "TSLA".to_string() }, Method::Get, "/api/v1/markets/TSLA"),
    ];
    for (op, method, path) in cases {
        let req = c.prepare(&op, 1_000).unwrap();
        assert_eq!(req.method, method);
        assert_eq!(req.url, format!("{}{}", base, path));
    }
}

#[test]
fn server_time_and_encryption_key_headers() {
    let c = CapitalDotComApiEndpoints::new(
        SessionType::Live,
        "k".to_string(),
        "i".to_string(),
        "p".to_string(),
    );
    let req = c.prepare(&Operation::ServerTime, 0).unwrap();
    assert_eq!(req.url, "https://api-capital.backend-capital.com/api/v1/time");
    assert!(req.headers.is_empty());
    let req = c.prepare(&Operation::EncryptionKey, 0).unwrap();
    assert_eq!(req.headers, pairs(&[("X-CAP-API-KEY", "k")]));
}

#[test]
fn historical_prices_query() {
    let c = logged_in(0);
    let op = Operation::HistoricalPrices {
        epic: "TSLA".to_string(),
        resolution: Resolution::HOUR,
        max: Some(2),
        from: UtcDateTime::new(2024, 6, 11, 12, 46, 16).unwrap(),
        to: UtcDateTime::new(2024, 6, 11, 14, 46, 16).unwrap(),
    };
    let req = c.prepare(&op, 1_000).unwrap();
    assert_eq!(req.url, "https://demo-api-capital.backend-capital.com/api/v1/prices/TSLA");
    assert_eq!(
        req.query,
        pairs(&[
            ("resolution", "HOUR"),
            ("from", "2024-06-11T12:46:16"),
            ("to", "2024-06-11T14:46:16"),
            ("max", "2"),
        ])
    );
}

#[test]
fn historical_prices_without_max() {
    let c = logged_in(0);
    let op = Operation::HistoricalPrices {
        epic: "X".to_string(),
        resolution: Resolution::Minute15,
        max: None,
        from: UtcDateTime::new(2022, 4, 1, 1, 1, 0).unwrap(),
        to: UtcDateTime::new(2022, 4, 1, 2, 1, 0).unwrap(),
    };
    let req = c.prepare(&op, 1_000).unwrap();
    assert_eq!(
        req.query,
        pairs(&[("resolution", "MINUTE_15"), ("from", "2022-04-01T01:01:00"), ("to", "2022-04-01T02:01:00")])
    );
}

#[test]
fn status_error_keeps_structured_error_and_body() {
    let mut c = logged_in(0);
    let body = "{\"errorCode\":\"error.invalid.details\"}";
    let outcome = Ok(Response { status: 400, headers: Vec::new(), body: body.to_string() });
    match c.complete(outcome, 300) {
        Err(CapitalDotComError::StatusCode(400, Some(e), raw)) => {
            assert_eq!(e.error_code, "error.invalid.details");
            assert_eq!(raw, body);
        }
        other => panic!("unexpected {:?}", other),
    }
    assert_eq!(c.last_request_ms(), Some(300));
}

#[test]
fn status_error_with_unparsable_body() {
    let mut c = logged_in(0);
    let outcome = Ok(Response { status: 502, headers: Vec::new(), body: "<html>bad gateway</html>".to_string() });
    match c.complete(outcome, 300) {
        Err(CapitalDotComError::StatusCode(502, None, raw)) => assert_eq!(raw, "<html>bad gateway</html>"),
        other => panic!("unexpected {:?}", other),
    }
}

#[test]
fn get_body_passes_success_through() {
    let r = CapitalDotComApiEndpoints::get_body(200, "{\"status\":\"OK\"}".to_string());
    assert_eq!(r.unwrap(), "{\"status\":\"OK\"}");
    let r = CapitalDotComApiEndpoints::get_body(401, "{\"errorCode\":42}".to_string());
    assert!(matches!(r, Err(CapitalDotComError::StatusCode(401, None, _))));
}

#[test]
fn transport_failure_changes_nothing() {
    let mut c = logged_in(0);
    match c.complete(Err("connection reset".to_string()), 700) {
        Err(CapitalDotComError::ReqwestError(m)) => assert_eq!(m, "connection reset"),
        other => panic!("unexpected {:?}", other),
    }
    assert_eq!(c.last_request_ms(), Some(0));
    assert_eq!(c.tokens().cst, "cst-1");
}

#[test]
fn failed_login_keeps_previous_tokens() {
    let mut c = logged_in(0);
    let outcome = Ok(Response {
        status: 401,
        headers: pairs(&[("cst", "new")]),
        body: "{\"errorCode\":\"error.invalid.api.key\"}".to_string(),
    });
    assert!(c.complete(outcome, 2_000).is_err());
    assert_eq!(c.tokens().cst, "cst-1");
}

#[test]
fn get_url_appends_path() {
    let c = client();
    assert_eq!(c.get_url("/x"), "https://demo-api-capital.backend-capital.com/x");
}

#[test]
fn confirmation_follows_opened_position_after_the_gap() {
    let mut c = logged_in(0);
    c.prepare(&Operation::OpenPosition { body: "{}".to_string() }, 1_000).unwrap();
    c.complete(ok_response(&[], "{\"dealReference\":\"o_1\"}"), 1_000).unwrap();
    let created = DealReferenceResponse { deal_reference: "o_1".to_string() };
    let (op, wait) = c.confirmation_after_open(&created, 1_030);
    match &op {
        Operation::OrderConfirmation { deal_reference } => assert_eq!(deal_reference, "o_1"),
        other => panic!("unexpected {:?}", other),
    }
    assert_eq!(wait, 70);
    assert!(matches!(c.prepare(&op, 1_030), Err(CapitalDotComError::RequestingTooFast(30))));
    assert!(c.prepare(&op, 1_030 + wait).is_ok());
    let (_, wait) = c.confirmation_after_open(&created, 1_200);
    assert_eq!(wait, 0);
}

#[test]
fn gate_wait_and_operation_intervals() {
    let gate = RateGate { last_request_ms: Some(5_000) };
    assert_eq!(gate.wait_ms(5_000, 1_000), 1_000);
    assert_eq!(gate.wait_ms(5_400, 1_000), 600);
    assert_eq!(gate.wait_ms(6_000, 1_000), 0);
    assert_eq!(RateGate::new().wait_ms(0, 100), 0);
    assert_eq!(Operation::CreateSession.min_interval_ms(), 1_000);
    assert_eq!(Operation::Ping.min_interval_ms(), 100);
}
