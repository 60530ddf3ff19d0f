use capital_dot_com_api::endpoint::{CapitalDotComApiEndpoints, SessionType};
use capital_dot_com_api::keeper::{keeper_step, KeeperAction, PING_THRESHOLD_MS, TIME_BEFORE_LOGOUT_MS};
use capital_dot_com_api::request::{Operation, Response};
use capital_dot_com_api::session::AccountSession;
use capital_dot_com_api::CapitalDotComError;

fn ids(items: &[&str]) -> Vec<String> {
    items.iter().map(|s| s.to_string()).collect()
}

fn opened(id: &str) -> AccountSession {
    let mut s = AccountSession::new();
    s.session_opened(id);
    s
}

#[test]
fn new_session_is_inactive() {
    let s = AccountSession::new();
    assert!(!s.is_active());
    assert_eq!(s.current_account_id(), "");
}

#[test]
fn open_and_close_session() {
    let mut s = opened("acc-1");
    assert!(s.is_active());
    assert_eq!(s.current_account_id(), "acc-1");
    s.session_closed();
    assert!(!s.is_active());
    assert_eq!(s.current_account_id(), "acc-1");
}

#[test]
fn switch_to_active_account_is_refused() {
    let s = opened("acc-1");
    assert!(matches!(s.switch_target("acc-1"), Err(CapitalDotComError::NotDifferentAccountId)));
}

#[test]
fn switch_to_other_account_updates_only_on_success() {
    let mut s = opened("acc-1");
    match s.switch_target("acc-2") {
        Ok(Operation::SwitchAccount { account_id }) => assert_eq!(account_id, "acc-2"),
        other => panic!("unexpected {:?}", other),
    }
    s.switch_finished("acc-2", false);
    assert_eq!(s.current_account_id(), "acc-1");
    s.switch_finished("acc-2", true);
    assert_eq!(s.current_account_id(), "acc-2");
    assert!(s.is_active());
}

#[test]
fn balance_lookup_finds_active_account() {
    let s = opened("b");
    assert_eq!(s.select_current_account(&ids(&["a", "b", "c"])).unwrap(), 1);
    assert_eq!(s.select_current_account(&ids(&["b", "b"])).unwrap(), 0);
}

#[test]
fn balance_lookup_of_absent_account_fails() {
    let s = opened("z");
    assert!(matches!(
        s.select_current_account(&ids(&["a", "b"])),
        Err(CapitalDotComError::CurrentAccountNotFound)
    ));
    assert!(matches!(
        s.select_current_account(&Vec::new()),
        Err(CapitalDotComError::CurrentAccountNotFound)
    ));
}

#[test]
fn keeper_threshold_is_nine_tenths_of_timeout() {
    assert_eq!(PING_THRESHOLD_MS * 10, TIME_BEFORE_LOGOUT_MS * 9);
    assert_eq!(PING_THRESHOLD_MS, 540_000);
}

#[test]
fn inactive_keeper_stops_even_when_idle() {
    assert_eq!(keeper_step(false, Some(0), 10_000_000), KeeperAction::Stop);
    assert_eq!(keeper_step(false, None, 0), KeeperAction::Stop);
}

#[test]
fn active_keeper_pings_after_threshold() {
    assert_eq!(keeper_step(true, Some(1_000), 1_000 + 540_000), KeeperAction::Wait);
    assert_eq!(keeper_step(true, Some(1_000), 1_000 + 540_001), KeeperAction::Ping);
    assert_eq!(keeper_step(true, None, 1_000_000), KeeperAction::Wait);
}

#[test]
fn failed_ping_is_retried_and_answered_ping_resets() {
    let mut c = CapitalDotComApiEndpoints::new(
        SessionType::Demo,
        "k".to_string(),
        "i".to_string(),
        "p".to_string(),
    );
    let (headers, _) = c
        .complete(
            Ok(Response {
                status: 200,
                headers: vec![("cst".to_string(), "c".to_string())],
                body: "{}".to_string(),
            }),
            0,
        )
        .unwrap();
    c.update_auth(&headers);
    let t = 600_000;
    assert_eq!(keeper_step(true, c.last_request_ms(), t), KeeperAction::Ping);
    assert!(c.prepare(&Operation::Ping, t).is_ok());
    assert!(c.complete(Err("timed out".to_string()), t).is_err());
    assert_eq!(keeper_step(true, c.last_request_ms(), t + 200), KeeperAction::Ping);
    c.complete(
        Ok(Response { status: 200, headers: Vec::new(), body: "{\"status\":\"OK\"}".to_string() }),
        t + 200,
    )
    .unwrap();
    assert_eq!(keeper_step(true, c.last_request_ms(), t + 400), KeeperAction::Wait);
}
