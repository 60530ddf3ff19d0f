//! The keep-alive decision: when an idle session needs a ping.
use vstd::prelude::*;

verus! {

/// Milliseconds of silence after which the server ends a session.
pub const TIME_BEFORE_LOGOUT_MS: i64 = 600_000;

/// Milliseconds of silence after which the keeper pings: nine tenths of the
/// server's timeout.
pub const PING_THRESHOLD_MS: i64 = 540_000;

/// Milliseconds between two looks of the keeper at the session.
pub const KEEPER_TICK_MS: u64 = 200;

/// What the keeper does on one tick.
#[derive(Debug, Clone, Copy, PartialEq, Eq, Structural)]
pub enum KeeperAction {
    /// The session is no longer active: the keeper ends.
    Stop,
    /// Nothing to do until the next tick.
    Wait,
    /// Send a ping to keep the session alive.
    Ping,
}

/// Whether the last request lies further back than the ping threshold.
pub open spec fn idle_too_long(last_request_ms: Option<i64>, now_ms: i64) -> bool {
    last_request_ms matches Some(last) && now_ms - last > PING_THRESHOLD_MS
}

pub open spec fn keeper_decision(
    session_active: bool,
    last_request_ms: Option<i64>,
    now_ms: i64,
) -> KeeperAction {
    if !session_active {
        KeeperAction::Stop
    } else if idle_too_long(last_request_ms, now_ms) {
        KeeperAction::Ping
    } else {
        KeeperAction::Wait
    }
}

/// One tick of the keeper: stop once the session is inactive, whatever the
/// idle time; otherwise ping when the last request lies further back than
/// the threshold, and wait when it does not.
pub fn keeper_step(session_active: bool, last_request_ms: Option<i64>, now_ms: i64) -> (r:
    KeeperAction)
    ensures
        r == keeper_decision(session_active, last_request_ms, now_ms),
        !session_active ==> r == KeeperAction::Stop,
        session_active && idle_too_long(last_request_ms, now_ms) ==> r == KeeperAction::Ping,
{
    if !session_active {
        return KeeperAction::Stop;
    }
    match last_request_ms {
        Some(last) => {
            if now_ms as i128 - last as i128 > PING_THRESHOLD_MS as i128 {
                KeeperAction::Ping
            } else {
                KeeperAction::Wait
            }
        },
        None => KeeperAction::Wait,
    }
}

} // verus!
