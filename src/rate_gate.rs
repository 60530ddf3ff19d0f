//! The minimum spacing between two requests.
use vstd::prelude::*;

use crate::error::CapitalDotComError;

verus! {

/// Milliseconds that must pass between two ordinary requests.
pub const MIN_REQUEST_INTERVAL_MS: i64 = 100;

/// Milliseconds that must pass before a login request.
pub const MIN_SESSION_INTERVAL_MS: i64 = 1000;

/// `x`, held to the range of `i64`.
pub open spec fn clamp_i64(x: int) -> i64 {
    if x < i64::MIN {
        i64::MIN
    } else if x > i64::MAX {
        i64::MAX
    } else {
        x as i64
    }
}

/// Remembers when the last request went out and refuses a new one that comes
/// too soon after it. Times are milliseconds since the Unix epoch.
#[derive(Debug, Clone, Copy, PartialEq, Eq, Structural)]
pub struct RateGate {
    /// When the last request went out; `None` before the first.
    pub last_request_ms: Option<i64>,
}

impl RateGate {
    /// Whether a request at `now_ms` comes less than `min_interval_ms` after
    /// the last one.
    pub open spec fn too_fast(self, now_ms: i64, min_interval_ms: i64) -> bool {
        self.last_request_ms matches Some(last) && now_ms - last < min_interval_ms
    }

    /// The milliseconds from the last request to `now_ms`, as carried by
    /// `RequestingTooFast`.
    pub open spec fn elapsed(self, now_ms: i64) -> i64 {
        clamp_i64(now_ms - self.last_request_ms->0)
    }

    /// How long a request at `now_ms` must still wait to be allowed: none
    /// where it is allowed, else the rest of the minimum interval.
    pub open spec fn wait(self, now_ms: i64, min_interval_ms: i64) -> i64 {
        if self.too_fast(now_ms, min_interval_ms) {
            clamp_i64(min_interval_ms - (now_ms - self.last_request_ms->0))
        } else {
            0
        }
    }

    /// A gate that has seen no request.
    pub fn new() -> (r: Self)
        ensures
            r.last_request_ms is None,
    {
        RateGate { last_request_ms: None }
    }

    /// Allows a request at `now_ms` unless it comes less than
    /// `min_interval_ms` after the last one; then fails with
    /// `RequestingTooFast` and the time that has passed. Changes nothing.
    pub fn check_allowed(&self, now_ms: i64, min_interval_ms: i64) -> (r: Result<
        (),
        CapitalDotComError,
    >)
        ensures
            r is Ok <==> !self.too_fast(now_ms, min_interval_ms),
            r matches Err(e) ==> e matches CapitalDotComError::RequestingTooFast(d) && d
                == self.elapsed(now_ms),
    {
        match self.last_request_ms {
            None => Ok(()),
            Some(last) => {
                let elapsed: i128 = now_ms as i128 - last as i128;
                if elapsed < min_interval_ms as i128 {
                    let d: i64 = if elapsed < i64::MIN as i128 {
                        i64::MIN
                    } else if elapsed > i64::MAX as i128 {
                        i64::MAX
                    } else {
                        elapsed as i64
                    };
                    Err(CapitalDotComError::RequestingTooFast(d))
                } else {
                    Ok(())
                }
            },
        }
    }

    /// The milliseconds a request at `now_ms` must still wait before
    /// `check_allowed` lets it pass; zero where it passes already.
    pub fn wait_ms(&self, now_ms: i64, min_interval_ms: i64) -> (r: i64)
        ensures
            r == self.wait(now_ms, min_interval_ms),
            r >= 0,
    {
        match self.last_request_ms {
            None => 0,
            Some(last) => {
                let elapsed: i128 = now_ms as i128 - last as i128;
                if elapsed < min_interval_ms as i128 {
                    let rest: i128 = min_interval_ms as i128 - elapsed;
                    if rest > i64::MAX as i128 {
                        i64::MAX
                    } else {
                        rest as i64
                    }
                } else {
                    0
                }
            },
        }
    }

    /// Notes that a request went out at `now_ms`.
    pub fn record(&mut self, now_ms: i64)
        ensures
            final(self).last_request_ms == Some(now_ms),
    {
        self.last_request_ms = Some(now_ms);
    }
}

} // verus!
