//! The best-effort outcome notification.

use crate::engine::RunOutcome;
use vstd::prelude::*;

verus! {

/// The notification sink's client side. Its delivery never decides the
/// outcome of a purchase.
#[derive(Clone, Copy, Debug, PartialEq, Eq, Structural)]
pub struct NotifyClient {}

/// The title of every notification.
pub const NOTIFY_TITLE: &'static str = "抢票结果通知";

impl NotifyClient {
    /// Whether the sink accepted a notification, from the `code` field of
    /// its answer (missing or not an integer: `None`): only code 200 means
    /// delivered.
    pub fn delivered(code: Option<i64>) -> (r: bool)
        ensures
            r == (code == Some(200i64)),
    {
        match code {
            Some(c) => c == 200,
            None => false,
        }
    }

    /// The headline of the notification of an outcome.
    pub fn headline(outcome: &RunOutcome) -> (r: &'static str)
        ensures
            match outcome {
                RunOutcome::Success => r@ == "SUCCESS"@,
                RunOutcome::RetryableFailure(_) => r@ == "FAILED"@,
                RunOutcome::TerminalFailure(_) => r@ == "FAILED"@,
                RunOutcome::Cancelled => r@ == "CANCELLED"@,
            },
    {
        match outcome {
            RunOutcome::Success => "SUCCESS",
            RunOutcome::RetryableFailure(_) => "FAILED",
            RunOutcome::TerminalFailure(_) => "FAILED",
            RunOutcome::Cancelled => "CANCELLED",
        }
    }
}

} // verus!
