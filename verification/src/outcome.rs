//! The call-site state machine run once per built-in invocation:
//! continue with the value, retry a transient failure within the
//! caller's bounded attempt budget, substitute an attached fallback
//! value, or propagate the error as fatal for the calling statement.

use vstd::prelude::*;

use crate::error::FnError;
use crate::value::NaslValue;

verus! {

/// What the call site does with one invocation's outcome.
#[derive(Debug, PartialEq, Eq)]
pub enum CallDecision {
    /// The call succeeded: continue with its value.
    Continue(NaslValue),
    /// The failure is transient and attempts remain: invoke again
    /// (backoff policy is owned by the caller).
    Retry,
    /// The failure is permanent but carries a fallback value: continue
    /// with it and emit a non-fatal diagnostic.
    ContinueWith(NaslValue),
    /// The failure is fatal for the calling statement: hand it to the
    /// interpreter error context.
    Propagate(FnError),
}

/// Classifies one invocation's outcome. A retryable error is retried
/// only while attempts remain; exhausting the budget converts it into a
/// fatal propagation. A fallback value is consulted only for permanent
/// failures.
pub fn classify_call_result(result: Result<NaslValue, FnError>, attempts_left: u64) -> (d:
    CallDecision)
    ensures
        match result {
            Ok(v) => d == CallDecision::Continue(v),
            Err(e) => if e.retry {
                if attempts_left > 0 {
                    d == CallDecision::Retry
                } else {
                    d == CallDecision::Propagate(e)
                }
            } else {
                match e.fallback {
                    Some(v) => d == CallDecision::ContinueWith(v),
                    None => d == CallDecision::Propagate(e),
                }
            },
        },
{
    match result {
        Ok(v) => CallDecision::Continue(v),
        Err(e) => {
            if e.retryable() {
                if attempts_left > 0 {
                    CallDecision::Retry
                } else {
                    CallDecision::Propagate(e)
                }
            } else if e.return_value().is_some() {
                match e.fallback {
                    Some(v) => CallDecision::ContinueWith(v),
                    None => unreached(),
                }
            } else {
                CallDecision::Propagate(e)
            }
        },
    }
}

} // verus!
