//! The three-state outcome protocol every controller operation returns.
//!
//! `Success` carries the canonical post-mutation representation of the
//! affected entity; `Invalid` reports a semantic validation failure before
//! any mutation, echoing the original payload so the caller can correct it;
//! `Failure` carries a stable, caller-safe message for every operational
//! failure. Situations a caller must not be able to tell apart (a missing
//! money map and a money map the caller is no member of) share one message
//! on purpose.

use vstd::prelude::*;
use crate::common::validation::ValidationResult;

verus! {

/// The outcome of one controller operation, over a success payload `S` and
/// the original request payload `R`.
pub enum ApiResult<S, R> {
    /// The operation completed; `result` is the post-mutation entity or
    /// collection.
    Success { result: S },
    /// The payload failed semantic validation before any mutation was
    /// attempted; `request` echoes the payload.
    Invalid { validation: ValidationResult, request: R },
    /// The operation could not complete; `msg` is caller-safe.
    Failure { msg: String },
}

impl<S, R> ApiResult<S, R> {
    /// Whether this outcome is a `Failure` carrying exactly `msg`.
    pub open spec fn is_failure_with(&self, msg: Seq<char>) -> bool {
        self matches ApiResult::Failure { msg: m } && m@ == msg
    }
}

} // verus!
