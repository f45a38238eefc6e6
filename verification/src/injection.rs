//! The failure report of the text-injection step. Injection itself is a
//! side effect on whatever window holds OS focus and lives outside this
//! library; when the OS facility is unavailable or rejects the call, the
//! attempt is abandoned (no retry, since focus may have moved) and the
//! failure is surfaced to the user through the message built here.

use vstd::prelude::*;
use vstd::string::StringExecFns;

verus! {

/// The OS input-simulation facility was unavailable or rejected the call.
/// Fatal for the current injection attempt; never retried.
pub struct InjectionFailure {
    pub reason: String,
}

impl InjectionFailure {
    /// Wrap the OS facility's own account of the failure.
    pub fn new(reason: String) -> (f: InjectionFailure)
        ensures
            f.reason@ == reason@,
    {
        InjectionFailure { reason }
    }

    /// The message shown to the user, so the loss of the selection is
    /// reported rather than silently swallowed.
    pub fn message(&self) -> (m: String)
        ensures
            m@ == "emoji injection failed: "@ + self.reason@,
    {
        let mut m = String::from_str("emoji injection failed: ");
        m.append(self.reason.as_str());
        m
    }
}

} // verus!
