use chrono::Utc;
use vstd::prelude::*;

verus! {

/// A point in time: whole seconds since 1970-01-01 00:00:00 UTC, and the
/// nanoseconds past that second.
#[derive(Clone, Copy, Debug, PartialEq, Eq, Structural)]
pub struct Timestamp {
    pub secs: i64,
    pub nanos: u32,
}

/// Reads the system clock (`chrono::Utc::now`, then `timestamp` and
/// `timestamp_subsec_nanos` of what it returned).
///
/// Trusted; the answer depends on when the call is made, so nothing is
/// claimed of it. The call panics if the system clock stands before 1970.
#[verifier::external_body]
pub(crate) fn now() -> (time: Timestamp) {
    let now = Utc::now();
    Timestamp { secs: now.timestamp(), nanos: now.timestamp_subsec_nanos() }
}

} // verus!
