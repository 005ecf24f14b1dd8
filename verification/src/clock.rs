//! The wall clock.

use vstd::prelude::*;

verus! {

/// The current instant in microseconds since the Unix epoch, UTC.
///
/// Trusted: calls `chrono::Utc::now` and reads the instant with
/// `DateTime::timestamp_micros`. The result depends on the machine's clock,
/// so nothing is claimed of it. `Utc::now` aborts when the system clock is
/// set before the epoch.
#[verifier::external_body]
pub(crate) fn now_micros() -> i64 {
    chrono::Utc::now().timestamp_micros()
}

} // verus!
