//! The wall clock, read as whole seconds since the Unix epoch.

use vstd::prelude::*;

verus! {

/// Calls `time::OffsetDateTime::now_utc().unix_timestamp().unsigned_abs()`.
///
/// Nothing is promised of the value: it is whatever the system clock says.
#[verifier::external_body]
pub(crate) fn unix_now() -> (now: u64) {
    time::OffsetDateTime::now_utc().unix_timestamp().unsigned_abs()
}

} // verus!
