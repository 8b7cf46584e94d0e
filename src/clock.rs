//! The wall clock, in milliseconds since the Unix epoch.
use vstd::prelude::*;

verus! {

/// Relies on chrono::Local::now and `DateTime::timestamp_millis`; nothing is
/// known of the value, which depends on the time of the call.
#[verifier::external_body]
pub(crate) fn now_millis() -> (r: i64)
{
    chrono::Local::now().timestamp_millis()
}

} // verus!
