use vstd::prelude::*;

verus! {

/// Relies on embassy_time::Instant::now and Instant::as_millis: the time since
/// boot, in milliseconds. Nothing is promised of the value.
#[verifier::external_body]
pub(crate) fn now_ms() -> (t: u64) {
    embassy_time::Instant::now().as_millis()
}

} // verus!
