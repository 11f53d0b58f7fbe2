//! Waiting until the service is healthy.
use vstd::prelude::*;
use vstd::string::*;

verus! {

/// What the wait for a healthy service does next.
#[derive(Debug)]
pub enum HealthStep {
    /// Asks the service how it is.
    Probe,
    /// Waits for some seconds, and looks at the time again.
    Sleep(u64),
    /// Is over.
    Done(Result<(), String>),
}

/// Whether more time has passed than a number of seconds.
pub open spec fn is_past(secs: u64, nanos: u32, timeout_secs: u64) -> bool {
    secs > timeout_secs || (secs == timeout_secs && nanos > 0)
}

/// What the wait does when some time has passed: it gives up when that is more than
/// it has, else it asks.
pub fn before_probe(secs: u64, nanos: u32, timeout_secs: u64) -> (r: HealthStep)
    ensures
        if is_past(secs, nanos, timeout_secs) {
            r matches HealthStep::Done(Err(e)) && e@ == "Health check timed out"@
        } else {
            r is Probe
        },
{
    if secs > timeout_secs || (secs == timeout_secs && nanos > 0) {
        HealthStep::Done(Err("Health check timed out".to_string()))
    } else {
        HealthStep::Probe
    }
}

/// What the wait does when the service was asked: it is over where the service is
/// well, else it goes on after a while.
pub fn after_probe(healthy: bool, interval_secs: u64) -> (r: HealthStep)
    ensures
        if healthy {
            r matches HealthStep::Done(Ok(_))
        } else {
            r matches HealthStep::Sleep(s) && s == interval_secs
        },
{
    if healthy {
        HealthStep::Done(Ok(()))
    } else {
        HealthStep::Sleep(interval_secs)
    }
}

// ── Laws ─────────────────────────────────────────────────────────────────────

/// The service is asked for as long as no more time has passed than there is, to the nanosecond; then
/// the wait is over, as a failure.
pub proof fn law_wait_ends_in_time(secs: u64, nanos: u32, timeout_secs: u64, r: HealthStep)
    requires
        call_ensures(before_probe, (secs, nanos, timeout_secs), r),
        nanos < 1_000_000_000,
    ensures
        r is Probe <==> secs * 1_000_000_000 + nanos <= timeout_secs * 1_000_000_000,
        r !is Probe ==> (r matches HealthStep::Done(Err(e)) && e@ == "Health check timed out"@),
{
}

/// The wait succeeds exactly where the service is well, and goes on after the interval where it is not.
pub proof fn law_wait_goes_on_until_healthy(healthy: bool, interval_secs: u64, r: HealthStep)
    requires
        call_ensures(after_probe, (healthy, interval_secs), r),
    ensures
        healthy <==> r is Done,
        r matches HealthStep::Done(outcome) ==> outcome is Ok,
        !healthy ==> r == HealthStep::Sleep(interval_secs),
{
}

} // verus!
