//! The readiness gate: the simulator is ready once its liveness endpoint
//! answers with a success status, and the wait fails once its time is up.

use vstd::prelude::*;
use crate::client::is_success_status;

verus! {

/// How long a start waits for the simulator to become ready.
pub const READINESS_TIMEOUT_MILLIS: u64 = 10000;

/// The pause between two liveness probes.
pub const READINESS_POLL_INTERVAL_MILLIS: u64 = 10;

#[derive(Clone, Copy, PartialEq, Eq, Debug)]
pub enum ReadinessStep {
    /// The probe succeeded: the simulator is ready.
    Ready,
    /// The time is up, whatever the probe said.
    TimedOut,
    /// Pause, then probe again.
    Retry,
}

/// The decision after one probe, taken `elapsed_millis` after the wait began;
/// `status` is the probe's HTTP status, `None` where the probe got no answer.
pub open spec fn readiness_decision(elapsed_millis: u64, timeout_millis: u64, status: Option<u16>) -> ReadinessStep {
    if elapsed_millis > timeout_millis {
        ReadinessStep::TimedOut
    } else if status is Some && is_success_status(status->0) {
        ReadinessStep::Ready
    } else {
        ReadinessStep::Retry
    }
}

/// Decides the next step of the readiness gate; see `readiness_decision`.
pub fn readiness_step(elapsed_millis: u64, timeout_millis: u64, status: Option<u16>) -> (r: ReadinessStep)
    ensures
        r == readiness_decision(elapsed_millis, timeout_millis, status),
{
    if elapsed_millis > timeout_millis {
        ReadinessStep::TimedOut
    } else {
        match status {
            Some(s) => if 200 <= s && s <= 299 {
                ReadinessStep::Ready
            } else {
                ReadinessStep::Retry
            },
            None => ReadinessStep::Retry,
        }
    }
}

/// The outcome of a run of probes, each given as the time it was taken at and
/// its status: the first decision that is not a retry, or a retry where every
/// probe of the run asks for one.
pub open spec fn readiness_outcome(probes: Seq<(u64, Option<u16>)>, timeout_millis: u64) -> ReadinessStep
    decreases probes.len(),
{
    if probes.len() == 0 {
        ReadinessStep::Retry
    } else {
        let d = readiness_decision(probes[0].0, timeout_millis, probes[0].1);
        if d is Retry {
            readiness_outcome(probes.drop_first(), timeout_millis)
        } else {
            d
        }
    }
}

} // verus!
