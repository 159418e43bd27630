use vstd::prelude::*;

verus! {

/// Time between two samples of the microphone, in milliseconds.
pub const SAMPLE_RATE_MS: u32 = 1;

/// Raw amplitude that a sample must strictly exceed to count as signal.
pub const DETECTION_THRESHOLD: u16 = 2000;

/// Smallest duration, in milliseconds, of a beep that is replayed.
pub const MIN_BEEP_DURATION_MS: u32 = 50;

/// Largest duration, in milliseconds, of a beep that is replayed.
pub const MAX_BEEP_DURATION_MS: u32 = 3000;

/// Frequency of the replayed tone, in hertz.
pub const REPLAY_FREQUENCY_HZ: u32 = 300;

/// Settle delay before a replay, and the extra time the input stays gated.
pub const MIC_DISABLE_DELAY_MS: u32 = 50;

/// The policy on beep durations, inclusive at both ends.
pub open spec fn valid_duration(duration: u32) -> bool {
    MIN_BEEP_DURATION_MS <= duration && duration <= MAX_BEEP_DURATION_MS
}

/// Whether a beep of `duration` milliseconds is within the replay policy.
pub fn is_valid(duration: u32) -> (r: bool)
    ensures
        r == valid_duration(duration),
{
    MIN_BEEP_DURATION_MS <= duration && duration <= MAX_BEEP_DURATION_MS
}

/// How a replay drives the emitter: wait `settle_ms`, set the duty to `duty`,
/// hold it for `hold_ms`, then set the duty back to zero.
#[derive(Clone, Copy, Debug, PartialEq, Eq, Structural)]
pub struct ReplayPlan {
    pub settle_ms: u32,
    pub duty: u32,
    pub hold_ms: u32,
}

/// The replay of a beep of `duration` milliseconds on an emitter whose full
/// duty is `max_duty`: half duty, held for the beep's own duration.
pub fn replay_plan(duration: u32, max_duty: u32) -> (r: ReplayPlan)
    ensures
        r.settle_ms == MIC_DISABLE_DELAY_MS,
        r.duty == max_duty / 2,
        r.hold_ms == duration,
{
    ReplayPlan { settle_ms: MIC_DISABLE_DELAY_MS, duty: max_duty / 2, hold_ms: duration }
}

} // verus!
