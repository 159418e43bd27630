use vstd::prelude::*;
use crate::policy::DETECTION_THRESHOLD;

verus! {

/// A completed beep: the milliseconds between its first sample above the
/// threshold and the first sample at or below it.
#[derive(Clone, Copy, Debug, PartialEq, Eq, Structural)]
pub struct DetectedEvent {
    pub duration: u32,
}

/// Whether a beep is in progress.
#[derive(Clone, Copy, Debug, PartialEq, Eq, Structural)]
pub enum EventState {
    /// No beep in progress.
    Idle,
    /// A beep in progress since `start_time`.
    InEvent { start_time: u32 },
}

/// Whether a sample of `amplitude` counts as signal: strictly above the threshold.
pub open spec fn signal_present(amplitude: u16) -> bool {
    amplitude > DETECTION_THRESHOLD
}

/// Milliseconds from `start` to `now` on a clock that wraps at its width.
pub open spec fn elapsed(start: u32, now: u32) -> u32 {
    if now >= start {
        (now - start) as u32
    } else {
        (now - start + 0x1_0000_0000) as u32
    }
}

impl EventState {
    /// The state after a sample of `amplitude` at `now`.
    pub open spec fn next(self, now: u32, amplitude: u16) -> EventState {
        match self {
            EventState::Idle => if signal_present(amplitude) {
                EventState::InEvent { start_time: now }
            } else {
                EventState::Idle
            },
            EventState::InEvent { .. } => if signal_present(amplitude) {
                self
            } else {
                EventState::Idle
            },
        }
    }

    /// The event that a sample of `amplitude` at `now` completes, if any.
    pub open spec fn emitted(self, now: u32, amplitude: u16) -> Option<DetectedEvent> {
        match self {
            EventState::InEvent { start_time } => if signal_present(amplitude) {
                None
            } else {
                Some(DetectedEvent { duration: elapsed(start_time, now) })
            },
            EventState::Idle => None,
        }
    }

    /// Feeds a sample of `amplitude` taken at `now` to the detector, and
    /// returns the beep that it ends, if it ends one.
    pub fn observe(&mut self, now: u32, amplitude: u16) -> (r: Option<DetectedEvent>)
        ensures
            *final(self) == old(self).next(now, amplitude),
            r == old(self).emitted(now, amplitude),
    {
        let present = amplitude > DETECTION_THRESHOLD;
        match *self {
            EventState::Idle => {
                if present {
                    *self = EventState::InEvent { start_time: now };
                }
                None
            },
            EventState::InEvent { start_time } => {
                if present {
                    None
                } else {
                    *self = EventState::Idle;
                    Some(DetectedEvent { duration: now.wrapping_sub(start_time) })
                }
            },
        }
    }
}

/// The state after feeding each of `samples`, as (time, amplitude), to `s`.
pub open spec fn run(s: EventState, samples: Seq<(u32, u16)>) -> EventState
    decreases samples.len(),
{
    if samples.len() == 0 {
        s
    } else {
        run(s, samples.drop_last()).next(samples.last().0, samples.last().1)
    }
}

/// What the detector returns at the `i`-th of `samples`, starting idle.
pub open spec fn event_at(samples: Seq<(u32, u16)>, i: int) -> Option<DetectedEvent> {
    run(EventState::Idle, samples.take(i)).emitted(samples[i].0, samples[i].1)
}

/// Whether the `i`-th of `samples` carries signal.
pub open spec fn above(samples: Seq<(u32, u16)>, i: int) -> bool {
    signal_present(samples[i].1)
}

/// The first index of the maximal run of signal samples that ends at `j`.
pub open spec fn run_start(samples: Seq<(u32, u16)>, j: int) -> int
    decreases j,
{
    if j <= 0 || !above(samples, j - 1) {
        j
    } else {
        run_start(samples, j - 1)
    }
}

/// After the first `k` samples the detector is in a beep exactly when the
/// last of them carries signal, and the beep started at its run's first sample.
proof fn lemma_state_after_prefix(samples: Seq<(u32, u16)>, k: int)
    requires
        0 <= k <= samples.len(),
    ensures
        run(EventState::Idle, samples.take(k)) == if k > 0 && above(samples, k - 1) {
            EventState::InEvent { start_time: samples[run_start(samples, k - 1)].0 }
        } else {
            EventState::Idle
        },
    decreases k,
{
    if k > 0 {
        lemma_state_after_prefix(samples, k - 1);
        assert(samples.take(k).drop_last() =~= samples.take(k - 1));
    }
}

/// Fed a stream of samples from idle, the detector returns an event exactly
/// at each sample at or below the threshold that ends a maximal run of samples
/// above it; the stream's start counts as below the threshold. The event's
/// duration runs from the run's first sample to the sample that ends it.
pub proof fn lemma_events_end_signal_runs(samples: Seq<(u32, u16)>, i: int)
    requires
        0 <= i < samples.len(),
    ensures
        event_at(samples, i) is Some <==> (i > 0 && above(samples, i - 1) && !above(samples, i)),
        event_at(samples, i) is Some ==> event_at(samples, i) == Some(
            DetectedEvent { duration: elapsed(samples[run_start(samples, i - 1)].0, samples[i].0) },
        ),
{
    lemma_state_after_prefix(samples, i);
}

/// Fed samples that all stay at or below the threshold, the detector never
/// leaves idle, so it never starts a beep nor returns an event.
pub proof fn lemma_quiet_input_stays_idle(samples: Seq<(u32, u16)>)
    requires
        forall|i: int| 0 <= i < samples.len() ==> !#[trigger] above(samples, i),
    ensures
        forall|k: int| 0 <= k <= samples.len() ==> #[trigger] run(EventState::Idle, samples.take(k)) == EventState::Idle,
        forall|i: int| 0 <= i < samples.len() ==> #[trigger] event_at(samples, i) is None,
{
    assert forall|k: int| 0 <= k <= samples.len() implies #[trigger] run(EventState::Idle, samples.take(k)) == EventState::Idle by {
        lemma_state_after_prefix(samples, k);
    }
    assert forall|i: int| 0 <= i < samples.len() implies #[trigger] event_at(samples, i) is None by {
        lemma_state_after_prefix(samples, i);
    }
}

} // verus!
