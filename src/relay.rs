use vstd::prelude::*;
use crate::detector::{signal_present, EventState};
use crate::gate::{lemma_gate_holds_through_replay, reopen_time, GateState};
use crate::policy::{is_valid, valid_duration, MIC_DISABLE_DELAY_MS};

verus! {

/// What the loop around the relay has to do after a sample.
#[derive(Clone, Copy, Debug, PartialEq, Eq, Structural)]
pub enum Outcome {
    /// Nothing changed.
    Quiet,
    /// A beep began: set the indicator active.
    Started,
    /// A beep ended outside the duration policy: set the indicator inactive
    /// and drop it.
    Ignored { duration: u32 },
    /// A valid beep ended: set the indicator inactive and replay it for
    /// `duration` milliseconds. Sampling is already suspended.
    Replay { duration: u32 },
}

/// The detection and replay state of the device.
#[derive(Clone, Copy, Debug, PartialEq, Eq, Structural)]
pub struct Relay {
    pub event: EventState,
    pub gate: GateState,
}

impl Relay {
    /// Sampling is suspended only after a completed beep, never during one.
    pub open spec fn inv(self) -> bool {
        !(self.gate is Closed && self.event is InEvent)
    }

    /// A relay with no beep in progress and sampling active.
    pub fn new() -> (r: Relay)
        ensures
            r.event == EventState::Idle,
            r.gate == GateState::Open,
            r.inv(),
    {
        Relay { event: EventState::Idle, gate: GateState::Open }
    }

    /// Decides whether the microphone may be sampled at `now`, reopening the
    /// gate once its time has come.
    pub fn tick_gate(&mut self, now: u32) -> (r: bool)
        ensures
            r == old(self).gate.permits(now),
            final(self).gate == old(self).gate.after_tick(now),
            final(self).event == old(self).event,
            old(self).inv() ==> final(self).inv(),
    {
        self.gate.tick(now)
    }

    /// Suspends sampling for the settle delay and the replay of a valid beep
    /// of `duration` milliseconds that ended at `now`.
    pub fn handle_valid_event(&mut self, now: u32, duration: u32)
        requires
            valid_duration(duration),
        ensures
            final(self).gate == (GateState::Closed { reopen_at: reopen_time(now, duration) }),
            final(self).event == old(self).event,
    {
        self.gate.close_for(now, duration);
    }

    /// The relay and the outcome after a sample of `amplitude` at `now`.
    pub open spec fn after_sample(self, now: u32, amplitude: u16) -> (Relay, Outcome) {
        if self.gate is Closed {
            (self, Outcome::Quiet)
        } else {
            let event = self.event.next(now, amplitude);
            match self.event.emitted(now, amplitude) {
                None => (
                    Relay { event, gate: self.gate },
                    if self.event is Idle && signal_present(amplitude) {
                        Outcome::Started
                    } else {
                        Outcome::Quiet
                    },
                ),
                Some(e) => if valid_duration(e.duration) {
                    (
                        Relay {
                            event,
                            gate: GateState::Closed { reopen_at: reopen_time(now, e.duration) },
                        },
                        Outcome::Replay { duration: e.duration },
                    )
                } else {
                    (Relay { event, gate: self.gate }, Outcome::Ignored { duration: e.duration })
                },
            }
        }
    }

    /// Feeds the sample of `amplitude` taken at `now` through the detector
    /// and the duration policy. A closed gate takes no samples.
    pub fn on_sample(&mut self, now: u32, amplitude: u16) -> (r: Outcome)
        ensures
            (*final(self), r) == old(self).after_sample(now, amplitude),
            old(self).inv() ==> final(self).inv(),
    {
        if let GateState::Closed { .. } = self.gate {
            return Outcome::Quiet;
        }
        let was_idle = match self.event {
            EventState::Idle => true,
            EventState::InEvent { .. } => false,
        };
        match self.event.observe(now, amplitude) {
            None => {
                match self.event {
                    EventState::InEvent { .. } => if was_idle {
                        Outcome::Started
                    } else {
                        Outcome::Quiet
                    },
                    EventState::Idle => Outcome::Quiet,
                }
            },
            Some(e) => {
                if is_valid(e.duration) {
                    self.handle_valid_event(now, e.duration);
                    Outcome::Replay { duration: e.duration }
                } else {
                    Outcome::Ignored { duration: e.duration }
                }
            },
        }
    }
}

/// A beep that ends outside the duration policy leaves `GateState` as it was,
/// and so does any sample, whatever its amplitude, while sampling is suspended.
pub proof fn lemma_invalid_event_keeps_gate(relay: Relay, now: u32, amplitude: u16)
    requires
        relay.gate is Closed || (relay.event.emitted(now, amplitude) is Some
            && !valid_duration(relay.event.emitted(now, amplitude)->Some_0.duration)),
    ensures
        relay.after_sample(now, amplitude).0.gate == relay.gate,
{
}

/// After a sample that makes the relay replay a beep of `duration`
/// milliseconds, no tick permits sampling, and `GateState` stays `Closed`, until
/// `MIC_DISABLE_DELAY_MS + duration` milliseconds have elapsed since `now`.
/// This holds wherever that reopening time does not wrap past the clock's width.
pub proof fn lemma_no_sampling_during_replay(
    relay: Relay,
    now: u32,
    amplitude: u16,
    duration: u32,
    times: Seq<u32>,
)
    requires
        relay.after_sample(now, amplitude).1 == (Outcome::Replay { duration }),
        now as int + MIC_DISABLE_DELAY_MS as int + duration as int <= u32::MAX,
        forall|i: int|
            0 <= i < times.len() ==> now <= #[trigger] times[i] && times[i] - now
                < MIC_DISABLE_DELAY_MS + duration,
    ensures
        ({
            let g = relay.after_sample(now, amplitude).0.gate;
            &&& g is Closed
            &&& g.after_ticks(times) == g
            &&& forall|i: int| 0 <= i < times.len() ==> !g.after_ticks(times.take(i)).permits(#[trigger] times[i])
        }),
{
    lemma_gate_holds_through_replay(now, duration, times);
}

/// A sample at or below the threshold never sets the indicator active, and
/// leaves an idle relay exactly as it was.
pub proof fn lemma_quiet_sample_keeps_idle(relay: Relay, now: u32, amplitude: u16)
    requires
        !signal_present(amplitude),
    ensures
        relay.after_sample(now, amplitude).1 != Outcome::Started,
        relay.event is Idle ==> relay.after_sample(now, amplitude) == (relay, Outcome::Quiet),
{
}

} // verus!
