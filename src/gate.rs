use vstd::prelude::*;
use crate::policy::{MAX_BEEP_DURATION_MS, MIC_DISABLE_DELAY_MS};

verus! {

/// Whether the microphone may be sampled.
#[derive(Clone, Copy, Debug, PartialEq, Eq, Structural)]
pub enum GateState {
    /// Sampling is active.
    Open,
    /// Sampling is suspended until the clock reaches `reopen_at`.
    Closed { reopen_at: u32 },
}

/// The clock value at which a gate closed at `now` for a replay of
/// `duration` milliseconds opens again; it wraps at the clock's width.
pub open spec fn reopen_time(now: u32, duration: u32) -> u32 {
    let s = now as int + MIC_DISABLE_DELAY_MS as int + duration as int;
    if s > u32::MAX {
        (s - 0x1_0000_0000) as u32
    } else {
        s as u32
    }
}

impl GateState {
    /// Whether a tick at `now` permits sampling.
    pub open spec fn permits(self, now: u32) -> bool {
        match self {
            GateState::Open => true,
            GateState::Closed { reopen_at } => now >= reopen_at,
        }
    }

    /// The state after a tick at `now`.
    pub open spec fn after_tick(self, now: u32) -> GateState {
        if self.permits(now) {
            GateState::Open
        } else {
            self
        }
    }

    /// The state after ticks at each of `times`, in order.
    pub open spec fn after_ticks(self, times: Seq<u32>) -> GateState
        decreases times.len(),
    {
        if times.len() == 0 {
            self
        } else {
            self.after_ticks(times.drop_last()).after_tick(times.last())
        }
    }

    /// Decides whether sampling is permitted at `now`, resuming it once the
    /// reopening time has come.
    pub fn tick(&mut self, now: u32) -> (r: bool)
        ensures
            r == old(self).permits(now),
            *final(self) == old(self).after_tick(now),
    {
        match *self {
            GateState::Open => true,
            GateState::Closed { reopen_at } => {
                if now >= reopen_at {
                    *self = GateState::Open;
                    true
                } else {
                    false
                }
            },
        }
    }

    /// Suspends sampling from `now` for the settle delay and a replay of
    /// `duration` milliseconds.
    pub fn close_for(&mut self, now: u32, duration: u32)
        requires
            duration <= MAX_BEEP_DURATION_MS,
        ensures
            *final(self) == (GateState::Closed { reopen_at: reopen_time(now, duration) }),
    {
        *self = GateState::Closed { reopen_at: now.wrapping_add(MIC_DISABLE_DELAY_MS + duration) };
    }
}

/// A gate closed at `now` for a replay of `duration` milliseconds permits no
/// sampling, and stays closed, through ticks at any times that fall before
/// `MIC_DISABLE_DELAY_MS + duration` milliseconds have elapsed since `now`.
/// This holds wherever the reopening time does not wrap past the clock's width.
pub proof fn lemma_gate_holds_through_replay(now: u32, duration: u32, times: Seq<u32>)
    requires
        now as int + MIC_DISABLE_DELAY_MS as int + duration as int <= u32::MAX,
        forall|i: int|
            0 <= i < times.len() ==> now <= #[trigger] times[i] && times[i] - now
                < MIC_DISABLE_DELAY_MS + duration,
    ensures
        ({
            let g = GateState::Closed { reopen_at: reopen_time(now, duration) };
            &&& g.after_ticks(times) == g
            &&& forall|i: int| 0 <= i < times.len() ==> !g.after_ticks(times.take(i)).permits(#[trigger] times[i])
        }),
    decreases times.len(),
{
    let g = GateState::Closed { reopen_at: reopen_time(now, duration) };
    if times.len() > 0 {
        let front = times.drop_last();
        lemma_gate_holds_through_replay(now, duration, front);
        assert forall|i: int| 0 <= i < times.len() implies !g.after_ticks(times.take(i)).permits(#[trigger] times[i]) by {
            if i < front.len() {
                assert(times.take(i) =~= front.take(i));
                assert(front[i] == times[i]);
            } else {
                assert(times.take(i) =~= front);
            }
        }
    }
}

} // verus!
