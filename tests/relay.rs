use beep_relay::detector::{DetectedEvent, EventState};
use beep_relay::gate::GateState;
use beep_relay::policy::{
    is_valid, replay_plan, DETECTION_THRESHOLD, MAX_BEEP_DURATION_MS, MIC_DISABLE_DELAY_MS,
    MIN_BEEP_DURATION_MS,
};
use beep_relay::relay::{Outcome, Relay};

/// Runs the relay as the device loop does: one tick per millisecond from
/// `start`, sampling `amplitudes[i]` at `start + i` when sampling is permitted.
fn drive(relay: &mut Relay, start: u32, amplitudes: &[u16]) -> Vec<(u32, Outcome)> {
    let mut outcomes = Vec::new();
    for (i, &a) in amplitudes.iter().enumerate() {
        let now: u32 = start + i as u32;
        if relay.tick_gate(now) {
            let o = relay.on_sample(now, a);
            if o != Outcome::Quiet {
                outcomes.push((now, o));
            }
        }
    }
    outcomes
}

fn beep(len: usize) -> Vec<u16> {
    let mut v = vec![0u16];
    v.extend(std::iter::repeat(2500u16).take(len));
    v.push(0);
    v
}

#[test]
fn valid_beep_is_replayed() {
    let mut relay = Relay::new();
    let outcomes = drive(&mut relay, 0, &beep(80));
    assert_eq!(outcomes, vec![(1, Outcome::Started), (81, Outcome::Replay { duration: 80 })]);
    assert_eq!(relay.gate, GateState::Closed { reopen_at: 81 + 50 + 80 });
    assert_eq!(relay.event, EventState::Idle);
    let plan = replay_plan(80, 1023);
    assert_eq!(plan.settle_ms, MIC_DISABLE_DELAY_MS);
    assert_eq!(plan.duty, 511);
    assert_eq!(plan.hold_ms, 80);
}

#[test]
fn short_beep_is_ignored() {
    let mut relay = Relay::new();
    let outcomes = drive(&mut relay, 0, &beep(20));
    assert_eq!(outcomes, vec![(1, Outcome::Started), (21, Outcome::Ignored { duration: 20 })]);
    assert_eq!(relay.gate, GateState::Open);
    assert_eq!(relay.event, EventState::Idle);
}

#[test]
fn long_beep_is_ignored() {
    let mut relay = Relay::new();
    let outcomes = drive(&mut relay, 0, &beep(4000));
    assert_eq!(outcomes, vec![(1, Outcome::Started), (4001, Outcome::Ignored { duration: 4000 })]);
    assert_eq!(relay.gate, GateState::Open);
}

#[test]
fn gate_stays_closed_until_reopen_time() {
    let mut relay = Relay { event: EventState::InEvent { start_time: 920 }, gate: GateState::Open };
    assert_eq!(relay.on_sample(1000, 0), Outcome::Replay { duration: 80 });
    assert_eq!(relay.gate, GateState::Closed { reopen_at: 1130 });
    for now in 1000..1130u32 {
        assert!(!relay.tick_gate(now));
        assert_eq!(relay.on_sample(now, 4095), Outcome::Quiet);
        assert_eq!(relay.event, EventState::Idle);
    }
    assert!(relay.tick_gate(1130));
    assert_eq!(relay.gate, GateState::Open);
    assert_eq!(relay.on_sample(1131, 4095), Outcome::Started);
}

#[test]
fn duration_policy_bounds() {
    assert!(is_valid(MIN_BEEP_DURATION_MS));
    assert!(is_valid(MAX_BEEP_DURATION_MS));
    assert!(!is_valid(MIN_BEEP_DURATION_MS - 1));
    assert!(!is_valid(MAX_BEEP_DURATION_MS + 1));
    assert!(!is_valid(0));
    assert!(is_valid(80));
    assert!(!is_valid(u32::MAX));
}

#[test]
fn threshold_is_strict() {
    let mut s = EventState::Idle;
    assert_eq!(s.observe(5, DETECTION_THRESHOLD), None);
    assert_eq!(s, EventState::Idle);
    assert_eq!(s.observe(6, DETECTION_THRESHOLD + 1), None);
    assert_eq!(s, EventState::InEvent { start_time: 6 });
    assert_eq!(s.observe(7, u16::MAX), None);
    assert_eq!(s, EventState::InEvent { start_time: 6 });
    assert_eq!(s.observe(60, DETECTION_THRESHOLD), Some(DetectedEvent { duration: 54 }));
    assert_eq!(s, EventState::Idle);
}

#[test]
fn quiet_input_never_starts_a_beep() {
    let mut relay = Relay::new();
    let quiet: Vec<u16> = (0..500u32).map(|i| (i * 7 % 2001) as u16).collect();
    assert!(drive(&mut relay, 10, &quiet).is_empty());
    assert_eq!(relay.event, EventState::Idle);
    assert_eq!(relay.gate, GateState::Open);
}

#[test]
fn each_signal_run_gives_one_event() {
    let mut s = EventState::Idle;
    let amps: [u16; 10] = [2500, 2500, 0, 0, 3000, 0, 2100, 2100, 2100, 1999];
    let mut events = Vec::new();
    for (t, &a) in amps.iter().enumerate() {
        if let Some(e) = s.observe(100 + 10 * t as u32, a) {
            events.push((t, e.duration));
        }
    }
    assert_eq!(events, vec![(2, 20), (5, 10), (9, 30)]);
}

#[test]
fn duration_wraps_with_the_clock() {
    let mut s = EventState::InEvent { start_time: u32::MAX - 9 };
    assert_eq!(s.observe(20, 0), Some(DetectedEvent { duration: 30 }));
}

#[test]
fn reopen_time_wraps_with_the_clock() {
    let mut gate = GateState::Open;
    gate.close_for(u32::MAX - 9, 100);
    assert_eq!(gate, GateState::Closed { reopen_at: 140 });
    assert!(!gate.tick(139));
    assert!(gate.tick(140));
    assert_eq!(gate, GateState::Open);
}

#[test]
fn handle_valid_event_closes_gate() {
    let mut relay = Relay::new();
    relay.handle_valid_event(2000, 3000);
    assert_eq!(relay.gate, GateState::Closed { reopen_at: 5050 });
    assert!(!relay.tick_gate(5049));
    assert!(relay.tick_gate(5050));
}

#[test]
fn replay_plan_halves_duty() {
    let plan = replay_plan(1234, 8191);
    assert_eq!(plan.duty, 4095);
    assert_eq!(plan.hold_ms, 1234);
    assert_eq!(replay_plan(50, 0).duty, 0);
}
