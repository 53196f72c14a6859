use hcsr04::button::{ButtonWatcher, Edge, Press};
use hcsr04::distance::distance_um;
use hcsr04::measurer::{settle_race, Command, Event, RangeMeasurer, Stage};
use hcsr04::timing::{CYCLE_IDLE_US, ECHO_TIMEOUT_US, RESET_ASSERT_US};

/// Feeds `Done` until the machine is listening, collecting the commands seen.
fn run_trigger(m: &mut RangeMeasurer) -> Vec<Command> {
    let mut seen = Vec::new();
    while m.stage() != Stage::Listen {
        seen.push(m.command());
        m.handle(Event::Done);
    }
    seen
}

#[test]
fn distance_of_a_millisecond_echo() {
    assert_eq!(distance_um(1000), 171_500);
    assert_eq!(distance_um(1000) as f64 / 1e6, 0.1715);
}

#[test]
fn distance_edge_values() {
    assert_eq!(distance_um(0), 0);
    assert_eq!(distance_um(1), 0);
    assert_eq!(distance_um(3), 343);
    assert_eq!(distance_um(ECHO_TIMEOUT_US), 6_860_000);
    assert_eq!(distance_um(u64::MAX), (u64::MAX / 2) as u128 * 343);
}

#[test]
fn trigger_pulse_sequence() {
    let mut m = RangeMeasurer::new();
    assert_eq!(m.stage(), Stage::TriggerLow);
    let seen = run_trigger(&mut m);
    assert_eq!(
        seen,
        vec![
            Command::SetTrigger { high: false },
            Command::Wait { us: 5 },
            Command::SetTrigger { high: true },
            Command::Wait { us: 10 },
            Command::SetTrigger { high: false },
        ]
    );
    assert_eq!(m.command(), Command::ListenForEcho { timeout_us: 40_000 });
}

#[test]
fn silent_echo_resets_sensor_then_retriggers() {
    let mut m = RangeMeasurer::new();
    run_trigger(&mut m);
    m.handle(Event::Timeout);
    let mut seen = Vec::new();
    while m.stage() != Stage::TriggerLow {
        seen.push(m.command());
        m.handle(Event::Done);
    }
    assert_eq!(
        seen,
        vec![
            Command::SetReset { high: false },
            Command::Wait { us: RESET_ASSERT_US },
            Command::SetReset { high: true },
        ]
    );
    assert_eq!(RESET_ASSERT_US, 50_000);
    assert!(seen.iter().all(|c| !matches!(c, Command::ReportDistance { .. })));
    // a second attempt runs the same trigger pulse
    assert_eq!(run_trigger(&mut m).len(), 5);
}

#[test]
fn stale_echo_during_reset_is_ignored() {
    let mut m = RangeMeasurer::new();
    run_trigger(&mut m);
    m.handle(Event::Timeout);
    m.handle(Event::Echo { elapsed_us: 1000 });
    assert_eq!(m.stage(), Stage::ResetAssert);
    m.handle(Event::Done);
    m.handle(Event::Echo { elapsed_us: 1000 });
    assert_eq!(m.stage(), Stage::ResetHold);
}

#[test]
fn listening_ignores_done() {
    let mut m = RangeMeasurer::new();
    run_trigger(&mut m);
    m.handle(Event::Done);
    assert_eq!(m.stage(), Stage::Listen);
}

#[test]
fn echo_reports_distance_then_idles_one_second() {
    let mut m = RangeMeasurer::new();
    run_trigger(&mut m);
    m.handle(Event::Echo { elapsed_us: 1000 });
    assert_eq!(m.command(), Command::ReportDistance { distance_um: 171_500 });
    m.handle(Event::Done);
    assert_eq!(m.stage(), Stage::Idle);
    assert_eq!(m.command(), Command::Wait { us: CYCLE_IDLE_US });
    assert_eq!(CYCLE_IDLE_US, 1_000_000);
    m.handle(Event::Timeout);
    assert_eq!(m.stage(), Stage::Idle);
    m.handle(Event::Done);
    assert_eq!(m.stage(), Stage::TriggerLow);
}

#[test]
fn repeated_cycles_keep_the_same_cadence() {
    let mut m = RangeMeasurer::new();
    for _ in 0..3 {
        assert_eq!(run_trigger(&mut m).len(), 5);
        m.handle(Event::Echo { elapsed_us: 2000 });
        assert_eq!(m.command(), Command::ReportDistance { distance_um: 343_000 });
        m.handle(Event::Done);
        assert_eq!(m.command(), Command::Wait { us: 1_000_000 });
        m.handle(Event::Done);
    }
}

#[test]
fn race_tie_goes_to_echo() {
    assert_eq!(
        settle_race(true, true, ECHO_TIMEOUT_US),
        Some(Event::Echo { elapsed_us: 40_000 })
    );
    assert_eq!(settle_race(true, false, 17), Some(Event::Echo { elapsed_us: 17 }));
    assert_eq!(settle_race(false, true, 40_000), Some(Event::Timeout));
    assert_eq!(settle_race(false, false, 3), None);
    let mut m = RangeMeasurer::new();
    run_trigger(&mut m);
    m.handle(settle_race(true, true, ECHO_TIMEOUT_US).unwrap());
    assert_eq!(m.command(), Command::ReportDistance { distance_um: 6_860_000 });
}

#[test]
fn button_press_then_release() {
    let mut b = ButtonWatcher::new();
    assert_eq!(b.awaited(), Edge::Rising);
    assert_eq!(b.on_edge(Edge::Rising), Some(Press::Pressed));
    assert_eq!(b.awaited(), Edge::Falling);
    assert_eq!(b.on_edge(Edge::Falling), Some(Press::Released));
    assert_eq!(b.awaited(), Edge::Rising);
}

#[test]
fn button_no_double_press() {
    let mut b = ButtonWatcher::new();
    let edges = [
        Edge::Falling,
        Edge::Rising,
        Edge::Rising,
        Edge::Falling,
        Edge::Falling,
        Edge::Rising,
    ];
    let reports: Vec<Press> = edges.iter().filter_map(|e| b.on_edge(*e)).collect();
    assert_eq!(reports, vec![Press::Pressed, Press::Released, Press::Pressed]);
    assert_eq!(b.awaited(), Edge::Falling);
}
