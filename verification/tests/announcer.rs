use echo_router::announcer::{Event, Phase, TimerState, ANNOUNCE_INTERVAL_SECS};

#[test]
fn the_interval_is_ten_seconds() {
    assert_eq!(ANNOUNCE_INTERVAL_SECS, 10);
    assert_eq!(TimerState::new(true).interval_secs, 10);
    assert_eq!(TimerState::new(false).interval_secs, 10);
    assert!(TimerState::new(true).enabled);
    assert!(!TimerState::new(false).enabled);
}

#[test]
fn an_announcer_starts_waiting() {
    assert_eq!(TimerState::new(true).start(), Phase::Waiting);
    assert_eq!(TimerState::new(false).start(), Phase::Waiting);
}

#[test]
fn an_enabled_tick_leads_to_acting() {
    let timer = TimerState::new(true);
    assert_eq!(timer.step(Phase::Waiting, Event::Tick), Phase::Acting);
}

#[test]
fn a_disabled_tick_keeps_waiting() {
    let timer = TimerState::new(false);
    assert_eq!(timer.step(Phase::Waiting, Event::Tick), Phase::Waiting);
}

#[test]
fn a_delivered_announcement_returns_to_waiting() {
    let timer = TimerState::new(true);
    assert_eq!(timer.step(Phase::Acting, Event::Delivered), Phase::Waiting);
}

#[test]
fn a_failed_announcement_stops_the_announcer() {
    let timer = TimerState::new(true);
    assert_eq!(timer.step(Phase::Acting, Event::Failed), Phase::Stopped);
}

#[test]
fn events_out_of_phase_change_nothing() {
    for enabled in [true, false] {
        let timer = TimerState::new(enabled);
        assert_eq!(timer.step(Phase::Waiting, Event::Delivered), Phase::Waiting);
        assert_eq!(timer.step(Phase::Waiting, Event::Failed), Phase::Waiting);
        assert_eq!(timer.step(Phase::Acting, Event::Tick), Phase::Acting);
        for event in [Event::Tick, Event::Delivered, Event::Failed] {
            assert_eq!(timer.step(Phase::Stopped, event), Phase::Stopped);
        }
    }
}

#[test]
fn run_follows_the_events_in_order() {
    let timer = TimerState::new(true);
    assert_eq!(timer.run(Phase::Waiting, &[]), Phase::Waiting);
    assert_eq!(timer.run(Phase::Waiting, &[Event::Tick]), Phase::Acting);
    assert_eq!(
        timer.run(Phase::Waiting, &[Event::Tick, Event::Delivered, Event::Tick, Event::Delivered]),
        Phase::Waiting
    );
    assert_eq!(
        timer.run(Phase::Waiting, &[Event::Tick, Event::Delivered, Event::Tick, Event::Failed]),
        Phase::Stopped
    );
    assert_eq!(
        timer.run(Phase::Waiting, &[Event::Tick, Event::Failed, Event::Tick, Event::Delivered]),
        Phase::Stopped
    );
}

#[test]
fn a_disabled_announcer_never_leaves_waiting() {
    let timer = TimerState::new(false);
    let events = [Event::Tick, Event::Failed, Event::Tick, Event::Delivered, Event::Tick];
    assert_eq!(timer.run(Phase::Waiting, &events), Phase::Waiting);
}
