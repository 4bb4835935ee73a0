use autosleep::control::{
    ControlEvent, HandlerResponse, Interest, LifecycleState, PowerEventKind, ServiceError,
    SessionChangeReason,
};
use autosleep::events::{
    event_channels, handle_next_event, route_control, Callbacks, LoopStep,
};
use autosleep::service::{AutoSleeper, SuspendPort};

struct FakePort {
    outcomes: Vec<bool>,
    calls: usize,
}

impl FakePort {
    fn new(outcomes: &[bool]) -> FakePort {
        FakePort { outcomes: outcomes.to_vec(), calls: 0 }
    }
}

impl SuspendPort for FakePort {
    fn request_suspend(&mut self) -> Result<(), ServiceError> {
        let i = self.calls;
        self.calls += 1;
        assert!(i < self.outcomes.len(), "unexpected suspend attempt");
        if self.outcomes[i] {
            Ok(())
        } else {
            Err(ServiceError::Suspend)
        }
    }
}

fn full_interest() -> Interest {
    Interest { power: true, session: true, stop: false }
}

#[test]
fn route_stop_is_handled_and_queued() {
    let (sinks, sources) = event_channels();
    let r = route_control(&sinks, full_interest(), ControlEvent::Shutdown, 1_000);
    assert_eq!(r, Ok(HandlerResponse::Handled));
    assert_eq!(sources.shutdown.try_recv(), Ok(()));
}

#[test]
fn route_power_inside_interest_is_queued_with_its_timestamp() {
    let (sinks, sources) = event_channels();
    let r = route_control(
        &sinks,
        full_interest(),
        ControlEvent::Power(PowerEventKind::ResumeAutomatic),
        1_234,
    );
    assert_eq!(r, Ok(HandlerResponse::Handled));
    assert_eq!(sources.power.try_recv(), Ok((PowerEventKind::ResumeAutomatic, 1_234)));
}

#[test]
fn route_session_inside_interest_is_queued() {
    let (sinks, sources) = event_channels();
    let r = route_control(
        &sinks,
        full_interest(),
        ControlEvent::Session(SessionChangeReason::SessionUnlock),
        1_000,
    );
    assert_eq!(r, Ok(HandlerResponse::Handled));
    assert_eq!(sources.session.try_recv(), Ok(SessionChangeReason::SessionUnlock));
}

#[test]
fn route_outside_interest_is_not_implemented_and_dropped() {
    let (sinks, sources) = event_channels();
    let no_interest = Interest { power: false, session: false, stop: false };
    let r = route_control(
        &sinks,
        no_interest,
        ControlEvent::Power(PowerEventKind::ResumeAutomatic),
        1_000,
    );
    assert_eq!(r, Ok(HandlerResponse::NotImplemented));
    let r = route_control(
        &sinks,
        no_interest,
        ControlEvent::Session(SessionChangeReason::SessionUnlock),
        1_000,
    );
    assert_eq!(r, Ok(HandlerResponse::NotImplemented));
    let r = route_control(&sinks, full_interest(), ControlEvent::Unknown, 1_000);
    assert_eq!(r, Ok(HandlerResponse::NotImplemented));
    assert!(sources.power.is_empty());
    assert!(sources.session.is_empty());
    assert!(sources.shutdown.is_empty());
}

#[test]
fn route_into_closed_queue_reports_channel_error() {
    let (sinks, sources) = event_channels();
    drop(sources);
    let r = route_control(&sinks, full_interest(), ControlEvent::Shutdown, 1_000);
    assert_eq!(r, Err(ServiceError::Channel));
}

#[test]
fn scenario_shutdown_wins_and_leaves_the_rest_unprocessed() {
    let (sinks, sources) = event_channels();
    // A tick and a session item are pending when the shutdown item arrives.
    sinks.tick.send(5_000).unwrap();
    route_control(
        &sinks,
        full_interest(),
        ControlEvent::Session(SessionChangeReason::SessionUnlock),
        4_000,
    )
    .unwrap();
    route_control(&sinks, full_interest(), ControlEvent::Shutdown, 4_500).unwrap();

    let mut sleeper = AutoSleeper::new(FakePort::new(&[]));
    sleeper.power_event(PowerEventKind::ResumeAutomatic, 1_000);
    let before = sleeper.can_suspend;

    assert_eq!(handle_next_event(&mut sleeper, &sources), Ok(LoopStep::Stop));
    // The policy was never invoked and the other items are still queued.
    assert_eq!(sleeper.can_suspend, before);
    assert_eq!(sleeper.port.calls, 0);
    assert_eq!(sources.session.try_recv(), Ok(SessionChangeReason::SessionUnlock));
    assert_eq!(sources.tick.try_recv(), Ok(5_000));
}

#[test]
fn sources_are_serviced_in_priority_order() {
    let (sinks, sources) = event_channels();
    // Arrival order: tick, then session, then power.
    sinks.tick.send(9_000).unwrap();
    route_control(
        &sinks,
        full_interest(),
        ControlEvent::Session(SessionChangeReason::SessionUnlock),
        2_000,
    )
    .unwrap();
    route_control(
        &sinks,
        full_interest(),
        ControlEvent::Power(PowerEventKind::ResumeAutomatic),
        3_000,
    )
    .unwrap();

    let mut sleeper = AutoSleeper::new(FakePort::new(&[]));
    // Power is serviced first: the schedule is armed.
    assert_eq!(handle_next_event(&mut sleeper, &sources), Ok(LoopStep::Continue));
    assert_eq!(sleeper.can_suspend, Some(3_300));
    assert!(!sources.session.is_empty());
    // Session next: the schedule is disarmed.
    assert_eq!(handle_next_event(&mut sleeper, &sources), Ok(LoopStep::Continue));
    assert_eq!(sleeper.can_suspend, None);
    assert!(!sources.tick.is_empty());
    // The tick comes last.
    assert_eq!(handle_next_event(&mut sleeper, &sources), Ok(LoopStep::Continue));
    assert!(sources.tick.is_empty());
    assert_eq!(sleeper.port.calls, 0);
}

#[test]
fn items_within_a_queue_keep_arrival_order() {
    let (sinks, sources) = event_channels();
    route_control(
        &sinks,
        full_interest(),
        ControlEvent::Power(PowerEventKind::ResumeAutomatic),
        1_000,
    )
    .unwrap();
    route_control(
        &sinks,
        full_interest(),
        ControlEvent::Power(PowerEventKind::ResumeCritical),
        2_000,
    )
    .unwrap();
    let mut sleeper = AutoSleeper::new(FakePort::new(&[]));
    assert_eq!(handle_next_event(&mut sleeper, &sources), Ok(LoopStep::Continue));
    assert_eq!(sleeper.can_suspend, Some(1_300));
    assert_eq!(handle_next_event(&mut sleeper, &sources), Ok(LoopStep::Continue));
    assert_eq!(sleeper.can_suspend, Some(2_300));
}

#[test]
fn due_tick_through_the_bridge_drives_the_suspend_call() {
    let (sinks, sources) = event_channels();
    route_control(
        &sinks,
        full_interest(),
        ControlEvent::Power(PowerEventKind::ResumeAutomatic),
        1_000,
    )
    .unwrap();
    sinks.tick.send(1_300).unwrap();
    let mut sleeper = AutoSleeper::new(FakePort::new(&[true]));
    assert_eq!(handle_next_event(&mut sleeper, &sources), Ok(LoopStep::Continue));
    assert_eq!(handle_next_event(&mut sleeper, &sources), Ok(LoopStep::Continue));
    assert_eq!(sleeper.can_suspend, None);
    assert_eq!(sleeper.port.calls, 1);
}

#[test]
fn closed_source_is_fatal() {
    let (sinks, sources) = event_channels();
    drop(sinks);
    let mut sleeper = AutoSleeper::new(FakePort::new(&[]));
    assert_eq!(handle_next_event(&mut sleeper, &sources), Err(ServiceError::Channel));
}

/// A policy whose callbacks fail, to check that failures abort the loop.
struct FailingCallbacks;

impl Callbacks for FailingCallbacks {
    fn tick_duration(&self) -> u64 {
        60
    }

    fn listen(&self) -> Interest {
        Interest { power: true, session: true, stop: false }
    }

    fn on_tick(&mut self, _now: u64) -> Result<(), ServiceError> {
        Err(ServiceError::StatusReport)
    }

    fn on_power_event(&mut self, _kind: PowerEventKind, _now: u64) -> Result<(), ServiceError> {
        Err(ServiceError::StatusReport)
    }

    fn on_session_change(&mut self, _reason: SessionChangeReason) -> Result<(), ServiceError> {
        Err(ServiceError::StatusReport)
    }
}

#[test]
fn callback_failure_aborts_the_loop() {
    let (sinks, sources) = event_channels();
    route_control(
        &sinks,
        full_interest(),
        ControlEvent::Power(PowerEventKind::ResumeAutomatic),
        1_000,
    )
    .unwrap();
    let mut callbacks = FailingCallbacks;
    assert_eq!(handle_next_event(&mut callbacks, &sources), Err(ServiceError::StatusReport));
}

#[test]
fn lifecycle_reports_carry_the_declared_controls() {
    let running = autosleep::control::running_report(full_interest());
    assert_eq!(running.state, LifecycleState::Running);
    assert_eq!(running.accepted, Interest { power: true, session: true, stop: true });
    assert_eq!(running.exit_code, 0);
    assert_eq!(running.checkpoint, 0);
    assert_eq!(running.wait_hint_secs, 0);

    let stopped = autosleep::control::stopped_report();
    assert_eq!(stopped.state, LifecycleState::Stopped);
    assert_eq!(stopped.accepted, Interest { power: false, session: false, stop: false });
    assert_eq!(stopped.exit_code, 0);
}
