//! The event bridge: four prioritized event sources merged into one strictly
//! ordered control loop that drives a policy object.

use vstd::prelude::*;

use crate::channel::{poll, send, wait_ready, Polled};
use crate::control::{
    ControlEvent, HandlerResponse, Interest, PowerEventKind, ServiceError, SessionChangeReason,
};

verus! {

/// The capability set the bridge drives: a tick interval, the interest set to
/// subscribe with, and one callback per event category.
///
/// Timestamps are passed in seconds; the bridge never reads a clock itself.
pub trait Callbacks {
    /// Seconds between two timer ticks.
    fn tick_duration(&self) -> u64;

    /// The event categories to subscribe to.
    fn listen(&self) -> Interest;

    /// Called once per timer tick with the tick's timestamp.
    fn on_tick(&mut self, now: u64) -> Result<(), ServiceError>;

    /// Called for each dequeued power notification, stamped with its
    /// enqueue time.
    fn on_power_event(&mut self, kind: PowerEventKind, now: u64) -> Result<(), ServiceError>;

    /// Called for each dequeued session-change notification.
    fn on_session_change(&mut self, reason: SessionChangeReason) -> Result<(), ServiceError>;
}

/// The producer ends of the four queues, handed to the notification callback
/// and to the timer.
pub struct EventSinks {
    pub shutdown: crossbeam_channel::Sender<()>,
    pub power: crossbeam_channel::Sender<(PowerEventKind, u64)>,
    pub session: crossbeam_channel::Sender<SessionChangeReason>,
    pub tick: crossbeam_channel::Sender<u64>,
}

/// The consumer ends of the four queues, drained only by the control loop.
pub struct EventSources {
    pub shutdown: crossbeam_channel::Receiver<()>,
    pub power: crossbeam_channel::Receiver<(PowerEventKind, u64)>,
    pub session: crossbeam_channel::Receiver<SessionChangeReason>,
    pub tick: crossbeam_channel::Receiver<u64>,
}

/// Creates the three notification queues and the tick queue.
pub fn event_channels() -> (EventSinks, EventSources) {
    let (shutdown_tx, shutdown_rx) = crossbeam_channel::unbounded::<()>();
    let (power_tx, power_rx) = crossbeam_channel::unbounded::<(PowerEventKind, u64)>();
    let (session_tx, session_rx) = crossbeam_channel::unbounded::<SessionChangeReason>();
    let (tick_tx, tick_rx) = crossbeam_channel::unbounded::<u64>();
    (
        EventSinks { shutdown: shutdown_tx, power: power_tx, session: session_tx, tick: tick_tx },
        EventSources {
            shutdown: shutdown_rx,
            power: power_rx,
            session: session_rx,
            tick: tick_rx,
        },
    )
}

/// Routes one notification from the operating-system callback into its queue
/// and answers the callback: handled for a stop request and for every event
/// inside the interest set, not implemented outside it. Never blocks; fails
/// only when a queue's consumer end is gone.
pub fn route_control(
    sinks: &EventSinks,
    interest: Interest,
    event: ControlEvent,
    now: u64,
) -> (r: Result<HandlerResponse, ServiceError>)
    ensures
        match event {
            ControlEvent::Shutdown => r == Ok::<HandlerResponse, ServiceError>(
                HandlerResponse::Handled,
            ) || r == Err::<HandlerResponse, ServiceError>(ServiceError::Channel),
            ControlEvent::Power(_) => if interest.power {
                r == Ok::<HandlerResponse, ServiceError>(HandlerResponse::Handled) || r
                    == Err::<HandlerResponse, ServiceError>(ServiceError::Channel)
            } else {
                r == Ok::<HandlerResponse, ServiceError>(HandlerResponse::NotImplemented)
            },
            ControlEvent::Session(_) => if interest.session {
                r == Ok::<HandlerResponse, ServiceError>(HandlerResponse::Handled) || r
                    == Err::<HandlerResponse, ServiceError>(ServiceError::Channel)
            } else {
                r == Ok::<HandlerResponse, ServiceError>(HandlerResponse::NotImplemented)
            },
            ControlEvent::Unknown => r == Ok::<HandlerResponse, ServiceError>(
                HandlerResponse::NotImplemented,
            ),
        },
{
    match event {
        ControlEvent::Shutdown => {
            if send(&sinks.shutdown, ()) {
                Ok(HandlerResponse::Handled)
            } else {
                Err(ServiceError::Channel)
            }
        },
        ControlEvent::Power(kind) => {
            if interest.power {
                if send(&sinks.power, (kind, now)) {
                    Ok(HandlerResponse::Handled)
                } else {
                    Err(ServiceError::Channel)
                }
            } else {
                Ok(HandlerResponse::NotImplemented)
            }
        },
        ControlEvent::Session(reason) => {
            if interest.session {
                if send(&sinks.session, reason) {
                    Ok(HandlerResponse::Handled)
                } else {
                    Err(ServiceError::Channel)
                }
            } else {
                Ok(HandlerResponse::NotImplemented)
            }
        },
        ControlEvent::Unknown => Ok(HandlerResponse::NotImplemented),
    }
}

/// What one iteration of the control loop decided: go on, or stop for good.
#[derive(Clone, Copy, Debug, PartialEq, Eq, Structural)]
pub enum LoopStep {
    Continue,
    Stop,
}

/// One iteration of the control loop; the caller repeats it until it yields
/// `Ok(Stop)` or an error. The choice among ready sources is biased: each
/// source is polled only while every higher-priority one is empty, so a
/// pending shutdown item ends the loop with `Ok(Stop)` before any other
/// source is touched, a power item is serviced before a session item, and
/// the timer tick only when no real notification waits. A dequeued power,
/// session or tick item is handed to the policy synchronously, a callback
/// failure aborting the loop with that error. With all four sources empty
/// the iteration blocks until one becomes ready, then yields `Continue` so
/// that readiness is judged afresh. `Err(Channel)` reports a source whose
/// producer end was unexpectedly closed.
pub fn handle_next_event<C: Callbacks>(callbacks: &mut C, sources: &EventSources) -> (r: Result<
    LoopStep,
    ServiceError,
>)
    ensures
        r == Ok::<LoopStep, ServiceError>(LoopStep::Stop) ==> *final(callbacks) == *old(
            callbacks,
        ),
{
    match poll(&sources.shutdown) {
        Polled::Item(_) => Ok(LoopStep::Stop),
        Polled::Closed => Err(ServiceError::Channel),
        Polled::Empty => match poll(&sources.power) {
            Polled::Item(item) => {
                let (kind, now) = item;
                match callbacks.on_power_event(kind, now) {
                    Ok(()) => Ok(LoopStep::Continue),
                    Err(e) => Err(e),
                }
            },
            Polled::Closed => Err(ServiceError::Channel),
            Polled::Empty => match poll(&sources.session) {
                Polled::Item(reason) => {
                    match callbacks.on_session_change(reason) {
                        Ok(()) => Ok(LoopStep::Continue),
                        Err(e) => Err(e),
                    }
                },
                Polled::Closed => Err(ServiceError::Channel),
                Polled::Empty => match poll(&sources.tick) {
                    Polled::Item(now) => {
                        match callbacks.on_tick(now) {
                            Ok(()) => Ok(LoopStep::Continue),
                            Err(e) => Err(e),
                        }
                    },
                    Polled::Closed => Err(ServiceError::Channel),
                    Polled::Empty => {
                        wait_ready(
                            &sources.shutdown,
                            &sources.power,
                            &sources.session,
                            &sources.tick,
                        );
                        Ok(LoopStep::Continue)
                    },
                },
            },
        },
    }
}

} // verus!
