//! The control events the service reacts to, the interest set it declares,
//! and the lifecycle reports it sends to its supervisor.

use vstd::prelude::*;

verus! {

/// A power notification, as delivered by the operating system.
#[derive(Clone, Copy, Debug, PartialEq, Eq, Structural)]
pub enum PowerEventKind {
    BatteryLow,
    OemEvent,
    PowerStatusChange,
    QuerySuspend,
    QuerySuspendFailed,
    ResumeAutomatic,
    ResumeCritical,
    ResumeSuspend,
    Suspend,
    PowerSettingChange,
}

/// The reason attached to a session-change notification.
#[derive(Clone, Copy, Debug, PartialEq, Eq, Structural)]
pub enum SessionChangeReason {
    ConsoleConnect,
    ConsoleDisconnect,
    RemoteConnect,
    RemoteDisconnect,
    SessionLogon,
    SessionLogoff,
    SessionLock,
    SessionUnlock,
    SessionRemoteControl,
    SessionCreate,
    SessionTerminate,
}

/// One control notification arriving from the service-control mechanism.
///
/// `Unknown` stands for any control code outside the set this service
/// subscribes to; such events are answered as not implemented and dropped.
#[derive(Clone, Copy, Debug, PartialEq, Eq, Structural)]
pub enum ControlEvent {
    Shutdown,
    Power(PowerEventKind),
    Session(SessionChangeReason),
    Unknown,
}

/// The answer the notification callback returns to the operating system.
#[derive(Clone, Copy, Debug, PartialEq, Eq, Structural)]
pub enum HandlerResponse {
    Handled,
    NotImplemented,
}

/// The event categories a policy subscribes to, plus the mandatory stop
/// control the bridge itself adds.
#[derive(Clone, Copy, Debug, PartialEq, Eq, Structural)]
pub struct Interest {
    pub power: bool,
    pub session: bool,
    pub stop: bool,
}

/// Coarse lifecycle state reported to the supervising service manager.
#[derive(Clone, Copy, Debug, PartialEq, Eq, Structural)]
pub enum LifecycleState {
    Running,
    Stopped,
}

/// The outward-facing status report: lifecycle state, accepted controls,
/// exit code, checkpoint and wait hint. Written at start-up and at shutdown.
#[derive(Clone, Copy, Debug, PartialEq, Eq, Structural)]
pub struct ServiceStatusReport {
    pub state: LifecycleState,
    pub accepted: Interest,
    pub exit_code: u32,
    pub checkpoint: u32,
    pub wait_hint_secs: u64,
}

/// The fatal failure kinds of the engine. Suspend failures are the one
/// recoverable kind: the scheduler retries them on the next tick.
#[derive(Clone, Copy, Debug, PartialEq, Eq, Structural)]
pub enum ServiceError {
    /// The process could not subscribe to the service-control notifications.
    Registration,
    /// The process could not report its lifecycle state to the supervisor.
    StatusReport,
    /// An event source was unexpectedly closed.
    Channel,
    /// The suspend call failed; the schedule is kept and retried.
    Suspend,
}

/// The report issued once event handling is registered: state `Running`,
/// accepting the declared categories plus the mandatory stop control.
pub fn running_report(interest: Interest) -> (r: ServiceStatusReport)
    ensures
        r.state == LifecycleState::Running,
        r.accepted == (Interest { power: interest.power, session: interest.session, stop: true }),
        r.exit_code == 0u32,
        r.checkpoint == 0u32,
        r.wait_hint_secs == 0u64,
{
    ServiceStatusReport {
        state: LifecycleState::Running,
        accepted: Interest { power: interest.power, session: interest.session, stop: true },
        exit_code: 0,
        checkpoint: 0,
        wait_hint_secs: 0,
    }
}

/// The terminal report issued when the loop exits: state `Stopped` with no
/// accepted controls.
pub fn stopped_report() -> (r: ServiceStatusReport)
    ensures
        r.state == LifecycleState::Stopped,
        r.accepted == (Interest { power: false, session: false, stop: false }),
        r.exit_code == 0u32,
        r.checkpoint == 0u32,
        r.wait_hint_secs == 0u64,
{
    ServiceStatusReport {
        state: LifecycleState::Stopped,
        accepted: Interest { power: false, session: false, stop: false },
        exit_code: 0,
        checkpoint: 0,
        wait_hint_secs: 0,
    }
}

} // verus!
