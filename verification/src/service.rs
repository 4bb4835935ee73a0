//! The suspend scheduler: the policy that arms a suspend deadline on a
//! qualifying resume, disarms it when a user plausibly attends the session,
//! and drives the retry-safe suspend call once the deadline passes.

use vstd::prelude::*;

use crate::control::{Interest, PowerEventKind, ServiceError, SessionChangeReason};
use crate::events::Callbacks;

verus! {

/// Seconds a user has to reconnect after a resume before suspend is due.
pub const GRACE_PERIOD_SECS: u64 = 300;

/// Seconds between two timer ticks; a failed suspend is retried at this pace.
pub const TICK_INTERVAL_SECS: u64 = 60;

/// The opaque fallible suspend operation, implemented by the embedder over
/// the machine's power subsystem. It carries no state the scheduler reads:
/// the scheduler only acts on which of the two outcomes a call had.
pub trait SuspendPort {
    fn request_suspend(&mut self) -> Result<(), ServiceError>;
}

/// Which power-event kinds arm the schedule and which session-change reasons
/// disarm it. The sets are configuration, not constants of the scheduler.
pub struct PolicyConfig {
    pub resume_kinds: Vec<PowerEventKind>,
    pub present_reasons: Vec<SessionChangeReason>,
}

/// The resume variants that arm a suspend by default.
pub open spec fn default_resume_kinds() -> Seq<PowerEventKind> {
    seq![
        PowerEventKind::ResumeAutomatic,
        PowerEventKind::ResumeCritical,
        PowerEventKind::ResumeSuspend,
    ]
}

/// The session-change reasons that signal an attended session by default.
pub open spec fn default_present_reasons() -> Seq<SessionChangeReason> {
    seq![
        SessionChangeReason::ConsoleConnect,
        SessionChangeReason::RemoteConnect,
        SessionChangeReason::SessionLogon,
        SessionChangeReason::SessionUnlock,
        SessionChangeReason::SessionRemoteControl,
        SessionChangeReason::SessionCreate,
    ]
}

impl Default for PolicyConfig {
    /// The default qualifying sets: the three resume variants arm, the six
    /// user-present reasons disarm.
    fn default() -> (r: Self)
        ensures
            r.resume_kinds@ == default_resume_kinds(),
            r.present_reasons@ == default_present_reasons(),
    {
        let mut resume_kinds: Vec<PowerEventKind> = Vec::new();
        resume_kinds.push(PowerEventKind::ResumeAutomatic);
        resume_kinds.push(PowerEventKind::ResumeCritical);
        resume_kinds.push(PowerEventKind::ResumeSuspend);
        let mut present_reasons: Vec<SessionChangeReason> = Vec::new();
        present_reasons.push(SessionChangeReason::ConsoleConnect);
        present_reasons.push(SessionChangeReason::RemoteConnect);
        present_reasons.push(SessionChangeReason::SessionLogon);
        present_reasons.push(SessionChangeReason::SessionUnlock);
        present_reasons.push(SessionChangeReason::SessionRemoteControl);
        present_reasons.push(SessionChangeReason::SessionCreate);
        proof {
            assert(resume_kinds@ =~= default_resume_kinds());
            assert(present_reasons@ =~= default_present_reasons());
        }
        PolicyConfig { resume_kinds, present_reasons }
    }
}

/// Whether `v` holds `kind`.
fn contains_kind(v: &Vec<PowerEventKind>, kind: PowerEventKind) -> (r: bool)
    ensures
        r == v@.contains(kind),
{
    let mut i: usize = 0;
    while i < v.len()
        invariant
            0 <= i <= v@.len(),
            forall|j: int| 0 <= j < i ==> v@[j] != kind,
        decreases v@.len() - i,
    {
        if v[i] == kind {
            assert(v@.contains(kind));
            return true;
        }
        i = i + 1;
    }
    false
}

/// Whether `v` holds `reason`.
fn contains_reason(v: &Vec<SessionChangeReason>, reason: SessionChangeReason) -> (r: bool)
    ensures
        r == v@.contains(reason),
{
    let mut i: usize = 0;
    while i < v.len()
        invariant
            0 <= i <= v@.len(),
            forall|j: int| 0 <= j < i ==> v@[j] != reason,
        decreases v@.len() - i,
    {
        if v[i] == reason {
            assert(v@.contains(reason));
            return true;
        }
        i = i + 1;
    }
    false
}

/// The deadline armed at `now`: the grace period later, clamped to the top
/// of the clock's range.
pub open spec fn arm_time(now: u64) -> u64 {
    if now + GRACE_PERIOD_SECS <= u64::MAX {
        (now + GRACE_PERIOD_SECS) as u64
    } else {
        u64::MAX
    }
}

/// The scheduler. Its entire mutable state is `can_suspend`: `None` while
/// idle, `Some(t)` while a suspend attempt is due at instant `t`. A new
/// qualifying resume always replaces, never stacks, an existing deadline.
pub struct AutoSleeper<P: SuspendPort> {
    pub config: PolicyConfig,
    pub can_suspend: Option<u64>,
    pub port: P,
}

/// A power or session notification, as the schedule model sees it.
#[derive(Clone, Copy, Debug, PartialEq, Eq, Structural)]
pub enum PolicyEvent {
    Power(PowerEventKind, u64),
    Session(SessionChangeReason),
}

/// How one power or session notification transforms the schedule: a
/// qualifying resume arms the deadline for its timestamp, a qualifying
/// user-present reason disarms, anything else leaves the schedule alone.
pub open spec fn step_schedule(
    resume_kinds: Seq<PowerEventKind>,
    present_reasons: Seq<SessionChangeReason>,
    schedule: Option<u64>,
    event: PolicyEvent,
) -> Option<u64> {
    match event {
        PolicyEvent::Power(kind, now) => if resume_kinds.contains(kind) {
            Some(arm_time(now))
        } else {
            schedule
        },
        PolicyEvent::Session(reason) => if present_reasons.contains(reason) {
            None
        } else {
            schedule
        },
    }
}

/// The schedule after a whole sequence of notifications, oldest first.
pub open spec fn run_schedule(
    resume_kinds: Seq<PowerEventKind>,
    present_reasons: Seq<SessionChangeReason>,
    schedule: Option<u64>,
    events: Seq<PolicyEvent>,
) -> Option<u64>
    decreases events.len(),
{
    if events.len() == 0 {
        schedule
    } else {
        step_schedule(
            resume_kinds,
            present_reasons,
            run_schedule(resume_kinds, present_reasons, schedule, events.drop_last()),
            events.last(),
        )
    }
}

/// What one tick did.
#[derive(Clone, Copy, Debug, PartialEq, Eq, Structural)]
pub enum TickOutcome {
    /// Nothing is scheduled.
    Idle,
    /// A deadline is armed but not yet reached.
    Waiting,
    /// Suspend was attempted and succeeded; the schedule is cleared.
    Suspended,
    /// Suspend was attempted and failed; the deadline is kept for retry.
    SuspendFailed,
}

impl<P: SuspendPort> AutoSleeper<P> {
    /// Whether `kind` is a qualifying resume under this configuration.
    pub open spec fn is_resume(&self, kind: PowerEventKind) -> bool {
        self.config.resume_kinds@.contains(kind)
    }

    /// Whether `reason` signals an attended session under this configuration.
    pub open spec fn is_user_present(&self, reason: SessionChangeReason) -> bool {
        self.config.present_reasons@.contains(reason)
    }

    /// An idle scheduler with the default qualifying sets.
    pub fn new(port: P) -> (r: Self)
        ensures
            r.can_suspend is None,
            r.config.resume_kinds@ == default_resume_kinds(),
            r.config.present_reasons@ == default_present_reasons(),
            r.port == port,
    {
        AutoSleeper { config: PolicyConfig::default(), can_suspend: None, port }
    }

    /// An idle scheduler with the given qualifying sets.
    pub fn with_config(port: P, config: PolicyConfig) -> (r: Self)
        ensures
            r.can_suspend is None,
            r.config == config,
            r.port == port,
    {
        AutoSleeper { config, can_suspend: None, port }
    }

    /// A qualifying resume arms (or re-arms) the deadline at `now` plus the
    /// grace period, overwriting any earlier one; every other power event
    /// leaves the schedule unchanged.
    pub fn power_event(&mut self, kind: PowerEventKind, now: u64)
        ensures
            final(self).config == old(self).config,
            final(self).port == old(self).port,
            final(self).can_suspend == step_schedule(
                old(self).config.resume_kinds@,
                old(self).config.present_reasons@,
                old(self).can_suspend,
                PolicyEvent::Power(kind, now),
            ),
            old(self).is_resume(kind) ==> final(self).can_suspend == Some(arm_time(now)),
            !old(self).is_resume(kind) ==> final(self).can_suspend == old(self).can_suspend,
    {
        if contains_kind(&self.config.resume_kinds, kind) {
            self.can_suspend = Some(now.saturating_add(GRACE_PERIOD_SECS));
        }
    }

    /// A qualifying user-present reason disarms the schedule whatever its
    /// state; every other session change leaves it unchanged.
    pub fn session_change(&mut self, reason: SessionChangeReason)
        ensures
            final(self).config == old(self).config,
            final(self).port == old(self).port,
            final(self).can_suspend == step_schedule(
                old(self).config.resume_kinds@,
                old(self).config.present_reasons@,
                old(self).can_suspend,
                PolicyEvent::Session(reason),
            ),
            old(self).is_user_present(reason) ==> final(self).can_suspend is None,
            !old(self).is_user_present(reason) ==> final(self).can_suspend == old(self).can_suspend,
    {
        if contains_reason(&self.config.present_reasons, reason) {
            self.can_suspend = None;
        }
    }

    /// Applies the outcome of one suspend attempt: success clears the
    /// schedule, failure keeps the deadline untouched for the next tick.
    pub fn apply_suspend_result(&mut self, success: bool)
        ensures
            final(self).config == old(self).config,
            final(self).port == old(self).port,
            success ==> final(self).can_suspend is None,
            !success ==> final(self).can_suspend == old(self).can_suspend,
    {
        if success {
            self.can_suspend = None;
        }
    }

    /// One timer tick at instant `now`. While idle, or before the armed
    /// deadline, the schedule is untouched and no suspend is attempted. Once
    /// `now` reaches the deadline, suspend is attempted exactly once: on
    /// success the schedule is cleared, on failure the same deadline is kept,
    /// so the next tick retries.
    pub fn tick(&mut self, now: u64) -> (r: TickOutcome)
        ensures
            final(self).config == old(self).config,
            match old(self).can_suspend {
                None => r == TickOutcome::Idle && final(self).can_suspend is None
                    && final(self).port == old(self).port,
                Some(t) => if now < t {
                    r == TickOutcome::Waiting && final(self).can_suspend == Some(t)
                        && final(self).port == old(self).port
                } else {
                    (r == TickOutcome::Suspended && final(self).can_suspend is None) || (r
                        == TickOutcome::SuspendFailed && final(self).can_suspend == Some(t))
                },
            },
    {
        match self.can_suspend {
            None => TickOutcome::Idle,
            Some(t) => {
                if now < t {
                    TickOutcome::Waiting
                } else {
                    let success = match self.port.request_suspend() {
                        Ok(()) => true,
                        Err(_) => false,
                    };
                    self.apply_suspend_result(success);
                    if success {
                        TickOutcome::Suspended
                    } else {
                        TickOutcome::SuspendFailed
                    }
                }
            },
        }
    }
}

impl<P: SuspendPort> Callbacks for AutoSleeper<P> {
    /// The fixed tick interval: sixty seconds.
    fn tick_duration(&self) -> (r: u64)
        ensures
            r == TICK_INTERVAL_SECS,
    {
        TICK_INTERVAL_SECS
    }

    /// Subscribes to power and session events; the bridge adds stop itself.
    fn listen(&self) -> (r: Interest)
        ensures
            r == (Interest { power: true, session: true, stop: false }),
    {
        Interest { power: true, session: true, stop: false }
    }

    /// A tick behaves as `tick` says, and never reports failure: a failed
    /// suspend is kept for retry, not propagated.
    fn on_tick(&mut self, now: u64) -> (r: Result<(), ServiceError>)
        ensures
            r == Ok::<(), ServiceError>(()),
            final(self).config == old(self).config,
            match old(self).can_suspend {
                None => final(self).can_suspend is None && final(self).port == old(self).port,
                Some(t) => if now < t {
                    final(self).can_suspend == Some(t) && final(self).port == old(self).port
                } else {
                    final(self).can_suspend is None || final(self).can_suspend == Some(t)
                },
            },
    {
        let _ = self.tick(now);
        Ok(())
    }

    /// A power notification behaves as `power_event` says, and never fails.
    fn on_power_event(&mut self, kind: PowerEventKind, now: u64) -> (r: Result<(), ServiceError>)
        ensures
            r == Ok::<(), ServiceError>(()),
            final(self).config == old(self).config,
            final(self).port == old(self).port,
            final(self).can_suspend == step_schedule(
                old(self).config.resume_kinds@,
                old(self).config.present_reasons@,
                old(self).can_suspend,
                PolicyEvent::Power(kind, now),
            ),
    {
        self.power_event(kind, now);
        Ok(())
    }

    /// A session notification behaves as `session_change` says, and never
    /// fails.
    fn on_session_change(&mut self, reason: SessionChangeReason) -> (r: Result<(), ServiceError>)
        ensures
            r == Ok::<(), ServiceError>(()),
            final(self).config == old(self).config,
            final(self).port == old(self).port,
            final(self).can_suspend == step_schedule(
                old(self).config.resume_kinds@,
                old(self).config.present_reasons@,
                old(self).can_suspend,
                PolicyEvent::Session(reason),
            ),
    {
        self.session_change(reason);
        Ok(())
    }
}

/// Law: after any sequence of power and session notifications whose last is
/// a qualifying resume, the schedule is armed at that resume's deadline,
/// regardless of the prior state.
pub proof fn lemma_armed_after_resume(
    resume_kinds: Seq<PowerEventKind>,
    present_reasons: Seq<SessionChangeReason>,
    schedule: Option<u64>,
    events: Seq<PolicyEvent>,
    kind: PowerEventKind,
    now: u64,
)
    requires
        resume_kinds.contains(kind),
    ensures
        run_schedule(
            resume_kinds,
            present_reasons,
            schedule,
            events.push(PolicyEvent::Power(kind, now)),
        ) == Some(arm_time(now)),
{
    let pushed = events.push(PolicyEvent::Power(kind, now));
    assert(pushed.last() == PolicyEvent::Power(kind, now));
    assert(pushed.drop_last() =~= events);
}

/// Law: after any sequence of power and session notifications whose last is
/// a qualifying user-present session change, the schedule is disarmed,
/// regardless of the prior state.
pub proof fn lemma_idle_after_user_present(
    resume_kinds: Seq<PowerEventKind>,
    present_reasons: Seq<SessionChangeReason>,
    schedule: Option<u64>,
    events: Seq<PolicyEvent>,
    reason: SessionChangeReason,
)
    requires
        present_reasons.contains(reason),
    ensures
        run_schedule(
            resume_kinds,
            present_reasons,
            schedule,
            events.push(PolicyEvent::Session(reason)),
        ) is None,
{
    let pushed = events.push(PolicyEvent::Session(reason));
    assert(pushed.last() == PolicyEvent::Session(reason));
    assert(pushed.drop_last() =~= events);
}

/// Law: a power event outside the resume set, or a session change outside
/// the user-present set, never changes the schedule.
pub proof fn lemma_non_qualifying_unchanged(
    resume_kinds: Seq<PowerEventKind>,
    present_reasons: Seq<SessionChangeReason>,
    schedule: Option<u64>,
    event: PolicyEvent,
)
    requires
        match event {
            PolicyEvent::Power(kind, _) => !resume_kinds.contains(kind),
            PolicyEvent::Session(reason) => !present_reasons.contains(reason),
        },
    ensures
        step_schedule(resume_kinds, present_reasons, schedule, event) == schedule,
{
}

} // verus!
