//! The decision taken on every poll: what to announce, how the suppression
//! flag moves, and how long to wait before the next poll.

use vstd::prelude::*;

use crate::state::{Deployment, DeploymentState, MonitorStatus};

verus! {

/// A build announcement is only made while the deployment is younger than
/// this many milliseconds (three minutes).
pub const BUILD_WINDOW_MS: i64 = 180000;

/// Wait between polls while the deployment is not READY.
pub const NOT_READY_POLL_SECS: u64 = 15;

/// Wait between polls once the deployment is READY.
pub const READY_POLL_SECS: u64 = 30;

/// What the caller is asked to do after a poll.
#[derive(Clone, Copy, Debug, PartialEq, Eq, Structural)]
pub enum Action {
    /// Show the "building" desktop notification for the deployment.
    NotifyBuilding,
    /// Show the "ready" desktop notification and open the live URL.
    NotifyReadyAndOpen,
    /// Announce nothing.
    Quiet,
}

/// The outcome of one poll: the action to perform and the pause before the
/// next poll, in seconds.
#[derive(Clone, Copy, Debug, PartialEq, Eq, Structural)]
pub struct StepOutcome {
    pub action: Action,
    pub sleep_secs: u64,
}

/// The body of the "building" desktop notification.
pub fn building_message() -> (r: &'static str)
    ensures
        r@ == "Deployment is building..."@,
{
    "Deployment is building..."
}

/// The body of the "ready" desktop notification.
pub fn ready_message() -> (r: &'static str)
    ensures
        r@ == "Deployment is ready!"@,
{
    "Deployment is ready!"
}

/// The icon shown on both notifications.
pub fn notification_icon() -> (r: &'static str)
    ensures
        r@ == "/images/rucelify.png"@,
{
    "/images/rucelify.png"
}

/// The deployment's age as the decision sees it: the wall-clock difference
/// where the creation instant is representable in local time, and zero where
/// it is not.
pub open spec fn effective_age(now_ms: int, created_ms: int, representable: bool) -> int {
    if representable {
        now_ms - created_ms
    } else {
        0
    }
}

/// Whether the deployment is young enough for a build announcement.
pub open spec fn in_build_window(now_ms: int, created_ms: int, representable: bool) -> bool {
    effective_age(now_ms, created_ms, representable) < BUILD_WINDOW_MS
}

/// The action chosen from the suppression flag, the observed state and the
/// age window.
pub open spec fn next_action(notified: bool, state: DeploymentState, in_window: bool) -> Action {
    if state != DeploymentState::Ready {
        if in_window && state == DeploymentState::Building {
            Action::NotifyBuilding
        } else {
            Action::Quiet
        }
    } else if !notified {
        Action::NotifyReadyAndOpen
    } else {
        Action::Quiet
    }
}

/// The suppression flag after an observation: set exactly while the observed
/// state is READY.
pub open spec fn next_notified(state: DeploymentState) -> bool {
    state == DeploymentState::Ready
}

/// The pause before the next poll, by observed state. A READY deployment
/// whose announcement was already made waits as long as a freshly announced
/// one.
pub open spec fn next_sleep(state: DeploymentState) -> u64 {
    if state != DeploymentState::Ready {
        NOT_READY_POLL_SECS
    } else {
        READY_POLL_SECS
    }
}

/// Decides whether the deployment is young enough for a build announcement,
/// without overflowing on extreme timestamps.
pub fn within_build_window(now_ms: i64, created_ms: i64, representable: bool) -> (r: bool)
    ensures
        r == in_build_window(now_ms as int, created_ms as int, representable),
{
    if !representable {
        true
    } else {
        match now_ms.checked_sub(created_ms) {
            Some(diff) => diff < BUILD_WINDOW_MS,
            None => now_ms < created_ms,
        }
    }
}

/// One turn of the poll loop, with the clock readings passed in: updates the
/// monitor and says what to do and how long to pause.
pub fn poll_step(
    status: &mut MonitorStatus,
    d: &Deployment,
    now_ms: i64,
    created_representable: bool,
) -> (out: StepOutcome)
    ensures
        out.action == next_action(
            old(status).ready_notified,
            d.state,
            in_build_window(now_ms as int, d.created_ms as int, created_representable),
        ),
        out.sleep_secs == next_sleep(d.state),
        final(status).ready_notified == next_notified(d.state),
        final(status).last_seen == Some(d.state),
        final(status).wf(),
{
    let in_window = within_build_window(now_ms, d.created_ms, created_representable);
    let action: Action = if d.state != DeploymentState::Ready {
        if in_window && d.state == DeploymentState::Building {
            Action::NotifyBuilding
        } else {
            Action::Quiet
        }
    } else if !status.ready_notified {
        Action::NotifyReadyAndOpen
    } else {
        Action::Quiet
    };
    let sleep_secs: u64 = if d.state != DeploymentState::Ready {
        NOT_READY_POLL_SECS
    } else {
        READY_POLL_SECS
    };
    status.ready_notified = d.state == DeploymentState::Ready;
    status.last_seen = Some(d.state);
    StepOutcome { action, sleep_secs }
}

/// One turn of the poll loop against the machine's own clock and time zone.
/// The clock readings are not promised anything, so the contract states only
/// what holds whatever they were; notably, the "ready" announcement does not
/// depend on them at all.
pub fn poll_once(status: &mut MonitorStatus, d: &Deployment) -> (out: StepOutcome)
    ensures
        final(status).ready_notified == next_notified(d.state),
        final(status).last_seen == Some(d.state),
        final(status).wf(),
        out.sleep_secs == next_sleep(d.state),
        (out.action == Action::NotifyReadyAndOpen) <==> (d.state == DeploymentState::Ready
            && !old(status).ready_notified),
        out.action == Action::NotifyBuilding ==> d.state == DeploymentState::Building,
        d.state != DeploymentState::Building && d.state != DeploymentState::Ready ==> out.action
            == Action::Quiet,
        d.state == DeploymentState::Ready && old(status).ready_notified ==> out.action
            == Action::Quiet,
{
    let now_ms = crate::clock::local_now_millis();
    let representable = crate::clock::local_millis_representable(d.created_ms);
    poll_step(status, d, now_ms, representable)
}

} // verus!
