//! The guarantees the watcher gives across polls, stated and proved over the
//! decision model of `step`.

use vstd::prelude::*;

use crate::state::DeploymentState;
use crate::step::{
    next_action, next_notified, effective_age, in_build_window, Action, BUILD_WINDOW_MS,
};

verus! {

/// A deployment observed in a state other than READY at an age of three
/// minutes or more never draws a build announcement, even while it is
/// BUILDING.
pub proof fn lemma_no_building_when_old(
    notified: bool,
    state: DeploymentState,
    now_ms: int,
    created_ms: int,
    representable: bool,
)
    requires
        state != DeploymentState::Ready,
        effective_age(now_ms, created_ms, representable) >= BUILD_WINDOW_MS,
    ensures
        next_action(notified, state, in_build_window(now_ms, created_ms, representable))
            != Action::NotifyBuilding,
{
}

/// Once a poll has observed READY, the next poll that observes READY again
/// announces nothing: the "ready" notification and the browser launch fire at
/// most once per entry into READY.
pub proof fn lemma_ready_announced_at_most_once(second_window: bool)
    ensures
        next_action(
            next_notified(DeploymentState::Ready),
            DeploymentState::Ready,
            second_window,
        ) == Action::Quiet,
{
}

/// Observing READY, then BUILDING, then READY again announces ready exactly
/// one more time: the poll that sees BUILDING clears the suppression and
/// itself never announces ready.
pub proof fn lemma_rebuild_reannounces(building_window: bool, ready_window: bool)
    ensures
        ({
            let after_ready = next_notified(DeploymentState::Ready);
            let building_action = next_action(
                after_ready,
                DeploymentState::Building,
                building_window,
            );
            let after_building = next_notified(DeploymentState::Building);
            let ready_action = next_action(after_building, DeploymentState::Ready, ready_window);
            building_action != Action::NotifyReadyAndOpen && ready_action
                == Action::NotifyReadyAndOpen
        }),
{
}

/// A creation instant that local time cannot represent is treated as having
/// age zero, so the poll carries on instead of failing.
pub proof fn lemma_unrepresentable_age_is_zero(now_ms: int, created_ms: int)
    ensures
        effective_age(now_ms, created_ms, false) == 0,
        in_build_window(now_ms, created_ms, false),
{
}

/// The actions of a whole run of polls: each observation is the state seen
/// and whether the deployment was inside the build window at that poll.
pub open spec fn run_actions(notified: bool, obs: Seq<(DeploymentState, bool)>) -> Seq<Action>
    decreases obs.len(),
{
    if obs.len() == 0 {
        Seq::empty()
    } else {
        seq![next_action(notified, obs[0].0, obs[0].1)] + run_actions(
            next_notified(obs[0].0),
            obs.drop_first(),
        )
    }
}

/// How many of a run's actions announce ready and open the browser.
pub open spec fn count_ready_announcements(acts: Seq<Action>) -> nat
    decreases acts.len(),
{
    if acts.len() == 0 {
        0
    } else {
        (if acts[0] == Action::NotifyReadyAndOpen {
            1nat
        } else {
            0nat
        }) + count_ready_announcements(acts.drop_first())
    }
}

/// How often a run enters READY while the announcement is still owed: the
/// polls that observe READY at a moment when it has not been announced since
/// the last non-READY observation.
pub open spec fn count_ready_entries(notified: bool, obs: Seq<(DeploymentState, bool)>) -> nat
    decreases obs.len(),
{
    if obs.len() == 0 {
        0
    } else {
        (if obs[0].0 == DeploymentState::Ready && !notified {
            1nat
        } else {
            0nat
        }) + count_ready_entries(next_notified(obs[0].0), obs.drop_first())
    }
}

/// Over any run whatsoever, ready is announced exactly once per entry into
/// READY: never while READY persists, and again as soon as READY is entered
/// anew after a non-READY observation.
pub proof fn lemma_ready_announced_exactly_per_entry(
    notified: bool,
    obs: Seq<(DeploymentState, bool)>,
)
    ensures
        count_ready_announcements(run_actions(notified, obs)) == count_ready_entries(
            notified,
            obs,
        ),
    decreases obs.len(),
{
    if obs.len() > 0 {
        let first_action = next_action(notified, obs[0].0, obs[0].1);
        let rest = obs.drop_first();
        lemma_ready_announced_exactly_per_entry(next_notified(obs[0].0), rest);
        let acts = seq![first_action] + run_actions(next_notified(obs[0].0), rest);
        assert(run_actions(notified, obs) == acts);
        assert(acts.drop_first() =~= run_actions(next_notified(obs[0].0), rest));
        assert(count_ready_announcements(acts) == (if first_action == Action::NotifyReadyAndOpen {
            1nat
        } else {
            0nat
        }) + count_ready_announcements(run_actions(next_notified(obs[0].0), rest)));
    }
}

/// Over any run in which every poll observes READY, ready is announced at
/// most once in total, and not at all if it had already been announced when
/// the run began.
pub proof fn lemma_ready_run_announces_at_most_once(
    notified: bool,
    obs: Seq<(DeploymentState, bool)>,
)
    requires
        forall|i: int| 0 <= i < obs.len() ==> (#[trigger] obs[i]).0 == DeploymentState::Ready,
    ensures
        count_ready_announcements(run_actions(notified, obs)) <= 1,
        notified ==> count_ready_announcements(run_actions(notified, obs)) == 0,
    decreases obs.len(),
{
    if obs.len() > 0 {
        let first_action = next_action(notified, obs[0].0, obs[0].1);
        let rest = obs.drop_first();
        assert(obs[0].0 == DeploymentState::Ready);
        assert forall|i: int| 0 <= i < rest.len() implies (#[trigger] rest[i]).0
            == DeploymentState::Ready by {
            assert(rest[i] == obs[i + 1]);
        }
        lemma_ready_run_announces_at_most_once(true, rest);
        let acts = seq![first_action] + run_actions(true, rest);
        assert(run_actions(notified, obs) == acts);
        assert(acts.drop_first() =~= run_actions(true, rest));
        assert(count_ready_announcements(acts) == (if first_action == Action::NotifyReadyAndOpen {
            1nat
        } else {
            0nat
        }) + count_ready_announcements(run_actions(true, rest)));
    }
}

} // verus!
