//! The data the watcher works on: deployment lifecycle states, the deployment
//! record itself, and the monitor's own memory between polls.

use vstd::prelude::*;
use vstd::string::StrSliceExecFns;

verus! {

/// Lifecycle states a deployment record can report.
#[derive(Clone, Copy, Debug, PartialEq, Eq, Structural)]
pub enum DeploymentState {
    Queued,
    Building,
    Ready,
    Error,
    Canceled,
    /// Any state string the platform may add that the watcher does not act on.
    Other,
}

/// The state denoted by a state string of the platform's API.
pub open spec fn state_of(s: Seq<char>) -> DeploymentState {
    if s == "QUEUED"@ {
        DeploymentState::Queued
    } else if s == "BUILDING"@ {
        DeploymentState::Building
    } else if s == "READY"@ {
        DeploymentState::Ready
    } else if s == "ERROR"@ {
        DeploymentState::Error
    } else if s == "CANCELED"@ {
        DeploymentState::Canceled
    } else {
        DeploymentState::Other
    }
}

/// Character-by-character string comparison, so that state strings can be
/// classified without leaning on an unspecified equality.
pub fn str_eq(a: &str, b: &str) -> (r: bool)
    ensures
        r == (a@ == b@),
{
    let a_len = a.unicode_len();
    let b_len = b.unicode_len();
    if a_len != b_len {
        proof {
            assert(a@ != b@) by {
                if a@ == b@ {
                    assert(a@.len() == b@.len());
                }
            }
        }
        return false;
    }
    let mut i: usize = 0;
    while i < a_len
        invariant
            i <= a_len,
            a_len == a@.len(),
            b_len == b@.len(),
            a_len == b_len,
            forall|j: int| 0 <= j < i ==> a@[j] == b@[j],
        decreases a_len - i,
    {
        if a.get_char(i) != b.get_char(i) {
            proof {
                assert(a@ != b@) by {
                    if a@ == b@ {
                        assert(a@[i as int] == b@[i as int]);
                    }
                }
            }
            return false;
        }
        i += 1;
    }
    proof {
        assert(a@ =~= b@);
    }
    true
}

/// Classifies a state string of the API into a `DeploymentState`.
pub fn parse_state(s: &str) -> (st: DeploymentState)
    ensures
        st == state_of(s@),
{
    if str_eq(s, "QUEUED") {
        DeploymentState::Queued
    } else if str_eq(s, "BUILDING") {
        DeploymentState::Building
    } else if str_eq(s, "READY") {
        DeploymentState::Ready
    } else if str_eq(s, "ERROR") {
        DeploymentState::Error
    } else if str_eq(s, "CANCELED") {
        DeploymentState::Canceled
    } else {
        DeploymentState::Other
    }
}

/// The latest deployment record, reduced to the fields the watcher reads.
#[derive(Debug)]
pub struct Deployment {
    /// The project name; it doubles as the notification summary.
    pub name: String,
    /// Creation time, in milliseconds since the Unix epoch.
    pub created_ms: i64,
    /// The lifecycle state reported for the record.
    pub state: DeploymentState,
}

/// What the monitor remembers from one poll to the next.
#[derive(Clone, Copy, Debug)]
pub struct MonitorStatus {
    /// True while the "ready" announcement for the current READY period has
    /// already been made and must not be repeated.
    pub ready_notified: bool,
    /// The state observed by the most recent poll, if any poll has happened.
    pub last_seen: Option<DeploymentState>,
}

impl MonitorStatus {
    /// The suppression flag may only be set while the most recently observed
    /// state is READY; leaving READY clears it.
    pub open spec fn wf(self) -> bool {
        self.ready_notified ==> self.last_seen == Some(DeploymentState::Ready)
    }

    /// A fresh monitor: nothing observed, nothing announced yet.
    pub fn new() -> (s: Self)
        ensures
            !s.ready_notified,
            s.last_seen.is_none(),
            s.wf(),
    {
        MonitorStatus { ready_notified: false, last_seen: None }
    }
}

} // verus!
