//! The close-interception policy: what becomes of a close request on a
//! tracked window. The policy was filed with the window when it was first
//! tracked, and is read from there.

use vstd::prelude::*;
use crate::model::{set_visibility, Windows};
use crate::policy::{policy_for, ClosePolicy};
use crate::registry::WindowRegistry;
use crate::shutdown::{triggered, CoordinatorState, ShutdownCoordinator, ShutdownPhase};

verus! {

/// The answer to a close request.
#[derive(Clone, Copy, Debug, PartialEq, Eq, Structural)]
pub enum CloseDecision {
    /// No window is tracked under the label: nothing is intercepted.
    NotTracked,
    /// Suppress the default close and hide the window.
    Hide,
    /// Suppress the default close and start the shutdown on a worker.
    BeginShutdown,
    /// Suppress the default close; the shutdown is already under way.
    ShutdownUnderWay,
}

impl CloseDecision {
    /// Whether the platform's own close is suppressed. It is for every
    /// tracked window.
    pub open spec fn suppresses_default(self) -> bool {
        self != CloseDecision::NotTracked
    }

    /// Whether the observer must clear the "allow default close" flag.
    pub fn prevents_close(&self) -> (prevent: bool)
        ensures
            prevent == self.suppresses_default(),
    {
        match self {
            CloseDecision::NotTracked => false,
            _ => true,
        }
    }
}

/// How a close request on `label` relates the state before it to the state
/// after it and to the decision.
///
/// An untracked label changes nothing. A tracked secondary window is hidden
/// and stays live, and the coordinator is left alone. The primary window is
/// left as it is, and the coordinator is triggered: the first request begins
/// the shutdown, a later one finds it under way.
pub open spec fn close_request(
    windows: Windows,
    coordinator: CoordinatorState,
    label: Seq<char>,
    windows_after: Windows,
    coordinator_after: CoordinatorState,
    decision: CloseDecision,
) -> bool {
    if !windows.contains_key(label) {
        &&& decision == CloseDecision::NotTracked
        &&& windows_after == windows
        &&& coordinator_after == coordinator
    } else if policy_for(label) == ClosePolicy::Hide {
        &&& decision == CloseDecision::Hide
        &&& windows_after == set_visibility(windows, label, false)
        &&& coordinator_after == coordinator
    } else {
        &&& windows_after == windows
        &&& triggered(coordinator, windows, coordinator_after)
        &&& decision == if coordinator.phase == ShutdownPhase::Idle {
            CloseDecision::BeginShutdown
        } else {
            CloseDecision::ShutdownUnderWay
        }
    }
}

/// Decides a close request on the window named `label`.
pub fn on_close_requested(
    registry: &mut WindowRegistry,
    coordinator: &mut ShutdownCoordinator,
    label: &str,
) -> (decision: CloseDecision)
    requires
        old(registry).wf(),
        old(coordinator).wf(),
    ensures
        final(registry).wf(),
        final(coordinator).wf(),
        close_request(
            old(registry)@,
            old(coordinator)@,
            label@,
            final(registry)@,
            final(coordinator)@,
            decision,
        ),
{
    let policy = match registry.lookup(label) {
        Some(entry) => Some(entry.policy),
        None => None,
    };
    proof {
        registry.lemma_well_formed();
    }
    match policy {
        None => CloseDecision::NotTracked,
        Some(ClosePolicy::Hide) => {
            let _ = registry.set_visible(label, false);
            CloseDecision::Hide
        },
        Some(ClosePolicy::Shutdown) => {
            if coordinator.trigger(registry) {
                CloseDecision::BeginShutdown
            } else {
                CloseDecision::ShutdownUnderWay
            }
        },
    }
}

} // verus!
