//! The shutdown coordinator: once triggered it asks for every live window to
//! be destroyed, then for the grace interval to pass, then for the process to
//! exit. It cannot be triggered twice and never turns back.

use vstd::prelude::*;
use crate::model::{label_views, lists_windows, Windows};
use crate::registry::WindowRegistry;

verus! {

/// The grace interval between the last destroy request and the exit, in
/// milliseconds.
pub const GRACE_INTERVAL_MS: u64 = 100;

/// The exit code of an orderly shutdown.
pub const EXIT_CODE: i32 = 0;

/// How far a shutdown has come.
#[derive(Clone, Copy, Debug, PartialEq, Eq, Structural)]
pub enum ShutdownPhase {
    /// No shutdown was asked for.
    Idle,
    /// Windows are being destroyed.
    Closing,
    /// Every destroy request is out and the grace interval was asked for.
    Waiting,
    /// The exit was asked for.
    Exited,
}

/// What the host is to do next during a shutdown.
#[derive(Clone, Debug, PartialEq, Eq)]
pub enum ShutdownAction {
    /// Destroy the window with this label; a failure is not reported back.
    Destroy(String),
    /// Let this many milliseconds pass.
    Wait(u64),
    /// End the process with this exit code.
    Exit(i32),
}

/// The mathematical value of a `ShutdownAction`.
pub enum ShutdownActionView {
    Destroy(Seq<char>),
    Wait(nat),
    Exit(int),
}

impl View for ShutdownAction {
    type V = ShutdownActionView;

    open spec fn view(&self) -> ShutdownActionView {
        match self {
            ShutdownAction::Destroy(label) => ShutdownActionView::Destroy(label@),
            ShutdownAction::Wait(millis) => ShutdownActionView::Wait(*millis as nat),
            ShutdownAction::Exit(code) => ShutdownActionView::Exit(*code as int),
        }
    }
}

/// The mathematical value of a coordinator: its phase, and the windows that
/// are still to be destroyed. They are taken from the back.
pub struct CoordinatorState {
    pub phase: ShutdownPhase,
    pub pending: Seq<Seq<char>>,
}

/// A coordinator that was never triggered.
pub open spec fn idle() -> CoordinatorState {
    CoordinatorState { phase: ShutdownPhase::Idle, pending: Seq::empty() }
}

/// What holds of every coordinator: no window is pending twice, and none is
/// pending outside the closing phase.
pub open spec fn coordinator_well_formed(state: CoordinatorState) -> bool {
    &&& state.pending.no_duplicates()
    &&& state.phase != ShutdownPhase::Closing ==> state.pending.len() == 0
}

/// Whether `after` is `before` triggered over `windows`: an idle coordinator
/// starts closing with every live window pending, in some order; any other
/// stays as it is.
pub open spec fn triggered(before: CoordinatorState, windows: Windows, after: CoordinatorState) -> bool {
    if before.phase == ShutdownPhase::Idle {
        &&& after.phase == ShutdownPhase::Closing
        &&& lists_windows(after.pending, windows)
    } else {
        after == before
    }
}

/// One step of a shutdown: the next state, the windows left, and the action
/// asked of the host, if any.
pub open spec fn shutdown_step(state: CoordinatorState, windows: Windows) -> (
    CoordinatorState,
    Windows,
    Option<ShutdownActionView>,
) {
    match state.phase {
        ShutdownPhase::Idle => (state, windows, None),
        ShutdownPhase::Closing => if state.pending.len() > 0 {
            (
                CoordinatorState {
                    phase: ShutdownPhase::Closing,
                    pending: state.pending.drop_last(),
                },
                windows.remove(state.pending.last()),
                Some(ShutdownActionView::Destroy(state.pending.last())),
            )
        } else {
            (
                CoordinatorState { phase: ShutdownPhase::Waiting, pending: state.pending },
                windows,
                Some(ShutdownActionView::Wait(GRACE_INTERVAL_MS as nat)),
            )
        },
        ShutdownPhase::Waiting => (
            CoordinatorState { phase: ShutdownPhase::Exited, pending: state.pending },
            windows,
            Some(ShutdownActionView::Exit(EXIT_CODE as int)),
        ),
        ShutdownPhase::Exited => (state, windows, None),
    }
}

/// The view of an optional action.
pub open spec fn action_view(action: Option<ShutdownAction>) -> Option<ShutdownActionView> {
    match action {
        Some(a) => Some(a@),
        None => None,
    }
}

/// Drives the ordered exit of the application.
pub struct ShutdownCoordinator {
    phase: ShutdownPhase,
    pending: Vec<String>,
}

impl View for ShutdownCoordinator {
    type V = CoordinatorState;

    closed spec fn view(&self) -> CoordinatorState {
        CoordinatorState { phase: self.phase, pending: label_views(self.pending@) }
    }
}

impl ShutdownCoordinator {
    /// The coordinator's invariant.
    pub open spec fn wf(&self) -> bool {
        coordinator_well_formed(self@)
    }

    /// A coordinator that was not triggered yet.
    pub fn new() -> (coordinator: ShutdownCoordinator)
        ensures
            coordinator.wf(),
            coordinator@ == idle(),
    {
        let coordinator = ShutdownCoordinator { phase: ShutdownPhase::Idle, pending: Vec::new() };
        assert(coordinator@.pending =~= Seq::<Seq<char>>::empty());
        coordinator
    }

    /// The phase that the shutdown is in.
    pub fn phase(&self) -> (phase: ShutdownPhase)
        ensures
            phase == self@.phase,
    {
        self.phase
    }

    /// Whether a shutdown was triggered, however far it has come.
    pub fn in_progress(&self) -> (running: bool)
        ensures
            running == (self@.phase != ShutdownPhase::Idle),
    {
        match self.phase {
            ShutdownPhase::Idle => false,
            _ => true,
        }
    }

    /// Triggers the shutdown over the windows that are live now. Only the
    /// first trigger counts: it returns `true` and takes the snapshot; every
    /// later one returns `false` and changes nothing.
    pub(crate) fn trigger(&mut self, registry: &WindowRegistry) -> (started: bool)
        requires
            old(self).wf(),
            registry.wf(),
        ensures
            final(self).wf(),
            triggered(old(self)@, registry@, final(self)@),
            started == (old(self)@.phase == ShutdownPhase::Idle),
    {
        match self.phase {
            ShutdownPhase::Idle => {
                self.pending = registry.labels();
                self.phase = ShutdownPhase::Closing;
                true
            },
            _ => false,
        }
    }

    /// Takes one step of the shutdown and returns what the host is to do
    /// next: first one destroy request for each window of the snapshot, which
    /// the registry forgets at once, then the grace interval, then the exit.
    /// Before a trigger and after the exit there is nothing to do.
    pub fn next_action(&mut self, registry: &mut WindowRegistry) -> (action: Option<ShutdownAction>)
        requires
            old(self).wf(),
            old(registry).wf(),
        ensures
            final(self).wf(),
            final(registry).wf(),
            (final(self)@, final(registry)@, action_view(action)) == shutdown_step(
                old(self)@,
                old(registry)@,
            ),
    {
        match self.phase {
            ShutdownPhase::Idle => None,
            ShutdownPhase::Closing => {
                let ghost before = self.pending@;
                match self.pending.pop() {
                    Some(label) => {
                        proof {
                            assert(label_views(self.pending@) =~= label_views(before).drop_last());
                            assert(label@ == label_views(before).last());
                        }
                        let _ = registry.remove(label.as_str());
                        Some(ShutdownAction::Destroy(label))
                    },
                    None => {
                        self.phase = ShutdownPhase::Waiting;
                        Some(ShutdownAction::Wait(GRACE_INTERVAL_MS))
                    },
                }
            },
            ShutdownPhase::Waiting => {
                self.phase = ShutdownPhase::Exited;
                Some(ShutdownAction::Exit(EXIT_CODE))
            },
            ShutdownPhase::Exited => None,
        }
    }
}

/// Where a number of shutdown steps lead: the coordinator and the windows
/// at the end, and the actions asked of the host on the way, in order.
pub struct ShutdownRun {
    pub state: CoordinatorState,
    pub windows: Windows,
    pub actions: Seq<ShutdownActionView>,
}

/// The run of `steps` shutdown steps from `state` over `windows`.
pub open spec fn shutdown_run(state: CoordinatorState, windows: Windows, steps: nat) -> ShutdownRun
    decreases steps,
{
    if steps == 0 {
        ShutdownRun { state, windows, actions: Seq::empty() }
    } else {
        let (next, left, action) = shutdown_step(state, windows);
        let rest = shutdown_run(next, left, (steps - 1) as nat);
        ShutdownRun {
            state: rest.state,
            windows: rest.windows,
            actions: match action {
                Some(a) => seq![a] + rest.actions,
                None => rest.actions,
            },
        }
    }
}

/// One destroy request for each pending window, the last pending first.
pub open spec fn destroy_requests(pending: Seq<Seq<char>>) -> Seq<ShutdownActionView> {
    Seq::new(pending.len(), |i: int| ShutdownActionView::Destroy(pending[pending.len() - 1 - i]))
}

/// The whole of a shutdown: the destroy requests, then the grace interval,
/// then the exit.
pub open spec fn closing_sequence(pending: Seq<Seq<char>>) -> Seq<ShutdownActionView> {
    destroy_requests(pending) + seq![
        ShutdownActionView::Wait(GRACE_INTERVAL_MS as nat),
        ShutdownActionView::Exit(EXIT_CODE as int),
    ]
}

/// The state in which a shutdown ends.
pub open spec fn exited() -> CoordinatorState {
    CoordinatorState { phase: ShutdownPhase::Exited, pending: Seq::empty() }
}

/// A closing coordinator reaches the exit in as many steps as windows are
/// pending and two more. On the way it asks for each pending window to be
/// destroyed, then for the grace interval, then for the exit, and it leaves
/// none of the pending windows live.
pub proof fn lemma_closing_run(state: CoordinatorState, windows: Windows)
    requires
        state.phase == ShutdownPhase::Closing,
    ensures
        shutdown_run(state, windows, state.pending.len() + 2) == (ShutdownRun {
            state: exited(),
            windows: windows.remove_keys(state.pending.to_set()),
            actions: closing_sequence(state.pending),
        }),
    decreases state.pending.len(),
{
    let pending = state.pending;
    let run = shutdown_run(state, windows, pending.len() + 2);
    if pending.len() == 0 {
        reveal_with_fuel(shutdown_run, 3);
        assert(pending =~= Seq::<Seq<char>>::empty());
        assert(run.actions =~= closing_sequence(pending));
        assert(run.windows =~= windows.remove_keys(pending.to_set()));
    } else {
        let (next, left, action) = shutdown_step(state, windows);
        lemma_closing_run(next, left);
        let rest = shutdown_run(next, left, next.pending.len() + 2);
        assert(next.pending.len() + 2 == (pending.len() + 2 - 1) as nat);
        assert(run.actions == seq![ShutdownActionView::Destroy(pending.last())] + rest.actions);
        assert(run.actions =~= closing_sequence(pending));
        assert(pending.drop_last().to_set().insert(pending.last()) =~= pending.to_set()) by {
            assert forall|label: Seq<char>| pending.to_set().contains(label) implies pending.drop_last().to_set().insert(
                pending.last(),
            ).contains(label) by {
                let k = choose|k: int| 0 <= k < pending.len() && pending[k] == label;
                if k < pending.len() - 1 {
                    assert(pending.drop_last()[k] == label);
                }
            }
            assert forall|label: Seq<char>| pending.drop_last().to_set().contains(
                label,
            ) implies pending.to_set().contains(label) by {
                let k = choose|k: int| 0 <= k < pending.drop_last().len() && pending.drop_last()[k] == label;
                assert(pending[k] == label);
            }
            assert(pending[pending.len() - 1] == pending.last());
        }
        assert(run.windows =~= windows.remove_keys(pending.to_set()));
    }
}

} // verus!
