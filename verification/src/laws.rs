//! What holds of the controller as a whole, proved over the model that the
//! contracts of its operations are stated in.

use vstd::prelude::*;
use crate::lifecycle::{close_request, CloseDecision};
use crate::model::{
    is_hidden, is_visible, lists_windows, track, tracked_state, well_formed, with_visibility,
    WindowState, Windows,
};
use crate::opener::{
    advance_open, begin_open, create_settings, HostRequestView, OpenProgressView,
    OpenSettingsView,
};
use crate::policy::{policy_for, primary_label, settings_is_secondary, settings_label, ClosePolicy};
use crate::shutdown::{
    closing_sequence, exited, lemma_closing_run, shutdown_run, shutdown_step, CoordinatorState,
    ShutdownActionView, ShutdownPhase,
};
use crate::window::{settings_window, BuildMode, WindowDescriptorView};

verus! {

/// A close request on any window but the primary one destroys nothing.
/// Every window that was live stays live, the shutdown coordinator is not
/// touched, and the window itself, where it is tracked, ends hidden, with the
/// default close suppressed and nothing else about it changed.
pub proof fn secondary_close_hides(
    windows: Windows,
    coordinator: CoordinatorState,
    label: Seq<char>,
    windows_after: Windows,
    coordinator_after: CoordinatorState,
    decision: CloseDecision,
)
    requires
        label != primary_label(),
        close_request(windows, coordinator, label, windows_after, coordinator_after, decision),
    ensures
        windows_after.dom() == windows.dom(),
        coordinator_after == coordinator,
        forall|other: Seq<char>|
            other != label && windows.contains_key(other) ==> #[trigger] windows_after[other]
                == windows[other],
        windows.contains_key(label) ==> {
            &&& decision == CloseDecision::Hide
            &&& decision.suppresses_default()
            &&& is_hidden(windows_after, label)
            &&& windows_after[label] == with_visibility(windows[label], false)
        },
{
    if windows.contains_key(label) {
        assert(windows_after.dom() =~= windows.dom());
    }
}

/// Opening the settings window while it is absent builds exactly one
/// window: labelled "settings", 600 by 400, centred, visible, with the
/// hiding policy. Opening it again at once builds nothing: the window is
/// shown and focused, and the same windows are live as before.
pub proof fn open_absent_creates_once(windows: Windows, mode: BuildMode)
    requires
        well_formed(windows),
        !windows.contains_key(settings_label()),
    ensures
        ({
            let (asked, request) = begin_open(windows, mode);
            let (built, done) = advance_open(asked, windows, Ok(()));
            let (again, second) = begin_open(built, mode);
            let (revealed, shown) = advance_open(again, built, Ok(()));
            let (ended, over) = advance_open(shown->state, revealed, Ok(()));
            &&& request == create_settings(mode)
            &&& request->descriptor.label == settings_label()
            &&& request->descriptor.width == 600
            &&& request->descriptor.height == 400
            &&& request->descriptor.centered
            &&& request->observer == ClosePolicy::Hide
            &&& done == OpenProgressView::Done(Ok(()))
            &&& built == windows.insert(settings_label(), tracked_state(settings_window(mode), true))
            &&& built.dom() == windows.dom().insert(settings_label())
            &&& built.dom().len() == windows.dom().len() + 1
            &&& is_visible(built, settings_label())
            &&& well_formed(built)
            &&& second == HostRequestView::Show(settings_label())
            &&& shown is Ask
            &&& shown->request == HostRequestView::Focus(settings_label())
            &&& over == OpenProgressView::Done(Ok(()))
            &&& ended == built
        }),
{
    settings_is_secondary();
    let (asked, request) = begin_open(windows, mode);
    let (built, done) = advance_open(asked, windows, Ok(()));
    assert(built.dom() =~= windows.dom().insert(settings_label()));
    let (again, second) = begin_open(built, mode);
    let (revealed, shown) = advance_open(again, built, Ok(()));
    assert(revealed =~= built);
}

/// Opening the settings window while it is live, hidden or not, asks the
/// host to show it and then to focus it, and for nothing else. The window
/// ends visible; its label, its size, its content source and all else about
/// it stay as they were, and so does every other window.
pub proof fn open_live_reveals(windows: Windows, mode: BuildMode)
    requires
        windows.contains_key(settings_label()),
    ensures
        ({
            let (asked, first) = begin_open(windows, mode);
            let (revealed, shown) = advance_open(asked, windows, Ok(()));
            let (ended, over) = advance_open(shown->state, revealed, Ok(()));
            &&& first == HostRequestView::Show(settings_label())
            &&& shown is Ask
            &&& shown->request == HostRequestView::Focus(settings_label())
            &&& over == OpenProgressView::Done(Ok(()))
            &&& ended == windows.insert(
                settings_label(),
                with_visibility(windows[settings_label()], true),
            )
            &&& ended.dom() == windows.dom()
            &&& is_visible(ended, settings_label())
            &&& ended[settings_label()].descriptor == windows[settings_label()].descriptor
            &&& ended[settings_label()].policy == windows[settings_label()].policy
        }),
{
    let (asked, first) = begin_open(windows, mode);
    let (revealed, shown) = advance_open(asked, windows, Ok(()));
    assert(revealed.dom() =~= windows.dom());
}

/// A failure of the host ends the operation with the host's message and
/// leaves the windows as they were before the failed request: a window that
/// could not be built is not tracked.
pub proof fn open_failure_changes_nothing(
    state: OpenSettingsView,
    windows: Windows,
    message: Seq<char>,
)
    ensures
        advance_open(state, windows, Err(message)) == (
            windows,
            OpenProgressView::Done(Err(message)),
        ),
{
}

/// A close request on the primary window never hides it: the window stays
/// as it was and the default close is suppressed. The first such request
/// begins the shutdown, which then runs without a way back: one destroy
/// request for each window that was live, the primary one among them, each
/// exactly once; after all of them the grace interval; after that the exit
/// with code 0. At the end no window is live, and nothing more is asked.
pub proof fn primary_close_shuts_down(
    windows: Windows,
    coordinator: CoordinatorState,
    windows_after: Windows,
    coordinator_after: CoordinatorState,
    decision: CloseDecision,
)
    requires
        well_formed(windows),
        windows.contains_key(primary_label()),
        coordinator.phase == ShutdownPhase::Idle,
        close_request(
            windows,
            coordinator,
            primary_label(),
            windows_after,
            coordinator_after,
            decision,
        ),
    ensures
        decision == CloseDecision::BeginShutdown,
        decision.suppresses_default(),
        windows_after == windows,
        coordinator_after.phase == ShutdownPhase::Closing,
        lists_windows(coordinator_after.pending, windows),
        coordinator_after.pending.len() == windows.dom().len(),
        ({
            let run = shutdown_run(coordinator_after, windows_after, windows.dom().len() + 2);
            &&& run.actions == closing_sequence(coordinator_after.pending)
            &&& run.windows == Map::<Seq<char>, WindowState>::empty()
            &&& run.state == exited()
            &&& shutdown_step(run.state, run.windows).2 is None
        }),
{
    let pending = coordinator_after.pending;
    pending.unique_seq_to_set();
    lemma_closing_run(coordinator_after, windows_after);
    assert(windows.remove_keys(pending.to_set()) =~= Map::<Seq<char>, WindowState>::empty());
}

/// A close request on the primary window while the shutdown is under way
/// suppresses the default close and changes nothing: the shutdown is never
/// entered twice.
pub proof fn primary_close_triggers_once(
    windows: Windows,
    coordinator: CoordinatorState,
    windows_after: Windows,
    coordinator_after: CoordinatorState,
    decision: CloseDecision,
)
    requires
        windows.contains_key(primary_label()),
        coordinator.phase != ShutdownPhase::Idle,
        close_request(
            windows,
            coordinator,
            primary_label(),
            windows_after,
            coordinator_after,
            decision,
        ),
    ensures
        decision == CloseDecision::ShutdownUnderWay,
        decision.suppresses_default(),
        windows_after == windows,
        coordinator_after == coordinator,
{
}

/// No step of a shutdown leads back: once triggered, a coordinator is never
/// idle again, and once exited it stays exited.
pub proof fn shutdown_never_returns(state: CoordinatorState, windows: Windows)
    requires
        state.phase != ShutdownPhase::Idle,
    ensures
        shutdown_step(state, windows).0.phase != ShutdownPhase::Idle,
        state.phase == ShutdownPhase::Exited ==> shutdown_step(state, windows) == (
            state,
            windows,
            None::<ShutdownActionView>,
        ),
        state.phase == ShutdownPhase::Waiting ==> shutdown_step(state, windows).0.phase
            == ShutdownPhase::Exited,
{
}

/// Attaching the close policy to a window twice is attaching it once. A
/// window gets its policy when it is first tracked; tracking its label again
/// finds it tracked, changes nothing and asks for no second observer,
/// whatever descriptor and visibility it is given.
pub proof fn attach_is_idempotent(
    windows: Windows,
    descriptor: WindowDescriptorView,
    visible: bool,
    again: WindowDescriptorView,
    visible_again: bool,
)
    requires
        again.label == descriptor.label,
    ensures
        track(windows, descriptor, visible).contains_key(descriptor.label),
        track(track(windows, descriptor, visible), again, visible_again) == track(
            windows,
            descriptor,
            visible,
        ),
        well_formed(windows) ==> well_formed(track(windows, descriptor, visible)),
        track(windows, descriptor, visible)[descriptor.label].policy == policy_for(
            descriptor.label,
        ) || windows.contains_key(descriptor.label),
{
}

} // verus!
