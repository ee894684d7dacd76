//! The mathematical model of the windows that the controller tracks: a finite
//! map from a window's label to its state.

use vstd::prelude::*;
use crate::policy::{policy_for, ClosePolicy};
use crate::window::WindowDescriptorView;

verus! {

/// The state of one live window.
pub struct WindowState {
    /// What the window was built from.
    pub descriptor: WindowDescriptorView,
    /// Whether it is on screen; a live window that is not visible is hidden.
    pub visible: bool,
    /// The policy of the close observer attached to it.
    pub policy: ClosePolicy,
}

/// The live windows by label. A label outside the domain is absent.
pub type Windows = Map<Seq<char>, WindowState>;

/// A window's state as it is first tracked: the policy follows from the label.
pub open spec fn tracked_state(descriptor: WindowDescriptorView, visible: bool) -> WindowState {
    WindowState { descriptor, visible, policy: policy_for(descriptor.label) }
}

/// `state` with its visibility set and nothing else touched.
pub open spec fn with_visibility(state: WindowState, visible: bool) -> WindowState {
    WindowState { visible, ..state }
}

/// What holds of every set of tracked windows: finitely many, each filed
/// under its own label, each with the policy that its label calls for.
pub open spec fn well_formed(windows: Windows) -> bool {
    &&& windows.dom().finite()
    &&& forall|label: Seq<char>| #[trigger]
        windows.contains_key(label) ==> {
            &&& windows[label].descriptor.label == label
            &&& windows[label].policy == policy_for(label)
        }
}

/// The labels that a list of strings spells, in the list's order.
pub open spec fn label_views(labels: Seq<String>) -> Seq<Seq<char>> {
    Seq::new(labels.len(), |i: int| labels[i]@)
}

/// Whether `labels` lists the windows of `windows`: each live label once,
/// and no other.
pub open spec fn lists_windows(labels: Seq<Seq<char>>, windows: Windows) -> bool {
    &&& labels.no_duplicates()
    &&& labels.to_set() == windows.dom()
}

/// Whether `label` names a live, visible window.
pub open spec fn is_visible(windows: Windows, label: Seq<char>) -> bool {
    windows.contains_key(label) && windows[label].visible
}

/// Whether `label` names a live, hidden window.
pub open spec fn is_hidden(windows: Windows, label: Seq<char>) -> bool {
    windows.contains_key(label) && !windows[label].visible
}

/// The windows after `label` is shown or hidden; an absent label changes
/// nothing.
pub open spec fn set_visibility(windows: Windows, label: Seq<char>, visible: bool) -> Windows {
    if windows.contains_key(label) {
        windows.insert(label, with_visibility(windows[label], visible))
    } else {
        windows
    }
}

/// The windows after one more is tracked. A label that is already tracked
/// keeps its window: nothing is replaced.
pub open spec fn track(windows: Windows, descriptor: WindowDescriptorView, visible: bool) -> Windows {
    if windows.contains_key(descriptor.label) {
        windows
    } else {
        windows.insert(descriptor.label, tracked_state(descriptor, visible))
    }
}

} // verus!
