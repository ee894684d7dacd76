//! The close policy of a window, decided by its label alone.

use vstd::prelude::*;

verus! {

/// What a close request on a window leads to, once the default close has
/// been suppressed.
#[derive(Clone, Copy, Debug, PartialEq, Eq, Structural)]
pub enum ClosePolicy {
    /// The window is hidden and stays alive.
    Hide,
    /// The whole application shuts down.
    Shutdown,
}

/// The label of the primary window.
pub open spec fn primary_label() -> Seq<char> {
    "main"@
}

/// The label of the settings window.
pub open spec fn settings_label() -> Seq<char> {
    "settings"@
}

/// The policy that belongs to a label: shutdown for the primary window,
/// hiding for every other.
pub open spec fn policy_for(label: Seq<char>) -> ClosePolicy {
    if label == primary_label() {
        ClosePolicy::Shutdown
    } else {
        ClosePolicy::Hide
    }
}

/// Whether two labels name the same window.
pub fn same_label(a: &str, b: &str) -> (same: bool)
    ensures
        same == (a@ == b@),
{
    let left = a.to_owned();
    let right = b.to_owned();
    left == right
}

/// Whether `label` names the primary window.
pub fn is_primary(label: &str) -> (primary: bool)
    ensures
        primary == (label@ == primary_label()),
{
    same_label(label, "main")
}

/// The policy to attach to the window named `label`.
pub fn close_policy_for(label: &str) -> (policy: ClosePolicy)
    ensures
        policy == policy_for(label@),
{
    if is_primary(label) {
        ClosePolicy::Shutdown
    } else {
        ClosePolicy::Hide
    }
}

/// The two distinguished labels differ, so the settings window is never
/// the primary one.
pub proof fn settings_is_secondary()
    ensures
        settings_label() != primary_label(),
        policy_for(settings_label()) == ClosePolicy::Hide,
{
    reveal_strlit("main");
    reveal_strlit("settings");
    assert(primary_label().len() == 4);
    assert(settings_label().len() == 8);
}

} // verus!
