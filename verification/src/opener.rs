//! Opening the settings window on demand: shown and focused where it is
//! live, built where it is absent. The host does the window work; each of
//! its answers moves the operation one step on.

use vstd::prelude::*;
use vstd::string::*;
use crate::model::{set_visibility, track, Windows};
use crate::policy::{close_policy_for, policy_for, settings_label, ClosePolicy};
use crate::registry::WindowRegistry;
use crate::window::{
    settings_descriptor, settings_window, BuildMode, WindowDescriptor, WindowDescriptorView,
};

verus! {

/// Window work asked of the host.
#[derive(Clone, Debug, PartialEq, Eq)]
pub enum HostRequest {
    /// Make the window with this label visible.
    Show(String),
    /// Give the window with this label the input focus.
    Focus(String),
    /// Build a window from the descriptor and install a close observer with
    /// the given policy on it.
    Create { descriptor: WindowDescriptor, observer: ClosePolicy },
}

/// The mathematical value of a `HostRequest`.
pub enum HostRequestView {
    Show(Seq<char>),
    Focus(Seq<char>),
    Create { descriptor: WindowDescriptorView, observer: ClosePolicy },
}

impl View for HostRequest {
    type V = HostRequestView;

    open spec fn view(&self) -> HostRequestView {
        match self {
            HostRequest::Show(label) => HostRequestView::Show(label@),
            HostRequest::Focus(label) => HostRequestView::Focus(label@),
            HostRequest::Create { descriptor, observer } => HostRequestView::Create {
                descriptor: descriptor@,
                observer: *observer,
            },
        }
    }
}

/// The host's answer to a request: done, or failed with a message.
pub open spec fn response_view(response: Result<(), String>) -> Result<(), Seq<char>> {
    match response {
        Ok(_) => Ok(()),
        Err(message) => Err(message@),
    }
}

/// An operation that opens the settings window, waiting for the host's
/// answer to its last request.
#[derive(Debug, PartialEq, Eq)]
pub enum OpenSettings {
    /// The live window was asked to show itself.
    AwaitingShow,
    /// The window is shown and was asked to take the focus.
    AwaitingFocus,
    /// A new window was asked for, from this descriptor.
    AwaitingCreate(WindowDescriptor),
}

/// The mathematical value of an `OpenSettings`.
pub enum OpenSettingsView {
    AwaitingShow,
    AwaitingFocus,
    AwaitingCreate(WindowDescriptorView),
}

impl View for OpenSettings {
    type V = OpenSettingsView;

    open spec fn view(&self) -> OpenSettingsView {
        match self {
            OpenSettings::AwaitingShow => OpenSettingsView::AwaitingShow,
            OpenSettings::AwaitingFocus => OpenSettingsView::AwaitingFocus,
            OpenSettings::AwaitingCreate(descriptor) => OpenSettingsView::AwaitingCreate(
                descriptor@,
            ),
        }
    }
}

/// Where the operation stands after an answer of the host.
#[derive(Debug, PartialEq, Eq)]
pub enum OpenProgress {
    /// There is more to do: the operation as it now stands, and the next
    /// request to the host.
    Ask { state: OpenSettings, request: HostRequest },
    /// The operation is over, with this result for the caller.
    Done(Result<(), String>),
}

/// The mathematical value of an `OpenProgress`.
pub enum OpenProgressView {
    Ask { state: OpenSettingsView, request: HostRequestView },
    Done(Result<(), Seq<char>>),
}

impl View for OpenProgress {
    type V = OpenProgressView;

    open spec fn view(&self) -> OpenProgressView {
        match self {
            OpenProgress::Ask { state, request } => OpenProgressView::Ask {
                state: state@,
                request: request@,
            },
            OpenProgress::Done(result) => OpenProgressView::Done(response_view(*result)),
        }
    }
}

/// The request that builds the settings window under `mode`.
pub open spec fn create_settings(mode: BuildMode) -> HostRequestView {
    HostRequestView::Create {
        descriptor: settings_window(mode),
        observer: policy_for(settings_label()),
    }
}

/// The first step: a live settings window is shown, an absent one is built.
pub open spec fn begin_open(windows: Windows, mode: BuildMode) -> (
    OpenSettingsView,
    HostRequestView,
) {
    if windows.contains_key(settings_label()) {
        (OpenSettingsView::AwaitingShow, HostRequestView::Show(settings_label()))
    } else {
        (OpenSettingsView::AwaitingCreate(settings_window(mode)), create_settings(mode))
    }
}

/// Every later step: the windows after the host's answer, and where the
/// operation then stands.
///
/// A failure ends the operation with the host's message and leaves the
/// windows as they are. A window that was shown counts as visible and is
/// asked to take the focus; with the focus given the operation succeeds. A
/// window that was built is tracked, visible, and the operation succeeds.
pub open spec fn advance_open(
    state: OpenSettingsView,
    windows: Windows,
    response: Result<(), Seq<char>>,
) -> (Windows, OpenProgressView) {
    match response {
        Err(message) => (windows, OpenProgressView::Done(Err(message))),
        Ok(_) => match state {
            OpenSettingsView::AwaitingShow => (
                set_visibility(windows, settings_label(), true),
                OpenProgressView::Ask {
                    state: OpenSettingsView::AwaitingFocus,
                    request: HostRequestView::Focus(settings_label()),
                },
            ),
            OpenSettingsView::AwaitingFocus => (windows, OpenProgressView::Done(Ok(()))),
            OpenSettingsView::AwaitingCreate(descriptor) => (
                track(windows, descriptor, true),
                OpenProgressView::Done(Ok(())),
            ),
        },
    }
}

impl OpenSettings {
    /// Starts the operation and returns it with the first request to the
    /// host.
    pub fn begin(registry: &WindowRegistry, mode: BuildMode) -> (started: (
        OpenSettings,
        HostRequest,
    ))
        ensures
            (started.0@, started.1@) == begin_open(registry@, mode),
    {
        if registry.contains("settings") {
            (OpenSettings::AwaitingShow, HostRequest::Show(String::from_str("settings")))
        } else {
            let descriptor = settings_descriptor(mode);
            let request = HostRequest::Create {
                descriptor: descriptor.duplicate(),
                observer: close_policy_for("settings"),
            };
            (OpenSettings::AwaitingCreate(descriptor), request)
        }
    }

    /// Takes the host's answer to the last request, records in the registry
    /// what the host has done, and says how the operation goes on.
    pub fn advance(self, registry: &mut WindowRegistry, response: Result<(), String>) -> (progress:
        OpenProgress)
        requires
            old(registry).wf(),
        ensures
            final(registry).wf(),
            (final(registry)@, progress@) == advance_open(
                self@,
                old(registry)@,
                response_view(response),
            ),
    {
        match response {
            Err(message) => OpenProgress::Done(Err(message)),
            Ok(_) => match self {
                OpenSettings::AwaitingShow => {
                    let _ = registry.set_visible("settings", true);
                    OpenProgress::Ask {
                        state: OpenSettings::AwaitingFocus,
                        request: HostRequest::Focus(String::from_str("settings")),
                    }
                },
                OpenSettings::AwaitingFocus => OpenProgress::Done(Ok(())),
                OpenSettings::AwaitingCreate(descriptor) => {
                    let _ = registry.insert(descriptor, true);
                    OpenProgress::Done(Ok(()))
                },
            },
        }
    }
}

} // verus!
