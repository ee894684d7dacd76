//! What a window is built from: its label, title, size, placement and the
//! source of its content.

use vstd::prelude::*;
use vstd::string::*;

verus! {

/// How the application was built, which decides where a new window's content
/// comes from.
#[derive(Clone, Copy, Debug, PartialEq, Eq, Structural)]
pub enum BuildMode {
    /// A development build, served by a local development server.
    Debug,
    /// A release build, with its pages bundled.
    Release,
}

/// Where a window's content comes from.
#[derive(Clone, Debug, PartialEq, Eq)]
pub enum ContentSource {
    /// A network address.
    External(String),
    /// An entry point bundled with the application.
    Bundled(String),
}

/// The mathematical value of a `ContentSource`.
pub enum ContentSourceView {
    External(Seq<char>),
    Bundled(Seq<char>),
}

impl View for ContentSource {
    type V = ContentSourceView;

    open spec fn view(&self) -> ContentSourceView {
        match self {
            ContentSource::External(address) => ContentSourceView::External(address@),
            ContentSource::Bundled(entry) => ContentSourceView::Bundled(entry@),
        }
    }
}

/// All that is fixed about a window when it is built. Sizes are in logical
/// units.
#[derive(Clone, Debug, PartialEq, Eq)]
pub struct WindowDescriptor {
    pub label: String,
    pub title: String,
    pub width: u32,
    pub height: u32,
    pub centered: bool,
    pub content: ContentSource,
}

/// The mathematical value of a `WindowDescriptor`.
pub struct WindowDescriptorView {
    pub label: Seq<char>,
    pub title: Seq<char>,
    pub width: nat,
    pub height: nat,
    pub centered: bool,
    pub content: ContentSourceView,
}

impl View for WindowDescriptor {
    type V = WindowDescriptorView;

    open spec fn view(&self) -> WindowDescriptorView {
        WindowDescriptorView {
            label: self.label@,
            title: self.title@,
            width: self.width as nat,
            height: self.height as nat,
            centered: self.centered,
            content: self.content@,
        }
    }
}

/// The content of the settings window under each build mode.
pub open spec fn settings_content(mode: BuildMode) -> ContentSourceView {
    match mode {
        BuildMode::Debug => ContentSourceView::External("http://localhost:1420/#/settings"@),
        BuildMode::Release => ContentSourceView::Bundled("index.html#/settings"@),
    }
}

/// The settings window as it is built: labelled "settings", titled
/// "Settings", 600 by 400, centred.
pub open spec fn settings_window(mode: BuildMode) -> WindowDescriptorView {
    WindowDescriptorView {
        label: "settings"@,
        title: "Settings"@,
        width: 600,
        height: 400,
        centered: true,
        content: settings_content(mode),
    }
}

impl ContentSource {
    /// A copy with the same value.
    pub fn duplicate(&self) -> (copy: ContentSource)
        ensures
            copy@ == self@,
    {
        match self {
            ContentSource::External(address) => ContentSource::External(address.clone()),
            ContentSource::Bundled(entry) => ContentSource::Bundled(entry.clone()),
        }
    }
}

impl WindowDescriptor {
    /// A copy with the same value.
    pub fn duplicate(&self) -> (copy: WindowDescriptor)
        ensures
            copy@ == self@,
    {
        WindowDescriptor {
            label: self.label.clone(),
            title: self.title.clone(),
            width: self.width,
            height: self.height,
            centered: self.centered,
            content: self.content.duplicate(),
        }
    }
}

/// The descriptor from which the settings window is built under `mode`.
pub fn settings_descriptor(mode: BuildMode) -> (descriptor: WindowDescriptor)
    ensures
        descriptor@ == settings_window(mode),
{
    let content = match mode {
        BuildMode::Debug => ContentSource::External(
            String::from_str("http://localhost:1420/#/settings"),
        ),
        BuildMode::Release => ContentSource::Bundled(String::from_str("index.html#/settings")),
    };
    WindowDescriptor {
        label: String::from_str("settings"),
        title: String::from_str("Settings"),
        width: 600,
        height: 400,
        centered: true,
        content,
    }
}

} // verus!
