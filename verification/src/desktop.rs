//! A model of the desktop on which the controller runs, for stating what its
//! operations achieve. The model is a host whose framework calls all succeed:
//! a call fails only on a file that does not exist or on bytes that are no
//! image.

use vstd::prelude::*;
use crate::error::TrayErrorView;
use crate::host::{HostCallView, HostReplyView, MenuEntryView};
use crate::manager::TrayManagerView;
use crate::step::StepView;

verus! {

/// A window.
pub struct WindowModel {
    pub visible: bool,
    pub focused: bool,
}

/// The image of a tray icon.
pub enum IconImage {
    /// The application's default window icon.
    Default,
    /// The image that these bytes decode to.
    Decoded(Seq<u8>),
}

/// A tray icon.
pub struct TrayIconModel {
    pub menu: Seq<MenuEntryView>,
    pub tooltip: Seq<char>,
    pub image: IconImage,
}

/// The desktop as far as the controller deals with it.
pub struct Desktop {
    /// The application's windows, by name.
    pub windows: Map<Seq<char>, WindowModel>,
    /// The tray icons, by identifier.
    pub tray_icons: Map<Seq<char>, TrayIconModel>,
    /// The files on disk, by path.
    pub files: Map<Seq<char>, Seq<u8>>,
    /// The byte strings that decode as an image.
    pub images: Set<Seq<u8>>,
    /// Whether the application has a default window icon.
    pub has_default_icon: bool,
    /// The identifier that the framework gives to the next tray icon.
    pub next_tray_icon_id: Seq<char>,
    /// The tray manager registered with the application, if any.
    pub manager: Option<TrayManagerView>,
    /// The code with which the process was left, once it was.
    pub exit_code: Option<i32>,
}

/// A desktop after an operation, with the operation's result.
pub struct Outcome {
    pub desktop: Desktop,
    pub result: Result<(), TrayErrorView>,
}

impl Desktop {
    /// The desktop after the host has made `call`, and the host's reply.
    pub open spec fn perform(self, call: HostCallView) -> (Desktop, HostReplyView) {
        match call {
            HostCallView::IsWindowVisible { label } => if self.windows.contains_key(label) {
                (self, HostReplyView::Flag(self.windows[label].visible))
            } else {
                (self, HostReplyView::Missing)
            },
            HostCallView::ShowWindow { label } => if self.windows.contains_key(label) {
                let shown = WindowModel { visible: true, ..self.windows[label] };
                (Desktop { windows: self.windows.insert(label, shown), ..self }, HostReplyView::Done)
            } else {
                (self, HostReplyView::Missing)
            },
            HostCallView::FocusWindow { label } => if self.windows.contains_key(label) {
                let focused = WindowModel { focused: true, ..self.windows[label] };
                (
                    Desktop { windows: self.windows.insert(label, focused), ..self },
                    HostReplyView::Done,
                )
            } else {
                (self, HostReplyView::Missing)
            },
            HostCallView::HideWindow { label } => if self.windows.contains_key(label) {
                let hidden = WindowModel { visible: false, focused: false };
                (
                    Desktop { windows: self.windows.insert(label, hidden), ..self },
                    HostReplyView::Done,
                )
            } else {
                (self, HostReplyView::Missing)
            },
            HostCallView::Exit { code } => (
                Desktop { exit_code: Some(code), ..self },
                HostReplyView::Done,
            ),
            HostCallView::BuildTray { entries, tooltip } => if self.has_default_icon {
                let icon = TrayIconModel { menu: entries, tooltip, image: IconImage::Default };
                (
                    Desktop {
                        tray_icons: self.tray_icons.insert(self.next_tray_icon_id, icon),
                        ..self
                    },
                    HostReplyView::Text(self.next_tray_icon_id),
                )
            } else {
                (self, HostReplyView::Missing)
            },
            HostCallView::StoreTrayIconId { id } => match self.manager {
                Some(manager) => (
                    Desktop { manager: Some(manager.with_tray_icon(id)), ..self },
                    HostReplyView::Done,
                ),
                None => (self, HostReplyView::Done),
            },
            HostCallView::SetTooltip { tray, text } => if self.tray_icons.contains_key(tray) {
                let icon = TrayIconModel { tooltip: text, ..self.tray_icons[tray] };
                (
                    Desktop { tray_icons: self.tray_icons.insert(tray, icon), ..self },
                    HostReplyView::Done,
                )
            } else {
                (self, HostReplyView::Missing)
            },
            HostCallView::ReadFile { path } => if self.files.contains_key(path) {
                (self, HostReplyView::Bytes(self.files[path]))
            } else {
                (self, HostReplyView::Failed("no such file"@))
            },
            HostCallView::SetIcon { tray, image } => if !self.tray_icons.contains_key(tray) {
                (self, HostReplyView::Missing)
            } else if !self.images.contains(image) {
                (self, HostReplyView::Failed("not an image"@))
            } else {
                let icon = TrayIconModel {
                    image: IconImage::Decoded(image),
                    ..self.tray_icons[tray]
                };
                (
                    Desktop { tray_icons: self.tray_icons.insert(tray, icon), ..self },
                    HostReplyView::Done,
                )
            },
        }
    }

    /// The desktop after the operation that starts with `step` has run to its
    /// end on this desktop, with the operation's result.
    pub open spec fn run(self, step: StepView) -> Outcome
        decreases step.calls_left(),
    {
        match step {
            StepView::Finish(result) => Outcome { desktop: self, result },
            StepView::Ask { call, then } => {
                let (after, reply) = self.perform(call);
                after.run(then.on_reply(reply))
            },
        }
    }
}

} // verus!
