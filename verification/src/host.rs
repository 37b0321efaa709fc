//! The protocol between the controller and the application that hosts it.
//!
//! The controller never touches the GUI framework itself. It asks its host to
//! make one call at a time ([`HostCall`]) and decides what to do next from the
//! host's answer ([`HostReply`]).

use vstd::prelude::*;

verus! {

/// One entry of the tray menu.
#[derive(Debug, Clone, Copy, PartialEq, Eq)]
pub struct MenuEntry {
    /// The identifier that a menu event carries when this entry is selected.
    pub id: &'static str,
    /// The text shown to the user.
    pub label: &'static str,
    /// Whether the entry can be selected.
    pub enabled: bool,
}

/// The mathematical value of a [`MenuEntry`].
pub struct MenuEntryView {
    pub id: Seq<char>,
    pub label: Seq<char>,
    pub enabled: bool,
}

impl View for MenuEntry {
    type V = MenuEntryView;

    open spec fn view(&self) -> MenuEntryView {
        MenuEntryView { id: self.id@, label: self.label@, enabled: self.enabled }
    }
}

/// The values of the entries of a menu, in order.
pub open spec fn menu_view(entries: Seq<MenuEntry>) -> Seq<MenuEntryView> {
    Seq::new(entries.len(), |i: int| entries[i]@)
}

/// A call on the GUI framework that the controller asks its host to make.
#[derive(Debug, PartialEq, Eq)]
pub enum HostCall {
    /// Ask whether the window named `label` is visible.
    IsWindowVisible { label: &'static str },
    /// Make the window named `label` visible.
    ShowWindow { label: &'static str },
    /// Give the window named `label` the input focus.
    FocusWindow { label: &'static str },
    /// Hide the window named `label`.
    HideWindow { label: &'static str },
    /// Leave the process with exit code `code`.
    Exit { code: i32 },
    /// Create the menu entries in order, the menu that holds them, and a tray
    /// icon with that menu, the application's default window icon and
    /// `tooltip`, with the controller's event handlers attached.
    BuildTray { entries: Vec<MenuEntry>, tooltip: &'static str },
    /// Record `id` in the registered tray manager, if there is one.
    StoreTrayIconId { id: String },
    /// Set the tooltip of the tray icon `tray`.
    SetTooltip { tray: String, text: &'static str },
    /// Read the whole file at `path`.
    ReadFile { path: &'static str },
    /// Decode `image` and show it as the icon of the tray icon `tray`.
    SetIcon { tray: String, image: Vec<u8> },
}

/// The mathematical value of a [`HostCall`].
pub enum HostCallView {
    IsWindowVisible { label: Seq<char> },
    ShowWindow { label: Seq<char> },
    FocusWindow { label: Seq<char> },
    HideWindow { label: Seq<char> },
    Exit { code: i32 },
    BuildTray { entries: Seq<MenuEntryView>, tooltip: Seq<char> },
    StoreTrayIconId { id: Seq<char> },
    SetTooltip { tray: Seq<char>, text: Seq<char> },
    ReadFile { path: Seq<char> },
    SetIcon { tray: Seq<char>, image: Seq<u8> },
}

impl View for HostCall {
    type V = HostCallView;

    open spec fn view(&self) -> HostCallView {
        match *self {
            HostCall::IsWindowVisible { label } => HostCallView::IsWindowVisible { label: label@ },
            HostCall::ShowWindow { label } => HostCallView::ShowWindow { label: label@ },
            HostCall::FocusWindow { label } => HostCallView::FocusWindow { label: label@ },
            HostCall::HideWindow { label } => HostCallView::HideWindow { label: label@ },
            HostCall::Exit { code } => HostCallView::Exit { code },
            HostCall::BuildTray { entries, tooltip } => HostCallView::BuildTray {
                entries: menu_view(entries@),
                tooltip: tooltip@,
            },
            HostCall::StoreTrayIconId { id } => HostCallView::StoreTrayIconId { id: id@ },
            HostCall::SetTooltip { tray, text } => HostCallView::SetTooltip {
                tray: tray@,
                text: text@,
            },
            HostCall::ReadFile { path } => HostCallView::ReadFile { path: path@ },
            HostCall::SetIcon { tray, image } => HostCallView::SetIcon {
                tray: tray@,
                image: image@,
            },
        }
    }
}

/// What the host reports after a call.
#[derive(Debug, PartialEq, Eq)]
pub enum HostReply {
    /// The call was made and has nothing to report.
    Done,
    /// The window, tray icon or default icon that the call is about does not
    /// exist; nothing was done.
    Missing,
    /// The answer to a yes-or-no question.
    Flag(bool),
    /// An identifier.
    Text(String),
    /// The contents of a file.
    Bytes(Vec<u8>),
    /// The framework call failed, with the framework's message.
    Failed(String),
}

/// The mathematical value of a [`HostReply`].
pub enum HostReplyView {
    Done,
    Missing,
    Flag(bool),
    Text(Seq<char>),
    Bytes(Seq<u8>),
    Failed(Seq<char>),
}

impl View for HostReply {
    type V = HostReplyView;

    open spec fn view(&self) -> HostReplyView {
        match *self {
            HostReply::Done => HostReplyView::Done,
            HostReply::Missing => HostReplyView::Missing,
            HostReply::Flag(flag) => HostReplyView::Flag(flag),
            HostReply::Text(text) => HostReplyView::Text(text@),
            HostReply::Bytes(bytes) => HostReplyView::Bytes(bytes@),
            HostReply::Failed(message) => HostReplyView::Failed(message@),
        }
    }
}

} // verus!
