//! The events that the tray icon and its menu deliver, and what the
//! controller does on each.

use vstd::prelude::*;
use crate::host::{HostCall, HostCallView};
use crate::text::same_text;
use crate::step::{ask_show, ask_toggle, show_step, toggle_step, Pending, PendingView, Step, StepView};

verus! {

/// The identifier of the menu entry that shows the main window.
pub const MENU_SHOW: &'static str = "show";

/// The identifier of the menu entry that quits the application.
pub const MENU_QUIT: &'static str = "quit";

/// A mouse button.
#[derive(Debug, Clone, Copy, PartialEq, Eq)]
pub enum MouseButton {
    Left,
    Right,
    Middle,
}

/// Whether a mouse button went down or came up.
#[derive(Debug, Clone, Copy, PartialEq, Eq)]
pub enum MouseButtonState {
    Up,
    Down,
}

/// An event on the tray icon.
#[derive(Debug, Clone, Copy, PartialEq, Eq)]
pub enum TrayIconEvent {
    /// A button was pressed or released on the icon.
    Click { button: MouseButton, button_state: MouseButtonState },
    /// A button was clicked twice on the icon.
    DoubleClick { button: MouseButton },
    /// The pointer entered the icon.
    Enter,
    /// The pointer moved over the icon.
    Move,
    /// The pointer left the icon.
    Leave,
}

impl TrayIconEvent {
    /// Whether this is the event that toggles the main window: the left
    /// button coming up.
    pub open spec fn toggles_window(self) -> bool {
        self matches TrayIconEvent::Click { button, button_state }
            && button == MouseButton::Left
            && button_state == MouseButtonState::Up
    }
}

/// The first step of handling the tray event `event`.
pub open spec fn tray_event_step(event: TrayIconEvent) -> StepView {
    if event.toggles_window() {
        toggle_step(true)
    } else {
        StepView::Finish(Ok(()))
    }
}

/// The first step of handling the selection of the menu entry `id`.
pub open spec fn menu_event_step(id: Seq<char>) -> StepView {
    if id == MENU_SHOW@ {
        show_step(true)
    } else if id == MENU_QUIT@ {
        StepView::Ask { call: HostCallView::Exit { code: 0 }, then: PendingView::Exited }
    } else {
        StepView::Finish(Ok(()))
    }
}

/// Handles an event on the tray icon. The left button coming up toggles the
/// main window; every other event is ignored. Failures of the host's calls do
/// not reach anybody: the operation always finishes with `Ok`.
pub fn handle_tray_event(event: TrayIconEvent) -> (step: Step)
    ensures
        step@ == tray_event_step(event),
{
    match event {
        TrayIconEvent::Click { button: MouseButton::Left, button_state: MouseButtonState::Up } => {
            ask_toggle(true)
        },
        _ => Step::Finish(Ok(())),
    }
}

/// Handles the selection of the menu entry `id`. `"show"` shows and focuses
/// the main window, `"quit"` leaves the process with exit code 0, and any
/// other identifier is ignored. The operation always finishes with `Ok`.
pub fn handle_menu_event(id: &str) -> (step: Step)
    ensures
        step@ == menu_event_step(id@),
{
    if same_text(id, MENU_SHOW) {
        ask_show(true)
    } else if same_text(id, MENU_QUIT) {
        Step::Ask { call: HostCall::Exit { code: 0 }, then: Pending::Exited }
    } else {
        Step::Finish(Ok(()))
    }
}

} // verus!
