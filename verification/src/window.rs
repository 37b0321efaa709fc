//! Showing, hiding and toggling the main window.

use vstd::prelude::*;
use crate::manager::TrayManager;
use crate::step::{ask_hide, ask_show, ask_toggle, hide_step, show_step, toggle_step, Step};

verus! {

impl TrayManager {
    /// Starts showing the main window: it is made visible and then given the
    /// input focus. Nothing happens where the window does not exist. The
    /// operation stops at the first call that fails and finishes with that
    /// failure.
    pub fn show_window() -> (step: Step)
        ensures
            step@ == show_step(false),
    {
        ask_show(false)
    }

    /// Starts hiding the main window. Nothing happens where the window does
    /// not exist. The operation finishes with the failure of the call, if it
    /// fails.
    pub fn hide_window() -> (step: Step)
        ensures
            step@ == hide_step(false),
    {
        ask_hide(false)
    }
}

/// Starts toggling the main window: a visible window is hidden, a hidden one
/// is shown and focused. Nothing happens where the window does not exist. The
/// operation finishes with the first failure, that of the question included.
pub fn toggle_window_visibility() -> (step: Step)
    ensures
        step@ == toggle_step(false),
{
    ask_toggle(false)
}

} // verus!
