//! The entry points that the user interface calls.

use vstd::prelude::*;
use crate::display::TrayState;
use crate::icon::{refresh_step, update_tray_icon, known_tray_icon};
use crate::manager::TrayManager;
use crate::step::Step;

verus! {

/// The display state while a recording is, or is not, in progress.
pub open spec fn recording_display(recording: bool) -> TrayState {
    if recording {
        TrayState::Recording
    } else {
        TrayState::Idle
    }
}

/// The display state while a recording is, or is not, being processed.
pub open spec fn processing_display(processing: bool) -> TrayState {
    if processing {
        TrayState::Processing
    } else {
        TrayState::Idle
    }
}

/// Records whether a recording is in progress and starts refreshing the tray
/// icon accordingly.
pub fn update_tray_recording_state(recording: bool, tray_manager: &mut TrayManager) -> (step: Step)
    ensures
        final(tray_manager)@ == old(tray_manager)@.with_recording(recording),
        step@ == refresh_step(old(tray_manager)@.tray_icon_id, recording_display(recording)),
{
    tray_manager.set_recording_state(recording);
    let state = if recording {
        TrayState::Recording
    } else {
        TrayState::Idle
    };
    update_tray_icon(Some(&*tray_manager), state)
}

/// Starts refreshing the tray icon for a recording that is, or is not, being
/// processed. The tray manager is not changed: it keeps no processing flag.
pub fn update_tray_processing_state(processing: bool, tray_manager: Option<&TrayManager>) -> (step:
    Step)
    ensures
        step@ == refresh_step(known_tray_icon(tray_manager), processing_display(processing)),
{
    let state = if processing {
        TrayState::Processing
    } else {
        TrayState::Idle
    };
    update_tray_icon(tray_manager, state)
}

/// Whether the system tray is supported. It always is: where the platform
/// has no tray, setting it up fails instead.
pub fn is_tray_supported() -> (supported: bool)
    ensures
        supported,
{
    true
}

/// Overwrites both tray settings. This cannot fail.
pub fn set_tray_settings(
    close_to_tray: bool,
    start_minimized: bool,
    tray_manager: &mut TrayManager,
) -> (result: Result<(), String>)
    ensures
        result is Ok,
        final(tray_manager)@ == old(tray_manager)@.with_settings(close_to_tray, start_minimized),
{
    tray_manager.update_settings(close_to_tray, start_minimized);
    Ok(())
}

/// Whether closing the main window hides it to the tray instead: the
/// manager's close-to-tray setting, and `false` where there is no manager.
pub fn should_hide_to_tray(tray_manager: Option<&TrayManager>) -> (hide: bool)
    ensures
        hide == match tray_manager {
            Some(manager) => manager@.close_to_tray,
            None => false,
        },
{
    match tray_manager {
        Some(manager) => manager.should_close_to_tray(),
        None => false,
    }
}

} // verus!
