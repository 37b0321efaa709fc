//! What the tray shows: one of three display states, each with its icon file
//! and tooltip text.

use vstd::prelude::*;

verus! {

/// The display state of the tray icon.
#[derive(Debug, Clone, Copy, PartialEq, Eq, Structural)]
pub enum TrayState {
    Idle,
    Recording,
    Processing,
}

/// The path of the icon file shown for `state`, relative to the working
/// directory.
pub open spec fn icon_path_of(state: TrayState) -> Seq<char> {
    match state {
        TrayState::Idle => "icons/tray-idle.png"@,
        TrayState::Recording => "icons/tray-recording.png"@,
        TrayState::Processing => "icons/tray-processing.png"@,
    }
}

/// The tooltip shown for `state`.
pub open spec fn tooltip_of(state: TrayState) -> Seq<char> {
    match state {
        TrayState::Idle => "Idle"@,
        TrayState::Recording => "Recording"@,
        TrayState::Processing => "Processing"@,
    }
}

/// Returns the icon path and the tooltip for `state`.
pub fn get_tray_info(state: TrayState) -> (info: (&'static str, &'static str))
    ensures
        info.0@ == icon_path_of(state),
        info.1@ == tooltip_of(state),
{
    match state {
        TrayState::Idle => ("icons/tray-idle.png", "Idle"),
        TrayState::Recording => ("icons/tray-recording.png", "Recording"),
        TrayState::Processing => ("icons/tray-processing.png", "Processing"),
    }
}

} // verus!
