//! The controller's own state: the recording flag, the two tray settings and
//! the identifier of the live tray icon.

use vstd::prelude::*;

verus! {

/// The state behind the tray icon. The four fields are independent of each
/// other: any combination of values is a valid state.
pub struct TrayManager {
    is_recording: bool,
    close_to_tray: bool,
    start_minimized: bool,
    tray_icon_id: Option<String>,
}

/// The mathematical value of a [`TrayManager`].
pub struct TrayManagerView {
    pub is_recording: bool,
    pub close_to_tray: bool,
    pub start_minimized: bool,
    pub tray_icon_id: Option<Seq<char>>,
}

impl TrayManagerView {
    /// The state at application startup: not recording, both settings off,
    /// no tray icon yet.
    pub open spec fn initial() -> TrayManagerView {
        TrayManagerView {
            is_recording: false,
            close_to_tray: false,
            start_minimized: false,
            tray_icon_id: None,
        }
    }

    /// This state with the recording flag replaced.
    pub open spec fn with_recording(self, recording: bool) -> TrayManagerView {
        TrayManagerView { is_recording: recording, ..self }
    }

    /// This state with both settings replaced.
    pub open spec fn with_settings(self, close_to_tray: bool, start_minimized: bool) -> TrayManagerView {
        TrayManagerView { close_to_tray, start_minimized, ..self }
    }

    /// This state with `id` as the live tray icon.
    pub open spec fn with_tray_icon(self, id: Seq<char>) -> TrayManagerView {
        TrayManagerView { tray_icon_id: Some(id), ..self }
    }
}

impl View for TrayManager {
    type V = TrayManagerView;

    closed spec fn view(&self) -> TrayManagerView {
        TrayManagerView {
            is_recording: self.is_recording,
            close_to_tray: self.close_to_tray,
            start_minimized: self.start_minimized,
            tray_icon_id: match self.tray_icon_id {
                Some(id) => Some(id@),
                None => None,
            },
        }
    }
}

impl TrayManager {
    /// Creates the state of a freshly started application.
    pub fn new() -> (manager: TrayManager)
        ensures
            manager@ == TrayManagerView::initial(),
    {
        TrayManager {
            is_recording: false,
            close_to_tray: false,
            start_minimized: false,
            tray_icon_id: None,
        }
    }

    /// Overwrites the recording flag. Nothing else changes.
    pub fn set_recording_state(&mut self, recording: bool)
        ensures
            final(self)@ == old(self)@.with_recording(recording),
    {
        self.is_recording = recording;
    }

    /// Whether a recording is in progress.
    pub fn is_recording(&self) -> (recording: bool)
        ensures
            recording == self@.is_recording,
    {
        self.is_recording
    }

    /// Overwrites both tray settings. Nothing else changes.
    pub fn update_settings(&mut self, close_to_tray: bool, start_minimized: bool)
        ensures
            final(self)@ == old(self)@.with_settings(close_to_tray, start_minimized),
    {
        self.close_to_tray = close_to_tray;
        self.start_minimized = start_minimized;
    }

    /// Whether closing the main window hides it to the tray.
    pub fn should_close_to_tray(&self) -> (close_to_tray: bool)
        ensures
            close_to_tray == self@.close_to_tray,
    {
        self.close_to_tray
    }

    /// Whether the application starts with its main window hidden.
    pub fn should_start_minimized(&self) -> (start_minimized: bool)
        ensures
            start_minimized == self@.start_minimized,
    {
        self.start_minimized
    }

    /// Records `id` as the identifier of the live tray icon.
    pub fn set_tray_icon_id(&mut self, id: String)
        ensures
            final(self)@ == old(self)@.with_tray_icon(id@),
    {
        self.tray_icon_id = Some(id);
    }

    /// The identifier of the live tray icon, once one has been recorded.
    pub fn tray_icon_id(&self) -> (id: Option<&String>)
        ensures
            match id {
                Some(id) => self@.tray_icon_id == Some(id@),
                None => self@.tray_icon_id is None,
            },
    {
        self.tray_icon_id.as_ref()
    }
}

/// Reading the recording flag after writing it gives back what was written.
pub proof fn law_recording_is_read_back(before: TrayManagerView, recording: bool)
    ensures
        before.with_recording(recording).is_recording == recording,
{
}

/// After the settings are written, the close-to-tray setting is the one that
/// was written, whatever `start_minimized` is.
pub proof fn law_close_to_tray_is_read_back(
    before: TrayManagerView,
    close_to_tray: bool,
    start_minimized: bool,
)
    ensures
        before.with_settings(close_to_tray, start_minimized).close_to_tray == close_to_tray,
{
}

} // verus!
