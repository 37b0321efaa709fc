//! Building the tray icon and its menu at startup.

use vstd::prelude::*;
use crate::display::{get_tray_info, tooltip_of, TrayState};
use crate::events::{MENU_QUIT, MENU_SHOW};
use crate::host::{menu_view, HostCall, HostCallView, MenuEntry, MenuEntryView};
use crate::step::{Pending, PendingView, Step, StepView};

verus! {

/// The label of the menu entry that shows the main window.
pub const SHOW_LABEL: &'static str = "Show";

/// The label of the menu entry that quits the application.
pub const QUIT_LABEL: &'static str = "Quit";

/// The tray menu: an entry that shows the main window, then one that quits.
pub open spec fn tray_menu_entries() -> Seq<MenuEntryView> {
    seq![
        MenuEntryView { id: MENU_SHOW@, label: SHOW_LABEL@, enabled: true },
        MenuEntryView { id: MENU_QUIT@, label: QUIT_LABEL@, enabled: true },
    ]
}

/// The first step of setting up the tray: build it, with the tooltip of the
/// idle state.
pub open spec fn setup_step() -> StepView {
    StepView::Ask {
        call: HostCallView::BuildTray {
            entries: tray_menu_entries(),
            tooltip: tooltip_of(TrayState::Idle),
        },
        then: PendingView::TrayBuilt,
    }
}

/// The entries of the tray menu, in the order in which they are shown.
pub fn tray_menu() -> (entries: Vec<MenuEntry>)
    ensures
        menu_view(entries@) == tray_menu_entries(),
{
    let mut entries: Vec<MenuEntry> = Vec::new();
    entries.push(MenuEntry { id: MENU_SHOW, label: SHOW_LABEL, enabled: true });
    entries.push(MenuEntry { id: MENU_QUIT, label: QUIT_LABEL, enabled: true });
    assert(menu_view(entries@) =~= tray_menu_entries());
    entries
}

/// Starts setting up the tray: the host builds the menu and a tray icon with
/// the default window icon and the tooltip of the idle state, and the new
/// icon's identifier is then stored in the registered tray manager. The
/// operation finishes with `NoDefaultIcon` where the application has no
/// default window icon, and with the framework's failure where building
/// fails.
pub fn setup_tray() -> (step: Step)
    ensures
        step@ == setup_step(),
{
    let (_, tooltip) = get_tray_info(TrayState::Idle);
    Step::Ask { call: HostCall::BuildTray { entries: tray_menu(), tooltip }, then: Pending::TrayBuilt }
}

} // verus!
