//! What the controller's operations achieve on the model desktop, and what
//! holds of them whatever the host replies.

use vstd::prelude::*;
use crate::desktop::{Desktop, IconImage, Outcome};
use crate::display::{icon_path_of, tooltip_of, TrayState};
use crate::error::TrayErrorView;
use crate::events::{menu_event_step, tray_event_step, TrayIconEvent, MENU_QUIT, MENU_SHOW};
use crate::host::HostReplyView;
use crate::icon::refresh_step;
use crate::setup::{setup_step, tray_menu_entries};
use crate::step::{hide_step, show_step, toggle_step, PendingView, StepView, MAIN_WINDOW};

verus! {

impl PendingView {
    /// Whether the operation is one that reports no failure: a quiet window
    /// operation, leaving the process, or any part of an icon refresh.
    pub open spec fn reports_no_failure(self) -> bool {
        match self {
            PendingView::Visibility { quiet } => quiet,
            PendingView::Shown { quiet } => quiet,
            PendingView::Focused { quiet } => quiet,
            PendingView::Hidden { quiet } => quiet,
            PendingView::TrayBuilt => false,
            _ => true,
        }
    }
}

/// An operation that reports no failure finishes with `Ok` or goes on as such
/// an operation, whatever the host replies. So event handling and the icon
/// refresh never fail.
pub proof fn law_quiet_operations_never_fail(pending: PendingView, reply: HostReplyView)
    requires
        pending.reports_no_failure(),
    ensures
        match pending.on_reply(reply) {
            StepView::Finish(result) => result is Ok,
            StepView::Ask { then, .. } => then.reports_no_failure(),
        },
{
}

/// Showing the main window leaves it visible and focused.
pub proof fn law_show_reveals_window(desktop: Desktop, quiet: bool)
    requires
        desktop.windows.contains_key(MAIN_WINDOW@),
    ensures
        ({
            let after = desktop.run(show_step(quiet));
            &&& after.result is Ok
            &&& after.desktop.windows.contains_key(MAIN_WINDOW@)
            &&& after.desktop.windows[MAIN_WINDOW@].visible
            &&& after.desktop.windows[MAIN_WINDOW@].focused
        }),
{
    reveal_with_fuel(Desktop::run, 3);
}

/// Hiding the main window leaves it invisible.
pub proof fn law_hide_conceals_window(desktop: Desktop, quiet: bool)
    requires
        desktop.windows.contains_key(MAIN_WINDOW@),
    ensures
        ({
            let after = desktop.run(hide_step(quiet));
            &&& after.result is Ok
            &&& after.desktop.windows.contains_key(MAIN_WINDOW@)
            &&& !after.desktop.windows[MAIN_WINDOW@].visible
        }),
{
    reveal_with_fuel(Desktop::run, 2);
}

/// Toggling the main window inverts its visibility.
pub proof fn law_toggle_inverts_visibility(desktop: Desktop, quiet: bool)
    requires
        desktop.windows.contains_key(MAIN_WINDOW@),
    ensures
        ({
            let after = desktop.run(toggle_step(quiet));
            &&& after.result is Ok
            &&& after.desktop.windows.contains_key(MAIN_WINDOW@)
            &&& after.desktop.windows[MAIN_WINDOW@].visible
                == !desktop.windows[MAIN_WINDOW@].visible
        }),
{
    reveal_with_fuel(Desktop::run, 4);
}

/// Toggling the main window twice in succession restores its visibility.
pub proof fn law_toggle_twice_restores_visibility(desktop: Desktop, quiet: bool)
    requires
        desktop.windows.contains_key(MAIN_WINDOW@),
    ensures
        ({
            let once = desktop.run(toggle_step(quiet));
            let twice = once.desktop.run(toggle_step(quiet));
            &&& once.result is Ok
            &&& twice.result is Ok
            &&& twice.desktop.windows.contains_key(MAIN_WINDOW@)
            &&& twice.desktop.windows[MAIN_WINDOW@].visible
                == desktop.windows[MAIN_WINDOW@].visible
        }),
{
    law_toggle_inverts_visibility(desktop, quiet);
    law_toggle_inverts_visibility(desktop.run(toggle_step(quiet)).desktop, quiet);
}

/// Where there is no main window, showing, hiding and toggling it change
/// nothing and succeed.
pub proof fn law_window_operations_spare_missing_window(desktop: Desktop, quiet: bool)
    requires
        !desktop.windows.contains_key(MAIN_WINDOW@),
    ensures
        desktop.run(show_step(quiet)) == (Outcome { desktop, result: Ok(()) }),
        desktop.run(hide_step(quiet)) == (Outcome { desktop, result: Ok(()) }),
        desktop.run(toggle_step(quiet)) == (Outcome { desktop, result: Ok(()) }),
{
    reveal_with_fuel(Desktop::run, 2);
}

/// The left button coming up on the tray icon inverts the visibility of the
/// main window.
pub proof fn law_left_click_toggles_window(desktop: Desktop, event: TrayIconEvent)
    requires
        event.toggles_window(),
        desktop.windows.contains_key(MAIN_WINDOW@),
    ensures
        ({
            let after = desktop.run(tray_event_step(event));
            &&& after.result is Ok
            &&& after.desktop.windows.contains_key(MAIN_WINDOW@)
            &&& after.desktop.windows[MAIN_WINDOW@].visible
                == !desktop.windows[MAIN_WINDOW@].visible
        }),
{
    law_toggle_inverts_visibility(desktop, true);
}

/// Every other event on the tray icon changes nothing.
pub proof fn law_other_tray_events_change_nothing(desktop: Desktop, event: TrayIconEvent)
    requires
        !event.toggles_window(),
    ensures
        desktop.run(tray_event_step(event)) == (Outcome { desktop, result: Ok(()) }),
{
    reveal_with_fuel(Desktop::run, 1);
}

/// Selecting the menu entry `"quit"` leaves the process with exit code 0.
pub proof fn law_quit_entry_leaves_process(desktop: Desktop)
    ensures
        ({
            let after = desktop.run(menu_event_step(MENU_QUIT@));
            &&& after.result is Ok
            &&& after.desktop.exit_code == Some(0i32)
            &&& after.desktop.windows == desktop.windows
        }),
{
    lemma_menu_ids_differ();
    reveal_with_fuel(Desktop::run, 2);
}

/// Selecting the menu entry `"show"` leaves the main window visible and
/// focused.
pub proof fn law_show_entry_reveals_window(desktop: Desktop)
    requires
        desktop.windows.contains_key(MAIN_WINDOW@),
    ensures
        ({
            let after = desktop.run(menu_event_step(MENU_SHOW@));
            &&& after.result is Ok
            &&& after.desktop.windows.contains_key(MAIN_WINDOW@)
            &&& after.desktop.windows[MAIN_WINDOW@].visible
            &&& after.desktop.windows[MAIN_WINDOW@].focused
            &&& after.desktop.exit_code == desktop.exit_code
        }),
{
    reveal_with_fuel(Desktop::run, 3);
}

/// Selecting a menu entry that the controller does not know changes nothing.
pub proof fn law_unknown_entry_changes_nothing(desktop: Desktop, id: Seq<char>)
    requires
        id != MENU_SHOW@,
        id != MENU_QUIT@,
    ensures
        desktop.run(menu_event_step(id)) == (Outcome { desktop, result: Ok(()) }),
{
    reveal_with_fuel(Desktop::run, 1);
}

/// Where the icon file of the state exists and is an image, refreshing the
/// tray icon sets both its tooltip and its image.
pub proof fn law_refresh_shows_state(desktop: Desktop, tray: Seq<char>, state: TrayState)
    requires
        desktop.tray_icons.contains_key(tray),
        desktop.files.contains_key(icon_path_of(state)),
        desktop.images.contains(desktop.files[icon_path_of(state)]),
    ensures
        ({
            let after = desktop.run(refresh_step(Some(tray), state));
            &&& after.result is Ok
            &&& after.desktop.tray_icons.contains_key(tray)
            &&& after.desktop.tray_icons[tray].tooltip == tooltip_of(state)
            &&& after.desktop.tray_icons[tray].image == IconImage::Decoded(
                desktop.files[icon_path_of(state)],
            )
        }),
{
    reveal_with_fuel(Desktop::run, 4);
}

/// Where the icon file of the state is missing or is no image, refreshing the
/// tray icon still succeeds and sets the tooltip, and the image stays as it
/// was.
pub proof fn law_refresh_survives_bad_icon_file(desktop: Desktop, tray: Seq<char>, state: TrayState)
    requires
        desktop.tray_icons.contains_key(tray),
        !desktop.files.contains_key(icon_path_of(state)) || !desktop.images.contains(
            desktop.files[icon_path_of(state)],
        ),
    ensures
        ({
            let after = desktop.run(refresh_step(Some(tray), state));
            &&& after.result is Ok
            &&& after.desktop.tray_icons.contains_key(tray)
            &&& after.desktop.tray_icons[tray].tooltip == tooltip_of(state)
            &&& after.desktop.tray_icons[tray].image == desktop.tray_icons[tray].image
        }),
{
    reveal_with_fuel(Desktop::run, 4);
}

/// Without a tray icon, refreshing changes nothing and succeeds: both where
/// no icon is known and where the known icon does not exist.
pub proof fn law_refresh_spares_missing_icon(
    desktop: Desktop,
    tray_icon_id: Option<Seq<char>>,
    state: TrayState,
)
    requires
        tray_icon_id matches Some(tray) ==> !desktop.tray_icons.contains_key(tray),
    ensures
        desktop.run(refresh_step(tray_icon_id, state)) == (Outcome { desktop, result: Ok(()) }),
{
    reveal_with_fuel(Desktop::run, 2);
}

/// Setting up the tray on a desktop with a default window icon creates a
/// tray icon with the tray menu, the idle tooltip and the default image, and
/// records its identifier in the registered manager.
pub proof fn law_setup_builds_and_registers_tray(desktop: Desktop)
    requires
        desktop.has_default_icon,
    ensures
        ({
            let after = desktop.run(setup_step());
            let id = desktop.next_tray_icon_id;
            &&& after.result is Ok
            &&& after.desktop.tray_icons.contains_key(id)
            &&& after.desktop.tray_icons[id].menu == tray_menu_entries()
            &&& after.desktop.tray_icons[id].tooltip == tooltip_of(TrayState::Idle)
            &&& after.desktop.tray_icons[id].image == IconImage::Default
            &&& match desktop.manager {
                Some(manager) => after.desktop.manager == Some(manager.with_tray_icon(id)),
                None => after.desktop.manager is None,
            }
        }),
{
    reveal_with_fuel(Desktop::run, 3);
}

/// Setting up the tray without a default window icon fails with
/// `NoDefaultIcon` and changes nothing.
pub proof fn law_setup_needs_default_icon(desktop: Desktop)
    requires
        !desktop.has_default_icon,
    ensures
        desktop.run(setup_step()) == (Outcome {
            desktop,
            result: Err(TrayErrorView::NoDefaultIcon),
        }),
{
    reveal_with_fuel(Desktop::run, 2);
}

/// The two menu identifiers are different texts.
proof fn lemma_menu_ids_differ()
    ensures
        MENU_SHOW@ != MENU_QUIT@,
{
    reveal_strlit("show");
    reveal_strlit("quit");
    assert(MENU_SHOW@[0] == 's');
    assert(MENU_QUIT@[0] == 'q');
}

} // verus!
