//! Refreshing the tray icon: its tooltip and its image follow the display
//! state.

use vstd::prelude::*;
use crate::display::{get_tray_info, tooltip_of, TrayState};
use crate::host::{HostCall, HostCallView};
use crate::manager::TrayManager;
use crate::step::{Pending, PendingView, Step, StepView};

verus! {

/// The identifier of the tray icon that `manager` knows of: none where there
/// is no manager, or where no icon has been recorded in it.
pub open spec fn known_tray_icon(manager: Option<&TrayManager>) -> Option<Seq<char>> {
    match manager {
        Some(manager) => manager@.tray_icon_id,
        None => None,
    }
}

/// The first step of refreshing the tray icon `tray_icon_id` for `state`: set
/// its tooltip. Without an icon there is nothing to do.
pub open spec fn refresh_step(tray_icon_id: Option<Seq<char>>, state: TrayState) -> StepView {
    match tray_icon_id {
        Some(tray) => StepView::Ask {
            call: HostCallView::SetTooltip { tray, text: tooltip_of(state) },
            then: PendingView::TooltipSet { tray, state },
        },
        None => StepView::Finish(Ok(())),
    }
}

/// Starts refreshing the tray icon for `state`. Where `manager` knows of a
/// tray icon, its tooltip is set, then the icon file of `state` is read and
/// shown. A tooltip that cannot be set does not stop the refresh, and a file
/// that cannot be read or shown leaves the previous image in place. The
/// operation always finishes with `Ok`.
pub fn update_tray_icon(manager: Option<&TrayManager>, state: TrayState) -> (step: Step)
    ensures
        step@ == refresh_step(known_tray_icon(manager), state),
{
    let tray_icon_id = match manager {
        Some(manager) => manager.tray_icon_id(),
        None => None,
    };
    match tray_icon_id {
        Some(id) => {
            let (_, text) = get_tray_info(state);
            Step::Ask {
                call: HostCall::SetTooltip { tray: id.clone(), text },
                then: Pending::TooltipSet { tray: id.clone(), state },
            }
        },
        None => Step::Finish(Ok(())),
    }
}

} // verus!
