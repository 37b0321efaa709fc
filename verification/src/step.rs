//! The controller's operations as steps. An operation asks its host for one
//! call at a time; the host makes the call and hands the reply back, until
//! the operation finishes with its result.

use vstd::prelude::*;
use crate::display::{get_tray_info, icon_path_of, TrayState};
use crate::error::{result_view, TrayError, TrayErrorView};
use crate::host::{HostCall, HostCallView, HostReply, HostReplyView};

verus! {

/// The name of the application's main window.
pub const MAIN_WINDOW: &'static str = "main";

/// What an operation waits for: the reply to the call it asked for last.
///
/// An operation marked `quiet` was started by a tray or menu event. Nobody
/// receives its result, so it finishes with `Ok` whatever happens.
#[derive(Debug, PartialEq, Eq)]
pub enum Pending {
    /// `IsWindowVisible` was asked; the window is then hidden or shown.
    Visibility { quiet: bool },
    /// `ShowWindow` was asked; the window is focused next.
    Shown { quiet: bool },
    /// `FocusWindow` was asked.
    Focused { quiet: bool },
    /// `HideWindow` was asked.
    Hidden { quiet: bool },
    /// `Exit` was asked.
    Exited,
    /// `BuildTray` was asked; the new icon's identifier is stored next.
    TrayBuilt,
    /// `StoreTrayIconId` was asked.
    IdStored,
    /// `SetTooltip` was asked of the icon `tray`; the icon file of `state` is
    /// read next.
    TooltipSet { tray: String, state: TrayState },
    /// `ReadFile` was asked; its contents become the image of the icon `tray`.
    IconRead { tray: String },
    /// `SetIcon` was asked.
    IconSet,
}

/// The mathematical value of a [`Pending`].
pub enum PendingView {
    Visibility { quiet: bool },
    Shown { quiet: bool },
    Focused { quiet: bool },
    Hidden { quiet: bool },
    Exited,
    TrayBuilt,
    IdStored,
    TooltipSet { tray: Seq<char>, state: TrayState },
    IconRead { tray: Seq<char> },
    IconSet,
}

impl View for Pending {
    type V = PendingView;

    open spec fn view(&self) -> PendingView {
        match *self {
            Pending::Visibility { quiet } => PendingView::Visibility { quiet },
            Pending::Shown { quiet } => PendingView::Shown { quiet },
            Pending::Focused { quiet } => PendingView::Focused { quiet },
            Pending::Hidden { quiet } => PendingView::Hidden { quiet },
            Pending::Exited => PendingView::Exited,
            Pending::TrayBuilt => PendingView::TrayBuilt,
            Pending::IdStored => PendingView::IdStored,
            Pending::TooltipSet { tray, state } => PendingView::TooltipSet { tray: tray@, state },
            Pending::IconRead { tray } => PendingView::IconRead { tray: tray@ },
            Pending::IconSet => PendingView::IconSet,
        }
    }
}

/// What an operation does next.
#[derive(Debug, PartialEq, Eq)]
pub enum Step {
    /// The host is to make `call` and hand its reply to `then`.
    Ask { call: HostCall, then: Pending },
    /// The operation is over, with this result.
    Finish(Result<(), TrayError>),
}

/// The mathematical value of a [`Step`].
pub enum StepView {
    Ask { call: HostCallView, then: PendingView },
    Finish(Result<(), TrayErrorView>),
}

impl View for Step {
    type V = StepView;

    open spec fn view(&self) -> StepView {
        match *self {
            Step::Ask { call, then } => StepView::Ask { call: call@, then: then@ },
            Step::Finish(result) => StepView::Finish(result_view(result)),
        }
    }
}

/// The result of an operation one of whose calls failed with `message`: the
/// failure itself, or `Ok` where the operation is quiet.
pub open spec fn failure(quiet: bool, message: Seq<char>) -> Result<(), TrayErrorView> {
    if quiet {
        Ok(())
    } else {
        Err(TrayErrorView::Framework(message))
    }
}

/// The first step of showing the main window: make it visible.
pub open spec fn show_step(quiet: bool) -> StepView {
    StepView::Ask {
        call: HostCallView::ShowWindow { label: MAIN_WINDOW@ },
        then: PendingView::Shown { quiet },
    }
}

/// The only step of hiding the main window.
pub open spec fn hide_step(quiet: bool) -> StepView {
    StepView::Ask {
        call: HostCallView::HideWindow { label: MAIN_WINDOW@ },
        then: PendingView::Hidden { quiet },
    }
}

/// The first step of toggling the main window: ask whether it is visible.
pub open spec fn toggle_step(quiet: bool) -> StepView {
    StepView::Ask {
        call: HostCallView::IsWindowVisible { label: MAIN_WINDOW@ },
        then: PendingView::Visibility { quiet },
    }
}

impl PendingView {
    /// The step that follows `reply`.
    ///
    /// Window operations do nothing more once the window is `Missing`, and
    /// stop at the first call that `Failed`. A toggle hides the window only on
    /// `Flag(true)`; a quiet toggle takes a failed question for "not visible".
    /// Building the tray stores the identifier it is given. Refreshing the
    /// icon goes on after a failed tooltip, gives up the image where the file
    /// cannot be read, and never fails.
    pub open spec fn on_reply(self, reply: HostReplyView) -> StepView {
        match self {
            PendingView::Visibility { quiet } => match reply {
                HostReplyView::Missing => StepView::Finish(Ok(())),
                HostReplyView::Failed(message) => if quiet {
                    show_step(quiet)
                } else {
                    StepView::Finish(failure(quiet, message))
                },
                HostReplyView::Flag(true) => hide_step(quiet),
                _ => show_step(quiet),
            },
            PendingView::Shown { quiet } => match reply {
                HostReplyView::Missing => StepView::Finish(Ok(())),
                HostReplyView::Failed(message) => StepView::Finish(failure(quiet, message)),
                _ => StepView::Ask {
                    call: HostCallView::FocusWindow { label: MAIN_WINDOW@ },
                    then: PendingView::Focused { quiet },
                },
            },
            PendingView::Focused { quiet } | PendingView::Hidden { quiet } => match reply {
                HostReplyView::Failed(message) => StepView::Finish(failure(quiet, message)),
                _ => StepView::Finish(Ok(())),
            },
            PendingView::Exited | PendingView::IdStored | PendingView::IconSet => StepView::Finish(
                Ok(()),
            ),
            PendingView::TrayBuilt => match reply {
                HostReplyView::Text(id) => StepView::Ask {
                    call: HostCallView::StoreTrayIconId { id },
                    then: PendingView::IdStored,
                },
                HostReplyView::Missing => StepView::Finish(Err(TrayErrorView::NoDefaultIcon)),
                HostReplyView::Failed(message) => StepView::Finish(
                    Err(TrayErrorView::Framework(message)),
                ),
                _ => StepView::Finish(Ok(())),
            },
            PendingView::TooltipSet { tray, state } => match reply {
                HostReplyView::Missing => StepView::Finish(Ok(())),
                _ => StepView::Ask {
                    call: HostCallView::ReadFile { path: icon_path_of(state) },
                    then: PendingView::IconRead { tray },
                },
            },
            PendingView::IconRead { tray } => match reply {
                HostReplyView::Bytes(image) => StepView::Ask {
                    call: HostCallView::SetIcon { tray, image },
                    then: PendingView::IconSet,
                },
                _ => StepView::Finish(Ok(())),
            },
        }
    }

    /// The largest number of replies that the operation can still take.
    pub open spec fn replies_left(self) -> nat {
        match self {
            PendingView::Visibility { .. } => 3,
            PendingView::Shown { .. } => 2,
            PendingView::Focused { .. } => 1,
            PendingView::Hidden { .. } => 1,
            PendingView::Exited => 1,
            PendingView::TrayBuilt => 2,
            PendingView::IdStored => 1,
            PendingView::TooltipSet { .. } => 3,
            PendingView::IconRead { .. } => 2,
            PendingView::IconSet => 1,
        }
    }
}

impl StepView {
    /// The largest number of calls that the operation can still ask for,
    /// this one included.
    pub open spec fn calls_left(self) -> nat {
        match self {
            StepView::Ask { then, .. } => then.replies_left(),
            StepView::Finish(_) => 0,
        }
    }
}

/// Every reply brings an operation nearer to its end, so no operation asks
/// for more than three calls, whatever the host replies.
pub proof fn law_every_reply_advances(pending: PendingView, reply: HostReplyView)
    ensures
        pending.on_reply(reply).calls_left() < pending.replies_left() <= 3,
{
}

fn finish_failed(quiet: bool, message: String) -> (step: Step)
    ensures
        step@ == StepView::Finish(failure(quiet, message@)),
{
    if quiet {
        Step::Finish(Ok(()))
    } else {
        Step::Finish(Err(TrayError::Framework(message)))
    }
}

/// The first step of showing the main window.
pub(crate) fn ask_show(quiet: bool) -> (step: Step)
    ensures
        step@ == show_step(quiet),
{
    Step::Ask { call: HostCall::ShowWindow { label: MAIN_WINDOW }, then: Pending::Shown { quiet } }
}

/// The only step of hiding the main window.
pub(crate) fn ask_hide(quiet: bool) -> (step: Step)
    ensures
        step@ == hide_step(quiet),
{
    Step::Ask { call: HostCall::HideWindow { label: MAIN_WINDOW }, then: Pending::Hidden { quiet } }
}

/// The first step of toggling the main window.
pub(crate) fn ask_toggle(quiet: bool) -> (step: Step)
    ensures
        step@ == toggle_step(quiet),
{
    Step::Ask {
        call: HostCall::IsWindowVisible { label: MAIN_WINDOW },
        then: Pending::Visibility { quiet },
    }
}

impl Pending {
    /// Takes the host's reply to the call that was asked for last and says
    /// what the operation does next.
    pub fn on_reply(self, reply: HostReply) -> (step: Step)
        ensures
            step@ == self@.on_reply(reply@),
    {
        match self {
            Pending::Visibility { quiet } => match reply {
                HostReply::Missing => Step::Finish(Ok(())),
                HostReply::Failed(message) => if quiet {
                    ask_show(quiet)
                } else {
                    finish_failed(quiet, message)
                },
                HostReply::Flag(true) => ask_hide(quiet),
                _ => ask_show(quiet),
            },
            Pending::Shown { quiet } => match reply {
                HostReply::Missing => Step::Finish(Ok(())),
                HostReply::Failed(message) => finish_failed(quiet, message),
                _ => Step::Ask {
                    call: HostCall::FocusWindow { label: MAIN_WINDOW },
                    then: Pending::Focused { quiet },
                },
            },
            Pending::Focused { quiet } | Pending::Hidden { quiet } => match reply {
                HostReply::Failed(message) => finish_failed(quiet, message),
                _ => Step::Finish(Ok(())),
            },
            Pending::Exited | Pending::IdStored | Pending::IconSet => Step::Finish(Ok(())),
            Pending::TrayBuilt => match reply {
                HostReply::Text(id) => Step::Ask {
                    call: HostCall::StoreTrayIconId { id },
                    then: Pending::IdStored,
                },
                HostReply::Missing => Step::Finish(Err(TrayError::NoDefaultIcon)),
                HostReply::Failed(message) => Step::Finish(Err(TrayError::Framework(message))),
                _ => Step::Finish(Ok(())),
            },
            Pending::TooltipSet { tray, state } => match reply {
                HostReply::Missing => Step::Finish(Ok(())),
                _ => {
                    let (path, _) = get_tray_info(state);
                    Step::Ask { call: HostCall::ReadFile { path }, then: Pending::IconRead { tray } }
                },
            },
            Pending::IconRead { tray } => match reply {
                HostReply::Bytes(image) => Step::Ask {
                    call: HostCall::SetIcon { tray, image },
                    then: Pending::IconSet,
                },
                _ => Step::Finish(Ok(())),
            },
        }
    }
}

} // verus!
