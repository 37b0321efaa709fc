use std::collections::HashMap;

use tray_controller::commands::update_tray_recording_state;
use tray_controller::display::TrayState;
use tray_controller::error::TrayError;
use tray_controller::events::{
    handle_menu_event, handle_tray_event, MouseButton, MouseButtonState, TrayIconEvent,
};
use tray_controller::host::{HostCall, HostReply, MenuEntry};
use tray_controller::icon::update_tray_icon;
use tray_controller::manager::TrayManager;
use tray_controller::setup::{setup_tray, tray_menu};
use tray_controller::step::{Pending, Step};
use tray_controller::window::toggle_window_visibility;

struct Window {
    visible: bool,
    focused: bool,
}

struct TrayIcon {
    menu: Vec<MenuEntry>,
    tooltip: String,
    image: Option<Vec<u8>>,
}

/// A desktop that lives in memory. A call whose name is in `failing` fails;
/// bytes are an image where they start with `b"PNG"`.
struct Desktop {
    windows: HashMap<String, Window>,
    tray_icons: HashMap<String, TrayIcon>,
    files: HashMap<String, Vec<u8>>,
    has_default_icon: bool,
    manager: Option<TrayManager>,
    exit_code: Option<i32>,
    failing: Vec<&'static str>,
    calls: Vec<String>,
}

fn desktop() -> Desktop {
    Desktop {
        windows: HashMap::new(),
        tray_icons: HashMap::new(),
        files: HashMap::new(),
        has_default_icon: true,
        manager: Some(TrayManager::new()),
        exit_code: None,
        failing: Vec::new(),
        calls: Vec::new(),
    }
}

fn desktop_with_window(visible: bool) -> Desktop {
    let mut d = desktop();
    d.windows.insert(String::from("main"), Window { visible, focused: false });
    d
}

fn desktop_with_tray(id: &str) -> Desktop {
    let mut d = desktop();
    d.tray_icons.insert(
        String::from(id),
        TrayIcon { menu: tray_menu(), tooltip: String::from("Idle"), image: None },
    );
    d.manager.as_mut().unwrap().set_tray_icon_id(String::from(id));
    d
}

fn name_of(call: &HostCall) -> &'static str {
    match call {
        HostCall::IsWindowVisible { .. } => "IsWindowVisible",
        HostCall::ShowWindow { .. } => "ShowWindow",
        HostCall::FocusWindow { .. } => "FocusWindow",
        HostCall::HideWindow { .. } => "HideWindow",
        HostCall::Exit { .. } => "Exit",
        HostCall::BuildTray { .. } => "BuildTray",
        HostCall::StoreTrayIconId { .. } => "StoreTrayIconId",
        HostCall::SetTooltip { .. } => "SetTooltip",
        HostCall::ReadFile { .. } => "ReadFile",
        HostCall::SetIcon { .. } => "SetIcon",
    }
}

fn window_call(d: &mut Desktop, label: &str, act: fn(&mut Window) -> HostReply) -> HostReply {
    match d.windows.get_mut(label) {
        Some(window) => act(window),
        None => HostReply::Missing,
    }
}

fn perform(d: &mut Desktop, call: HostCall) -> HostReply {
    let name = name_of(&call);
    d.calls.push(String::from(name));
    let fails = d.failing.contains(&name);
    let failed = HostReply::Failed(format!("{} failed", name));
    match call {
        HostCall::IsWindowVisible { label } => {
            if !d.windows.contains_key(label) {
                HostReply::Missing
            } else if fails {
                failed
            } else {
                HostReply::Flag(d.windows[label].visible)
            }
        }
        HostCall::ShowWindow { label } => {
            if d.windows.contains_key(label) && fails {
                return failed;
            }
            window_call(d, label, |w| {
                w.visible = true;
                HostReply::Done
            })
        }
        HostCall::FocusWindow { label } => {
            if d.windows.contains_key(label) && fails {
                return failed;
            }
            window_call(d, label, |w| {
                w.focused = true;
                HostReply::Done
            })
        }
        HostCall::HideWindow { label } => {
            if d.windows.contains_key(label) && fails {
                return failed;
            }
            window_call(d, label, |w| {
                w.visible = false;
                w.focused = false;
                HostReply::Done
            })
        }
        HostCall::Exit { code } => {
            d.exit_code = Some(code);
            HostReply::Done
        }
        HostCall::BuildTray { entries, tooltip } => {
            if fails {
                failed
            } else if !d.has_default_icon {
                HostReply::Missing
            } else {
                let id = format!("tray-{}", d.tray_icons.len() + 1);
                let icon = TrayIcon { menu: entries, tooltip: String::from(tooltip), image: None };
                d.tray_icons.insert(id.clone(), icon);
                HostReply::Text(id)
            }
        }
        HostCall::StoreTrayIconId { id } => {
            if let Some(manager) = d.manager.as_mut() {
                manager.set_tray_icon_id(id);
            }
            HostReply::Done
        }
        HostCall::SetTooltip { tray, text } => match d.tray_icons.get_mut(&tray) {
            None => HostReply::Missing,
            Some(_) if fails => failed,
            Some(icon) => {
                icon.tooltip = String::from(text);
                HostReply::Done
            }
        },
        HostCall::ReadFile { path } => match d.files.get(path) {
            Some(bytes) if !fails => HostReply::Bytes(bytes.clone()),
            _ => failed,
        },
        HostCall::SetIcon { tray, image } => match d.tray_icons.get_mut(&tray) {
            None => HostReply::Missing,
            Some(_) if fails || !image.starts_with(b"PNG") => failed,
            Some(icon) => {
                icon.image = Some(image);
                HostReply::Done
            }
        },
    }
}

fn drive(d: &mut Desktop, first: Step) -> Result<(), TrayError> {
    let mut step = first;
    loop {
        match step {
            Step::Ask { call, then } => {
                let reply = perform(d, call);
                step = then.on_reply(reply);
            }
            Step::Finish(result) => return result,
        }
    }
}

fn framework(text: &str) -> TrayError {
    TrayError::Framework(String::from(text))
}

fn left_up() -> TrayIconEvent {
    TrayIconEvent::Click { button: MouseButton::Left, button_state: MouseButtonState::Up }
}

#[test]
fn show_window_shows_then_focuses() {
    let mut d = desktop_with_window(false);
    assert_eq!(drive(&mut d, TrayManager::show_window()), Ok(()));
    assert!(d.windows["main"].visible);
    assert!(d.windows["main"].focused);
    assert_eq!(d.calls, vec!["ShowWindow", "FocusWindow"]);
}

#[test]
fn show_window_without_window_is_a_no_op() {
    let mut d = desktop();
    assert_eq!(drive(&mut d, TrayManager::show_window()), Ok(()));
    assert_eq!(d.calls, vec!["ShowWindow"]);
}

#[test]
fn show_window_stops_at_failed_show() {
    let mut d = desktop_with_window(false);
    d.failing.push("ShowWindow");
    assert_eq!(drive(&mut d, TrayManager::show_window()), Err(framework("ShowWindow failed")));
    assert_eq!(d.calls, vec!["ShowWindow"]);
    assert!(!d.windows["main"].focused);
}

#[test]
fn show_window_reports_failed_focus() {
    let mut d = desktop_with_window(false);
    d.failing.push("FocusWindow");
    assert_eq!(drive(&mut d, TrayManager::show_window()), Err(framework("FocusWindow failed")));
    assert!(d.windows["main"].visible);
}

#[test]
fn hide_window_hides() {
    let mut d = desktop_with_window(true);
    assert_eq!(drive(&mut d, TrayManager::hide_window()), Ok(()));
    assert!(!d.windows["main"].visible);
    assert_eq!(d.calls, vec!["HideWindow"]);
}

#[test]
fn hide_window_without_window_is_a_no_op() {
    let mut d = desktop();
    assert_eq!(drive(&mut d, TrayManager::hide_window()), Ok(()));
}

#[test]
fn hide_window_reports_failure() {
    let mut d = desktop_with_window(true);
    d.failing.push("HideWindow");
    assert_eq!(drive(&mut d, TrayManager::hide_window()), Err(framework("HideWindow failed")));
    assert!(d.windows["main"].visible);
}

#[test]
fn toggle_hides_a_visible_window() {
    let mut d = desktop_with_window(true);
    assert_eq!(drive(&mut d, toggle_window_visibility()), Ok(()));
    assert!(!d.windows["main"].visible);
    assert_eq!(d.calls, vec!["IsWindowVisible", "HideWindow"]);
}

#[test]
fn toggle_shows_and_focuses_a_hidden_window() {
    let mut d = desktop_with_window(false);
    assert_eq!(drive(&mut d, toggle_window_visibility()), Ok(()));
    assert!(d.windows["main"].visible);
    assert!(d.windows["main"].focused);
    assert_eq!(d.calls, vec!["IsWindowVisible", "ShowWindow", "FocusWindow"]);
}

#[test]
fn toggle_twice_restores_visibility() {
    for visible in [true, false] {
        let mut d = desktop_with_window(visible);
        assert_eq!(drive(&mut d, toggle_window_visibility()), Ok(()));
        assert_eq!(d.windows["main"].visible, !visible);
        assert_eq!(drive(&mut d, toggle_window_visibility()), Ok(()));
        assert_eq!(d.windows["main"].visible, visible);
    }
}

#[test]
fn toggle_without_window_is_a_no_op() {
    let mut d = desktop();
    assert_eq!(drive(&mut d, toggle_window_visibility()), Ok(()));
    assert_eq!(d.calls, vec!["IsWindowVisible"]);
}

#[test]
fn toggle_reports_failed_question() {
    let mut d = desktop_with_window(true);
    d.failing.push("IsWindowVisible");
    assert_eq!(
        drive(&mut d, toggle_window_visibility()),
        Err(framework("IsWindowVisible failed"))
    );
    assert_eq!(d.calls, vec!["IsWindowVisible"]);
    assert!(d.windows["main"].visible);
}

#[test]
fn toggle_reports_failed_hide_and_show() {
    let mut d = desktop_with_window(true);
    d.failing.push("HideWindow");
    assert_eq!(drive(&mut d, toggle_window_visibility()), Err(framework("HideWindow failed")));
    let mut d = desktop_with_window(false);
    d.failing.push("ShowWindow");
    assert_eq!(drive(&mut d, toggle_window_visibility()), Err(framework("ShowWindow failed")));
}

#[test]
fn left_click_toggles_the_window() {
    let mut d = desktop_with_window(true);
    assert_eq!(drive(&mut d, handle_tray_event(left_up())), Ok(()));
    assert!(!d.windows["main"].visible);
    assert_eq!(drive(&mut d, handle_tray_event(left_up())), Ok(()));
    assert!(d.windows["main"].visible);
    assert!(d.windows["main"].focused);
}

#[test]
fn left_click_takes_failed_question_for_hidden() {
    let mut d = desktop_with_window(true);
    d.failing.push("IsWindowVisible");
    assert_eq!(drive(&mut d, handle_tray_event(left_up())), Ok(()));
    assert_eq!(d.calls, vec!["IsWindowVisible", "ShowWindow", "FocusWindow"]);
}

#[test]
fn left_click_swallows_failures() {
    let mut d = desktop_with_window(true);
    d.failing.push("HideWindow");
    assert_eq!(drive(&mut d, handle_tray_event(left_up())), Ok(()));
    assert!(d.windows["main"].visible);
    let mut d = desktop_with_window(false);
    d.failing.push("ShowWindow");
    assert_eq!(drive(&mut d, handle_tray_event(left_up())), Ok(()));
    assert_eq!(d.calls, vec!["IsWindowVisible", "ShowWindow"]);
}

#[test]
fn other_tray_events_are_ignored() {
    let events = [
        TrayIconEvent::Click { button: MouseButton::Left, button_state: MouseButtonState::Down },
        TrayIconEvent::Click { button: MouseButton::Right, button_state: MouseButtonState::Up },
        TrayIconEvent::Click { button: MouseButton::Middle, button_state: MouseButtonState::Up },
        TrayIconEvent::DoubleClick { button: MouseButton::Left },
        TrayIconEvent::Enter,
        TrayIconEvent::Move,
        TrayIconEvent::Leave,
    ];
    for event in events {
        assert_eq!(handle_tray_event(event), Step::Finish(Ok(())));
    }
}

#[test]
fn menu_show_reveals_the_window() {
    let mut d = desktop_with_window(false);
    assert_eq!(drive(&mut d, handle_menu_event("show")), Ok(()));
    assert!(d.windows["main"].visible);
    assert!(d.windows["main"].focused);
    assert_eq!(d.exit_code, None);
}

#[test]
fn menu_show_swallows_failures() {
    let mut d = desktop_with_window(false);
    d.failing.push("ShowWindow");
    assert_eq!(drive(&mut d, handle_menu_event("show")), Ok(()));
    assert_eq!(d.calls, vec!["ShowWindow"]);
}

#[test]
fn menu_quit_exits_with_code_zero() {
    let mut d = desktop_with_window(true);
    assert_eq!(
        handle_menu_event("quit"),
        Step::Ask { call: HostCall::Exit { code: 0 }, then: Pending::Exited }
    );
    assert_eq!(drive(&mut d, handle_menu_event("quit")), Ok(()));
    assert_eq!(d.exit_code, Some(0));
    assert!(d.windows["main"].visible);
}

#[test]
fn unknown_menu_ids_change_nothing() {
    for id in ["", "Show", "show ", "sho", "shows", "quit!", "QUIT", "hide", "qu\u{ef}t"] {
        let mut d = desktop_with_window(false);
        assert_eq!(handle_menu_event(id), Step::Finish(Ok(())));
        assert_eq!(drive(&mut d, handle_menu_event(id)), Ok(()));
        assert!(!d.windows["main"].visible);
        assert_eq!(d.exit_code, None);
        assert!(d.calls.is_empty());
    }
}

#[test]
fn refresh_sets_tooltip_and_image() {
    let mut d = desktop_with_tray("t");
    d.files.insert(String::from("icons/tray-processing.png"), b"PNG processing".to_vec());
    let step = update_tray_icon(d.manager.as_ref(), TrayState::Processing);
    assert_eq!(drive(&mut d, step), Ok(()));
    assert_eq!(d.tray_icons["t"].tooltip, "Processing");
    assert_eq!(d.tray_icons["t"].image, Some(b"PNG processing".to_vec()));
    assert_eq!(d.calls, vec!["SetTooltip", "ReadFile", "SetIcon"]);
}

#[test]
fn refresh_with_missing_file_keeps_image() {
    let mut d = desktop_with_tray("t");
    d.tray_icons.get_mut("t").unwrap().image = Some(b"PNG old".to_vec());
    let step = update_tray_icon(d.manager.as_ref(), TrayState::Recording);
    assert_eq!(drive(&mut d, step), Ok(()));
    assert_eq!(d.tray_icons["t"].tooltip, "Recording");
    assert_eq!(d.tray_icons["t"].image, Some(b"PNG old".to_vec()));
    assert_eq!(d.calls, vec!["SetTooltip", "ReadFile"]);
}

#[test]
fn refresh_with_corrupt_file_keeps_image() {
    let mut d = desktop_with_tray("t");
    d.tray_icons.get_mut("t").unwrap().image = Some(b"PNG old".to_vec());
    d.files.insert(String::from("icons/tray-recording.png"), b"garbage".to_vec());
    let step = update_tray_icon(d.manager.as_ref(), TrayState::Recording);
    assert_eq!(drive(&mut d, step), Ok(()));
    assert_eq!(d.tray_icons["t"].tooltip, "Recording");
    assert_eq!(d.tray_icons["t"].image, Some(b"PNG old".to_vec()));
    assert_eq!(d.calls, vec!["SetTooltip", "ReadFile", "SetIcon"]);
}

#[test]
fn refresh_goes_on_after_failed_tooltip() {
    let mut d = desktop_with_tray("t");
    d.failing.push("SetTooltip");
    d.files.insert(String::from("icons/tray-idle.png"), b"PNG idle".to_vec());
    let step = update_tray_icon(d.manager.as_ref(), TrayState::Idle);
    assert_eq!(drive(&mut d, step), Ok(()));
    assert_eq!(d.tray_icons["t"].image, Some(b"PNG idle".to_vec()));
}

#[test]
fn refresh_of_vanished_icon_does_nothing() {
    let mut d = desktop();
    d.manager.as_mut().unwrap().set_tray_icon_id(String::from("gone"));
    let step = update_tray_icon(d.manager.as_ref(), TrayState::Recording);
    assert_eq!(drive(&mut d, step), Ok(()));
    assert_eq!(d.calls, vec!["SetTooltip"]);
}

#[test]
fn recording_scenario() {
    let mut d = desktop_with_tray("t");
    d.files.insert(String::from("icons/tray-recording.png"), b"PNG rec".to_vec());
    let mut manager = d.manager.take().unwrap();
    assert!(!manager.is_recording());
    let first = update_tray_recording_state(true, &mut manager);
    assert!(manager.is_recording());
    assert_eq!(
        first,
        Step::Ask {
            call: HostCall::SetTooltip { tray: String::from("t"), text: "Recording" },
            then: Pending::TooltipSet { tray: String::from("t"), state: TrayState::Recording },
        }
    );
    let second = Pending::TooltipSet { tray: String::from("t"), state: TrayState::Recording }
        .on_reply(HostReply::Done);
    assert_eq!(
        second,
        Step::Ask {
            call: HostCall::ReadFile { path: "icons/tray-recording.png" },
            then: Pending::IconRead { tray: String::from("t") },
        }
    );
    assert_eq!(drive(&mut d, first), Ok(()));
    assert_eq!(d.tray_icons["t"].tooltip, "Recording");
    assert_eq!(d.tray_icons["t"].image, Some(b"PNG rec".to_vec()));
}

#[test]
fn setup_builds_tray_and_registers_it() {
    let mut d = desktop();
    assert_eq!(drive(&mut d, setup_tray()), Ok(()));
    assert_eq!(d.calls, vec!["BuildTray", "StoreTrayIconId"]);
    let icon = &d.tray_icons["tray-1"];
    assert_eq!(icon.tooltip, "Idle");
    assert_eq!(icon.menu, tray_menu());
    assert_eq!(icon.image, None);
    assert_eq!(d.manager.as_ref().unwrap().tray_icon_id(), Some(&String::from("tray-1")));
}

#[test]
fn setup_without_manager_still_builds() {
    let mut d = desktop();
    d.manager = None;
    assert_eq!(drive(&mut d, setup_tray()), Ok(()));
    assert!(d.tray_icons.contains_key("tray-1"));
}

#[test]
fn setup_without_default_icon_fails() {
    let mut d = desktop();
    d.has_default_icon = false;
    assert_eq!(drive(&mut d, setup_tray()), Err(TrayError::NoDefaultIcon));
    assert!(d.tray_icons.is_empty());
    assert_eq!(d.manager.as_ref().unwrap().tray_icon_id(), None);
}

#[test]
fn setup_reports_framework_failure() {
    let mut d = desktop();
    d.failing.push("BuildTray");
    assert_eq!(drive(&mut d, setup_tray()), Err(framework("BuildTray failed")));
    assert_eq!(d.calls, vec!["BuildTray"]);
}

#[test]
fn setup_then_refresh_reaches_the_new_icon() {
    let mut d = desktop();
    d.files.insert(String::from("icons/tray-recording.png"), b"PNG rec".to_vec());
    assert_eq!(drive(&mut d, setup_tray()), Ok(()));
    let step = update_tray_icon(d.manager.as_ref(), TrayState::Recording);
    assert_eq!(drive(&mut d, step), Ok(()));
    assert_eq!(d.tray_icons["tray-1"].tooltip, "Recording");
    assert_eq!(d.tray_icons["tray-1"].image, Some(b"PNG rec".to_vec()));
}

#[test]
fn replies_that_answer_nothing_have_a_meaning() {
    assert_eq!(
        Pending::Visibility { quiet: false }.on_reply(HostReply::Done),
        Step::Ask {
            call: HostCall::ShowWindow { label: "main" },
            then: Pending::Shown { quiet: false },
        }
    );
    assert_eq!(Pending::TrayBuilt.on_reply(HostReply::Done), Step::Finish(Ok(())));
    assert_eq!(
        Pending::IconRead { tray: String::from("t") }.on_reply(HostReply::Missing),
        Step::Finish(Ok(()))
    );
    assert_eq!(
        Pending::Exited.on_reply(HostReply::Failed(String::from("x"))),
        Step::Finish(Ok(()))
    );
}
