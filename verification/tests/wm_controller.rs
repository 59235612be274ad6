//! The routing of the window manager's events.

use lift::config::{Config as LiftConfig, Settings, VirtualWorkspaceSettings};
use lift::event::{AppInfo, Command, Event, LayoutCommand, ReactorCommand};
use lift::event_tap::input::Request as TapRequest;
use lift::ids::SpaceId;
use lift::mission_control::Event as MissionControlEvent;
use lift::wm_controller::routing::{
    exec_cmd, exec_finished, new_app, workspace_number_to_global_slot, Config, LaunchReadings,
    WmAction, WmController, WmEvent,
};
use lift::wm_controller::{ExecCmd, WmCmd, WmCommand, WorkspaceSelector};

fn config() -> LiftConfig {
    LiftConfig {
        settings: Settings {
            animate: false,
            animation_duration: 0,
            animation_fps: 60,
            default_disable: false,
            mouse_follows_focus: false,
            mouse_hides_on_focus: false,
            focus_follows_mouse: false,
            stack_line_enabled: false,
            mission_control_enabled: false,
            auto_focus_blacklist: vec![],
        },
        virtual_workspaces: VirtualWorkspaceSettings {
            reapply_app_rules_on_title_change: false,
            workspace_auto_back_and_forth: false,
            display_order: vec![],
        },
        keys: vec![],
        key_specs: vec![],
    }
}

fn controller() -> WmController {
    WmController::new(Config { config: config() }, true, true, true)
}

#[test]
fn digits_select_slots() {
    assert_eq!(workspace_number_to_global_slot(1), Some(0));
    assert_eq!(workspace_number_to_global_slot(9), Some(8));
    assert_eq!(workspace_number_to_global_slot(0), Some(9));
    assert_eq!(workspace_number_to_global_slot(10), None);
}

#[test]
fn workspace_commands_refresh_mission_control() {
    let mut wm = controller();
    let actions = wm.handle_event(WmEvent::Command(WmCommand::Wm(WmCmd::SwitchToWorkspace(
        WorkspaceSelector::Index(0),
    ))));
    assert_eq!(actions.len(), 2);
    assert!(matches!(
        actions[0],
        WmAction::SendMissionControl(MissionControlEvent::RefreshCurrentWorkspace)
    ));
    assert!(matches!(
        actions[1],
        WmAction::SendReactor(Event::Command(Command::Layout(
            LayoutCommand::SwitchToGlobalSlot(9)
        )))
    ));
    let actions = wm.handle_event(WmEvent::Command(WmCommand::Wm(
        WmCmd::MoveWindowToWorkspace(WorkspaceSelector::Name("mail".to_string())),
    )));
    assert!(actions.is_empty());
}

#[test]
fn hotkeys_are_installed_once_and_reloaded_when_they_change() {
    let mut wm = controller();
    let keys = |s: &str| Some(s.to_string());
    let updated = |old: Option<String>, new: Option<String>| WmEvent::ConfigUpdated {
        config: config(),
        old_keys: old,
        new_keys: new,
    };
    let registers = |actions: &Vec<WmAction>| {
        actions.iter().any(|a| matches!(a, WmAction::RegisterHotkeys))
    };
    assert!(!registers(&wm.handle_event(updated(keys("a"), keys("b")))));
    assert!(registers(&wm.handle_event(WmEvent::AppEventsRegistered)));
    assert!(!registers(&wm.handle_event(WmEvent::AppEventsRegistered)));
    assert!(!registers(&wm.handle_event(updated(keys("a"), keys("a")))));
    assert!(registers(&wm.handle_event(updated(keys("a"), keys("b")))));
    assert!(registers(&wm.handle_event(updated(None, keys("b")))));
}

#[test]
fn activations_hide_the_cursor_and_reach_the_reactor() {
    let mut wm = controller();
    let actions = wm.handle_event(WmEvent::AppGloballyActivated(4));
    assert!(matches!(
        actions[0],
        WmAction::SendEventTap(TapRequest::EnforceHidden)
    ));
    assert!(matches!(
        actions[1],
        WmAction::SendReactor(Event::ApplicationGloballyActivated(4))
    ));
    let actions = wm.handle_event(WmEvent::SpaceChanged(vec![Some(SpaceId::new(3))]));
    assert_eq!(actions.len(), 3);
}

#[test]
fn applications_start_once_they_are_ready() {
    let ready = LaunchReadings {
        is_running: true,
        is_login_window: false,
        regular: true,
        regular_after_watch: false,
        finished: true,
        finished_after_watch: false,
    };
    assert!(new_app(ready).spawn);
    let accessory = LaunchReadings { regular: false, ..ready };
    assert!(new_app(accessory).watch_policy);
    assert!(!new_app(accessory).spawn);
    assert!(new_app(LaunchReadings { is_login_window: true, ..accessory }).spawn);
    let late = LaunchReadings { finished: false, finished_after_watch: true, ..ready };
    assert!(new_app(late).unwatch_launch);
    assert!(new_app(late).spawn);
    assert!(!new_app(LaunchReadings { is_running: false, ..ready }).spawn);
    let mut wm = controller();
    let about = AppInfo { bundle_id: None, localized_name: None };
    assert!(matches!(
        wm.handle_event(WmEvent::AppLaunch(5, about))[0],
        WmAction::NewApp(5, _)
    ));
}

#[test]
fn programs_are_run_with_their_arguments() {
    let (args, first) = exec_cmd(&ExecCmd::String("open -a  Mail".to_string())).unwrap();
    assert_eq!(args, vec!["open", "-a", "", "Mail"]);
    assert!(matches!(
        first,
        Event::Command(Command::Reactor(ReactorCommand::FocusNextWindow))
    ));
    assert!(exec_cmd(&ExecCmd::Array(vec![])).is_none());
    assert!(exec_finished(Some(true)).is_none());
    for failure in [Some(false), None] {
        assert!(matches!(
            exec_finished(failure),
            Some(Event::Command(Command::Reactor(ReactorCommand::CancelFocusNextWindow)))
        ));
    }
}

#[test]
fn command_names_are_in_snake_case() {
    let names = WmCmd::snake_case_variants();
    assert_eq!(names.len(), 12);
    assert_eq!(names[0], "toggle_space_activated");
    assert_eq!(names[4], "switch_to_workspace");
    assert_eq!(WmCommand::builtin_candidates(), names);
}
