//! The menu bar.

use lift::config::{Config, Settings, VirtualWorkspaceSettings};
use lift::event::ScreenInfo;
use lift::geometry::{Point, Rect, Size};
use lift::ids::SpaceId;
use lift::model::{CoreDisplay, WorkspaceId};
use lift::reactor::menu::{MenuDisplay, MenuPlace};
use lift::reactor::Reactor;

fn frame(x: i64) -> Rect {
    Rect { origin: Point { x, y: 0 }, size: Size { width: 100, height: 100 } }
}

fn config() -> Config {
    Config {
        settings: Settings {
            animate: false,
            animation_duration: 0,
            animation_fps: 60,
            default_disable: false,
            mouse_follows_focus: false,
            mouse_hides_on_focus: false,
            focus_follows_mouse: false,
            stack_line_enabled: false,
            mission_control_enabled: false,
            auto_focus_blacklist: vec![],
        },
        virtual_workspaces: VirtualWorkspaceSettings {
            reapply_app_rules_on_title_change: false,
            workspace_auto_back_and_forth: false,
            display_order: vec![],
        },
        keys: vec![],
        key_specs: vec![],
    }
}

fn display(uuid: &str, ids: &[u64]) -> MenuDisplay {
    MenuDisplay {
        display_uuid: uuid.to_string(),
        frame: frame(5),
        workspaces: ids.iter().map(|id| format!("{id}")).collect(),
    }
}

fn reactor(space: Option<SpaceId>) -> Reactor {
    let mut reactor = Reactor::new(config(), false);
    reactor.space_manager.screens = vec![
        ScreenInfo {
            id: 1,
            frame: frame(0),
            space,
            display_uuid: "a".to_string(),
            name: None,
        },
        ScreenInfo {
            id: 2,
            frame: frame(100),
            space: None,
            display_uuid: "c".to_string(),
            name: None,
        },
    ];
    reactor.core.displays = vec![CoreDisplay {
        id: "a".to_string(),
        frame: frame(0),
        space,
        is_active_context: true,
        active_workspace: Some(WorkspaceId(12)),
        last_workspace: None,
    }];
    reactor
}

#[test]
fn the_menu_lists_the_workspaces_of_all_displays() {
    let reactor = reactor(Some(SpaceId::new(1)));
    let displays = vec![
        display("none", &[]),
        display("a", &[11, 12]),
        display("b", &[]),
        display("c", &[13]),
    ];
    let empty = Rect { origin: Point { x: 0, y: 0 }, size: Size { width: 0, height: 0 } };
    let update =
        reactor.maybe_send_menu_update(&displays, vec![5, 6], &vec![frame(77), empty]).unwrap();
    assert_eq!(update.active_space, SpaceId::new(1));
    assert!(!update.active_space_is_activated);
    assert_eq!(
        update.workspaces,
        vec![
            MenuPlace { display: 1, entry: 0 },
            MenuPlace { display: 1, entry: 1 },
            MenuPlace { display: 3, entry: 0 },
        ]
    );
    assert_eq!(update.display_starts, vec![2]);
    assert_eq!(update.active_workspace_idx, Some(1));
    assert_eq!(update.active_workspace, Some(WorkspaceId(12)));
    // The full bounds replace the frame where they are known.
    assert_eq!(update.frames, vec![frame(5), frame(77), frame(5), frame(5)]);
    assert_eq!(update.windows, vec![5, 6]);
}

#[test]
fn without_a_space_the_menu_is_left_alone() {
    let reactor = reactor(None);
    assert!(reactor
        .maybe_send_menu_update::<u8>(&vec![], vec![], &vec![frame(0), frame(0)])
        .is_none());
}
