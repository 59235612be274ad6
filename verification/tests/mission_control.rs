//! The Mission Control overlay.

use lift::app::WindowId;
use lift::event::{Command, Event as ReactorEvent, LayoutCommand, ReactorCommand, ScreenInfo};
use lift::geometry::{Point, Rect, Size, GRID};
use lift::ids::SpaceId;
use lift::mission_control::{
    initial_overlay_geometry, Event, MissionControlAction, MissionControlActor,
    MissionControlViewMode, OverlayStep,
};

fn screen(id: u32, x: i64, space: u64) -> ScreenInfo {
    ScreenInfo {
        id,
        frame: Rect {
            origin: Point { x: x * GRID, y: 0 },
            size: Size { width: 100 * GRID, height: 100 * GRID },
        },
        space: Some(SpaceId::new(space)),
        display_uuid: format!("display-{id}"),
        name: None,
    }
}

#[test]
fn showing_twice_closes_the_overlay() {
    let mut actor = MissionControlActor::new(true);
    assert_eq!(actor.handle_event(Event::ShowAll), OverlayStep::ShowAll);
    assert_eq!(actor.current_view_mode, Some(MissionControlViewMode::AllWorkspaces));
    assert_eq!(
        actor.handle_event(Event::RefreshCurrentWorkspace),
        OverlayStep::RefreshHighlight
    );
    assert_eq!(actor.handle_event(Event::ShowAll), OverlayStep::Dispose);
    assert!(!actor.mission_control_active);
    assert_eq!(actor.handle_event(Event::ShowCurrent), OverlayStep::ShowCurrent);
    assert_eq!(
        actor.handle_event(Event::RefreshCurrentWorkspace),
        OverlayStep::ShowCurrent
    );
    assert_eq!(actor.handle_event(Event::Dismiss), OverlayStep::Dispose);
    assert_eq!(actor.handle_event(Event::RefreshCurrentWorkspace), OverlayStep::Nothing);
}

#[test]
fn a_disabled_overlay_stays_closed() {
    let mut actor = MissionControlActor::new(false);
    assert_eq!(actor.handle_event(Event::ShowAll), OverlayStep::Nothing);
    assert!(!actor.mission_control_active);
}

#[test]
fn actions_close_the_overlay() {
    let mut actor = MissionControlActor::new(true);
    actor.handle_event(Event::ShowAll);
    assert!(matches!(
        actor.handle_overlay_action(MissionControlAction::SwitchToWorkspace(3)),
        Some(ReactorEvent::Command(Command::Layout(LayoutCommand::SwitchToWorkspace(3))))
    ));
    assert!(!actor.mission_control_active);
    let window_id = WindowId::new(1, 1);
    assert!(matches!(
        actor.handle_overlay_action(MissionControlAction::FocusWindow {
            window_id,
            window_server_id: None,
        }),
        Some(ReactorEvent::Command(Command::Reactor(ReactorCommand::FocusWindow {
            window_id: w,
            window_server_id: None,
        }))) if w == window_id
    ));
    assert!(actor.handle_overlay_action(MissionControlAction::Dismiss).is_none());
}

#[test]
fn the_overlay_appears_where_the_user_is() {
    let screens = vec![screen(1, 0, 1), screen(2, 100, 2)];
    let scales = vec![(2, 200)];
    let at = |x: i64| Some(Point { x: x * GRID, y: 10 * GRID });
    assert_eq!(
        initial_overlay_geometry(&screens, at(150), Some(SpaceId::new(1)), &scales),
        (screens[1].frame, 200)
    );
    assert_eq!(
        initial_overlay_geometry(&screens, at(900), Some(SpaceId::new(2)), &scales),
        (screens[1].frame, 200)
    );
    assert_eq!(
        initial_overlay_geometry(&screens, None, None, &scales),
        (screens[0].frame, 100)
    );
    let (frame, scale) = initial_overlay_geometry(&vec![], None, None, &scales);
    assert_eq!(frame.size, Size { width: 1280 * GRID, height: 800 * GRID });
    assert_eq!(scale, 100);
}
