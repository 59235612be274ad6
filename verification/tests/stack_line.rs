//! The stack-line indicators.

use lift::app::WindowId;
use lift::collections::IdMap;
use lift::event::{Command, Event as ReactorEvent, ReactorCommand};
use lift::geometry::{Point, Rect, Size, GRID};
use lift::ids::SpaceId;
use lift::model::{
    Axis, CoreDisplay, CoreGroup, CoreSnapshot, CoreWindow, CoreWorkspace, GroupId, LayoutKind,
    WorkspaceId, WorkspaceNumber,
};
use lift::stack_line::{
    project_display_groups, Event, GroupInfo, GroupKind, IndicatorHit, StackLine,
};

fn rect(x: f64, y: f64, width: f64, height: f64) -> Rect {
    let grid = GRID as f64;
    Rect {
        origin: Point { x: (x * grid) as i64, y: (y * grid) as i64 },
        size: Size { width: (width * grid) as i64, height: (height * grid) as i64 },
    }
}

fn points(v: f64) -> i64 {
    (v * GRID as f64) as i64
}

fn group(id: u64, windows: Vec<WindowId>, frame: Rect) -> GroupInfo {
    GroupInfo {
        group_id: GroupId(id),
        space_id: SpaceId::new(1),
        container_kind: LayoutKind::HorizontalStack,
        frame,
        total_count: windows.len(),
        selected_index: 0,
        window_ids: windows,
    }
}

fn stacked_snapshot() -> CoreSnapshot {
    let first = WindowId::new(12, 1);
    let second = WindowId::new(12, 2);
    let frame = rect(10.0, 20.0, 600.0, 400.0);
    let mut layout_frames = IdMap::new();
    layout_frames.insert(second, frame);
    CoreSnapshot {
        displays: vec![CoreDisplay {
            id: "main".to_string(),
            frame,
            space: Some(SpaceId::new(9)),
            is_active_context: true,
            active_workspace: Some(WorkspaceId(7)),
            last_workspace: None,
        }],
        workspaces: vec![CoreWorkspace {
            id: WorkspaceId(7),
            number: Some(WorkspaceNumber::try_from(1).unwrap()),
            name: "Main".to_string(),
            display: "main".to_string(),
            groups: vec![CoreGroup {
                id: GroupId(55),
                axis: Axis::Vertical,
                windows: vec![first, second],
                selected: 1,
            }],
            floating_windows: Vec::new(),
            last_tiled_window: None,
            last_floating_window: None,
            layout_frames,
        }],
        windows: vec![CoreWindow {
            id: second,
            workspace: Some(WorkspaceId(7)),
            frame,
            floating: false,
            minimized: false,
            fullscreen: true,
        }],
        ..CoreSnapshot::default()
    }
}

#[test]
fn test_group_info_fields() {
    assert_eq!(LayoutKind::VerticalStack.is_group(), true);
    assert_eq!(LayoutKind::HorizontalStack.is_group(), true);
    assert_eq!(LayoutKind::Horizontal.is_group(), false);
}

#[test]
fn snapshot_groups_project_stable_ids_orientation_and_preview_frames() {
    let snapshot = stacked_snapshot();
    let (space, groups, fullscreen) =
        project_display_groups(&snapshot, &snapshot.displays[0]).unwrap();

    assert_eq!(space, SpaceId::new(9));
    assert!(fullscreen);
    assert_eq!(groups.len(), 1);
    assert_eq!(groups[0].group_id, GroupId(55));
    assert_eq!(groups[0].container_kind, LayoutKind::VerticalStack);
    assert_eq!(groups[0].selected_index, 1);
    assert_eq!(groups[0].frame.size.width, points(600.0));
}

#[test]
fn test_calculate_indicator_frame() {
    let group_frame = rect(100.0, 200.0, 400.0, 300.0);
    let thickness = 6.0;
    let spacing = 4.0;

    let frame_horizontal = StackLine::calculate_indicator_frame(
        group_frame,
        GroupKind::Horizontal,
        points(thickness),
        points(spacing),
    );
    assert_eq!(frame_horizontal.origin.x, points(100.0));
    assert_eq!(frame_horizontal.origin.y, points(200.0 - spacing));
    assert_eq!(frame_horizontal.size.width, points(400.0));
    assert_eq!(frame_horizontal.size.height, points(thickness));

    let frame_vertical = StackLine::calculate_indicator_frame(
        group_frame,
        GroupKind::Vertical,
        points(thickness),
        points(spacing),
    );
    assert_eq!(frame_vertical.origin.x, points(100.0 - spacing));
    assert_eq!(frame_vertical.origin.y, points(200.0));
    assert_eq!(frame_vertical.size.width, points(thickness));
    assert_eq!(frame_vertical.size.height, points(300.0));
}

#[test]
fn a_small_stack_gets_an_indicator_of_twice_its_thickness() {
    let frame = StackLine::calculate_indicator_frame(
        rect(0.0, 0.0, 3.0, 3.0),
        GroupKind::Horizontal,
        points(6.0),
        0,
    );
    assert_eq!(frame, rect(0.0, 0.0, 12.0, 6.0));
}

#[test]
fn unchanged_stacks_are_not_redrawn() {
    let mut line = StackLine::new(true);
    let space = SpaceId::new(1);
    let groups = vec![group(
        1,
        vec![WindowId::new(1, 1), WindowId::new(1, 2)],
        rect(0.0, 0.0, 10.0, 10.0),
    )];
    let first = line.handle_groups_updated(&vec![space], space, &groups);
    assert!(first.changed);
    assert!(first.cleared.is_empty());
    for g in &groups {
        assert_eq!(line.show_group(g), Some((GroupKind::Horizontal, false)));
        line.indicator_shown(g);
        assert_eq!(line.show_group(g), Some((GroupKind::Horizontal, true)));
    }
    assert!(!line.handle_groups_updated(&vec![space], space, &groups).changed);

    // A quarter of a point does not show in half points.
    let near = vec![group(
        1,
        vec![WindowId::new(1, 1), WindowId::new(1, 2)],
        rect(0.125, 0.0, 10.0, 10.0),
    )];
    assert!(!line.handle_groups_updated(&vec![space], space, &near).changed);
    let gone = line.handle_groups_updated(&vec![space], space, &Vec::new());
    assert!(gone.changed);
    assert_eq!(gone.cleared, vec![GroupId(1)]);
}

#[test]
fn indicators_of_spaces_out_of_sight_are_cleared() {
    let mut line = StackLine::new(true);
    let one = SpaceId::new(1);
    let two = SpaceId::new(2);
    let groups = vec![group(
        1,
        vec![WindowId::new(1, 1), WindowId::new(1, 2)],
        rect(0.0, 0.0, 10.0, 10.0),
    )];
    line.handle_groups_updated(&vec![one], one, &groups);
    line.indicator_shown(&groups[0]);
    let update = line.handle_groups_updated(&vec![two], two, &Vec::new());
    assert_eq!(update.cleared, vec![GroupId(1)]);
    assert!(line.indicators.is_empty());
}

#[test]
fn clicks_focus_the_window_of_the_segment() {
    let mut line = StackLine::new(true);
    let wid = WindowId::new(1, 2);
    let g = group(3, vec![WindowId::new(1, 1), wid], rect(0.0, 0.0, 10.0, 10.0));
    line.indicator_shown(&g);
    let miss = IndicatorHit { group_id: GroupId(3), is_visible: true, is_hit: false, segment: None };
    let hit =
        IndicatorHit { group_id: GroupId(3), is_visible: true, is_hit: true, segment: Some(1) };
    let hidden = IndicatorHit { is_visible: false, ..hit };
    assert!(line.handle_mouse_down(&vec![miss, hidden]).is_none());
    assert!(matches!(
        line.handle_mouse_down(&vec![miss, hidden, hit]),
        Some(ReactorEvent::Command(Command::Reactor(ReactorCommand::FocusWindow {
            window_id,
            window_server_id: None,
        }))) if window_id == wid
    ));
    assert!(line.handle_indicator_clicked(GroupId(3), 2).is_none());
    assert!(line.handle_indicator_clicked(GroupId(4), 0).is_none());
    line.handle_config_updated(false);
    assert!(line.handle_mouse_down(&vec![hit]).is_none());
}

#[test]
fn snapshots_list_stacks_or_clear_everything() {
    let mut line = StackLine::new(true);
    let snapshot = stacked_snapshot();
    let update = line.handle_snapshot_updated(&snapshot);
    assert_eq!(update.active_space_ids, vec![SpaceId::new(9)]);
    assert_eq!(update.spaces.len(), 1);
    assert_eq!(update.spaces[0].groups[0].group_id, GroupId(55));
    assert!(update.spaces[0].has_fullscreen);

    line.indicator_shown(&update.spaces[0].groups[0]);
    let update = line.handle_snapshot_updated(&CoreSnapshot::default());
    assert_eq!(update.cleared, vec![GroupId(55)]);
    assert!(line.indicators.is_empty());
}

#[test]
fn a_disabled_stack_line_passes_stacks_over() {
    let line = StackLine::new(false);
    let groups = Event::GroupsUpdated {
        active_space_ids: vec![],
        space_id: SpaceId::new(1),
        groups: vec![],
        active_workspace_for_space_has_fullscreen: false,
    };
    assert!(!line.heeds(&groups));
    assert!(line.heeds(&Event::ScreenParametersChanged));
    assert!(StackLine::new(true).heeds(&groups));
}

#[test]
fn the_cursor_changes_over_indicators_only() {
    let mut line = StackLine::new(true);
    assert_eq!(line.handle_mouse_moved(true), Some(true));
    assert_eq!(line.handle_mouse_moved(true), None);
    assert_eq!(line.handle_mouse_moved(false), Some(false));
    line.handle_config_updated(false);
    assert_eq!(line.handle_mouse_moved(true), None);
}
