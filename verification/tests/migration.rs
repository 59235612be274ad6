//! Which display takes over the workspaces of one that is gone.

use lift::collections::IdSet;
use lift::event::ScreenInfo;
use lift::geometry::{Point, Rect, Size, GRID};
use lift::ids::SpaceId;
use lift::reactor::events::migration::select_display_migration_receiver;

fn test_screens(display_uuids: &[&str]) -> Vec<ScreenInfo> {
    display_uuids
        .iter()
        .enumerate()
        .map(|(index, display_uuid)| ScreenInfo {
            id: index as u32,
            frame: Rect {
                origin: Point { x: index as i64 * 100 * GRID, y: 0 },
                size: Size { width: 100 * GRID, height: 100 * GRID },
            },
            display_uuid: display_uuid.to_string(),
            name: Some(format!("Display {index}")),
            space: Some(SpaceId::new(index as u64 + 1)),
        })
        .collect()
}

fn user_spaces(spaces: &[u64]) -> IdSet<SpaceId> {
    let mut set = IdSet::new();
    for s in spaces {
        set.insert(SpaceId::new(*s));
    }
    set
}

#[test]
fn configured_receiver_priority_overrides_main_display() {
    let screens = test_screens(&["display-main", "display-b", "display-a"]);
    let receiver = select_display_migration_receiver(
        &screens,
        &vec!["offline".to_string(), "display-a".to_string(), "display-b".to_string()],
        &user_spaces(&[1, 2, 3]),
    )
    .unwrap();
    assert_eq!(receiver.display_uuid, "display-a");
}

#[test]
fn receiver_skips_non_user_spaces() {
    let screens = test_screens(&["display-main", "display-z", "display-a"]);
    let users = user_spaces(&[2, 3]);

    assert_eq!(
        select_display_migration_receiver(
            &screens,
            &vec!["display-main".to_string(), "display-z".to_string()],
            &users,
        )
        .unwrap()
        .display_uuid,
        "display-z"
    );
    assert_eq!(
        select_display_migration_receiver(&screens, &vec![], &users).unwrap().display_uuid,
        "display-a"
    );
}

#[test]
fn receiver_defaults_to_main_then_uuid_order() {
    let mut screens = test_screens(&["display-main", "display-z", "display-a"]);
    let users = user_spaces(&[1, 2, 3]);
    let receiver = select_display_migration_receiver(&screens, &vec![], &users).unwrap();
    assert_eq!(receiver.display_uuid, "display-main");
    assert_eq!(receiver.space, SpaceId::new(1));

    screens[0].space = None;
    assert_eq!(
        select_display_migration_receiver(&screens, &vec![], &users).unwrap().display_uuid,
        "display-a"
    );
}

#[test]
fn without_user_spaces_nobody_takes_over() {
    let screens = test_screens(&["display-main", "display-z"]);
    assert!(select_display_migration_receiver(&screens, &vec![], &user_spaces(&[])).is_none());
}
