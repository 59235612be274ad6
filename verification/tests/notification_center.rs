//! Screen refreshes and display reconfigurations.

use lift::event::ScreenInfo;
use lift::geometry::{Point, Rect, Size};
use lift::ids::SpaceId;
use lift::notification_center::{
    power_state_change, ChurnStep, Instance, RefreshStep, ScheduledRefresh, ScreenNotification,
    DISPLAY_CHURN_QUIET_NS, DISPLAY_STABILIZE_MAX_ATTEMPTS, DISPLAY_STABILIZE_RETRY_NS,
    REFRESH_DEFAULT_DELAY_NS, REFRESH_MAX_RETRIES, REFRESH_RETRY_DELAY_NS,
};

fn screen(uuid: &str, space: Option<u64>) -> ScreenInfo {
    ScreenInfo {
        id: 1,
        frame: Rect { origin: Point { x: 0, y: 0 }, size: Size { width: 10, height: 10 } },
        space: space.map(SpaceId::new),
        display_uuid: uuid.to_string(),
        name: None,
    }
}

#[test]
fn refreshes_are_scheduled_once_and_retried() {
    let mut center = Instance::new();
    let outcome = center.handle_screen_changed_event(ScreenNotification::ActiveDisplayChanged);
    assert_eq!(
        outcome.refresh,
        Some(ScheduledRefresh { delay_ns: REFRESH_DEFAULT_DELAY_NS, attempt: 0 })
    );
    assert_eq!(center.schedule_screen_refresh(), None);

    assert_eq!(
        center.process_screen_refresh(0, true, &None),
        RefreshStep::Retry(ScheduledRefresh { delay_ns: REFRESH_RETRY_DELAY_NS, attempt: 1 })
    );
    assert_eq!(
        center.process_screen_refresh(REFRESH_MAX_RETRIES, true, &None),
        RefreshStep::GiveUp
    );
    assert_eq!(
        center.process_screen_refresh(1, true, &Some(vec![screen("a", Some(1))])),
        RefreshStep::Send
    );
}

#[test]
fn spaces_are_not_repeated() {
    let mut center = Instance::new();
    let screens = Some(vec![screen("a", Some(1)), screen("b", Some(2))]);
    assert_eq!(
        center.send_current_space(&screens),
        Some(vec![Some(SpaceId::new(1)), Some(SpaceId::new(2))])
    );
    assert_eq!(center.send_current_space(&screens), None);
    assert_eq!(center.send_current_space(&None), None);
}

#[test]
fn a_reconfiguration_ends_once_displays_have_settled() {
    let mut center = Instance::new();
    let begun = center.handle_display_reconfig_event(1 << 4);
    assert!(begun.begin);
    assert_eq!(begun.delay_ns, DISPLAY_CHURN_QUIET_NS);
    let again = center.handle_display_reconfig_event(1 << 5);
    assert!(!again.begin);
    let screens = Some(vec![screen("a", Some(1))]);
    assert_eq!(
        center.attempt_finish_display_churn(begun.expected_epoch, 0, &screens, true),
        ChurnStep::Ignore
    );
    let epoch = again.expected_epoch;
    assert_eq!(center.schedule_screen_refresh(), None);
    assert_eq!(
        center.attempt_finish_display_churn(epoch, 0, &screens, true),
        ChurnStep::Retry { attempt: 1, delay_ns: DISPLAY_STABILIZE_RETRY_NS }
    );
    assert!(matches!(
        center.attempt_finish_display_churn(epoch, 1, &screens, true),
        ChurnStep::Finish(end) if end.refresh.is_some()
    ));
    assert!(!center.display_churn_active);
}

#[test]
fn a_reconfiguration_ends_after_the_last_attempt() {
    let mut center = Instance::new();
    let begun = center.handle_display_reconfig_event(1 << 4);
    assert!(matches!(
        center.attempt_finish_display_churn(
            begun.expected_epoch,
            DISPLAY_STABILIZE_MAX_ATTEMPTS,
            &None,
            false,
        ),
        ChurnStep::Finish(_)
    ));
    assert!(center.finish_display_churn(begun.expected_epoch).is_none());
}

#[test]
fn the_power_state_is_reported_when_it_changes() {
    assert_eq!(power_state_change(false, true), Some(true));
    assert_eq!(power_state_change(true, true), None);
}
