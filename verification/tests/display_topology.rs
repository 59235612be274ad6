//! The reconfiguration of displays.

use lift::collections::IdSet;
use lift::ids::WindowServerId;
use lift::reactor::display_topology::{DisplayTopologyManager, TopologyState};

const ADD: u32 = 1 << 4;
const REMOVE: u32 = 1 << 5;

#[test]
fn churn_state_machine_round_trips() {
    let mut manager = DisplayTopologyManager::default();
    let mut pre_known = IdSet::new();
    pre_known.insert(WindowServerId::new(10));

    manager.begin_churn(1, ADD, pre_known.copy(), 0);
    assert!(matches!(manager.state(), TopologyState::Churning { .. }));

    manager.end_churn_to_awaiting(1, ADD, 5);
    assert!(matches!(
        manager.state(),
        TopologyState::AwaitingCommitSnapshot { .. }
    ));

    let taken = manager.take_awaiting_commit();
    assert!(taken.is_some());
    assert!(matches!(manager.state(), TopologyState::Stable));
}

#[test]
fn restore_awaiting_keeps_pending_commit() {
    let mut manager = DisplayTopologyManager::default();
    let mut pre_known = IdSet::new();
    pre_known.insert(WindowServerId::new(22));

    manager.restore_awaiting_commit(9, 0, REMOVE, pre_known);
    assert!(matches!(
        manager.state(),
        TopologyState::AwaitingCommitSnapshot { .. }
    ));
}

#[test]
fn a_commit_knows_the_windows_from_before_the_churn() {
    let mut manager = DisplayTopologyManager::default();
    assert!(manager.take_awaiting_commit().is_none());
    assert!(manager.current_churn().is_none());
    assert!(manager.active_reconfig_flags().is_none());
    let mut pre_known = IdSet::new();
    pre_known.insert(WindowServerId::new(10));
    manager.begin_churn(3, ADD, pre_known, 100);
    assert_eq!(manager.current_churn(), Some((3, 100, ADD)));
    assert_eq!(manager.active_reconfig_flags(), Some(ADD));
    manager.end_churn_to_awaiting(3, ADD | REMOVE, 200);
    let (epoch, _, flags, known) = manager.take_awaiting_commit().unwrap();
    assert_eq!(epoch, 3);
    assert_eq!(flags, ADD | REMOVE);
    assert!(known.contains(WindowServerId::new(10)));
}

#[test]
fn dropped_events_are_counted() {
    let mut manager = DisplayTopologyManager::default();
    manager.quarantine_appeared();
    manager.quarantine_destroyed();
    manager.quarantine_destroyed();
    manager.quarantine_resync();
    assert_eq!(manager.quarantine_stats.appeared_dropped, 1);
    assert_eq!(manager.quarantine_stats.destroyed_dropped, 2);
    assert_eq!(manager.quarantine_stats.resync_dropped, 1);
}
