//! The Reactor's job is to maintain coherence between the system and model state.
//!
//! It takes events from the rest of the system and builds a coherent picture of
//! what is going on. It shares this with the layout actor, and reacts to layout
//! changes by sending requests out to the other actors in the system.
//!
//! A step of the reactor ends where the workspace model or the system has to
//! answer: it returns the work that is left as a list of tasks, each to be
//! done before the next.

pub mod activation;
pub mod animation;
pub mod animation_manager;
pub mod auxiliary;
pub mod classify;
pub mod dispatch;
pub mod diagnostics;
pub mod display_topology;
pub mod drag;
pub mod events;
pub mod focus_next;
pub mod fullscreen;
pub mod instant_layout;
pub mod layout;
pub mod layout_response;
pub mod main_window;
pub mod managers;
pub mod menu;
pub mod observation;
pub mod publish;
pub mod query;
pub mod registry;
pub mod respond;
pub mod rules;
pub mod screens;
pub mod server_info;
pub mod space_changes;
pub mod space_rules;
pub mod spaces;
pub mod surroundings;
pub mod task;
pub mod topology_commit;
pub mod transactions;
pub mod transition;

use vstd::prelude::*;

use crate::app::WindowId;
use crate::collections::{IdMap, IdSet};
use crate::config::Config;
use crate::event::{ScreenInfo, WindowServerInfo};
use crate::ids::{pid_t, SpaceId, WindowServerId};
use crate::model::CoreSnapshot;
use crate::reactor::display_topology::{
    nothing_dropped, DisplayTopologyManager, ManagerModel, TopologyModel,
};
use crate::reactor::main_window::{MainWindowTracker, TrackerModel};
use crate::reactor::managers::{
    AppManager, AppState, DragManager, DragState, FullscreenSpaceTrack, MenuManager, MenuState,
    MissionControlManager, NotificationManager, PendingSpaceChangeManager, RecentWorkspaceTarget,
    RefocusManager, RefocusState, SpaceManager, StaleCleanupState, SwitchModel, WindowDetails,
    WindowManager, WindowState, WorkspaceSwitchManager, WorkspaceSwitchState,
};
use crate::reactor::screens::screens_in_range;
use crate::reactor::transactions::{TransactionManager, WriteRecord};

verus! {

/// What the event in hand has led to so far.
#[derive(Copy, Clone, Debug, PartialEq, Eq, Structural)]
pub struct Turn {
    pub raised_window: Option<WindowId>,
    pub suppress_layout_animation: bool,
    pub window_was_destroyed: bool,
    pub update_notifications: bool,
    pub layout_changed: bool,
}

pub struct Reactor {
    pub config: Config,
    pub one_space: bool,
    pub app_manager: AppManager,
    pub window_manager: WindowManager,
    pub space_manager: SpaceManager,
    pub main_window_tracker: MainWindowTracker,
    pub drag_manager: DragManager,
    pub workspace_switch_manager: WorkspaceSwitchManager,
    pub notification_manager: NotificationManager,
    pub transaction_manager: TransactionManager,
    pub menu_manager: MenuManager,
    pub mission_control_manager: MissionControlManager,
    pub refocus_manager: RefocusManager,
    pub pending_space_change_manager: PendingSpaceChangeManager,
    pub active_spaces: IdSet<SpaceId>,
    pub login_window_active: bool,
    pub display_topology_manager: DisplayTopologyManager,
    pub above_window: Option<WindowServerId>,
    /// Whether the window manager's controller can be reached.
    pub wm_registered: bool,
    /// The workspace model's latest state.
    pub core: CoreSnapshot,
    pub turn: Turn,
}

pub open spec fn no_turn() -> Turn {
    Turn {
        raised_window: None,
        suppress_layout_animation: false,
        window_was_destroyed: false,
        update_notifications: false,
        layout_changed: false,
    }
}

impl Reactor {
    /// Every frame that the reactor holds is in range.
    pub open spec fn wf(&self) -> bool {
        &&& self.window_manager.wf()
        &&& self.transaction_manager.wf()
        &&& screens_in_range(self.space_manager.screens@)
        &&& self.drag_manager.drag_state matches DragState::Active { session }
            ==> session.last_frame.in_range()
        &&& self.core.drag.origin_frame matches Some(f) ==> f.in_range()
    }

    pub fn new(config: Config, one_space: bool) -> (r: Reactor)
        ensures
            r.wf(),
            r.config == config,
            r.one_space == one_space,
            r.app_manager.apps@ == Map::<pid_t, AppState>::empty(),
            r.window_manager.windows@ == Map::<WindowId, WindowState>::empty(),
            r.window_manager.details@ == Map::<WindowId, WindowDetails>::empty(),
            r.window_manager.window_server_info@ == Map::<
                WindowServerId,
                WindowServerInfo,
            >::empty(),
            r.window_manager.recent_wsids@ == Map::<WindowServerId, u64>::empty(),
            r.window_manager.window_ids@ == Map::<WindowServerId, WindowId>::empty(),
            r.window_manager.visible_windows@ == Set::<WindowServerId>::empty(),
            r.window_manager.observed_window_server_ids@ == Set::<WindowServerId>::empty(),
            r.space_manager.screens@ == Seq::<ScreenInfo>::empty(),
            r.space_manager.fullscreen_by_space@ == Map::<u64, FullscreenSpaceTrack>::empty(),
            !r.space_manager.has_seen_display_set,
            r.main_window_tracker@ == (TrackerModel {
                apps: Map::empty(),
                global_frontmost: None,
                last_clicked_window: None,
                requested_focus: None,
            }),
            r.drag_manager == (DragManager {
                drag_state: DragState::Inactive,
                skip_layout_for_window: None,
            }),
            r.workspace_switch_manager@ == (SwitchModel {
                state: WorkspaceSwitchState::Inactive,
                generation: 0,
                active: None,
                origin: None,
                pending_warp: None,
                suppressed: false,
                deadlines: Map::empty(),
            }),
            r.notification_manager.last_sls_notification_ids@ == Seq::<u32>::empty(),
            r.transaction_manager.records@ == Map::<WindowServerId, WriteRecord>::empty(),
            r.menu_manager == (MenuManager { menu_state: MenuState::Closed }),
            r.mission_control_manager.pending_mission_control_refresh@ == Set::<pid_t>::empty(),
            r.refocus_manager.stale_cleanup_state == StaleCleanupState::Enabled,
            r.refocus_manager.refocus_state == RefocusState::Idle,
            r.refocus_manager.focus_next_window_deadline is None,
            r.refocus_manager.focus_next_window_target is None,
            r.refocus_manager.auxiliary_window_workspace_target is None,
            r.refocus_manager.recent_workspace_targets@ == Map::<
                WindowId,
                RecentWorkspaceTarget,
            >::empty(),
            r.pending_space_change_manager.pending_space_change is None,
            !r.pending_space_change_manager.topology_relayout_pending,
            r.pending_space_change_manager.pending_removed_display_uuids@ == Seq::<String>::empty(),
            r.active_spaces@ == Set::<SpaceId>::empty(),
            !r.login_window_active,
            r.display_topology_manager@ == (ManagerModel {
                state: TopologyModel::Stable,
                stats: nothing_dropped(),
                known: Set::empty(),
            }),
            r.above_window is None,
            !r.wm_registered,
            r.core.revision == 0 && r.core.applications@.len() == 0,
            r.core.drag.target is None && r.core.drag.origin_frame is None,
            r.core.windows@.len() == 0 && r.core.workspaces@.len() == 0 && r.core.displays@.len()
                == 0,
            r.core.focused_window is None && r.core.drag.window is None
                && !r.core.mission_control_active,
            r.turn == no_turn(),
    {
        Reactor {
            config,
            one_space,
            app_manager: AppManager::new(),
            window_manager: WindowManager::new(),
            space_manager: SpaceManager {
                screens: Vec::new(),
                fullscreen_by_space: IdMap::new(),
                has_seen_display_set: false,
            },
            main_window_tracker: MainWindowTracker::default(),
            drag_manager: DragManager {
                drag_state: DragState::Inactive,
                skip_layout_for_window: None,
            },
            workspace_switch_manager: WorkspaceSwitchManager::new(),
            notification_manager: NotificationManager { last_sls_notification_ids: Vec::new() },
            transaction_manager: TransactionManager::new(),
            menu_manager: MenuManager { menu_state: MenuState::Closed },
            mission_control_manager: MissionControlManager {
                pending_mission_control_refresh: IdSet::new(),
            },
            refocus_manager: RefocusManager {
                stale_cleanup_state: StaleCleanupState::Enabled,
                refocus_state: RefocusState::Idle,
                focus_next_window_deadline: None,
                focus_next_window_target: None,
                auxiliary_window_workspace_target: None,
                recent_workspace_targets: IdMap::new(),
            },
            pending_space_change_manager: PendingSpaceChangeManager {
                pending_space_change: None,
                topology_relayout_pending: false,
                pending_removed_display_uuids: Vec::new(),
            },
            active_spaces: IdSet::new(),
            login_window_active: false,
            display_topology_manager: DisplayTopologyManager::default(),
            above_window: None,
            wm_registered: false,
            core: CoreSnapshot::default(),
            turn: Turn {
                raised_window: None,
                suppress_layout_animation: false,
                window_was_destroyed: false,
                update_notifications: false,
                layout_changed: false,
            },
        }
    }
}

} // verus!
