//! The parts of the reactor's state.

use vstd::prelude::*;

use crate::app::WindowId;
use crate::collections::{
    first_index, lemma_first, lemma_first_index, lemma_no_match, IdMap, IdSet,
};
use crate::event::{AppInfo, ScreenInfo, WindowServerInfo};
use crate::geometry::{Rect, Size};
use crate::ids::{pid_t, SpaceId, WindowServerId};
use crate::model::WorkspaceId;

verus! {

/// Where a window was sent a moment ago.
#[derive(Copy, Clone, Debug, PartialEq, Eq, Structural)]
pub struct RecentWorkspaceTarget {
    pub space: SpaceId,
    pub workspace_id: WorkspaceId,
    pub expires_at: u64,
}

/// Where the next new window is to be focused.
#[derive(Copy, Clone, Debug, PartialEq, Eq, Structural)]
pub struct FocusNextWindowTarget {
    pub space: SpaceId,
    pub workspace_id: WorkspaceId,
}

/// Where an application's auxiliary window was clicked.
#[derive(Copy, Clone, Debug, PartialEq, Eq, Structural)]
pub struct AuxiliaryWindowWorkspaceTarget {
    pub pid: pid_t,
    pub space: SpaceId,
    pub workspace_id: WorkspaceId,
    pub expires_at: u64,
}

pub struct AppState {
    pub info: AppInfo,
}

/// Manages application state and rules
pub struct AppManager {
    pub apps: IdMap<pid_t, AppState>,
}

impl AppManager {
    pub fn new() -> (r: Self)
        ensures
            r.apps@ == Map::<pid_t, AppState>::empty(),
    {
        AppManager { apps: IdMap::new() }
    }
}

/// A window that went to a fullscreen space of its own.
#[derive(Copy, Clone, Debug, PartialEq, Eq, Structural)]
pub struct FullscreenWindowTrack {
    pub pid: pid_t,
    pub window_id: Option<WindowId>,
    pub last_known_user_space: Option<SpaceId>,
}

pub struct FullscreenSpaceTrack {
    pub windows: Vec<FullscreenWindowTrack>,
}

/// Manages space and screen state
pub struct SpaceManager {
    pub screens: Vec<ScreenInfo>,
    pub fullscreen_by_space: IdMap<u64, FullscreenSpaceTrack>,
    pub has_seen_display_set: bool,
}

/// The spaces that screens show, in order.
pub open spec fn known_spaces(screens: Seq<ScreenInfo>) -> Seq<SpaceId>
    decreases screens.len(),
{
    if screens.len() == 0 {
        Seq::empty()
    } else {
        let rest = known_spaces(screens.drop_last());
        match screens.last().space {
            Some(space) => rest.push(space),
            None => rest,
        }
    }
}

/// The first screen that shows a space.
pub open spec fn screen_showing(screens: Seq<ScreenInfo>, space: SpaceId) -> Option<int> {
    first_index(screens, |s: ScreenInfo| s.space == Some(space))
}

impl SpaceManager {
    /// The position of the first screen that shows a space.
    pub fn screen_index(&self, space: SpaceId) -> (r: Option<usize>)
        ensures
            match r {
                Some(i) => i < self.screens@.len() && screen_showing(self.screens@, space) == Some(
                    i as int,
                ) && self.screens@[i as int].space == Some(space),
                None => screen_showing(self.screens@, space) is None,
            },
    {
        let ghost pred = |s: ScreenInfo| s.space == Some(space);
        let mut i: usize = 0;
        while i < self.screens.len()
            invariant
                i <= self.screens@.len(),
                pred == (|s: ScreenInfo| s.space == Some(space)),
                forall|j: int| 0 <= j < i ==> !pred(#[trigger] self.screens@[j]),
            decreases self.screens@.len() - i,
        {
            if let Some(s) = self.screens[i].space {
                if s == space {
                    proof {
                        lemma_first_index(self.screens@, pred, i as int);
                    }
                    return Some(i);
                }
            }
            i += 1;
        }
        proof {
            lemma_no_match(self.screens@, pred);
        }
        None
    }

    pub fn screen_by_space(&self, space: SpaceId) -> (r: Option<&ScreenInfo>)
        ensures
            match r {
                Some(screen) => screen_showing(self.screens@, space) matches Some(i)
                    && *screen == self.screens@[i] && screen.space == Some(space),
                None => screen_showing(self.screens@, space) is None,
            },
    {
        match self.screen_index(space) {
            Some(i) => Some(&self.screens[i]),
            None => None,
        }
    }

    pub fn iter_known_spaces(&self) -> (r: Vec<SpaceId>)
        ensures
            r@ == known_spaces(self.screens@),
    {
        let mut r: Vec<SpaceId> = Vec::new();
        let mut i: usize = 0;
        while i < self.screens.len()
            invariant
                i <= self.screens@.len(),
                r@ == known_spaces(self.screens@.take(i as int)),
            decreases self.screens@.len() - i,
        {
            assert(self.screens@.take(i + 1).drop_last() =~= self.screens@.take(i as int));
            if let Some(space) = self.screens[i].space {
                r.push(space);
            }
            i += 1;
        }
        assert(self.screens@.take(i as int) =~= self.screens@);
        r
    }

    pub fn first_known_space(&self) -> (r: Option<SpaceId>)
        ensures
            r == if known_spaces(self.screens@).len() > 0 {
                Some(known_spaces(self.screens@)[0])
            } else {
                None
            },
    {
        let spaces: Vec<SpaceId> = self.iter_known_spaces();
        if spaces.len() > 0 {
            Some(spaces[0])
        } else {
            None
        }
    }
}

/// A window being dragged. It has settled on a space once its frame is there.
#[derive(Copy, Clone, Debug, PartialEq, Eq, Structural)]
pub struct DragSession {
    pub window: WindowId,
    pub last_frame: Rect,
    pub origin_space: Option<SpaceId>,
    pub settled_space: Option<SpaceId>,
    pub layout_dirty: bool,
}

#[derive(Copy, Clone, Debug, PartialEq, Eq, Structural)]
pub enum DragState {
    Inactive,
    Active { session: DragSession },
}

/// Manages drag operations and window swapping
#[derive(Copy, Clone, Debug, PartialEq, Eq, Structural)]
pub struct DragManager {
    pub drag_state: DragState,
    pub skip_layout_for_window: Option<WindowId>,
}

/// Manages window notifications
pub struct NotificationManager {
    pub last_sls_notification_ids: Vec<u32>,
}

#[derive(Copy, Clone, Debug, PartialEq, Eq, Structural)]
pub enum MenuState {
    Closed,
    Open(pid_t),
}

/// Manages menu state and interactions
#[derive(Copy, Clone, Debug, PartialEq, Eq, Structural)]
pub struct MenuManager {
    pub menu_state: MenuState,
}

/// Tracks platform refreshes requested after Mission Control.
pub struct MissionControlManager {
    pub pending_mission_control_refresh: IdSet<pid_t>,
}

#[derive(Copy, Clone, Debug, PartialEq, Eq, Structural)]
pub enum WorkspaceSwitchState {
    Inactive,
    Active,
}

#[derive(Copy, Clone, Debug, PartialEq, Eq, Structural)]
pub enum WorkspaceSwitchOrigin {
    Manual,
    Auto,
}

/// How long an activation that the window manager caused is expected, in
/// milliseconds.
pub const QUIET_ACTIVATION_GRACE: u64 = 1000;

/// Manages workspace switching state
pub struct WorkspaceSwitchManager {
    pub workspace_switch_state: WorkspaceSwitchState,
    pub workspace_switch_generation: u64,
    pub active_workspace_switch: Option<u64>,
    pub pending_workspace_switch_origin: Option<WorkspaceSwitchOrigin>,
    pub pending_workspace_mouse_warp: Option<WindowId>,
    /// After the session came back, no activation switches workspaces until
    /// the user does something.
    pub suppress_auto_workspace_switch_until_input: bool,
    /// Global activation events do not carry the app actor's `Quiet` bit.
    /// Until when activations are expected. It outlasts any time that the
    /// clock can show.
    pub quiet_activation_deadlines: IdMap<pid_t, u128>,
}

/// The mathematical content of a [`WorkspaceSwitchManager`].
#[verifier::ext_equal]
pub struct SwitchModel {
    pub state: WorkspaceSwitchState,
    pub generation: u64,
    pub active: Option<u64>,
    pub origin: Option<WorkspaceSwitchOrigin>,
    pub pending_warp: Option<WindowId>,
    pub suppressed: bool,
    pub deadlines: Map<pid_t, u128>,
}

impl View for WorkspaceSwitchManager {
    type V = SwitchModel;

    open spec fn view(&self) -> SwitchModel {
        SwitchModel {
            state: self.workspace_switch_state,
            generation: self.workspace_switch_generation,
            active: self.active_workspace_switch,
            origin: self.pending_workspace_switch_origin,
            pending_warp: self.pending_workspace_mouse_warp,
            suppressed: self.suppress_auto_workspace_switch_until_input,
            deadlines: self.quiet_activation_deadlines@,
        }
    }
}

impl SwitchModel {
    pub open spec fn next_generation(self) -> u64 {
        if self.generation == u64::MAX {
            0
        } else {
            (self.generation + 1) as u64
        }
    }

    pub open spec fn started(self, origin: WorkspaceSwitchOrigin) -> SwitchModel {
        SwitchModel {
            generation: self.next_generation(),
            active: Some(self.next_generation()),
            state: WorkspaceSwitchState::Active,
            origin: Some(origin),
            ..self
        }
    }

    pub open spec fn inactive(self) -> SwitchModel {
        SwitchModel { state: WorkspaceSwitchState::Inactive, origin: None, ..self }
    }

    /// The deadlines that have not passed.
    pub open spec fn pending_deadlines(self, now: u64) -> Map<pid_t, u128> {
        self.deadlines.restrict(Set::new(|pid: pid_t| self.deadlines[pid] > now))
    }

    /// With an activation expected.
    pub open spec fn expecting(self, pid: pid_t, now: u64) -> SwitchModel {
        SwitchModel {
            deadlines: self.pending_deadlines(now).insert(
                pid,
                (now + QUIET_ACTIVATION_GRACE) as u128,
            ),
            ..self
        }
    }

    /// Whether an activation is one that was expected.
    pub open spec fn expects(self, pid: pid_t, now: u64) -> bool {
        self.deadlines.contains_key(pid) && self.deadlines[pid] > now
    }
}

impl WorkspaceSwitchManager {
    pub fn new() -> (r: Self)
        ensures
            r@ == (SwitchModel {
                state: WorkspaceSwitchState::Inactive,
                generation: 0,
                active: None,
                origin: None,
                pending_warp: None,
                suppressed: false,
                deadlines: Map::empty(),
            }),
    {
        WorkspaceSwitchManager {
            workspace_switch_state: WorkspaceSwitchState::Inactive,
            workspace_switch_generation: 0,
            active_workspace_switch: None,
            pending_workspace_switch_origin: None,
            pending_workspace_mouse_warp: None,
            suppress_auto_workspace_switch_until_input: false,
            quiet_activation_deadlines: IdMap::new(),
        }
    }

    pub fn start_workspace_switch(&mut self, origin: WorkspaceSwitchOrigin)
        ensures
            final(self)@ == old(self)@.started(origin),
            *final(self) == (WorkspaceSwitchManager {
                workspace_switch_generation: old(self)@.next_generation(),
                active_workspace_switch: Some(old(self)@.next_generation()),
                workspace_switch_state: WorkspaceSwitchState::Active,
                pending_workspace_switch_origin: Some(origin),
                ..*old(self)
            }),
    {
        self.workspace_switch_generation = self.workspace_switch_generation.wrapping_add(1);
        self.active_workspace_switch = Some(self.workspace_switch_generation);
        self.workspace_switch_state = WorkspaceSwitchState::Active;
        self.pending_workspace_switch_origin = Some(origin);
    }

    pub fn manual_switch_in_progress(&self) -> (r: bool)
        ensures
            r == (self.workspace_switch_state == WorkspaceSwitchState::Active
                && self.pending_workspace_switch_origin == Some(WorkspaceSwitchOrigin::Manual)),
    {
        self.workspace_switch_state == WorkspaceSwitchState::Active
            && match self.pending_workspace_switch_origin {
            Some(WorkspaceSwitchOrigin::Manual) => true,
            _ => false,
        }
    }

    pub fn mark_workspace_switch_inactive(&mut self)
        ensures
            final(self)@ == old(self)@.inactive(),
            *final(self) == (WorkspaceSwitchManager {
                workspace_switch_state: WorkspaceSwitchState::Inactive,
                pending_workspace_switch_origin: None,
                ..*old(self)
            }),
    {
        self.workspace_switch_state = WorkspaceSwitchState::Inactive;
        self.pending_workspace_switch_origin = None;
    }

    fn drop_passed_deadlines(&mut self, now: u64)
        ensures
            final(self)@ == (SwitchModel {
                deadlines: old(self)@.pending_deadlines(now),
                ..old(self)@
            }),
            *final(self) == (WorkspaceSwitchManager {
                quiet_activation_deadlines: final(self).quiet_activation_deadlines,
                ..*old(self)
            }),
    {
        let ghost before = self.quiet_activation_deadlines@;
        let ghost kept = self@.pending_deadlines(now);
        let pids: Vec<pid_t> = self.quiet_activation_deadlines.keys();
        let mut i: usize = 0;
        proof {
            assert forall|j: int| 0 <= j < pids@.len() implies before.contains_key(
                #[trigger] pids@[j],
            ) by {
                assert(pids@.contains(pids@[j]));
            }
        }
        while i < pids.len()
            invariant
                i <= pids@.len(),
                pids@.no_duplicates(),
                forall|p: pid_t| #[trigger] pids@.contains(p) <==> before.contains_key(p),
                before == old(self).quiet_activation_deadlines@,
                kept == old(self)@.pending_deadlines(now),
                *self == (WorkspaceSwitchManager {
                    quiet_activation_deadlines: self.quiet_activation_deadlines,
                    ..*old(self)
                }),
                forall|p: pid_t| #[trigger]
                    self.quiet_activation_deadlines@.contains_key(p) ==> before.contains_key(p)
                        && self.quiet_activation_deadlines@[p] == before[p],
                forall|j: int|
                    0 <= j < i ==> (self.quiet_activation_deadlines@.contains_key(
                        #[trigger] pids@[j],
                    ) <==> kept.contains_key(pids@[j])),
                forall|j: int|
                    i <= j < pids@.len() ==> self.quiet_activation_deadlines@.contains_key(
                        #[trigger] pids@[j],
                    ),
            decreases pids@.len() - i,
        {
            let pid: pid_t = pids[i];
            assert(pids@.contains(pid));
            let passed: bool = match self.quiet_activation_deadlines.get(pid) {
                Some(deadline) => *deadline <= now as u128,
                None => false,
            };
            if passed {
                let _ = self.quiet_activation_deadlines.remove(pid);
            }
            i += 1;
        }
        proof {
            assert forall|p: pid_t| #[trigger]
                self.quiet_activation_deadlines@.contains_key(p) <==> kept.contains_key(p) by {
                if before.contains_key(p) {
                    assert(pids@.contains(p));
                    let j = choose|j: int| 0 <= j < pids@.len() && pids@[j] == p;
                    assert(self.quiet_activation_deadlines@.contains_key(pids@[j])
                        <==> kept.contains_key(pids@[j]));
                }
            }
            assert(self.quiet_activation_deadlines@ =~= kept);
        }
    }

    pub fn expect_quiet_activation(&mut self, pid: pid_t, now: u64)
        ensures
            final(self)@ == old(self)@.expecting(pid, now),
            *final(self) == (WorkspaceSwitchManager {
                quiet_activation_deadlines: final(self).quiet_activation_deadlines,
                ..*old(self)
            }),
    {
        self.drop_passed_deadlines(now);
        let _ = self.quiet_activation_deadlines.insert(
            pid,
            now as u128 + QUIET_ACTIVATION_GRACE as u128,
        );
    }

    pub fn should_suppress_global_activation(&mut self, pid: pid_t, now: u64) -> (r: bool)
        ensures
            final(self)@ == (SwitchModel {
                deadlines: old(self)@.pending_deadlines(now),
                ..old(self)@
            }),
            *final(self) == (WorkspaceSwitchManager {
                quiet_activation_deadlines: final(self).quiet_activation_deadlines,
                ..*old(self)
            }),
            r == old(self)@.expects(pid, now),
    {
        self.drop_passed_deadlines(now);
        self.quiet_activation_deadlines.contains_key(pid)
    }
}

#[derive(Copy, Clone, Debug, PartialEq, Eq, Structural)]
pub enum StaleCleanupState {
    Enabled,
    Suppressed,
}

#[derive(Copy, Clone, Debug, PartialEq, Eq, Structural)]
pub enum RefocusState {
    Idle,
    Pending(SpaceId),
}

/// Manages refocus and cleanup state
pub struct RefocusManager {
    pub stale_cleanup_state: StaleCleanupState,
    pub refocus_state: RefocusState,
    pub focus_next_window_deadline: Option<u64>,
    pub focus_next_window_target: Option<FocusNextWindowTarget>,
    pub auxiliary_window_workspace_target: Option<AuxiliaryWindowWorkspaceTarget>,
    pub recent_workspace_targets: IdMap<WindowId, RecentWorkspaceTarget>,
}

/// Manages pending space changes
pub struct PendingSpaceChangeManager {
    pub pending_space_change: Option<Vec<Option<SpaceId>>>,
    pub topology_relayout_pending: bool,
    pub pending_removed_display_uuids: Vec<String>,
}

/// Which windows a rule is about.
#[derive(Copy, Clone, Debug, PartialEq, Eq, Structural)]
pub enum WindowFilter {
    Manageable,
    EffectivelyManageable,
}

/// What the reactor's rules read of a window.
#[derive(Copy, Clone, Debug, PartialEq, Eq, Structural)]
pub struct WindowState {
    pub sys_id: Option<WindowServerId>,
    pub frame_monotonic: Rect,
    pub is_minimized: bool,
    pub is_standard: bool,
    pub is_root: bool,
    pub is_manageable: bool,
    pub ignore_app_rule: bool,
}

impl WindowState {
    pub open spec fn passes(self, filter: WindowFilter) -> bool {
        self.is_manageable && (filter == WindowFilter::EffectivelyManageable
            ==> !self.ignore_app_rule)
    }

    pub fn matches_filter(&self, filter: WindowFilter) -> (r: bool)
        ensures
            r == self.passes(filter),
    {
        match filter {
            WindowFilter::Manageable => self.is_manageable,
            WindowFilter::EffectivelyManageable => self.is_manageable && !self.ignore_app_rule,
        }
    }
}

/// What else is known of a window.
pub struct WindowDetails {
    pub title: String,
    pub is_resizable: bool,
    pub min_size: Option<Size>,
    pub max_size: Option<Size>,
    pub bundle_id: Option<String>,
    pub path: Option<String>,
    pub ax_role: Option<String>,
    pub ax_subrole: Option<String>,
}

/// The windows that the reactor knows, by its own ids and by the window
/// server's.
pub struct WindowManager {
    pub windows: IdMap<WindowId, WindowState>,
    pub details: IdMap<WindowId, WindowDetails>,
    pub window_ids: IdMap<WindowServerId, WindowId>,
    pub window_server_info: IdMap<WindowServerId, WindowServerInfo>,
    pub visible_windows: IdSet<WindowServerId>,
    pub observed_window_server_ids: IdSet<WindowServerId>,
    /// When rules were last applied to a window.
    pub recent_wsids: IdMap<WindowServerId, u64>,
}

impl WindowManager {
    /// Every frame is in range, and every window is described.
    pub open spec fn wf(&self) -> bool {
        &&& forall|w: WindowId| #[trigger]
            self.windows@.contains_key(w) ==> self.windows@[w].frame_monotonic.in_range()
                && self.details@.contains_key(w)
        &&& forall|w: WindowServerId| #[trigger]
            self.window_server_info@.contains_key(w)
                ==> self.window_server_info@[w].frame.in_range()
    }

    pub fn new() -> (r: Self)
        ensures
            r.wf(),
            r.windows@ == Map::<WindowId, WindowState>::empty(),
            r.details@ == Map::<WindowId, WindowDetails>::empty(),
            r.window_ids@ == Map::<WindowServerId, WindowId>::empty(),
            r.window_server_info@ == Map::<WindowServerId, WindowServerInfo>::empty(),
            r.visible_windows@ == Set::<WindowServerId>::empty(),
            r.observed_window_server_ids@ == Set::<WindowServerId>::empty(),
            r.recent_wsids@ == Map::<WindowServerId, u64>::empty(),
    {
        WindowManager {
            windows: IdMap::new(),
            details: IdMap::new(),
            window_ids: IdMap::new(),
            window_server_info: IdMap::new(),
            visible_windows: IdSet::new(),
            observed_window_server_ids: IdSet::new(),
            recent_wsids: IdMap::new(),
        }
    }

    pub open spec fn window_spec(&self, wid: WindowId) -> Option<WindowState> {
        if self.windows@.contains_key(wid) {
            Some(self.windows@[wid])
        } else {
            None
        }
    }

    pub open spec fn tracked_spec(&self, wsid: WindowServerId) -> Option<WindowId> {
        if self.window_ids@.contains_key(wsid) {
            Some(self.window_ids@[wsid])
        } else {
            None
        }
    }

    pub fn window(&self, wid: WindowId) -> (r: Option<WindowState>)
        ensures
            r == self.window_spec(wid),
    {
        match self.windows.get(wid) {
            Some(w) => Some(*w),
            None => None,
        }
    }

    /// The window with a window server id.
    pub fn tracked_window_id(&self, wsid: WindowServerId) -> (r: Option<WindowId>)
        ensures
            r == self.tracked_spec(wsid),
    {
        match self.window_ids.get(wsid) {
            Some(w) => Some(*w),
            None => None,
        }
    }

    pub fn get_window_server_info(&self, wsid: WindowServerId) -> (r: Option<WindowServerInfo>)
        ensures
            r == if self.window_server_info@.contains_key(wsid) {
                Some(self.window_server_info@[wsid])
            } else {
                None
            },
    {
        match self.window_server_info.get(wsid) {
            Some(i) => Some(*i),
            None => None,
        }
    }

    pub fn tracked_window_count(&self) -> (r: usize)
        ensures
            r == self.windows@.dom().len(),
    {
        self.windows.len()
    }
}

/// After the window manager itself activated an application, the global
/// activation that follows is recognised until the grace has passed, and not
/// any longer.
pub proof fn law_expected_activation_is_recognised_in_time(
    m: SwitchModel,
    pid: pid_t,
    asked: u64,
    now: u64,
)
    requires
        asked <= now,
    ensures
        m.expecting(pid, asked).expects(pid, now) <==> now - asked < QUIET_ACTIVATION_GRACE,
{
}

/// Expecting one application's activation changes nothing for another: what
/// is still expected of it is expected for as long.
pub proof fn law_expectation_is_per_application(
    m: SwitchModel,
    pid: pid_t,
    other: pid_t,
    asked: u64,
    now: u64,
)
    requires
        pid != other,
        asked <= now,
    ensures
        m.expecting(pid, asked).expects(other, now) == m.expects(other, now),
        m.expects(other, asked) ==> m.expecting(pid, asked).deadlines.contains_key(other)
            && m.expecting(pid, asked).deadlines[other] == m.deadlines[other],
{
}

/// A switch that was started is in progress until it is marked inactive, and
/// its generation is kept until the layout has settled.
pub proof fn law_switch_starts_and_ends(m: SwitchModel, origin: WorkspaceSwitchOrigin)
    ensures
        m.started(origin).state == WorkspaceSwitchState::Active,
        m.started(origin).origin == Some(origin),
        m.started(origin).inactive().state == WorkspaceSwitchState::Inactive,
        m.started(origin).inactive().origin is None,
        m.started(origin).inactive().active == Some(m.next_generation()),
        m.next_generation() != m.generation,
{
}

/// The space that stands first among the known ones is that of the first
/// screen that shows one.
pub proof fn law_first_known_space_is_of_the_first_screen_that_shows_one(screens: Seq<ScreenInfo>)
    ensures
        known_spaces(screens).len() == 0 <==> (forall|i: int|
            0 <= i < screens.len() ==> (#[trigger] screens[i]).space is None),
        known_spaces(screens).len() > 0 ==> exists|k: int|
            0 <= k < screens.len() && (#[trigger] screens[k]).space == Some(
                known_spaces(screens)[0],
            ) && forall|j: int| 0 <= j < k ==> (#[trigger] screens[j]).space is None,
    decreases screens.len(),
{
    if screens.len() > 0 {
        let rest = screens.drop_last();
        law_first_known_space_is_of_the_first_screen_that_shows_one(rest);
        if known_spaces(rest).len() > 0 {
            let k = choose|k: int|
                0 <= k < rest.len() && (#[trigger] rest[k]).space == Some(known_spaces(rest)[0])
                    && forall|j: int| 0 <= j < k ==> (#[trigger] rest[j]).space is None;
            assert(screens[k] == rest[k]);
            assert forall|j: int| 0 <= j < k implies (#[trigger] screens[j]).space is None by {
                assert(rest[j] == screens[j]);
            }
            assert(known_spaces(screens)[0] == known_spaces(rest)[0]);
        } else {
            assert forall|j: int| 0 <= j < rest.len() implies (#[trigger] screens[j]).space
                is None by {
                assert(rest[j] == screens[j]);
            }
            assert(screens.last() == screens[screens.len() - 1]);
        }
    }
}

/// The known spaces are those that some screen shows.
pub proof fn law_known_spaces_are_the_shown_ones(screens: Seq<ScreenInfo>, space: SpaceId)
    ensures
        known_spaces(screens).contains(space) <==> exists|i: int|
            0 <= i < screens.len() && (#[trigger] screens[i]).space == Some(space),
    decreases screens.len(),
{
    if screens.len() > 0 {
        let rest = screens.drop_last();
        law_known_spaces_are_the_shown_ones(rest, space);
        if known_spaces(rest).contains(space) {
            let k = known_spaces(rest).index_of(space);
            assert(known_spaces(screens)[k] == space);
            let i = choose|i: int| 0 <= i < rest.len() && (#[trigger] rest[i]).space == Some(space);
            assert(screens[i].space == Some(space));
        }
        if screens.last().space == Some(space) {
            assert(screens[screens.len() - 1].space == Some(space));
            assert(known_spaces(screens).last() == space);
        }
        if known_spaces(screens).contains(space) && !known_spaces(rest).contains(space) {
            let k = known_spaces(screens).index_of(space);
            assert(k == known_spaces(rest).len()) by {
                if k < known_spaces(rest).len() {
                    assert(known_spaces(rest)[k] == space);
                }
            }
        }
        if exists|i: int| 0 <= i < screens.len() && (#[trigger] screens[i]).space == Some(space) {
            let i = choose|i: int|
                0 <= i < screens.len() && (#[trigger] screens[i]).space == Some(space);
            if i < rest.len() {
                assert(rest[i].space == Some(space));
            }
        }
    }
}

/// The screen of a space is the first that shows it.
pub proof fn law_screen_of_a_space_is_the_first_that_shows_it(
    screens: Seq<ScreenInfo>,
    space: SpaceId,
    i: int,
)
    ensures
        screen_showing(screens, space) == Some(i) <==> 0 <= i < screens.len() && screens[i].space
            == Some(space) && forall|j: int|
            0 <= j < i ==> (#[trigger] screens[j]).space != Some(space),
        screen_showing(screens, space) is None <==> forall|j: int|
            0 <= j < screens.len() ==> (#[trigger] screens[j]).space != Some(space),
{
    let pred = |s: ScreenInfo| s.space == Some(space);
    lemma_first(screens, pred);
    if 0 <= i < screens.len() && screens[i].space == Some(space) && (forall|j: int|
        0 <= j < i ==> (#[trigger] screens[j]).space != Some(space)) {
        lemma_first_index(screens, pred, i);
    }
}

/// An activation of the window manager's own is expected for a second, and
/// only of the application that it was asked of.
pub proof fn law_expected_activation_lasts_a_second(
    m: SwitchModel,
    pid: pid_t,
    asked: u64,
    now: u64,
)
    requires
        asked <= now,
    ensures
        m.expecting(pid, asked).expects(pid, now) <==> now < asked + 1000,
        !m.deadlines.contains_key(pid) ==> !m.expects(pid, now),
{
}

/// A window passes if it can be managed and, where that is asked too, no rule
/// takes it out.
pub proof fn law_window_filters(w: WindowState)
    ensures
        w.passes(WindowFilter::Manageable) <==> w.is_manageable,
        w.passes(WindowFilter::EffectivelyManageable) <==> w.is_manageable && !w.ignore_app_rule,
{
}

} // verus!
