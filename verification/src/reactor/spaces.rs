//! Which space a window, the cursor or a command belongs to.

use vstd::prelude::*;

use crate::app::WindowId;
use crate::event::{Direction, DisplaySelector};
use crate::geometry::{distance_sq_to, Point, Rect, LIMIT};
use crate::ids::{pid_t, SpaceId, WindowServerId};
use crate::model::{WorkspaceId, WorkspaceNumber};
use crate::reactor::managers::{
    known_spaces, law_first_known_space_is_of_the_first_screen_that_shows_one,
    law_screen_of_a_space_is_the_first_that_shows_it, screen_showing, FocusNextWindowTarget, RecentWorkspaceTarget, WindowFilter,
    WindowState,
};
use crate::reactor::query::{
    find_workspace_by_number, law_workspace_by_number, workspace_by_number,
};
use crate::reactor::screens::{
    best_space_for_frame, is_physical_order, law_no_space_without_screens,
    law_physical_order_is_the_order, law_space_at_a_point, next_towards, physical_order, screen_for_direction_from_point,
    screen_for_point, screen_for_uuid, screen_holding, screen_named, screens_in_physical_order,
    space_at, space_for_point, space_of_frame,
};
use crate::reactor::surroundings::Surroundings;
use crate::reactor::Reactor;

verus! {

/// How long a window sent to a workspace is held to belong there, in
/// milliseconds.
pub const RECENT_WORKSPACE_TARGET_TIMEOUT: u64 = 30000;

/// How long the next new window is waited for.
pub const FOCUS_NEXT_WINDOW_TIMEOUT: u64 = 8000;

/// The workspace number of a slot: the slots run along the number row, where
/// zero comes last.
pub open spec fn slot_number(slot: usize) -> Option<WorkspaceNumber> {
    if slot < 9 {
        Some(WorkspaceNumber((slot + 1) as u8))
    } else if slot == 9 {
        Some(WorkspaceNumber(0))
    } else {
        None
    }
}

pub fn number_for_slot(slot: usize) -> (r: Option<WorkspaceNumber>)
    ensures
        r == slot_number(slot),
{
    if slot < 9 {
        Some(WorkspaceNumber((slot + 1) as u8))
    } else if slot == 9 {
        Some(WorkspaceNumber(0))
    } else {
        None
    }
}

/// Different slots of the number row are different workspaces, and every
/// workspace number has a slot.
pub proof fn law_slots_and_numbers_correspond(a: usize, b: usize, n: WorkspaceNumber)
    ensures
        slot_number(a) is Some && slot_number(a) == slot_number(b) ==> a == b,
        n.0 <= 9 ==> exists|slot: usize| slot < 10 && slot_number(slot) == Some(n),
{
    if n.0 == 0 {
        assert(slot_number(9) == Some(n));
    } else if n.0 <= 9 {
        let slot = (n.0 - 1) as usize;
        assert(slot_number(slot) == Some(n));
    }
}

impl Reactor {
    pub open spec fn is_active(&self, space: SpaceId) -> bool {
        self.active_spaces@.contains(space)
    }

    pub fn is_space_active(&self, space: SpaceId) -> (r: bool)
        ensures
            r == self.is_active(space),
    {
        self.active_spaces.contains(space)
    }

    /// The space of a window by what the window server says, or else by its
    /// frame; none for a window on a space that is not the user's.
    pub open spec fn best_space(
        &self,
        frame: Rect,
        wsid: Option<WindowServerId>,
        sur: Surroundings,
    ) -> Option<SpaceId> {
        let by_frame = space_of_frame(self.space_manager.screens@, frame);
        match wsid {
            Some(w) => match sur.space_of(w) {
                Some(space) => if !sur.user_spaces@.contains(space) {
                    None
                } else if screen_showing(self.space_manager.screens@, space) is Some {
                    Some(space)
                } else {
                    by_frame
                },
                None => by_frame,
            },
            None => by_frame,
        }
    }

    pub fn best_space_for_window(
        &self,
        frame: &Rect,
        window_server_id: Option<WindowServerId>,
        sur: &Surroundings,
    ) -> (r: Option<SpaceId>)
        requires
            self.wf(),
            frame.in_range(),
        ensures
            r == self.best_space(*frame, window_server_id, *sur),
    {
        if let Some(wsid) = window_server_id {
            if let Some(space) = sur.window_space(wsid) {
                if !sur.space_is_user(space) {
                    return None;
                }
                if self.space_manager.screen_by_space(space).is_some() {
                    return Some(space);
                }
            }
        }
        best_space_for_frame(&self.space_manager.screens, frame)
    }

    pub fn best_space_for_window_state(&self, window: &WindowState, sur: &Surroundings) -> (r:
        Option<SpaceId>)
        requires
            self.wf(),
            window.frame_monotonic.in_range(),
        ensures
            r == self.best_space(window.frame_monotonic, window.sys_id, *sur),
    {
        self.best_space_for_window(&window.frame_monotonic, window.sys_id, sur)
    }

    /// The best space of a tracked window.
    pub open spec fn best_space_of(&self, wid: WindowId, sur: Surroundings) -> Option<SpaceId> {
        match self.window_manager.window_spec(wid) {
            Some(w) => self.best_space(w.frame_monotonic, w.sys_id, sur),
            None => None,
        }
    }

    pub fn best_space_for_window_id(&self, wid: WindowId, sur: &Surroundings) -> (r: Option<
        SpaceId,
    >)
        requires
            self.wf(),
        ensures
            r == self.best_space_of(wid, *sur),
    {
        match self.window_manager.window(wid) {
            Some(w) => self.best_space_for_window_state(&w, sur),
            None => None,
        }
    }

    /// Whether a tracked window is one that the layout may hold.
    pub open spec fn layout_may_hold(&self, wid: WindowId) -> bool {
        self.window_manager.window_spec(wid) matches Some(w) && w.passes(
            WindowFilter::EffectivelyManageable,
        )
    }

    pub fn window_is_standard(&self, wid: WindowId) -> (r: bool)
        ensures
            r == self.layout_may_hold(wid),
    {
        match self.window_manager.window(wid) {
            Some(w) => w.matches_filter(WindowFilter::EffectivelyManageable),
            None => false,
        }
    }

    /// The space of the hidden workspace that a window is assigned to.
    pub open spec fn hidden_home(&self, wid: WindowId) -> Option<SpaceId> {
        match self.assigned_workspace(wid) {
            Some(workspace) => match self.home_space(workspace) {
                Some(space) => if self.is_active(space) && self.shown_workspace(space) != Some(
                    workspace,
                ) {
                    Some(space)
                } else {
                    None
                },
                None => None,
            },
            None => None,
        }
    }

    pub fn assigned_hidden_workspace_space(&self, wid: WindowId) -> (r: Option<SpaceId>)
        ensures
            r == self.hidden_home(wid),
    {
        let workspace: WorkspaceId = match self.workspace_for_window(wid) {
            Some(workspace) => workspace,
            None => {
                return None;
            },
        };
        let space: SpaceId = match self.space_for_workspace(workspace) {
            Some(space) => space,
            None => {
                return None;
            },
        };
        if !self.is_space_active(space) {
            return None;
        }
        let shown: bool = match self.active_workspace_for_space(space) {
            Some(active) => active == workspace,
            None => false,
        };
        if shown {
            None
        } else {
            Some(space)
        }
    }

    /// Where a window was sent, while that still holds.
    pub open spec fn recent_target(&self, wid: WindowId, now: u64) -> Option<
        RecentWorkspaceTarget,
    > {
        let targets = self.refocus_manager.recent_workspace_targets@;
        if targets.contains_key(wid) && now <= targets[wid].expires_at && self.layout_may_hold(wid)
            && self.home_space(targets[wid].workspace_id) == Some(targets[wid].space)
            && self.is_active(targets[wid].space) {
            Some(targets[wid])
        } else {
            None
        }
    }

    pub fn recent_workspace_target_for(&self, wid: WindowId, now: u64) -> (r: Option<
        RecentWorkspaceTarget,
    >)
        ensures
            r == self.recent_target(wid, now),
    {
        let target: RecentWorkspaceTarget = match self.refocus_manager.recent_workspace_targets.get(
            wid,
        ) {
            Some(target) => *target,
            None => {
                return None;
            },
        };
        if now > target.expires_at || !self.window_is_standard(wid) {
            return None;
        }
        let at_home: bool = match self.space_for_workspace(target.workspace_id) {
            Some(space) => space == target.space,
            None => false,
        };
        if !at_home || !self.is_space_active(target.space) {
            return None;
        }
        Some(target)
    }

    /// Where the next window is to be focused, if this one qualifies.
    pub open spec fn focus_next_target(&self, wid: WindowId, now: u64) -> Option<
        FocusNextWindowTarget,
    > {
        match (
            self.refocus_manager.focus_next_window_deadline,
            self.refocus_manager.focus_next_window_target,
        ) {
            (Some(deadline), Some(target)) => if now <= deadline && self.layout_may_hold(wid)
                && self.home_space(target.workspace_id) == Some(target.space)
                && self.shown_workspace(target.space) == Some(target.workspace_id) {
                Some(target)
            } else {
                None
            },
            _ => None,
        }
    }

    pub fn focus_next_window_target_for(&self, wid: WindowId, now: u64) -> (r: Option<
        FocusNextWindowTarget,
    >)
        ensures
            r == self.focus_next_target(wid, now),
    {
        let deadline: u64 = match self.refocus_manager.focus_next_window_deadline {
            Some(deadline) => deadline,
            None => {
                return None;
            },
        };
        let target: FocusNextWindowTarget = match self.refocus_manager.focus_next_window_target {
            Some(target) => target,
            None => {
                return None;
            },
        };
        if now > deadline || !self.window_is_standard(wid) {
            return None;
        }
        let at_home: bool = match self.space_for_workspace(target.workspace_id) {
            Some(space) => space == target.space,
            None => false,
        };
        let shown: bool = match self.active_workspace_for_space(target.space) {
            Some(active) => active == target.workspace_id,
            None => false,
        };
        if at_home && shown {
            Some(target)
        } else {
            None
        }
    }

    /// Where a window is meant to be: where the next window was asked for,
    /// where it was sent, where its hidden workspace is, where it is.
    pub open spec fn intended_space(
        &self,
        wid: WindowId,
        w: WindowState,
        sur: Surroundings,
    ) -> Option<SpaceId> {
        match self.focus_next_target(wid, sur.now) {
            Some(target) => Some(target.space),
            None => match self.recent_target(wid, sur.now) {
                Some(target) => Some(target.space),
                None => match self.hidden_home(wid) {
                    Some(space) => Some(space),
                    None => self.best_space(w.frame_monotonic, w.sys_id, sur),
                },
            },
        }
    }

    pub fn intended_space_for_window_state(
        &self,
        wid: WindowId,
        window: &WindowState,
        sur: &Surroundings,
    ) -> (r: Option<SpaceId>)
        requires
            self.wf(),
            window.frame_monotonic.in_range(),
        ensures
            r == self.intended_space(wid, *window, *sur),
    {
        if let Some(target) = self.focus_next_window_target_for(wid, sur.now) {
            return Some(target.space);
        }
        if let Some(target) = self.recent_workspace_target_for(wid, sur.now) {
            return Some(target.space);
        }
        if let Some(space) = self.assigned_hidden_workspace_space(wid) {
            return Some(space);
        }
        self.best_space_for_window_state(window, sur)
    }

    pub open spec fn intended_space_of(&self, wid: WindowId, sur: Surroundings) -> Option<SpaceId> {
        match self.window_manager.window_spec(wid) {
            Some(w) => self.intended_space(wid, w, sur),
            None => None,
        }
    }

    pub fn intended_space_for_window_id(&self, wid: WindowId, sur: &Surroundings) -> (r: Option<
        SpaceId,
    >)
        requires
            self.wf(),
        ensures
            r == self.intended_space_of(wid, *sur),
    {
        match self.window_manager.window(wid) {
            Some(w) => self.intended_space_for_window_state(wid, &w, sur),
            None => None,
        }
    }

    /// Whether a window is meant for a space that is managed.
    pub open spec fn on_active_space(&self, wid: WindowId, sur: Surroundings) -> bool {
        self.intended_space_of(wid, sur) matches Some(space) && self.is_active(space)
    }

    pub fn is_window_on_active_space(&self, wid: WindowId, sur: &Surroundings) -> (r: bool)
        requires
            self.wf(),
        ensures
            r == self.on_active_space(wid, *sur),
    {
        match self.intended_space_for_window_id(wid, sur) {
            Some(space) => self.is_space_active(space),
            None => false,
        }
    }

    pub open spec fn main_wid(&self) -> Option<WindowId> {
        self.main_window_tracker@.main_window()
    }

    pub fn main_window(&self) -> (r: Option<WindowId>)
        ensures
            r == self.main_wid(),
    {
        self.main_window_tracker.main_window()
    }

    pub open spec fn main_space(&self, sur: Surroundings) -> Option<SpaceId> {
        match self.main_wid() {
            Some(wid) => self.intended_space_of(wid, sur),
            None => None,
        }
    }

    pub fn main_window_space(&self, sur: &Surroundings) -> (r: Option<SpaceId>)
        requires
            self.wf(),
        ensures
            r == self.main_space(*sur),
    {
        match self.main_window() {
            Some(wid) => self.intended_space_for_window_id(wid, sur),
            None => None,
        }
    }

    /// The space of the screen that the cursor is on or nearest to.
    pub open spec fn cursor_space(&self, sur: Surroundings) -> Option<SpaceId> {
        match sur.cursor {
            Some(p) => space_at(self.space_manager.screens@, p),
            None => None,
        }
    }

    pub fn space_for_cursor_screen(&self, sur: &Surroundings) -> (r: Option<SpaceId>)
        requires
            self.wf(),
            sur.wf(),
        ensures
            r == self.cursor_space(*sur),
    {
        match sur.cursor {
            Some(p) => space_for_point(&self.space_manager.screens, p),
            None => None,
        }
    }

    pub open spec fn first_space(&self) -> Option<SpaceId> {
        let spaces = known_spaces(self.space_manager.screens@);
        if spaces.len() > 0 {
            Some(spaces[0])
        } else {
            None
        }
    }

    pub open spec fn only_active(&self, space: Option<SpaceId>) -> Option<SpaceId> {
        match space {
            Some(s) => if self.is_active(s) {
                space
            } else {
                None
            },
            None => None,
        }
    }

    fn keep_active(&self, space: Option<SpaceId>) -> (r: Option<SpaceId>)
        ensures
            r == self.only_active(space),
    {
        match space {
            Some(s) => if self.is_space_active(s) {
                space
            } else {
                None
            },
            None => None,
        }
    }

    /// The space that a workspace command is about: under the cursor, of the
    /// main window, the system's active one, any; none if it is not managed.
    pub open spec fn command_space(&self, sur: Surroundings) -> Option<SpaceId> {
        self.only_active(
            match self.cursor_space(sur) {
                Some(space) => Some(space),
                None => match self.main_space(sur) {
                    Some(space) => Some(space),
                    None => match sur.active_space {
                        Some(space) => Some(space),
                        None => self.first_space(),
                    },
                },
            },
        )
    }

    pub fn workspace_command_space(&self, sur: &Surroundings) -> (r: Option<SpaceId>)
        requires
            self.wf(),
            sur.wf(),
        ensures
            r == self.command_space(*sur),
    {
        let candidate: Option<SpaceId> = match self.space_for_cursor_screen(sur) {
            Some(space) => Some(space),
            None => match self.main_window_space(sur) {
                Some(space) => Some(space),
                None => match sur.active_space {
                    Some(space) => Some(space),
                    None => self.space_manager.first_known_space(),
                },
            },
        };
        self.keep_active(candidate)
    }

    /// The space that a command was run from: of the main window, the
    /// system's active one, under the cursor, any; none if it is not managed.
    pub open spec fn exec_space(&self, sur: Surroundings) -> Option<SpaceId> {
        self.only_active(
            match self.main_space(sur) {
                Some(space) => Some(space),
                None => match sur.active_space {
                    Some(space) => Some(space),
                    None => match self.cursor_space(sur) {
                        Some(space) => Some(space),
                        None => self.first_space(),
                    },
                },
            },
        )
    }

    pub fn exec_command_space(&self, sur: &Surroundings) -> (r: Option<SpaceId>)
        requires
            self.wf(),
            sur.wf(),
        ensures
            r == self.exec_space(*sur),
    {
        let candidate: Option<SpaceId> = match self.main_window_space(sur) {
            Some(space) => Some(space),
            None => match sur.active_space {
                Some(space) => Some(space),
                None => match self.space_for_cursor_screen(sur) {
                    Some(space) => Some(space),
                    None => self.space_manager.first_known_space(),
                },
            },
        };
        self.keep_active(candidate)
    }

    /// Remembers where a window was sent, if that space is managed.
    pub fn remember_recent_workspace_target_for(
        &mut self,
        wid: WindowId,
        space: SpaceId,
        workspace_id: WorkspaceId,
        now: u64,
    ) -> (r: bool)
        requires
            now <= u64::MAX - RECENT_WORKSPACE_TARGET_TIMEOUT,
        ensures
            r == old(self).is_active(space),
            old(self).wf() ==> final(self).wf(),
            final(self).refocus_manager.recent_workspace_targets@ == old(self).with_recent_target(
                wid,
                Some((space, workspace_id)),
                now,
            ),
            only_targets_changed(*old(self), *final(self)),
    {
        if !self.is_space_active(space) {
            return false;
        }
        let _ = self.refocus_manager.recent_workspace_targets.insert(
            wid,
            RecentWorkspaceTarget {
                space,
                workspace_id,
                expires_at: now + RECENT_WORKSPACE_TARGET_TIMEOUT,
            },
        );
        true
    }

    /// The remembered targets after a window was sent somewhere.
    pub open spec fn with_recent_target(
        &self,
        wid: WindowId,
        target: Option<(SpaceId, WorkspaceId)>,
        now: u64,
    ) -> Map<WindowId, RecentWorkspaceTarget> {
        let targets = self.refocus_manager.recent_workspace_targets@;
        match target {
            Some((space, workspace_id)) => if self.is_active(space) {
                targets.insert(
                    wid,
                    RecentWorkspaceTarget {
                        space,
                        workspace_id,
                        expires_at: (now + RECENT_WORKSPACE_TARGET_TIMEOUT) as u64,
                    },
                )
            } else {
                targets
            },
            None => targets,
        }
    }

    /// Where a window's assigned workspace is.
    pub open spec fn assignment(&self, wid: WindowId) -> Option<(SpaceId, WorkspaceId)> {
        match self.assigned_workspace(wid) {
            Some(workspace) => match self.home_space(workspace) {
                Some(space) => Some((space, workspace)),
                None => None,
            },
            None => None,
        }
    }

    /// Remembers where a window is assigned.
    pub fn remember_recent_workspace_target(&mut self, wid: WindowId, now: u64)
        requires
            now <= u64::MAX - RECENT_WORKSPACE_TARGET_TIMEOUT,
        ensures
            old(self).wf() ==> final(self).wf(),
            final(self).refocus_manager.recent_workspace_targets@ == old(self).with_recent_target(
                wid,
                old(self).assignment(wid),
                now,
            ),
            only_targets_changed(*old(self), *final(self)),
    {
        if let Some(workspace) = self.workspace_for_window(wid) {
            if let Some(space) = self.space_for_workspace(workspace) {
                let _ = self.remember_recent_workspace_target_for(wid, space, workspace, now);
            }
        }
    }

    /// Where the workspace of a slot is.
    pub open spec fn slot_home(&self, slot: usize) -> Option<(SpaceId, WorkspaceId)> {
        match slot_number(slot) {
            Some(number) => match workspace_by_number(self.core, number) {
                Some(workspace) => match self.home_space(workspace.id) {
                    Some(space) => Some((space, workspace.id)),
                    None => None,
                },
                None => None,
            },
            None => None,
        }
    }

    /// Remembers that a window was sent to the workspace of a slot.
    pub fn remember_recent_workspace_target_for_slot(
        &mut self,
        wid: WindowId,
        workspace: usize,
        now: u64,
    ) -> (r: bool)
        requires
            now <= u64::MAX - RECENT_WORKSPACE_TARGET_TIMEOUT,
        ensures
            old(self).wf() ==> final(self).wf(),
            r == (old(self).slot_home(workspace) matches Some(home) && old(self).is_active(home.0)),
            final(self).refocus_manager.recent_workspace_targets@ == old(self).with_recent_target(
                wid,
                old(self).slot_home(workspace),
                now,
            ),
            only_targets_changed(*old(self), *final(self)),
    {
        let number: WorkspaceNumber = match number_for_slot(workspace) {
            Some(number) => number,
            None => {
                return false;
            },
        };
        let i: usize = match find_workspace_by_number(&self.core, number) {
            Some(i) => i,
            None => {
                return false;
            },
        };
        let id: WorkspaceId = self.core.workspaces[i].id;
        match self.space_for_workspace(id) {
            Some(space) => self.remember_recent_workspace_target_for(wid, space, id, now),
            None => false,
        }
    }

    /// The middle of a tracked window, if a screen is there.
    pub open spec fn middle_on_screen(&self, wid: WindowId) -> Option<Point> {
        match self.window_manager.window_spec(wid) {
            Some(w) => if screen_holding(self.space_manager.screens@, w.frame_monotonic.middle())
                is Some {
                Some(w.frame_monotonic.middle())
            } else {
                None
            },
            None => None,
        }
    }

    pub fn window_center_on_known_screen(&self, wid: WindowId) -> (r: Option<Point>)
        requires
            self.wf(),
        ensures
            r == self.middle_on_screen(wid),
    {
        match self.window_manager.window(wid) {
            Some(w) => {
                let center: Point = w.frame_monotonic.mid();
                match screen_for_point(&self.space_manager.screens, center) {
                    Some(_) => Some(center),
                    None => None,
                }
            },
            None => None,
        }
    }

    /// The middle of the screen that shows a space.
    pub open spec fn middle_of_space(&self, space: Option<SpaceId>) -> Option<Point> {
        match space {
            Some(s) => match screen_showing(self.space_manager.screens@, s) {
                Some(i) => Some(self.space_manager.screens@[i].frame.middle()),
                None => None,
            },
            None => None,
        }
    }

    /// The middle of the screen that shows a space.
    pub fn space_center(&self, space: Option<SpaceId>) -> (r: Option<Point>)
        requires
            self.wf(),
        ensures
            r == self.middle_of_space(space),
            r matches Some(p) ==> -2 * LIMIT <= p.x <= 2 * LIMIT && -2 * LIMIT <= p.y <= 2 * LIMIT,
    {
        match space {
            Some(s) => match self.space_manager.screen_index(s) {
                Some(i) => Some(self.space_manager.screens[i].frame.mid()),
                None => None,
            },
            None => None,
        }
    }

    /// The middle of the screen in use: under the cursor, of the main window,
    /// of the active space, the first.
    pub open spec fn current_middle(&self, sur: Surroundings) -> Option<Point> {
        let screens = self.space_manager.screens@;
        let under_cursor = match sur.cursor {
            Some(p) => match screen_holding(screens, p) {
                Some(i) => Some(screens[i].frame.middle()),
                None => None,
            },
            None => None,
        };
        match under_cursor {
            Some(p) => Some(p),
            None => match self.middle_of_space(self.main_space(sur)) {
                Some(p) => Some(p),
                None => match self.middle_of_space(sur.active_space) {
                    Some(p) => Some(p),
                    None => if screens.len() > 0 {
                        Some(screens[0].frame.middle())
                    } else {
                        None
                    },
                },
            },
        }
    }

    pub fn current_screen_center(&self, sur: &Surroundings) -> (r: Option<Point>)
        requires
            self.wf(),
            sur.wf(),
        ensures
            r == self.current_middle(*sur),
            r matches Some(p) ==> -2 * LIMIT <= p.x <= 2 * LIMIT && -2 * LIMIT <= p.y <= 2 * LIMIT,
    {
        if let Some(p) = sur.cursor {
            if let Some(i) = screen_for_point(&self.space_manager.screens, p) {
                return Some(self.space_manager.screens[i].frame.mid());
            }
        }
        if let Some(p) = self.space_center(self.main_window_space(sur)) {
            return Some(p);
        }
        if let Some(p) = self.space_center(sur.active_space) {
            return Some(p);
        }
        if self.space_manager.screens.len() > 0 {
            Some(self.space_manager.screens[0].frame.mid())
        } else {
            None
        }
    }

    /// The screen that a selector means.
    pub open spec fn selected_screen(
        &self,
        selector: DisplaySelector,
        origin: Option<Point>,
        sur: Surroundings,
    ) -> Option<int> {
        let screens = self.space_manager.screens@;
        match selector {
            DisplaySelector::Direction(direction) => {
                let from = match origin {
                    Some(p) => Some(p),
                    None => self.current_middle(sur),
                };
                match from {
                    Some(p) => next_towards(screens, p, direction),
                    None => None,
                }
            },
            DisplaySelector::Index(index) => if index < screens.len() {
                Some(physical_order(screens)[index as int])
            } else {
                None
            },
            DisplaySelector::Uuid(uuid) => screen_named(screens, uuid@),
        }
    }

    pub fn screen_for_selector(
        &self,
        selector: &DisplaySelector,
        origin_override: Option<Point>,
        sur: &Surroundings,
    ) -> (r: Option<usize>)
        requires
            self.wf(),
            sur.wf(),
            origin_override matches Some(p) ==> -2 * LIMIT <= p.x <= 2 * LIMIT && -2 * LIMIT <= p.y
                <= 2 * LIMIT,
        ensures
            match r {
                Some(i) => i < self.space_manager.screens@.len() && self.selected_screen(
                    *selector,
                    origin_override,
                    *sur,
                ) == Some(i as int),
                None => self.selected_screen(*selector, origin_override, *sur) is None,
            },
    {
        match selector {
            DisplaySelector::Direction(direction) => {
                let origin: Option<Point> = match origin_override {
                    Some(p) => Some(p),
                    None => self.current_screen_center(sur),
                };
                match origin {
                    Some(p) => screen_for_direction_from_point(
                        &self.space_manager.screens,
                        p,
                        *direction,
                    ),
                    None => None,
                }
            },
            DisplaySelector::Index(index) => {
                let order: Vec<usize> = screens_in_physical_order(&self.space_manager.screens);
                if *index < order.len() {
                    proof {
                        let mapped = order@.map_values(|i: usize| i as int);
                        assert(mapped[*index as int] == order@[*index as int] as int);
                    }
                    Some(order[*index])
                } else {
                    proof {
                        assert(order@.map_values(|i: usize| i as int).len() == order@.len());
                    }
                    None
                }
            },
            DisplaySelector::Uuid(uuid) => screen_for_uuid(&self.space_manager.screens, uuid),
        }
    }

    /// The window under the cursor, if it is tracked.
    pub open spec fn under_cursor(&self, sur: Surroundings) -> Option<WindowId> {
        match sur.window_under_cursor {
            Some(wsid) => self.window_manager.tracked_spec(wsid),
            None => None,
        }
    }

    pub fn window_id_under_cursor(&self, sur: &Surroundings) -> (r: Option<WindowId>)
        ensures
            r == self.under_cursor(*sur),
    {
        match sur.window_under_cursor {
            Some(wsid) => self.window_manager.tracked_window_id(wsid),
            None => None,
        }
    }

    /// Whether a window of the window server is a tracked one of an
    /// application.
    pub open spec fn belongs_to(&self, wsid: WindowServerId, pid: pid_t) -> bool {
        self.window_manager.tracked_spec(wsid) matches Some(wid) && wid.pid == pid
    }

    /// Whether some visible window of the window server belongs to an
    /// application.
    pub fn has_visible_window_server_ids_for_pid(&self, pid: pid_t) -> (r: bool)
        ensures
            r == exists|wsid: WindowServerId| #[trigger]
                self.window_manager.visible_windows@.contains(wsid) && self.belongs_to(wsid, pid),
    {
        let ids: Vec<WindowServerId> = self.window_manager.visible_windows.items();
        let mut i: usize = 0;
        while i < ids.len()
            invariant
                i <= ids@.len(),
                forall|w: WindowServerId| #[trigger]
                    ids@.contains(w) <==> self.window_manager.visible_windows@.contains(w),
                forall|j: int|
                    0 <= j < i ==> !self.belongs_to(#[trigger] ids@[j], pid),
            decreases ids@.len() - i,
        {
            if let Some(wid) = self.window_manager.tracked_window_id(ids[i]) {
                if wid.pid == pid {
                    assert(ids@.contains(ids@[i as int]));
                    return true;
                }
            }
            i += 1;
        }
        proof {
            assert forall|wsid: WindowServerId| #[trigger]
                self.window_manager.visible_windows@.contains(wsid) implies !self.belongs_to(
                wsid,
                pid,
            ) by {
                assert(ids@.contains(wsid));
            }
        }
        false
    }
}

/// Nothing but the remembered targets differs.
pub open spec fn only_targets_changed(before: Reactor, after: Reactor) -> bool {
    after == (Reactor {
        refocus_manager: crate::reactor::managers::RefocusManager {
            recent_workspace_targets: after.refocus_manager.recent_workspace_targets,
            ..before.refocus_manager
        },
        ..before
    })
}

/// A window that was just sent to a managed workspace's space is meant for
/// it until the target expires, unless the next window was asked for
/// elsewhere.
pub proof fn law_sent_window_is_meant_for_its_target(
    before: Reactor,
    after: Reactor,
    wid: WindowId,
    space: SpaceId,
    workspace: WorkspaceId,
    sent: u64,
    sur: Surroundings,
)
    requires
        only_targets_changed(before, after),
        after.refocus_manager.recent_workspace_targets@ == before.with_recent_target(
            wid,
            Some((space, workspace)),
            sent,
        ),
        before.is_active(space),
        before.home_space(workspace) == Some(space),
        before.layout_may_hold(wid),
        before.focus_next_target(wid, sur.now) is None,
        sent <= sur.now <= sent + RECENT_WORKSPACE_TARGET_TIMEOUT,
        sent <= u64::MAX - RECENT_WORKSPACE_TARGET_TIMEOUT,
    ensures
        after.intended_space_of(wid, sur) == Some(space),
{
    assert(after.home_space(workspace) == Some(space));
    assert(after.layout_may_hold(wid));
    assert(after.focus_next_target(wid, sur.now) is None);
}

/// A workspace command is about the space that the display under the cursor
/// shows: none other, and none at all if that space is not managed.
pub proof fn law_command_is_for_the_display_under_the_cursor(
    m: Reactor,
    p: Point,
    i: int,
    space: SpaceId,
    sur: Surroundings,
)
    requires
        sur.cursor == Some(p),
        0 <= i < m.space_manager.screens@.len(),
        m.space_manager.screens@[i].frame.holds(p),
        forall|j: int| 0 <= j < i ==> !(#[trigger] m.space_manager.screens@[j]).frame.holds(p),
        m.space_manager.screens@[i].space == Some(space),
    ensures
        m.active_spaces@.contains(space) ==> m.command_space(sur) == Some(space),
        !m.active_spaces@.contains(space) ==> m.command_space(sur) is None,
{
    law_space_at_a_point(m.space_manager.screens@, p, i);
}

/// A workspace command given while the cursor is on no screen is about the
/// space of the nearest one.
pub proof fn law_command_is_for_the_display_nearest_to_the_cursor(
    m: Reactor,
    p: Point,
    i: int,
    space: SpaceId,
    sur: Surroundings,
)
    requires
        sur.cursor == Some(p),
        0 <= i < m.space_manager.screens@.len(),
        forall|j: int|
            0 <= j < m.space_manager.screens@.len() ==> !(
            #[trigger] m.space_manager.screens@[j]).frame.holds(p),
        forall|j: int|
            0 <= j < m.space_manager.screens@.len() && j != i ==> distance_sq_to(
                m.space_manager.screens@[i].frame,
                p,
            ) < distance_sq_to((#[trigger] m.space_manager.screens@[j]).frame, p),
        m.space_manager.screens@[i].space == Some(space),
        m.active_spaces@.contains(space),
    ensures
        m.command_space(sur) == Some(space),
{
    law_space_at_a_point(m.space_manager.screens@, p, i);
}

/// Where no space is under or nearest to the cursor, a workspace command is
/// about the space that the main window is meant for; without one, about the
/// system's active space; without that, about the space of the first screen
/// that shows one. A space that is not managed gets no command.
pub proof fn law_command_falls_back_to_the_main_window(
    m: Reactor,
    sur: Surroundings,
    window: WindowId,
    space: SpaceId,
    i: int,
)
    requires
        sur.cursor is None || m.space_manager.screens@.len() == 0 || m.cursor_space(sur) is None,
    ensures
        m.main_window_tracker@.main_window() == Some(window) && m.intended_space_of(window, sur)
            == Some(space) ==> m.command_space(sur) == if m.active_spaces@.contains(space) {
            Some(space)
        } else {
            None
        },
        m.main_window_tracker@.main_window() is None && sur.active_space == Some(space)
            ==> m.command_space(sur) == if m.active_spaces@.contains(space) {
            Some(space)
        } else {
            None
        },
        m.main_window_tracker@.main_window() == Some(window) && m.intended_space_of(window, sur)
            is None && sur.active_space == Some(space) ==> m.command_space(sur)
            == if m.active_spaces@.contains(space) {
            Some(space)
        } else {
            None
        },
        m.main_window_tracker@.main_window() is None && sur.active_space is None && 0 <= i
            < m.space_manager.screens@.len() && m.space_manager.screens@[i].space == Some(space) && (
        forall|j: int| 0 <= j < i ==> (#[trigger] m.space_manager.screens@[j]).space is None)
            && m.active_spaces@.contains(space) ==> m.command_space(sur) == Some(space),
        m.command_space(sur) matches Some(s) ==> m.active_spaces@.contains(s),
{
    if m.space_manager.screens@.len() == 0 {
        assert(m.space_manager.screens@ =~= Seq::empty());
        if let Some(p) = sur.cursor {
            law_no_space_without_screens(p, arbitrary());
        }
    }
    lemma_first_space(m, i, space);
}

/// The first known space is that of the first screen that shows one.
proof fn lemma_first_space(m: Reactor, i: int, space: SpaceId)
    ensures
        0 <= i < m.space_manager.screens@.len() && m.space_manager.screens@[i].space == Some(space)
            && (forall|j: int|
            0 <= j < i ==> (#[trigger] m.space_manager.screens@[j]).space is None)
            ==> m.first_space() == Some(space),
{
    let screens = m.space_manager.screens@;
    law_first_known_space_is_of_the_first_screen_that_shows_one(screens);
    if 0 <= i < screens.len() && screens[i].space == Some(space) && (forall|j: int|
        0 <= j < i ==> (#[trigger] screens[j]).space is None) {
        let k = choose|k: int|
            0 <= k < screens.len() && (#[trigger] screens[k]).space == Some(
                known_spaces(screens)[0],
            ) && forall|j: int| 0 <= j < k ==> (#[trigger] screens[j]).space is None;
        if k < i {
            assert(screens[k].space is None);
        } else if i < k {
            assert(screens[i].space is None);
        }
    }
}

/// A command that was run is about the main window's space, wherever the
/// cursor is; without one, about the system's active space; and only after
/// that about the cursor's. A space that is not managed gets no command.
pub proof fn law_run_command_is_for_the_main_window(
    m: Reactor,
    sur: Surroundings,
    window: WindowId,
    space: SpaceId,
    p: Point,
    i: int,
)
    ensures
        m.main_window_tracker@.main_window() == Some(window) && m.intended_space_of(window, sur)
            == Some(space) ==> m.exec_space(sur) == if m.active_spaces@.contains(space) {
            Some(space)
        } else {
            None
        },
        m.main_window_tracker@.main_window() is None && sur.active_space == Some(space)
            ==> m.exec_space(sur) == if m.active_spaces@.contains(space) {
            Some(space)
        } else {
            None
        },
        m.main_window_tracker@.main_window() is None && sur.active_space is None && sur.cursor
            == Some(p) && 0 <= i < m.space_manager.screens@.len()
            && m.space_manager.screens@[i].frame.holds(p) && (forall|j: int|
            0 <= j < i ==> !(#[trigger] m.space_manager.screens@[j]).frame.holds(p))
            && m.space_manager.screens@[i].space == Some(space) ==> m.exec_space(sur)
            == if m.active_spaces@.contains(space) {
            Some(space)
        } else {
            None
        },
        m.exec_space(sur) matches Some(s) ==> m.active_spaces@.contains(s),
{
    if 0 <= i < m.space_manager.screens@.len() {
        law_space_at_a_point(m.space_manager.screens@, p, i);
    }
}

/// The window server's word on a window's space comes before its frame: a
/// window on a space of the user's that a screen shows is on it, wherever its
/// frame is, and one on a space that is not the user's is on none. The frame
/// decides where the window server says nothing or names a space that no
/// screen shows.
pub proof fn law_window_server_decides_where_a_window_is(
    m: Reactor,
    frame: Rect,
    wsid: WindowServerId,
    space: SpaceId,
    i: int,
    sur: Surroundings,
)
    ensures
        m.best_space(frame, None, sur) == space_of_frame(m.space_manager.screens@, frame),
        !sur.window_spaces@.contains_key(wsid) ==> m.best_space(frame, Some(wsid), sur)
            == space_of_frame(m.space_manager.screens@, frame),
        sur.window_spaces@.contains_key(wsid) && sur.window_spaces@[wsid] == space
            && !sur.user_spaces@.contains(space) ==> m.best_space(frame, Some(wsid), sur) is None,
        sur.window_spaces@.contains_key(wsid) && sur.window_spaces@[wsid] == space
            && sur.user_spaces@.contains(space) && 0 <= i < m.space_manager.screens@.len()
            && m.space_manager.screens@[i].space == Some(space) ==> m.best_space(
            frame,
            Some(wsid),
            sur,
        ) == Some(space),
        sur.window_spaces@.contains_key(wsid) && sur.window_spaces@[wsid] == space
            && sur.user_spaces@.contains(space) && (forall|j: int|
            0 <= j < m.space_manager.screens@.len() ==> (
            #[trigger] m.space_manager.screens@[j]).space != Some(space)) ==> m.best_space(
            frame,
            Some(wsid),
            sur,
        ) == space_of_frame(m.space_manager.screens@, frame),
{
    law_screen_of_a_space_is_the_first_that_shows_it(m.space_manager.screens@, space, i);
}

/// Only tracked windows that can be managed and that no rule takes out may
/// be held by the layout.
pub proof fn law_layout_holds_managed_windows_only(m: Reactor, wid: WindowId)
    ensures
        m.layout_may_hold(wid) <==> m.window_manager.windows@.contains_key(wid)
            && m.window_manager.windows@[wid].is_manageable
            && !m.window_manager.windows@[wid].ignore_app_rule,
{
}

/// A window on a workspace that is not in view is meant for that workspace's
/// space, if the space is managed, whatever its frame and the window server
/// say: unless the next window was asked for elsewhere, or it was just sent
/// somewhere.
pub proof fn law_hidden_window_belongs_to_its_workspace(
    m: Reactor,
    wid: WindowId,
    workspace: WorkspaceId,
    space: SpaceId,
    sur: Surroundings,
)
    requires
        m.window_manager.windows@.contains_key(wid),
        m.refocus_manager.focus_next_window_deadline is None
            || m.refocus_manager.focus_next_window_target is None,
        !m.refocus_manager.recent_workspace_targets@.contains_key(wid),
        m.assigned_workspace(wid) == Some(workspace),
        m.home_space(workspace) == Some(space),
        m.active_spaces@.contains(space),
    ensures
        m.shown_workspace(space) != Some(workspace) ==> m.intended_space_of(wid, sur) == Some(
            space,
        ),
        m.shown_workspace(space) == Some(workspace) ==> m.intended_space_of(wid, sur)
            == m.best_space(
            m.window_manager.windows@[wid].frame_monotonic,
            m.window_manager.windows@[wid].sys_id,
            sur,
        ),
{
}

/// A window that was sent somewhere is meant for that space no longer than
/// the memory of it lasts, and only while the layout may hold it, the
/// workspace is still at home there and the space is managed.
pub proof fn law_sent_window_is_held_to_its_target_for_a_while(
    m: Reactor,
    wid: WindowId,
    sur: Surroundings,
)
    requires
        m.window_manager.windows@.contains_key(wid),
        m.refocus_manager.recent_workspace_targets@.contains_key(wid),
        m.refocus_manager.focus_next_window_deadline is None
            || m.refocus_manager.focus_next_window_target is None,
        m.assigned_workspace(wid) is None,
    ensures
        ({
            let w = m.window_manager.windows@[wid];
            let target = m.refocus_manager.recent_workspace_targets@[wid];
            let holds = sur.now <= target.expires_at && w.is_manageable && !w.ignore_app_rule
                && m.home_space(target.workspace_id) == Some(target.space)
                && m.active_spaces@.contains(target.space);
            &&& holds ==> m.intended_space_of(wid, sur) == Some(target.space)
            &&& !holds ==> m.intended_space_of(wid, sur) == m.best_space(
                w.frame_monotonic,
                w.sys_id,
                sur,
            )
        }),
{
}

/// While the next window is waited for, a window that the layout may hold is
/// meant for the space it was asked for on, before all else, as long as that
/// space shows the workspace.
pub proof fn law_next_window_is_meant_for_where_it_was_asked_for(
    m: Reactor,
    wid: WindowId,
    deadline: u64,
    target: FocusNextWindowTarget,
    sur: Surroundings,
)
    requires
        m.window_manager.windows@.contains_key(wid),
        m.refocus_manager.focus_next_window_deadline == Some(deadline),
        m.refocus_manager.focus_next_window_target == Some(target),
    ensures
        ({
            let w = m.window_manager.windows@[wid];
            let holds = sur.now <= deadline && w.is_manageable && !w.ignore_app_rule
                && m.home_space(target.workspace_id) == Some(target.space) && m.shown_workspace(
                target.space,
            ) == Some(target.workspace_id);
            &&& holds ==> m.intended_space_of(wid, sur) == Some(target.space)
            &&& holds <==> m.focus_next_target(wid, sur.now) == Some(target)
            &&& !holds ==> m.focus_next_target(wid, sur.now) is None
        }),
{
}

/// A window that is not tracked is meant for no space and is on none.
pub proof fn law_unknown_window_is_nowhere(m: Reactor, wid: WindowId, sur: Surroundings)
    requires
        !m.window_manager.windows@.contains_key(wid),
    ensures
        m.intended_space_of(wid, sur) is None,
        m.best_space_of(wid, sur) is None,
        !m.on_active_space(wid, sur),
        m.middle_on_screen(wid) is None,
{
}

/// The slots of the number row name the workspaces one to nine and then
/// zero, and the home of a slot is that of the first workspace with its
/// number.
pub proof fn law_slot_home_is_its_workspaces(m: Reactor, slot: usize, i: int)
    requires
        slot < 10,
        0 <= i < m.core.workspaces@.len(),
        m.core.workspaces@[i].number == Some(WorkspaceNumber(((slot + 1) % 10) as u8)),
        forall|j: int|
            0 <= j < i ==> (#[trigger] m.core.workspaces@[j]).number != Some(
                WorkspaceNumber(((slot + 1) % 10) as u8),
            ),
    ensures
        slot_number(slot) == Some(WorkspaceNumber(((slot + 1) % 10) as u8)),
        match m.home_space(m.core.workspaces@[i].id) {
            Some(space) => m.slot_home(slot) == Some((space, m.core.workspaces@[i].id)),
            None => m.slot_home(slot) is None,
        },
{
    law_workspace_by_number(m.core, WorkspaceNumber(((slot + 1) % 10) as u8), i);
}

/// The screen in use is the one under the cursor; where none is, the one
/// that shows the main window's space; then the one that shows the active
/// space; then the first.
pub proof fn law_screen_in_use(m: Reactor, sur: Surroundings, p: Point, i: int, space: SpaceId)
    requires
        0 <= i < m.space_manager.screens@.len(),
    ensures
        sur.cursor == Some(p) && m.space_manager.screens@[i].frame.holds(p) && (forall|j: int|
            0 <= j < i ==> !(#[trigger] m.space_manager.screens@[j]).frame.holds(p))
            ==> m.current_middle(sur) == Some(m.space_manager.screens@[i].frame.middle()),
        sur.cursor is None && m.main_space(sur) == Some(space)
            && m.space_manager.screens@[i].space == Some(space) && (forall|j: int|
            0 <= j < i ==> (#[trigger] m.space_manager.screens@[j]).space != Some(space))
            ==> m.current_middle(sur) == Some(m.space_manager.screens@[i].frame.middle()),
        sur.cursor is None && m.main_space(sur) is None && sur.active_space == Some(space)
            && m.space_manager.screens@[i].space == Some(space) && (forall|j: int|
            0 <= j < i ==> (#[trigger] m.space_manager.screens@[j]).space != Some(space))
            ==> m.current_middle(sur) == Some(m.space_manager.screens@[i].frame.middle()),
        sur.cursor is None && m.main_space(sur) is None && sur.active_space is None
            ==> m.current_middle(sur) == Some(m.space_manager.screens@[0].frame.middle()),
{
    law_space_at_a_point(m.space_manager.screens@, p, i);
    law_screen_of_a_space_is_the_first_that_shows_it(m.space_manager.screens@, space, i);
}

/// A direction is taken from the given place, or else from the middle of the
/// screen in use; a position counts the screens in physical order; a name is
/// a display's own.
pub proof fn law_selected_screen(
    m: Reactor,
    direction: Direction,
    index: usize,
    uuid: String,
    from: Point,
    sur: Surroundings,
    order: Seq<int>,
)
    requires
        is_physical_order(m.space_manager.screens@, order),
    ensures
        m.selected_screen(DisplaySelector::Direction(direction), Some(from), sur) == next_towards(
            m.space_manager.screens@,
            from,
            direction,
        ),
        m.current_middle(sur) == Some(from) ==> m.selected_screen(
            DisplaySelector::Direction(direction),
            None,
            sur,
        ) == next_towards(m.space_manager.screens@, from, direction),
        index < m.space_manager.screens@.len() ==> m.selected_screen(
            DisplaySelector::Index(index),
            None,
            sur,
        ) == Some(order[index as int]),
        index >= m.space_manager.screens@.len() ==> m.selected_screen(
            DisplaySelector::Index(index),
            None,
            sur,
        ) is None,
        m.selected_screen(DisplaySelector::Uuid(uuid), None, sur) == screen_named(
            m.space_manager.screens@,
            uuid@,
        ),
{
    law_physical_order_is_the_order(m.space_manager.screens@, order);
}

/// The window under the cursor is the tracked window of the one that the
/// window server has there.
pub proof fn law_window_under_the_cursor(m: Reactor, wsid: WindowServerId, sur: Surroundings)
    ensures
        sur.window_under_cursor is None ==> m.under_cursor(sur) is None,
        sur.window_under_cursor == Some(wsid) && m.window_manager.window_ids@.contains_key(wsid)
            ==> m.under_cursor(sur) == Some(m.window_manager.window_ids@[wsid]),
        sur.window_under_cursor == Some(wsid) && !m.window_manager.window_ids@.contains_key(wsid)
            ==> m.under_cursor(sur) is None,
{
}

} // verus!
