//! Following an application to its workspace when it comes to the front.

use vstd::prelude::*;

use crate::app::WindowId;
use crate::collections::{
    first_at, first_index, first_match, lemma_filter_members, lemma_first, lemma_first_index,
    lemma_no_match,
};
use crate::ids::{pid_t, SpaceId, WindowServerId};
use crate::model::{
    CoreCommand, CoreError, EventResponse, Transition, WorkspaceCommand, WorkspaceId,
    WorkspaceNumber,
};
use crate::reactor::events::command::store_tasks;
use crate::reactor::managers::{WindowFilter, WorkspaceSwitchOrigin, WorkspaceSwitchState};
use crate::reactor::surroundings::Surroundings;
use crate::reactor::task::{ask_core, core_task, no_tasks, one_task, then_task, Task, Work};
use crate::reactor::transition::{
    contains_window, core_after, reply_in_range, wanted_by, ResponseModel,
};
use crate::reactor::Reactor;

verus! {

/// How long a click on an auxiliary window is remembered, in milliseconds.
pub const AUXILIARY_WINDOW_EXPANSION_TIMEOUT: u64 = 3000;

/// What is wanted, led by one window.
pub open spec fn led_by(m: ResponseModel, window: WindowId) -> ResponseModel {
    ResponseModel {
        focus: Some(window),
        boundary: m.boundary,
        raises: if m.raises.contains(window) {
            m.raises
        } else {
            m.raises.push(window)
        },
    }
}

/// Puts one window in front of what is wanted.
pub fn lead(response: EventResponse, window: WindowId) -> (r: EventResponse)
    ensures
        r@ == led_by(response@, window),
{
    let mut r: EventResponse = response;
    r.focus_window = Some(window);
    if !contains_window(&r.raise_windows, window) {
        r.raise_windows.push(window);
    }
    r
}

impl Reactor {
    /// Whether a tracked window is on a workspace in view.
    pub open spec fn in_view(&self, wid: WindowId, sur: Surroundings) -> bool {
        self.intended_space_of(wid, sur) matches Some(space) && self.is_active(space)
            && self.on_shown_workspace(space, wid)
    }

    /// Whether a tracked window that the layout may hold is on a workspace
    /// out of view.
    pub open spec fn out_of_view(&self, wid: WindowId, sur: Surroundings) -> bool {
        self.layout_may_hold(wid) && self.assigned_workspace(wid) is Some && (
        self.intended_space_of(wid, sur) matches Some(space) && self.shown_workspace(space)
            != self.assigned_workspace(wid))
    }

    /// Whether an application, or its preferred window, is in view.
    pub open spec fn app_in_view(
        &self,
        pid: pid_t,
        preferred: Option<WindowId>,
        sur: Surroundings,
    ) -> bool {
        exists|wid: WindowId| #[trigger]
            self.window_manager.windows@.contains_key(wid) && wid.pid == pid && (preferred is None
                || preferred == Some(wid)) && self.in_view(wid, sur)
    }

    /// Whether an application has a window out of view.
    pub open spec fn app_out_of_view(&self, pid: pid_t, sur: Surroundings) -> bool {
        exists|wid: WindowId| #[trigger]
            self.window_manager.windows@.contains_key(wid) && wid.pid == pid && self.out_of_view(
                wid,
                sur,
            )
    }

    pub(crate) fn is_in_view(&self, wid: WindowId, sur: &Surroundings) -> (r: bool)
        requires
            self.wf(),
        ensures
            r == self.in_view(wid, *sur),
    {
        match self.intended_space_for_window_id(wid, sur) {
            Some(space) => self.is_space_active(space) && self.is_window_in_active_workspace(
                space,
                wid,
            ),
            None => false,
        }
    }

    fn is_out_of_view(&self, wid: WindowId, sur: &Surroundings) -> (r: bool)
        requires
            self.wf(),
        ensures
            r == self.out_of_view(wid, *sur),
    {
        if !self.window_is_standard(wid) {
            return false;
        }
        match (self.workspace_for_window(wid), self.intended_space_for_window_id(wid, sur)) {
            (Some(workspace), Some(space)) => match self.active_workspace_for_space(space) {
                Some(shown) => shown != workspace,
                None => true,
            },
            _ => false,
        }
    }

    fn is_app_in_view(&self, pid: pid_t, preferred: Option<WindowId>, sur: &Surroundings) -> (r:
        bool)
        requires
            self.wf(),
        ensures
            r == self.app_in_view(pid, preferred, *sur),
    {
        let wids: Vec<WindowId> = self.window_manager.window_ids_for_pid(pid);
        let mut i: usize = 0;
        while i < wids.len()
            invariant
                self.wf(),
                i <= wids@.len(),
                forall|w: WindowId| #[trigger]
                    wids@.contains(w) <==> self.window_manager.windows@.contains_key(w) && w.pid
                        == pid,
                forall|j: int|
                    0 <= j < i ==> !((preferred is None || preferred == Some(#[trigger] wids@[j]))
                        && self.in_view(wids@[j], *sur)),
            decreases wids@.len() - i,
        {
            let wid: WindowId = wids[i];
            let meant: bool = match preferred {
                Some(p) => p == wid,
                None => true,
            };
            if meant && self.is_in_view(wid, sur) {
                assert(wids@.contains(wid));
                return true;
            }
            i += 1;
        }
        proof {
            assert forall|wid: WindowId| #[trigger]
                self.window_manager.windows@.contains_key(wid) && wid.pid == pid && (preferred
                    is None || preferred == Some(wid)) implies !self.in_view(wid, *sur) by {
                assert(wids@.contains(wid));
            }
        }
        false
    }

    pub fn has_manageable_window_on_inactive_workspace(&self, pid: pid_t, sur: &Surroundings) -> (r:
        bool)
        requires
            self.wf(),
        ensures
            r == self.app_out_of_view(pid, *sur),
    {
        let wids: Vec<WindowId> = self.window_manager.window_ids_for_pid(pid);
        let mut i: usize = 0;
        while i < wids.len()
            invariant
                self.wf(),
                i <= wids@.len(),
                forall|w: WindowId| #[trigger]
                    wids@.contains(w) <==> self.window_manager.windows@.contains_key(w) && w.pid
                        == pid,
                forall|j: int| 0 <= j < i ==> !self.out_of_view(#[trigger] wids@[j], *sur),
            decreases wids@.len() - i,
        {
            if self.is_out_of_view(wids[i], sur) {
                assert(wids@.contains(wids@[i as int]));
                return true;
            }
            i += 1;
        }
        proof {
            assert forall|wid: WindowId| #[trigger]
                self.window_manager.windows@.contains_key(wid) && wid.pid
                    == pid implies !self.out_of_view(wid, *sur) by {
                assert(wids@.contains(wid));
            }
        }
        false
    }

    /// Whether the window under the cursor is one of the application's that
    /// the layout may not hold.
    pub open spec fn clicked_unmanageable(&self, pid: pid_t, sur: Surroundings) -> bool {
        self.under_cursor(sur) matches Some(wid) && wid.pid == pid
            && self.window_manager.windows@.contains_key(wid) && !self.layout_may_hold(wid)
    }

    pub fn activation_from_unmanageable_window(&self, pid: pid_t, sur: &Surroundings) -> (r: Option<
        WindowServerId,
    >)
        ensures
            r == if self.clicked_unmanageable(pid, *sur) {
                sur.window_under_cursor
            } else {
                None
            },
    {
        match self.window_id_under_cursor(sur) {
            Some(wid) => match self.window_manager.window(wid) {
                Some(w) => if wid.pid == pid && !w.matches_filter(
                    WindowFilter::EffectivelyManageable,
                ) {
                    sur.window_under_cursor
                } else {
                    None
                },
                None => None,
            },
            None => None,
        }
    }

    /// Whether automatic switches are held back for now.
    pub open spec fn holds_back_switches(&self, sur: Surroundings) -> bool {
        let m = self.workspace_switch_manager;
        ||| m.suppress_auto_workspace_switch_until_input
        ||| m.active_workspace_switch is Some
        ||| m.workspace_switch_state == WorkspaceSwitchState::Active
            && m.pending_workspace_switch_origin == Some(WorkspaceSwitchOrigin::Manual)
        ||| (sur.active_space matches Some(space) && sur.fullscreen_spaces@.contains(space))
    }

    /// Whether an application may switch workspaces by coming to the front.
    pub open spec fn may_switch_for(&self, pid: pid_t) -> bool {
        self.app_manager.apps@.contains_key(pid) && (self.app_manager.apps@[pid].info.bundle_id
            matches Some(bundle) && !is_listed(
            self.config.settings.auto_focus_blacklist@,
            bundle@,
        ))
    }

    fn can_switch_for(&self, pid: pid_t) -> (r: bool)
        ensures
            r == self.may_switch_for(pid),
    {
        match self.app_manager.apps.get(pid) {
            Some(app) => match &app.info.bundle_id {
                Some(bundle) => !lists(&self.config.settings.auto_focus_blacklist, bundle),
                None => false,
            },
            None => false,
        }
    }

    /// The window that an application comes to the front with: the preferred,
    /// the main one, the first.
    pub open spec fn window_in_front(&self, pid: pid_t, preferred: Option<WindowId>) -> Option<
        WindowId,
    > {
        if preferred matches Some(wid) && wid.pid == pid && self.layout_may_hold(wid) {
            preferred
        } else if self.main_wid() matches Some(wid) && wid.pid == pid && self.layout_may_hold(wid) {
            self.main_wid()
        } else {
            first_match(
                self.window_manager.windows.order().filter(|w: WindowId| w.pid == pid),
                |w: WindowId| self.layout_may_hold(w),
            )
        }
    }

    fn find_window_in_front(&self, pid: pid_t, preferred: Option<WindowId>) -> (r: Option<WindowId>)
        ensures
            r == self.window_in_front(pid, preferred),
    {
        if let Some(wid) = preferred {
            if wid.pid == pid && self.window_is_standard(wid) {
                return preferred;
            }
        }
        if let Some(wid) = self.main_window() {
            if wid.pid == pid && self.window_is_standard(wid) {
                return Some(wid);
            }
        }
        self.first_standard_window(pid)
    }

    /// An application's first window that the layout may hold.
    fn first_standard_window(&self, pid: pid_t) -> (r: Option<WindowId>)
        ensures
            r == first_match(
                self.window_manager.windows.order().filter(|w: WindowId| w.pid == pid),
                |w: WindowId| self.layout_may_hold(w),
            ),
    {
        let wids: Vec<WindowId> = self.window_manager.window_ids_for_pid(pid);
        let ghost pred = |w: WindowId| self.layout_may_hold(w);
        let mut i: usize = 0;
        while i < wids.len()
            invariant
                i <= wids@.len(),
                wids@ == self.window_manager.windows.order().filter(|w: WindowId| w.pid == pid),
                pred == (|w: WindowId| self.layout_may_hold(w)),
                forall|j: int| 0 <= j < i ==> !pred(#[trigger] wids@[j]),
            decreases wids@.len() - i,
        {
            if self.window_is_standard(wids[i]) {
                proof {
                    lemma_first_index(wids@, pred, i as int);
                }
                return Some(wids[i]);
            }
            i += 1;
        }
        proof {
            lemma_no_match(wids@, pred);
        }
        None
    }

    /// The workspace to switch to for a window, with the space it is on.
    pub open spec fn switch_for_window(&self, wid: WindowId, sur: Surroundings) -> Option<
        (SpaceId, WorkspaceNumber),
    > {
        match self.intended_space_of(wid, sur) {
            Some(space) => match self.assigned_workspace(wid) {
                Some(workspace) => match self.shown_workspace(space) {
                    Some(shown) => if workspace != shown {
                        match self.number_of(workspace) {
                            Some(number) => Some((space, number)),
                            None => None,
                        }
                    } else {
                        None
                    },
                    None => None,
                },
                None => None,
            },
            None => None,
        }
    }

    fn find_switch_for_window(&self, wid: WindowId, sur: &Surroundings) -> (r: Option<
        (SpaceId, WorkspaceNumber),
    >)
        requires
            self.wf(),
        ensures
            r == self.switch_for_window(wid, *sur),
    {
        match self.intended_space_for_window_id(wid, sur) {
            Some(space) => match self.workspace_for_window(wid) {
                Some(workspace) => match self.active_workspace_for_space(space) {
                    Some(shown) => if workspace != shown {
                        match self.workspace_number(workspace) {
                            Some(number) => Some((space, number)),
                            None => None,
                        }
                    } else {
                        None
                    },
                    None => None,
                },
                None => None,
            },
            None => None,
        }
    }

    /// What an application's coming to the front leads to: its window, the
    /// space and the workspace to bring into view.
    pub open spec fn switch_on_activation(
        &self,
        pid: pid_t,
        preferred: Option<WindowId>,
        sur: Surroundings,
    ) -> Option<(WindowId, SpaceId, WorkspaceNumber)> {
        if self.holds_back_switches(sur) || (self.clicked_unmanageable(pid, sur)
            && !self.app_out_of_view(pid, sur)) || self.app_in_view(pid, preferred, sur)
            || !self.may_switch_for(pid) {
            None
        } else {
            match self.window_in_front(pid, preferred) {
                Some(wid) => match self.switch_for_window(wid, sur) {
                    Some((space, number)) => Some((wid, space, number)),
                    None => None,
                },
                None => None,
            }
        }
    }

    fn plan_switch_on_activation(
        &self,
        pid: pid_t,
        preferred: Option<WindowId>,
        sur: &Surroundings,
    ) -> (r: Option<(WindowId, SpaceId, WorkspaceNumber)>)
        requires
            self.wf(),
        ensures
            r == self.switch_on_activation(pid, preferred, *sur),
    {
        if self.workspace_switch_manager.suppress_auto_workspace_switch_until_input
            || self.workspace_switch_manager.active_workspace_switch.is_some()
            || self.workspace_switch_manager.manual_switch_in_progress() {
            return None;
        }
        if let Some(space) = sur.active_space {
            if sur.space_is_fullscreen(space) {
                return None;
            }
        }
        if self.activation_from_unmanageable_window(pid, sur).is_some()
            && !self.has_manageable_window_on_inactive_workspace(pid, sur) {
            return None;
        }
        if self.is_app_in_view(pid, preferred, sur) || !self.can_switch_for(pid) {
            return None;
        }
        match self.find_window_in_front(pid, preferred) {
            Some(wid) => match self.find_switch_for_window(wid, sur) {
                Some((space, number)) => Some((wid, space, number)),
                None => None,
            },
            None => None,
        }
    }

    /// Begins the switch to a window's workspace.
    fn switch_to(&mut self, window: WindowId, space: SpaceId, number: WorkspaceNumber) -> (r: Vec<
        Task,
    >)
        ensures
            old(self).wf() ==> final(self).wf(),
            *final(self) == (Reactor {
                workspace_switch_manager: final(self).workspace_switch_manager,
                ..*old(self)
            }),
            final(self).workspace_switch_manager@ == old(self).workspace_switch_manager@.started(
                WorkspaceSwitchOrigin::Auto,
            ),
            r@ == switch_to_tasks(*old(self), window, space, number),
    {
        let tasks: Vec<Task> = self.store_current_floating_positions(Some(space));
        self.workspace_switch_manager.start_workspace_switch(WorkspaceSwitchOrigin::Auto);
        then_task(
            tasks,
            ask_core(
                CoreCommand::Workspace(WorkspaceCommand::Activate(number)),
                Work::AutoSwitched { window, space },
            ),
        )
    }

    /// Follows an application that came to the front to its workspace, unless
    /// it is in view already, only an auxiliary window of it was clicked, or
    /// switches are held back.
    pub fn handle_app_activation_workspace_switch_for_window(
        &mut self,
        pid: pid_t,
        preferred_window: Option<WindowId>,
        sur: &Surroundings,
    ) -> (r: Vec<Task>)
        requires
            old(self).wf(),
        ensures
            final(self).wf(),
            *final(self) == (Reactor {
                workspace_switch_manager: final(self).workspace_switch_manager,
                ..*old(self)
            }),
            match old(self).switch_on_activation(pid, preferred_window, *sur) {
                Some((window, space, number)) => {
                    &&& r@ == switch_to_tasks(*old(self), window, space, number)
                    &&& final(self).workspace_switch_manager@
                        == old(self).workspace_switch_manager@.started(WorkspaceSwitchOrigin::Auto)
                },
                None => {
                    &&& r@.len() == 0
                    &&& *final(self) == *old(self)
                },
            },
    {
        match self.plan_switch_on_activation(pid, preferred_window, sur) {
            Some((window, space, number)) => self.switch_to(window, space, number),
            None => no_tasks(),
        }
    }

    /// The workspace model has answered an automatic switch.
    pub fn auto_switched(
        &mut self,
        reply: Result<Transition, CoreError>,
        window: WindowId,
        space: SpaceId,
    ) -> (r: Vec<Task>)
        requires
            old(self).wf(),
            reply_in_range(reply),
        ensures
            final(self).wf(),
            *final(self) == (Reactor { core: core_after(old(self).core, reply), ..*old(self) }),
            match reply {
                Ok(transition) => r@.len() == 1 && (r@[0] matches Task::Go(
                    Work::Respond(response, s),
                ) && s == Some(space) && response@ == led_by(wanted_by(transition), window)),
                Err(_) => r@.len() == 0,
            },
    {
        match self.core_replied(reply) {
            Some(response) => one_task(
                Task::Go(Work::Respond(lead(response, window), Some(space))),
            ),
            None => no_tasks(),
        }
    }

    /// Whether and how a new window that rules want focused is focused.
    pub open spec fn rule_focus(&self, window: WindowId, sur: Surroundings) -> Option<
        (SpaceId, Option<WorkspaceNumber>),
    > {
        match self.intended_space_of(window, sur) {
            Some(space) => match self.assigned_workspace(window) {
                Some(workspace) => match self.shown_workspace(space) {
                    Some(shown) => if workspace == shown {
                        Some((space, None))
                    } else {
                        match self.number_of(workspace) {
                            Some(number) => Some((space, Some(number))),
                            None => None,
                        }
                    },
                    None => None,
                },
                None => None,
            },
            None => None,
        }
    }

    /// Focuses a new window that rules want focused, on its workspace.
    pub fn focus_new_rule_window(&mut self, window: WindowId, sur: &Surroundings) -> (r: Vec<Task>)
        requires
            old(self).wf(),
        ensures
            final(self).wf(),
            *final(self) == (Reactor {
                workspace_switch_manager: final(self).workspace_switch_manager,
                ..*old(self)
            }),
            match old(self).rule_focus(window, *sur) {
                Some((space, Some(number))) => {
                    &&& r@ == switch_to_tasks(*old(self), window, space, number)
                    &&& final(self).workspace_switch_manager@
                        == old(self).workspace_switch_manager@.started(WorkspaceSwitchOrigin::Auto)
                },
                Some((space, None)) => {
                    &&& r@.len() == 1
                    &&& r@[0] matches Task::Go(Work::Respond(response, s)) && s == Some(space)
                        && response@ == (ResponseModel {
                        raises: seq![window],
                        focus: Some(window),
                        boundary: None,
                    })
                    &&& *final(self) == *old(self)
                },
                None => r@.len() == 0 && *final(self) == *old(self),
            },
    {
        let space: SpaceId = match self.intended_space_for_window_id(window, sur) {
            Some(space) => space,
            None => {
                return no_tasks();
            },
        };
        let workspace: WorkspaceId = match self.workspace_for_window(window) {
            Some(workspace) => workspace,
            None => {
                return no_tasks();
            },
        };
        let shown: WorkspaceId = match self.active_workspace_for_space(space) {
            Some(shown) => shown,
            None => {
                return no_tasks();
            },
        };
        if workspace == shown {
            let response: EventResponse = lead(EventResponse::default(), window);
            assert(response@.raises =~= seq![window]);
            return one_task(Task::Go(Work::Respond(response, Some(space))));
        }
        match self.workspace_number(workspace) {
            Some(number) => self.switch_to(window, space, number),
            None => no_tasks(),
        }
    }
}

/// The tasks that bring a window's workspace into view.
pub open spec fn switch_to_tasks(
    reactor: Reactor,
    window: WindowId,
    space: SpaceId,
    number: WorkspaceNumber,
) -> Seq<Task> {
    store_tasks(reactor, Some(space)).push(
        core_task(
            CoreCommand::Workspace(WorkspaceCommand::Activate(number)),
            Work::AutoSwitched { window, space },
        ),
    )
}

/// Whether a list holds a text.
pub open spec fn is_listed(list: Seq<String>, text: Seq<char>) -> bool {
    exists|i: int| 0 <= i < list.len() && (#[trigger] list[i])@ == text
}

pub fn lists(list: &Vec<String>, text: &String) -> (r: bool)
    ensures
        r == is_listed(list@, text@),
{
    let mut i: usize = 0;
    while i < list.len()
        invariant
            i <= list@.len(),
            forall|j: int| 0 <= j < i ==> (#[trigger] list@[j])@ != text@,
        decreases list@.len() - i,
    {
        if list[i] == *text {
            return true;
        }
        i += 1;
    }
    false
}

/// After the session came back, no application switches workspaces by coming
/// to the front until the user has done something.
pub proof fn law_restored_activation_waits_for_input(
    m: Reactor,
    pid: pid_t,
    preferred: Option<WindowId>,
    sur: Surroundings,
)
    requires
        m.workspace_switch_manager.suppress_auto_workspace_switch_until_input,
    ensures
        m.switch_on_activation(pid, preferred, sur) is None,
{
}

/// An application that is in view never switches workspaces by coming to the
/// front.
pub proof fn law_application_in_view_does_not_switch(m: Reactor, wid: WindowId, sur: Surroundings)
    requires
        m.window_manager.windows@.contains_key(wid),
        m.in_view(wid, sur),
    ensures
        m.switch_on_activation(wid.pid, None, sur) is None,
{
}

/// An automatic switch goes to the workspace of one of the application's own
/// windows, which was out of view.
pub proof fn law_automatic_switch_goes_to_the_window(
    m: Reactor,
    pid: pid_t,
    preferred: Option<WindowId>,
    sur: Surroundings,
)
    ensures
        match m.switch_on_activation(pid, preferred, sur) {
            Some((window, space, number)) => {
                &&& window.pid == pid
                &&& m.out_of_view(window, sur)
                &&& m.assigned_workspace(window) matches Some(workspace) && m.number_of(workspace)
                    == Some(number)
            },
            None => true,
        },
{
    let own = m.window_manager.windows.order().filter(|w: WindowId| w.pid == pid);
    let pred = |w: WindowId| m.layout_may_hold(w);
    if let Some(window) = first_match(own, pred) {
        let i = first_index(own, pred)->0;
        assert(first_at(own, pred, i)) by {
            assert(exists|k: int| first_at(own, pred, k));
        }
        lemma_filter_members(
            m.window_manager.windows.order(),
            |w: WindowId| w.pid == pid,
        );
        assert(own.contains(own[i]));
    }
}

/// Which window an automatic switch is for: the preferred one if it is the
/// application's and one that the layout may hold; or else the main window if
/// that is; or else, if neither is, another window of the application that
/// the layout may hold.
pub proof fn law_automatic_switch_prefers_the_chosen_window(
    m: Reactor,
    pid: pid_t,
    preferred: Option<WindowId>,
    sur: Surroundings,
)
    ensures
        m.switch_on_activation(pid, preferred, sur) matches Some((window, _, _)) ==> {
            let windows = m.window_manager.windows@;
            let qualifies = |w: WindowId|
                w.pid == pid && windows.contains_key(w) && windows[w].is_manageable
                    && !windows[w].ignore_app_rule;
            let main = m.main_window_tracker@.main_window();
            &&& qualifies(window)
            &&& preferred is Some && qualifies(preferred->0) ==> Some(window) == preferred
            &&& !(preferred is Some && qualifies(preferred->0)) && main is Some && qualifies(
                main->0,
            ) ==> Some(window) == main
        },
{
    let order = m.window_manager.windows.order();
    let mine = |w: WindowId| w.pid == pid;
    let pred = |w: WindowId| m.layout_may_hold(w);
    lemma_filter_members(order, mine);
    lemma_first(order.filter(mine), pred);
    if let Some(k) = first_index(order.filter(mine), pred) {
        assert(order.filter(mine).contains(order.filter(mine)[k]));
    }
}

/// An activation leads to no automatic switch while switches wait for input,
/// while one is under way, while the user's own is, or while a fullscreen
/// space is active; nor for an application that has no bundle id or whose
/// bundle id is on the list of those that take no focus.
pub proof fn law_automatic_switch_is_held_back(
    m: Reactor,
    pid: pid_t,
    preferred: Option<WindowId>,
    sur: Surroundings,
    i: int,
)
    requires
        ({
            let s = m.workspace_switch_manager;
            let apps = m.app_manager.apps@;
            let list = m.config.settings.auto_focus_blacklist@;
            ||| s.suppress_auto_workspace_switch_until_input
            ||| s.active_workspace_switch is Some
            ||| s.workspace_switch_state == WorkspaceSwitchState::Active
                && s.pending_workspace_switch_origin == Some(WorkspaceSwitchOrigin::Manual)
            ||| (sur.active_space matches Some(space) && sur.fullscreen_spaces@.contains(space))
            ||| !apps.contains_key(pid)
            ||| apps[pid].info.bundle_id is None
            ||| 0 <= i < list.len() && list[i]@ == apps[pid].info.bundle_id->0@
        }),
    ensures
        m.switch_on_activation(pid, preferred, sur) is None,
{
}

/// When nothing holds a switch back, no window of the application is in view
/// and none that the layout may not hold is under the cursor, the activation
/// switches to the main window's workspace if that window is the
/// application's, the layout may hold it, and its workspace has a number and
/// is not the one that its space shows.
pub proof fn law_activation_brings_the_main_window_into_view(
    m: Reactor,
    window: WindowId,
    space: SpaceId,
    workspace: WorkspaceId,
    sur: Surroundings,
)
    requires
        ({
            let s = m.workspace_switch_manager;
            &&& !s.suppress_auto_workspace_switch_until_input
            &&& s.active_workspace_switch is None
            &&& s.workspace_switch_state == WorkspaceSwitchState::Inactive
            &&& sur.active_space matches Some(a) ==> !sur.fullscreen_spaces@.contains(a)
        }),
        m.app_manager.apps@.contains_key(window.pid),
        m.app_manager.apps@[window.pid].info.bundle_id matches Some(bundle) && forall|i: int|
            0 <= i < m.config.settings.auto_focus_blacklist@.len() ==> (
            #[trigger] m.config.settings.auto_focus_blacklist@[i])@ != bundle@,
        sur.window_under_cursor is None,
        m.main_window_tracker@.main_window() == Some(window),
        m.window_manager.windows@.contains_key(window),
        m.window_manager.windows@[window].is_manageable,
        !m.window_manager.windows@[window].ignore_app_rule,
        forall|w: WindowId| #[trigger]
            m.window_manager.windows@.contains_key(w) && w.pid == window.pid ==> !(
            m.intended_space_of(w, sur) matches Some(at) && m.active_spaces@.contains(at)
                && m.shown_workspace(at) is Some && m.assigned_workspace(w) == m.shown_workspace(
                at,
            )),
        m.intended_space_of(window, sur) == Some(space),
        m.assigned_workspace(window) == Some(workspace),
        m.shown_workspace(space) is Some,
        m.shown_workspace(space) != Some(workspace),
        m.number_of(workspace) is Some,
    ensures
        m.switch_on_activation(window.pid, None, sur) == Some(
            (window, space, m.number_of(workspace)->0),
        ),
{
    assert(!m.app_in_view(window.pid, None, sur));
}

/// A new window that rules want focused is focused where it is if its
/// workspace is in view, and otherwise after a switch to that workspace; a
/// window without a workspace, or on a space that shows none, is left.
pub proof fn law_rule_focus_follows_the_window_to_its_workspace(
    m: Reactor,
    window: WindowId,
    space: SpaceId,
    workspace: WorkspaceId,
    shown: WorkspaceId,
    sur: Surroundings,
)
    ensures
        m.intended_space_of(window, sur) is None ==> m.rule_focus(window, sur) is None,
        m.assigned_workspace(window) is None ==> m.rule_focus(window, sur) is None,
        m.intended_space_of(window, sur) == Some(space) && m.shown_workspace(space) is None
            ==> m.rule_focus(window, sur) is None,
        m.intended_space_of(window, sur) == Some(space) && m.assigned_workspace(window) == Some(
            workspace,
        ) && m.shown_workspace(space) == Some(workspace) ==> m.rule_focus(window, sur) == Some(
            (space, None::<WorkspaceNumber>),
        ),
        m.intended_space_of(window, sur) == Some(space) && m.assigned_workspace(window) == Some(
            workspace,
        ) && m.shown_workspace(space) == Some(shown) && shown != workspace && m.number_of(workspace)
            is Some ==> m.rule_focus(window, sur) == Some((space, m.number_of(workspace))),
        m.intended_space_of(window, sur) == Some(space) && m.assigned_workspace(window) == Some(
            workspace,
        ) && m.shown_workspace(space) == Some(shown) && shown != workspace && m.number_of(workspace)
            is None ==> m.rule_focus(window, sur) is None,
{
}

/// A switch for a window leaves the window focused and raised once, whatever
/// else is raised, and keeps what was to be raised before it in place.
pub proof fn law_leading_window_is_focused_and_raised_once(m: ResponseModel, window: WindowId)
    requires
        m.raises.no_duplicates(),
    ensures
        led_by(m, window).focus == Some(window),
        led_by(m, window).boundary == m.boundary,
        led_by(m, window).raises.contains(window),
        led_by(m, window).raises.no_duplicates(),
        m.raises.is_prefix_of(led_by(m, window).raises),
        forall|w: WindowId| #[trigger]
            led_by(m, window).raises.contains(w) ==> w == window || m.raises.contains(w),
{
    let raises = led_by(m, window).raises;
    if !m.raises.contains(window) {
        assert(raises.last() == window);
        assert forall|w: WindowId| #[trigger] raises.contains(w) implies w == window
            || m.raises.contains(w) by {
            let k = raises.index_of(w);
            if k < m.raises.len() {
                assert(m.raises[k] == w);
            }
        }
    }
}

/// A window is in view if it is meant for a managed space and assigned to the
/// workspace that the space shows; out of view if the layout may hold it and
/// its workspace is not the one that its space shows. An application is in
/// view with any of its windows, or with the preferred one if it is named.
pub proof fn law_windows_in_and_out_of_view(
    m: Reactor,
    wid: WindowId,
    preferred: Option<WindowId>,
    sur: Surroundings,
)
    ensures
        m.in_view(wid, sur) <==> (m.intended_space_of(wid, sur) matches Some(space)
            && m.active_spaces@.contains(space) && m.shown_workspace(space) is Some
            && m.assigned_workspace(wid) == m.shown_workspace(space)),
        m.out_of_view(wid, sur) <==> m.window_manager.windows@.contains_key(wid)
            && m.window_manager.windows@[wid].is_manageable
            && !m.window_manager.windows@[wid].ignore_app_rule && m.assigned_workspace(wid) is Some
            && (m.intended_space_of(wid, sur) matches Some(space) && m.shown_workspace(space)
            != m.assigned_workspace(wid)),
        m.window_manager.windows@.contains_key(wid) && m.in_view(wid, sur) ==> m.app_in_view(
            wid.pid,
            None,
            sur,
        ) && m.app_in_view(wid.pid, Some(wid), sur),
        preferred is Some && !m.in_view(preferred->0, sur) ==> !m.app_in_view(
            wid.pid,
            preferred,
            sur,
        ),
        m.window_manager.windows@.contains_key(wid) && m.out_of_view(wid, sur)
            ==> m.app_out_of_view(wid.pid, sur),
        m.app_out_of_view(wid.pid, sur) ==> exists|w: WindowId| #[trigger]
            m.window_manager.windows@.contains_key(w) && w.pid == wid.pid && m.out_of_view(w, sur),
{
}

/// A click on a window that the layout may not hold does not switch, unless
/// the application has a window on a workspace out of view.
pub proof fn law_click_on_an_unmanaged_window_does_not_switch(
    m: Reactor,
    wsid: WindowServerId,
    wid: WindowId,
    preferred: Option<WindowId>,
    sur: Surroundings,
)
    requires
        sur.window_under_cursor == Some(wsid),
        m.window_manager.window_ids@.contains_key(wsid),
        m.window_manager.window_ids@[wsid] == wid,
        m.window_manager.windows@.contains_key(wid),
        !m.window_manager.windows@[wid].is_manageable
            || m.window_manager.windows@[wid].ignore_app_rule,
        forall|w: WindowId| #[trigger]
            m.window_manager.windows@.contains_key(w) && w.pid == wid.pid ==> !m.out_of_view(w, sur),
    ensures
        m.switch_on_activation(wid.pid, preferred, sur) is None,
{
}

} // verus!
