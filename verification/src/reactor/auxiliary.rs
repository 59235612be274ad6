//! Windows expanded by a click on an auxiliary one: they belong where the
//! click was.

use vstd::prelude::*;

use crate::app::WindowId;
use crate::event::WindowServerInfo;
use crate::geometry::Point;
use crate::ids::{pid_t, SpaceId};
use crate::model::{
    CoreCommand, CoreError, Transition, WorkspaceCommand, WorkspaceId, WorkspaceNumber,
};
use crate::reactor::activation::{switch_to_tasks, AUXILIARY_WINDOW_EXPANSION_TIMEOUT};
use crate::reactor::layout_response::{is_ordinary_surface, untracked_window_is_focusable};
use crate::reactor::managers::{
    AuxiliaryWindowWorkspaceTarget, RecentWorkspaceTarget, RefocusManager, SwitchModel,
    WorkspaceSwitchOrigin,
};
use crate::reactor::screens::{space_at, space_for_point};
use crate::reactor::spaces::RECENT_WORKSPACE_TARGET_TIMEOUT;
use crate::reactor::surroundings::Surroundings;
use crate::reactor::task::{
    ask_core, core_task, no_tasks, one_task, CoreInput, Question, Task, Work,
};
use crate::reactor::transition::{core_after, reply_in_range};
use crate::reactor::Reactor;

verus! {

/// What became of a window that may have been expanded by a click.
#[derive(Copy, Clone, Debug, PartialEq, Eq, Structural)]
pub enum Expansion {
    /// There was no such click.
    Unrelated,
    /// It is where the click was.
    Placed,
    /// It has to be moved there.
    Move(WorkspaceNumber),
}

impl Reactor {
    /// The application whose auxiliary window was clicked. A window that is
    /// not tracked and above the ordinary ones counts only if the application
    /// has a window on a workspace out of view: menus and system surfaces are
    /// left out.
    pub open spec fn auxiliary_app(&self, info: WindowServerInfo, sur: Surroundings) -> Option<
        pid_t,
    > {
        match self.window_manager.tracked_spec(info.id) {
            Some(wid) => if self.window_manager.windows@.contains_key(wid) && !self.layout_may_hold(
                wid,
            ) {
                Some(wid.pid)
            } else {
                None
            },
            None => if is_ordinary_surface(info) || self.app_out_of_view(info.pid, sur) {
                Some(info.pid)
            } else {
                None
            },
        }
    }

    /// What a click tells of where an application's window is to expand.
    pub open spec fn clicked_target(
        &self,
        info: Option<WindowServerInfo>,
        point: Point,
        sur: Surroundings,
    ) -> Option<AuxiliaryWindowWorkspaceTarget> {
        match info {
            Some(i) => match self.auxiliary_app(i, sur) {
                Some(pid) => if self.app_manager.apps@.contains_key(pid) {
                    match space_at(self.space_manager.screens@, point) {
                        Some(space) => match self.shown_workspace(space) {
                            Some(workspace_id) => Some(
                                AuxiliaryWindowWorkspaceTarget {
                                    pid,
                                    space,
                                    workspace_id,
                                    expires_at: (sur.now
                                        + AUXILIARY_WINDOW_EXPANSION_TIMEOUT) as u64,
                                },
                            ),
                            None => None,
                        },
                        None => None,
                    }
                } else {
                    None
                },
                None => None,
            },
            None => None,
        }
    }

    fn find_auxiliary_app(&self, info: &WindowServerInfo, sur: &Surroundings) -> (r: Option<pid_t>)
        requires
            self.wf(),
        ensures
            r == self.auxiliary_app(*info, *sur),
    {
        match self.window_manager.tracked_window_id(info.id) {
            Some(wid) => if self.window_manager.windows.contains_key(wid)
                && !self.window_is_standard(wid) {
                Some(wid.pid)
            } else {
                None
            },
            None => if untracked_window_is_focusable(info)
                || self.has_manageable_window_on_inactive_workspace(info.pid, sur) {
                Some(info.pid)
            } else {
                None
            },
        }
    }

    /// Remembers a click on an auxiliary window; any other click makes one
    /// forgotten.
    pub fn capture_auxiliary_window_workspace_target(
        &mut self,
        info: Option<WindowServerInfo>,
        point: Point,
        sur: &Surroundings,
    )
        requires
            old(self).wf(),
            sur.wf(),
            point.in_range(),
        ensures
            final(self).wf(),
            *final(self) == (Reactor {
                refocus_manager: RefocusManager {
                    auxiliary_window_workspace_target: old(self).clicked_target(info, point, *sur),
                    ..old(self).refocus_manager
                },
                ..*old(self)
            }),
    {
        let target: Option<AuxiliaryWindowWorkspaceTarget> = match info {
            Some(i) => match self.find_auxiliary_app(&i, sur) {
                Some(pid) => if self.app_manager.apps.contains_key(pid) {
                    match space_for_point(&self.space_manager.screens, point) {
                        Some(space) => match self.active_workspace_for_space(space) {
                            Some(workspace_id) => Some(
                                AuxiliaryWindowWorkspaceTarget {
                                    pid,
                                    space,
                                    workspace_id,
                                    expires_at: sur.now + AUXILIARY_WINDOW_EXPANSION_TIMEOUT,
                                },
                            ),
                            None => None,
                        },
                        None => None,
                    }
                } else {
                    None
                },
                None => None,
            },
            None => None,
        };
        self.refocus_manager.auxiliary_window_workspace_target = target;
    }

    /// The remembered click, while it is fresh and its workspace in view.
    pub open spec fn fresh_auxiliary_target(&self, now: u64) -> Option<
        AuxiliaryWindowWorkspaceTarget,
    > {
        match self.refocus_manager.auxiliary_window_workspace_target {
            Some(target) => if now <= target.expires_at && self.shown_workspace(target.space)
                == Some(target.workspace_id) {
                Some(target)
            } else {
                None
            },
            None => None,
        }
    }

    /// The remembered click on an application's auxiliary window.
    pub open spec fn auxiliary_target(&self, pid: pid_t, now: u64) -> Option<
        AuxiliaryWindowWorkspaceTarget,
    > {
        match self.fresh_auxiliary_target(now) {
            Some(target) => if target.pid == pid {
                Some(target)
            } else {
                None
            },
            None => None,
        }
    }

    /// The remembered click once one application has used it.
    pub open spec fn auxiliary_target_left(&self, pid: pid_t, now: u64) -> Option<
        AuxiliaryWindowWorkspaceTarget,
    > {
        if self.auxiliary_target(pid, now) is Some {
            None
        } else {
            self.fresh_auxiliary_target(now)
        }
    }

    /// Uses the remembered click on an application's auxiliary window up.
    pub fn take_auxiliary_window_workspace_target(&mut self, pid: pid_t, now: u64) -> (r: Option<
        AuxiliaryWindowWorkspaceTarget,
    >)
        ensures
            old(self).wf() ==> final(self).wf(),
            r == old(self).auxiliary_target(pid, now),
            *final(self) == (Reactor {
                refocus_manager: RefocusManager {
                    auxiliary_window_workspace_target: old(self).auxiliary_target_left(pid, now),
                    ..old(self).refocus_manager
                },
                ..*old(self)
            }),
    {
        let target: AuxiliaryWindowWorkspaceTarget =
            match self.refocus_manager.auxiliary_window_workspace_target {
            Some(target) => target,
            None => {
                return None;
            },
        };
        let shown: bool = match self.active_workspace_for_space(target.space) {
            Some(workspace) => workspace == target.workspace_id,
            None => false,
        };
        if now > target.expires_at || !shown {
            self.refocus_manager.auxiliary_window_workspace_target = None;
            return None;
        }
        if target.pid != pid {
            return None;
        }
        self.refocus_manager.auxiliary_window_workspace_target = None;
        Some(target)
    }

    /// Where a window goes if a click on an auxiliary window of its
    /// application is remembered.
    pub open spec fn expansion(&self, window: WindowId, now: u64) -> Expansion {
        match self.auxiliary_target(window.pid, now) {
            Some(target) => if !self.layout_may_hold(window) {
                Expansion::Unrelated
            } else if self.assigned_workspace(window) == Some(target.workspace_id) {
                Expansion::Placed
            } else {
                match self.number_of(target.workspace_id) {
                    Some(number) => Expansion::Move(number),
                    None => Expansion::Unrelated,
                }
            },
            None => Expansion::Unrelated,
        }
    }

    /// The remembered targets after a window may have been expanded.
    pub open spec fn targets_after_expansion(&self, window: WindowId, now: u64) -> Map<
        WindowId,
        RecentWorkspaceTarget,
    > {
        match self.auxiliary_target(window.pid, now) {
            Some(target) => if self.layout_may_hold(window) {
                self.with_recent_target(window, Some((target.space, target.workspace_id)), now)
            } else {
                self.refocus_manager.recent_workspace_targets@
            },
            None => self.refocus_manager.recent_workspace_targets@,
        }
    }

    /// Uses a remembered click up for a window that it expanded.
    pub fn move_window_to_auxiliary_click_workspace(&mut self, window: WindowId, now: u64) -> (r:
        Expansion)
        requires
            old(self).wf(),
            now <= u64::MAX - RECENT_WORKSPACE_TARGET_TIMEOUT,
        ensures
            final(self).wf(),
            r == old(self).expansion(window, now),
            final(self).refocus_manager.recent_workspace_targets@
                == old(self).targets_after_expansion(window, now),
            *final(self) == (Reactor {
                refocus_manager: RefocusManager {
                    auxiliary_window_workspace_target: old(self).auxiliary_target_left(
                        window.pid,
                        now,
                    ),
                    recent_workspace_targets:
                        final(self).refocus_manager.recent_workspace_targets,
                    ..old(self).refocus_manager
                },
                ..*old(self)
            }),
    {
        let target: AuxiliaryWindowWorkspaceTarget =
            match self.take_auxiliary_window_workspace_target(window.pid, now) {
            Some(target) => target,
            None => {
                return Expansion::Unrelated;
            },
        };
        if !self.window_is_standard(window) {
            return Expansion::Unrelated;
        }
        let ghost middle = *self;
        let _ = self.remember_recent_workspace_target_for(
            window,
            target.space,
            target.workspace_id,
            now,
        );
        let placed: bool = match self.workspace_for_window(window) {
            Some(workspace) => workspace == target.workspace_id,
            None => false,
        };
        if placed {
            return Expansion::Placed;
        }
        match self.workspace_number(target.workspace_id) {
            Some(number) => Expansion::Move(number),
            None => Expansion::Unrelated,
        }
    }

    /// The main window of an application, as far as it said.
    pub open spec fn main_of_app(&self, pid: pid_t) -> Option<WindowId> {
        if self.main_window_tracker@.apps.contains_key(pid) {
            self.main_window_tracker@.apps[pid].main_window
        } else {
            None
        }
    }

    /// An application came to the front: if a click on an auxiliary window
    /// brought it there, its main window goes to where the click was;
    /// otherwise its workspace may come into view.
    pub fn handle_activation(&mut self, pid: pid_t, global: bool, now: u64) -> (r: Vec<Task>)
        requires
            old(self).wf(),
            now <= u64::MAX - RECENT_WORKSPACE_TARGET_TIMEOUT,
        ensures
            final(self).wf(),
            match old(self).main_of_app(pid) {
                Some(window) => {
                    &&& r@ == match old(self).expansion(window, now) {
                        Expansion::Placed => Seq::empty(),
                        Expansion::Move(workspace) => seq![
                            core_task(
                                CoreCommand::Workspace(
                                    WorkspaceCommand::MoveWindow {
                                        workspace,
                                        window: Some(window),
                                    },
                                ),
                                Work::AuxiliaryMoved { pid, global },
                            ),
                        ],
                        Expansion::Unrelated => seq![Task::Go(Work::Activated { pid, global })],
                    }
                    &&& final(self).refocus_manager.recent_workspace_targets@
                        == old(self).targets_after_expansion(window, now)
                    &&& *final(self) == (Reactor {
                        refocus_manager: RefocusManager {
                            auxiliary_window_workspace_target: old(self).auxiliary_target_left(
                                window.pid,
                                now,
                            ),
                            recent_workspace_targets:
                                final(self).refocus_manager.recent_workspace_targets,
                            ..old(self).refocus_manager
                        },
                        ..*old(self)
                    })
                },
                None => r@ == seq![Task::Go(Work::Activated { pid, global })] && *final(self)
                    == *old(self),
            },
    {
        let window: WindowId = match self.main_window_tracker.main_window_for_pid(pid) {
            Some(window) => window,
            None => {
                return one_task(Task::Go(Work::Activated { pid, global }));
            },
        };
        match self.move_window_to_auxiliary_click_workspace(window, now) {
            Expansion::Placed => no_tasks(),
            Expansion::Move(workspace) => one_task(
                ask_core(
                    CoreCommand::Workspace(
                        WorkspaceCommand::MoveWindow { workspace, window: Some(window) },
                    ),
                    Work::AuxiliaryMoved { pid, global },
                ),
            ),
            Expansion::Unrelated => one_task(Task::Go(Work::Activated { pid, global })),
        }
    }

    /// The workspace model has moved an expanded window, or not.
    pub fn auxiliary_moved(
        &mut self,
        reply: Result<Transition, CoreError>,
        pid: pid_t,
        global: bool,
    ) -> (r: Vec<Task>)
        requires
            old(self).wf(),
            reply_in_range(reply),
        ensures
            final(self).wf(),
            *final(self) == (Reactor { core: core_after(old(self).core, reply), ..*old(self) }),
            r@ == match reply {
                Ok(_) => Seq::empty(),
                Err(_) => seq![Task::Go(Work::Activated { pid, global })],
            },
    {
        match self.core_replied(reply) {
            Some(_) => no_tasks(),
            None => one_task(Task::Go(Work::Activated { pid, global })),
        }
    }

    /// Nothing but its activation speaks for an application: one that the
    /// window manager itself caused is ignored.
    pub fn handle_plain_activation(&mut self, pid: pid_t, global: bool, sur: &Surroundings) -> (r:
        Vec<Task>)
        requires
            old(self).wf(),
        ensures
            final(self).wf(),
            *final(self) == (Reactor {
                workspace_switch_manager: final(self).workspace_switch_manager,
                ..*old(self)
            }),
            plainly_activated(
                *old(self),
                *final(self),
                r@,
                pid,
                global,
                *sur,
            ),
    {
        if global && self.workspace_switch_manager.should_suppress_global_activation(pid, sur.now) {
            return no_tasks();
        }
        proof {
            lemma_same_activation(*old(self), *self, pid, *sur);
        }
        self.handle_app_activation_workspace_switch_for_window(pid, None, sur)
    }
}

/// Which activations are expected does not bear on what an activation leads
/// to.
proof fn lemma_same_activation(before: Reactor, after: Reactor, pid: pid_t, sur: Surroundings)
    requires
        after == (Reactor { workspace_switch_manager: after.workspace_switch_manager, ..before }),
        after.workspace_switch_manager@ == (SwitchModel {
            deadlines: after.workspace_switch_manager@.deadlines,
            ..before.workspace_switch_manager@
        }),
    ensures
        after.switch_on_activation(pid, None, sur) == before.switch_on_activation(pid, None, sur),
        forall|window: WindowId, space: SpaceId, number: WorkspaceNumber|
            switch_to_tasks(after, window, space, number) == switch_to_tasks(
                before,
                window,
                space,
                number,
            ),
{
    assert forall|wid: WindowId| after.in_view(wid, sur) == before.in_view(wid, sur) by {}
    assert forall|wid: WindowId| after.out_of_view(wid, sur) == before.out_of_view(wid, sur) by {}
    assert(after.app_in_view(pid, None, sur) == before.app_in_view(pid, None, sur));
    assert(after.app_out_of_view(pid, sur) == before.app_out_of_view(pid, sur));
    assert((|w: WindowId| after.layout_may_hold(w)) =~= (|w: WindowId| before.layout_may_hold(w)));
    assert(after.window_in_front(pid, None) == before.window_in_front(pid, None));
}

/// A click that was used up, has expired, or whose workspace is out of view
/// places no window.
pub proof fn law_click_is_used_once(m: Reactor, pid: pid_t, now: u64)
    ensures
        m.auxiliary_target_left(pid, now) matches Some(target) ==> target.pid != pid && now
            <= target.expires_at,
{
}

/// A click on an ordinary managed window is never taken for one on an
/// auxiliary window.
pub proof fn law_managed_window_is_not_auxiliary(
    m: Reactor,
    info: WindowServerInfo,
    wid: WindowId,
    point: Point,
    sur: Surroundings,
)
    requires
        m.window_manager.tracked_spec(info.id) == Some(wid),
        m.layout_may_hold(wid),
    ensures
        m.clicked_target(Some(info), point, sur) is None,
{
}

/// A surface above the ordinary windows is not taken for an auxiliary window
/// unless the application has a window out of view.
pub proof fn law_elevated_surface_without_hidden_window_is_ignored(
    m: Reactor,
    info: WindowServerInfo,
    point: Point,
    sur: Surroundings,
)
    requires
        m.window_manager.tracked_spec(info.id) is None,
        info.layer != 0,
        !m.app_out_of_view(info.pid, sur),
    ensures
        m.clicked_target(Some(info), point, sur) is None,
{
}

/// A click on an untracked ordinary window of a known application is
/// remembered for three seconds, with the workspace that is in view where the
/// click was.
pub proof fn law_auxiliary_click_is_remembered_where_it_was(
    m: Reactor,
    info: WindowServerInfo,
    point: Point,
    space: SpaceId,
    workspace: WorkspaceId,
    sur: Surroundings,
)
    requires
        !m.window_manager.window_ids@.contains_key(info.id),
        info.layer == 0,
        space_at(m.space_manager.screens@, point) == Some(space),
        m.shown_workspace(space) == Some(workspace),
        sur.now + 3000 <= u64::MAX,
    ensures
        m.app_manager.apps@.contains_key(info.pid) ==> m.clicked_target(Some(info), point, sur)
            == Some(
            AuxiliaryWindowWorkspaceTarget {
                pid: info.pid,
                space,
                workspace_id: workspace,
                expires_at: (sur.now + 3000) as u64,
            },
        ),
        !m.app_manager.apps@.contains_key(info.pid) ==> m.clicked_target(Some(info), point, sur)
            is None,
        m.clicked_target(None, point, sur) is None,
{
}

/// A click on a tracked window that the layout may not hold is its
/// application's.
pub proof fn law_click_on_an_unmanaged_window_is_its_applications(
    m: Reactor,
    info: WindowServerInfo,
    wid: WindowId,
    sur: Surroundings,
)
    requires
        m.window_manager.window_ids@.contains_key(info.id),
        m.window_manager.window_ids@[info.id] == wid,
        m.window_manager.windows@.contains_key(wid),
    ensures
        !m.window_manager.windows@[wid].is_manageable
            || m.window_manager.windows@[wid].ignore_app_rule ==> m.auxiliary_app(info, sur) == Some(
            wid.pid,
        ),
        m.window_manager.windows@[wid].is_manageable
            && !m.window_manager.windows@[wid].ignore_app_rule ==> m.auxiliary_app(info, sur)
            is None,
{
}

/// A remembered click is used by its own application only, in time, and while
/// its workspace is still in view; then it is forgotten.
pub proof fn law_remembered_click_is_used_in_time(
    m: Reactor,
    target: AuxiliaryWindowWorkspaceTarget,
    pid: pid_t,
    now: u64,
)
    requires
        m.refocus_manager.auxiliary_window_workspace_target == Some(target),
    ensures
        m.auxiliary_target(pid, now) == if pid == target.pid && now <= target.expires_at
            && m.shown_workspace(target.space) == Some(target.workspace_id) {
            Some(target)
        } else {
            None
        },
        m.auxiliary_target(pid, now) is Some ==> m.auxiliary_target_left(pid, now) is None,
        now > target.expires_at ==> m.auxiliary_target_left(pid, now) is None,
        now <= target.expires_at && pid != target.pid && m.shown_workspace(target.space) == Some(
            target.workspace_id,
        ) ==> m.auxiliary_target_left(pid, now) == Some(target),
{
}

/// A window that expands after such a click goes to the workspace of the
/// click, unless it is there already; one that the layout may not hold is
/// left. Where it went is remembered.
pub proof fn law_expanding_window_goes_to_the_clicked_workspace(
    m: Reactor,
    window: WindowId,
    target: AuxiliaryWindowWorkspaceTarget,
    number: WorkspaceNumber,
    now: u64,
)
    requires
        m.refocus_manager.auxiliary_window_workspace_target == Some(target),
        target.pid == window.pid,
        now <= target.expires_at,
        m.shown_workspace(target.space) == Some(target.workspace_id),
        m.window_manager.windows@.contains_key(window),
        now <= u64::MAX - 30000,
    ensures
        ({
            let w = m.window_manager.windows@[window];
            let fits = w.is_manageable && !w.ignore_app_rule;
            let placed = m.assigned_workspace(window) == Some(target.workspace_id);
            &&& !fits ==> m.expansion(window, now) == Expansion::Unrelated
            &&& fits && placed ==> m.expansion(window, now) == Expansion::Placed
            &&& fits && !placed && m.number_of(target.workspace_id) == Some(number) ==> m.expansion(
                window,
                now,
            ) == Expansion::Move(number)
            &&& fits && m.active_spaces@.contains(target.space) ==> m.targets_after_expansion(
                window,
                now,
            ).contains_key(window) && m.targets_after_expansion(window, now)[window].space
                == target.space && m.targets_after_expansion(window, now)[window].workspace_id
                == target.workspace_id && m.targets_after_expansion(window, now)[window].expires_at
                == now + 30000
            &&& !fits ==> m.targets_after_expansion(window, now)
                == m.refocus_manager.recent_workspace_targets@
        }),
{
}

/// The main window of an application is the one that it said.
pub proof fn law_main_window_of_an_application(m: Reactor, pid: pid_t)
    ensures
        m.main_window_tracker@.apps.contains_key(pid) ==> m.main_of_app(pid)
            == m.main_window_tracker@.apps[pid].main_window,
        !m.main_window_tracker@.apps.contains_key(pid) ==> m.main_of_app(pid) is None,
{
}

/// What the activation of an application leads to and leaves.
pub open spec fn plainly_activated(
    before: Reactor,
    after: Reactor,
    tasks: Seq<Task>,
    pid: pid_t,
    global: bool,
    sur: Surroundings,
) -> bool {
    let pruned = if global {
        SwitchModel {
            deadlines: before.workspace_switch_manager@.pending_deadlines(sur.now),
            ..before.workspace_switch_manager@
        }
    } else {
        before.workspace_switch_manager@
    };
    let expected = global && before.workspace_switch_manager@.expects(pid, sur.now);
    match before.switch_on_activation(pid, None, sur) {
        Some((window, space, number)) => if expected {
            tasks.len() == 0 && after.workspace_switch_manager@ == pruned
        } else {
            &&& tasks == switch_to_tasks(before, window, space, number)
            &&& after.workspace_switch_manager@ == pruned.started(
                WorkspaceSwitchOrigin::Auto,
            )
        },
        None => tasks.len() == 0 && after.workspace_switch_manager@ == pruned,
    }
}

/// A global activation that the window manager brought about itself, within
/// the second that it is expected for, does not switch; any other that leads
/// to a switch begins it, automatically.
pub proof fn law_expected_activation_does_not_switch(
    before: Reactor,
    after: Reactor,
    tasks: Seq<Task>,
    pid: pid_t,
    global: bool,
    sur: Surroundings,
)
    requires
        plainly_activated(before, after, tasks, pid, global, sur),
    ensures
        global && before.workspace_switch_manager@.deadlines.contains_key(pid)
            && before.workspace_switch_manager@.deadlines[pid] > sur.now ==> tasks.len() == 0
            && after.workspace_switch_manager@.active == before.workspace_switch_manager@.active,
        before.switch_on_activation(pid, None, sur) is None ==> tasks.len() == 0,
        (!global || !before.workspace_switch_manager@.deadlines.contains_key(pid)) && (
        before.switch_on_activation(pid, None, sur) is Some) ==> tasks.len() > 0
            && after.workspace_switch_manager@.origin == Some(WorkspaceSwitchOrigin::Auto)
            && after.workspace_switch_manager@.active is Some && (tasks.last() matches Task::Ask(
            Question::Core(
                CoreInput::Command(CoreCommand::Workspace(WorkspaceCommand::Activate(number))),
            ),
            Work::AutoSwitched { window, space },
        ) && before.switch_on_activation(pid, None, sur) == Some((window, space, number))),
{
}

} // verus!
