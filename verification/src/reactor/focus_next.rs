//! Focusing the window that the next command brings.

use vstd::prelude::*;

use crate::app::{Quiet, WindowId};
use crate::geometry::Point;
use crate::model::{
    CoreCommand, CoreError, Transition, WorkspaceCommand, WorkspaceNumber,
};
use crate::reactor::events::display_command::is_single_raise;
use crate::reactor::managers::{FocusNextWindowTarget, RefocusManager};
use crate::reactor::spaces::FOCUS_NEXT_WINDOW_TIMEOUT;
use crate::reactor::surroundings::Surroundings;
use crate::reactor::task::{
    ask_core, core_task, no_tasks, one_task, two_tasks, LayoutEvent, Question, Task, Work,
};
use crate::reactor::transition::{core_after, reply_in_range};
use crate::reactor::Reactor;

verus! {

/// Whether a task continues with the rest of some windows.
pub open spec fn continues_with(tasks: Seq<Task>, rest: Seq<WindowId>) -> bool {
    if rest.len() == 0 {
        tasks.len() == 0
    } else {
        tasks.len() == 1 && (tasks[0] matches Task::Go(Work::AwaitedWindow { windows }) && windows@
            == rest)
    }
}

fn continue_with(rest: Vec<WindowId>) -> (r: Vec<Task>)
    ensures
        continues_with(r@, rest@),
{
    if rest.len() == 0 {
        no_tasks()
    } else {
        one_task(Task::Go(Work::AwaitedWindow { windows: rest }))
    }
}

/// What comes of looking at one window that may be the one waited for.
#[derive(Copy, Clone, Debug, PartialEq, Eq, Structural)]
pub enum Awaited {
    No,
    /// Nobody waits any longer.
    Expired,
    Move(WorkspaceNumber),
    Yes,
}

impl Reactor {
    pub fn request_focus_next_window(&mut self, sur: &Surroundings)
        requires
            old(self).wf(),
            sur.wf(),
        ensures
            final(self).wf(),
            *final(self) == (Reactor {
                refocus_manager: RefocusManager {
                    focus_next_window_deadline: Some(
                        (sur.now + FOCUS_NEXT_WINDOW_TIMEOUT) as u64,
                    ),
                    focus_next_window_target: match old(self).exec_space(*sur) {
                        Some(space) => match old(self).shown_workspace(space) {
                            Some(workspace_id) => Some(
                                FocusNextWindowTarget { space, workspace_id },
                            ),
                            None => None,
                        },
                        None => None,
                    },
                    ..old(self).refocus_manager
                },
                ..*old(self)
            }),
    {
        let target: Option<FocusNextWindowTarget> = match self.exec_command_space(sur) {
            Some(space) => match self.active_workspace_for_space(space) {
                Some(workspace_id) => Some(FocusNextWindowTarget { space, workspace_id }),
                None => None,
            },
            None => None,
        };
        self.refocus_manager.focus_next_window_deadline = Some(
            sur.now + FOCUS_NEXT_WINDOW_TIMEOUT,
        );
        self.refocus_manager.focus_next_window_target = target;
    }

    pub open spec fn waiting_cancelled(&self) -> Reactor {
        Reactor {
            refocus_manager: RefocusManager {
                focus_next_window_deadline: None,
                focus_next_window_target: None,
                ..self.refocus_manager
            },
            ..*self
        }
    }

    pub fn cancel_focus_next_window(&mut self)
        ensures
            *final(self) == old(self).waiting_cancelled(),
            old(self).wf() ==> final(self).wf(),
    {
        self.refocus_manager.focus_next_window_deadline = None;
        self.refocus_manager.focus_next_window_target = None;
    }

    /// Looks at the first of some windows, after the workspace model has seen
    /// it.
    pub fn consume_focus_next_window_from(windows: Vec<WindowId>) -> (r: Vec<Task>)
        ensures
            if windows@.len() == 0 {
                r@.len() == 0
            } else {
                r@.len() == 1 && (r@[0] matches Task::Ask(
                    Question::Observe,
                    Work::AwaitedWindowObserved { window, rest },
                ) && window == windows@[0] && rest@ == windows@.drop_first())
            },
    {
        if windows.len() == 0 {
            return no_tasks();
        }
        let window: WindowId = windows[0];
        let mut rest: Vec<WindowId> = windows;
        let _ = rest.remove(0);
        assert(rest@ =~= windows@.drop_first());
        one_task(Task::Ask(Question::Observe, Work::AwaitedWindowObserved { window, rest }))
    }

    /// What a window is to whoever waits for one.
    pub open spec fn awaited(&self, window: WindowId, sur: Surroundings) -> Awaited {
        match self.refocus_manager.focus_next_window_deadline {
            Some(deadline) => if sur.now > deadline {
                Awaited::Expired
            } else if !self.layout_may_hold(window) {
                Awaited::No
            } else {
                match self.focus_next_target(window, sur.now) {
                    Some(target) => if self.assigned_workspace(window) != Some(
                        target.workspace_id,
                    ) {
                        match self.number_of(target.workspace_id) {
                            Some(number) => Awaited::Move(number),
                            None => Awaited::No,
                        }
                    } else if self.in_view(window, sur) {
                        Awaited::Yes
                    } else {
                        Awaited::No
                    },
                    None => if self.in_view(window, sur) {
                        Awaited::Yes
                    } else {
                        Awaited::No
                    },
                }
            },
            None => Awaited::No,
        }
    }

    fn look_at_awaited(&self, window: WindowId, sur: &Surroundings) -> (r: Awaited)
        requires
            self.wf(),
        ensures
            r == self.awaited(window, *sur),
    {
        match self.refocus_manager.focus_next_window_deadline {
            Some(deadline) => if sur.now > deadline {
                return Awaited::Expired;
            },
            None => {
                return Awaited::No;
            },
        }
        if !self.window_is_standard(window) {
            return Awaited::No;
        }
        if let Some(target) = self.focus_next_window_target_for(window, sur.now) {
            let there: bool = match self.workspace_for_window(window) {
                Some(workspace) => workspace == target.workspace_id,
                None => false,
            };
            if !there {
                return match self.workspace_number(target.workspace_id) {
                    Some(number) => Awaited::Move(number),
                    None => Awaited::No,
                };
            }
        }
        if self.is_in_view(window, sur) {
            Awaited::Yes
        } else {
            Awaited::No
        }
    }

    /// Focuses the window that was waited for, and waits no longer.
    fn focus_awaited(&mut self, window: WindowId) -> (r: Vec<Task>)
        requires
            old(self).wf(),
        ensures
            final(self).wf(),
            *final(self) == old(self).waiting_cancelled(),
            focuses_awaited(*old(self), window, r@),
    {
        let warp: Option<Point> = if self.config.settings.mouse_follows_focus {
            self.window_center_on_known_screen(window)
        } else {
            None
        };
        let raise: Task = self.raise_window(window, Quiet::No, warp);
        self.cancel_focus_next_window();
        two_tasks(raise, Task::Go(Work::LayoutEvent(LayoutEvent::WindowFocused(window))))
    }

    /// The workspace model has seen a window that may be the one waited for,
    /// or could not.
    pub fn awaited_window_observed(
        &mut self,
        accepted: bool,
        window: WindowId,
        rest: Vec<WindowId>,
        sur: &Surroundings,
    ) -> (r: Vec<Task>)
        requires
            old(self).wf(),
        ensures
            final(self).wf(),
            if !accepted {
                *final(self) == *old(self) && continues_with(r@, rest@)
            } else {
                match old(self).awaited(window, *sur) {
                    Awaited::No => *final(self) == *old(self) && continues_with(r@, rest@),
                    Awaited::Expired => *final(self) == old(self).waiting_cancelled()
                        && continues_with(r@, rest@),
                    Awaited::Move(workspace) => *final(self) == *old(self) && r@ == seq![
                        core_task(
                            CoreCommand::Workspace(
                                WorkspaceCommand::MoveWindow { workspace, window: Some(window) },
                            ),
                            Work::AwaitedWindowMoved { window, rest },
                        ),
                    ],
                    Awaited::Yes => *final(self) == old(self).waiting_cancelled()
                        && focuses_awaited(*old(self), window, r@),
                }
            },
    {
        if !accepted {
            return continue_with(rest);
        }
        match self.look_at_awaited(window, sur) {
            Awaited::No => continue_with(rest),
            Awaited::Expired => {
                self.cancel_focus_next_window();
                continue_with(rest)
            },
            Awaited::Move(workspace) => one_task(
                ask_core(
                    CoreCommand::Workspace(
                        WorkspaceCommand::MoveWindow { workspace, window: Some(window) },
                    ),
                    Work::AwaitedWindowMoved { window, rest },
                ),
            ),
            Awaited::Yes => self.focus_awaited(window),
        }
    }

    /// The workspace model has moved the window to where it was waited for,
    /// or not.
    pub fn awaited_window_moved(
        &mut self,
        reply: Result<Transition, CoreError>,
        window: WindowId,
        rest: Vec<WindowId>,
        sur: &Surroundings,
    ) -> (r: Vec<Task>)
        requires
            old(self).wf(),
            reply_in_range(reply),
        ensures
            final(self).wf(),
            ({
                let replied = Reactor { core: core_after(old(self).core, reply), ..*old(self) };
                if reply is Ok && replied.in_view(window, *sur) {
                    *final(self) == replied.waiting_cancelled() && focuses_awaited(
                        replied,
                        window,
                        r@,
                    )
                } else {
                    *final(self) == replied && continues_with(r@, rest@)
                }
            }),
    {
        if self.core_replied(reply).is_none() {
            return continue_with(rest);
        }
        if self.is_in_view(window, sur) {
            self.focus_awaited(window)
        } else {
            continue_with(rest)
        }
    }
}

/// The window that was waited for is raised and focused.
pub open spec fn focuses_awaited(reactor: Reactor, window: WindowId, tasks: Seq<Task>) -> bool {
    &&& tasks.len() == 2
    &&& is_single_raise(
        tasks[0],
        reactor,
        seq![window],
        window,
        reactor.follow_window(window, true),
        Quiet::No,
    )
    &&& tasks[1] == Task::Go(Work::LayoutEvent(LayoutEvent::WindowFocused(window)))
}

/// Whoever waits for a window stops waiting when one is focused for them.
pub proof fn law_awaited_window_is_focused_once(m: Reactor, window: WindowId, sur: Surroundings)
    ensures
        m.waiting_cancelled().awaited(window, sur) == Awaited::No,
{
}

/// The next window is waited for no longer than its deadline; a window that
/// the layout may not hold is not the one.
pub proof fn law_waiting_expires(m: Reactor, window: WindowId, deadline: u64, sur: Surroundings)
    requires
        m.refocus_manager.focus_next_window_deadline == Some(deadline),
    ensures
        sur.now > deadline <==> m.awaited(window, sur) == Awaited::Expired,
        sur.now <= deadline && !(m.window_manager.windows@.contains_key(window)
            && m.window_manager.windows@[window].is_manageable
            && !m.window_manager.windows@[window].ignore_app_rule) ==> m.awaited(window, sur)
            == Awaited::No,
{
}

/// A window that was waited for is focused if it is in view, on the workspace
/// that it was asked for on; assigned elsewhere, it is moved there first.
pub proof fn law_awaited_window_comes_to_where_it_was_asked_for(
    m: Reactor,
    window: WindowId,
    deadline: u64,
    target: FocusNextWindowTarget,
    number: WorkspaceNumber,
    sur: Surroundings,
)
    requires
        m.refocus_manager.focus_next_window_deadline == Some(deadline),
        sur.now <= deadline,
        m.window_manager.windows@.contains_key(window),
        m.window_manager.windows@[window].is_manageable,
        !m.window_manager.windows@[window].ignore_app_rule,
    ensures
        ({
            let in_view = m.intended_space_of(window, sur) matches Some(space)
                && m.active_spaces@.contains(space) && m.shown_workspace(space) is Some
                && m.assigned_workspace(window) == m.shown_workspace(space);
            let held = m.refocus_manager.focus_next_window_target == Some(target) && m.home_space(
                target.workspace_id,
            ) == Some(target.space) && m.shown_workspace(target.space) == Some(
                target.workspace_id,
            );
            &&& held && m.assigned_workspace(window) != Some(target.workspace_id) && m.number_of(
                target.workspace_id,
            ) == Some(number) ==> m.awaited(window, sur) == Awaited::Move(number)
            &&& held && m.assigned_workspace(window) == Some(target.workspace_id) && in_view
                ==> m.awaited(window, sur) == Awaited::Yes
            &&& m.refocus_manager.focus_next_window_target is None ==> m.awaited(window, sur)
                == if in_view {
                Awaited::Yes
            } else {
                Awaited::No
            }
        }),
{
}

/// Waiting that is over leaves neither a deadline nor a target.
pub proof fn law_cancelled_waiting_leaves_nothing(m: Reactor)
    ensures
        m.waiting_cancelled().refocus_manager.focus_next_window_deadline is None,
        m.waiting_cancelled().refocus_manager.focus_next_window_target is None,
        m.waiting_cancelled().refocus_manager.recent_workspace_targets
            == m.refocus_manager.recent_workspace_targets,
        m.waiting_cancelled().window_manager == m.window_manager,
{
}

} // verus!
