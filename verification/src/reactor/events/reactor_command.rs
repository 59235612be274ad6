//! Commands to the reactor itself, and the switch to a numbered workspace.

use vstd::prelude::*;

use crate::app::WindowId;
use crate::collections::lemma_no_match;
use crate::event_tap::input::Request as TapRequest;
use crate::geometry::Point;
use crate::ids::SpaceId;
use crate::model::{
    CoreCommand, CoreError, CoreWorkspace, Transition, WorkspaceCommand, WorkspaceId,
    WorkspaceNumber,
};
use crate::reactor::events::command::{store_tasks, CommandEventHandler};
use crate::reactor::managers::WorkspaceSwitchOrigin;
use crate::reactor::query::{
    find_workspace_by_number, law_workspace_by_number, workspace_by_number,
};
use crate::reactor::respond::warp_tasks;
use crate::reactor::screens::{law_screen_by_name, screen_for_uuid, screen_named};
use crate::reactor::spaces::slot_number;
use crate::reactor::surroundings::Surroundings;
use crate::reactor::task::{
    ask_core, no_tasks, one_task, then_task, two_tasks, CoreInput, LayoutEvent, Message, Question,
    Task, Work,
};
use crate::reactor::transition::{core_after, reply_in_range, wanted_by};
use crate::reactor::Reactor;

verus! {

/// The cursor is put somewhere.
pub open spec fn warp_task(p: Point) -> Task {
    Task::Tell(Message::Tap(TapRequest::Warp(p)))
}

/// A window is focused and raised.
pub open spec fn focus_tasks(window: WindowId, follow: bool) -> Seq<Task> {
    seq![
        Task::Go(Work::LayoutEvent(LayoutEvent::WindowFocused(window))),
        Task::Go(Work::RaiseFocused { window, follow }),
    ]
}

pub(crate) fn focus_window_tasks(window: WindowId, follow: bool) -> (r: Vec<Task>)
    ensures
        r@ == focus_tasks(window, follow),
{
    two_tasks(
        Task::Go(Work::LayoutEvent(LayoutEvent::WindowFocused(window))),
        Task::Go(Work::RaiseFocused { window, follow }),
    )
}

impl Reactor {
    /// The window to focus on a space: the last focused, or else the first
    /// shown.
    pub open spec fn focus_target_on(&self, space: Option<SpaceId>, sur: Surroundings) -> Option<
        WindowId,
    > {
        match space {
            Some(s) => match self.last_focused(s, sur) {
                Some(wid) => Some(wid),
                None => if self.shown_windows(s).len() > 0 {
                    Some(self.shown_windows(s)[0])
                } else {
                    None
                },
            },
            None => None,
        }
    }

    pub fn first_window_to_focus(&self, space: Option<SpaceId>, sur: &Surroundings) -> (r: Option<
        WindowId,
    >)
        requires
            self.wf(),
        ensures
            r == self.focus_target_on(space, *sur),
    {
        match space {
            Some(s) => match self.last_focused_window_in_space(s, sur) {
                Some(wid) => Some(wid),
                None => {
                    let windows: Vec<WindowId> = self.windows_in_active_workspace(s);
                    if windows.len() > 0 {
                        Some(windows[0])
                    } else {
                        None
                    }
                },
            },
            None => None,
        }
    }

    /// The identity of the display that shows a space, if there is one.
    pub open spec fn display_of(&self, space: Option<SpaceId>) -> Option<Seq<char>> {
        match space {
            Some(s) => self.display_of_space(s),
            None => None,
        }
    }

    pub fn display_uuid_of(&self, space: Option<SpaceId>) -> (r: Option<String>)
        ensures
            match r {
                Some(uuid) => self.display_of(space) == Some(uuid@),
                None => self.display_of(space) is None,
            },
    {
        match space {
            Some(s) => self.display_uuid_for_space(s),
            None => None,
        }
    }

    /// The display that a numbered workspace is on or comes to be on.
    pub open spec fn slot_display(&self, number: WorkspaceNumber, sur: Surroundings) -> Option<
        Seq<char>,
    > {
        match workspace_by_number(self.core, number) {
            Some(workspace) => Some(workspace.display@),
            None => match self.display_of(self.command_space(sur)) {
                Some(display) => Some(display),
                None => match self.display_of(self.cursor_space(sur)) {
                    Some(display) => Some(display),
                    None => if self.space_manager.screens@.len() > 0 {
                        Some(self.space_manager.screens@[0].display_uuid@)
                    } else {
                        None
                    },
                },
            },
        }
    }

    fn display_for_slot(&self, number: WorkspaceNumber, sur: &Surroundings) -> (r: Option<String>)
        requires
            self.wf(),
            sur.wf(),
        ensures
            match r {
                Some(uuid) => self.slot_display(number, *sur) == Some(uuid@),
                None => self.slot_display(number, *sur) is None,
            },
    {
        if let Some(i) = find_workspace_by_number(&self.core, number) {
            return Some(self.core.workspaces[i].display.clone());
        }
        if let Some(display) = self.display_uuid_of(self.workspace_command_space(sur)) {
            return Some(display);
        }
        if let Some(display) = self.display_uuid_of(self.space_for_cursor_screen(sur)) {
            return Some(display);
        }
        if self.space_manager.screens.len() > 0 {
            Some(self.space_manager.screens[0].display_uuid.clone())
        } else {
            None
        }
    }

    /// The managed space that a display shows.
    pub open spec fn managed_space_on(&self, display: Seq<char>) -> Option<SpaceId> {
        match screen_named(self.space_manager.screens@, display) {
            Some(i) => self.only_active(self.space_manager.screens@[i].space),
            None => None,
        }
    }

    fn managed_space_of_display(&self, display: &String) -> (r: Option<SpaceId>)
        ensures
            r == self.managed_space_on(display@),
    {
        match screen_for_uuid(&self.space_manager.screens, display) {
            Some(i) => match self.space_manager.screens[i].space {
                Some(space) => if self.is_space_active(space) {
                    Some(space)
                } else {
                    None
                },
                None => None,
            },
            None => None,
        }
    }

    /// Whether a space shows the workspace with a number.
    pub open spec fn shows_number(&self, space: SpaceId, number: WorkspaceNumber) -> bool {
        self.shown_workspace(space) matches Some(workspace) && self.number_of(workspace) == Some(
            number,
        )
    }

    fn is_showing_number(&self, space: SpaceId, number: WorkspaceNumber) -> (r: bool)
        ensures
            r == self.shows_number(space, number),
    {
        match self.active_workspace_for_space(space) {
            Some(workspace) => match self.workspace_number(workspace) {
                Some(n) => n == number,
                None => false,
            },
            None => false,
        }
    }
}

/// What the switch to a slot comes to: nothing, a switch by a command to the
/// workspace model, or the focus on a workspace that is in view already.
pub enum SlotPlan {
    Nothing,
    /// Back to the workspace before.
    BackAndForth { space: SpaceId, display: String },
    FocusShown { space: SpaceId },
    Switch { space: SpaceId, display: String, exists: bool },
}

/// Whether a plan is what the switch to a numbered workspace comes to.
pub open spec fn is_slot_plan(
    reactor: Reactor,
    slot: usize,
    sur: Surroundings,
    plan: SlotPlan,
) -> bool {
    match slot_number(slot) {
        Some(number) => match reactor.slot_display(number, sur) {
            Some(display) => match reactor.managed_space_on(display) {
                Some(target) => if reactor.shows_number(target, number) {
                    if reactor.display_of(reactor.command_space(sur)) == Some(display)
                        && reactor.config.virtual_workspaces.workspace_auto_back_and_forth {
                        plan matches SlotPlan::BackAndForth { space, display: d } && space
                            == target && d@ == display
                    } else {
                        plan == (SlotPlan::FocusShown { space: target })
                    }
                } else {
                    plan matches SlotPlan::Switch { space, display: d, exists } && space == target
                        && d@ == display && exists == (workspace_by_number(reactor.core, number)
                        is Some)
                },
                None => plan == SlotPlan::Nothing,
            },
            None => plan == SlotPlan::Nothing,
        },
        None => plan == SlotPlan::Nothing,
    }
}

/// Whether a command is the one that brings a slot's workspace into view.
pub open spec fn is_slot_command(command: WorkspaceCommand, plan: SlotPlan, slot: usize) -> bool {
    match plan {
        SlotPlan::BackAndForth { space, display } => command matches WorkspaceCommand::Last {
            display: d,
        } && d@ == display@,
        SlotPlan::Switch { space, display, exists } => if exists {
            slot_number(slot) matches Some(number) && command == WorkspaceCommand::Activate(number)
        } else {
            slot_number(slot) matches Some(number) && (command matches
                WorkspaceCommand::ActivateOrCreate { workspace, display: d } && workspace == number
                && d@ == display@)
        },
        _ => false,
    }
}

impl CommandEventHandler {
    fn plan_slot(reactor: &Reactor, slot: usize, sur: &Surroundings) -> (r: SlotPlan)
        requires
            reactor.wf(),
            sur.wf(),
        ensures
            is_slot_plan(*reactor, slot, *sur, r),
    {
        let number: WorkspaceNumber = match Self::core_workspace_number(slot) {
            Ok(number) => number,
            Err(_) => {
                return SlotPlan::Nothing;
            },
        };
        let display: String = match reactor.display_for_slot(number, sur) {
            Some(display) => display,
            None => {
                return SlotPlan::Nothing;
            },
        };
        let space: SpaceId = match reactor.managed_space_of_display(&display) {
            Some(space) => space,
            None => {
                return SlotPlan::Nothing;
            },
        };
        if !reactor.is_showing_number(space, number) {
            let exists: bool = find_workspace_by_number(&reactor.core, number).is_some();
            return SlotPlan::Switch { space, display, exists };
        }
        let from_here: bool = match reactor.display_uuid_of(reactor.workspace_command_space(sur)) {
            Some(source) => source == display,
            None => false,
        };
        if from_here && reactor.config.virtual_workspaces.workspace_auto_back_and_forth {
            SlotPlan::BackAndForth { space, display }
        } else {
            SlotPlan::FocusShown { space }
        }
    }

    /// Brings the workspace of a slot into view. If it is in view already,
    /// the one before comes back, where that is wanted, or it is focused.
    pub fn handle_command_switch_to_global_slot(
        reactor: &mut Reactor,
        slot: usize,
        sur: &Surroundings,
    ) -> (r: Vec<Task>)
        requires
            old(reactor).wf(),
            sur.wf(),
        ensures
            final(reactor).wf(),
            *final(reactor) == (Reactor {
                workspace_switch_manager: final(reactor).workspace_switch_manager,
                above_window: final(reactor).above_window,
                ..*old(reactor)
            }),
            exists|plan: SlotPlan| #[trigger]
                is_slot_plan(*old(reactor), slot, *sur, plan) && slot_outcome(
                    *old(reactor),
                    *final(reactor),
                    slot,
                    *sur,
                    plan,
                    r@,
                ),
    {
        let plan: SlotPlan = Self::plan_slot(reactor, slot, sur);
        let ghost before = *reactor;
        let ghost planned = plan;
        match plan {
            SlotPlan::Nothing => {
                let r: Vec<Task> = no_tasks();
                assert(slot_outcome(before, *reactor, slot, *sur, planned, r@));
                r
            },
            SlotPlan::FocusShown { space } => match reactor.first_window_to_focus(
                Some(space),
                sur,
            ) {
                Some(window) => {
                    let r: Vec<Task> = focus_window_tasks(window, true);
                    assert(slot_outcome(before, *reactor, slot, *sur, planned, r@));
                    r
                },
                None => match reactor.space_center(Some(space)) {
                    Some(p) => {
                        reactor.above_window = None;
                        let r: Vec<Task> = one_task(Task::Tell(Message::Tap(TapRequest::Warp(p))));
                        assert(slot_outcome(before, *reactor, slot, *sur, planned, r@));
                        r
                    },
                    None => {
                        let r: Vec<Task> = no_tasks();
                        assert(slot_outcome(before, *reactor, slot, *sur, planned, r@));
                        r
                    },
                },
            },
            SlotPlan::BackAndForth { space, display } => {
                let tasks: Vec<Task> = reactor.store_current_floating_positions(Some(space));
                reactor.workspace_switch_manager.start_workspace_switch(
                    WorkspaceSwitchOrigin::Manual,
                );
                let r: Vec<Task> = then_task(
                    tasks,
                    ask_core(
                        CoreCommand::Workspace(WorkspaceCommand::Last { display }),
                        Work::SlotSwitched { space },
                    ),
                );
                assert(r@.drop_last() =~= tasks@);
                assert(slot_outcome(before, *reactor, slot, *sur, planned, r@));
                r
            },
            SlotPlan::Switch { space, display, exists } => {
                let tasks: Vec<Task> = reactor.store_current_floating_positions(Some(space));
                reactor.workspace_switch_manager.start_workspace_switch(
                    WorkspaceSwitchOrigin::Manual,
                );
                let number: WorkspaceNumber = match Self::core_workspace_number(slot) {
                    Ok(number) => number,
                    Err(_) => WorkspaceNumber(0),
                };
                let command: WorkspaceCommand = if exists {
                    WorkspaceCommand::Activate(number)
                } else {
                    WorkspaceCommand::ActivateOrCreate { workspace: number, display }
                };
                let ghost asked = command;
                let r: Vec<Task> = then_task(
                    tasks,
                    ask_core(CoreCommand::Workspace(command), Work::SlotSwitched { space }),
                );
                assert(r@.drop_last() =~= tasks@);
                assert(is_slot_command(asked, planned, slot));
                assert(slot_outcome(before, *reactor, slot, *sur, planned, r@));
                r
            },
        }
    }

    /// The workspace model has answered the switch to a slot.
    pub fn slot_switched(
        reactor: &mut Reactor,
        reply: Result<Transition, CoreError>,
        space: SpaceId,
    ) -> (r: Vec<Task>)
        requires
            old(reactor).wf(),
            reply_in_range(reply),
        ensures
            final(reactor).wf(),
            *final(reactor) == (Reactor {
                core: core_after(old(reactor).core, reply),
                ..*old(reactor)
            }),
            match reply {
                Ok(transition) => r@.len() == 1 && (r@[0] matches Task::Go(
                    Work::Respond(response, s),
                ) && s == Some(space) && response@ == wanted_by(transition)),
                Err(_) => r@.len() == 0,
            },
    {
        match reactor.core_replied(reply) {
            Some(response) => one_task(Task::Go(Work::Respond(response, Some(space)))),
            None => no_tasks(),
        }
    }
}

/// What follows a plan for a slot.
pub open spec fn slot_outcome(
    before: Reactor,
    after: Reactor,
    slot: usize,
    sur: Surroundings,
    plan: SlotPlan,
    tasks: Seq<Task>,
) -> bool {
    match plan {
        SlotPlan::Nothing => tasks.len() == 0 && after == before,
        SlotPlan::FocusShown { space } => {
            &&& after.workspace_switch_manager == before.workspace_switch_manager
            &&& match before.focus_target_on(Some(space), sur) {
                Some(window) => tasks == focus_tasks(window, true) && after == before,
                None => tasks == warp_tasks(before.middle_of_space(Some(space)))
                    && after.above_window == if before.middle_of_space(Some(space)) is Some {
                    None
                } else {
                    before.above_window
                },
            }
        },
        SlotPlan::BackAndForth { space, display } | SlotPlan::Switch { space, display, .. } => {
            &&& tasks.len() > 0
            &&& tasks.drop_last() == store_tasks(before, Some(space))
            &&& tasks.last() matches Task::Ask(
                Question::Core(CoreInput::Command(CoreCommand::Workspace(command))),
                Work::SlotSwitched { space: s },
            ) && s == space && is_slot_command(command, plan, slot)
            &&& after.workspace_switch_manager@ == before.workspace_switch_manager@.started(
                WorkspaceSwitchOrigin::Manual,
            )
            &&& after.above_window == before.above_window
        },
    }
}

/// The space that shows a display is looked up by the display's name, and
/// given only if it is managed.
pub proof fn law_managed_space_of_a_display(m: Reactor, display: String, i: int)
    requires
        0 <= i < m.space_manager.screens@.len(),
        m.space_manager.screens@[i].display_uuid@ == display@,
        forall|j: int|
            0 <= j < i ==> (#[trigger] m.space_manager.screens@[j]).display_uuid@ != display@,
    ensures
        m.managed_space_on(display@) == match m.space_manager.screens@[i].space {
            Some(space) => if m.active_spaces@.contains(space) {
                Some(space)
            } else {
                None
            },
            None => None,
        },
{
    law_screen_by_name(m.space_manager.screens@, display, i);
}

/// A numbered workspace that exists is on its own display, wherever the
/// cursor is; one that does not comes to be on the display that commands are
/// about.
pub proof fn law_slot_is_on_its_workspaces_display(
    m: Reactor,
    number: WorkspaceNumber,
    i: int,
    space: SpaceId,
    sur: Surroundings,
)
    ensures
        0 <= i < m.core.workspaces@.len() && m.core.workspaces@[i].number == Some(number) && (
        forall|j: int|
            0 <= j < i ==> (#[trigger] m.core.workspaces@[j]).number != Some(number))
            ==> m.slot_display(number, sur) == Some(m.core.workspaces@[i].display@),
        (forall|j: int|
            0 <= j < m.core.workspaces@.len() ==> (#[trigger] m.core.workspaces@[j]).number != Some(
                number,
            )) && m.command_space(sur) == Some(space) && m.display_of_space(space) is Some
            ==> m.slot_display(number, sur) == m.display_of_space(space),
{
    let pred = |w: CoreWorkspace| w.number == Some(number);
    if 0 <= i < m.core.workspaces@.len() && m.core.workspaces@[i].number == Some(number) && (
    forall|j: int|
        0 <= j < i ==> (#[trigger] m.core.workspaces@[j]).number != Some(number)) {
        law_workspace_by_number(m.core, number, i);
    }
    if forall|j: int|
        0 <= j < m.core.workspaces@.len() ==> (#[trigger] m.core.workspaces@[j]).number != Some(
            number,
        ) {
        lemma_no_match(m.core.workspaces@, pred);
    }
}

/// A numbered workspace that exists and is not in view on its display is
/// activated there by its number, and the switch is the user's own.
pub proof fn law_slot_out_of_view_is_switched_to(
    before: Reactor,
    after: Reactor,
    slot: usize,
    sur: Surroundings,
    plan: SlotPlan,
    tasks: Seq<Task>,
    i: int,
    space: SpaceId,
)
    requires
        slot < 10,
        is_slot_plan(before, slot, sur, plan),
        slot_outcome(before, after, slot, sur, plan, tasks),
        0 <= i < before.core.workspaces@.len(),
        before.core.workspaces@[i].number == Some(WorkspaceNumber(((slot + 1) % 10) as u8)),
        forall|j: int|
            0 <= j < i ==> (#[trigger] before.core.workspaces@[j]).number != Some(
                WorkspaceNumber(((slot + 1) % 10) as u8),
            ),
        before.managed_space_on(before.core.workspaces@[i].display@) == Some(space),
        !(before.shown_workspace(space) matches Some(shown) && before.number_of(shown) == Some(
            WorkspaceNumber(((slot + 1) % 10) as u8),
        )),
    ensures
        tasks.len() > 0,
        tasks.last() == Task::Ask(
            Question::Core(
                CoreInput::Command(
                    CoreCommand::Workspace(
                        WorkspaceCommand::Activate(WorkspaceNumber(((slot + 1) % 10) as u8)),
                    ),
                ),
            ),
            Work::SlotSwitched { space },
        ),
        after.workspace_switch_manager@ == before.workspace_switch_manager@.started(
            WorkspaceSwitchOrigin::Manual,
        ),
{
    law_workspace_by_number(before.core, WorkspaceNumber(((slot + 1) % 10) as u8), i);
}

/// A numbered workspace that is in view already is not switched to: its
/// window is focused, or, for the display that commands are about and by the
/// settings, the workspace before it comes back. Past the last slot, and for
/// a display that shows no managed space, nothing happens.
pub proof fn law_slot_in_view_is_focused_or_left_again(
    before: Reactor,
    after: Reactor,
    slot: usize,
    sur: Surroundings,
    plan: SlotPlan,
    tasks: Seq<Task>,
    number: WorkspaceNumber,
    space: SpaceId,
    shown: WorkspaceId,
)
    requires
        is_slot_plan(before, slot, sur, plan),
        slot_outcome(before, after, slot, sur, plan, tasks),
        slot < 10 ==> number == WorkspaceNumber(((slot + 1) % 10) as u8),
    ensures
        slot >= 10 ==> tasks.len() == 0 && after == before,
        slot < 10 && before.slot_display(number, sur) is None ==> tasks.len() == 0 && after
            == before,
        slot < 10 && (before.slot_display(number, sur) matches Some(d) && before.managed_space_on(d)
            is None) ==> tasks.len() == 0 && after == before,
        slot < 10 && (before.slot_display(number, sur) matches Some(d) && before.managed_space_on(d)
            == Some(space) && before.shown_workspace(space) == Some(shown) && before.number_of(
            shown,
        ) == Some(number) && (!before.config.virtual_workspaces.workspace_auto_back_and_forth
            || !(before.command_space(sur) matches Some(s) && before.display_of_space(s) == Some(
            d,
        )))) ==> match before.focus_target_on(Some(space), sur) {
            Some(window) => tasks == seq![
                Task::Go(Work::LayoutEvent(LayoutEvent::WindowFocused(window))),
                Task::Go(Work::RaiseFocused { window, follow: true }),
            ] && after == before,
            None => match before.middle_of_space(Some(space)) {
                Some(p) => tasks == seq![Task::Tell(Message::Tap(TapRequest::Warp(p)))]
                    && after.above_window is None,
                None => tasks.len() == 0,
            },
        },
        slot < 10 && (before.slot_display(number, sur) matches Some(d) && before.managed_space_on(d)
            == Some(space) && before.shown_workspace(space) == Some(shown) && before.number_of(
            shown,
        ) == Some(number) && before.config.virtual_workspaces.workspace_auto_back_and_forth && (
        before.command_space(sur) matches Some(s) && before.display_of_space(s) == Some(d)))
            ==> tasks.len() > 0 && (tasks.last() matches Task::Ask(
            Question::Core(
                CoreInput::Command(CoreCommand::Workspace(WorkspaceCommand::Last { display })),
            ),
            next,
        ) && Some(display@) == before.slot_display(number, sur) && next == (Work::SlotSwitched {
            space,
        })),
{
}

/// The window to focus on a space is the one last focused there, or else the
/// first one shown; no window is focused on a space that shows none.
pub proof fn law_window_to_focus_on_a_space(m: Reactor, space: SpaceId, sur: Surroundings)
    ensures
        m.last_focused(space, sur) is Some ==> m.focus_target_on(Some(space), sur)
            == m.last_focused(space, sur),
        m.last_focused(space, sur) is None && m.shown_windows(space).len() > 0
            ==> m.focus_target_on(Some(space), sur) == Some(m.shown_windows(space)[0]),
        m.last_focused(space, sur) is None && m.shown_windows(space).len() == 0
            ==> m.focus_target_on(Some(space), sur) is None,
        m.focus_target_on(None, sur) is None,
{
}

} // verus!
