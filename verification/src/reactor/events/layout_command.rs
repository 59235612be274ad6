//! Layout commands, step by step.

use vstd::prelude::*;

use crate::app::WindowId;
use crate::event::{Direction, LayoutCommand};
use crate::ids::{SpaceId, WindowServerId};
use crate::model::{
    reached_boundary, CoreCommand, CoreError, EventResponse, Transition, WindowCommand,
    WorkspaceCommand, WorkspaceNumber,
};
use crate::reactor::diagnostics::{
    note, note_result, note_task, result_task, DiagnosticNote, MoveResult,
};
use crate::reactor::events::command::{
    boundary_for, command_display, is_workspace_command, is_workspace_switch, means_on_display,
    settled, store_tasks, window_command_for, CommandEventHandler,
};
use crate::reactor::managers::{SwitchModel, WorkspaceSwitchOrigin, WorkspaceSwitchState};
use crate::reactor::spaces::{
    only_targets_changed, slot_number, RECENT_WORKSPACE_TARGET_TIMEOUT,
};
use crate::reactor::surroundings::Surroundings;
use crate::reactor::task::{
    ask_core, core_task, no_tasks, one_task, then_task, two_tasks, LayoutEvent, Question, Task,
    Work,
};
use crate::reactor::transition::{
    core_after, nothing_wanted, reply_in_range, response_for_effects, wanted_by, wanted_by_effects,
    ResponseModel,
};
use crate::reactor::Reactor;

verus! {

/// Moves a window to the workspace of a slot.
pub open spec fn move_to_slot(slot: usize, window: WindowId) -> Option<CoreCommand> {
    match slot_number(slot) {
        Some(workspace) => Some(
            CoreCommand::Workspace(
                WorkspaceCommand::MoveWindow { workspace, window: Some(window) },
            ),
        ),
        None => None,
    }
}

/// Moves a window to the hidden workspace.
pub open spec fn move_to_hidden(window: WindowId) -> CoreCommand {
    CoreCommand::Workspace(WorkspaceCommand::MoveWindowToHidden { window: Some(window) })
}

/// Nothing but where windows were sent and the workspace switch differs.
pub open spec fn targets_and_switch_changed(before: Reactor, after: Reactor) -> bool {
    only_targets_changed(
        Reactor { workspace_switch_manager: after.workspace_switch_manager, ..before },
        after,
    )
}

/// The window that a command without a window means.
pub open spec fn command_window(reactor: Reactor, sur: Surroundings) -> Option<WindowId> {
    reactor.current_window(
        reactor.command_space(sur),
        reactor.config.settings.focus_follows_mouse,
        reactor.core.focused_window,
        sur,
    )
}

/// The tasks of moving the window in use to the workspace of a slot. One that
/// is not assigned to any workspace yet goes there later.
pub open spec fn current_move_tasks(
    reactor: Reactor,
    slot: usize,
    window: Option<WindowId>,
) -> Seq<Task> {
    match window {
        Some(window) => if reactor.assigned_workspace(window) is None {
            seq![
                result_task(MoveResult::DeferredUntilWindowAssignment(window)),
                Task::Go(Work::RespondNothing(None)),
            ]
        } else {
            match move_to_slot(slot, window) {
                Some(core) => seq![
                    core_task(
                        core,
                        Work::CurrentWindowMoved {
                            window,
                            layout_focus: reactor.core.focused_window,
                            noted: true,
                        },
                    ),
                ],
                None => seq![
                    result_task(MoveResult::NoSuchSlot(slot)),
                    Task::Go(Work::RespondNothing(None)),
                ],
            }
        },
        None => seq![result_task(MoveResult::IgnoredWithoutCurrentWindow)],
    }
}

/// The tasks of a command on a single window, where the layout command is
/// not about workspaces.
pub open spec fn window_command_tasks(
    reactor: Reactor,
    command: LayoutCommand,
    sur: Surroundings,
) -> Seq<Task> {
    match command {
        LayoutCommand::MoveWindowToWorkspace { workspace, window_id: None } => seq![
            note_task(
                DiagnosticNote::MoveWindowResolution(
                    reactor.resolution_of_move(workspace, command_window(reactor, sur), sur),
                ),
            ),
        ] + current_move_tasks(reactor, workspace, command_window(reactor, sur)),
        LayoutCommand::MoveWindowToWorkspace { workspace, window_id: Some(index) } => {
            match reactor.window_with_index(index, reactor.command_space(sur), sur) {
                Some(window) => match move_to_slot(workspace, window) {
                    Some(core) => seq![core_task(core, Work::WindowMoved { window })],
                    None => Seq::empty(),
                },
                None => Seq::empty(),
            }
        },
        LayoutCommand::MoveWindowToHiddenWorkspace { window_id: None } => match command_window(
            reactor,
            sur,
        ) {
            Some(window) => seq![
                core_task(
                    move_to_hidden(window),
                    Work::CurrentWindowMoved {
                        window,
                        layout_focus: reactor.core.focused_window,
                        noted: false,
                    },
                ),
            ],
            None => Seq::empty(),
        },
        LayoutCommand::MoveWindowToHiddenWorkspace { window_id: Some(index) } => {
            match reactor.window_with_index(index, reactor.command_space(sur), sur) {
                Some(window) => seq![
                    core_task(move_to_hidden(window), Work::WindowMoved { window }),
                ],
                None => Seq::empty(),
            }
        },
        LayoutCommand::ToggleWindowFloating => match reactor.core.focused_window {
            Some(window) => seq![
                core_task(
                    CoreCommand::Window(WindowCommand::ToggleFloating { window: Some(window) }),
                    Work::Done,
                ),
                Task::Go(Work::RespondNothing(None)),
            ],
            None => seq![Task::Go(Work::RespondNothing(None))],
        },
        _ => match window_command_for(command, reactor.core.focused_window) {
            Some(core) => seq![
                core_task(
                    CoreCommand::Window(core),
                    Work::LayoutCommanded { direction: boundary_for(command) },
                ),
            ],
            None => seq![Task::Go(Work::RespondNothing(None))],
        },
    }
}

/// Where the window in use is to be sent once it is assigned to a workspace.
pub open spec fn deferred_target(
    reactor: Reactor,
    command: LayoutCommand,
    sur: Surroundings,
) -> Option<(WindowId, usize)> {
    match command {
        LayoutCommand::MoveWindowToWorkspace { workspace, window_id: None } => match command_window(
            reactor,
            sur,
        ) {
            Some(window) => if reactor.assigned_workspace(window) is None {
                Some((window, workspace))
            } else {
                None
            },
            None => None,
        },
        _ => None,
    }
}

impl CommandEventHandler {
    fn slot_command(slot: usize, window: WindowId) -> (r: Option<CoreCommand>)
        ensures
            r == move_to_slot(slot, window),
    {
        match Self::core_workspace_number(slot) {
            Ok(workspace) => Some(
                CoreCommand::Workspace(
                    WorkspaceCommand::MoveWindow { workspace, window: Some(window) },
                ),
            ),
            Err(_) => None,
        }
    }

    fn current_window_of_command(reactor: &Reactor, sur: &Surroundings) -> (r: Option<WindowId>)
        requires
            reactor.wf(),
            sur.wf(),
        ensures
            r == command_window(*reactor, *sur),
    {
        reactor.resolve_current_window_for_command(
            reactor.workspace_command_space(sur),
            reactor.config.settings.focus_follows_mouse,
            reactor.focused_window_for_command(),
            sur,
        )
    }

    fn plan_current_move(reactor: &Reactor, slot: usize, window: Option<WindowId>) -> (r: Vec<Task>)
        ensures
            r@ == current_move_tasks(*reactor, slot, window),
    {
        let window: WindowId = match window {
            Some(window) => window,
            None => {
                return one_task(note_result(MoveResult::IgnoredWithoutCurrentWindow));
            },
        };
        if reactor.workspace_for_window(window).is_none() {
            return two_tasks(
                note_result(MoveResult::DeferredUntilWindowAssignment(window)),
                Task::Go(Work::RespondNothing(None)),
            );
        }
        match Self::slot_command(slot, window) {
            Some(core) => one_task(
                ask_core(
                    core,
                    Work::CurrentWindowMoved {
                        window,
                        layout_focus: reactor.focused_window_for_command(),
                        noted: true,
                    },
                ),
            ),
            None => two_tasks(
                note_result(MoveResult::NoSuchSlot(slot)),
                Task::Go(Work::RespondNothing(None)),
            ),
        }
    }

    /// The tasks of a command that is not about workspaces.
    fn plan_window_command(reactor: &Reactor, command: LayoutCommand, sur: &Surroundings) -> (r:
        Vec<Task>)
        requires
            reactor.wf(),
            sur.wf(),
        ensures
            r@ == window_command_tasks(*reactor, command, *sur),
    {
        match command {
            LayoutCommand::MoveWindowToWorkspace { workspace, window_id } => {
                match window_id {
                    None => {
                        let window: Option<WindowId> = Self::current_window_of_command(
                            reactor,
                            sur,
                        );
                        let resolution = reactor.describe_move(workspace, window, sur);
                        let mut tasks: Vec<Task> = one_task(
                            note(DiagnosticNote::MoveWindowResolution(resolution)),
                        );
                        let mut more: Vec<Task> = Self::plan_current_move(
                            reactor,
                            workspace,
                            window,
                        );
                        tasks.append(&mut more);
                        tasks
                    },
                    Some(index) => match reactor.resolve_window_index(
                        index,
                        reactor.workspace_command_space(sur),
                        sur,
                    ) {
                        Some(window) => match Self::slot_command(workspace, window) {
                            Some(core) => one_task(ask_core(core, Work::WindowMoved { window })),
                            None => no_tasks(),
                        },
                        None => no_tasks(),
                    },
                }
            },
            LayoutCommand::MoveWindowToHiddenWorkspace { window_id } => {
                match window_id {
                    None => match Self::current_window_of_command(reactor, sur) {
                        Some(window) => one_task(
                            ask_core(
                                CoreCommand::Workspace(
                                    WorkspaceCommand::MoveWindowToHidden { window: Some(window) },
                                ),
                                Work::CurrentWindowMoved {
                                    window,
                                    layout_focus: reactor.focused_window_for_command(),
                                    noted: false,
                                },
                            ),
                        ),
                        None => no_tasks(),
                    },
                    Some(index) => match reactor.resolve_window_index(
                        index,
                        reactor.workspace_command_space(sur),
                        sur,
                    ) {
                        Some(window) => one_task(
                            ask_core(
                                CoreCommand::Workspace(
                                    WorkspaceCommand::MoveWindowToHidden { window: Some(window) },
                                ),
                                Work::WindowMoved { window },
                            ),
                        ),
                        None => no_tasks(),
                    },
                }
            },
            LayoutCommand::ToggleWindowFloating => match reactor.focused_window_for_command() {
                Some(window) => two_tasks(
                    ask_core(
                        CoreCommand::Window(
                            WindowCommand::ToggleFloating { window: Some(window) },
                        ),
                        Work::Done,
                    ),
                    Task::Go(Work::RespondNothing(None)),
                ),
                None => one_task(Task::Go(Work::RespondNothing(None))),
            },
            _ => {
                let direction: Option<Direction> = match command {
                    LayoutCommand::MoveFocus(direction) => Some(direction),
                    LayoutCommand::MoveNode(direction) => Some(direction),
                    _ => None,
                };
                match Self::window_command(command, reactor.focused_window_for_command()) {
                    Some(core) => one_task(
                        ask_core(
                            CoreCommand::Window(core),
                            Work::LayoutCommanded { direction },
                        ),
                    ),
                    None => one_task(Task::Go(Work::RespondNothing(None))),
                }
            },
        }
    }

    /// Begins a layout command. One on workspaces is put to the workspace
    /// model once it has seen where floating windows are; any other ends a
    /// switch that was still settling.
    pub fn handle_command_layout(
        reactor: &mut Reactor,
        cmd: LayoutCommand,
        sur: &Surroundings,
    ) -> (r: Vec<Task>)
        requires
            old(reactor).wf(),
            sur.wf(),
        ensures
            final(reactor).wf(),
            targets_and_switch_changed(*old(reactor), *final(reactor)),
            ({
                let before = *old(reactor);
                let after = *final(reactor);
                let targets = after.refocus_manager.recent_workspace_targets;
                if cmd is SwitchToGlobalSlot {
                    &&& r@ == seq![Task::Go(Work::SwitchToGlobalSlot(cmd->SwitchToGlobalSlot_0))]
                    &&& after == before
                } else if is_workspace_command(cmd) {
                    &&& r@ == store_tasks(before, before.command_space(*sur)).push(
                        Task::Go(
                            Work::WorkspaceCommand {
                                command: cmd,
                                space: before.command_space(*sur),
                            },
                        ),
                    )
                    &&& after == before
                } else {
                    &&& r@ == window_command_tasks(before, cmd, *sur)
                    &&& after.workspace_switch_manager@ == settled(before.workspace_switch_manager@)
                    &&& targets@ == match deferred_target(before, cmd, *sur) {
                        Some((window, slot)) => before.with_recent_target(
                            window,
                            before.slot_home(slot),
                            sur.now,
                        ),
                        None => before.refocus_manager.recent_workspace_targets@,
                    }
                }
            }),
    {
        match cmd {
            LayoutCommand::SwitchToGlobalSlot(slot) => {
                return one_task(Task::Go(Work::SwitchToGlobalSlot(slot)));
            },
            LayoutCommand::NextWorkspace(_)
            | LayoutCommand::PrevWorkspace(_)
            | LayoutCommand::SwitchToWorkspace(_)
            | LayoutCommand::CreateWorkspace
            | LayoutCommand::SwitchToLastWorkspace
            | LayoutCommand::ToggleHiddenWorkspace => {
                let space: Option<SpaceId> = reactor.workspace_command_space(sur);
                let tasks: Vec<Task> = reactor.store_current_floating_positions(space);
                return then_task(
                    tasks,
                    Task::Go(Work::WorkspaceCommand { command: cmd, space }),
                );
            },
            _ => {},
        }
        let tasks: Vec<Task> = Self::plan_window_command(reactor, cmd, sur);
        if let LayoutCommand::MoveWindowToWorkspace { workspace, window_id: None } = cmd {
            if let Some(window) = Self::current_window_of_command(reactor, sur) {
                if reactor.workspace_for_window(window).is_none() {
                    let _ = reactor.remember_recent_workspace_target_for_slot(
                        window,
                        workspace,
                        sur.now,
                    );
                }
            }
        }
        reactor.workspace_switch_manager.mark_workspace_switch_inactive();
        reactor.workspace_switch_manager.active_workspace_switch = None;
        tasks
    }

    /// Puts a command on workspaces to the workspace model.
    pub fn workspace_command_due(
        reactor: &Reactor,
        command: LayoutCommand,
        space: Option<SpaceId>,
    ) -> (r: Vec<Task>)
        ensures
            r@.len() == 1,
            match r@[0] {
                Task::Ask(Question::Core(input), next) => {
                    &&& next == (Work::WorkspaceCommanded {
                        is_switch: is_workspace_switch(command),
                        space,
                    })
                    &&& input matches crate::reactor::task::CoreInput::Command(
                        CoreCommand::Workspace(core),
                    ) && command_display(*reactor, space) matches Some(display)
                        && means_on_display(reactor.core.workspaces@, display, command, core)
                },
                task => {
                    &&& task == Task::Go(Work::RespondNothing(space))
                    &&& !is_workspace_command(command) || command_display(*reactor, space) is None
                        || (command matches LayoutCommand::SwitchToWorkspace(index)
                        && command_display(*reactor, space) matches Some(display) && index
                        >= crate::reactor::events::command::display_numbers(
                        reactor.core.workspaces@,
                        display,
                    ).len())
                },
            },
    {
        let is_switch: bool = match command {
            LayoutCommand::NextWorkspace(_)
            | LayoutCommand::PrevWorkspace(_)
            | LayoutCommand::SwitchToWorkspace(_)
            | LayoutCommand::SwitchToLastWorkspace
            | LayoutCommand::ToggleHiddenWorkspace => true,
            _ => false,
        };
        match Self::workspace_command(reactor, space, command) {
            Ok(core) => one_task(
                ask_core(
                    CoreCommand::Workspace(core),
                    Work::WorkspaceCommanded { is_switch, space },
                ),
            ),
            Err(_) => one_task(Task::Go(Work::RespondNothing(space))),
        }
    }

    /// The workspace model has answered a command on workspaces.
    pub fn workspace_commanded(
        reactor: &mut Reactor,
        reply: Result<Transition, CoreError>,
        is_switch: bool,
        space: Option<SpaceId>,
    ) -> (r: Vec<Task>)
        requires
            old(reactor).wf(),
            reply_in_range(reply),
        ensures
            final(reactor).wf(),
            *final(reactor) == (Reactor {
                core: core_after(old(reactor).core, reply),
                workspace_switch_manager: final(reactor).workspace_switch_manager,
                ..*old(reactor)
            }),
            final(reactor).workspace_switch_manager@ == switch_after_command(
                old(reactor).workspace_switch_manager@,
                reply,
                is_switch,
            ),
            r@.len() == 1,
            match reply {
                Ok(transition) => r@[0] matches Task::Go(Work::Respond(response, s)) && s == space
                    && response@ == wanted_by(transition),
                Err(_) => r@[0] == Task::Go(Work::RespondNothing(space)),
            },
    {
        match reactor.core_replied(reply) {
            Some(response) => {
                if is_switch {
                    reactor.workspace_switch_manager.start_workspace_switch(
                        WorkspaceSwitchOrigin::Manual,
                    );
                } else {
                    reactor.workspace_switch_manager.mark_workspace_switch_inactive();
                }
                one_task(Task::Go(Work::Respond(response, space)))
            },
            None => one_task(Task::Go(Work::RespondNothing(space))),
        }
    }

    /// The window in use was moved to a workspace, or not. The log is told
    /// where it was asked for.
    pub fn current_window_moved(
        reactor: &mut Reactor,
        reply: Result<Transition, CoreError>,
        window: WindowId,
        layout_focus: Option<WindowId>,
        noted: bool,
        sur: &Surroundings,
    ) -> (r: Vec<Task>)
        requires
            old(reactor).wf(),
            reply_in_range(reply),
        ensures
            final(reactor).wf(),
            *final(reactor) == (Reactor {
                core: core_after(old(reactor).core, reply),
                ..*old(reactor)
            }),
            r@ == moved_window_tasks(*final(reactor), reply, window, layout_focus, noted, *sur),
    {
        let mut tasks: Vec<Task> = no_tasks();
        match reply {
            Ok(transition) => {
                reactor.core = transition.snapshot;
            },
            Err(error) => {
                if noted {
                    tasks.push(note_result(MoveResult::Rejected(error)));
                }
                tasks.push(Task::Go(Work::RespondNothing(None)));
                assert(tasks@ =~= (if noted {
                    seq![result_task(MoveResult::Rejected(error))]
                } else {
                    Seq::empty()
                }) + seq![Task::Go(Work::RespondNothing(None))]);
                return tasks;
            },
        }
        let focused: bool = match layout_focus {
            Some(focus) => focus == window,
            None => false,
        };
        let assigned: bool = match reactor.workspace_for_window(window) {
            Some(workspace) => reactor.space_for_workspace(workspace).is_some(),
            None => false,
        };
        if !focused && (assigned || reactor.intended_space_for_window_id(window, sur).is_some()) {
            tasks.push(Task::Go(Work::LayoutEvent(LayoutEvent::WindowFocused(window))));
        }
        let ghost focus = tasks@;
        tasks.push(Task::Go(Work::RememberTarget(window)));
        if noted {
            tasks.push(Task::Go(Work::NoteMoveAccepted(window)));
        }
        tasks.push(Task::Go(Work::RespondNothing(None)));
        assert(tasks@ =~= focus + seq![Task::Go(Work::RememberTarget(window))] + (if noted {
            seq![Task::Go(Work::NoteMoveAccepted(window))]
        } else {
            Seq::empty()
        }) + seq![Task::Go(Work::RespondNothing(None))]);
        tasks
    }

    /// A window named by its index was moved to a workspace, or not.
    pub fn window_moved(
        reactor: &mut Reactor,
        reply: Result<Transition, CoreError>,
        window: WindowId,
        now: u64,
    ) -> (r: Vec<Task>)
        requires
            old(reactor).wf(),
            reply_in_range(reply),
            now <= u64::MAX - RECENT_WORKSPACE_TARGET_TIMEOUT,
        ensures
            final(reactor).wf(),
            only_targets_changed(
                Reactor { core: core_after(old(reactor).core, reply), ..*old(reactor) },
                *final(reactor),
            ),
            final(reactor).refocus_manager.recent_workspace_targets@ == match reply {
                Ok(_) => (Reactor {
                    core: core_after(old(reactor).core, reply),
                    ..*old(reactor)
                }).remembering(window, now),
                Err(_) => old(reactor).refocus_manager.recent_workspace_targets@,
            },
            r@ == match reply {
                Ok(_) => seq![Task::Go(Work::RespondNothing(None))],
                Err(_) => Seq::empty(),
            },
    {
        if reactor.core_replied(reply).is_none() {
            return no_tasks();
        }
        reactor.remember_recent_workspace_target(window, now);
        one_task(Task::Go(Work::RespondNothing(None)))
    }

    /// The workspace model has answered a command on a window.
    pub fn layout_commanded(
        reactor: &mut Reactor,
        reply: Result<Transition, CoreError>,
        direction: Option<Direction>,
    ) -> (r: Vec<Task>)
        requires
            old(reactor).wf(),
            reply_in_range(reply),
        ensures
            final(reactor).wf(),
            *final(reactor) == (Reactor {
                core: core_after(old(reactor).core, reply),
                ..*old(reactor)
            }),
            match reply {
                Ok(transition) => r@.len() == 1 && (r@[0] matches Task::Go(
                    Work::Respond(response, None),
                ) && response@ == wanted_by_effects(transition.effects@)),
                Err(error) => if reached_boundary(error) {
                    r@.len() == 1 && (r@[0] matches Task::Go(Work::Respond(response, None))
                        && response@ == (ResponseModel {
                        boundary: direction,
                        ..nothing_wanted()
                    }))
                } else {
                    r@.len() == 0
                },
            },
    {
        match reply {
            Ok(transition) => {
                let response: EventResponse = response_for_effects(&transition.effects);
                reactor.core = transition.snapshot;
                one_task(Task::Go(Work::Respond(response, None)))
            },
            Err(error) => {
                if error.is_boundary() {
                    let mut response: EventResponse = EventResponse::default();
                    response.boundary_hit = direction;
                    one_task(Task::Go(Work::Respond(response, None)))
                } else {
                    no_tasks()
                }
            },
        }
    }
}

impl Reactor {
    /// The remembered targets once a window's assignment is remembered too.
    pub open spec fn remembering(&self, window: WindowId, now: u64) -> Map<
        WindowId,
        crate::reactor::managers::RecentWorkspaceTarget,
    > {
        self.with_recent_target(window, self.assignment(window), now)
    }
}

/// Sending the window in use to a slot of the number row asks the model to
/// move that very window to the workspace of the slot's number. A window that
/// has no workspace yet is not moved, but remembered for the slot; without a
/// window, or past the last slot, nothing is asked.
pub proof fn law_window_in_use_is_sent_to_the_slot(
    m: Reactor,
    slot: usize,
    window: WindowId,
    sur: Surroundings,
)
    requires
        command_window(m, sur) == Some(window),
    ensures
        ({
            let command = LayoutCommand::MoveWindowToWorkspace { workspace: slot, window_id: None };
            let tasks = window_command_tasks(m, command, sur);
            &&& m.assigned_workspace(window) is Some && slot < 10 ==> tasks.len() == 2
                && tasks[1] == core_task(
                CoreCommand::Workspace(
                    WorkspaceCommand::MoveWindow {
                        workspace: WorkspaceNumber(((slot + 1) % 10) as u8),
                        window: Some(window),
                    },
                ),
                Work::CurrentWindowMoved {
                    window,
                    layout_focus: m.core.focused_window,
                    noted: true,
                },
            ) && deferred_target(m, command, sur) is None
            &&& m.assigned_workspace(window) is None ==> tasks.len() == 3 && tasks[2] == Task::Go(
                Work::RespondNothing(None),
            ) && deferred_target(m, command, sur) == Some((window, slot))
            &&& m.assigned_workspace(window) is Some && slot >= 10 ==> tasks.len() == 3 && tasks[2]
                == Task::Go(Work::RespondNothing(None)) && deferred_target(m, command, sur) is None
        }),
{
}

/// Sending a window by its index moves the window that the index means, and
/// none where it means none.
pub proof fn law_indexed_window_is_sent_to_the_slot(
    m: Reactor,
    slot: usize,
    index: u32,
    sur: Surroundings,
)
    requires
        slot < 10,
    ensures
        match m.window_with_index(index, m.command_space(sur), sur) {
            Some(window) => window_command_tasks(
                m,
                LayoutCommand::MoveWindowToWorkspace { workspace: slot, window_id: Some(index) },
                sur,
            ) == seq![
                core_task(
                    CoreCommand::Workspace(
                        WorkspaceCommand::MoveWindow {
                            workspace: WorkspaceNumber(((slot + 1) % 10) as u8),
                            window: Some(window),
                        },
                    ),
                    Work::WindowMoved { window },
                ),
            ] && window_command_tasks(
                m,
                LayoutCommand::MoveWindowToHiddenWorkspace { window_id: Some(index) },
                sur,
            ) == seq![
                core_task(
                    CoreCommand::Workspace(
                        WorkspaceCommand::MoveWindowToHidden { window: Some(window) },
                    ),
                    Work::WindowMoved { window },
                ),
            ],
            None => window_command_tasks(
                m,
                LayoutCommand::MoveWindowToWorkspace { workspace: slot, window_id: Some(index) },
                sur,
            ).len() == 0 && window_command_tasks(
                m,
                LayoutCommand::MoveWindowToHiddenWorkspace { window_id: Some(index) },
                sur,
            ).len() == 0,
        },
{
}

/// Hiding and floating are about the right window: the window in use is sent
/// to the hidden workspace, and the focused one is made to float or not.
pub proof fn law_hiding_and_floating(m: Reactor, window: WindowId, sur: Surroundings)
    ensures
        command_window(m, sur) == Some(window) ==> window_command_tasks(
            m,
            LayoutCommand::MoveWindowToHiddenWorkspace { window_id: None },
            sur,
        ) == seq![
            core_task(
                CoreCommand::Workspace(
                    WorkspaceCommand::MoveWindowToHidden { window: Some(window) },
                ),
                Work::CurrentWindowMoved {
                    window,
                    layout_focus: m.core.focused_window,
                    noted: false,
                },
            ),
        ],
        command_window(m, sur) is None ==> window_command_tasks(
            m,
            LayoutCommand::MoveWindowToHiddenWorkspace { window_id: None },
            sur,
        ).len() == 0,
        m.core.focused_window == Some(window) ==> window_command_tasks(
            m,
            LayoutCommand::ToggleWindowFloating,
            sur,
        )[0] == core_task(
            CoreCommand::Window(WindowCommand::ToggleFloating { window: Some(window) }),
            Work::Done,
        ),
        m.core.focused_window is None ==> window_command_tasks(
            m,
            LayoutCommand::ToggleWindowFloating,
            sur,
        ) == seq![Task::Go(Work::RespondNothing(None))],
{
}

/// A command without a window is about the window under the cursor if focus
/// follows the mouse, and about the model's focused window if no main window
/// is known.
pub proof fn law_command_window_follows_the_settings(
    m: Reactor,
    wsid: WindowServerId,
    window: WindowId,
    sur: Surroundings,
)
    ensures
        m.config.settings.focus_follows_mouse && sur.window_under_cursor == Some(wsid)
            && m.window_manager.window_ids@.contains_key(wsid) ==> command_window(m, sur) == Some(
            m.window_manager.window_ids@[wsid],
        ),
        !m.config.settings.focus_follows_mouse && m.main_window_tracker@.main_window() is None
            && m.core.focused_window == Some(window) ==> command_window(m, sur) == Some(window),
{
}

/// The switch after a command on workspaces was answered.
pub open spec fn switch_after_command(
    m: SwitchModel,
    reply: Result<Transition, CoreError>,
    is_switch: bool,
) -> SwitchModel {
    match reply {
        Ok(_) => if is_switch {
            m.started(WorkspaceSwitchOrigin::Manual)
        } else {
            m.inactive()
        },
        Err(_) => m,
    }
}

/// What follows once the model has answered on a move of the window in use.
pub open spec fn moved_window_tasks(
    after: Reactor,
    reply: Result<Transition, CoreError>,
    window: WindowId,
    layout_focus: Option<WindowId>,
    noted: bool,
    sur: Surroundings,
) -> Seq<Task> {
    match reply {
        Ok(_) => (if layout_focus != Some(window) && (after.assignment(window)
            is Some || after.intended_space_of(window, sur) is Some) {
            seq![Task::Go(Work::LayoutEvent(LayoutEvent::WindowFocused(window)))]
        } else {
            Seq::empty()
        }) + seq![Task::Go(Work::RememberTarget(window))] + (if noted {
            seq![Task::Go(Work::NoteMoveAccepted(window))]
        } else {
            Seq::empty()
        }) + seq![Task::Go(Work::RespondNothing(None))],
        Err(error) => (if noted {
            seq![result_task(MoveResult::Rejected(error))]
        } else {
            Seq::empty()
        }) + seq![Task::Go(Work::RespondNothing(None))],
    }
}

/// A command that brings another workspace into view starts a switch of the
/// user's own once the model has accepted it; any other ends the one in
/// progress; a refused one changes nothing.
pub proof fn law_accepted_command_starts_a_switch(
    m: SwitchModel,
    transition: Transition,
    error: CoreError,
    is_switch: bool,
)
    ensures
        switch_after_command(m, Err(error), is_switch) == m,
        ({
            let s = switch_after_command(m, Ok(transition), true);
            s.state == WorkspaceSwitchState::Active && s.origin == Some(
                WorkspaceSwitchOrigin::Manual,
            ) && s.active is Some && s.active != Some(m.generation)
        }),
        switch_after_command(m, Ok(transition), false).state == WorkspaceSwitchState::Inactive,
        switch_after_command(m, Ok(transition), false).active == m.active,
{
}

/// A window that the model has moved is remembered where it went, and focused
/// if it is not what the layout focused and is somewhere; a refused move is
/// remembered nowhere.
pub proof fn law_moved_window_is_remembered(
    after: Reactor,
    transition: Transition,
    error: CoreError,
    window: WindowId,
    layout_focus: Option<WindowId>,
    noted: bool,
    sur: Surroundings,
)
    ensures
        ({
            let done = moved_window_tasks(
                after,
                Ok(transition),
                window,
                layout_focus,
                noted,
                sur,
            );
            let refused = moved_window_tasks(
                after,
                Err(error),
                window,
                layout_focus,
                noted,
                sur,
            );
            let focused = Task::Go(Work::LayoutEvent(LayoutEvent::WindowFocused(window)));
            let remembered = Task::Go(Work::RememberTarget(window));
            &&& done.contains(remembered) && !refused.contains(remembered)
            &&& layout_focus == Some(window) ==> !done.contains(focused)
            &&& layout_focus != Some(window) && after.intended_space_of(window, sur) is Some
                ==> done[0] == focused
            &&& done.last() == Task::Go(Work::RespondNothing(None)) && refused.last() == Task::Go(
                Work::RespondNothing(None),
            )
        }),
{
    let done = moved_window_tasks(after, Ok(transition), window, layout_focus, noted, sur);
    let remembered = Task::Go(Work::RememberTarget(window));
    assert(done[0] == remembered || done[1] == remembered);
}

} // verus!
