//! Commands on displays, single windows, Mission Control and the settings.

use vstd::prelude::*;

use crate::app::{Quiet, Request, WindowId};
use crate::collections::lemma_first;
use crate::config::{keys_are_same, same_config, same_keys, Config};
use crate::event::{Direction, DisplaySelector, ReactorCommand, ScreenInfo};
use crate::event_tap::input::Request as TapRequest;
use crate::geometry::{centre_on, centred, Point, Rect};
use crate::ids::{pid_t, SpaceId, TransactionId, WindowServerId};
use crate::model::{
    CoreCommand, CoreError, Effect, MissionControlCommand, Transition, WindowCommand, WorkspaceId,
};
use crate::reactor::diagnostics::{note, note_task, DiagnosticNote};
use crate::reactor::events::command::CommandEventHandler;
use crate::reactor::events::layout_command::command_window;
use crate::reactor::events::reactor_command::{focus_tasks, focus_window_tasks, warp_task};
use crate::reactor::layout_response::nested;
use crate::reactor::managers::{
    law_screen_of_a_space_is_the_first_that_shows_it, MenuState, WindowManager, WindowState,
};
use crate::reactor::screens::{next_towards, screen_holding};
use crate::reactor::spaces::{only_targets_changed, RECENT_WORKSPACE_TARGET_TIMEOUT};
use crate::reactor::surroundings::Surroundings;
use crate::reactor::task::{
    ask_core, core_task, no_tasks, one_task, three_tasks, two_tasks, CoreInput, LayoutEvent, Message,
    PolicyNote, Question, RaiseRequest, Task, Work,
};
use crate::reactor::transactions::{TransactionManager, WriteRecord};
use crate::reactor::transition::{core_after, reply_in_range, wanted_by};
use crate::reactor::Reactor;
use crate::wm_controller::WmCmd;

verus! {

/// Whether a task asks the raise manager for one window: to focus it, and to
/// raise the given windows as one group.
pub open spec fn is_single_raise(
    task: Task,
    reactor: Reactor,
    raises: Seq<WindowId>,
    window: WindowId,
    warp: Option<Point>,
    quiet: Quiet,
) -> bool {
    task matches Task::Tell(Message::Raise(request)) && nested(request.raise_windows@)
        == if raises.len() > 0 {
        seq![raises]
    } else {
        Seq::empty()
    } && request.focus_window == Some((window, warp)) && request.apps@
        == if reactor.app_manager.apps@.contains_key(window.pid) {
        seq![window.pid]
    } else {
        Seq::empty()
    } && request.focus_quiet == quiet && request.workspace_switch_generation is None
}

impl Reactor {
    fn single_raise(
        &self,
        raise: bool,
        window: WindowId,
        warp: Option<Point>,
        quiet: Quiet,
    ) -> (r: Task)
        ensures
            is_single_raise(
                r,
                *self,
                if raise {
                    seq![window]
                } else {
                    Seq::empty()
                },
                window,
                warp,
                quiet,
            ),
    {
        let mut raise_windows: Vec<Vec<WindowId>> = Vec::new();
        if raise {
            let mut group: Vec<WindowId> = Vec::new();
            group.push(window);
            assert(group@ =~= seq![window]);
            raise_windows.push(group);
        }
        let mut apps: Vec<pid_t> = Vec::new();
        if self.app_manager.apps.contains_key(window.pid) {
            apps.push(window.pid);
        }
        proof {
            assert(nested(raise_windows@) =~= if raise {
                seq![seq![window]]
            } else {
                Seq::empty()
            });
            assert(apps@ =~= if self.app_manager.apps@.contains_key(window.pid) {
                seq![window.pid]
            } else {
                Seq::empty()
            });
        }
        Task::Tell(
            Message::Raise(
                RaiseRequest {
                    raise_windows,
                    focus_window: Some((window, warp)),
                    apps,
                    focus_quiet: quiet,
                    workspace_switch_generation: None,
                },
            ),
        )
    }

    /// Raises and focuses one window.
    pub fn raise_window(&self, wid: WindowId, quiet: Quiet, warp: Option<Point>) -> (r: Task)
        ensures
            is_single_raise(r, *self, seq![wid], wid, warp, quiet),
    {
        self.single_raise(true, wid, warp, quiet)
    }

    /// Where the cursor goes with the focus.
    pub open spec fn follow_window(&self, window: WindowId, follow: bool) -> Option<Point> {
        if follow && self.config.settings.mouse_follows_focus {
            self.middle_on_screen(window)
        } else {
            None
        }
    }

    /// Focuses a window whose focus the workspace model knows of, so that the
    /// system's focus goes to its display too.
    pub fn raise_focused(&self, window: WindowId, follow: bool) -> (r: Vec<Task>)
        requires
            self.wf(),
        ensures
            r@.len() == 1,
            is_single_raise(
                r@[0],
                *self,
                Seq::empty(),
                window,
                self.follow_window(window, follow),
                Quiet::No,
            ),
    {
        let warp: Option<Point> = if follow && self.config.settings.mouse_follows_focus {
            self.window_center_on_known_screen(window)
        } else {
            None
        };
        one_task(self.single_raise(false, window, warp, Quiet::No))
    }

    /// Whether moving the mouse over a window may focus it.
    pub open spec fn focus_may_follow(&self) -> bool {
        self.config.settings.focus_follows_mouse && self.menu_manager.menu_state
            == MenuState::Closed && !self.core.mission_control_active
    }

    /// Tells the event tap whether focus follows the mouse.
    pub fn update_focus_follows_mouse_state(&self) -> (r: Task)
        ensures
            r == Task::Tell(
                Message::Tap(TapRequest::SetFocusFollowsMouseEnabled(self.focus_may_follow())),
            ),
    {
        let enabled: bool = self.config.settings.focus_follows_mouse && self.menu_manager.menu_state
            == MenuState::Closed && !self.core.mission_control_active;
        Task::Tell(Message::Tap(TapRequest::SetFocusFollowsMouseEnabled(enabled)))
    }

    /// Tells the workspace model that Mission Control came or went.
    pub fn set_mission_control_active(&self, active: bool) -> (r: Vec<Task>)
        ensures
            r@ == if self.core.mission_control_active == active {
                Seq::empty()
            } else {
                seq![
                    Task::Ask(
                        Question::Core(CoreInput::MissionControl { active }),
                        Work::MissionControlObserved,
                    ),
                ]
            },
    {
        if self.core.mission_control_active == active {
            no_tasks()
        } else {
            one_task(
                Task::Ask(
                    Question::Core(CoreInput::MissionControl { active }),
                    Work::MissionControlObserved,
                ),
            )
        }
    }

    /// The workspace model knows whether Mission Control is there, or not.
    pub fn mission_control_observed(&mut self, reply: Result<Transition, CoreError>) -> (r: Vec<
        Task,
    >)
        requires
            old(self).wf(),
            reply_in_range(reply),
        ensures
            final(self).wf(),
            *final(self) == (Reactor { core: core_after(old(self).core, reply), ..*old(self) }),
            r@ == match reply {
                Ok(_) => seq![
                    Task::Tell(
                        Message::Tap(
                            TapRequest::SetFocusFollowsMouseEnabled(final(self).focus_may_follow()),
                        ),
                    ),
                ],
                Err(_) => Seq::empty(),
            },
    {
        match self.core_replied(reply) {
            Some(_) => one_task(self.update_focus_follows_mouse_state()),
            None => no_tasks(),
        }
    }
}

/// What the controller is asked to do for a command on Mission Control.
pub open spec fn mission_control_wm_cmd(command: MissionControlCommand) -> WmCmd {
    match command {
        MissionControlCommand::ShowAll => WmCmd::ShowMissionControlAll,
        MissionControlCommand::ShowCurrent => WmCmd::ShowMissionControlCurrent,
        MissionControlCommand::Dismiss => WmCmd::DismissMissionControl,
    }
}

/// Whether a screen's space keeps commands off it.
pub open spec fn is_off_limits(reactor: Reactor, space: Option<SpaceId>) -> bool {
    space matches Some(s) && !reactor.is_active(s)
}

/// The space that a window is to be moved away from.
pub open spec fn source_space(
    reactor: Reactor,
    window: WindowId,
    w: WindowState,
    sur: Surroundings,
) -> Option<SpaceId> {
    match reactor.assignment(window) {
        Some((space, _)) => Some(space),
        None => reactor.best_space(w.frame_monotonic, w.sys_id, sur),
    }
}

/// The screen that a window on a space is to be moved to, if it is managed
/// and another one.
pub open spec fn target_screen(
    reactor: Reactor,
    source: SpaceId,
    selector: DisplaySelector,
    sur: Surroundings,
) -> Option<int> {
    let origin = match reactor.middle_of_space(Some(source)) {
        Some(p) => Some(p),
        None => reactor.current_middle(sur),
    };
    match reactor.selected_screen(selector, origin, sur) {
        Some(i) => match reactor.space_manager.screens@[i].space {
            Some(space) => if reactor.is_active(space) && space != source {
                Some(i)
            } else {
                None
            },
            None => None,
        },
        None => None,
    }
}

/// The window to move to another display, and that display's screen.
pub open spec fn display_move(
    reactor: Reactor,
    selector: DisplaySelector,
    window_idx: Option<u32>,
    sur: Surroundings,
) -> Option<(WindowId, int)> {
    if reactor.in_drag() {
        None
    } else {
        let resolved = match window_idx {
            Some(index) => reactor.window_with_index(index, reactor.command_space(sur), sur),
            None => command_window(reactor, sur),
        };
        match resolved {
            Some(window) => match reactor.window_manager.window_spec(window) {
                Some(w) => match source_space(reactor, window, w, sur) {
                    Some(source) => if reactor.is_active(source) {
                        match target_screen(reactor, source, selector, sur) {
                            Some(i) => Some((window, i)),
                            None => None,
                        }
                    } else {
                        None
                    },
                    None => None,
                },
                None => None,
            },
            None => None,
        }
    }
}

/// The number of the frame write for a window.
pub open spec fn write_number(reactor: Reactor, w: WindowState) -> TransactionId {
    match w.sys_id {
        Some(wsid) => reactor.transaction_manager.next_txid(wsid),
        None => TransactionId(0),
    }
}

/// The frame writes under way after one more to a window.
pub open spec fn writes_after(
    reactor: Reactor,
    w: WindowState,
) -> Map<WindowServerId, WriteRecord> {
    let records = reactor.transaction_manager.records@;
    match w.sys_id {
        Some(wsid) => records.insert(
            wsid,
            WriteRecord {
                last_sent: reactor.transaction_manager.next_txid(wsid),
                target: reactor.transaction_manager.record(wsid).target,
            },
        ),
        None => records,
    }
}

impl CommandEventHandler {
    /// Begins a command to the reactor.
    pub fn handle_command_reactor(cmd: ReactorCommand) -> (r: Vec<Task>)
        ensures
            r@ == match cmd {
                ReactorCommand::Debug | ReactorCommand::Serialize => seq![
                    Task::Tell(Message::PrintState),
                ],
                ReactorCommand::SaveAndExit => seq![
                    core_task(CoreCommand::SaveAndExit, Work::ExitReplied),
                ],
                ReactorCommand::SwitchSpace(direction) => seq![
                    Task::Tell(Message::SwitchSpace(direction)),
                ],
                ReactorCommand::ToggleSpaceActivated => seq![Task::Go(Work::ToggleSpaceActivated)],
                ReactorCommand::FocusWindow { window_id, window_server_id } => seq![
                    Task::Go(Work::FocusWindow { window: window_id, window_server_id }),
                ],
                ReactorCommand::FocusNextWindow => seq![Task::Go(Work::FocusNextWindow)],
                ReactorCommand::CancelFocusNextWindow => seq![
                    Task::Go(Work::CancelFocusNextWindow),
                ],
                ReactorCommand::ShowMissionControlAll => seq![
                    core_task(
                        CoreCommand::MissionControl(MissionControlCommand::ShowAll),
                        Work::MissionControlCommanded(MissionControlCommand::ShowAll),
                    ),
                ],
                ReactorCommand::ShowMissionControlCurrent => seq![
                    core_task(
                        CoreCommand::MissionControl(MissionControlCommand::ShowCurrent),
                        Work::MissionControlCommanded(MissionControlCommand::ShowCurrent),
                    ),
                ],
                ReactorCommand::DismissMissionControl => seq![
                    core_task(
                        CoreCommand::MissionControl(MissionControlCommand::Dismiss),
                        Work::MissionControlCommanded(MissionControlCommand::Dismiss),
                    ),
                ],
                ReactorCommand::MoveMouseToDisplay(selector) => seq![
                    Task::Go(Work::MoveMouseToDisplay(selector)),
                ],
                ReactorCommand::FocusDisplay(selector) => seq![
                    Task::Go(Work::FocusDisplay(selector)),
                ],
                ReactorCommand::CloseWindow { window_server_id } => seq![
                    Task::Go(Work::CloseWindow { window_server_id }),
                ],
                ReactorCommand::MoveWindowToDisplay { selector, window_id } => seq![
                    Task::Go(Work::MoveWindowToDisplay { selector, window_id }),
                ],
            },
    {
        let task: Task = match cmd {
            ReactorCommand::Debug | ReactorCommand::Serialize => Task::Tell(Message::PrintState),
            ReactorCommand::SaveAndExit => ask_core(CoreCommand::SaveAndExit, Work::ExitReplied),
            ReactorCommand::SwitchSpace(direction) => Task::Tell(Message::SwitchSpace(direction)),
            ReactorCommand::ToggleSpaceActivated => Task::Go(Work::ToggleSpaceActivated),
            ReactorCommand::FocusWindow { window_id, window_server_id } => Task::Go(
                Work::FocusWindow { window: window_id, window_server_id },
            ),
            ReactorCommand::FocusNextWindow => Task::Go(Work::FocusNextWindow),
            ReactorCommand::CancelFocusNextWindow => Task::Go(Work::CancelFocusNextWindow),
            ReactorCommand::ShowMissionControlAll => ask_core(
                CoreCommand::MissionControl(MissionControlCommand::ShowAll),
                Work::MissionControlCommanded(MissionControlCommand::ShowAll),
            ),
            ReactorCommand::ShowMissionControlCurrent => ask_core(
                CoreCommand::MissionControl(MissionControlCommand::ShowCurrent),
                Work::MissionControlCommanded(MissionControlCommand::ShowCurrent),
            ),
            ReactorCommand::DismissMissionControl => ask_core(
                CoreCommand::MissionControl(MissionControlCommand::Dismiss),
                Work::MissionControlCommanded(MissionControlCommand::Dismiss),
            ),
            ReactorCommand::MoveMouseToDisplay(selector) => Task::Go(
                Work::MoveMouseToDisplay(selector),
            ),
            ReactorCommand::FocusDisplay(selector) => Task::Go(Work::FocusDisplay(selector)),
            ReactorCommand::CloseWindow { window_server_id } => Task::Go(
                Work::CloseWindow { window_server_id },
            ),
            ReactorCommand::MoveWindowToDisplay { selector, window_id } => Task::Go(
                Work::MoveWindowToDisplay { selector, window_id },
            ),
        };
        one_task(task)
    }

    /// The workspace model has answered a command on Mission Control. If the
    /// controller cannot be reached, a dismissal is taken for granted.
    pub fn mission_control_commanded(
        reactor: &mut Reactor,
        reply: Result<Transition, CoreError>,
        command: MissionControlCommand,
    ) -> (r: Vec<Task>)
        requires
            old(reactor).wf(),
            reply_in_range(reply),
        ensures
            final(reactor).wf(),
            *final(reactor) == (Reactor {
                core: core_after(old(reactor).core, reply),
                ..*old(reactor)
            }),
            r@ == if reply is Err {
                Seq::empty()
            } else if old(reactor).wm_registered {
                seq![Task::Tell(Message::Wm(mission_control_wm_cmd(command)))]
            } else if command == MissionControlCommand::Dismiss
                && final(reactor).core.mission_control_active {
                seq![
                    Task::Ask(
                        Question::Core(CoreInput::MissionControl { active: false }),
                        Work::MissionControlObserved,
                    ),
                ]
            } else {
                Seq::empty()
            },
    {
        if reactor.core_replied(reply).is_none() {
            return no_tasks();
        }
        if reactor.wm_registered {
            let cmd: WmCmd = match command {
                MissionControlCommand::ShowAll => WmCmd::ShowMissionControlAll,
                MissionControlCommand::ShowCurrent => WmCmd::ShowMissionControlCurrent,
                MissionControlCommand::Dismiss => WmCmd::DismissMissionControl,
            };
            return one_task(Task::Tell(Message::Wm(cmd)));
        }
        if command == MissionControlCommand::Dismiss {
            reactor.set_mission_control_active(false)
        } else {
            no_tasks()
        }
    }

    pub fn handle_command_reactor_toggle_space_activated(reactor: &Reactor, sur: &Surroundings) -> (r:
        Vec<Task>)
        requires
            reactor.wf(),
            sur.wf(),
        ensures
            ({
                let toggled = match reactor.cursor_space(*sur) {
                    Some(space) => Some(space),
                    None => reactor.first_space(),
                };
                match toggled {
                    Some(s) => {
                        &&& r@.len() == 2
                        &&& r@[0] matches Task::Tell(
                            Message::Policy(PolicyNote::Toggled { config, space, display }),
                        ) && config == reactor.activation_settings() && space == s && reactor.display_of_space(s) == (match display {
                            Some(uuid) => Some(uuid@),
                            None => None,
                        })
                        &&& r@[1] == Task::Go(Work::RecomputeSpaces)
                    },
                    None => r@.len() == 0,
                }
            }),
    {
        let focused: Option<SpaceId> = match reactor.space_for_cursor_screen(sur) {
            Some(space) => Some(space),
            None => reactor.space_manager.first_known_space(),
        };
        match focused {
            Some(space) => {
                let display: Option<String> = reactor.display_uuid_for_space(space);
                two_tasks(
                    Task::Tell(
                        Message::Policy(
                            PolicyNote::Toggled {
                                config: reactor.activation_cfg(),
                                space,
                                display,
                            },
                        ),
                    ),
                    Task::Go(Work::RecomputeSpaces),
                )
            },
            None => no_tasks(),
        }
    }

    pub fn handle_command_reactor_focus_window(
        reactor: &Reactor,
        window_id: WindowId,
        window_server_id: Option<WindowServerId>,
        sur: &Surroundings,
    ) -> (r: Vec<Task>)
        requires
            reactor.wf(),
        ensures
            r@ == focus_command_tasks(*reactor, window_id, window_server_id, *sur),
    {
        match reactor.window_manager.window(window_id) {
            Some(w) => match reactor.best_space_for_window_state(&w, sur) {
                Some(space) => if reactor.is_space_active(space) {
                    one_task(
                        ask_core(
                            CoreCommand::Window(WindowCommand::Activate { window: window_id }),
                            Work::FocusAccepted { window: window_id },
                        ),
                    )
                } else {
                    no_tasks()
                },
                None => no_tasks(),
            },
            None => match window_server_id {
                Some(wsid) => one_task(
                    Task::Ask(
                        Question::KeyWindow { pid: window_id.pid, window: wsid },
                        Work::Done,
                    ),
                ),
                None => no_tasks(),
            },
        }
    }

    /// The workspace model has accepted a focus request, or not.
    pub fn focus_accepted(
        reactor: &mut Reactor,
        reply: Result<Transition, CoreError>,
        window: WindowId,
    ) -> (r: Vec<Task>)
        requires
            old(reactor).wf(),
            reply_in_range(reply),
        ensures
            final(reactor).wf(),
            *final(reactor) == (Reactor {
                core: core_after(old(reactor).core, reply),
                ..*old(reactor)
            }),
            r@ == match reply {
                Ok(_) => focus_tasks(window, false),
                Err(_) => Seq::empty(),
            },
    {
        match reactor.core_replied(reply) {
            Some(_) => focus_window_tasks(window, false),
            None => no_tasks(),
        }
    }

    pub fn handle_command_reactor_move_mouse_to_display(
        reactor: &mut Reactor,
        selector: &DisplaySelector,
        sur: &Surroundings,
    ) -> (r: Vec<Task>)
        requires
            old(reactor).wf(),
            sur.wf(),
        ensures
            final(reactor).wf(),
            *final(reactor) == (Reactor {
                above_window: final(reactor).above_window,
                ..*old(reactor)
            }),
            mouse_moved_to_display(
                *old(reactor),
                *final(reactor),
                r@,
                *selector,
                *sur,
            ),
    {
        let i: usize = match reactor.screen_for_selector(selector, None, sur) {
            Some(i) => i,
            None => {
                return no_tasks();
            },
        };
        let space: Option<SpaceId> = reactor.space_manager.screens[i].space;
        if let Some(s) = space {
            if !reactor.is_space_active(s) {
                return no_tasks();
            }
        }
        let center: Point = reactor.space_manager.screens[i].frame.mid();
        let target: Option<WindowId> = reactor.first_window_to_focus(space, sur);
        reactor.above_window = None;
        let mut tasks: Vec<Task> = one_task(Task::Tell(Message::Tap(TapRequest::Warp(center))));
        let ghost warped = tasks@;
        if let Some(window) = target {
            tasks.push(Task::Go(Work::LayoutEvent(LayoutEvent::WindowFocused(window))));
            tasks.push(Task::Go(Work::RaiseFocused { window, follow: true }));
            assert(tasks@ =~= warped + focus_tasks(window, true));
        } else {
            assert(tasks@ =~= warped + Seq::empty());
        }
        tasks
    }

    pub fn handle_command_reactor_focus_display(
        reactor: &mut Reactor,
        selector: &DisplaySelector,
        sur: &Surroundings,
    ) -> (r: Vec<Task>)
        requires
            old(reactor).wf(),
            sur.wf(),
        ensures
            final(reactor).wf(),
            *final(reactor) == (Reactor {
                above_window: final(reactor).above_window,
                ..*old(reactor)
            }),
            display_focused(
                *old(reactor),
                *final(reactor),
                r@,
                *selector,
                *sur,
            ),
    {
        let i: usize = match reactor.screen_for_selector(selector, None, sur) {
            Some(i) => i,
            None => {
                return no_tasks();
            },
        };
        let space: Option<SpaceId> = reactor.space_manager.screens[i].space;
        if let Some(s) = space {
            if !reactor.is_space_active(s) {
                return no_tasks();
            }
        }
        match reactor.first_window_to_focus(space, sur) {
            Some(window) => focus_window_tasks(window, true),
            None => {
                reactor.above_window = None;
                let center: Point = reactor.space_manager.screens[i].frame.mid();
                one_task(Task::Tell(Message::Tap(TapRequest::Warp(center))))
            },
        }
    }

    /// The window to move to another display, and that display's screen.
    fn plan_display_move(
        reactor: &Reactor,
        selector: &DisplaySelector,
        window_idx: Option<u32>,
        sur: &Surroundings,
    ) -> (r: Option<(WindowId, usize)>)
        requires
            reactor.wf(),
            sur.wf(),
        ensures
            match r {
                Some((window, i)) => display_move(*reactor, *selector, window_idx, *sur) == Some(
                    (window, i as int),
                ) && i < reactor.space_manager.screens@.len()
                    && reactor.window_manager.windows@.contains_key(window),
                None => display_move(*reactor, *selector, window_idx, *sur) is None,
            },
    {
        if reactor.is_in_drag() {
            return None;
        }
        let resolved: Option<WindowId> = match window_idx {
            Some(index) => reactor.resolve_window_index(
                index,
                reactor.workspace_command_space(sur),
                sur,
            ),
            None => reactor.resolve_current_window_for_command(
                reactor.workspace_command_space(sur),
                reactor.config.settings.focus_follows_mouse,
                reactor.focused_window_for_command(),
                sur,
            ),
        };
        let window: WindowId = match resolved {
            Some(window) => window,
            None => {
                return None;
            },
        };
        let w: WindowState = match reactor.window_manager.window(window) {
            Some(w) => w,
            None => {
                return None;
            },
        };
        let assigned: Option<SpaceId> = match reactor.workspace_for_window(window) {
            Some(workspace) => reactor.space_for_workspace(workspace),
            None => None,
        };
        let source: SpaceId = match assigned {
            Some(space) => space,
            None => match reactor.best_space_for_window_state(&w, sur) {
                Some(space) => space,
                None => {
                    return None;
                },
            },
        };
        if !reactor.is_space_active(source) {
            return None;
        }
        let origin: Option<Point> = match reactor.space_center(Some(source)) {
            Some(p) => Some(p),
            None => reactor.current_screen_center(sur),
        };
        match reactor.screen_for_selector(selector, origin, sur) {
            Some(i) => match reactor.space_manager.screens[i].space {
                Some(space) => if reactor.is_space_active(space) && space != source {
                    Some((window, i))
                } else {
                    None
                },
                None => None,
            },
            None => None,
        }
    }

    /// Moves a window to the middle of another display and tells the
    /// workspace model.
    pub fn handle_command_reactor_move_window_to_display(
        reactor: &mut Reactor,
        selector: &DisplaySelector,
        window_idx: Option<u32>,
        sur: &Surroundings,
    ) -> (r: Vec<Task>)
        requires
            old(reactor).wf(),
            sur.wf(),
        ensures
            final(reactor).wf(),
            *final(reactor) == (Reactor {
                window_manager: WindowManager {
                    windows: final(reactor).window_manager.windows,
                    ..old(reactor).window_manager
                },
                transaction_manager: final(reactor).transaction_manager,
                ..*old(reactor)
            }),
            window_sent_to_display(
                *old(reactor),
                *final(reactor),
                r@,
                *selector,
                window_idx,
                *sur,
            ),
    {
        let (window, i): (WindowId, usize) = match Self::plan_display_move(
            reactor,
            selector,
            window_idx,
            sur,
        ) {
            Some(plan) => plan,
            None => {
                return no_tasks();
            },
        };
        let w: WindowState = match reactor.window_manager.window(window) {
            Some(w) => w,
            None => {
                return no_tasks();
            },
        };
        let frame: Rect = centre_on(
            &reactor.space_manager.screens[i].frame,
            w.frame_monotonic.size,
        );
        let display: String = reactor.space_manager.screens[i].display_uuid.clone();
        let mut tasks: Vec<Task> = no_tasks();
        if reactor.app_manager.apps.contains_key(window.pid) {
            let txid: TransactionId = match w.sys_id {
                Some(wsid) => reactor.transaction_manager.generate_next_txid(wsid),
                None => TransactionId(0),
            };
            tasks.push(
                Task::Tell(
                    Message::App(window.pid, Request::SetWindowFrame(window, frame, txid, true)),
                ),
            );
        }
        proof {
            lemma_targets_kept(old(reactor).transaction_manager, reactor.transaction_manager);
        }
        let _ = reactor.window_manager.windows.insert(
            window,
            WindowState { frame_monotonic: frame, ..w },
        );
        tasks.push(
            ask_core(
                CoreCommand::MoveWindowToDisplay { display, window: Some(window) },
                Work::MovedToDisplay { window },
            ),
        );
        tasks
    }

    /// The workspace model has moved a window to another display, or not.
    pub fn moved_to_display(
        reactor: &mut Reactor,
        reply: Result<Transition, CoreError>,
        window: WindowId,
        now: u64,
    ) -> (r: Vec<Task>)
        requires
            old(reactor).wf(),
            reply_in_range(reply),
            now <= u64::MAX - RECENT_WORKSPACE_TARGET_TIMEOUT,
        ensures
            final(reactor).wf(),
            only_targets_changed(
                Reactor { core: core_after(old(reactor).core, reply), ..*old(reactor) },
                *final(reactor),
            ),
            final(reactor).refocus_manager.recent_workspace_targets@ == match reply {
                Ok(_) => (Reactor {
                    core: core_after(old(reactor).core, reply),
                    ..*old(reactor)
                }).remembering(window, now),
                Err(_) => old(reactor).refocus_manager.recent_workspace_targets@,
            },
            match reply {
                Ok(transition) => {
                    &&& r@.len() == 2
                    &&& r@[0] matches Task::Go(Work::Respond(response, None)) && response@
                        == wanted_by(transition)
                    &&& r@[1] == Task::Go(
                        Work::UpdateLayout { is_resize: false, is_workspace_switch: false },
                    )
                },
                Err(_) => r@.len() == 0,
            },
    {
        match reactor.core_replied(reply) {
            Some(response) => {
                reactor.remember_recent_workspace_target(window, now);
                two_tasks(
                    Task::Go(Work::Respond(response, None)),
                    Task::Go(Work::UpdateLayout { is_resize: false, is_workspace_switch: false }),
                )
            },
            None => no_tasks(),
        }
    }

    pub fn handle_command_reactor_close_window(
        reactor: &Reactor,
        window_server_id: Option<WindowServerId>,
        sur: &Surroundings,
    ) -> (r: Vec<Task>)
        requires
            reactor.wf(),
            sur.wf(),
        ensures
            r@ == match window_to_close(*reactor, window_server_id, *sur) {
                Some(window) => seq![
                    core_task(
                        CoreCommand::Window(WindowCommand::Close(Some(window))),
                        Work::CloseReplied { window },
                    ),
                ],
                None => Seq::empty(),
            },
    {
        let named: Option<WindowId> = match window_server_id {
            Some(wsid) => reactor.window_manager.tracked_window_id(wsid),
            None => None,
        };
        let target: Option<WindowId> = match named {
            Some(window) => Some(window),
            None => reactor.resolve_current_window_for_command(
                reactor.workspace_command_space(sur),
                false,
                None,
                sur,
            ),
        };
        match target {
            Some(window) => one_task(
                ask_core(
                    CoreCommand::Window(WindowCommand::Close(Some(window))),
                    Work::CloseReplied { window },
                ),
            ),
            None => no_tasks(),
        }
    }

    /// The workspace model has agreed to close a window, or not.
    pub fn close_replied(
        reactor: &mut Reactor,
        reply: Result<Transition, CoreError>,
        window: WindowId,
    ) -> (r: Vec<Task>)
        requires
            old(reactor).wf(),
            reply_in_range(reply),
        ensures
            final(reactor).wf(),
            *final(reactor) == (Reactor {
                core: core_after(old(reactor).core, reply),
                ..*old(reactor)
            }),
            r@ == if (reply matches Ok(transition) && transition.effects@.contains(
                Effect::CloseWindow(window),
            )) && old(reactor).app_manager.apps@.contains_key(window.pid) {
                seq![Task::Tell(Message::App(window.pid, Request::CloseWindow(window)))]
            } else {
                Seq::empty()
            },
    {
        match reply {
            Ok(transition) => {
                let agreed: bool = closes(&transition.effects, window);
                reactor.core = transition.snapshot;
                if agreed && reactor.app_manager.apps.contains_key(window.pid) {
                    one_task(Task::Tell(Message::App(window.pid, Request::CloseWindow(window))))
                } else {
                    no_tasks()
                }
            },
            Err(_) => no_tasks(),
        }
    }

    /// New settings are put to the workspace model, which takes them over if
    /// it can make sense of them and of their rules.
    pub fn handle_config_updated(_reactor: &Reactor, new_cfg: Config) -> (r: Vec<Task>)
        ensures
            r@.len() == 1,
            r@[0] matches Task::Ask(Question::Configure(asked), Work::Configured(cfg))
                && same_config(asked, new_cfg) && cfg == new_cfg,
    {
        let asked: Config = new_cfg.copy();
        one_task(Task::Ask(Question::Configure(asked), Work::Configured(new_cfg)))
    }

    /// The workspace model has taken new settings over, or not. Those that it
    /// refuses change nothing, and nobody hears of them.
    pub fn configured(reactor: &mut Reactor, reply: Result<(), CoreError>, cfg: Config) -> (r: Vec<
        Task,
    >)
        ensures
            old(reactor).wf() ==> final(reactor).wf(),
            match reply {
                Ok(_) => {
                    &&& *final(reactor) == (Reactor { config: cfg, ..*old(reactor) })
                    &&& r@ == seq![
                        note_task(DiagnosticNote::Reconfigured),
                        Task::Tell(Message::StackLineConfigUpdated),
                        Task::Tell(Message::MenuConfigUpdated),
                        Task::Go(Work::UpdateLayout { is_resize: false, is_workspace_switch: true }),
                    ] + if !same_keys(old(reactor).config.keys@, cfg.keys@)
                        && old(reactor).wm_registered {
                        seq![Task::Tell(Message::WmConfigUpdated)]
                    } else {
                        Seq::empty()
                    }
                },
                Err(_) => *final(reactor) == *old(reactor) && r@.len() == 0,
            },
    {
        if reply.is_err() {
            return no_tasks();
        }
        let keys_changed: bool = !keys_are_same(&reactor.config.keys, &cfg.keys);
        reactor.config = cfg;
        let mut tasks: Vec<Task> = three_tasks(
            note(DiagnosticNote::Reconfigured),
            Task::Tell(Message::StackLineConfigUpdated),
            Task::Tell(Message::MenuConfigUpdated),
        );
        tasks.push(Task::Go(Work::UpdateLayout { is_resize: false, is_workspace_switch: true }));
        if keys_changed && reactor.wm_registered {
            tasks.push(Task::Tell(Message::WmConfigUpdated));
        }
        proof {
            let always = seq![
                note_task(DiagnosticNote::Reconfigured),
                Task::Tell(Message::StackLineConfigUpdated),
                Task::Tell(Message::MenuConfigUpdated),
                Task::Go(Work::UpdateLayout { is_resize: false, is_workspace_switch: true }),
            ];
            assert(tasks@ =~= always + if keys_changed && reactor.wm_registered {
                seq![Task::Tell(Message::WmConfigUpdated)]
            } else {
                Seq::empty()
            });
        }
        tasks
    }
}

/// Keeping every pending frame keeps them in range.
proof fn lemma_targets_kept(before: TransactionManager, after: TransactionManager)
    requires
        before.wf(),
        forall|w: WindowServerId|
            (#[trigger] after.record(w)).target == before.record(w).target,
    ensures
        after.wf(),
{
    assert forall|w: WindowServerId| true implies ((#[trigger] after.record(
        w,
    )).target matches Some(f) ==> f.in_range()) by {
        assert(before.record(w).target == after.record(w).target);
    }
}

/// The window that a close command means.
pub open spec fn window_to_close(
    reactor: Reactor,
    wsid: Option<WindowServerId>,
    sur: Surroundings,
) -> Option<WindowId> {
    let named = match wsid {
        Some(w) => reactor.window_manager.tracked_spec(w),
        None => None,
    };
    match named {
        Some(window) => Some(window),
        None => reactor.current_window(reactor.command_space(sur), false, None, sur),
    }
}

fn closes(effects: &Vec<Effect>, window: WindowId) -> (r: bool)
    ensures
        r == effects@.contains(Effect::CloseWindow(window)),
{
    let mut i: usize = 0;
    while i < effects.len()
        invariant
            i <= effects@.len(),
            forall|j: int| 0 <= j < i ==> #[trigger] effects@[j] != Effect::CloseWindow(window),
        decreases effects@.len() - i,
    {
        if effects[i] == Effect::CloseWindow(window) {
            return true;
        }
        i += 1;
    }
    false
}

/// What the end of the program takes, in order.
#[derive(Copy, Clone, Debug, PartialEq, Eq, Structural)]
pub enum ExitStep {
    /// Save the state, and fail if that fails.
    Save,
    Shutdown,
}

/// The steps among the effects of a save-and-exit.
pub open spec fn exit_steps(effects: Seq<Effect>) -> Seq<ExitStep>
    decreases effects.len(),
{
    if effects.len() == 0 {
        Seq::empty()
    } else {
        let rest = exit_steps(effects.drop_last());
        match effects.last() {
            Effect::Save => rest.push(ExitStep::Save),
            Effect::Shutdown => rest.push(ExitStep::Shutdown),
            _ => rest,
        }
    }
}

impl CommandEventHandler {
    /// What the workspace model's answer to a save-and-exit takes.
    pub fn handle_command_reactor_save_and_exit(reply: &Result<Transition, CoreError>) -> (r: Vec<
        ExitStep,
    >)
        ensures
            r@ == match reply {
                Ok(transition) => exit_steps(transition.effects@),
                Err(_) => Seq::empty(),
            },
    {
        let mut steps: Vec<ExitStep> = Vec::new();
        if let Ok(transition) = reply {
            let effects = &transition.effects;
            let mut i: usize = 0;
            while i < effects.len()
                invariant
                    i <= effects@.len(),
                    *effects == transition.effects,
                    steps@ == exit_steps(effects@.take(i as int)),
                decreases effects@.len() - i,
            {
                assert(effects@.take(i + 1).drop_last() =~= effects@.take(i as int));
                match effects[i] {
                    Effect::Save => {
                        steps.push(ExitStep::Save);
                    },
                    Effect::Shutdown => {
                        steps.push(ExitStep::Shutdown);
                    },
                    _ => {},
                }
                i += 1;
            }
            assert(effects@.take(i as int) =~= effects@);
        }
        steps
    }
}

/// A window is moved to another display only between two managed spaces, to
/// the selected screen, and never during a drag; the window that moves is
/// the one that the index means, or else the window in use.
pub proof fn law_window_moves_between_managed_displays(
    m: Reactor,
    selector: DisplaySelector,
    index: Option<u32>,
    sur: Surroundings,
)
    ensures
        m.drag_manager.drag_state is Active ==> display_move(m, selector, index, sur) is None,
        display_move(m, selector, index, sur) matches Some((window, i)) ==> {
            let w = m.window_manager.windows@[window];
            &&& m.window_manager.windows@.contains_key(window)
            &&& index matches Some(n) ==> m.window_with_index(n, m.command_space(sur), sur) == Some(
                window,
            )
            &&& index is None ==> command_window(m, sur) == Some(window)
            &&& m.space_manager.screens@[i].space matches Some(to) && m.active_spaces@.contains(to)
                && exists|from: SpaceId|
                {
                    &&& #[trigger] m.active_spaces@.contains(from)
                    &&& from != to
                    &&& (m.assigned_workspace(window) matches Some(workspace) && m.home_space(
                        workspace,
                    ) == Some(from)) || m.best_space(w.frame_monotonic, w.sys_id, sur) == Some(from)
                }
        },
{
    if let Some((window, i)) = display_move(m, selector, index, sur) {
        let w = m.window_manager.windows@[window];
        let from = source_space(m, window, w, sur)->0;
        assert(m.active_spaces@.contains(from));
    }
}

/// A window that is assigned to a workspace is moved from that workspace's
/// space, whatever its frame says; the screen in a direction is counted from
/// the middle of the screen that shows it.
pub proof fn law_moved_window_goes_in_the_direction_from_its_own_screen(
    m: Reactor,
    direction: Direction,
    index: u32,
    window: WindowId,
    workspace: WorkspaceId,
    from: SpaceId,
    k: int,
    i: int,
    to: SpaceId,
    sur: Surroundings,
)
    requires
        !(m.drag_manager.drag_state is Active),
        m.window_with_index(index, m.command_space(sur), sur) == Some(window),
        m.window_manager.windows@.contains_key(window),
        m.assigned_workspace(window) == Some(workspace),
        m.home_space(workspace) == Some(from),
        m.active_spaces@.contains(from),
        0 <= k < m.space_manager.screens@.len(),
        m.space_manager.screens@[k].space == Some(from),
        forall|j: int| 0 <= j < k ==> (#[trigger] m.space_manager.screens@[j]).space != Some(from),
        next_towards(
            m.space_manager.screens@,
            m.space_manager.screens@[k].frame.middle(),
            direction,
        ) == Some(i),
        m.space_manager.screens@[i].space == Some(to),
        to != from,
    ensures
        m.active_spaces@.contains(to) ==> display_move(
            m,
            DisplaySelector::Direction(direction),
            Some(index),
            sur,
        ) == Some((window, i)),
        !m.active_spaces@.contains(to) ==> display_move(
            m,
            DisplaySelector::Direction(direction),
            Some(index),
            sur,
        ) is None,
{
    law_screen_of_a_space_is_the_first_that_shows_it(m.space_manager.screens@, from, k);
}

/// A screen that shows a space that is not managed takes no commands; one
/// that shows none does.
pub proof fn law_unmanaged_screens_are_off_limits(m: Reactor, space: SpaceId)
    ensures
        is_off_limits(m, Some(space)) <==> !m.active_spaces@.contains(space),
        !is_off_limits(m, None),
{
}

/// A close command means the tracked window that it names, or else the main
/// window, even if the model focuses another.
pub proof fn law_close_means_the_named_or_the_main_window(
    m: Reactor,
    wsid: WindowServerId,
    main: WindowId,
    sur: Surroundings,
)
    ensures
        m.window_manager.window_ids@.contains_key(wsid) ==> window_to_close(m, Some(wsid), sur)
            == Some(m.window_manager.window_ids@[wsid]),
        !m.window_manager.window_ids@.contains_key(wsid) ==> window_to_close(m, Some(wsid), sur)
            == window_to_close(m, None, sur),
        m.main_window_tracker@.main_window() == Some(main) ==> window_to_close(m, None, sur)
            == Some(main),
{
}

/// The cursor follows the focus to the middle of the window, if that is
/// wanted here and by the settings and a screen is there.
pub proof fn law_cursor_follows_the_focus(m: Reactor, window: WindowId, i: int)
    ensures
        m.follow_window(window, false) is None,
        !m.config.settings.mouse_follows_focus ==> m.follow_window(window, true) is None,
        m.follow_window(window, true) matches Some(p) ==> m.window_manager.windows@.contains_key(
            window,
        ) && p == m.window_manager.windows@[window].frame_monotonic.middle(),
        m.config.settings.mouse_follows_focus && m.window_manager.windows@.contains_key(window)
            && 0 <= i < m.space_manager.screens@.len() && m.space_manager.screens@[i].frame.holds(
            m.window_manager.windows@[window].frame_monotonic.middle(),
        ) ==> m.follow_window(window, true) is Some,
{
    if 0 <= i < m.space_manager.screens@.len() {
        let p = m.window_manager.windows@[window].frame_monotonic.middle();
        lemma_first(m.space_manager.screens@, |s: ScreenInfo| s.frame.holds(p));
        assert(m.space_manager.screens@[i].frame.holds(p) ==> screen_holding(
            m.space_manager.screens@,
            p,
        ) is Some);
    }
}

/// Focus may follow the mouse by the settings, but not while a menu is open
/// or Mission Control is.
pub proof fn law_focus_does_not_follow_over_menus_and_mission_control(m: Reactor)
    ensures
        m.focus_may_follow() ==> m.config.settings.focus_follows_mouse
            && !(m.menu_manager.menu_state is Open) && !m.core.mission_control_active,
        m.config.settings.focus_follows_mouse && m.menu_manager.menu_state == MenuState::Closed
            && !m.core.mission_control_active ==> m.focus_may_follow(),
{
}

/// A frame write to a numbered window is numbered anew, and only that
/// window's record changes; what is awaited of it stays.
pub proof fn law_write_to_a_window_is_numbered_anew(
    m: Reactor,
    w: WindowState,
    wsid: WindowServerId,
    other: WindowServerId,
)
    requires
        w.sys_id == Some(wsid),
    ensures
        writes_after(m, w).contains_key(wsid),
        writes_after(m, w)[wsid].last_sent == write_number(m, w),
        m.transaction_manager.records@.contains_key(wsid) ==> writes_after(m, w)[wsid].last_sent
            != m.transaction_manager.records@[wsid].last_sent && writes_after(m, w)[wsid].target
            == m.transaction_manager.records@[wsid].target,
        write_number(m, w).0 != 0,
        other != wsid ==> writes_after(m, w).contains_key(other)
            == m.transaction_manager.records@.contains_key(other) && (
        m.transaction_manager.records@.contains_key(other) ==> writes_after(m, w)[other]
            == m.transaction_manager.records@[other]),
{
}

/// What a save-and-exit takes: it saves and shuts down exactly as often as
/// the model says, and in its order.
pub proof fn law_exit_follows_the_models_effects(effects: Seq<Effect>, more: Effect)
    ensures
        exit_steps(Seq::empty()).len() == 0,
        more is Save ==> exit_steps(effects.push(more)) == exit_steps(effects).push(ExitStep::Save),
        more is Shutdown ==> exit_steps(effects.push(more)) == exit_steps(effects).push(
            ExitStep::Shutdown,
        ),
        !(more is Save) && !(more is Shutdown) ==> exit_steps(effects.push(more)) == exit_steps(
            effects,
        ),
{
    assert(effects.push(more).drop_last() =~= effects);
}

/// Each command on Mission Control is handed on as its own.
pub proof fn law_mission_control_commands_are_told_apart(
    a: MissionControlCommand,
    b: MissionControlCommand,
)
    ensures
        mission_control_wm_cmd(a) == mission_control_wm_cmd(b) ==> a == b,
        mission_control_wm_cmd(MissionControlCommand::Dismiss) == WmCmd::DismissMissionControl,
        mission_control_wm_cmd(MissionControlCommand::ShowAll) == WmCmd::ShowMissionControlAll,
{
}

/// What moving the mouse to a display leads to and leaves.
pub open spec fn mouse_moved_to_display(
    before: Reactor,
    after: Reactor,
    tasks: Seq<Task>,
    selector: DisplaySelector,
    sur: Surroundings,
) -> bool {
    match before.selected_screen(selector, None, sur) {
        Some(i) => {
            let screen = before.space_manager.screens@[i];
            if is_off_limits(before, screen.space) {
                tasks.len() == 0 && after.above_window == before.above_window
            } else {
                &&& after.above_window is None
                &&& tasks == seq![warp_task(screen.frame.middle())]
                    + match before.focus_target_on(screen.space, sur) {
                    Some(window) => focus_tasks(window, true),
                    None => Seq::empty(),
                }
            }
        },
        None => tasks.len() == 0 && after.above_window == before.above_window,
    }
}

/// What focusing a display leads to and leaves.
pub open spec fn display_focused(
    before: Reactor,
    after: Reactor,
    tasks: Seq<Task>,
    selector: DisplaySelector,
    sur: Surroundings,
) -> bool {
    match before.selected_screen(selector, None, sur) {
        Some(i) => {
            let screen = before.space_manager.screens@[i];
            if is_off_limits(before, screen.space) {
                tasks.len() == 0 && after.above_window == before.above_window
            } else {
                match before.focus_target_on(screen.space, sur) {
                    Some(window) => tasks == focus_tasks(window, true) && after.above_window == before.above_window,
                    None => tasks == seq![warp_task(screen.frame.middle())] && after.above_window is None,
                }
            }
        },
        None => tasks.len() == 0 && after.above_window == before.above_window,
    }
}

/// Moving the mouse to a display puts it in the middle of the screen that was
/// selected and then focuses a window there; focusing the display focuses the
/// window, and moves the mouse only where there is none. A screen that shows
/// a space that is not managed is left, and so is one that is not there.
pub proof fn law_display_commands_go_to_the_selected_screen(
    before: Reactor,
    after: Reactor,
    tasks: Seq<Task>,
    selector: DisplaySelector,
    i: int,
    space: SpaceId,
    window: WindowId,
    sur: Surroundings,
)
    requires
        before.selected_screen(selector, None, sur) == Some(i),
        before.space_manager.screens@[i].space == Some(space),
    ensures
        ({
            let middle = before.space_manager.screens@[i].frame.middle();
            let managed = before.active_spaces@.contains(space);
            let target = before.focus_target_on(Some(space), sur);
            let warp = Task::Tell(Message::Tap(TapRequest::Warp(middle)));
            &&& mouse_moved_to_display(before, after, tasks, selector, sur) && managed
                ==> tasks.len() > 0 && tasks[0] == warp && after.above_window is None
            &&& mouse_moved_to_display(before, after, tasks, selector, sur) && managed && target
                == Some(window) ==> tasks.len() == 3 && tasks[2] == Task::Go(
                Work::RaiseFocused { window, follow: true },
            )
            &&& mouse_moved_to_display(before, after, tasks, selector, sur) && !managed
                ==> tasks.len() == 0
            &&& display_focused(before, after, tasks, selector, sur) && managed && target == Some(
                window,
            ) ==> tasks == seq![
                Task::Go(Work::LayoutEvent(LayoutEvent::WindowFocused(window))),
                Task::Go(Work::RaiseFocused { window, follow: true }),
            ]
            &&& display_focused(before, after, tasks, selector, sur) && managed && target is None
                ==> tasks == seq![warp]
            &&& display_focused(before, after, tasks, selector, sur) && !managed ==> tasks.len()
                == 0
        }),
{
}

/// What sending a window to a display leads to and leaves.
pub open spec fn window_sent_to_display(
    before: Reactor,
    after: Reactor,
    tasks: Seq<Task>,
    selector: DisplaySelector,
    window_idx: Option<u32>,
    sur: Surroundings,
) -> bool {
    match display_move(before, selector, window_idx, sur) {
        Some((window, i)) => {
            let w = before.window_manager.windows@[window];
            let screen = before.space_manager.screens@[i];
            let frame = centred(screen.frame, w.frame_monotonic.size);
            let known = before.app_manager.apps@.contains_key(window.pid);
            &&& after.window_manager.windows@ == before.window_manager.windows@.insert(
                window,
                WindowState { frame_monotonic: frame, ..w },
            )
            &&& after.transaction_manager.records@ == if known {
                writes_after(before, w)
            } else {
                before.transaction_manager.records@
            }
            &&& tasks.len() == if known {
                2int
            } else {
                1
            }
            &&& known ==> tasks[0] == Task::Tell(
                Message::App(
                    window.pid,
                    Request::SetWindowFrame(
                        window,
                        frame,
                        write_number(before, w),
                        true,
                    ),
                ),
            )
            &&& tasks.last() == core_task(
                CoreCommand::MoveWindowToDisplay {
                    display: screen.display_uuid,
                    window: Some(window),
                },
                Work::MovedToDisplay { window },
            )
        },
        None => tasks.len() == 0 && after.window_manager.windows@
            == before.window_manager.windows@ && after.transaction_manager.records@
            == before.transaction_manager.records@,
    }
}

/// A window that is sent to a display keeps its size, is put in the middle of
/// that display's screen, and is given to the display by name; its
/// application is told if it is known. No other window moves.
pub proof fn law_window_is_sent_to_the_middle_of_the_display(
    before: Reactor,
    after: Reactor,
    tasks: Seq<Task>,
    selector: DisplaySelector,
    index: Option<u32>,
    window: WindowId,
    i: int,
    other: WindowId,
    sur: Surroundings,
)
    requires
        window_sent_to_display(before, after, tasks, selector, index, sur),
        other != window,
    ensures
        display_move(before, selector, index, sur) == Some((window, i)) ==> {
            let frame = after.window_manager.windows@[window].frame_monotonic;
            &&& after.window_manager.windows@.contains_key(window)
            &&& frame.size == before.window_manager.windows@[window].frame_monotonic.size
            &&& frame == centred(before.space_manager.screens@[i].frame, frame.size)
            &&& after.window_manager.windows@.contains_key(other)
                == before.window_manager.windows@.contains_key(other)
            &&& before.window_manager.windows@.contains_key(other)
                ==> after.window_manager.windows@[other] == before.window_manager.windows@[other]
            &&& tasks.last() == Task::Ask(
                Question::Core(
                    CoreInput::Command(
                        CoreCommand::MoveWindowToDisplay {
                            display: before.space_manager.screens@[i].display_uuid,
                            window: Some(window),
                        },
                    ),
                ),
                Work::MovedToDisplay { window },
            )
            &&& before.app_manager.apps@.contains_key(window.pid) ==> tasks.len() == 2 && (tasks[0]
                matches Task::Tell(Message::App(pid, Request::SetWindowFrame(w, f, _, _))) && pid
                == window.pid && w == window && f == frame)
        },
        display_move(before, selector, index, sur) is None ==> tasks.len() == 0
            && after.window_manager.windows@ == before.window_manager.windows@,
{
}

/// What a command to focus a window leads to.
pub open spec fn focus_command_tasks(
    m: Reactor,
    window_id: WindowId,
    window_server_id: Option<WindowServerId>,
    sur: Surroundings,
) -> Seq<Task> {
    match m.window_manager.window_spec(window_id) {
        Some(w) => match m.only_active(
            m.best_space(w.frame_monotonic, w.sys_id, sur),
        ) {
            Some(_) => seq![
                core_task(
                    CoreCommand::Window(WindowCommand::Activate { window: window_id }),
                    Work::FocusAccepted { window: window_id },
                ),
            ],
            None => Seq::empty(),
        },
        None => match window_server_id {
            Some(wsid) => seq![
                Task::Ask(
                    Question::KeyWindow { pid: window_id.pid, window: wsid },
                    Work::Done,
                ),
            ],
            None => Seq::empty(),
        },
    }
}

/// A command to focus a tracked window on a managed space activates that
/// window in the model; on any other space it does nothing. A window that is
/// not tracked is made key by its number, if it is given.
pub proof fn law_focus_command_activates_its_window(
    m: Reactor,
    window: WindowId,
    wsid: WindowServerId,
    space: SpaceId,
    sur: Surroundings,
)
    ensures
        m.window_manager.windows@.contains_key(window) && m.best_space_of(window, sur) == Some(
            space,
        ) && m.active_spaces@.contains(space) ==> focus_command_tasks(m, window, Some(wsid), sur)
            == seq![
            core_task(
                CoreCommand::Window(WindowCommand::Activate { window }),
                Work::FocusAccepted { window },
            ),
        ],
        m.window_manager.windows@.contains_key(window) && (m.best_space_of(window, sur) is None || (
        m.best_space_of(window, sur) == Some(space) && !m.active_spaces@.contains(space)))
            ==> focus_command_tasks(m, window, Some(wsid), sur).len() == 0,
        !m.window_manager.windows@.contains_key(window) ==> focus_command_tasks(
            m,
            window,
            Some(wsid),
            sur,
        ) == seq![
            Task::Ask(Question::KeyWindow { pid: window.pid, window: wsid }, Work::Done),
        ] && focus_command_tasks(m, window, None, sur).len() == 0,
{
}

} // verus!
