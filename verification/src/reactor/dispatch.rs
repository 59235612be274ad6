//! What each event sets off.

use vstd::prelude::*;

use crate::app::{Quiet, Request, WindowId};
use crate::collections::{copy_list, same_list, IdSet};
use crate::event::{Command, Event, WindowServerInfo};
use crate::event_tap::input::Request as TapRequest;
use crate::geometry::Point;
use crate::ids::{pid_t, SpaceId, WindowServerId};
use crate::reactor::classify::{
    can_count, changes_windows, counting_dropped, lifecycle_activation_suppression,
    shows_result_at_once, suppression_by,
};
use crate::reactor::diagnostics::{note, note_task, DiagnosticNote};
use crate::reactor::display_topology::{ManagerModel, TopologyModel};
use crate::reactor::events::app::AppEventHandler;
use crate::reactor::main_window::{clicked, TrackerModel};
use crate::reactor::managers::{
    MenuManager, MenuState, SwitchModel, WorkspaceSwitchManager, WorkspaceSwitchState,
};
use crate::reactor::respond::warp_tasks;
use crate::reactor::surroundings::Surroundings;
use crate::reactor::task::{
    no_tasks, one_task, two_tasks, LayoutEvent, Message, PolicyNote, Question, Task, Work,
};
use crate::reactor::{Reactor, Turn};
use crate::sorting::{ascending, lemma_ascending, sort_ascending};
use crate::text::text_eq;

verus! {

/// What the system says of a reconfiguration of displays.
#[derive(Copy, Clone, Debug, PartialEq, Eq, Structural)]
pub struct Reconfiguration {
    pub epoch: u64,
    pub flags: u32,
    pub completed_flags: u32,
}

/// The most events that are taken from the queue at once.
pub const MAX_EVENT_BATCH: usize = 64;

impl Reactor {
    /// Whether an application is the login window.
    pub open spec fn is_login_window(&self, pid: pid_t) -> bool {
        self.app_manager.apps@.contains_key(pid) && (self.app_manager.apps@[pid].info.bundle_id
            matches Some(bundle) && bundle@ == "com.apple.loginwindow"@)
    }

    pub fn is_login_window_pid(&self, pid: pid_t) -> (r: bool)
        ensures
            r == self.is_login_window(pid),
    {
        match self.app_manager.apps.get(pid) {
            Some(app) => match &app.info.bundle_id {
                Some(bundle) => text_eq(bundle.as_str(), "com.apple.loginwindow"),
                None => false,
            },
            None => false,
        }
    }

    /// What an application's coming to the front sets off, as the system
    /// reports it. The login window takes all spaces out of management; any
    /// other application means that the user is back.
    pub open spec fn global_activation(&self, pid: pid_t) -> Seq<Task> {
        let first = seq![Task::Go(Work::CloseMenuOfOthers(pid))];
        if self.is_login_window(pid) {
            first + seq![Task::Go(Work::SetLoginWindow(true)), Task::Go(Work::ForceRefresh)]
        } else {
            let back = if self.login_window_active {
                seq![Task::Go(Work::SetLoginWindow(false))]
            } else {
                Seq::empty()
            };
            let asked = if self.app_manager.apps@.contains_key(pid) {
                seq![Task::Tell(Message::App(pid, Request::GetVisibleWindows))]
            } else {
                Seq::empty()
            };
            first + back + asked + seq![Task::Go(Work::Activation { pid, global: true })]
        }
    }

    fn plan_global_activation(&self, pid: pid_t) -> (r: Vec<Task>)
        ensures
            r@ == self.global_activation(pid),
    {
        let mut tasks: Vec<Task> = one_task(Task::Go(Work::CloseMenuOfOthers(pid)));
        if self.is_login_window_pid(pid) {
            tasks.push(Task::Go(Work::SetLoginWindow(true)));
            tasks.push(Task::Go(Work::ForceRefresh));
        } else {
            if self.login_window_active {
                tasks.push(Task::Go(Work::SetLoginWindow(false)));
            }
            if self.app_manager.apps.contains_key(pid) {
                tasks.push(Task::Tell(Message::App(pid, Request::GetVisibleWindows)));
            }
            tasks.push(Task::Go(Work::Activation { pid, global: true }));
        }
        assert(tasks@ =~= self.global_activation(pid));
        tasks
    }

    /// What an event sets off.
    pub open spec fn routed(&self, event: Event) -> Seq<Task> {
        match event {
            Event::ApplicationLaunched { pid, info, visible_windows, window_server_info, .. } => seq![
                Task::Go(Work::AppLaunched { pid, info, visible_windows, window_server_info }),
            ],
            Event::ApplicationTerminated(pid) => seq![Task::Go(Work::AppTerminated(pid))],
            Event::ApplicationThreadTerminated(pid) => seq![
                Task::Go(Work::CloseMenuOf(pid)),
                Task::Go(Work::AppThreadTerminated(pid)),
            ],
            Event::ApplicationActivated(pid, quiet) => if quiet == Quiet::No {
                seq![
                    Task::Go(Work::CloseMenuOfOthers(pid)),
                    Task::Go(Work::Activation { pid, global: false }),
                ]
            } else {
                seq![Task::Go(Work::CloseMenuOfOthers(pid))]
            },
            Event::ApplicationDeactivated(pid) => seq![Task::Go(Work::CloseMenuOf(pid))],
            Event::ApplicationGloballyDeactivated(pid) => if self.is_login_window(pid) {
                seq![Task::Go(Work::CloseMenuOf(pid)), Task::Go(Work::SetLoginWindow(false))]
            } else {
                seq![Task::Go(Work::CloseMenuOf(pid))]
            },
            Event::ApplicationGloballyActivated(pid) => self.global_activation(pid),
            Event::ResyncAppForWindow(wsid) => seq![Task::Go(Work::ResyncApp(wsid))],
            Event::RegisterWmSender => seq![Task::Go(Work::RegisterWm)],
            Event::WindowsDiscovered { pid, new, known_visible } => seq![
                Task::Ask(Question::Sightings, Work::Discovered { pid, new, known_visible }),
            ],
            Event::WindowCreated(window, info, server_info, _) => seq![
                Task::Go(Work::WindowCreated { window, info, server_info }),
            ],
            Event::WindowDestroyed(window) => seq![Task::Go(Work::WindowDestroyed(window))],
            Event::WindowServerDestroyed(window, space) => seq![
                Task::Go(Work::ServerWindowDestroyed { window, space }),
            ],
            Event::WindowServerAppeared(window, space) => seq![
                Task::Go(Work::ServerWindowAppeared { window, space }),
            ],
            Event::SpaceCreated(space) => seq![
                Task::Tell(Message::Policy(PolicyNote::SpaceCreated(space))),
                Task::Go(Work::RecomputeSpaces),
            ],
            Event::SpaceDestroyed(space) => seq![
                Task::Tell(Message::Policy(PolicyNote::SpaceDestroyed(space))),
                Task::Go(Work::RecomputeSpaces),
            ],
            Event::WindowMinimized(window) => seq![Task::Go(Work::WindowMinimized(window))],
            Event::WindowDeminiaturized(window) => seq![
                Task::Go(Work::WindowDeminiaturized(window)),
            ],
            Event::WindowFrameChanged(window, frame, last_seen, requested, mouse) => seq![
                Task::Go(Work::FrameChanged { window, frame, last_seen, requested, mouse }),
            ],
            Event::WindowTitleChanged(window, title) => seq![
                Task::Go(Work::TitleChanged { window, title }),
            ],
            Event::ScreenParametersChanged(screens) => seq![
                Task::Go(Work::ScreensChanged(screens)),
            ],
            Event::SpaceChanged(spaces) => seq![Task::Go(Work::SpacesChanged(spaces))],
            Event::MouseDown(info, point) => seq![Task::Go(Work::MouseDown { info, point })],
            Event::MouseUp => seq![Task::Go(Work::MouseUp), Task::Go(Work::FocusUnderCursor)],
            Event::MenuOpened(pid) => seq![Task::Go(Work::MenuOpened(pid))],
            Event::MenuClosed(pid) => seq![Task::Go(Work::MenuClosed(pid))],
            Event::MouseMoved(point) => seq![
                Task::Ask(Question::WindowAt(point), Work::MouseAt),
            ],
            Event::SystemWoke => seq![Task::Tell(Message::SystemWoke)],
            Event::MissionControlNativeEntered => seq![Task::Go(Work::MissionControlEntered)],
            Event::MissionControlNativeExited => seq![Task::Go(Work::MissionControlExited)],
            Event::RaiseCompleted { window_id, sequence_id } => seq![
                Task::Tell(
                    Message::RaiseCompleted { window: window_id, sequence: sequence_id },
                ),
            ],
            Event::RaiseTimeout { sequence_id } => seq![
                Task::Tell(Message::RaiseTimeout { sequence: sequence_id }),
            ],
            Event::ConfigUpdated(config) => seq![Task::Go(Work::ConfigUpdated(config))],
            Event::Command(command) => seq![
                note_task(DiagnosticNote::OperationBegun(command)),
                Task::Go(Work::Command(command)),
            ],
            Event::UserInput(trace) => seq![note_task(DiagnosticNote::Input(trace))],
            Event::ApplicationMainWindowChanged(_, _, _)
            | Event::SessionDidBecomeActive
            | Event::DisplayChurnBegin
            | Event::DisplayChurnEnd => Seq::empty(),
        }
    }

    fn route(&self, event: Event) -> (r: Vec<Task>)
        ensures
            r@ == self.routed(event),
    {
        match event {
            Event::ApplicationLaunched { pid, info, visible_windows, window_server_info, .. } => one_task(
                Task::Go(Work::AppLaunched { pid, info, visible_windows, window_server_info }),
            ),
            Event::ApplicationTerminated(pid) => one_task(Task::Go(Work::AppTerminated(pid))),
            Event::ApplicationThreadTerminated(pid) => two_tasks(
                Task::Go(Work::CloseMenuOf(pid)),
                Task::Go(Work::AppThreadTerminated(pid)),
            ),
            Event::ApplicationActivated(pid, quiet) => {
                let mut tasks: Vec<Task> = one_task(Task::Go(Work::CloseMenuOfOthers(pid)));
                let mut more: Vec<Task> = AppEventHandler::handle_application_activated(pid, quiet);
                tasks.append(&mut more);
                assert(tasks@ =~= self.routed(event));
                tasks
            },
            Event::ApplicationDeactivated(pid) => one_task(Task::Go(Work::CloseMenuOf(pid))),
            Event::ApplicationGloballyDeactivated(pid) => if self.is_login_window_pid(pid) {
                two_tasks(
                    Task::Go(Work::CloseMenuOf(pid)),
                    Task::Go(Work::SetLoginWindow(false)),
                )
            } else {
                one_task(Task::Go(Work::CloseMenuOf(pid)))
            },
            Event::ApplicationGloballyActivated(pid) => self.plan_global_activation(pid),
            Event::ResyncAppForWindow(wsid) => one_task(Task::Go(Work::ResyncApp(wsid))),
            Event::RegisterWmSender => one_task(Task::Go(Work::RegisterWm)),
            Event::WindowsDiscovered { pid, new, known_visible } => {
                AppEventHandler::handle_windows_discovered(pid, new, known_visible)
            },
            Event::WindowCreated(window, info, server_info, _) => one_task(
                Task::Go(Work::WindowCreated { window, info, server_info }),
            ),
            Event::WindowDestroyed(window) => one_task(Task::Go(Work::WindowDestroyed(window))),
            Event::WindowServerDestroyed(window, space) => one_task(
                Task::Go(Work::ServerWindowDestroyed { window, space }),
            ),
            Event::WindowServerAppeared(window, space) => one_task(
                Task::Go(Work::ServerWindowAppeared { window, space }),
            ),
            Event::SpaceCreated(space) => two_tasks(
                Task::Tell(Message::Policy(PolicyNote::SpaceCreated(space))),
                Task::Go(Work::RecomputeSpaces),
            ),
            Event::SpaceDestroyed(space) => two_tasks(
                Task::Tell(Message::Policy(PolicyNote::SpaceDestroyed(space))),
                Task::Go(Work::RecomputeSpaces),
            ),
            Event::WindowMinimized(window) => one_task(Task::Go(Work::WindowMinimized(window))),
            Event::WindowDeminiaturized(window) => one_task(
                Task::Go(Work::WindowDeminiaturized(window)),
            ),
            Event::WindowFrameChanged(window, frame, last_seen, requested, mouse) => one_task(
                Task::Go(Work::FrameChanged { window, frame, last_seen, requested, mouse }),
            ),
            Event::WindowTitleChanged(window, title) => one_task(
                Task::Go(Work::TitleChanged { window, title }),
            ),
            Event::ScreenParametersChanged(screens) => one_task(
                Task::Go(Work::ScreensChanged(screens)),
            ),
            Event::SpaceChanged(spaces) => one_task(Task::Go(Work::SpacesChanged(spaces))),
            Event::MouseDown(info, point) => one_task(Task::Go(Work::MouseDown { info, point })),
            Event::MouseUp => two_tasks(
                Task::Go(Work::MouseUp),
                Task::Go(Work::FocusUnderCursor),
            ),
            Event::MenuOpened(pid) => one_task(Task::Go(Work::MenuOpened(pid))),
            Event::MenuClosed(pid) => one_task(Task::Go(Work::MenuClosed(pid))),
            Event::MouseMoved(point) => one_task(
                Task::Ask(Question::WindowAt(point), Work::MouseAt),
            ),
            Event::SystemWoke => one_task(Task::Tell(Message::SystemWoke)),
            Event::MissionControlNativeEntered => one_task(Task::Go(Work::MissionControlEntered)),
            Event::MissionControlNativeExited => one_task(Task::Go(Work::MissionControlExited)),
            Event::RaiseCompleted { window_id, sequence_id } => one_task(
                Task::Tell(
                    Message::RaiseCompleted { window: window_id, sequence: sequence_id },
                ),
            ),
            Event::RaiseTimeout { sequence_id } => one_task(
                Task::Tell(Message::RaiseTimeout { sequence: sequence_id }),
            ),
            Event::ConfigUpdated(config) => one_task(Task::Go(Work::ConfigUpdated(config))),
            Event::Command(command) => two_tasks(
                note(DiagnosticNote::OperationBegun(command.copy())),
                Task::Go(Work::Command(command)),
            ),
            Event::UserInput(trace) => one_task(note(DiagnosticNote::Input(trace))),
            Event::ApplicationMainWindowChanged(_, _, _)
            | Event::SessionDidBecomeActive
            | Event::DisplayChurnBegin
            | Event::DisplayChurnEnd => no_tasks(),
        }
    }

    /// The windows of the window server that are known.
    pub open spec fn known_server_windows(&self) -> Set<WindowServerId> {
        Set::new(|w: WindowServerId| self.window_manager.knows(w))
    }

    fn collect_known_server_windows(&self) -> (r: IdSet<WindowServerId>)
        ensures
            r@ == self.known_server_windows(),
    {
        let mut r: IdSet<WindowServerId> = IdSet::new();
        let own: Vec<WindowServerId> = self.window_manager.window_ids.keys();
        let mut i: usize = 0;
        while i < own.len()
            invariant
                i <= own@.len(),
                forall|w: WindowServerId| #[trigger]
                    r@.contains(w) <==> exists|j: int| 0 <= j < i && #[trigger] own@[j] == w,
            decreases own@.len() - i,
        {
            let ghost before = r@;
            let _ = r.insert(own[i]);
            proof {
                assert forall|w: WindowServerId| #[trigger]
                    r@.contains(w) <==> exists|j: int| 0 <= j < i + 1 && #[trigger] own@[j] == w by {
                    if r@.contains(w) {
                        if before.contains(w) {
                            let j = choose|j: int| 0 <= j < i && #[trigger] own@[j] == w;
                            assert(own@[j] == w);
                        } else {
                            assert(own@[i as int] == w);
                        }
                    }
                    if exists|j: int| 0 <= j < i + 1 && #[trigger] own@[j] == w {
                        let j = choose|j: int| 0 <= j < i + 1 && #[trigger] own@[j] == w;
                        if j < i {
                            assert(before.contains(w));
                        }
                    }
                }
            }
            i += 1;
        }
        let ghost first = r@;
        assert forall|w: WindowServerId| #[trigger] first.contains(w) <==> own@.contains(w) by {}
        let described: Vec<WindowServerId> = self.window_manager.window_server_info.keys();
        let mut k: usize = 0;
        while k < described.len()
            invariant
                k <= described@.len(),
                forall|w: WindowServerId| #[trigger]
                    r@.contains(w) <==> first.contains(w) || exists|j: int|
                        0 <= j < k && #[trigger] described@[j] == w,
            decreases described@.len() - k,
        {
            let ghost before = r@;
            let _ = r.insert(described[k]);
            proof {
                assert forall|w: WindowServerId| #[trigger]
                    r@.contains(w) <==> first.contains(w) || exists|j: int|
                        0 <= j < k + 1 && #[trigger] described@[j] == w by {
                    if r@.contains(w) && !first.contains(w) {
                        if before.contains(w) {
                            let j = choose|j: int| 0 <= j < k && #[trigger] described@[j] == w;
                            assert(described@[j] == w);
                        } else {
                            assert(described@[k as int] == w);
                        }
                    }
                    if exists|j: int| 0 <= j < k + 1 && #[trigger] described@[j] == w {
                        let j = choose|j: int| 0 <= j < k + 1 && #[trigger] described@[j] == w;
                        if j < k {
                            assert(before.contains(w));
                        }
                    }
                }
            }
            k += 1;
        }
        proof {
            assert forall|w: WindowServerId| r@.contains(w) <==> self.window_manager.knows(w) by {
                assert(first.contains(w) <==> own@.contains(w));
                if described@.contains(w) {
                    let j = choose|j: int| 0 <= j < described@.len() && described@[j] == w;
                    assert(described@[j] == w);
                }
            }
            assert(r@ =~= self.known_server_windows());
        }
        r
    }

    /// The displays after an event about their reconfiguration.
    pub open spec fn reconfigured(&self, event: Event, now: u64, c: Reconfiguration) -> ManagerModel {
        let m = self.display_topology_manager@;
        match event {
            Event::DisplayChurnBegin => m.begun(c.epoch, c.flags, self.known_server_windows(), now),
            _ => match m.state {
                TopologyModel::Churning(epoch, _, flags) => m.ended(
                    epoch,
                    flags | c.completed_flags,
                    now,
                ),
                _ => m.ended(c.epoch, c.completed_flags | c.completed_flags, now),
            },
        }
    }

    /// The window that a click chooses: one that the layout may hold. A click
    /// on an auxiliary window chooses none.
    pub open spec fn chosen_by_click(&self, info: Option<WindowServerInfo>) -> Option<WindowId> {
        match info {
            Some(i) => match self.window_manager.tracked_spec(i.id) {
                Some(wid) => if self.layout_may_hold(wid) {
                    Some(wid)
                } else {
                    None
                },
                None => None,
            },
            None => None,
        }
    }

    fn find_chosen_by_click(&self, info: &Option<WindowServerInfo>) -> (r: Option<WindowId>)
        ensures
            r == self.chosen_by_click(*info),
    {
        match info {
            Some(i) => match self.window_manager.tracked_window_id(i.id) {
                Some(wid) => if self.window_is_standard(wid) {
                    Some(wid)
                } else {
                    None
                },
                None => None,
            },
            None => None,
        }
    }

    /// Which window is the main one after an event; a click says more than
    /// anything else.
    pub open spec fn tracker_after(&self, event: Event, now: u64) -> TrackerModel {
        let m = self.main_window_tracker@.after(event, now);
        match event {
            Event::MouseDown(info, _) => {
                match self.chosen_by_click(info) {
                    Some(w) => clicked(m, w, now),
                    None => TrackerModel {
                        last_clicked_window: None,
                        requested_focus: None,
                        ..m
                    },
                }
            },
            _ => m,
        }
    }

    /// Whether an automatic switch is held back after an event.
    pub open spec fn suppressed_after(&self, event: Event) -> bool {
        match suppression_by(event) {
            Some(suppress) => suppress,
            None => self.workspace_switch_manager.suppress_auto_workspace_switch_until_input,
        }
    }

    /// What the log is told when an event has come to its end.
    pub open spec fn closing(event: Event) -> Seq<Task> {
        if event is Command {
            seq![note_task(DiagnosticNote::OperationFinished)]
        } else {
            Seq::empty()
        }
    }

    /// What has become of the reactor once it has begun to deal with an event,
    /// and what is left to do. While displays are being reconfigured, most
    /// events are dropped.
    pub open spec fn has_begun(
        before: Reactor,
        event: Event,
        c: Reconfiguration,
        now: u64,
        after: Reactor,
        tasks: Seq<Task>,
    ) -> bool {
        &&& after.workspace_switch_manager == (WorkspaceSwitchManager {
            suppress_auto_workspace_switch_until_input: before.suppressed_after(event),
            ..before.workspace_switch_manager
        })
        &&& if event is DisplayChurnBegin || event is DisplayChurnEnd {
            &&& tasks.len() == 0
            &&& after.display_topology_manager@ == before.reconfigured(event, now, c)
            &&& after == (Reactor {
                workspace_switch_manager: after.workspace_switch_manager,
                display_topology_manager: after.display_topology_manager,
                ..before
            })
        } else if before.drops(event) {
            &&& tasks.len() == 0
            &&& after.display_topology_manager@ == (ManagerModel {
                stats: counting_dropped(before.display_topology_manager@.stats, event),
                ..before.display_topology_manager@
            })
            &&& after == (Reactor {
                workspace_switch_manager: after.workspace_switch_manager,
                display_topology_manager: after.display_topology_manager,
                ..before
            })
        } else {
            &&& tasks == before.routed(event).push(
                Task::Go(Work::Finalize { outer: before.turn }),
            ) + Self::closing(event)
            &&& after.display_topology_manager@ == before.display_topology_manager@
            &&& after.main_window_tracker@ == before.tracker_after(event, now)
            &&& after.turn == (Turn {
                raised_window: before.main_window_tracker@.raised_by(event, now),
                suppress_layout_animation: shows_result_at_once(event),
                window_was_destroyed: false,
                update_notifications: changes_windows(event),
                layout_changed: false,
            })
            &&& after == (Reactor {
                workspace_switch_manager: after.workspace_switch_manager,
                display_topology_manager: after.display_topology_manager,
                main_window_tracker: after.main_window_tracker,
                turn: after.turn,
                ..before
            })
        }
    }

    /// Begins to deal with an event: notes what it says of the reactor's own
    /// state, and gives what it sets off. What follows that brings the event
    /// to its end, and the log hears of the end of a command. While displays are being reconfigured, most events are
    /// dropped.
    pub fn handle_event(&mut self, event: Event, c: Reconfiguration, now: u64) -> (r: Vec<Task>)
        requires
            can_count(old(self).display_topology_manager.quarantine_stats),
        ensures
            old(self).wf() ==> final(self).wf(),
            Self::has_begun(*old(self), event, c, now, *final(self), r@),
    {
        if let Some(suppress) = lifecycle_activation_suppression(&event) {
            self.workspace_switch_manager.suppress_auto_workspace_switch_until_input = suppress;
        }
        match &event {
            Event::DisplayChurnBegin => {
                let known: IdSet<WindowServerId> = self.collect_known_server_windows();
                assert(known@ =~= old(self).known_server_windows());
                self.display_topology_manager.begin_churn(c.epoch, c.flags, known, now);
                return no_tasks();
            },
            Event::DisplayChurnEnd => {
                let (epoch, flags): (u64, u32) =
                    match self.display_topology_manager.current_churn() {
                    Some((epoch, _, flags)) => (epoch, flags),
                    None => (c.epoch, c.completed_flags),
                };
                self.display_topology_manager.end_churn_to_awaiting(
                    epoch,
                    flags | c.completed_flags,
                    now,
                );
                return no_tasks();
            },
            _ => {},
        }
        if self.maybe_quarantine_during_churn(&event) {
            return no_tasks();
        }
        let outer: Turn = self.turn;
        let raised_window: Option<WindowId> = self.main_window_tracker.handle_event(&event, now);
        if let Event::MouseDown(info, _) = &event {
            let window: Option<WindowId> = self.find_chosen_by_click(info);
            self.main_window_tracker.handle_mouse_down(window, now);
        }
        self.turn = Turn {
            raised_window,
            suppress_layout_animation: Self::should_suppress_layout_animation(&event),
            window_was_destroyed: false,
            update_notifications: Self::should_update_notifications(&event),
            layout_changed: false,
        };
        let is_operation: bool = match &event {
            Event::Command(_) => true,
            _ => false,
        };
        let mut tasks: Vec<Task> = self.route(event);
        tasks.push(Task::Go(Work::Finalize { outer }));
        let ghost finalized = tasks@;
        if is_operation {
            tasks.push(note(DiagnosticNote::OperationFinished));
        }
        assert(tasks@ =~= finalized + Self::closing(event));
        tasks
    }

    /// An event has been dealt with: a window that came to be the main one
    /// has the focus, and windows are laid out. During a reconfiguration of
    /// displays that waits.
    pub fn finalize_event_processing(&mut self, outer: Turn, sur: &Surroundings) -> (r: Vec<Task>)
        requires
            old(self).wf(),
        ensures
            final(self).wf(),
            event_dealt_with(
                *old(self),
                *final(self),
                r@,
                outer,
                *sur,
            ),
    {
        if self.display_topology_manager.is_churning_or_awaiting_commit() {
            self.turn = outer;
            return no_tasks();
        }
        let mut tasks: Vec<Task> = no_tasks();
        if let Some(w) = self.turn.raised_window {
            if self.best_space_for_window_id(w, sur).is_some() {
                tasks.push(Task::Go(Work::LayoutEvent(LayoutEvent::WindowFocused(w))));
            }
            self.above_window = None;
        }
        let ghost focused = tasks@;
        tasks.push(Task::Go(Work::FinalizeLayout));
        tasks.push(Task::Go(Work::FinalizeRest { outer }));
        assert(tasks@ =~= focused + seq![
            Task::Go(Work::FinalizeLayout),
            Task::Go(Work::FinalizeRest { outer }),
        ]);
        tasks
    }

    /// Lays windows out after an event. While the mouse drags a window that
    /// waits, unless a window is gone.
    pub fn finalize_layout(&mut self) -> (r: Vec<Task>)
        ensures
            old(self).wf() ==> final(self).wf(),
            *final(self) == (Reactor {
                turn: Turn { layout_changed: false, ..old(self).turn },
                ..*old(self)
            }),
            r@ == layout_after_event(*old(self)),
    {
        self.turn.layout_changed = false;
        if self.is_in_drag() && !self.turn.window_was_destroyed {
            return no_tasks();
        }
        let is_workspace_switch: bool = self.workspace_switch_manager.workspace_switch_state
            == WorkspaceSwitchState::Active;
        two_tasks(
            Task::Go(
                Work::UpdateLayout {
                    is_resize: self.turn.suppress_layout_animation,
                    is_workspace_switch,
                },
            ),
            Task::Tell(Message::MenuUpdate),
        )
    }

    /// The workspace switch at the end of an event: it is not in progress any
    /// more, and over once a layout changed nothing.
    pub open spec fn switch_after_event(&self) -> SwitchModel {
        let m = self.workspace_switch_manager@.inactive();
        SwitchModel {
            active: if self.turn.layout_changed {
                m.active
            } else {
                None
            },
            pending_warp: None,
            ..m
        }
    }

    /// The numbers of the tracked windows, in order.
    pub open spec fn watched_ids(&self) -> Seq<u32> {
        ascending(self.window_manager.window_ids.order().map_values(|w: WindowServerId| w.0))
    }

    fn find_watched_ids(&self) -> (r: Vec<u32>)
        ensures
            r@ == self.watched_ids(),
    {
        let keys: Vec<WindowServerId> = self.window_manager.window_ids.keys();
        let ghost number = |w: WindowServerId| w.0;
        let mut ids: Vec<u32> = Vec::new();
        let mut i: usize = 0;
        assert(ids@ =~= keys@.take(0).map_values(number));
        while i < keys.len()
            invariant
                i <= keys@.len(),
                number == (|w: WindowServerId| w.0),
                ids@ == keys@.take(i as int).map_values(number),
            decreases keys@.len() - i,
        {
            ids.push(keys[i].as_u32());
            assert(ids@ =~= keys@.take(i + 1).map_values(number));
            i += 1;
        }
        assert(keys@.take(i as int) =~= keys@);
        sort_ascending(&ids)
    }

    /// Brings an event to its end: the workspace switch, the cursor that was
    /// to follow it, and the windows to be watched.
    pub fn finalize_rest(&mut self, outer: Turn) -> (r: Vec<Task>)
        requires
            old(self).wf(),
        ensures
            final(self).wf(),
            rest_dealt_with(
                *old(self),
                *final(self),
                r@,
                outer,
            ),
    {
        let mut tasks: Vec<Task> = no_tasks();
        let warp: Option<Point> = match self.workspace_switch_manager.pending_workspace_mouse_warp {
            Some(w) => self.window_center_on_known_screen(w),
            None => None,
        };
        let ids: Vec<u32> = self.find_watched_ids();
        self.workspace_switch_manager.mark_workspace_switch_inactive();
        if !self.turn.layout_changed {
            self.workspace_switch_manager.active_workspace_switch = None;
        }
        self.workspace_switch_manager.pending_workspace_mouse_warp = None;
        if let Some(p) = warp {
            self.above_window = None;
            tasks.push(Task::Tell(Message::Tap(TapRequest::Warp(p))));
        }
        let ghost moved = tasks@;
        assert(moved =~= warp_tasks(warp));
        if self.turn.update_notifications && !same_list(
            &ids,
            &self.notification_manager.last_sls_notification_ids,
        ) {
            let list: Vec<u32> = copy_list(&ids);
            self.notification_manager.last_sls_notification_ids = ids;
            tasks.push(Task::Tell(Message::WatchWindows(list)));
            assert(tasks@.drop_last() =~= moved);
        }
        self.turn = outer;
        tasks
    }

    /// The login window came or went.
    pub fn set_login_window_active(&mut self, active: bool) -> (r: Vec<Task>)
        ensures
            old(self).wf() ==> final(self).wf(),
            *final(self) == (Reactor { login_window_active: active, ..*old(self) }),
            r@ == seq![
                Task::Tell(Message::Policy(PolicyNote::LoginWindow(active))),
                Task::Go(Work::RecomputeSpaces),
            ],
    {
        self.login_window_active = active;
        two_tasks(
            Task::Tell(Message::Policy(PolicyNote::LoginWindow(active))),
            Task::Go(Work::RecomputeSpaces),
        )
    }

    /// Sets which menu is open and tells the event tap whether focus follows
    /// the mouse.
    fn put_menu(&mut self, menu_state: MenuState) -> (r: Vec<Task>)
        ensures
            old(self).wf() ==> final(self).wf(),
            *final(self) == (Reactor { menu_manager: MenuManager { menu_state }, ..*old(self) }),
            r@ == seq![
                Task::Tell(
                    Message::Tap(
                        TapRequest::SetFocusFollowsMouseEnabled(final(self).focus_may_follow()),
                    ),
                ),
            ],
    {
        self.menu_manager.menu_state = menu_state;
        one_task(self.update_focus_follows_mouse_state())
    }

    /// A menu was opened.
    pub fn handle_menu_opened(&mut self, pid: pid_t) -> (r: Vec<Task>)
        ensures
            old(self).wf() ==> final(self).wf(),
            *final(self) == (Reactor {
                menu_manager: MenuManager { menu_state: MenuState::Open(pid) },
                ..*old(self)
            }),
            r@ == seq![
                Task::Tell(
                    Message::Tap(
                        TapRequest::SetFocusFollowsMouseEnabled(final(self).focus_may_follow()),
                    ),
                ),
            ],
    {
        self.put_menu(MenuState::Open(pid))
    }

    /// A menu was closed.
    pub fn handle_menu_closed(&mut self) -> (r: Vec<Task>)
        ensures
            old(self).wf() ==> final(self).wf(),
            *final(self) == (Reactor {
                menu_manager: MenuManager { menu_state: MenuState::Closed },
                ..*old(self)
            }),
            r@ == seq![
                Task::Tell(
                    Message::Tap(
                        TapRequest::SetFocusFollowsMouseEnabled(final(self).focus_may_follow()),
                    ),
                ),
            ],
    {
        self.put_menu(MenuState::Closed)
    }

    /// An application's menu does not outlast its being active, nor its
    /// thread.
    pub fn clear_menu_state_for_pid(&mut self, pid: pid_t) -> (r: Vec<Task>)
        ensures
            old(self).wf() ==> final(self).wf(),
            if old(self).menu_manager.menu_state == MenuState::Open(pid) {
                &&& *final(self) == (Reactor {
                    menu_manager: MenuManager { menu_state: MenuState::Closed },
                    ..*old(self)
                })
                &&& r@ == seq![
                    Task::Tell(
                        Message::Tap(
                            TapRequest::SetFocusFollowsMouseEnabled(
                                final(self).focus_may_follow(),
                            ),
                        ),
                    ),
                ]
            } else {
                r@.len() == 0 && *final(self) == *old(self)
            },
    {
        if let MenuState::Open(owner) = self.menu_manager.menu_state {
            if owner == pid {
                return self.put_menu(MenuState::Closed);
            }
        }
        no_tasks()
    }

    /// No menu outlasts another application's coming to the front.
    pub fn clear_menu_state_for_non_owner(&mut self, pid: pid_t) -> (r: Vec<Task>)
        ensures
            old(self).wf() ==> final(self).wf(),
            if old(self).menu_manager.menu_state matches MenuState::Open(owner) && owner != pid {
                &&& *final(self) == (Reactor {
                    menu_manager: MenuManager { menu_state: MenuState::Closed },
                    ..*old(self)
                })
                &&& r@ == seq![
                    Task::Tell(
                        Message::Tap(
                            TapRequest::SetFocusFollowsMouseEnabled(
                                final(self).focus_may_follow(),
                            ),
                        ),
                    ),
                ]
            } else {
                r@.len() == 0 && *final(self) == *old(self)
            },
    {
        if let MenuState::Open(owner) = self.menu_manager.menu_state {
            if owner != pid {
                return self.put_menu(MenuState::Closed);
            }
        }
        no_tasks()
    }

    /// The window under the cursor gets the focus when the mouse button is
    /// released, if it is anywhere.
    pub fn focus_under_cursor(&self, sur: &Surroundings) -> (r: Vec<Task>)
        requires
            self.wf(),
        ensures
            r@ == match self.under_cursor(*sur) {
                Some(w) => if self.best_space_of(w, *sur) is Some {
                    seq![Task::Go(Work::LayoutEvent(LayoutEvent::WindowFocused(w)))]
                } else {
                    Seq::empty()
                },
                None => Seq::empty(),
            },
    {
        match self.window_id_under_cursor(sur) {
            Some(w) => if self.best_space_for_window_id(w, sur).is_some() {
                one_task(Task::Go(Work::LayoutEvent(LayoutEvent::WindowFocused(w))))
            } else {
                no_tasks()
            },
            None => no_tasks(),
        }
    }

    /// The mouse is over a window, or over none. Only another window than
    /// before matters.
    pub fn mouse_at(&mut self, found: Option<WindowServerId>, sur: &Surroundings) -> (r: Vec<Task>)
        requires
            old(self).wf(),
        ensures
            final(self).wf(),
            *final(self) == (Reactor { above_window: found, ..*old(self) }),
            r@ == match found {
                Some(wsid) => seq![Task::Tell(Message::WindowActivity(wsid.0))]
                    + if old(self).above_window != Some(wsid) {
                    old(self).hover_tasks(wsid, *sur)
                } else {
                    Seq::empty()
                },
                None => Seq::empty(),
            },
    {
        let wsid: WindowServerId = match found {
            Some(wsid) => wsid,
            None => {
                self.above_window = None;
                return no_tasks();
            },
        };
        let mut tasks: Vec<Task> = one_task(Task::Tell(Message::WindowActivity(wsid.as_u32())));
        let ghost first = tasks@;
        let same: bool = match self.above_window {
            Some(above) => above == wsid,
            None => false,
        };
        if !same {
            let mut more: Vec<Task> = self.plan_hover(wsid, sur);
            tasks.append(&mut more);
        } else {
            assert(tasks@ =~= first + Seq::empty());
        }
        self.above_window = found;
        tasks
    }

    /// What the mouse over a window takes.
    pub open spec fn hover_tasks(&self, wsid: WindowServerId, sur: Surroundings) -> Seq<Task> {
        match self.window_manager.tracked_spec(wsid) {
            Some(wid) => match self.best_space_of(wid, sur) {
                Some(space) => seq![Task::Ask(Question::Stacking(space), Work::MouseOver(wsid))],
                None => Seq::empty(),
            },
            None => Seq::empty(),
        }
    }

    fn plan_hover(&self, wsid: WindowServerId, sur: &Surroundings) -> (r: Vec<Task>)
        requires
            self.wf(),
        ensures
            r@ == self.hover_tasks(wsid, *sur),
    {
        crate::reactor::events::window::WindowEventHandler::mouse_moved_over(self, wsid, sur)
    }

    /// The controller can be reached.
    pub fn handle_register_wm_sender(&mut self)
        ensures
            old(self).wf() ==> final(self).wf(),
            *final(self) == (Reactor { wm_registered: true, ..*old(self) }),
    {
        self.wm_registered = true;
    }
}

/// Every event that is not dropped comes to its end exactly once, after all
/// that it set off; behind that the log is told of the end of a command and
/// nothing else is done.
pub proof fn law_every_event_is_finalized_last(
    before: Reactor,
    event: Event,
    c: Reconfiguration,
    now: u64,
    after: Reactor,
    tasks: Seq<Task>,
)
    requires
        !before.drops(event),
        !(event is DisplayChurnBegin || event is DisplayChurnEnd),
        Reactor::has_begun(before, event, c, now, after, tasks),
    ensures
        ({
            let end = Task::Go(Work::Finalize { outer: before.turn });
            let n = before.routed(event).len() as int;
            &&& tasks[n] == end
            &&& forall|i: int| 0 <= i < tasks.len() && i != n ==> #[trigger] tasks[i] != end
            &&& tasks.skip(n + 1) == Reactor::closing(event)
        }),
{
    let n = before.routed(event).len() as int;
    assert(tasks.skip(n + 1) =~= Reactor::closing(event));
}

/// The log hears of a command before anything is done about it, and again
/// when it has come to its end.
pub proof fn law_commands_are_logged(
    before: Reactor,
    command: Command,
    c: Reconfiguration,
    now: u64,
    after: Reactor,
    tasks: Seq<Task>,
)
    requires
        Reactor::has_begun(before, Event::Command(command), c, now, after, tasks),
    ensures
        tasks.first() == note_task(DiagnosticNote::OperationBegun(command)),
        tasks.last() == note_task(DiagnosticNote::OperationFinished),
        after.core == before.core,
{
}

/// Once the system has come back, automatic switches are held back until the
/// user does something, whatever else happens.
pub proof fn law_suppression_lasts_until_input(m: Reactor, event: Event)
    ensures
        event is SystemWoke || event is SessionDidBecomeActive ==> m.suppressed_after(event),
        event is Command || event is MouseDown || event is MouseUp || event is MouseMoved || event
            is UserInput ==> !m.suppressed_after(event),
        suppression_by(event) is None ==> m.suppressed_after(event)
            == m.workspace_switch_manager.suppress_auto_workspace_switch_until_input,
{
}

/// A release of the button ends the drag and then looks at what is under the
/// cursor; a move of the mouse asks what it is over.
pub proof fn law_mouse_events_are_followed(
    m: Reactor,
    point: Point,
    info: Option<WindowServerInfo>,
)
    ensures
        m.routed(Event::MouseUp) == seq![
            Task::Go(Work::MouseUp),
            Task::Go(Work::FocusUnderCursor),
        ],
        m.routed(Event::MouseMoved(point)) == seq![
            Task::Ask(Question::WindowAt(point), Work::MouseAt),
        ],
        m.routed(Event::MouseDown(info, point)) == seq![Task::Go(Work::MouseDown { info, point })],
{
}

/// An activation that the window manager brought about itself only closes the
/// menus of others; one of the user's is followed up.
pub proof fn law_own_activations_are_not_followed_up(m: Reactor, pid: pid_t)
    ensures
        m.routed(Event::ApplicationActivated(pid, Quiet::Yes)) == seq![
            Task::Go(Work::CloseMenuOfOthers(pid)),
        ],
        m.routed(Event::ApplicationActivated(pid, Quiet::No)).contains(
            Task::Go(Work::Activation { pid, global: false }),
        ),
        m.routed(Event::ApplicationActivated(pid, Quiet::No))[0] == Task::Go(
            Work::CloseMenuOfOthers(pid),
        ),
{
    assert(m.routed(Event::ApplicationActivated(pid, Quiet::No))[1] == Task::Go(
        Work::Activation { pid, global: false },
    ));
}

/// The login window in front means that nobody is there: it is noted, and no
/// activation is followed. Any other application in front means that someone
/// is back, which is noted if it was not so.
pub proof fn law_login_window_suspends_everything(m: Reactor, pid: pid_t)
    requires
        m.app_manager.apps@.contains_key(pid),
    ensures
        ({
            let login = m.app_manager.apps@[pid].info.bundle_id matches Some(bundle) && bundle@
                == "com.apple.loginwindow"@;
            let tasks = m.routed(Event::ApplicationGloballyActivated(pid));
            &&& login ==> tasks.contains(Task::Go(Work::SetLoginWindow(true))) && tasks.contains(
                Task::Go(Work::ForceRefresh),
            ) && !tasks.contains(Task::Go(Work::Activation { pid, global: true }))
            &&& !login ==> tasks.contains(Task::Go(Work::Activation { pid, global: true }))
                && tasks.contains(Task::Tell(Message::App(pid, Request::GetVisibleWindows)))
                && tasks.contains(Task::Go(Work::SetLoginWindow(false))) == m.login_window_active
                && !tasks.contains(Task::Go(Work::SetLoginWindow(true)))
            &&& m.routed(Event::ApplicationGloballyDeactivated(pid)).contains(
                Task::Go(Work::SetLoginWindow(false)),
            ) == login
        }),
{
    let login = m.app_manager.apps@[pid].info.bundle_id matches Some(bundle) && bundle@
        == "com.apple.loginwindow"@;
    let tasks = m.routed(Event::ApplicationGloballyActivated(pid));
    if login {
        assert(tasks[1] == Task::Go(Work::SetLoginWindow(true)));
        assert(tasks[2] == Task::Go(Work::ForceRefresh));
        assert(m.routed(Event::ApplicationGloballyDeactivated(pid))[1] == Task::Go(
            Work::SetLoginWindow(false),
        ));
    } else if m.login_window_active {
        assert(tasks[1] == Task::Go(Work::SetLoginWindow(false)));
        assert(tasks[2] == Task::Tell(Message::App(pid, Request::GetVisibleWindows)));
        assert(tasks[3] == Task::Go(Work::Activation { pid, global: true }));
    } else {
        assert(tasks[1] == Task::Tell(Message::App(pid, Request::GetVisibleWindows)));
        assert(tasks[2] == Task::Go(Work::Activation { pid, global: true }));
    }
}

/// What happens to a window is dealt with as that, of that window.
pub proof fn law_window_events_are_about_their_window(
    m: Reactor,
    window: WindowId,
    wsid: WindowServerId,
    space: SpaceId,
    pid: pid_t,
)
    ensures
        m.routed(Event::WindowDestroyed(window)) == seq![Task::Go(Work::WindowDestroyed(window))],
        m.routed(Event::WindowMinimized(window)) == seq![Task::Go(Work::WindowMinimized(window))],
        m.routed(Event::WindowDeminiaturized(window)) == seq![
            Task::Go(Work::WindowDeminiaturized(window)),
        ],
        m.routed(Event::WindowServerDestroyed(wsid, space)) == seq![
            Task::Go(Work::ServerWindowDestroyed { window: wsid, space }),
        ],
        m.routed(Event::WindowServerAppeared(wsid, space)) == seq![
            Task::Go(Work::ServerWindowAppeared { window: wsid, space }),
        ],
        m.routed(Event::MenuOpened(pid)) == seq![Task::Go(Work::MenuOpened(pid))],
        m.routed(Event::MenuClosed(pid)) == seq![Task::Go(Work::MenuClosed(pid))],
        m.routed(Event::ApplicationTerminated(pid)) == seq![Task::Go(Work::AppTerminated(pid))],
        m.routed(Event::MissionControlNativeEntered) == seq![
            Task::Go(Work::MissionControlEntered),
        ],
        m.routed(Event::MissionControlNativeExited) == seq![Task::Go(Work::MissionControlExited)],
        m.routed(Event::SpaceCreated(space)) == seq![
            Task::Tell(Message::Policy(PolicyNote::SpaceCreated(space))),
            Task::Go(Work::RecomputeSpaces),
        ],
        m.routed(Event::SpaceDestroyed(space)) == seq![
            Task::Tell(Message::Policy(PolicyNote::SpaceDestroyed(space))),
            Task::Go(Work::RecomputeSpaces),
        ],
{
}

/// A click chooses the tracked window that it is on, if the layout may hold
/// it; a click on anything else takes back which window was clicked and which
/// focus was asked for.
pub proof fn law_click_chooses_a_layout_window(
    m: Reactor,
    info: WindowServerInfo,
    point: Point,
    wid: WindowId,
    now: u64,
)
    ensures
        m.window_manager.window_ids@.contains_key(info.id) && m.window_manager.window_ids@[info.id]
            == wid && m.window_manager.windows@.contains_key(wid)
            && m.window_manager.windows@[wid].is_manageable
            && !m.window_manager.windows@[wid].ignore_app_rule ==> m.chosen_by_click(Some(info))
            == Some(wid),
        m.chosen_by_click(Some(info)) == Some(wid) ==> m.window_manager.window_ids@.contains_key(
            info.id,
        ) && m.window_manager.window_ids@[info.id] == wid && m.window_manager.windows@.contains_key(
            wid,
        ) && m.window_manager.windows@[wid].is_manageable
            && !m.window_manager.windows@[wid].ignore_app_rule,
        m.chosen_by_click(None) is None,
        m.tracker_after(Event::MouseDown(None, point), now).last_clicked_window is None,
        m.tracker_after(Event::MouseDown(None, point), now).requested_focus is None,
{
}

/// At the end of an event no workspace switch is in progress, and it is over
/// once a layout has changed nothing more.
pub proof fn law_switch_is_over_when_the_layout_settles(m: Reactor)
    ensures
        m.switch_after_event().pending_warp is None,
        !m.turn.layout_changed ==> m.switch_after_event().active is None,
        m.turn.layout_changed ==> m.switch_after_event().active
            == m.workspace_switch_manager@.active,
{
}

/// The windows to watch are those that have a number, in rising order.
pub proof fn law_watched_windows_rise(m: Reactor, i: int, j: int)
    requires
        0 <= i < j < m.watched_ids().len(),
    ensures
        m.watched_ids()[i] <= m.watched_ids()[j],
        exists|k: int|
            0 <= k < m.window_manager.window_ids.order().len() && (
            #[trigger] m.window_manager.window_ids.order()[k]).0 == m.watched_ids()[i],
        m.watched_ids().len() == m.window_manager.window_ids.order().len(),
{
    let numbers = m.window_manager.window_ids.order().map_values(|w: WindowServerId| w.0);
    lemma_ascending(numbers);
    assert(ascending(numbers).contains(m.watched_ids()[i]));
    let k = numbers.index_of(m.watched_ids()[i]);
    assert(m.window_manager.window_ids.order()[k].0 == m.watched_ids()[i]);
}

/// What the end of an event leads to and leaves.
pub open spec fn event_dealt_with(
    before: Reactor,
    after: Reactor,
    tasks: Seq<Task>,
    outer: Turn,
    sur: Surroundings,
) -> bool {
    if !(before.display_topology_manager@.state is Stable) {
        tasks.len() == 0 && after == (Reactor { turn: outer, ..before })
    } else {
        let focused = match before.turn.raised_window {
            Some(w) => if before.best_space_of(w, sur) is Some {
                seq![Task::Go(Work::LayoutEvent(LayoutEvent::WindowFocused(w)))]
            } else {
                Seq::empty()
            },
            None => Seq::empty(),
        };
        &&& tasks == focused + seq![
            Task::Go(Work::FinalizeLayout),
            Task::Go(Work::FinalizeRest { outer }),
        ]
        &&& after == (Reactor {
            above_window: if before.turn.raised_window is Some {
                None
            } else {
                before.above_window
            },
            ..before
        })
    }
}

/// What is left to do after the layout of an event, and what that leaves.
pub open spec fn rest_dealt_with(
    before: Reactor,
    after: Reactor,
    tasks: Seq<Task>,
    outer: Turn,
) -> bool {
    let warp = match before.workspace_switch_manager.pending_workspace_mouse_warp {
        Some(w) => before.middle_on_screen(w),
        None => None,
    };
    let ids = before.watched_ids();
    let watch = before.turn.update_notifications && ids
        != before.notification_manager.last_sls_notification_ids@;
    let moved = warp_tasks(warp);
    &&& after.workspace_switch_manager@ == before.switch_after_event()
    &&& after.notification_manager.last_sls_notification_ids@ == if watch {
        ids
    } else {
        before.notification_manager.last_sls_notification_ids@
    }
    &&& after == (Reactor {
        workspace_switch_manager: after.workspace_switch_manager,
        notification_manager: after.notification_manager,
        above_window: if warp is Some {
            None
        } else {
            before.above_window
        },
        turn: outer,
        ..before
    })
    &&& if watch {
        &&& tasks.len() == moved.len() + 1
        &&& tasks.drop_last() == moved
        &&& tasks.last() matches Task::Tell(Message::WatchWindows(list)) && list@ == ids
    } else {
        tasks == moved
    }
}

/// While displays are not settled an event ends without a layout. Otherwise
/// the window that it raised is told to the layout, if it is on a space, and
/// windows are laid out before the rest is dealt with.
pub proof fn law_event_ends_with_a_layout(
    before: Reactor,
    after: Reactor,
    tasks: Seq<Task>,
    outer: Turn,
    window: WindowId,
    sur: Surroundings,
)
    requires
        event_dealt_with(before, after, tasks, outer, sur),
    ensures
        !(before.display_topology_manager@.state is Stable) ==> tasks.len() == 0 && after.turn
            == outer,
        before.display_topology_manager@.state is Stable ==> tasks.len() >= 2 && tasks[tasks.len()
            - 2] == Task::Go(Work::FinalizeLayout) && tasks.last() == Task::Go(
            Work::FinalizeRest { outer },
        ),
        before.display_topology_manager@.state is Stable && before.turn.raised_window == Some(
            window,
        ) && before.best_space_of(window, sur) is Some ==> tasks[0] == Task::Go(
            Work::LayoutEvent(LayoutEvent::WindowFocused(window)),
        ) && after.above_window is None,
        before.display_topology_manager@.state is Stable && before.turn.raised_window is None
            ==> tasks.len() == 2 && after.above_window == before.above_window,
{
}

/// After the layout, a cursor that was to follow the focus goes to the middle
/// of the window, the windows to watch are told if they are others and may
/// be, and the event around this one goes on.
pub proof fn law_rest_of_an_event(
    before: Reactor,
    after: Reactor,
    tasks: Seq<Task>,
    outer: Turn,
    window: WindowId,
    p: Point,
)
    requires
        rest_dealt_with(before, after, tasks, outer),
    ensures
        after.turn == outer,
        before.workspace_switch_manager.pending_workspace_mouse_warp == Some(window)
            && before.middle_on_screen(window) == Some(p) ==> tasks.len() > 0 && tasks[0]
            == Task::Tell(Message::Tap(TapRequest::Warp(p))) && after.above_window is None,
        before.workspace_switch_manager.pending_workspace_mouse_warp is None
            && !before.turn.update_notifications ==> tasks.len() == 0,
        before.turn.update_notifications && before.watched_ids()
            != before.notification_manager.last_sls_notification_ids@ ==> tasks.len() > 0 && (
        tasks.last() matches Task::Tell(Message::WatchWindows(list)) && list@
            == before.watched_ids()) && after.notification_manager.last_sls_notification_ids@
            == before.watched_ids(),
        before.watched_ids() == before.notification_manager.last_sls_notification_ids@
            && before.workspace_switch_manager.pending_workspace_mouse_warp is None ==> tasks.len()
            == 0,
{
    if before.workspace_switch_manager.pending_workspace_mouse_warp == Some(window)
        && before.middle_on_screen(window) == Some(p) && tasks.len() > 1 {
        assert(tasks.drop_last()[0] == tasks[0]);
    }
}

/// The layout at the end of an event.
pub open spec fn layout_after_event(m: Reactor) -> Seq<Task> {
    if !m.in_drag() || m.turn.window_was_destroyed {
        seq![
            Task::Go(
                Work::UpdateLayout {
                    is_resize: m.turn.suppress_layout_animation,
                    is_workspace_switch: m.switching(),
                },
            ),
            Task::Tell(Message::MenuUpdate),
        ]
    } else {
        Seq::empty()
    }
}

/// Windows are laid out at the end of an event unless a drag is under way, and
/// in a drag only if a window was destroyed; a switch is laid out as one.
pub proof fn law_drag_holds_the_layout_back(m: Reactor)
    ensures
        m.drag_manager.drag_state is Active && !m.turn.window_was_destroyed ==> layout_after_event(
            m,
        ).len() == 0,
        !(m.drag_manager.drag_state is Active) || m.turn.window_was_destroyed ==> layout_after_event(
            m,
        ) == seq![
            Task::Go(
                Work::UpdateLayout {
                    is_resize: m.turn.suppress_layout_animation,
                    is_workspace_switch: m.workspace_switch_manager.workspace_switch_state
                        == WorkspaceSwitchState::Active,
                },
            ),
            Task::Tell(Message::MenuUpdate),
        ],
{
}

} // verus!
