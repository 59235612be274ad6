//! Following a response of the layout: one request to the raise manager.

use vstd::prelude::*;

use crate::app::{Quiet, WindowId};
use crate::event_tap::input::Request as TapRequest;
use crate::geometry::Point;
use crate::ids::{pid_t, SpaceId, WindowServerId};
use crate::model::EventResponse;
use crate::reactor::layout_response::{
    is_grouping, nested, with_focus, FocusChoice,
};
use crate::reactor::main_window::TrackerModel;
use crate::reactor::managers::{
    RefocusManager, RefocusState, SwitchModel, WorkspaceSwitchManager, WorkspaceSwitchState,
};
use crate::reactor::surroundings::Surroundings;
use crate::reactor::task::{
    no_tasks, one_task, two_tasks, CoreInput, LayoutEvent, Message, Question, RaiseRequest, Task,
    Work,
};
use crate::reactor::Reactor;

verus! {

/// A task that puts the cursor somewhere.
pub open spec fn warp_tasks(warp: Option<Point>) -> Seq<Task> {
    match warp {
        Some(p) => seq![Task::Tell(Message::Tap(TapRequest::Warp(p)))],
        None => Seq::empty(),
    }
}

/// A task that tells the raise manager of a switch.
pub open spec fn switch_tasks(generation: Option<u64>) -> Seq<Task> {
    match generation {
        Some(generation) => seq![Task::Tell(Message::WorkspaceSwitchStarted { generation })],
        None => Seq::empty(),
    }
}

impl Reactor {
    /// The number of the workspace switch under way.
    pub open spec fn switch_generation(&self) -> Option<u64> {
        if self.switching() {
            self.workspace_switch_manager.active_workspace_switch
        } else {
            None
        }
    }

    /// The window that the choice comes to, if it can be focused.
    pub open spec fn focus_after_choice(&self, choice: FocusChoice, sur: Surroundings) -> Option<
        WindowId,
    > {
        match choice.focus {
            Some(wid) => if self.may_focus(wid, !self.switching(), sur) {
                Some(wid)
            } else {
                None
            },
            None => None,
        }
    }

    /// Whether nothing is left to raise.
    pub open spec fn nothing_to_raise(
        &self,
        raises: Seq<WindowId>,
        choice: FocusChoice,
        sur: Surroundings,
    ) -> bool {
        raises.len() == 0 && self.focus_after_choice(choice, sur) is None && (choice.handled
            || !self.switching())
    }

    /// The window that is asked to be focused.
    pub open spec fn focus_to_request(&self, choice: FocusChoice, sur: Surroundings) -> Option<
        WindowId,
    > {
        match self.focus_after_choice(choice, sur) {
            Some(wid) => if self.on_active_space(wid, sur) {
                Some(wid)
            } else {
                None
            },
            None => None,
        }
    }

    /// Where the cursor follows the focus to, now. During a switch it waits
    /// for the layout.
    pub open spec fn warp_with_focus(&self, wid: WindowId) -> Option<Point> {
        if self.config.settings.mouse_follows_focus && !self.switching() {
            self.middle_on_screen(wid)
        } else {
            None
        }
    }

    /// Whether a raise of the window manager's own is not to be taken for the
    /// user's.
    pub open spec fn raise_is_quiet(&self, focus: Option<WindowId>, switch_space: Option<SpaceId>) -> bool {
        focus is Some || switch_space is Some
    }

    /// Whether a request is what a response comes to.
    pub open spec fn is_request_for(
        &self,
        request: RaiseRequest,
        raises: Seq<WindowId>,
        focus: Option<WindowId>,
        target: Option<WindowId>,
        switch_space: Option<SpaceId>,
        sur: Surroundings,
    ) -> bool {
        &&& is_grouping(
            nested(request.raise_windows@),
            self.raisable(raises, sur),
            |w: WindowId| self.raise_key(w, sur),
        )
        &&& request.focus_window == match target {
            Some(wid) => Some((wid, self.warp_with_focus(wid))),
            None => None,
        }
        &&& request.apps@.no_duplicates()
        &&& request.apps@.to_set() == self.known_apps(with_focus(raises, focus))
        &&& request.focus_quiet == if self.raise_is_quiet(focus, switch_space) {
            Quiet::Yes
        } else {
            Quiet::No
        }
        &&& request.workspace_switch_generation == self.switch_generation()
    }

    /// The application whose activation will be of the window manager's own
    /// making.
    pub open spec fn quiet_pid(
        &self,
        focus: Option<WindowId>,
        target: Option<WindowId>,
        switch_space: Option<SpaceId>,
    ) -> Option<pid_t> {
        match target {
            Some(wid) => if (self.switch_generation() is Some || self.raise_is_quiet(
                focus,
                switch_space,
            )) && !(self.main_wid() matches Some(main) && main.pid == wid.pid) {
                Some(wid.pid)
            } else {
                None
            },
            None => None,
        }
    }

    /// The target, if the layout named it.
    pub open spec fn authoritative(
        &self,
        focus: Option<WindowId>,
        target: Option<WindowId>,
    ) -> Option<WindowId> {
        if focus is Some && target == focus {
            target
        } else {
            None
        }
    }

    fn focusable(&self, choice: &FocusChoice, sur: &Surroundings) -> (r: Option<WindowId>)
        requires
            self.wf(),
        ensures
            r == self.focus_after_choice(*choice, *sur),
    {
        let must_be_visible: bool = self.workspace_switch_manager.workspace_switch_state
            == WorkspaceSwitchState::Inactive;
        match choice.focus {
            Some(wid) => if self.can_focus(wid, must_be_visible, sur) {
                Some(wid)
            } else {
                None
            },
            None => None,
        }
    }

    fn build_request(
        &self,
        raises: &Vec<WindowId>,
        focus: Option<WindowId>,
        target: Option<WindowId>,
        switch_space: Option<SpaceId>,
        sur: &Surroundings,
    ) -> (r: RaiseRequest)
        requires
            self.wf(),
        ensures
            self.is_request_for(r, raises@, focus, target, switch_space, *sur),
    {
        let raisable: Vec<WindowId> = self.filter_raisable(raises, sur);
        let raise_windows: Vec<Vec<WindowId>> = self.group_for_raising(&raisable, sur);
        let focus_window: Option<(WindowId, Option<Point>)> = match target {
            Some(wid) => {
                let warp: Option<Point> = if self.config.settings.mouse_follows_focus
                    && self.workspace_switch_manager.workspace_switch_state
                    == WorkspaceSwitchState::Inactive {
                    self.window_center_on_known_screen(wid)
                } else {
                    None
                };
                Some((wid, warp))
            },
            None => None,
        };
        RaiseRequest {
            raise_windows,
            focus_window,
            apps: self.apps_of(raises, focus),
            focus_quiet: if focus.is_some() || switch_space.is_some() {
                Quiet::Yes
            } else {
                Quiet::No
            },
            workspace_switch_generation: self.current_generation(),
        }
    }

    fn current_generation(&self) -> (r: Option<u64>)
        ensures
            r == self.switch_generation(),
    {
        if self.workspace_switch_manager.workspace_switch_state == WorkspaceSwitchState::Active {
            self.workspace_switch_manager.active_workspace_switch
        } else {
            None
        }
    }

    fn quiet_activation_pid(
        &self,
        focus: Option<WindowId>,
        target: Option<WindowId>,
        switch_space: Option<SpaceId>,
    ) -> (r: Option<pid_t>)
        ensures
            r == self.quiet_pid(focus, target, switch_space),
    {
        match target {
            Some(wid) => {
                let frontmost: bool = match self.main_window() {
                    Some(main) => main.pid == wid.pid,
                    None => false,
                };
                if (self.current_generation().is_some() || focus.is_some()
                    || switch_space.is_some()) && !frontmost {
                    Some(wid.pid)
                } else {
                    None
                }
            },
            None => None,
        }
    }

    /// Raises and focuses what the layout asks for. Where it asks for nothing,
    /// a switch of workspaces or a pending refocus still moves the focus; an
    /// untracked window has then been made key, or not, before.
    pub fn handle_layout_response(
        &mut self,
        response: EventResponse,
        switch_space: Option<SpaceId>,
        key_made: bool,
        sur: &Surroundings,
    ) -> (r: Vec<Task>)
        requires
            old(self).wf(),
            sur.wf(),
        ensures
            final(self).wf(),
            *final(self) == (Reactor {
                workspace_switch_manager: WorkspaceSwitchManager {
                    workspace_switch_state:
                        final(self).workspace_switch_manager.workspace_switch_state,
                    pending_workspace_switch_origin:
                        final(self).workspace_switch_manager.pending_workspace_switch_origin,
                    pending_workspace_mouse_warp:
                        final(self).workspace_switch_manager.pending_workspace_mouse_warp,
                    ..old(self).workspace_switch_manager
                },
                refocus_manager: RefocusManager {
                    refocus_state: final(self).refocus_manager.refocus_state,
                    ..old(self).refocus_manager
                },
                above_window: final(self).above_window,
                ..*old(self)
            }),
            response_followed(
                *old(self),
                *final(self),
                r@,
                response,
                switch_space,
                key_made,
                *sur,
            ),
    {
        let mut tasks: Vec<Task> = no_tasks();
        if let Some(generation) = self.current_generation() {
            tasks.push(Task::Tell(Message::WorkspaceSwitchStarted { generation }));
        }
        assert(tasks@ =~= switch_tasks(self.switch_generation()));
        if self.is_in_drag() {
            self.workspace_switch_manager.mark_workspace_switch_inactive();
            return tasks;
        }
        let choice: FocusChoice = self.choose_focus(&response, switch_space, key_made, sur);
        let focus: Option<WindowId> = self.focusable(&choice, sur);
        let switching: bool = self.workspace_switch_manager.workspace_switch_state
            == WorkspaceSwitchState::Active;
        if response.raise_windows.len() == 0 && focus.is_none() && (choice.handled || !switching) {
            if let Some(p) = choice.warp {
                self.above_window = None;
                tasks.push(Task::Tell(Message::Tap(TapRequest::Warp(p))));
            }
            assert(tasks@ =~= switch_tasks(old(self).switch_generation()) + warp_tasks(
                choice.warp,
            ));
            if choice.handled {
                self.workspace_switch_manager.mark_workspace_switch_inactive();
            }
            self.refocus_manager.refocus_state = RefocusState::Idle;
            return tasks;
        }
        let target: Option<WindowId> = match focus {
            Some(wid) => if self.is_window_on_active_space(wid, sur) {
                Some(wid)
            } else {
                None
            },
            None => None,
        };
        let request: RaiseRequest = self.build_request(
            &response.raise_windows,
            response.focus_window,
            target,
            switch_space,
            sur,
        );
        let quiet: Option<pid_t> = self.quiet_activation_pid(
            response.focus_window,
            target,
            switch_space,
        );
        let expected: Option<WindowId> = match (response.focus_window, target) {
            (Some(named), Some(wid)) => if named == wid {
                target
            } else {
                None
            },
            _ => None,
        };
        self.refocus_manager.refocus_state = match choice.pending {
            Some(space) => RefocusState::Pending(space),
            None => RefocusState::Idle,
        };
        if target.is_some() {
            self.above_window = None;
            if self.config.settings.mouse_follows_focus && switching {
                self.workspace_switch_manager.pending_workspace_mouse_warp = target;
            }
        }
        let ghost started = tasks@;
        tasks.push(Task::Ask(Question::Raise(request), Work::RaiseSent { quiet, focus: expected }));
        assert(tasks@.drop_last() =~= started);
        tasks
    }

    /// The raise manager has the request: the activation and the main window
    /// that come of it are expected.
    pub fn raise_sent(&mut self, quiet: Option<pid_t>, focus: Option<WindowId>, now: u64)
        ensures
            *final(self) == (Reactor {
                workspace_switch_manager: final(self).workspace_switch_manager,
                main_window_tracker: final(self).main_window_tracker,
                ..*old(self)
            }),
            final(self).workspace_switch_manager@ == match quiet {
                Some(pid) => old(self).workspace_switch_manager@.expecting(pid, now),
                None => old(self).workspace_switch_manager@,
            },
            final(self).main_window_tracker@ == match focus {
                Some(wid) => TrackerModel {
                    requested_focus: Some((wid, now)),
                    ..old(self).main_window_tracker@
                },
                None => old(self).main_window_tracker@,
            },
    {
        if let Some(pid) = quiet {
            self.workspace_switch_manager.expect_quiet_activation(pid, now);
        }
        if let Some(wid) = focus {
            self.main_window_tracker.expect_focus(wid, now);
        }
    }

    /// Tells the workspace model of something about the layout: the focus
    /// first, then how everything looks.
    pub fn send_layout_event(event: LayoutEvent) -> (r: Vec<Task>)
        ensures
            r@ == layout_event_tasks(event),
    {
        let observe: Task = Task::Ask(Question::Observe, Work::LayoutEventObserved(event));
        match event {
            LayoutEvent::WindowFocused(window) => two_tasks(
                Task::Ask(Question::Core(CoreInput::FocusChanged(window)), Work::Done),
                observe,
            ),
            _ => one_task(observe),
        }
    }

    /// After the workspace model has seen the layout event: a window that was
    /// added to a workspace out of sight leaves the focus to the one in sight.
    pub fn layout_event_observed(&mut self, event: LayoutEvent) -> (r: Vec<Task>)
        ensures
            r@ == seq![Task::Go(Work::RespondNothing(None))],
            old(self).wf() ==> final(self).wf(),
            *final(self) == (Reactor {
                refocus_manager: RefocusManager {
                    refocus_state: final(self).refocus_manager.refocus_state,
                    ..old(self).refocus_manager
                },
                ..*old(self)
            }),
            final(self).refocus_manager.refocus_state == match event {
                LayoutEvent::WindowAdded(space, wid) => if old(self).shown_workspace(space) is Some
                    && old(self).assigned_workspace(wid) is Some && old(self).assigned_workspace(
                    wid,
                ) != old(self).shown_workspace(space) {
                    RefocusState::Pending(space)
                } else {
                    old(self).refocus_manager.refocus_state
                },
                _ => old(self).refocus_manager.refocus_state,
            },
    {
        if let LayoutEvent::WindowAdded(space, wid) = event {
            if self.window_in_non_active_workspace(space, wid) {
                self.refocus_manager.refocus_state = RefocusState::Pending(space);
            }
        }
        one_task(Task::Go(Work::RespondNothing(None)))
    }
}

/// The tasks that tell the workspace model of a layout event.
pub open spec fn layout_event_tasks(event: LayoutEvent) -> Seq<Task> {
    let observe = Task::Ask(Question::Observe, Work::LayoutEventObserved(event));
    match event {
        LayoutEvent::WindowFocused(window) => seq![
            Task::Ask(Question::Core(CoreInput::FocusChanged(window)), Work::Done),
            observe,
        ],
        _ => seq![observe],
    }
}

/// While the mouse drags a window, nothing is raised or focused.
pub proof fn law_nothing_is_focused_during_a_drag(
    m: Reactor,
    raises: Seq<WindowId>,
    focus: Option<WindowId>,
    switch_space: Option<SpaceId>,
    sur: Surroundings,
)
    requires
        m.in_drag(),
    ensures
        m.key_window_to_try(raises, focus, switch_space, sur) is None,
{
}

/// During a switch to a workspace on one space, a window on another space is
/// not focused for being under the cursor.
pub proof fn law_cursor_elsewhere_does_not_steal_a_switch(
    m: Reactor,
    space: SpaceId,
    key_made: bool,
    sur: Surroundings,
)
    requires
        m.switching(),
        m.under_cursor(sur) matches Some(wid) && m.best_space_of(wid, sur) != Some(space),
    ensures
        m.focus_choice(Seq::empty(), None, Some(space), key_made, sur).focus is None,
{
}

/// A focused window is on a managed space.
pub proof fn law_requested_focus_is_on_a_managed_space(
    m: Reactor,
    choice: FocusChoice,
    sur: Surroundings,
)
    ensures
        m.focus_to_request(choice, sur) matches Some(wid) ==> m.on_active_space(wid, sur),
{
}

/// A window is asked to be focused only if it was chosen, is meant for a
/// managed space and, outside a switch, is visible; and then always.
pub proof fn law_chosen_window_is_requested(
    m: Reactor,
    choice: FocusChoice,
    wid: WindowId,
    wsid: WindowServerId,
    space: SpaceId,
    sur: Surroundings,
)
    ensures
        m.focus_to_request(choice, sur) == Some(wid) ==> choice.focus == Some(wid) && (
        m.intended_space_of(wid, sur) matches Some(s) && m.active_spaces@.contains(s)),
        choice.focus == Some(wid) && m.window_manager.windows@.contains_key(wid)
            && m.window_manager.windows@[wid].sys_id == Some(wsid) && m.intended_space_of(wid, sur)
            == Some(space) && m.active_spaces@.contains(space) && (
        m.workspace_switch_manager.workspace_switch_state == WorkspaceSwitchState::Active
            || m.window_manager.visible_windows@.contains(wsid)) ==> m.focus_to_request(choice, sur)
            == Some(wid),
        choice.focus is None ==> m.focus_to_request(choice, sur) is None,
{
}

/// A request for a response carries the number of the switch under way, if
/// one is; is quiet exactly if the layout named a window or a switch is what
/// it answers; puts the cursor on the focused window only outside a switch
/// and by the settings; and reaches the known applications of the windows.
pub proof fn law_raise_request_fits_its_response(
    m: Reactor,
    request: RaiseRequest,
    raises: Seq<WindowId>,
    focus: Option<WindowId>,
    target: Option<WindowId>,
    switch_space: Option<SpaceId>,
    sur: Surroundings,
    pid: pid_t,
)
    requires
        m.is_request_for(request, raises, focus, target, switch_space, sur),
    ensures
        request.workspace_switch_generation == if m.workspace_switch_manager.workspace_switch_state
            == WorkspaceSwitchState::Active {
            m.workspace_switch_manager.active_workspace_switch
        } else {
            None
        },
        request.focus_quiet == Quiet::Yes <==> focus is Some || switch_space is Some,
        target is None <==> request.focus_window is None,
        target matches Some(wid) ==> (request.focus_window matches Some((w, warp)) && w == wid && (
        warp is Some ==> m.config.settings.mouse_follows_focus
            && m.workspace_switch_manager.workspace_switch_state == WorkspaceSwitchState::Inactive)),
        request.apps@.contains(pid) <==> m.app_manager.apps@.contains_key(pid) && ((exists|i: int|
            0 <= i < raises.len() && (#[trigger] raises[i]).pid == pid) || (focus matches Some(f)
            && f.pid == pid)),
{
    let all = with_focus(raises, focus);
    assert(request.apps@.contains(pid) <==> request.apps@.to_set().contains(pid));
    if exists|i: int| 0 <= i < all.len() && (#[trigger] all[i]).pid == pid {
        let i = choose|i: int| 0 <= i < all.len() && (#[trigger] all[i]).pid == pid;
        if i < raises.len() {
            assert(raises[i].pid == pid);
        }
    }
    if exists|i: int| 0 <= i < raises.len() && (#[trigger] raises[i]).pid == pid {
        let i = choose|i: int| 0 <= i < raises.len() && (#[trigger] raises[i]).pid == pid;
        assert(all[i].pid == pid);
    }
    if let Some(f) = focus {
        assert(all[raises.len() as int] == f);
    }
}

/// An activation is expected as the window manager's own exactly for a
/// focused window of another application than the main window's, while a
/// switch is under way or the layout or a switch named it.
pub proof fn law_quiet_activation_is_expected_of_another_application(
    m: Reactor,
    focus: Option<WindowId>,
    wid: WindowId,
    switch_space: Option<SpaceId>,
)
    ensures
        m.quiet_pid(focus, None, switch_space) is None,
        m.main_window_tracker@.main_window() matches Some(main) && main.pid == wid.pid
            ==> m.quiet_pid(focus, Some(wid), switch_space) is None,
        m.main_window_tracker@.main_window() is None && (focus is Some || switch_space is Some)
            ==> m.quiet_pid(focus, Some(wid), switch_space) == Some(wid.pid),
        focus is None && switch_space is None && m.workspace_switch_manager.active_workspace_switch
            is None ==> m.quiet_pid(focus, Some(wid), switch_space) is None,
        m.quiet_pid(focus, Some(wid), switch_space) matches Some(pid) ==> pid == wid.pid,
{
}

/// Something is left to raise while a window is named or can be focused, and
/// during a switch that nothing else has dealt with.
pub proof fn law_something_is_left_to_raise(
    m: Reactor,
    raises: Seq<WindowId>,
    choice: FocusChoice,
    sur: Surroundings,
)
    ensures
        raises.len() > 0 ==> !m.nothing_to_raise(raises, choice, sur),
        m.focus_to_request(choice, sur) is Some ==> !m.nothing_to_raise(raises, choice, sur),
        raises.len() == 0 && choice.focus is None && choice.handled ==> m.nothing_to_raise(
            raises,
            choice,
            sur,
        ),
        raises.len() == 0 && choice.focus is None && !choice.handled ==> m.nothing_to_raise(
            raises,
            choice,
            sur,
        ) == (m.workspace_switch_manager.workspace_switch_state == WorkspaceSwitchState::Inactive),
{
}

/// What following a response leads to and leaves.
pub open spec fn response_followed(
    before: Reactor,
    after: Reactor,
    tasks: Seq<Task>,
    response: EventResponse,
    switch_space: Option<SpaceId>,
    key_made: bool,
    sur: Surroundings,
) -> bool {
    let raises = response.raise_windows@;
    let focus = response.focus_window;
    let choice = before.focus_choice(raises, focus, switch_space, key_made, sur);
    let started = switch_tasks(before.switch_generation());
    if before.in_drag() {
        &&& tasks == started
        &&& after.workspace_switch_manager@
            == before.workspace_switch_manager@.inactive()
        &&& after.refocus_manager == before.refocus_manager
        &&& after.above_window == before.above_window
    } else if before.nothing_to_raise(raises, choice, sur) {
        &&& tasks == started + warp_tasks(choice.warp)
        &&& after.workspace_switch_manager@ == if choice.handled {
            before.workspace_switch_manager@.inactive()
        } else {
            before.workspace_switch_manager@
        }
        &&& after.refocus_manager.refocus_state == RefocusState::Idle
        &&& after.above_window == if choice.warp is Some {
            None
        } else {
            before.above_window
        }
    } else {
        let target = before.focus_to_request(choice, sur);
        &&& tasks.len() == started.len() + 1
        &&& tasks.drop_last() == started
        &&& tasks.last() matches Task::Ask(
            Question::Raise(request),
            Work::RaiseSent { quiet, focus: expected },
        ) && before.is_request_for(
            request,
            raises,
            focus,
            target,
            switch_space,
            sur,
        ) && quiet == before.quiet_pid(focus, target, switch_space) && expected
            == before.authoritative(focus, target)
        &&& after.workspace_switch_manager@ == (SwitchModel {
            pending_warp: if target is Some
                && before.config.settings.mouse_follows_focus && before.switching() {
                target
            } else {
                before.workspace_switch_manager.pending_workspace_mouse_warp
            },
            ..before.workspace_switch_manager@
        })
        &&& after.refocus_manager.refocus_state == match choice.pending {
            Some(space) => RefocusState::Pending(space),
            None => RefocusState::Idle,
        }
        &&& after.above_window == if target is Some {
            None
        } else {
            before.above_window
        }
    }
}

/// During a drag a response is not followed, and a switch is over. Otherwise,
/// with something to raise, just one request is made, for the windows and the
/// focus that the response comes to; with nothing, at most the cursor moves.
/// A switch under way is always announced first.
pub proof fn law_response_is_followed(
    before: Reactor,
    after: Reactor,
    tasks: Seq<Task>,
    response: EventResponse,
    switch_space: Option<SpaceId>,
    key_made: bool,
    wid: WindowId,
    generation: u64,
    sur: Surroundings,
)
    requires
        response_followed(before, after, tasks, response, switch_space, key_made, sur),
    ensures
        before.workspace_switch_manager.workspace_switch_state == WorkspaceSwitchState::Active
            && before.workspace_switch_manager.active_workspace_switch == Some(generation)
            ==> tasks.len() > 0 && tasks[0] == Task::Tell(
            Message::WorkspaceSwitchStarted { generation },
        ),
        before.drag_manager.drag_state is Active ==> tasks.len() <= 1
            && after.workspace_switch_manager@.state == WorkspaceSwitchState::Inactive,
        !(before.drag_manager.drag_state is Active) && response.raise_windows@.len() > 0
            ==> tasks.len() > 0 && (tasks.last() matches Task::Ask(Question::Raise(_), next) && next
            is RaiseSent),
        !(before.drag_manager.drag_state is Active) && response.focus_window == Some(wid)
            && before.may_focus(
            wid,
            before.workspace_switch_manager.workspace_switch_state
                != WorkspaceSwitchState::Active,
            sur,
        ) && before.on_active_space(wid, sur) ==> tasks.len() > 0 && (tasks.last()
            matches Task::Ask(Question::Raise(request), Work::RaiseSent { quiet, focus }) && focus
            == Some(wid) && (request.focus_window matches Some((w, _)) && w == wid)),
        !(before.drag_manager.drag_state is Active) && response.raise_windows@.len() == 0
            && response.focus_window is None && before.workspace_switch_manager
            .workspace_switch_state == WorkspaceSwitchState::Inactive
            && before.refocus_manager.refocus_state == RefocusState::Idle ==> tasks.len() == 0,
{
    let started = switch_tasks(before.switch_generation());
    if before.workspace_switch_manager.workspace_switch_state == WorkspaceSwitchState::Active
        && before.workspace_switch_manager.active_workspace_switch == Some(generation) {
        assert(started.len() == 1);
        if tasks.len() > 1 {
            assert(tasks.drop_last().len() > 0);
            assert(tasks.drop_last()[0] == tasks[0]);
        }
    }
}

} // verus!
