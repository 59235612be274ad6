//! Windows being dragged.

use vstd::prelude::*;

use crate::app::WindowId;
use crate::collections::{first_at, lemma_filter_members, lemma_first_index, lemma_no_match};
use crate::event::ScreenInfo;
use crate::geometry::Rect;
use crate::ids::{SpaceId, WindowServerId};
use crate::model::{CoreCommand, CoreError, Transition, WorkspaceId};
use crate::reactor::managers::{DragManager, DragSession, DragState};
use crate::reactor::screens::{best_space_for_frame, drag_space_candidate, space_of_frame, space_of_middle};
use crate::reactor::spaces::{only_targets_changed, RECENT_WORKSPACE_TARGET_TIMEOUT};
use crate::reactor::surroundings::Surroundings;
use crate::reactor::task::{
    ask_core, no_tasks, one_task, CoreInput, LayoutEvent, Question, Task, Work,
};
use crate::reactor::transition::{core_after, reply_in_range};
use crate::reactor::Reactor;
use crate::stack_line::window_by_id;

verus! {

/// Whether a task puts a dragged window and what it is over to the workspace
/// model.
pub open spec fn is_drag_update(
    task: Task,
    window: WindowId,
    frame: Rect,
    candidates: Seq<(WindowId, Rect)>,
) -> bool {
    task matches Task::Ask(
        Question::Core(CoreInput::DragUpdated { window: w, frame: f, candidates: c }),
        Work::DragUpdated { window: v },
    ) && w == window && v == window && f == frame && c@ == candidates
}

impl Reactor {
    pub open spec fn drag_session(&self) -> Option<DragSession> {
        match self.drag_manager.drag_state {
            DragState::Active { session } => Some(session),
            DragState::Inactive => None,
        }
    }

    pub fn get_active_drag_session(&self) -> (r: Option<DragSession>)
        ensures
            r == self.drag_session(),
    {
        match self.drag_manager.drag_state {
            DragState::Active { session } => Some(session),
            DragState::Inactive => None,
        }
    }

    pub fn take_active_drag_session(&mut self) -> (r: Option<DragSession>)
        ensures
            r == old(self).drag_session(),
            *final(self) == (Reactor {
                drag_manager: DragManager {
                    drag_state: DragState::Inactive,
                    ..old(self).drag_manager
                },
                ..*old(self)
            }),
            old(self).wf() ==> final(self).wf(),
    {
        let session: Option<DragSession> = self.get_active_drag_session();
        self.drag_manager.drag_state = DragState::Inactive;
        session
    }

    /// The window being dragged and the one it is to change places with.
    pub open spec fn pending_swap(&self) -> Option<(WindowId, WindowId)> {
        match (self.core.drag.window, self.core.drag.target) {
            (Some(window), Some(target)) => Some((window, target)),
            _ => None,
        }
    }

    pub fn get_pending_drag_swap(&self) -> (r: Option<(WindowId, WindowId)>)
        ensures
            r == self.pending_swap(),
    {
        match (self.core.drag.window, self.core.drag.target) {
            (Some(window), Some(target)) => Some((window, target)),
            _ => None,
        }
    }

    pub open spec fn server_id(&self, wid: WindowId) -> Option<WindowServerId> {
        match self.window_manager.window_spec(wid) {
            Some(w) => w.sys_id,
            None => None,
        }
    }

    pub fn window_server_id(&self, wid: WindowId) -> (r: Option<WindowServerId>)
        ensures
            r == self.server_id(wid),
    {
        match self.window_manager.window(wid) {
            Some(w) => w.sys_id,
            None => None,
        }
    }

    /// A drag of a window that begins where the window is.
    pub open spec fn new_session(&self, wid: WindowId, frame: Rect, sur: Surroundings) -> DragSession {
        let space = self.best_space(frame, self.server_id(wid), sur);
        DragSession {
            window: wid,
            last_frame: frame,
            origin_space: space,
            settled_space: space,
            layout_dirty: false,
        }
    }

    /// Begins to drag a window, unless that has begun.
    pub fn ensure_active_drag(&mut self, wid: WindowId, frame: &Rect, sur: &Surroundings)
        requires
            old(self).wf(),
            frame.in_range(),
        ensures
            final(self).wf(),
            *final(self) == (Reactor {
                drag_manager: DragManager {
                    drag_state: DragState::Active {
                        session: match old(self).drag_session() {
                            Some(session) => if session.window == wid {
                                session
                            } else {
                                old(self).new_session(wid, *frame, *sur)
                            },
                            None => old(self).new_session(wid, *frame, *sur),
                        },
                    },
                    skip_layout_for_window: Some(wid),
                },
                ..*old(self)
            }),
    {
        let begun: bool = match self.get_active_drag_session() {
            Some(session) => session.window == wid,
            None => false,
        };
        if !begun {
            let origin_space: Option<SpaceId> = self.best_space_for_window(
                frame,
                self.window_server_id(wid),
                sur,
            );
            self.drag_manager.drag_state = DragState::Active {
                session: DragSession {
                    window: wid,
                    last_frame: *frame,
                    origin_space,
                    settled_space: origin_space,
                    layout_dirty: false,
                },
            };
        }
        self.drag_manager.skip_layout_for_window = Some(wid);
    }

    /// The space that a dragged window is over: that of its middle, or else
    /// where it is, or else where it was.
    pub open spec fn dragged_space(
        &self,
        session: DragSession,
        frame: Rect,
        sur: Surroundings,
    ) -> Option<SpaceId> {
        let best = self.best_space(frame, self.server_id(session.window), sur);
        if frame.size.width == 0 || frame.size.height == 0 {
            match session.settled_space {
                Some(space) => Some(space),
                None => best,
            }
        } else {
            match space_of_middle(self.space_manager.screens@, frame) {
                Some(space) => Some(space),
                None => match best {
                    Some(space) => Some(space),
                    None => session.settled_space,
                },
            }
        }
    }

    fn resolve_drag_space(&self, session: &DragSession, frame: &Rect, sur: &Surroundings) -> (r:
        Option<SpaceId>)
        requires
            self.wf(),
            frame.in_range(),
        ensures
            r == self.dragged_space(*session, *frame, *sur),
    {
        let wsid: Option<WindowServerId> = self.window_server_id(session.window);
        if frame.size.width == 0 || frame.size.height == 0 {
            return match session.settled_space {
                Some(space) => Some(space),
                None => self.best_space_for_window(frame, wsid, sur),
            };
        }
        match drag_space_candidate(&self.space_manager.screens, frame) {
            Some(space) => Some(space),
            None => match self.best_space_for_window(frame, wsid, sur) {
                Some(space) => Some(space),
                None => session.settled_space,
            },
        }
    }

    /// A drag after its window got another frame.
    pub open spec fn dragged(
        &self,
        session: DragSession,
        frame: Rect,
        sur: Surroundings,
    ) -> DragSession {
        let space = self.dragged_space(session, frame, sur);
        DragSession {
            last_frame: frame,
            settled_space: space,
            layout_dirty: session.layout_dirty || session.last_frame != frame
                || session.settled_space != space,
            ..session
        }
    }

    /// Follows a dragged window.
    pub fn update_active_drag(&mut self, wid: WindowId, new_frame: &Rect, sur: &Surroundings)
        requires
            old(self).wf(),
            new_frame.in_range(),
        ensures
            final(self).wf(),
            match old(self).drag_session() {
                Some(session) => if session.window == wid {
                    *final(self) == (Reactor {
                        drag_manager: DragManager {
                            drag_state: DragState::Active {
                                session: old(self).dragged(session, *new_frame, *sur),
                            },
                            skip_layout_for_window: if session.settled_space != old(
                                self).dragged_space(session, *new_frame, *sur) {
                                Some(wid)
                            } else {
                                old(self).drag_manager.skip_layout_for_window
                            },
                        },
                        ..*old(self)
                    })
                } else {
                    *final(self) == *old(self)
                },
                None => *final(self) == *old(self),
            },
    {
        let mut session: DragSession = match self.get_active_drag_session() {
            Some(session) => session,
            None => {
                return;
            },
        };
        if session.window != wid {
            return;
        }
        let space: Option<SpaceId> = self.resolve_drag_space(&session, new_frame, sur);
        if session.last_frame != *new_frame {
            session.layout_dirty = true;
        }
        session.last_frame = *new_frame;
        let settled: bool = match (session.settled_space, space) {
            (Some(a), Some(b)) => a == b,
            (None, None) => true,
            _ => false,
        };
        if !settled {
            session.settled_space = space;
            session.layout_dirty = true;
            self.drag_manager.skip_layout_for_window = Some(session.window);
        }
        self.drag_manager.drag_state = DragState::Active { session };
    }

    /// Whether a window is one that a dragged window on a space could change
    /// places with.
    pub open spec fn can_swap(
        &self,
        wid: WindowId,
        other: WindowId,
        space: SpaceId,
        sur: Surroundings,
    ) -> bool {
        other != wid && self.best_space_of(other, sur) == Some(space) && self.on_shown_workspace(
            space,
            other,
        ) && !self.floats(other)
    }

    /// The windows that a dragged window could change places with, and their
    /// frames.
    pub open spec fn swap_candidates(&self, wid: WindowId, space: SpaceId, sur: Surroundings) -> Seq<
        (WindowId, Rect),
    > {
        self.window_manager.windows.order().filter(
            |other: WindowId| self.can_swap(wid, other, space, sur),
        ).map_values(
            |other: WindowId| (other, self.window_manager.windows@[other].frame_monotonic),
        )
    }

    pub fn collect_drag_swap_candidates(&self, wid: WindowId, space: SpaceId, sur: &Surroundings) -> (r:
        Vec<(WindowId, Rect)>)
        requires
            self.wf(),
        ensures
            r@ == self.swap_candidates(wid, space, *sur),
    {
        let ghost pred = |other: WindowId| self.can_swap(wid, other, space, *sur);
        let ghost entry = |other: WindowId|
            (other, self.window_manager.windows@[other].frame_monotonic);
        let all: Vec<WindowId> = self.window_manager.windows.keys();
        let mut r: Vec<(WindowId, Rect)> = Vec::new();
        let mut i: usize = 0;
        proof {
            reveal(Seq::filter);
            assert(r@ =~= all@.take(0).filter(pred).map_values(entry));
        }
        while i < all.len()
            invariant
                self.wf(),
                i <= all@.len(),
                all@ == self.window_manager.windows.order(),
                forall|k: WindowId| #[trigger]
                    all@.contains(k) <==> self.window_manager.windows@.contains_key(k),
                pred == (|other: WindowId| self.can_swap(wid, other, space, *sur)),
                entry == (|other: WindowId|
                    (other, self.window_manager.windows@[other].frame_monotonic)),
                r@ == all@.take(i as int).filter(pred).map_values(entry),
            decreases all@.len() - i,
        {
            proof {
                reveal(Seq::filter);
                assert(all@.take(i + 1).drop_last() =~= all@.take(i as int));
                assert(all@.contains(all@[i as int]));
            }
            let other: WindowId = all[i];
            let ghost before = all@.take(i as int).filter(pred);
            let here: bool = match self.best_space_for_window_id(other, sur) {
                Some(s) => s == space,
                None => false,
            };
            if other != wid && here && self.is_window_in_active_workspace(space, other)
                && !self.is_window_floating(other) {
                if let Some(w) = self.window_manager.window(other) {
                    r.push((other, w.frame_monotonic));
                }
                assert(r@ =~= before.push(other).map_values(entry));
            }
            i += 1;
        }
        assert(all@.take(i as int) =~= all@);
        r
    }

    /// The space that a dragged window would change places on.
    pub open spec fn swap_space(&self, wid: WindowId, frame: Rect, sur: Surroundings) -> Option<
        SpaceId,
    > {
        let settled = match self.drag_session() {
            Some(session) => session.settled_space,
            None => None,
        };
        match settled {
            Some(space) => Some(space),
            None => self.best_space(frame, self.server_id(wid), sur),
        }
    }

    /// The space that a drag came from.
    pub open spec fn drag_origin(&self, wid: WindowId, sur: Surroundings) -> Option<SpaceId> {
        let origin = match self.drag_session() {
            Some(session) => session.origin_space,
            None => None,
        };
        match origin {
            Some(space) => Some(space),
            None => match self.core.drag.origin_frame {
                Some(frame) => self.best_space(frame, self.server_id(wid), sur),
                None => None,
            },
        }
    }

    fn find_swap_space(&self, wid: WindowId, frame: &Rect, sur: &Surroundings) -> (r: Option<
        SpaceId,
    >)
        requires
            self.wf(),
            frame.in_range(),
        ensures
            r == self.swap_space(wid, *frame, *sur),
    {
        let settled: Option<SpaceId> = match self.get_active_drag_session() {
            Some(session) => session.settled_space,
            None => None,
        };
        match settled {
            Some(space) => Some(space),
            None => self.best_space_for_window(frame, self.window_server_id(wid), sur),
        }
    }

    fn find_drag_origin(&self, wid: WindowId, sur: &Surroundings) -> (r: Option<SpaceId>)
        requires
            self.wf(),
        ensures
            r == self.drag_origin(wid, *sur),
    {
        let origin: Option<SpaceId> = match self.get_active_drag_session() {
            Some(session) => session.origin_space,
            None => None,
        };
        match origin {
            Some(space) => Some(space),
            None => match self.core.drag.origin_frame {
                Some(frame) => self.best_space_for_window(&frame, self.window_server_id(wid), sur),
                None => None,
            },
        }
    }

    /// Tells the workspace model what a dragged window is over. One that has
    /// left its space changes places with nothing.
    pub fn maybe_swap_on_drag(&mut self, wid: WindowId, new_frame: Rect, sur: &Surroundings) -> (r:
        Vec<Task>)
        requires
            old(self).wf(),
            new_frame.in_range(),
        ensures
            final(self).wf(),
            *final(self) == (Reactor {
                drag_manager: DragManager {
                    drag_state: final(self).drag_manager.drag_state,
                    ..old(self).drag_manager
                },
                ..*old(self)
            }),
            swap_looked_for(
                *old(self),
                *final(self),
                r@,
                wid,
                new_frame,
                *sur,
            ),
    {
        if !self.is_in_drag() || !self.window_manager.windows.contains_key(wid) {
            return no_tasks();
        }
        let space: SpaceId = match self.find_swap_space(wid, &new_frame, sur) {
            Some(space) => space,
            None => {
                return no_tasks();
            },
        };
        if let Some(origin) = self.find_drag_origin(wid, sur) {
            if origin != space {
                if let Some((window, _)) = self.get_pending_drag_swap() {
                    if window == wid {
                        self.drag_manager.drag_state = DragState::Inactive;
                    }
                }
                return one_task(Task::Ask(Question::Core(CoreInput::DragCancelled), Work::Done));
            }
        }
        if !self.is_window_in_active_workspace(space, wid) {
            return no_tasks();
        }
        let candidates: Vec<(WindowId, Rect)> = self.collect_drag_swap_candidates(wid, space, sur);
        one_task(
            Task::Ask(
                Question::Core(
                    CoreInput::DragUpdated { window: wid, frame: new_frame, candidates },
                ),
                Work::DragUpdated { window: wid },
            ),
        )
    }

    /// The workspace model knows what a dragged window is over, or does not
    /// care. Over another window, the dragged one is left where it is.
    pub fn drag_updated(&mut self, reply: Result<Transition, CoreError>, wid: WindowId)
        requires
            old(self).wf(),
            reply_in_range(reply),
        ensures
            final(self).wf(),
            *final(self) == (Reactor {
                core: core_after(old(self).core, reply),
                drag_manager: DragManager {
                    skip_layout_for_window: match reply {
                        Ok(transition) => if transition.snapshot.drag.target is Some {
                            Some(wid)
                        } else if old(self).drag_manager.skip_layout_for_window == Some(wid) {
                            None
                        } else {
                            old(self).drag_manager.skip_layout_for_window
                        },
                        Err(_) => old(self).drag_manager.skip_layout_for_window,
                    },
                    ..old(self).drag_manager
                },
                ..*old(self)
            }),
    {
        if self.core_replied(reply).is_none() {
            return;
        }
        if self.core.drag.target.is_some() {
            self.drag_manager.skip_layout_for_window = Some(wid);
            return;
        }
        if let Some(skipped) = self.drag_manager.skip_layout_for_window {
            if skipped == wid {
                self.drag_manager.skip_layout_for_window = None;
            }
        }
    }

    /// The space that a drag ends on. The window server can go on reporting
    /// the origin for a while, so where the drag settled comes first.
    pub open spec fn final_space(&self, session: DragSession, sur: Surroundings) -> Option<SpaceId> {
        match session.settled_space {
            Some(space) => Some(space),
            None => match space_of_frame(self.space_manager.screens@, session.last_frame) {
                Some(space) => Some(space),
                None => self.best_space_of(session.window, sur),
            },
        }
    }

    /// Whether windows have to be laid out again after a drag.
    pub open spec fn drag_needs_layout(&self, sur: Surroundings) -> bool {
        self.drag_session() matches Some(session) && (session.origin_space != self.final_space(
            session,
            sur,
        ) || session.layout_dirty)
    }

    /// What the end of a drag takes.
    pub open spec fn drag_end_tasks(&self, sur: Surroundings) -> Seq<Task> {
        match self.drag_session() {
            Some(session) => {
                let end = self.final_space(session, sur);
                let left = if session.origin_space != end && session.origin_space is Some {
                    seq![Task::Go(Work::LayoutEvent(LayoutEvent::Changed))]
                } else {
                    Seq::empty()
                };
                let arrived = match end {
                    Some(space) => if session.origin_space != end {
                        seq![
                            Task::Go(Work::AssignToSpace { window: session.window, space }),
                            Task::Go(
                                Work::LayoutEvent(LayoutEvent::WindowAdded(space, session.window)),
                            ),
                        ]
                    } else {
                        Seq::empty()
                    },
                    None => Seq::empty(),
                };
                left + arrived + seq![Task::Ask(Question::Observe, Work::Done)]
            },
            None => Seq::empty(),
        }
    }

    /// Ends a drag: a window that was dragged to another space goes to the
    /// workspace shown there.
    pub fn finalize_active_drag(&mut self, sur: &Surroundings) -> (r: (bool, Vec<Task>))
        requires
            old(self).wf(),
        ensures
            final(self).wf(),
            r.0 == old(self).drag_needs_layout(*sur),
            r.1@ == old(self).drag_end_tasks(*sur),
            *final(self) == (Reactor {
                drag_manager: DragManager {
                    drag_state: DragState::Inactive,
                    skip_layout_for_window: match old(self).drag_session() {
                        Some(session) => if old(self).drag_needs_layout(*sur) {
                            Some(session.window)
                        } else {
                            old(self).drag_manager.skip_layout_for_window
                        },
                        None => old(self).drag_manager.skip_layout_for_window,
                    },
                },
                ..*old(self)
            }),
    {
        let mut tasks: Vec<Task> = no_tasks();
        let session: DragSession = match self.get_active_drag_session() {
            Some(session) => session,
            None => {
                return (false, tasks);
            },
        };
        let end: Option<SpaceId> = match session.settled_space {
            Some(space) => Some(space),
            None => match best_space_for_frame(&self.space_manager.screens, &session.last_frame) {
                Some(space) => Some(space),
                None => self.best_space_for_window_id(session.window, sur),
            },
        };
        let _ = self.take_active_drag_session();
        let moved: bool = match (session.origin_space, end) {
            (Some(a), Some(b)) => a != b,
            (None, None) => false,
            _ => true,
        };
        if moved {
            if session.origin_space.is_some() {
                tasks.push(Task::Go(Work::LayoutEvent(LayoutEvent::Changed)));
            }
            if let Some(space) = end {
                tasks.push(Task::Go(Work::AssignToSpace { window: session.window, space }));
                tasks.push(
                    Task::Go(Work::LayoutEvent(LayoutEvent::WindowAdded(space, session.window))),
                );
            }
        }
        if moved || session.layout_dirty {
            self.drag_manager.skip_layout_for_window = Some(session.window);
        }
        tasks.push(Task::Ask(Question::Observe, Work::Done));
        assert(tasks@ =~= old(self).drag_end_tasks(*sur));
        (moved || session.layout_dirty, tasks)
    }

    /// Gives a window to the workspace that a space shows.
    pub fn assign_to_space(&self, window: WindowId, space: SpaceId) -> (r: Vec<Task>)
        ensures
            match (self.shown_workspace(space), self.display_of_space(space)) {
                (Some(workspace), Some(display)) => r@.len() == 1 && (r@[0] matches Task::Ask(
                    Question::Core(
                        CoreInput::Command(
                            CoreCommand::MoveWindowToDisplay { display: d, window: w },
                        ),
                    ),
                    next,
                ) && d@ == display && w == Some(window) && next == (Work::AssignedToSpace {
                    window,
                    space,
                    workspace,
                })),
                _ => r@.len() == 0,
            },
    {
        match (self.active_workspace_for_space(space), self.display_uuid_for_space(space)) {
            (Some(workspace), Some(display)) => one_task(
                ask_core(
                    CoreCommand::MoveWindowToDisplay { display, window: Some(window) },
                    Work::AssignedToSpace { window, space, workspace },
                ),
            ),
            _ => no_tasks(),
        }
    }

    /// The workspace model has given a window to a display, or not.
    pub fn assigned_to_space(
        &mut self,
        reply: Result<Transition, CoreError>,
        window: WindowId,
        space: SpaceId,
        workspace: WorkspaceId,
        now: u64,
    )
        requires
            old(self).wf(),
            reply_in_range(reply),
            now <= u64::MAX - RECENT_WORKSPACE_TARGET_TIMEOUT,
        ensures
            final(self).wf(),
            only_targets_changed(
                Reactor { core: core_after(old(self).core, reply), ..*old(self) },
                *final(self),
            ),
            final(self).refocus_manager.recent_workspace_targets@ == match reply {
                Ok(_) => old(self).with_recent_target(window, Some((space, workspace)), now),
                Err(_) => old(self).refocus_manager.recent_workspace_targets@,
            },
    {
        if self.core_replied(reply).is_some() {
            let _ = self.remember_recent_workspace_target_for(window, space, workspace, now);
        }
    }
}

/// A dragged window is never a candidate to change places with itself, and
/// candidates are in view on the same space.
pub proof fn law_swap_candidates_are_neighbours(
    m: Reactor,
    wid: WindowId,
    other: WindowId,
    space: SpaceId,
    sur: Surroundings,
)
    requires
        m.can_swap(wid, other, space, sur),
    ensures
        other != wid,
        m.on_shown_workspace(space, other),
        m.best_space_of(other, sur) == Some(space),
{
}

/// A drag that settled on another space than it came from ends there.
pub proof fn law_cross_display_drag_does_not_snap_back(
    m: Reactor,
    session: DragSession,
    space: SpaceId,
    sur: Surroundings,
)
    requires
        m.drag_manager.drag_state == (DragState::Active { session }),
        session.settled_space == Some(space),
        session.origin_space != Some(space),
    ensures
        m.final_space(session, sur) == Some(space),
        m.drag_needs_layout(sur),
        m.drag_end_tasks(sur).contains(
            Task::Go(Work::AssignToSpace { window: session.window, space }),
        ),
{
    let tasks = m.drag_end_tasks(sur);
    let at = if session.origin_space is Some {
        1int
    } else {
        0
    };
    assert(tasks[at] == Task::Go(Work::AssignToSpace { window: session.window, space }));
}

/// A drag that follows a frame with an area whose middle lies on a screen
/// that shows a space settles on that space, whatever it was on before, and
/// ends there: a window that came from another space is given to the one
/// that the screen shows.
pub proof fn law_drag_settles_where_its_middle_is(
    m: Reactor,
    after: Reactor,
    session: DragSession,
    frame: Rect,
    i: int,
    space: SpaceId,
    sur: Surroundings,
    later: Surroundings,
)
    requires
        frame.in_range(),
        frame.size.width > 0,
        frame.size.height > 0,
        0 <= i < m.space_manager.screens@.len(),
        m.space_manager.screens@[i].space == Some(space),
        ({
            let x = frame.origin.x + frame.size.width as int / 2;
            let y = frame.origin.y + frame.size.height as int / 2;
            let on = |s: ScreenInfo|
                s.frame.origin.x <= x <= s.frame.origin.x + s.frame.size.width
                    && s.frame.origin.y <= y <= s.frame.origin.y + s.frame.size.height;
            &&& on(m.space_manager.screens@[i])
            &&& forall|j: int| 0 <= j < i ==> !on(#[trigger] m.space_manager.screens@[j])
        }),
        after.drag_manager.drag_state == (DragState::Active {
            session: m.dragged(session, frame, sur),
        }),
    ensures
        m.dragged(session, frame, sur).settled_space == Some(space),
        m.dragged(session, frame, sur).last_frame == frame,
        m.dragged(session, frame, sur).origin_space == session.origin_space,
        m.dragged(session, frame, sur).window == session.window,
        session.settled_space != Some(space) ==> m.dragged(session, frame, sur).layout_dirty,
        session.origin_space != Some(space) ==> after.drag_needs_layout(later)
            && after.drag_end_tasks(later).contains(
            Task::Go(Work::AssignToSpace { window: session.window, space }),
        ) && after.drag_end_tasks(later).contains(
            Task::Go(Work::LayoutEvent(LayoutEvent::WindowAdded(space, session.window))),
        ),
        session.origin_space == Some(space) ==> after.drag_end_tasks(later) == seq![
            Task::Ask(Question::Observe, Work::Done),
        ],
{
    let screens = m.space_manager.screens@;
    let pred = |s: ScreenInfo| s.frame.holds(frame.middle());
    assert(frame.middle().x == frame.origin.x + frame.size.width as int / 2);
    assert(frame.middle().y == frame.origin.y + frame.size.height as int / 2);
    assert(pred(screens[i]));
    assert forall|j: int| 0 <= j < i implies !pred(#[trigger] screens[j]) by {}
    assert(first_at(screens, pred, i));
    lemma_first_index(screens, pred, i);
    assert(space_of_middle(screens, frame) == Some(space));
    let tasks = after.drag_end_tasks(later);
    if session.origin_space != Some(space) {
        if session.origin_space is Some {
            assert(tasks[1] == Task::Go(Work::AssignToSpace { window: session.window, space }));
            assert(tasks[2] == Task::Go(
                Work::LayoutEvent(LayoutEvent::WindowAdded(space, session.window)),
            ));
        } else {
            assert(tasks[0] == Task::Go(Work::AssignToSpace { window: session.window, space }));
            assert(tasks[1] == Task::Go(
                Work::LayoutEvent(LayoutEvent::WindowAdded(space, session.window)),
            ));
        }
    } else {
        assert(tasks =~= seq![Task::Ask(Question::Observe, Work::Done)]);
    }
}

/// A frame without an area says nothing of where a drag is: one that has
/// settled stays where it was. So does one whose frame is on no screen and
/// whose window the window server does not place.
pub proof fn law_drag_stays_settled_without_a_better_place(
    m: Reactor,
    session: DragSession,
    frame: Rect,
    space: SpaceId,
    sur: Surroundings,
)
    requires
        session.settled_space == Some(space),
        frame.size.width == 0 || frame.size.height == 0 || m.space_manager.screens@.len() == 0,
    ensures
        m.dragged(session, frame, sur).settled_space == Some(space),
        m.dragged(session, frame, sur).layout_dirty == (session.layout_dirty || session.last_frame
            != frame),
{
    let screens = m.space_manager.screens@;
    if screens.len() == 0 {
        lemma_no_match(screens, |s: ScreenInfo| s.frame.holds(frame.middle()));
        assert(space_of_middle(screens, frame) is None);
        assert(!exists|i: int| crate::reactor::screens::is_largest_share(screens, frame, i));
        assert(space_of_frame(screens, frame) is None);
        if let Some(w) = m.server_id(session.window) {
            if let Some(at) = sur.space_of(w) {
                lemma_no_match(screens, |s: ScreenInfo| s.space == Some(at));
            }
        }
    }
}

/// A drag begins where its window is: it has moved nowhere and has changed
/// nothing, so its end asks for no more than a look.
pub proof fn law_drag_that_goes_nowhere_changes_nothing(
    m: Reactor,
    after: Reactor,
    wid: WindowId,
    frame: Rect,
    sur: Surroundings,
    later: Surroundings,
)
    requires
        after.drag_manager.drag_state == (DragState::Active {
            session: m.new_session(wid, frame, sur),
        }),
        m.new_session(wid, frame, sur).origin_space is Some,
    ensures
        m.new_session(wid, frame, sur).window == wid,
        m.new_session(wid, frame, sur).last_frame == frame,
        !after.drag_needs_layout(later),
        after.drag_end_tasks(later) == seq![Task::Ask(Question::Observe, Work::Done)],
{
    assert(after.drag_end_tasks(later) =~= seq![Task::Ask(Question::Observe, Work::Done)]);
}

/// Which windows a dragged one could change places with: the tracked others
/// that are on the space, assigned to the workspace it shows, and not
/// floating. Each is named with its own frame.
pub proof fn law_swap_candidates_are_the_tiled_windows_in_view(
    m: Reactor,
    wid: WindowId,
    space: SpaceId,
    sur: Surroundings,
    other: WindowId,
    frame: Rect,
)
    requires
        forall|w: WindowId| #[trigger]
            m.window_manager.windows.order().contains(w)
                <==> m.window_manager.windows@.contains_key(w),
    ensures
        m.swap_candidates(wid, space, sur).contains((other, frame)) <==> {
            &&& other != wid
            &&& m.window_manager.windows@.contains_key(other)
            &&& m.window_manager.windows@[other].frame_monotonic == frame
            &&& m.best_space(frame, m.window_manager.windows@[other].sys_id, sur) == Some(space)
            &&& m.shown_workspace(space) is Some
            &&& m.assigned_workspace(other) == m.shown_workspace(space)
            &&& !(window_by_id(m.core, other) matches Some(w) && w.floating)
        },
{
    let order = m.window_manager.windows.order();
    let pred = |o: WindowId| m.can_swap(wid, o, space, sur);
    let entry = |o: WindowId| (o, m.window_manager.windows@[o].frame_monotonic);
    let kept = order.filter(pred);
    lemma_filter_members(order, pred);
    let all = m.swap_candidates(wid, space, sur);
    assert(all == kept.map_values(entry));
    if all.contains((other, frame)) {
        let k = all.index_of((other, frame));
        assert(all[k] == entry(kept[k]));
        assert(kept.contains(kept[k]));
    }
    if kept.contains(other) && entry(other) == (other, frame) {
        let k = kept.index_of(other);
        assert(all[k] == (other, frame));
    }
}

/// What a dragged window over a frame leads to and leaves.
pub open spec fn swap_looked_for(
    before: Reactor,
    after: Reactor,
    tasks: Seq<Task>,
    wid: WindowId,
    new_frame: Rect,
    sur: Surroundings,
) -> bool {
    let space = before.swap_space(wid, new_frame, sur);
    let origin = before.drag_origin(wid, sur);
    if !before.in_drag() || !before.window_manager.windows@.contains_key(wid) || space
        is None {
        tasks.len() == 0 && after == before
    } else if origin is Some && origin != space {
        &&& tasks == seq![
            Task::Ask(Question::Core(CoreInput::DragCancelled), Work::Done),
        ]
        &&& after.drag_manager.drag_state == if before.pending_swap() matches Some(
            swap,
        ) && swap.0 == wid {
            DragState::Inactive
        } else {
            before.drag_manager.drag_state
        }
    } else if !before.on_shown_workspace(space->0, wid) {
        tasks.len() == 0 && after == before
    } else {
        &&& tasks.len() == 1
        &&& is_drag_update(
            tasks[0],
            wid,
            new_frame,
            before.swap_candidates(wid, space->0, sur),
        )
        &&& after == before
    }
}

/// A dragged window that has left the space it came from changes places with
/// nothing: the model's drag is given up. On its own space and workspace, the
/// model is told what it is over. Outside a drag nothing is asked.
pub proof fn law_dragged_window_swaps_on_its_own_space_only(
    before: Reactor,
    after: Reactor,
    tasks: Seq<Task>,
    wid: WindowId,
    frame: Rect,
    session: DragSession,
    origin: SpaceId,
    space: SpaceId,
    sur: Surroundings,
)
    requires
        swap_looked_for(before, after, tasks, wid, frame, sur),
    ensures
        before.drag_manager.drag_state == DragState::Inactive ==> tasks.len() == 0 && after
            == before,
        before.drag_manager.drag_state == (DragState::Active { session })
            && session.origin_space == Some(origin) && session.settled_space == Some(space)
            && before.window_manager.windows@.contains_key(wid) ==> {
            &&& origin != space ==> tasks == seq![
                Task::Ask(Question::Core(CoreInput::DragCancelled), Work::Done),
            ]
            &&& origin == space && before.shown_workspace(space) is Some
                && before.assigned_workspace(wid) == before.shown_workspace(space) ==> tasks.len()
                == 1 && is_drag_update(
                tasks[0],
                wid,
                frame,
                before.swap_candidates(wid, space, sur),
            ) && after == before
            &&& origin == space && before.assigned_workspace(wid) != before.shown_workspace(space)
                ==> tasks.len() == 0 && after == before
        },
{
}

} // verus!
