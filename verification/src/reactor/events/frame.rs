//! Windows that move or change their size.

use vstd::prelude::*;

use crate::app::WindowId;
use crate::event::{MouseState, Requested};
use crate::geometry::Rect;
use crate::ids::{SpaceId, TransactionId, WindowServerId};
use crate::reactor::events::window::WindowEventHandler;
use crate::reactor::managers::{DragManager, DragSession, DragState, WindowManager, WindowState};
use crate::reactor::surroundings::Surroundings;
use crate::reactor::task::{no_tasks, one_task, LayoutEvent, Task, Work};
use crate::reactor::transactions::{TransactionManager, WriteRecord};
use crate::reactor::{Reactor, Turn};

verus! {

/// What a new frame of a window means.
#[derive(Copy, Clone, Debug, PartialEq, Eq, Structural)]
pub enum FrameChange {
    /// Nothing but what is recorded changes.
    Recorded,
    /// The mouse drags the window.
    Dragged { resized: bool },
    /// The window went to another space by itself.
    Moved,
    /// The window changed its size on its space by itself.
    Resized,
    /// The window moved on its space by itself.
    Shifted,
}

/// What a report of a frame comes to.
#[derive(Copy, Clone, Debug, PartialEq, Eq, Structural)]
pub struct FramePlan {
    /// No write to the window is under way any more.
    pub settle: bool,
    /// The frame is taken over.
    pub update: bool,
    pub change: FrameChange,
}

/// Nothing changes.
pub open spec fn nothing(settle: bool) -> FramePlan {
    FramePlan { settle, update: false, change: FrameChange::Recorded }
}

impl Reactor {
    /// The write under way to a window: its number and the frame it is to end
    /// at.
    pub open spec fn write_under_way(&self, wsid: Option<WindowServerId>) -> WriteRecord {
        match wsid {
            Some(w) => self.transaction_manager.record(w),
            None => WriteRecord { last_sent: TransactionId(0), target: None },
        }
    }

    fn get_write_under_way(&self, wsid: Option<WindowServerId>) -> (r: WriteRecord)
        ensures
            r == self.write_under_way(wsid),
    {
        match wsid {
            Some(w) => WriteRecord {
                last_sent: self.transaction_manager.get_last_sent_txid(w),
                target: self.transaction_manager.get_target_frame(w),
            },
            None => WriteRecord { last_sent: TransactionId(0), target: None },
        }
    }

    /// Whether the mouse drags windows.
    pub open spec fn dragging(&self, mouse: Option<MouseState>) -> bool {
        mouse == Some(MouseState::Down) || self.in_drag()
    }

    /// What a frame that the window got by itself or from the mouse means.
    pub open spec fn own_frame_change(
        &self,
        w: WindowState,
        frame: Rect,
        mouse: Option<MouseState>,
        settle: bool,
        sur: Surroundings,
    ) -> FramePlan {
        let from = self.best_space(w.frame_monotonic, w.sys_id, sur);
        let to = self.best_space(frame, w.sys_id, sur);
        let resized = !w.frame_monotonic.size.near(frame.size);
        if self.only_active(from) is None && self.only_active(to) is None {
            nothing(settle)
        } else if w.frame_monotonic.near(frame) {
            nothing(settle)
        } else {
            FramePlan {
                settle,
                update: true,
                change: if self.dragging(mouse) {
                    FrameChange::Dragged { resized }
                } else if from != to {
                    FrameChange::Moved
                } else if resized && self.only_active(from) is Some {
                    FrameChange::Resized
                } else {
                    FrameChange::Shifted
                },
            }
        }
    }

    /// What a report of a frame comes to. An echo of a write that is not the
    /// last is ignored; an echo of the last is taken over once it is where
    /// the write was to end, unless the mouse has taken the window over.
    pub open spec fn frame_plan(
        &self,
        wid: WindowId,
        frame: Rect,
        last_seen: Option<TransactionId>,
        requested: bool,
        mouse: Option<MouseState>,
        sur: Surroundings,
    ) -> FramePlan {
        match self.window_manager.window_spec(wid) {
            Some(w) => {
                let write = self.write_under_way(w.sys_id);
                let echo = write.target is Some && last_seen == Some(write.last_sent);
                let taken = echo && mouse == Some(MouseState::Down);
                if self.core.mission_control_active {
                    nothing(false)
                } else if !taken && write.target is Some && last_seen is Some && last_seen != Some(
                    write.last_sent,
                ) {
                    nothing(false)
                } else if echo && !taken {
                    if frame.near(write.target->0) {
                        FramePlan {
                            settle: true,
                            update: !w.frame_monotonic.near(frame),
                            change: FrameChange::Recorded,
                        }
                    } else {
                        nothing(false)
                    }
                } else if requested {
                    FramePlan {
                        settle: w.sys_id is Some,
                        update: !w.frame_monotonic.near(frame),
                        change: FrameChange::Recorded,
                    }
                } else {
                    self.own_frame_change(w, frame, mouse, taken, sur)
                }
            },
            None => nothing(false),
        }
    }

    fn plan_own_frame_change(
        &self,
        w: &WindowState,
        frame: &Rect,
        mouse: Option<MouseState>,
        settle: bool,
        sur: &Surroundings,
    ) -> (r: FramePlan)
        requires
            self.wf(),
            w.frame_monotonic.in_range(),
            frame.in_range(),
        ensures
            r == self.own_frame_change(*w, *frame, mouse, settle, *sur),
    {
        let from: Option<SpaceId> = self.best_space_for_window(&w.frame_monotonic, w.sys_id, sur);
        let to: Option<SpaceId> = self.best_space_for_window(frame, w.sys_id, sur);
        let from_active: bool = match from {
            Some(space) => self.is_space_active(space),
            None => false,
        };
        let to_active: bool = match to {
            Some(space) => self.is_space_active(space),
            None => false,
        };
        if (!from_active && !to_active) || w.frame_monotonic.same_as(frame) {
            return FramePlan { settle, update: false, change: FrameChange::Recorded };
        }
        let resized: bool = !w.frame_monotonic.size.same_as(&frame.size);
        let stays: bool = match (from, to) {
            (Some(a), Some(b)) => a == b,
            (None, None) => true,
            _ => false,
        };
        let dragging: bool = self.is_in_drag() || match mouse {
            Some(MouseState::Down) => true,
            _ => false,
        };
        let change: FrameChange = if dragging {
            FrameChange::Dragged { resized }
        } else if !stays {
            FrameChange::Moved
        } else if resized && from_active {
            FrameChange::Resized
        } else {
            FrameChange::Shifted
        };
        FramePlan { settle, update: true, change }
    }

    fn plan_frame(
        &self,
        wid: WindowId,
        frame: &Rect,
        last_seen: Option<TransactionId>,
        requested: bool,
        mouse: Option<MouseState>,
        sur: &Surroundings,
    ) -> (r: FramePlan)
        requires
            self.wf(),
            frame.in_range(),
        ensures
            r == self.frame_plan(wid, *frame, last_seen, requested, mouse, *sur),
    {
        let unchanged: FramePlan = FramePlan {
            settle: false,
            update: false,
            change: FrameChange::Recorded,
        };
        let w: WindowState = match self.window_manager.window(wid) {
            Some(w) => w,
            None => {
                return unchanged;
            },
        };
        if self.core.mission_control_active {
            return unchanged;
        }
        let write: WriteRecord = self.get_write_under_way(w.sys_id);
        let is_last: bool = match last_seen {
            Some(seen) => seen == write.last_sent,
            None => false,
        };
        let echo: bool = write.target.is_some() && is_last;
        let pressed: bool = match mouse {
            Some(MouseState::Down) => true,
            _ => false,
        };
        let taken: bool = echo && pressed;
        if !taken && write.target.is_some() && last_seen.is_some() && !is_last {
            return unchanged;
        }
        if echo && !taken {
            return match write.target {
                Some(target) => if frame.same_as(&target) {
                    FramePlan {
                        settle: true,
                        update: !w.frame_monotonic.same_as(frame),
                        change: FrameChange::Recorded,
                    }
                } else {
                    unchanged
                },
                None => unchanged,
            };
        }
        if requested {
            return FramePlan {
                settle: w.sys_id.is_some(),
                update: !w.frame_monotonic.same_as(frame),
                change: FrameChange::Recorded,
            };
        }
        self.plan_own_frame_change(&w, frame, mouse, taken, sur)
    }

    /// What the reactor records of a frame.
    pub open spec fn frame_recorded(
        &self,
        after: Reactor,
        wid: WindowId,
        frame: Rect,
        plan: FramePlan,
    ) -> bool {
        let w = self.window_manager.windows@[wid];
        &&& after == (Reactor {
            window_manager: WindowManager {
                windows: after.window_manager.windows,
                ..self.window_manager
            },
            transaction_manager: after.transaction_manager,
            ..*self
        })
        &&& after.window_manager.windows.order() == self.window_manager.windows.order()
        &&& after.window_manager.windows@ == if plan.update {
            self.window_manager.windows@.insert(wid, WindowState { frame_monotonic: frame, ..w })
        } else {
            self.window_manager.windows@
        }
        &&& after.transaction_manager.records@ == if plan.settle && w.sys_id is Some {
            self.transaction_manager.records@.insert(
                w.sys_id->0,
                WriteRecord {
                    target: None,
                    ..self.transaction_manager.record(w.sys_id->0)
                },
            )
        } else {
            self.transaction_manager.records@
        }
    }

    fn record_frame(&mut self, wid: WindowId, frame: &Rect, plan: &FramePlan)
        requires
            old(self).wf(),
            frame.in_range(),
            old(self).window_manager.windows@.contains_key(wid),
        ensures
            final(self).wf(),
            old(self).frame_recorded(*final(self), wid, *frame, *plan),
    {
        let w: WindowState = match self.window_manager.window(wid) {
            Some(w) => w,
            None => {
                return;
            },
        };
        if plan.settle {
            if let Some(wsid) = w.sys_id {
                self.transaction_manager.clear_target_for_window(wsid);
                proof {
                    lemma_settled_write(
                        old(self).transaction_manager,
                        self.transaction_manager,
                        wsid,
                    );
                }
            }
        }
        if plan.update {
            self.window_manager.set_window(wid, WindowState { frame_monotonic: *frame, ..w });
        }
    }

    /// The drag of a window that the mouse has moved.
    pub open spec fn dragged_to(
        &self,
        wid: WindowId,
        old_frame: Rect,
        frame: Rect,
        sur: Surroundings,
    ) -> DragSession {
        let session = match self.drag_session() {
            Some(session) => if session.window == wid {
                session
            } else {
                self.new_session(wid, old_frame, sur)
            },
            None => self.new_session(wid, old_frame, sur),
        };
        self.dragged(session, frame, sur)
    }

    /// What a frame leads to once it is recorded.
    pub open spec fn frame_tasks(
        &self,
        wid: WindowId,
        frame: Rect,
        plan: FramePlan,
        sur: Surroundings,
    ) -> Seq<Task> {
        let wsid = self.server_id(wid);
        match plan.change {
            FrameChange::Recorded | FrameChange::Shifted => Seq::empty(),
            FrameChange::Dragged { resized } => if !resized {
                seq![Task::Go(Work::SwapOnDrag { window: wid, frame })]
            } else if self.landing_space(frame, wsid, sur) is Some {
                seq![Task::Go(Work::LayoutEvent(LayoutEvent::Changed))]
            } else {
                Seq::empty()
            },
            FrameChange::Moved => seq![Task::Go(Work::LayoutEvent(LayoutEvent::Changed))]
                + match self.only_active(self.best_space(frame, wsid, sur)) {
                Some(space) => seq![
                    Task::Go(Work::AssignToSpace { window: wid, space }),
                    Task::Go(Work::LayoutEvent(LayoutEvent::WindowAdded(space, wid))),
                ],
                None => Seq::empty(),
            } + seq![
                Task::Go(Work::UpdateLayout { is_resize: false, is_workspace_switch: false }),
            ],
            FrameChange::Resized => seq![Task::Go(Work::LayoutEvent(LayoutEvent::Changed))],
        }
    }

    fn plan_frame_tasks(
        &self,
        wid: WindowId,
        frame: Rect,
        plan: &FramePlan,
        sur: &Surroundings,
    ) -> (r: Vec<Task>)
        requires
            self.wf(),
            sur.wf(),
            frame.in_range(),
        ensures
            r@ == self.frame_tasks(wid, frame, *plan, *sur),
    {
        let wsid: Option<WindowServerId> = self.window_server_id(wid);
        match plan.change {
            FrameChange::Recorded | FrameChange::Shifted => no_tasks(),
            FrameChange::Dragged { resized } => {
                if !resized {
                    one_task(Task::Go(Work::SwapOnDrag { window: wid, frame }))
                } else if self.active_space_for_window(&frame, wsid, sur).is_some() {
                    one_task(Task::Go(Work::LayoutEvent(LayoutEvent::Changed)))
                } else {
                    no_tasks()
                }
            },
            FrameChange::Moved => {
                let mut tasks: Vec<Task> = one_task(
                    Task::Go(Work::LayoutEvent(LayoutEvent::Changed)),
                );
                if let Some(space) = self.best_space_for_window(&frame, wsid, sur) {
                    if self.is_space_active(space) {
                        tasks.push(Task::Go(Work::AssignToSpace { window: wid, space }));
                        tasks.push(
                            Task::Go(Work::LayoutEvent(LayoutEvent::WindowAdded(space, wid))),
                        );
                    }
                }
                tasks.push(
                    Task::Go(Work::UpdateLayout { is_resize: false, is_workspace_switch: false }),
                );
                assert(tasks@ =~= self.frame_tasks(wid, frame, *plan, *sur));
                tasks
            },
            FrameChange::Resized => one_task(Task::Go(Work::LayoutEvent(LayoutEvent::Changed))),
        }
    }
}

/// A settled write leaves all writes in range.
proof fn lemma_settled_write(
    before: TransactionManager,
    after: TransactionManager,
    wsid: WindowServerId,
)
    requires
        before.wf(),
        after.records@ == before.records@.insert(
            wsid,
            WriteRecord { target: None, ..before.record(wsid) },
        ),
    ensures
        after.wf(),
{
    assert forall|w: WindowServerId| true implies ((#[trigger] after.record(
        w,
    )).target matches Some(f) ==> f.in_range()) by {
        assert(before.record(w).target matches Some(f) ==> f.in_range());
    }
}

/// The state of the mouse at the time of a report.
pub open spec fn mouse_at(reported: Option<MouseState>, now: Option<MouseState>) -> Option<MouseState> {
    match reported {
        Some(state) => Some(state),
        None => now,
    }
}

/// What a report of a frame leads to, and what it leaves.
pub open spec fn frame_reported(
    before: Reactor,
    after: Reactor,
    tasks: Seq<Task>,
    wid: WindowId,
    frame: Rect,
    plan: FramePlan,
    mouse: Option<MouseState>,
    sur: Surroundings,
) -> bool {
    let released = if mouse == Some(MouseState::Up) {
        seq![Task::Go(Work::MouseUpIfNeeded)]
    } else {
        Seq::empty()
    };
    let turn = Turn {
        suppress_layout_animation: plan.change == FrameChange::Resized,
        ..before.turn
    };
    if plan == nothing(false) {
        tasks == released && after == (Reactor { turn, ..before })
    } else {
        exists|recorded: Reactor|
            {
                &&& #[trigger] before.frame_recorded(recorded, wid, frame, plan)
                &&& tasks == recorded.frame_tasks(wid, frame, plan, sur) + released
                &&& after == (Reactor {
                    turn,
                    drag_manager: match plan.change {
                        FrameChange::Recorded => before.drag_manager,
                        FrameChange::Dragged { .. } => DragManager {
                            drag_state: DragState::Active {
                                session: recorded.dragged_to(
                                    wid,
                                    before.window_manager.windows@[wid].frame_monotonic,
                                    frame,
                                    sur,
                                ),
                            },
                            skip_layout_for_window: Some(wid),
                        },
                        _ => DragManager {
                            skip_layout_for_window: Some(wid),
                            ..before.drag_manager
                        },
                    },
                    ..recorded
                })
            }
    }
}

impl WindowEventHandler {
    /// A window has got another frame: by a write of the reactor's own, by
    /// the mouse, or by itself.
    pub fn handle_window_frame_changed(
        reactor: &mut Reactor,
        wid: WindowId,
        new_frame: Rect,
        last_seen: Option<TransactionId>,
        requested: Requested,
        mouse_state: Option<MouseState>,
        sur: &Surroundings,
    ) -> (r: Vec<Task>)
        requires
            old(reactor).wf(),
            sur.wf(),
            new_frame.in_range(),
        ensures
            final(reactor).wf(),
            frame_reported(
                *old(reactor),
                *final(reactor),
                r@,
                wid,
                new_frame,
                old(reactor).frame_plan(
                    wid,
                    new_frame,
                    last_seen,
                    requested.0,
                    mouse_at(mouse_state, sur.mouse),
                    *sur,
                ),
                mouse_at(mouse_state, sur.mouse),
                *sur,
            ),
    {
        let mouse: Option<MouseState> = match mouse_state {
            Some(state) => Some(state),
            None => sur.mouse,
        };
        let plan: FramePlan = reactor.plan_frame(
            wid,
            &new_frame,
            last_seen,
            requested.0,
            mouse,
            sur,
        );
        let is_up: bool = match mouse {
            Some(MouseState::Up) => true,
            _ => false,
        };
        let ghost released = if mouse == Some(MouseState::Up) {
            seq![Task::Go(Work::MouseUpIfNeeded)]
        } else {
            Seq::empty()
        };
        let resized: bool = plan.change == FrameChange::Resized;
        if !plan.settle && !plan.update && plan.change == FrameChange::Recorded {
            reactor.turn.suppress_layout_animation = false;
            return if is_up {
                one_task(Task::Go(Work::MouseUpIfNeeded))
            } else {
                no_tasks()
            };
        }
        let old_frame: Rect = match reactor.window_manager.window(wid) {
            Some(w) => w.frame_monotonic,
            None => new_frame,
        };
        reactor.record_frame(wid, &new_frame, &plan);
        let ghost recorded = *reactor;
        let mut tasks: Vec<Task> = reactor.plan_frame_tasks(wid, new_frame, &plan, sur);
        match plan.change {
            FrameChange::Recorded => {},
            FrameChange::Dragged { .. } => {
                reactor.ensure_active_drag(wid, &old_frame, sur);
                reactor.update_active_drag(wid, &new_frame, sur);
                assert(reactor.drag_manager.drag_state == (DragState::Active {
                    session: recorded.dragged_to(wid, old_frame, new_frame, *sur),
                }));
            },
            _ => {
                reactor.drag_manager.skip_layout_for_window = Some(wid);
            },
        }
        reactor.turn.suppress_layout_animation = resized;
        let ghost planned = tasks@;
        if is_up {
            tasks.push(Task::Go(Work::MouseUpIfNeeded));
        }
        assert(tasks@ =~= planned + released);
        assert(old(reactor).frame_recorded(recorded, wid, new_frame, plan));
        tasks
    }

    /// A drag, or a window left out of the layout, ends with the mouse button
    /// up.
    pub fn handle_mouse_up_if_needed(reactor: &Reactor) -> (r: Vec<Task>)
        ensures
            r@ == if reactor.in_drag() || reactor.drag_manager.skip_layout_for_window is Some {
                seq![Task::Go(Work::MouseUp)]
            } else {
                Seq::empty()
            },
    {
        if reactor.is_in_drag() || reactor.drag_manager.skip_layout_for_window.is_some() {
            one_task(Task::Go(Work::MouseUp))
        } else {
            no_tasks()
        }
    }
}

/// An echo of a write that was followed by another changes nothing.
pub proof fn law_stale_echo_is_ignored(
    m: Reactor,
    wid: WindowId,
    frame: Rect,
    seen: TransactionId,
    requested: bool,
    mouse: Option<MouseState>,
    sur: Surroundings,
)
    requires
        m.window_manager.window_spec(wid) matches Some(w) && m.write_under_way(w.sys_id).target
            is Some && m.write_under_way(w.sys_id).last_sent != seen,
    ensures
        m.frame_plan(wid, frame, Some(seen), requested, mouse, sur) == nothing(false),
{
}

/// While the mouse button is down, the frame that a window gets is the
/// user's, even in the middle of a write.
pub proof fn law_mouse_takes_a_window_over(
    m: Reactor,
    wid: WindowId,
    frame: Rect,
    sur: Surroundings,
)
    requires
        m.window_manager.window_spec(wid) matches Some(w) && m.write_under_way(w.sys_id).target
            is Some && !w.frame_monotonic.near(frame) && m.only_active(
            m.best_space(w.frame_monotonic, w.sys_id, sur),
        ) is Some,
        !m.core.mission_control_active,
    ensures
        ({
            let w = m.window_manager.windows@[wid];
            let seen = m.write_under_way(w.sys_id).last_sent;
            let plan = m.frame_plan(
                wid,
                frame,
                Some(seen),
                false,
                Some(MouseState::Down),
                sur,
            );
            plan.settle && plan.update && plan.change is Dragged
        }),
{
}

/// A frame of a window that is not tracked, or one reported while Mission
/// Control is open, changes nothing.
pub proof fn law_frames_are_ignored_in_mission_control(
    m: Reactor,
    wid: WindowId,
    frame: Rect,
    last_seen: Option<TransactionId>,
    requested: bool,
    mouse: Option<MouseState>,
    sur: Surroundings,
)
    requires
        m.core.mission_control_active || !m.window_manager.windows@.contains_key(wid),
    ensures
        m.frame_plan(wid, frame, last_seen, requested, mouse, sur) == (FramePlan {
            settle: false,
            update: false,
            change: FrameChange::Recorded,
        }),
{
}

/// The echo of the last write is taken over, and the write is over, once the
/// frame is where it was to end; on the way there it is ignored. The layout
/// is not told of either.
pub proof fn law_echo_of_the_last_write_ends_it(
    m: Reactor,
    wid: WindowId,
    wsid: WindowServerId,
    frame: Rect,
    target: Rect,
    requested: bool,
    mouse: Option<MouseState>,
    sur: Surroundings,
)
    requires
        !m.core.mission_control_active,
        m.window_manager.windows@.contains_key(wid),
        m.window_manager.windows@[wid].sys_id == Some(wsid),
        m.transaction_manager.records@.contains_key(wsid),
        m.transaction_manager.records@[wsid].target == Some(target),
        mouse != Some(MouseState::Down),
    ensures
        ({
            let seen = m.transaction_manager.records@[wsid].last_sent;
            let plan = m.frame_plan(wid, frame, Some(seen), requested, mouse, sur);
            &&& plan.change == FrameChange::Recorded
            &&& frame.near(target) ==> plan.settle && plan.update
                == !m.window_manager.windows@[wid].frame_monotonic.near(frame)
            &&& !frame.near(target) ==> !plan.settle && !plan.update
        }),
{
}

/// A frame that the window got by itself matters only if it was or comes to
/// be on a managed space and is another than the known one. With the button
/// down or in a drag it is a drag; otherwise a move if the space is another,
/// and a resize if only the size is.
pub proof fn law_own_frames_are_told_apart(
    m: Reactor,
    wid: WindowId,
    frame: Rect,
    mouse: Option<MouseState>,
    from: Option<SpaceId>,
    to: Option<SpaceId>,
    sur: Surroundings,
)
    requires
        !m.core.mission_control_active,
        m.window_manager.windows@.contains_key(wid),
        ({
            let w = m.window_manager.windows@[wid];
            &&& w.sys_id matches Some(wsid) ==> !m.transaction_manager.records@.contains_key(wsid)
            &&& from == m.best_space(w.frame_monotonic, w.sys_id, sur)
            &&& to == m.best_space(frame, w.sys_id, sur)
        }),
    ensures
        ({
            let w = m.window_manager.windows@[wid];
            let plan = m.frame_plan(wid, frame, None, false, mouse, sur);
            let managed_from = from matches Some(s) && m.active_spaces@.contains(s);
            let managed_to = to matches Some(s) && m.active_spaces@.contains(s);
            let matters = (managed_from || managed_to) && !w.frame_monotonic.near(frame);
            let dragging = mouse == Some(MouseState::Down) || m.drag_manager.drag_state is Active;
            let resized = !w.frame_monotonic.size.near(frame.size);
            &&& !plan.settle
            &&& plan.update == matters
            &&& !matters ==> plan.change == FrameChange::Recorded
            &&& matters && dragging ==> plan.change == (FrameChange::Dragged { resized })
            &&& matters && !dragging && from != to ==> plan.change == FrameChange::Moved
            &&& matters && !dragging && from == to && resized && managed_from ==> plan.change
                == FrameChange::Resized
            &&& matters && !dragging && from == to && !resized ==> plan.change
                == FrameChange::Shifted
        }),
{
}

/// A window that has moved to a managed space is given to it, and windows are
/// laid out; one that the mouse drags is looked at for a swap; one that was
/// resized has the layout look at it; one that was shifted is put back by the
/// next layout without more.
pub proof fn law_frame_changes_lead_on(
    m: Reactor,
    wid: WindowId,
    frame: Rect,
    settle: bool,
    update: bool,
    space: SpaceId,
    sur: Surroundings,
)
    ensures
        ({
            let plan = |change: FrameChange| FramePlan { settle, update, change };
            let moved = m.frame_tasks(wid, frame, plan(FrameChange::Moved), sur);
            &&& m.best_space(frame, m.server_id(wid), sur) == Some(space)
                && m.active_spaces@.contains(space) ==> moved.contains(
                Task::Go(Work::AssignToSpace { window: wid, space }),
            ) && moved.contains(
                Task::Go(Work::LayoutEvent(LayoutEvent::WindowAdded(space, wid))),
            )
            &&& !(m.best_space(frame, m.server_id(wid), sur) == Some(space)
                && m.active_spaces@.contains(space)) ==> !moved.contains(
                Task::Go(Work::AssignToSpace { window: wid, space }),
            )
            &&& moved.last() == Task::Go(
                Work::UpdateLayout { is_resize: false, is_workspace_switch: false },
            )
            &&& m.frame_tasks(wid, frame, plan(FrameChange::Dragged { resized: false }), sur)
                == seq![Task::Go(Work::SwapOnDrag { window: wid, frame })]
            &&& m.frame_tasks(wid, frame, plan(FrameChange::Resized), sur) == seq![
                Task::Go(Work::LayoutEvent(LayoutEvent::Changed)),
            ]
            &&& m.frame_tasks(wid, frame, plan(FrameChange::Shifted), sur).len() == 0
            &&& m.frame_tasks(wid, frame, plan(FrameChange::Recorded), sur).len() == 0
        }),
{
    let plan = FramePlan { settle, update, change: FrameChange::Moved };
    let moved = m.frame_tasks(wid, frame, plan, sur);
    if m.best_space(frame, m.server_id(wid), sur) == Some(space) && m.active_spaces@.contains(
        space,
    ) {
        assert(moved[1] == Task::Go(Work::AssignToSpace { window: wid, space }));
        assert(moved[2] == Task::Go(Work::LayoutEvent(LayoutEvent::WindowAdded(space, wid))));
    }
}

/// The mouse is as it was when the frame was reported, or else as it is.
pub proof fn law_mouse_is_as_it_was_reported(state: MouseState, now: Option<MouseState>)
    ensures
        mouse_at(Some(state), now) == Some(state),
        mouse_at(None, now) == now,
{
}

/// A window that is dragged on goes on with its drag; another one begins a
/// drag of its own where it was before.
pub proof fn law_drag_of_another_window_begins_anew(
    m: Reactor,
    session: DragSession,
    wid: WindowId,
    before: Rect,
    frame: Rect,
    sur: Surroundings,
)
    requires
        m.drag_manager.drag_state == (DragState::Active { session }),
    ensures
        m.dragged_to(wid, before, frame, sur).window == wid,
        m.dragged_to(wid, before, frame, sur).last_frame == frame,
        session.window == wid ==> m.dragged_to(wid, before, frame, sur).origin_space
            == session.origin_space,
        session.window != wid ==> m.dragged_to(wid, before, frame, sur).origin_space
            == m.best_space(before, m.server_id(wid), sur),
{
}

} // verus!
