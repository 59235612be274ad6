//! Windows that come, go and are put away.

use vstd::prelude::*;

use crate::app::WindowId;
use crate::event::{WindowInfo, WindowServerInfo};
use crate::geometry::Rect;
use crate::ids::{SpaceId, TransactionId, WindowServerId};
use crate::reactor::managers::{
    DragManager, DragState, RefocusManager, RefocusState, WindowDetails, WindowManager, WindowState,
};
use crate::reactor::observation::copy_text;
use crate::reactor::registry::{compute_window_manageability, manageable, server_state_removed};
use crate::reactor::rules::asks_rules;
use crate::reactor::surroundings::Surroundings;
use crate::reactor::task::{
    no_tasks, one_task, two_tasks, CoreInput, LayoutEvent, Question, Task, Work,
};
use crate::reactor::transactions::{TransactionManager, WriteRecord};
use crate::reactor::{Reactor, Turn};

verus! {

pub struct WindowEventHandler;

/// Whether details are those of a reported window.
pub open spec fn is_described_by(details: WindowDetails, info: WindowInfo) -> bool {
    &&& details.title == info.title
    &&& details.is_resizable == info.is_resizable
    &&& details.min_size == info.min_size
    &&& details.max_size == info.max_size
    &&& details.bundle_id == info.bundle_id
    &&& details.path == info.path
    &&& details.ax_role == info.ax_role
    &&& details.ax_subrole == info.ax_subrole
}

pub fn details_of(info: &WindowInfo) -> (r: WindowDetails)
    ensures
        is_described_by(r, *info),
{
    WindowDetails {
        title: info.title.clone(),
        is_resizable: info.is_resizable,
        min_size: info.min_size,
        max_size: info.max_size,
        bundle_id: copy_text(&info.bundle_id),
        path: copy_text(&info.path),
        ax_role: copy_text(&info.ax_role),
        ax_subrole: copy_text(&info.ax_subrole),
    }
}

impl Reactor {
    /// The managed space that a window is on. One that the window server
    /// does not know yet is taken to be where commands go.
    pub open spec fn landing_space(
        &self,
        frame: Rect,
        wsid: Option<WindowServerId>,
        sur: Surroundings,
    ) -> Option<SpaceId> {
        match self.only_active(self.best_space(frame, wsid, sur)) {
            Some(space) => Some(space),
            None => if wsid is None {
                self.command_space(sur)
            } else {
                None
            },
        }
    }

    pub fn active_space_for_window(
        &self,
        frame: &Rect,
        wsid: Option<WindowServerId>,
        sur: &Surroundings,
    ) -> (r: Option<SpaceId>)
        requires
            self.wf(),
            sur.wf(),
            frame.in_range(),
        ensures
            r == self.landing_space(*frame, wsid, *sur),
    {
        if let Some(space) = self.best_space_for_window(frame, wsid, sur) {
            if self.is_space_active(space) {
                return Some(space);
            }
        }
        if wsid.is_none() {
            self.workspace_command_space(sur)
        } else {
            None
        }
    }

    /// Tells the workspace model of a window that came to a space, if it is
    /// one that the layout may hold by now.
    pub fn maybe_dispatch_window_added_in_space(&self, wid: WindowId, space: SpaceId) -> (r: Vec<
        Task,
    >)
        ensures
            r@ == if self.layout_may_hold(wid) {
                seq![Task::Go(Work::LayoutEvent(LayoutEvent::WindowAdded(space, wid)))]
            } else {
                Seq::empty()
            },
    {
        if self.window_is_standard(wid) {
            one_task(Task::Go(Work::LayoutEvent(LayoutEvent::WindowAdded(space, wid))))
        } else {
            no_tasks()
        }
    }
}

/// What the reactor knows of windows once a new one was reported.
pub open spec fn registered(
    before: WindowManager,
    after: WindowManager,
    wid: WindowId,
    window: WindowInfo,
    ws_info: Option<WindowServerInfo>,
) -> bool {
    let ids = match window.sys_id {
        Some(wsid) => before.window_ids@.insert(wsid, wid),
        None => before.window_ids@,
    };
    let own = match window.sys_id {
        Some(wsid) => before.observed_window_server_ids@.remove(wsid),
        None => before.observed_window_server_ids@,
    };
    let observed = match ws_info {
        Some(info) => own.remove(info.id),
        None => own,
    };
    let infos = match ws_info {
        Some(info) => before.window_server_info@.insert(info.id, info),
        None => before.window_server_info@,
    };
    &&& after.window_ids@ == ids
    &&& after.observed_window_server_ids@ == observed
    &&& after.window_server_info@ == infos
    &&& after.windows@ == before.windows@.insert(wid, after.state_of(window))
    &&& after.details@.contains_key(wid) && is_described_by(after.details@[wid], window)
    &&& after.details@.remove(wid) == before.details@.remove(wid)
    &&& after.visible_windows == before.visible_windows
}

/// The tasks for a new window that can be managed.
pub open spec fn is_arrival(
    tasks: Seq<Task>,
    reactor: Reactor,
    wid: WindowId,
    space: SpaceId,
) -> bool {
    let ruled = reactor.app_manager.apps@.contains_key(wid.pid);
    let at = if ruled {
        1int
    } else {
        0
    };
    &&& tasks.len() == at + 2
    &&& ruled ==> asks_rules(tasks[0], seq![wid])
    &&& tasks[at] == Task::Go(Work::AddedInSpace { window: wid, space })
    &&& tasks[at + 1] matches Task::Go(Work::AwaitedWindow { windows }) && windows@ == seq![wid]
}

fn just(wid: WindowId) -> (r: Vec<WindowId>)
    ensures
        r@ == seq![wid],
{
    let mut r: Vec<WindowId> = Vec::new();
    r.push(wid);
    assert(r@ =~= seq![wid]);
    r
}

impl WindowEventHandler {
    fn register(
        manager: &mut WindowManager,
        wid: WindowId,
        window: &WindowInfo,
        ws_info: Option<WindowServerInfo>,
    ) -> (r: WindowState)
        requires
            old(manager).wf(),
            window.frame.in_range(),
            ws_info matches Some(info) ==> info.frame.in_range(),
        ensures
            final(manager).wf(),
            registered(*old(manager), *final(manager), wid, *window, ws_info),
            final(manager).recent_wsids == old(manager).recent_wsids,
            r == final(manager).state_of(*window),
    {
        if let Some(wsid) = window.sys_id {
            manager.track_window_server_id(wsid, wid);
            manager.clear_window_server_observed(wsid);
        }
        if let Some(info) = ws_info {
            manager.clear_window_server_observed(info.id);
            manager.track_window_server_info(info);
        }
        let state: WindowState = manager.new_state(window);
        let details: WindowDetails = details_of(window);
        let ghost before_details = manager.details@;
        manager.insert_window(wid, state, details);
        assert(manager.details@.remove(wid) =~= old(manager).details@.remove(wid));
        state
    }

    /// A new window: it is registered, and if it can be managed, rules are
    /// applied and the workspace model is told.
    pub fn handle_window_created(
        reactor: &mut Reactor,
        wid: WindowId,
        window: WindowInfo,
        ws_info: Option<WindowServerInfo>,
        sur: &Surroundings,
    ) -> (r: Vec<Task>)
        requires
            old(reactor).wf(),
            sur.wf(),
            window.frame.in_range(),
            ws_info matches Some(info) ==> info.frame.in_range(),
        ensures
            final(reactor).wf(),
            *final(reactor) == (Reactor {
                window_manager: final(reactor).window_manager,
                transaction_manager: final(reactor).transaction_manager,
                ..*old(reactor)
            }),
            registered(
                old(reactor).window_manager,
                final(reactor).window_manager,
                wid,
                window,
                ws_info,
            ),
            final(reactor).transaction_manager.records@ == match window.sys_id {
                Some(wsid) => old(reactor).transaction_manager.records@.insert(
                    wsid,
                    WriteRecord {
                        last_sent: old(reactor).transaction_manager.record(wsid).last_sent,
                        target: Some(window.frame),
                    },
                ),
                None => old(reactor).transaction_manager.records@,
            },
            ({
                let after = *final(reactor);
                let space = after.landing_space(window.frame, window.sys_id, *sur);
                let arrives = after.window_manager.state_of(window).is_manageable && space is Some;
                &&& if arrives {
                    is_arrival(r@, after, wid, space->0)
                } else {
                    r@.len() == 0
                }
                &&& after.window_manager.recent_wsids@ == if arrives
                    && after.app_manager.apps@.contains_key(wid.pid) && window.sys_id is Some {
                    old(reactor).window_manager.recent_wsids@.insert(window.sys_id->0, sur.now)
                } else {
                    old(reactor).window_manager.recent_wsids@
                }
            }),
    {
        let state: WindowState = Self::register(
            &mut reactor.window_manager,
            wid,
            &window,
            ws_info,
        );
        if let Some(wsid) = window.sys_id {
            let last: TransactionId = reactor.transaction_manager.get_last_sent_txid(wsid);
            reactor.transaction_manager.store_txid(wsid, last, window.frame);
        }
        proof {
            lemma_writes_in_range(
                old(reactor).transaction_manager,
                reactor.transaction_manager,
                window,
            );
        }
        if !state.is_manageable {
            return no_tasks();
        }
        let space: SpaceId = match reactor.active_space_for_window(
            &window.frame,
            window.sys_id,
            sur,
        ) {
            Some(space) => space,
            None => {
                return no_tasks();
            },
        };
        let mut tasks: Vec<Task> = no_tasks();
        if reactor.app_manager.apps.contains_key(wid.pid) {
            if let Some(wsid) = window.sys_id {
                reactor.window_manager.mark_wsid_recent(wsid, sur.now);
            }
            tasks.push(Reactor::process_windows_for_app_rules(just(wid)));
        }
        tasks.push(Task::Go(Work::AddedInSpace { window: wid, space }));
        tasks.push(Task::Go(Work::AwaitedWindow { windows: just(wid) }));
        tasks
    }

    /// Whether a window that is reported gone is merely out of sight: on a
    /// fullscreen space or in Mission Control, an application lists only what
    /// is on the space at hand.
    pub open spec fn is_false_alarm(reactor: Reactor, wid: WindowId, sur: Surroundings) -> bool {
        &&& !(sur.active_space matches Some(s) && sur.user_spaces@.contains(s))
            || reactor.core.mission_control_active
        &&& reactor.server_id(wid) matches Some(wsid) && sur.server_window(wsid) matches Some(info)
            && info.pid == wid.pid
    }

    /// A window is gone: everything about it is forgotten before windows are
    /// laid out, and if it had the focus, another window on its space is to
    /// get it.
    pub fn handle_window_destroyed(reactor: &mut Reactor, wid: WindowId, sur: &Surroundings) -> (r:
        Vec<Task>)
        requires
            old(reactor).wf(),
        ensures
            final(reactor).wf(),
            *final(reactor) == (Reactor {
                window_manager: final(reactor).window_manager,
                transaction_manager: final(reactor).transaction_manager,
                refocus_manager: RefocusManager {
                    refocus_state: final(reactor).refocus_manager.refocus_state,
                    ..old(reactor).refocus_manager
                },
                turn: final(reactor).turn,
                ..*old(reactor)
            }),
            window_destroyed(
                *old(reactor),
                *final(reactor),
                r@,
                wid,
                *sur,
            ),
    {
        let w: WindowState = match reactor.window_manager.window(wid) {
            Some(w) => w,
            None => {
                return no_tasks();
            },
        };
        if !sur.active_space_is_user() || reactor.core.mission_control_active {
            if let Some(wsid) = w.sys_id {
                if let Some(info) = sur.get_window(wsid) {
                    if info.pid == wid.pid {
                        return no_tasks();
                    }
                }
            }
        }
        let refocus: RefocusState = reactor.refocus_state_after_loss(wid, sur);
        if let Some(wsid) = w.sys_id {
            reactor.transaction_manager.remove_for_window(wsid);
            let _ = reactor.window_manager.remove_window_server_state(wsid);
            proof {
                lemma_removed_write_in_range(
                    old(reactor).transaction_manager,
                    reactor.transaction_manager,
                    wsid,
                );
            }
        }
        reactor.window_manager.remove_window(wid);
        reactor.refocus_manager.refocus_state = refocus;
        reactor.turn.window_was_destroyed = true;
        two_tasks(
            Task::Go(Work::LayoutEvent(LayoutEvent::Changed)),
            Task::Go(Work::WindowGone(wid)),
        )
    }

    /// A drag that a window which is gone took part in is over.
    pub fn window_gone(reactor: &mut Reactor, wid: WindowId) -> (r: Vec<Task>)
        requires
            old(reactor).wf(),
        ensures
            final(reactor).wf(),
            gone_window_left(
                *old(reactor),
                *final(reactor),
                r@,
                wid,
            ),
    {
        if let Some(skipped) = reactor.drag_manager.skip_layout_for_window {
            if skipped == wid {
                reactor.drag_manager.skip_layout_for_window = None;
            }
        }
        let dragged: bool = match reactor.core.drag.window {
            Some(w) => w == wid,
            None => false,
        };
        let target: bool = match reactor.core.drag.target {
            Some(w) => w == wid,
            None => false,
        };
        if dragged || target {
            reactor.drag_manager.drag_state = DragState::Inactive;
            one_task(Task::Ask(Question::Core(CoreInput::DragCancelled), Work::Done))
        } else {
            no_tasks()
        }
    }

    /// A window was minimized; if it had the focus, another window on its
    /// space is to get it.
    pub fn handle_window_minimized(reactor: &mut Reactor, wid: WindowId, sur: &Surroundings) -> (r:
        Vec<Task>)
        requires
            old(reactor).wf(),
        ensures
            final(reactor).wf(),
            *final(reactor) == (Reactor {
                window_manager: WindowManager {
                    windows: final(reactor).window_manager.windows,
                    visible_windows: final(reactor).window_manager.visible_windows,
                    ..old(reactor).window_manager
                },
                refocus_manager: RefocusManager {
                    refocus_state: final(reactor).refocus_manager.refocus_state,
                    ..old(reactor).refocus_manager
                },
                ..*old(reactor)
            }),
            final(reactor).window_manager.windows.order()
                == old(reactor).window_manager.windows.order(),
            window_minimized(
                *old(reactor),
                *final(reactor),
                r@,
                wid,
                *sur,
            ),
    {
        let w: WindowState = match reactor.window_manager.window(wid) {
            Some(w) => w,
            None => {
                return no_tasks();
            },
        };
        if w.is_minimized {
            return no_tasks();
        }
        let refocus: RefocusState = reactor.refocus_state_after_loss(wid, sur);
        reactor.window_manager.set_window(
            wid,
            WindowState { is_minimized: true, is_manageable: false, ..w },
        );
        if let Some(wsid) = w.sys_id {
            reactor.window_manager.mark_window_hidden(wsid);
        }
        reactor.refocus_manager.refocus_state = refocus;
        one_task(Task::Go(Work::LayoutEvent(LayoutEvent::Changed)))
    }

    /// A window was taken out of the Dock again.
    pub fn handle_window_deminiaturized(
        reactor: &mut Reactor,
        wid: WindowId,
        sur: &Surroundings,
    ) -> (r: Vec<Task>)
        requires
            old(reactor).wf(),
            sur.wf(),
        ensures
            final(reactor).wf(),
            *final(reactor) == (Reactor {
                window_manager: WindowManager {
                    windows: final(reactor).window_manager.windows,
                    ..old(reactor).window_manager
                },
                ..*old(reactor)
            }),
            final(reactor).window_manager.windows.order()
                == old(reactor).window_manager.windows.order(),
            window_restored(
                *old(reactor),
                *final(reactor),
                r@,
                wid,
                *sur,
            ),
    {
        let w: WindowState = match reactor.window_manager.window(wid) {
            Some(w) => w,
            None => {
                return no_tasks();
            },
        };
        if !w.is_minimized {
            return no_tasks();
        }
        let fits: bool = compute_window_manageability(
            false,
            w.is_standard,
            w.is_root,
            reactor.window_manager.server_info_of(w.sys_id),
        );
        reactor.window_manager.set_window(
            wid,
            WindowState { is_minimized: false, is_manageable: fits, ..w },
        );
        if !fits {
            return no_tasks();
        }
        match reactor.active_space_for_window(&w.frame_monotonic, w.sys_id, sur) {
            Some(space) => one_task(Task::Go(Work::AddedInSpace { window: wid, space })),
            None => no_tasks(),
        }
    }
}

impl Reactor {
    /// Whether another window is to be focused once a window is out of sight:
    /// only if that one had the focus.
    pub open spec fn refocus_after_loss(&self, wid: WindowId, sur: Surroundings) -> RefocusState {
        match self.intended_space_of(wid, sur) {
            Some(space) => if self.core.focused_window == Some(wid) {
                RefocusState::Pending(space)
            } else {
                self.refocus_manager.refocus_state
            },
            None => self.refocus_manager.refocus_state,
        }
    }

    pub fn refocus_state_after_loss(&self, wid: WindowId, sur: &Surroundings) -> (r: RefocusState)
        requires
            self.wf(),
        ensures
            r == self.refocus_after_loss(wid, *sur),
    {
        let focused: bool = match self.core.focused_window {
            Some(w) => w == wid,
            None => false,
        };
        if !focused {
            return self.refocus_manager.refocus_state;
        }
        match self.intended_space_for_window_id(wid, sur) {
            Some(space) => RefocusState::Pending(space),
            None => self.refocus_manager.refocus_state,
        }
    }
}

/// A write to a window in range leaves all writes in range.
proof fn lemma_writes_in_range(
    before: TransactionManager,
    after: TransactionManager,
    window: WindowInfo,
)
    requires
        before.wf(),
        window.frame.in_range(),
        after.records@ == match window.sys_id {
            Some(wsid) => before.records@.insert(
                wsid,
                WriteRecord {
                    last_sent: before.record(wsid).last_sent,
                    target: Some(window.frame),
                },
            ),
            None => before.records@,
        },
    ensures
        after.wf(),
{
    assert forall|w: WindowServerId| true implies ((#[trigger] after.record(
        w,
    )).target matches Some(f) ==> f.in_range()) by {
        assert(before.record(w).target matches Some(f) ==> f.in_range());
    }
}

proof fn lemma_removed_write_in_range(
    before: TransactionManager,
    after: TransactionManager,
    wsid: WindowServerId,
)
    requires
        before.wf(),
        after.records@ == before.records@.remove(wsid),
    ensures
        after.wf(),
{
    assert forall|w: WindowServerId| true implies ((#[trigger] after.record(
        w,
    )).target matches Some(f) ==> f.in_range()) by {
        assert(before.record(w).target matches Some(f) ==> f.in_range());
    }
}

/// Putting away a window that does not have the focus moves no focus.
pub proof fn law_unfocused_loss_keeps_the_focus(m: Reactor, wid: WindowId, sur: Surroundings)
    requires
        m.core.focused_window != Some(wid),
    ensures
        m.refocus_after_loss(wid, sur) == m.refocus_manager.refocus_state,
{
}

/// A window lands on the managed space that it is on; one that the window
/// server does not know yet lands where commands go; any other nowhere.
pub proof fn law_window_lands_on_a_managed_space(
    m: Reactor,
    frame: Rect,
    wsid: WindowServerId,
    space: SpaceId,
    sur: Surroundings,
)
    ensures
        m.best_space(frame, Some(wsid), sur) == Some(space) && m.active_spaces@.contains(space)
            ==> m.landing_space(frame, Some(wsid), sur) == Some(space),
        m.best_space(frame, Some(wsid), sur) == Some(space) && !m.active_spaces@.contains(space)
            ==> m.landing_space(frame, Some(wsid), sur) is None,
        m.best_space(frame, Some(wsid), sur) is None ==> m.landing_space(frame, Some(wsid), sur)
            is None,
        m.best_space(frame, None, sur) is None ==> m.landing_space(frame, None, sur)
            == m.command_space(sur),
        m.best_space(frame, None, sur) == Some(space) && m.active_spaces@.contains(space)
            ==> m.landing_space(frame, None, sur) == Some(space),
{
}

/// A window that is lost from the focus has another focused on its space.
pub proof fn law_focused_loss_refocuses_its_space(
    m: Reactor,
    wid: WindowId,
    space: SpaceId,
    sur: Surroundings,
)
    requires
        m.core.focused_window == Some(wid),
    ensures
        m.intended_space_of(wid, sur) == Some(space) ==> m.refocus_after_loss(wid, sur)
            == RefocusState::Pending(space),
        m.intended_space_of(wid, sur) is None ==> m.refocus_after_loss(wid, sur)
            == m.refocus_manager.refocus_state,
{
}

/// A window reported gone is taken to be merely out of sight only while the
/// active space is not the user's or Mission Control is open, and only if the
/// window server still has it as its application's.
pub proof fn law_false_alarm_needs_the_window_server(
    m: Reactor,
    wid: WindowId,
    wsid: WindowServerId,
    space: SpaceId,
    sur: Surroundings,
)
    requires
        m.window_manager.windows@.contains_key(wid),
        m.window_manager.windows@[wid].sys_id == Some(wsid),
    ensures
        WindowEventHandler::is_false_alarm(m, wid, sur) ==> sur.server_windows@.contains_key(wsid)
            && sur.server_windows@[wsid].pid == wid.pid,
        sur.active_space == Some(space) && sur.user_spaces@.contains(space)
            && !m.core.mission_control_active ==> !WindowEventHandler::is_false_alarm(m, wid, sur),
        sur.server_windows@.contains_key(wsid) && sur.server_windows@[wsid].pid == wid.pid && (
        m.core.mission_control_active || sur.active_space is None || (sur.active_space == Some(space)
            && !sur.user_spaces@.contains(space))) ==> WindowEventHandler::is_false_alarm(
            m,
            wid,
            sur,
        ),
{
}

/// A new window is found under its number, is described as reported, counts
/// as seen no longer, and can be managed if it is standard, a root, not
/// minimized and on the ordinary layer.
pub proof fn law_new_window_is_registered(
    before: WindowManager,
    after: WindowManager,
    wid: WindowId,
    window: WindowInfo,
    ws_info: Option<WindowServerInfo>,
    wsid: WindowServerId,
    other: WindowId,
)
    requires
        registered(before, after, wid, window, ws_info),
        window.sys_id == Some(wsid),
        other != wid,
    ensures
        after.windows@.contains_key(wid),
        after.windows@[wid].frame_monotonic == window.frame,
        after.windows@[wid].sys_id == Some(wsid),
        after.windows@[wid].is_minimized == window.is_minimized,
        after.windows@[wid].is_manageable <==> !window.is_minimized && window.is_standard
            && window.is_root && (after.window_server_info@.contains_key(wsid)
            ==> after.window_server_info@[wsid].layer == 0),
        after.window_ids@.contains_key(wsid) && after.window_ids@[wsid] == wid,
        !after.observed_window_server_ids@.contains(wsid),
        after.details@[wid].title == window.title,
        ws_info matches Some(info) ==> after.window_server_info@.contains_key(info.id)
            && after.window_server_info@[info.id] == info,
        after.windows@.contains_key(other) == before.windows@.contains_key(other),
        before.windows@.contains_key(other) ==> after.windows@[other] == before.windows@[other],
{
}

/// A new window that arrives on a space is added there, and counts as one
/// that may have been waited for; rules are asked first if its application is
/// known.
pub proof fn law_arriving_window_is_added(
    tasks: Seq<Task>,
    m: Reactor,
    wid: WindowId,
    space: SpaceId,
)
    requires
        is_arrival(tasks, m, wid, space),
    ensures
        tasks.contains(Task::Go(Work::AddedInSpace { window: wid, space })),
        m.app_manager.apps@.contains_key(wid.pid) ==> asks_rules(tasks[0], seq![wid]),
        !m.app_manager.apps@.contains_key(wid.pid) ==> tasks[0] == Task::Go(
            Work::AddedInSpace { window: wid, space },
        ),
        tasks.last() matches Task::Go(Work::AwaitedWindow { windows }) && windows@ == seq![wid],
{
    let at = if m.app_manager.apps@.contains_key(wid.pid) {
        1int
    } else {
        0
    };
    assert(tasks[at] == Task::Go(Work::AddedInSpace { window: wid, space }));
}

/// What the end of a window leads to and leaves.
pub open spec fn window_destroyed(
    before: Reactor,
    after: Reactor,
    tasks: Seq<Task>,
    wid: WindowId,
    sur: Surroundings,
) -> bool {
    if !before.window_manager.windows@.contains_key(wid) || WindowEventHandler::is_false_alarm(
        before,
        wid,
        sur,
    ) {
        tasks.len() == 0 && after == before
    } else {
        &&& tasks == seq![
            Task::Go(Work::LayoutEvent(LayoutEvent::Changed)),
            Task::Go(Work::WindowGone(wid)),
        ]
        &&& after.turn == (Turn { window_was_destroyed: true, ..before.turn })
        &&& after.window_manager.windows@ == before.window_manager.windows@.remove(wid)
        &&& after.window_manager.details@ == before.window_manager.details@.remove(wid)
        &&& match before.server_id(wid) {
            Some(wsid) => {
                &&& server_state_removed(
                    WindowManager {
                        windows: after.window_manager.windows,
                        details: after.window_manager.details,
                        ..before.window_manager
                    },
                    after.window_manager,
                    wsid,
                )
                &&& after.transaction_manager.records@
                    == before.transaction_manager.records@.remove(wsid)
            },
            None => {
                &&& after.window_manager == (WindowManager {
                    windows: after.window_manager.windows,
                    details: after.window_manager.details,
                    ..before.window_manager
                })
                &&& after.transaction_manager == before.transaction_manager
            },
        }
        &&& after.refocus_manager.refocus_state == before.refocus_after_loss(wid, sur)
    }
}

/// What minimizing a window leads to and leaves.
pub open spec fn window_minimized(
    before: Reactor,
    after: Reactor,
    tasks: Seq<Task>,
    wid: WindowId,
    sur: Surroundings,
) -> bool {
    match before.window_manager.window_spec(wid) {
        Some(w) => if w.is_minimized {
            tasks.len() == 0 && after == before
        } else {
            &&& tasks == seq![Task::Go(Work::LayoutEvent(LayoutEvent::Changed))]
            &&& after.window_manager.windows@ == before.window_manager.windows@.insert(
                wid,
                WindowState { is_minimized: true, is_manageable: false, ..w },
            )
            &&& after.window_manager.visible_windows@ == match w.sys_id {
                Some(wsid) => before.window_manager.visible_windows@.remove(wsid),
                None => before.window_manager.visible_windows@,
            }
            &&& after.refocus_manager.refocus_state == before.refocus_after_loss(
                wid,
                sur,
            )
        },
        None => tasks.len() == 0 && after == before,
    }
}

/// What restoring a window leads to and leaves.
pub open spec fn window_restored(
    before: Reactor,
    after: Reactor,
    tasks: Seq<Task>,
    wid: WindowId,
    sur: Surroundings,
) -> bool {
    match before.window_manager.window_spec(wid) {
        Some(w) => if !w.is_minimized {
            tasks.len() == 0 && after == before
        } else {
            let fits = manageable(
                false,
                w.is_standard,
                w.is_root,
                before.window_manager.server_info(w.sys_id),
            );
            &&& after.window_manager.windows@ == before.window_manager.windows@.insert(
                wid,
                WindowState { is_minimized: false, is_manageable: fits, ..w },
            )
            &&& tasks == match after.landing_space(w.frame_monotonic, w.sys_id, sur) {
                Some(space) => if fits {
                    seq![Task::Go(Work::AddedInSpace { window: wid, space })]
                } else {
                    Seq::empty()
                },
                None => Seq::empty(),
            }
        },
        None => tasks.len() == 0 && after == before,
    }
}

/// A tracked window that is really gone is forgotten, alone, with its number
/// and what was awaited of it, and windows are laid out even during a drag;
/// if it had the focus, another is focused on its space. One that is not
/// tracked, or merely out of sight, changes nothing.
pub proof fn law_destroyed_window_is_forgotten(
    before: Reactor,
    after: Reactor,
    tasks: Seq<Task>,
    wid: WindowId,
    wsid: WindowServerId,
    other: WindowId,
    space: SpaceId,
    sur: Surroundings,
)
    requires
        window_destroyed(before, after, tasks, wid, sur),
        other != wid,
    ensures
        !before.window_manager.windows@.contains_key(wid) ==> tasks.len() == 0 && after == before,
        before.window_manager.windows@.contains_key(wid)
            && before.window_manager.windows@[wid].sys_id == Some(wsid) && (
        !sur.server_windows@.contains_key(wsid) || (sur.active_space == Some(space)
            && sur.user_spaces@.contains(space) && !before.core.mission_control_active)) ==> {
            &&& !after.window_manager.windows@.contains_key(wid)
            &&& !after.window_manager.window_ids@.contains_key(wsid)
            &&& !after.window_manager.visible_windows@.contains(wsid)
            &&& !after.transaction_manager.records@.contains_key(wsid)
            &&& after.turn.window_was_destroyed
            &&& tasks.contains(Task::Go(Work::LayoutEvent(LayoutEvent::Changed)))
            &&& tasks.contains(Task::Go(Work::WindowGone(wid)))
            &&& before.core.focused_window != Some(wid) ==> after.refocus_manager.refocus_state
                == before.refocus_manager.refocus_state
            &&& before.core.focused_window == Some(wid) && before.intended_space_of(wid, sur)
                is Some ==> after.refocus_manager.refocus_state == RefocusState::Pending(
                before.intended_space_of(wid, sur)->0,
            )
        },
        after.window_manager.windows@.contains_key(other)
            == before.window_manager.windows@.contains_key(other),
        before.window_manager.windows@.contains_key(other) ==> after.window_manager.windows@[other]
            == before.window_manager.windows@[other],
{
    if tasks.len() > 0 {
        assert(tasks[0] == Task::Go(Work::LayoutEvent(LayoutEvent::Changed)));
        assert(tasks[1] == Task::Go(Work::WindowGone(wid)));
    }
}

/// A window that is minimized cannot be managed and is not visible until it
/// is restored; then it can be again if it is standard, at the top level and
/// on the ordinary layer, and is added where it lands. Doing either twice
/// changes nothing.
pub proof fn law_minimized_window_leaves_and_comes_back(
    before: Reactor,
    after: Reactor,
    tasks: Seq<Task>,
    wid: WindowId,
    wsid: WindowServerId,
    space: SpaceId,
    sur: Surroundings,
)
    requires
        before.window_manager.windows@.contains_key(wid),
        before.window_manager.windows@[wid].sys_id == Some(wsid),
    ensures
        ({
            let w = before.window_manager.windows@[wid];
            let v = after.window_manager.windows@[wid];
            let fits = w.is_standard && w.is_root && (
            before.window_manager.window_server_info@.contains_key(wsid)
                ==> before.window_manager.window_server_info@[wsid].layer == 0);
            &&& window_minimized(before, after, tasks, wid, sur) && !w.is_minimized
                ==> v.is_minimized && !v.is_manageable && v.frame_monotonic == w.frame_monotonic
                && !after.window_manager.visible_windows@.contains(wsid) && tasks == seq![
                Task::Go(Work::LayoutEvent(LayoutEvent::Changed)),
            ]
            &&& window_minimized(before, after, tasks, wid, sur) && w.is_minimized ==> after
                == before && tasks.len() == 0
            &&& window_restored(before, after, tasks, wid, sur) && w.is_minimized
                ==> !v.is_minimized && v.is_manageable == fits
            &&& window_restored(before, after, tasks, wid, sur) && w.is_minimized && fits
                && after.landing_space(w.frame_monotonic, w.sys_id, sur) == Some(space) ==> tasks
                == seq![Task::Go(Work::AddedInSpace { window: wid, space })]
            &&& window_restored(before, after, tasks, wid, sur) && w.is_minimized && !fits
                ==> tasks.len() == 0
            &&& window_restored(before, after, tasks, wid, sur) && !w.is_minimized ==> after
                == before && tasks.len() == 0
        }),
{
}

/// What the end of a window means for a drag.
pub open spec fn gone_window_left(
    before: Reactor,
    after: Reactor,
    tasks: Seq<Task>,
    wid: WindowId,
) -> bool {
    let took_part = before.core.drag.window == Some(wid) || before.core.drag.target
        == Some(wid);
    &&& tasks == if took_part {
        seq![Task::Ask(Question::Core(CoreInput::DragCancelled), Work::Done)]
    } else {
        Seq::empty()
    }
    &&& after == (Reactor {
        drag_manager: DragManager {
            drag_state: if took_part {
                DragState::Inactive
            } else {
                before.drag_manager.drag_state
            },
            skip_layout_for_window: if before.drag_manager.skip_layout_for_window
                == Some(wid) {
                None
            } else {
                before.drag_manager.skip_layout_for_window
            },
        },
        ..before
    })
}

/// The end of a window that a drag is about, or that is about to change
/// places with it, ends the drag; the end of any other does not.
pub proof fn law_end_of_a_dragged_window_ends_the_drag(
    before: Reactor,
    after: Reactor,
    tasks: Seq<Task>,
    wid: WindowId,
)
    requires
        gone_window_left(before, after, tasks, wid),
    ensures
        before.core.drag.window == Some(wid) || before.core.drag.target == Some(wid)
            ==> after.drag_manager.drag_state == DragState::Inactive && tasks == seq![
            Task::Ask(Question::Core(CoreInput::DragCancelled), Work::Done),
        ],
        before.core.drag.window != Some(wid) && before.core.drag.target != Some(wid)
            ==> after.drag_manager.drag_state == before.drag_manager.drag_state && tasks.len() == 0,
        after.drag_manager.skip_layout_for_window != Some(wid),
{
}

} // verus!
