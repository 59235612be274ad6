//! The mouse over windows, and their titles.

use vstd::prelude::*;

use crate::app::{Quiet, WindowId};
use crate::broadcast::BroadcastEvent;
use crate::collections::{first_at, first_index, IdMap};
use crate::geometry::Rect;
use crate::ids::{SpaceId, WindowServerId};
use crate::model::{CoreWorkspace, WorkspaceId};
use crate::reactor::events::display_command::is_single_raise;
use crate::reactor::events::window::WindowEventHandler;
use crate::reactor::managers::{
    MenuState, WindowDetails, WindowFilter, WindowManager, WindowState,
};
use crate::reactor::query::count_before;
use crate::reactor::observation::copy_text;
use crate::reactor::rules::asks_rules;
use crate::reactor::surroundings::Surroundings;
use crate::reactor::task::{no_tasks, one_task, LayoutEvent, Message, Question, Task, Work};
use crate::reactor::Reactor;
use crate::stack_line::window_by_id;
use crate::text::{append_u64, decimal};

verus! {

/// A window's place among the layers: what the window server says of its
/// level, and its sub-level.
#[derive(Copy, Clone, Debug, PartialEq, Eq, Structural)]
pub struct Level {
    pub level: Option<i32>,
    pub sub_level: i32,
}

/// How windows lie on a space, from the front.
pub struct Stacking {
    pub order: Vec<WindowServerId>,
    pub levels: IdMap<WindowServerId, Level>,
}

impl Stacking {
    pub open spec fn level_of(&self, wsid: WindowServerId) -> Level {
        if self.levels@.contains_key(wsid) {
            self.levels@[wsid]
        } else {
            Level { level: None, sub_level: 0 }
        }
    }

    fn get_level(&self, wsid: WindowServerId) -> (r: Level)
        ensures
            r == self.level_of(wsid),
    {
        match self.levels.get(wsid) {
            Some(level) => *level,
            None => Level { level: None, sub_level: 0 },
        }
    }

    /// Whether the window at `i` is in front of another.
    pub open spec fn in_front(&self, i: int, wsid: WindowServerId) -> bool {
        0 <= i < self.order@.len() && forall|j: int|
            0 <= j <= i ==> #[trigger] self.order@[j] != wsid
    }

    /// Whether two windows are on the same known level.
    pub open spec fn level_with(&self, a: WindowServerId, b: WindowServerId) -> bool {
        self.level_of(a).level is Some && self.level_of(a).level == self.level_of(b).level
            && self.level_of(a).sub_level == self.level_of(b).sub_level
    }

    fn are_level(&self, a: WindowServerId, b: WindowServerId) -> (r: bool)
        ensures
            r == self.level_with(a, b),
    {
        let x: Level = self.get_level(a);
        let y: Level = self.get_level(b);
        match (x.level, y.level) {
            (Some(p), Some(q)) => p == q && x.sub_level == y.sub_level,
            _ => false,
        }
    }
}

impl Reactor {
    /// Whether a window is a floating one that lies on a frame.
    pub open spec fn floats_on(&self, above: WindowServerId, frame: Rect) -> bool {
        self.window_manager.tracked_spec(above) matches Some(wid) && self.floats(wid) && (
        self.window_manager.window_spec(wid) matches Some(w) && frame.encloses(w.frame_monotonic))
    }

    fn is_floating_on(&self, above: WindowServerId, frame: &Rect) -> (r: bool)
        requires
            self.wf(),
            frame.in_range(),
        ensures
            r == self.floats_on(above, *frame),
    {
        match self.window_manager.tracked_window_id(above) {
            Some(wid) => self.is_window_floating(wid) && match self.window_manager.window(wid) {
                Some(w) => frame.contains_rect(&w.frame_monotonic),
                None => false,
            },
            None => false,
        }
    }

    /// Whether raising a window would cover a floating one that lies on it.
    pub open spec fn would_cover_floating(
        &self,
        wsid: WindowServerId,
        frame: Rect,
        stacking: Stacking,
    ) -> bool {
        exists|i: int| #[trigger]
            stacking.in_front(i, wsid) && self.floats_on(stacking.order@[i], frame)
                && stacking.level_with(wsid, stacking.order@[i])
    }

    fn covers_floating(&self, wsid: WindowServerId, frame: &Rect, stacking: &Stacking) -> (r: bool)
        requires
            self.wf(),
            frame.in_range(),
        ensures
            r == self.would_cover_floating(wsid, *frame, *stacking),
    {
        let mut i: usize = 0;
        while i < stacking.order.len()
            invariant
                self.wf(),
                frame.in_range(),
                i <= stacking.order@.len(),
                forall|j: int| 0 <= j < i ==> #[trigger] stacking.order@[j] != wsid,
                forall|j: int|
                    0 <= j < i ==> !(self.floats_on(#[trigger] stacking.order@[j], *frame)
                        && stacking.level_with(wsid, stacking.order@[j])),
            decreases stacking.order@.len() - i,
        {
            let above: WindowServerId = stacking.order[i];
            if above == wsid {
                proof {
                    assert forall|k: int| stacking.in_front(k, wsid) implies !(self.floats_on(
                        stacking.order@[k],
                        *frame,
                    ) && stacking.level_with(wsid, stacking.order@[k])) by {
                        if k >= i {
                            assert(stacking.order@[i as int] != wsid);
                        }
                    }
                }
                return false;
            }
            if self.is_floating_on(above, frame) && stacking.are_level(wsid, above) {
                assert(stacking.in_front(i as int, wsid));
                return true;
            }
            i += 1;
        }
        false
    }

    /// Whether the mouse over a window focuses it: one in view, with no menu
    /// open, that covers no floating window.
    pub open spec fn raises_on_hover(&self, wid: WindowId, stacking: Stacking, sur: Surroundings) -> bool {
        match self.window_manager.window_spec(wid) {
            Some(w) => {
                &&& w.passes(WindowFilter::EffectivelyManageable) || self.floats(wid)
                &&& self.menu_manager.menu_state == MenuState::Closed
                &&& self.best_space(w.frame_monotonic, w.sys_id, sur) matches Some(space)
                    && self.is_active(space) && self.on_shown_workspace(space, wid)
                &&& w.sys_id matches Some(wsid) ==> !self.would_cover_floating(
                    wsid,
                    w.frame_monotonic,
                    stacking,
                )
            },
            None => false,
        }
    }

    pub fn should_raise_on_mouse_over(
        &self,
        wid: WindowId,
        stacking: &Stacking,
        sur: &Surroundings,
    ) -> (r: bool)
        requires
            self.wf(),
        ensures
            r == self.raises_on_hover(wid, *stacking, *sur),
    {
        let w: WindowState = match self.window_manager.window(wid) {
            Some(w) => w,
            None => {
                return false;
            },
        };
        if !w.matches_filter(WindowFilter::EffectivelyManageable) && !self.is_window_floating(wid) {
            return false;
        }
        if self.menu_manager.menu_state != MenuState::Closed {
            return false;
        }
        let space: SpaceId = match self.best_space_for_window_state(&w, sur) {
            Some(space) => space,
            None => {
                return false;
            },
        };
        if !self.is_space_active(space) || !self.is_window_in_active_workspace(space, wid) {
            return false;
        }
        match w.sys_id {
            Some(wsid) => !self.covers_floating(wsid, &w.frame_monotonic, stacking),
            None => true,
        }
    }
}

impl WindowEventHandler {
    /// The mouse is over another window: how windows lie there decides what
    /// follows.
    pub fn mouse_moved_over(reactor: &Reactor, wsid: WindowServerId, sur: &Surroundings) -> (r: Vec<
        Task,
    >)
        requires
            reactor.wf(),
        ensures
            r@ == match reactor.window_manager.tracked_spec(wsid) {
                Some(wid) => match reactor.best_space_of(wid, *sur) {
                    Some(space) => seq![
                        Task::Ask(Question::Stacking(space), Work::MouseOver(wsid)),
                    ],
                    None => Seq::empty(),
                },
                None => Seq::empty(),
            },
    {
        match reactor.window_manager.tracked_window_id(wsid) {
            Some(wid) => match reactor.best_space_for_window_id(wid, sur) {
                Some(space) => one_task(
                    Task::Ask(Question::Stacking(space), Work::MouseOver(wsid)),
                ),
                None => no_tasks(),
            },
            None => no_tasks(),
        }
    }

    /// Focuses the window that the mouse is over, unless it has the focus.
    pub fn handle_mouse_moved_over_window(
        reactor: &Reactor,
        wsid: WindowServerId,
        stacking: &Stacking,
        sur: &Surroundings,
    ) -> (r: Vec<Task>)
        requires
            reactor.wf(),
            sur.wf(),
        ensures
            match reactor.window_manager.tracked_spec(wsid) {
                Some(wid) => {
                    let is_main = reactor.main_wid() == Some(wid);
                    let w = reactor.window_manager.windows@[wid];
                    if reactor.raises_on_hover(wid, *stacking, *sur) && !(is_main
                        && reactor.core.focused_window == Some(wid)) {
                        let at = if is_main {
                            0int
                        } else {
                            1
                        };
                        let here = reactor.landing_space(w.frame_monotonic, w.sys_id, *sur)
                            is Some;
                        &&& r@.len() == at + if here {
                            1int
                        } else {
                            0
                        }
                        &&& !is_main ==> is_single_raise(
                            r@[0],
                            *reactor,
                            seq![wid],
                            wid,
                            None,
                            Quiet::No,
                        )
                        &&& here ==> r@[at] == Task::Go(
                            Work::LayoutEvent(LayoutEvent::WindowFocused(wid)),
                        )
                    } else {
                        r@.len() == 0
                    }
                },
                None => r@.len() == 0,
            },
    {
        let wid: WindowId = match reactor.window_manager.tracked_window_id(wsid) {
            Some(wid) => wid,
            None => {
                return no_tasks();
            },
        };
        let is_main: bool = match reactor.main_window() {
            Some(main) => main == wid,
            None => false,
        };
        let focused: bool = match reactor.focused_window_for_command() {
            Some(focus) => focus == wid,
            None => false,
        };
        if !reactor.should_raise_on_mouse_over(wid, stacking, sur) || (is_main && focused) {
            return no_tasks();
        }
        let mut tasks: Vec<Task> = no_tasks();
        if !is_main {
            tasks.push(reactor.raise_window(wid, Quiet::No, None));
        }
        if let Some(w) = reactor.window_manager.window(wid) {
            if reactor.active_space_for_window(&w.frame_monotonic, w.sys_id, sur).is_some() {
                tasks.push(Task::Go(Work::LayoutEvent(LayoutEvent::WindowFocused(wid))));
            }
        }
        tasks
    }
}

/// How a workspace without a number is called.
pub open spec fn unnumbered_label(workspace: WorkspaceId) -> Seq<char> {
    "Workspace WorkspaceId("@ + decimal(workspace.0 as nat) + ")"@
}

fn label_unnumbered(workspace: WorkspaceId) -> (r: String)
    ensures
        r@ == unnumbered_label(workspace),
{
    let mut label: String = "Workspace WorkspaceId(".to_string();
    append_u64(&mut label, workspace.0);
    label.append(")");
    label
}

/// Whether a task tells subscribers of a window's new title.
pub open spec fn tells_title(
    task: Task,
    reactor: Reactor,
    wid: WindowId,
    space: SpaceId,
    workspace: WorkspaceId,
    previous: Seq<char>,
    new: Seq<char>,
) -> bool {
    match task {
        Task::Tell(
            Message::Broadcast(
                BroadcastEvent::WindowTitleChanged {
                    window_id,
                    workspace_id,
                    workspace_index,
                    workspace_name,
                    previous_title,
                    new_title,
                    space_id,
                    display_uuid,
                },
            ),
        ) => {
            let all = reactor.core.workspaces@;
            &&& window_id == wid && workspace_id == workspace && space_id == space
            &&& previous_title@ == previous && new_title@ == new
            &&& reactor.display_of_space(space) == (match display_uuid {
                Some(uuid) => Some(uuid@),
                None => None,
            })
            &&& match reactor.number_of(workspace) {
                Some(_) => first_index(all, |w: CoreWorkspace| w.id == workspace) matches Some(
                    place,
                ) && workspace_index == Some(
                    count_before(all, place, all.len() as int) as u64,
                ) && workspace_name == all[place].name,
                None => workspace_index == Some(0u64) && workspace_name@ == unnumbered_label(
                    workspace,
                ),
            }
        },
        _ => false,
    }
}

impl Reactor {
    /// The space and workspace in view that a window is on.
    pub open spec fn place_in_view(&self, wid: WindowId, sur: Surroundings) -> Option<
        (SpaceId, WorkspaceId),
    > {
        match self.only_active(self.best_space_of(wid, sur)) {
            Some(space) => match self.shown_workspace(space) {
                Some(workspace) => Some((space, workspace)),
                None => None,
            },
            None => None,
        }
    }

    fn broadcast_window_title_changed(
        &self,
        wid: WindowId,
        previous_title: String,
        new_title: String,
        sur: &Surroundings,
    ) -> (r: Vec<Task>)
        requires
            self.wf(),
        ensures
            match self.place_in_view(wid, *sur) {
                Some((space, workspace)) => r@.len() == 1 && tells_title(
                    r@[0],
                    *self,
                    wid,
                    space,
                    workspace,
                    previous_title@,
                    new_title@,
                ),
                None => r@.len() == 0,
            },
    {
        let space: SpaceId = match self.best_space_for_window_id(wid, sur) {
            Some(space) => space,
            None => {
                return no_tasks();
            },
        };
        if !self.is_space_active(space) {
            return no_tasks();
        }
        let workspace: WorkspaceId = match self.active_workspace_for_space(space) {
            Some(workspace) => workspace,
            None => {
                return no_tasks();
            },
        };
        let (index, workspace_name): (u64, String) = match self.workspace_metadata(workspace) {
            Some((index, name)) => (index, name),
            None => (0, label_unnumbered(workspace)),
        };
        proof {
            let all = self.core.workspaces@;
            let pred = |w: CoreWorkspace| w.id == workspace;
            if let Some(place) = first_index(all, pred) {
                assert(first_at(all, pred, place));
            }
        }
        let display_uuid: Option<String> = self.display_uuid_for_space(space);
        one_task(
            Task::Tell(
                Message::Broadcast(
                    BroadcastEvent::WindowTitleChanged {
                        window_id: wid,
                        workspace_id: workspace,
                        workspace_index: Some(index),
                        workspace_name,
                        previous_title,
                        new_title,
                        space_id: space,
                        display_uuid,
                    },
                ),
            ),
        )
    }

    /// Whether rules are to be applied again to a window whose title changed.
    pub open spec fn reapplies_rules(&self, wid: WindowId, sur: Surroundings) -> bool {
        &&& self.config.virtual_workspaces.reapply_app_rules_on_title_change
        &&& self.on_active_space(wid, sur)
        &&& self.window_manager.window_spec(wid) matches Some(w) && w.passes(
            WindowFilter::Manageable,
        )
        &&& self.app_manager.apps@.contains_key(wid.pid)
    }

    fn should_reapply_rules(&self, wid: WindowId, sur: &Surroundings) -> (r: bool)
        requires
            self.wf(),
        ensures
            r == self.reapplies_rules(wid, *sur),
    {
        self.config.virtual_workspaces.reapply_app_rules_on_title_change
            && self.is_window_on_active_space(wid, sur) && match self.window_manager.window(wid) {
            Some(w) => w.matches_filter(WindowFilter::Manageable),
            None => false,
        } && self.app_manager.apps.contains_key(wid.pid)
    }
}

/// Details that differ in the title alone.
pub open spec fn retitled(before: WindowDetails, title: String) -> WindowDetails {
    WindowDetails { title, ..before }
}

fn with_title(details: &WindowDetails, title: String) -> (r: WindowDetails)
    ensures
        r == retitled(*details, title),
{
    WindowDetails {
        title,
        is_resizable: details.is_resizable,
        min_size: details.min_size,
        max_size: details.max_size,
        bundle_id: copy_text(&details.bundle_id),
        path: copy_text(&details.path),
        ax_role: copy_text(&details.ax_role),
        ax_subrole: copy_text(&details.ax_subrole),
    }
}

impl WindowEventHandler {
    /// A window has another title: subscribers are told, and rules may apply
    /// anew.
    pub fn handle_window_title_changed(
        reactor: &mut Reactor,
        wid: WindowId,
        new_title: String,
        sur: &Surroundings,
    ) -> (r: Vec<Task>)
        requires
            old(reactor).wf(),
        ensures
            final(reactor).wf(),
            *final(reactor) == (Reactor {
                window_manager: WindowManager {
                    details: final(reactor).window_manager.details,
                    recent_wsids: final(reactor).window_manager.recent_wsids,
                    ..old(reactor).window_manager
                },
                ..*old(reactor)
            }),
            ({
                let before = *old(reactor);
                let after = *final(reactor);
                let known = before.window_manager.windows@.contains_key(wid);
                let details = before.window_manager.details@;
                if !known || details[wid].title@ == new_title@ {
                    r@.len() == 0 && after == before
                } else {
                    let place = before.place_in_view(wid, *sur);
                    let again = before.reapplies_rules(wid, *sur);
                    let at = if place is Some {
                        1int
                    } else {
                        0
                    };
                    &&& after.window_manager.details@ == details.insert(
                        wid,
                        retitled(details[wid], new_title),
                    )
                    &&& r@.len() == at + if again {
                        1int
                    } else {
                        0
                    }
                    &&& place matches Some((space, workspace)) ==> tells_title(
                        r@[0],
                        before,
                        wid,
                        space,
                        workspace,
                        details[wid].title@,
                        new_title@,
                    )
                    &&& again ==> asks_rules(r@[at], seq![wid])
                    &&& after.window_manager.recent_wsids@ == match before.server_id(wid) {
                        Some(wsid) => if again {
                            before.window_manager.recent_wsids@.insert(wsid, sur.now)
                        } else {
                            before.window_manager.recent_wsids@
                        },
                        None => before.window_manager.recent_wsids@,
                    }
                }
            }),
    {
        if !reactor.window_manager.windows.contains_key(wid) {
            return no_tasks();
        }
        let (previous, renamed): (String, WindowDetails) = match reactor.window_manager.details.get(
            wid,
        ) {
            Some(details) => {
                if details.title == new_title {
                    return no_tasks();
                }
                (details.title.clone(), with_title(details, new_title.clone()))
            },
            None => {
                return no_tasks();
            },
        };
        let mut tasks: Vec<Task> = reactor.broadcast_window_title_changed(
            wid,
            previous,
            new_title,
            sur,
        );
        let again: bool = reactor.should_reapply_rules(wid, sur);
        let _ = reactor.window_manager.details.insert(wid, renamed);
        if again {
            if let Some(wsid) = reactor.window_server_id(wid) {
                reactor.window_manager.mark_wsid_recent(wsid, sur.now);
            }
            let mut list: Vec<WindowId> = Vec::new();
            list.push(wid);
            assert(list@ =~= seq![wid]);
            tasks.push(Reactor::process_windows_for_app_rules(list));
        }
        tasks
    }
}

/// With a menu open, the mouse focuses nothing.
pub proof fn law_open_menu_keeps_the_focus(
    m: Reactor,
    wid: WindowId,
    stacking: Stacking,
    sur: Surroundings,
)
    requires
        m.menu_manager.menu_state != MenuState::Closed,
    ensures
        !m.raises_on_hover(wid, stacking, sur),
{
}

/// The mouse over a window focuses it if the window is one that the layout
/// may hold or floats, no menu is open, it is on a managed space and on the
/// workspace that the space shows, and no floating window on its own level
/// lies in front of it and on it; and not otherwise.
pub proof fn law_hover_focuses_windows_in_view(
    m: Reactor,
    wid: WindowId,
    stacking: Stacking,
    sur: Surroundings,
)
    ensures
        m.raises_on_hover(wid, stacking, sur) <==> {
            let w = m.window_manager.windows@[wid];
            &&& m.window_manager.windows@.contains_key(wid)
            &&& (w.is_manageable && !w.ignore_app_rule) || (window_by_id(m.core, wid) matches Some(
                c,
            ) && c.floating)
            &&& m.menu_manager.menu_state == MenuState::Closed
            &&& m.best_space(w.frame_monotonic, w.sys_id, sur) matches Some(space)
                && m.active_spaces@.contains(space) && m.shown_workspace(space) is Some
                && m.assigned_workspace(wid) == m.shown_workspace(space)
            &&& w.sys_id matches Some(wsid) ==> !m.would_cover_floating(
                wsid,
                w.frame_monotonic,
                stacking,
            )
        },
{
}

/// A floating window in front of another on the same level, whose frame lies
/// within the other's, keeps the other from being raised. One behind it, on
/// another level, not floating, or reaching beyond it, does not.
pub proof fn law_floating_window_is_not_covered(
    m: Reactor,
    wsid: WindowServerId,
    frame: Rect,
    stacking: Stacking,
    i: int,
    above: WindowId,
    level: i32,
)
    requires
        0 <= i < stacking.order@.len(),
        forall|j: int| 0 <= j <= i ==> #[trigger] stacking.order@[j] != wsid,
        m.window_manager.window_ids@.contains_key(stacking.order@[i]),
        m.window_manager.window_ids@[stacking.order@[i]] == above,
        m.window_manager.windows@.contains_key(above),
        window_by_id(m.core, above) matches Some(c) && c.floating,
        ({
            let f = m.window_manager.windows@[above].frame_monotonic;
            &&& frame.origin.x <= f.origin.x
            &&& f.origin.x + f.size.width <= frame.origin.x + frame.size.width
            &&& frame.origin.y <= f.origin.y
            &&& f.origin.y + f.size.height <= frame.origin.y + frame.size.height
        }),
        stacking.levels@.contains_key(wsid),
        stacking.levels@.contains_key(stacking.order@[i]),
        stacking.levels@[wsid] == stacking.levels@[stacking.order@[i]],
        stacking.levels@[wsid].level == Some(level),
    ensures
        m.would_cover_floating(wsid, frame, stacking),
{
    assert(stacking.in_front(i, wsid));
    assert(m.floats_on(stacking.order@[i], frame));
}

/// Only a floating window in front, on the same level and within the frame
/// keeps a window from being raised.
pub proof fn law_only_floating_windows_in_front_are_in_the_way(
    m: Reactor,
    wsid: WindowServerId,
    frame: Rect,
    stacking: Stacking,
)
    requires
        m.would_cover_floating(wsid, frame, stacking),
    ensures
        exists|i: int|
            {
                &&& 0 <= i < stacking.order@.len()
                &&& #[trigger] stacking.order@[i] != wsid
                &&& forall|j: int| 0 <= j <= i ==> #[trigger] stacking.order@[j] != wsid
                &&& m.window_manager.window_ids@.contains_key(stacking.order@[i])
                &&& m.window_manager.windows@.contains_key(
                    m.window_manager.window_ids@[stacking.order@[i]],
                )
                &&& window_by_id(
                    m.core,
                    m.window_manager.window_ids@[stacking.order@[i]],
                ) matches Some(c) && c.floating
                &&& stacking.levels@.contains_key(stacking.order@[i])
                &&& stacking.levels@.contains_key(wsid)
                &&& stacking.levels@[wsid] == stacking.levels@[stacking.order@[i]]
            },
{
    let i = choose|i: int| #[trigger]
        stacking.in_front(i, wsid) && m.floats_on(stacking.order@[i], frame) && stacking.level_with(
            wsid,
            stacking.order@[i],
        );
    assert(stacking.in_front(i, wsid));
    assert(stacking.order@[i] != wsid);
}

/// A window is told of as in view on a managed space that shows a workspace.
pub proof fn law_title_is_told_on_managed_spaces(
    m: Reactor,
    wid: WindowId,
    space: SpaceId,
    sur: Surroundings,
)
    requires
        m.best_space_of(wid, sur) == Some(space),
    ensures
        m.place_in_view(wid, sur) is Some <==> m.active_spaces@.contains(space)
            && m.shown_workspace(space) is Some,
        m.place_in_view(wid, sur) matches Some((s, workspace)) ==> s == space && m.shown_workspace(
            space,
        ) == Some(workspace),
{
}

/// Rules are applied again to a retitled window only by the settings, for a
/// window that can be managed, meant for a managed space, of a known
/// application.
pub proof fn law_rules_are_applied_again_by_the_settings(
    m: Reactor,
    wid: WindowId,
    sur: Surroundings,
)
    ensures
        m.reapplies_rules(wid, sur) <==> {
            &&& m.config.virtual_workspaces.reapply_app_rules_on_title_change
            &&& m.intended_space_of(wid, sur) matches Some(space) && m.active_spaces@.contains(
                space,
            )
            &&& m.window_manager.windows@.contains_key(wid)
            &&& m.window_manager.windows@[wid].is_manageable
            &&& m.app_manager.apps@.contains_key(wid.pid)
        },
{
}

} // verus!
