//! Raising and focusing what the layout asks for.

use vstd::prelude::*;

use crate::app::WindowId;
use crate::collections::lemma_filter_members;
use crate::event::WindowServerInfo;
use crate::geometry::Point;
use crate::ids::{pid_t, SpaceId, WindowServerId};
use crate::model::EventResponse;
use crate::reactor::managers::{
    law_screen_of_a_space_is_the_first_that_shows_it, DragState, RefocusState,
    WorkspaceSwitchState,
};
use crate::reactor::surroundings::Surroundings;
use crate::reactor::task::{one_task, Question, Task, Work};
use crate::reactor::Reactor;

verus! {

/// Menus, panels and other system surfaces are above the layer of ordinary
/// windows.
pub open spec fn is_ordinary_surface(info: WindowServerInfo) -> bool {
    info.layer == 0
}

pub fn untracked_window_is_focusable(info: &WindowServerInfo) -> (r: bool)
    ensures
        r == is_ordinary_surface(*info),
{
    info.layer == 0
}

/// What is to be focused where the layout asked for nothing.
#[derive(Copy, Clone, Debug, PartialEq, Eq, Structural)]
pub struct FocusChoice {
    pub focus: Option<WindowId>,
    /// The focus was moved without raising anything.
    pub handled: bool,
    /// Where to put the cursor.
    pub warp: Option<Point>,
    /// The space whose last window is still to be focused again.
    pub pending: Option<SpaceId>,
}

impl Reactor {
    pub open spec fn in_drag(&self) -> bool {
        self.drag_manager.drag_state is Active
    }

    pub fn is_in_drag(&self) -> (r: bool)
        ensures
            r == self.in_drag(),
    {
        match self.drag_manager.drag_state {
            DragState::Active { .. } => true,
            DragState::Inactive => false,
        }
    }

    pub open spec fn switching(&self) -> bool {
        self.workspace_switch_manager.workspace_switch_state == WorkspaceSwitchState::Active
    }

    /// The window server's description of a window that is not tracked.
    pub open spec fn untracked_info(&self, wsid: WindowServerId, sur: Surroundings) -> Option<
        WindowServerInfo,
    > {
        if self.window_manager.window_server_info@.contains_key(wsid) {
            Some(self.window_manager.window_server_info@[wsid])
        } else {
            sur.server_window(wsid)
        }
    }

    /// An ordinary window under the cursor that the reactor does not track.
    pub open spec fn key_candidate(&self, sur: Surroundings) -> Option<(pid_t, WindowServerId)> {
        match sur.window_under_cursor {
            Some(wsid) => if self.window_manager.tracked_spec(wsid) is None {
                match self.untracked_info(wsid, sur) {
                    Some(info) => if is_ordinary_surface(info) {
                        Some((info.pid, wsid))
                    } else {
                        None
                    },
                    None => None,
                }
            } else {
                None
            },
            None => None,
        }
    }

    /// The window that could be made key though it is not tracked.
    pub fn untracked_window_under_cursor(&self, sur: &Surroundings) -> (r: Option<
        (pid_t, WindowServerId),
    >)
        ensures
            r == self.key_candidate(*sur),
    {
        let wsid: WindowServerId = match sur.window_under_cursor {
            Some(wsid) => wsid,
            None => {
                return None;
            },
        };
        if self.window_manager.tracked_window_id(wsid).is_some() {
            return None;
        }
        let info: Option<WindowServerInfo> = match self.window_manager.get_window_server_info(
            wsid,
        ) {
            Some(info) => Some(info),
            None => sur.get_window(wsid),
        };
        match info {
            Some(info) => if untracked_window_is_focusable(&info) {
                Some((info.pid, wsid))
            } else {
                None
            },
            None => None,
        }
    }

    /// The window that was last focused on the workspace a space shows, if it
    /// is there to be seen.
    pub open spec fn last_focused(&self, space: SpaceId, sur: Surroundings) -> Option<WindowId> {
        match self.shown_workspace(space) {
            Some(workspace) => match self.last_tiled(workspace) {
                Some(wid) => match self.window_manager.window_spec(wid) {
                    Some(w) => if self.best_space_of(wid, sur) == Some(space) && (match w.sys_id {
                        Some(wsid) => self.window_manager.visible_windows@.contains(wsid),
                        None => true,
                    }) {
                        Some(wid)
                    } else {
                        None
                    },
                    None => None,
                },
                None => None,
            },
            None => None,
        }
    }

    pub fn last_focused_window_in_space(&self, space: SpaceId, sur: &Surroundings) -> (r: Option<
        WindowId,
    >)
        requires
            self.wf(),
        ensures
            r == self.last_focused(space, *sur),
    {
        match self.active_workspace_for_space(space) {
            Some(workspace) => match self.last_tiled_window_in_workspace(workspace) {
                Some(wid) => match self.window_manager.window(wid) {
                    Some(w) => {
                        let here: bool = match self.best_space_for_window_id(wid, sur) {
                            Some(best) => best == space,
                            None => false,
                        };
                        let visible: bool = match w.sys_id {
                            Some(wsid) => self.window_manager.visible_windows.contains(wsid),
                            None => true,
                        };
                        if here && visible {
                            Some(wid)
                        } else {
                            None
                        }
                    },
                    None => None,
                },
                None => None,
            },
            None => None,
        }
    }

    /// The window under the cursor, unless a switch to a workspace on another
    /// space is under way.
    pub open spec fn cursor_choice(&self, switch_space: Option<SpaceId>, sur: Surroundings) -> Option<
        WindowId,
    > {
        match self.under_cursor(sur) {
            Some(wid) => match switch_space {
                Some(space) => if self.best_space_of(wid, sur) == Some(space)
                    && self.on_shown_workspace(space, wid) {
                    Some(wid)
                } else {
                    None
                },
                None => Some(wid),
            },
            None => None,
        }
    }

    fn cursor_window(&self, switch_space: Option<SpaceId>, sur: &Surroundings) -> (r: Option<
        WindowId,
    >)
        requires
            self.wf(),
        ensures
            r == self.cursor_choice(switch_space, *sur),
    {
        match self.window_id_under_cursor(sur) {
            Some(wid) => match switch_space {
                Some(space) => {
                    let here: bool = match self.best_space_for_window_id(wid, sur) {
                        Some(best) => best == space,
                        None => false,
                    };
                    if here && self.is_window_in_active_workspace(space, wid) {
                        Some(wid)
                    } else {
                        None
                    }
                },
                None => Some(wid),
            },
            None => None,
        }
    }

    /// Where the cursor goes if it follows the focus to a space.
    pub open spec fn follow_to(&self, space: Option<SpaceId>) -> Option<Point> {
        if self.config.settings.mouse_follows_focus {
            self.middle_of_space(space)
        } else {
            None
        }
    }

    fn follow(&self, space: Option<SpaceId>) -> (r: Option<Point>)
        requires
            self.wf(),
        ensures
            r == self.follow_to(space),
    {
        if self.config.settings.mouse_follows_focus {
            self.space_center(space)
        } else {
            None
        }
    }

    /// The focus under the cursor, or else on an untracked window there, or
    /// else the cursor goes to a space.
    pub open spec fn focus_or_warp(
        &self,
        space: Option<SpaceId>,
        key_made: bool,
        sur: Surroundings,
    ) -> FocusChoice {
        match self.under_cursor(sur) {
            Some(wid) => FocusChoice { focus: Some(wid), handled: false, warp: None, pending: None },
            None => if self.key_candidate(sur) is Some && key_made {
                FocusChoice { focus: None, handled: true, warp: None, pending: None }
            } else {
                FocusChoice {
                    focus: None,
                    handled: self.follow_to(space) is Some,
                    warp: self.follow_to(space),
                    pending: None,
                }
            },
        }
    }

    fn try_focus_or_warp_without_raise(
        &self,
        space: Option<SpaceId>,
        key_made: bool,
        sur: &Surroundings,
    ) -> (r: FocusChoice)
        requires
            self.wf(),
        ensures
            r == self.focus_or_warp(space, key_made, *sur),
    {
        if let Some(wid) = self.window_id_under_cursor(sur) {
            return FocusChoice { focus: Some(wid), handled: false, warp: None, pending: None };
        }
        if self.untracked_window_under_cursor(sur).is_some() && key_made {
            return FocusChoice { focus: None, handled: true, warp: None, pending: None };
        }
        let warp: Option<Point> = self.follow(space);
        FocusChoice { focus: None, handled: warp.is_some(), warp, pending: None }
    }

    /// The focus during a switch of workspaces for which the layout named no
    /// window: a window under the cursor that belongs to the switch, an
    /// untracked one on its display, or the cursor goes there, so that an
    /// empty workspace becomes the command context too.
    pub open spec fn switch_choice(
        &self,
        switch_space: Option<SpaceId>,
        key_made: bool,
        sur: Surroundings,
    ) -> FocusChoice {
        match self.cursor_choice(switch_space, sur) {
            Some(wid) => FocusChoice {
                focus: if self.main_wid() == Some(wid) {
                    None
                } else {
                    Some(wid)
                },
                handled: false,
                warp: None,
                pending: None,
            },
            None => match switch_space {
                Some(space) => if self.cursor_space(sur) == Some(space) && self.key_candidate(sur)
                    is Some && key_made {
                    FocusChoice { focus: None, handled: true, warp: None, pending: None }
                } else {
                    FocusChoice {
                        focus: None,
                        handled: self.follow_to(Some(space)) is Some,
                        warp: self.follow_to(Some(space)),
                        pending: None,
                    }
                },
                None => self.focus_or_warp(self.command_space(sur), key_made, sur),
            },
        }
    }

    fn choose_during_switch(
        &self,
        switch_space: Option<SpaceId>,
        key_made: bool,
        sur: &Surroundings,
    ) -> (r: FocusChoice)
        requires
            self.wf(),
            sur.wf(),
        ensures
            r == self.switch_choice(switch_space, key_made, *sur),
    {
        if let Some(wid) = self.cursor_window(switch_space, sur) {
            let is_main: bool = match self.main_window() {
                Some(main) => main == wid,
                None => false,
            };
            return FocusChoice {
                focus: if is_main {
                    None
                } else {
                    Some(wid)
                },
                handled: false,
                warp: None,
                pending: None,
            };
        }
        match switch_space {
            Some(space) => {
                let cursor_there: bool = match self.space_for_cursor_screen(sur) {
                    Some(s) => s == space,
                    None => false,
                };
                if cursor_there && self.untracked_window_under_cursor(sur).is_some() && key_made {
                    return FocusChoice { focus: None, handled: true, warp: None, pending: None };
                }
                let warp: Option<Point> = self.follow(Some(space));
                FocusChoice { focus: None, handled: warp.is_some(), warp, pending: None }
            },
            None => self.try_focus_or_warp_without_raise(
                self.workspace_command_space(sur),
                key_made,
                sur,
            ),
        }
    }

    pub open spec fn pending_refocus(&self) -> Option<SpaceId> {
        match self.refocus_manager.refocus_state {
            RefocusState::Pending(space) => Some(space),
            RefocusState::Idle => None,
        }
    }

    /// What to focus, given what the layout asks for.
    pub open spec fn focus_choice(
        &self,
        raises: Seq<WindowId>,
        focus: Option<WindowId>,
        switch_space: Option<SpaceId>,
        key_made: bool,
        sur: Surroundings,
    ) -> FocusChoice {
        let pending = self.pending_refocus();
        if raises.len() > 0 || focus is Some {
            FocusChoice { focus, handled: false, warp: None, pending }
        } else if self.switching() {
            FocusChoice { pending, ..self.switch_choice(switch_space, key_made, sur) }
        } else {
            match pending {
                Some(space) => match self.last_focused(space, sur) {
                    Some(wid) => FocusChoice {
                        focus: Some(wid),
                        handled: false,
                        warp: None,
                        pending: None,
                    },
                    None => self.focus_or_warp(Some(space), key_made, sur),
                },
                None => FocusChoice { focus: None, handled: false, warp: None, pending: None },
            }
        }
    }

    pub(crate) fn choose_focus(
        &self,
        response: &EventResponse,
        switch_space: Option<SpaceId>,
        key_made: bool,
        sur: &Surroundings,
    ) -> (r: FocusChoice)
        requires
            self.wf(),
            sur.wf(),
        ensures
            r == self.focus_choice(
                response.raise_windows@,
                response.focus_window,
                switch_space,
                key_made,
                *sur,
            ),
    {
        let pending: Option<SpaceId> = match self.refocus_manager.refocus_state {
            RefocusState::Pending(space) => Some(space),
            RefocusState::Idle => None,
        };
        if response.raise_windows.len() > 0 || response.focus_window.is_some() {
            return FocusChoice {
                focus: response.focus_window,
                handled: false,
                warp: None,
                pending,
            };
        }
        if self.workspace_switch_manager.workspace_switch_state == WorkspaceSwitchState::Active {
            let choice: FocusChoice = self.choose_during_switch(switch_space, key_made, sur);
            return FocusChoice { pending, ..choice };
        }
        match pending {
            Some(space) => match self.last_focused_window_in_space(space, sur) {
                Some(wid) => FocusChoice {
                    focus: Some(wid),
                    handled: false,
                    warp: None,
                    pending: None,
                },
                None => self.try_focus_or_warp_without_raise(Some(space), key_made, sur),
            },
            None => FocusChoice { focus: None, handled: false, warp: None, pending: None },
        }
    }

    /// The window to make key before the response is followed: success or
    /// failure then decides what to focus.
    pub open spec fn key_window_to_try(
        &self,
        raises: Seq<WindowId>,
        focus: Option<WindowId>,
        switch_space: Option<SpaceId>,
        sur: Surroundings,
    ) -> Option<(pid_t, WindowServerId)> {
        if !self.in_drag() && self.focus_choice(raises, focus, switch_space, true, sur)
            != self.focus_choice(raises, focus, switch_space, false, sur) {
            self.key_candidate(sur)
        } else {
            None
        }
    }

    /// Follows a response of the layout, after trying to focus an untracked
    /// window if that is what it comes to.
    pub fn respond(
        &self,
        response: EventResponse,
        switch_space: Option<SpaceId>,
        sur: &Surroundings,
    ) -> (r: Vec<Task>)
        requires
            self.wf(),
            sur.wf(),
        ensures
            r@.len() == 1,
            match self.key_window_to_try(
                response.raise_windows@,
                response.focus_window,
                switch_space,
                *sur,
            ) {
                Some((pid, window)) => r@[0] == Task::Ask(
                    Question::KeyWindow { pid, window },
                    Work::KeyWindowTried(response, switch_space),
                ),
                None => r@[0] == Task::Go(Work::KeyWindowTried(response, switch_space)),
            },
    {
        if self.is_in_drag() {
            return one_task(Task::Go(Work::KeyWindowTried(response, switch_space)));
        }
        let made: FocusChoice = self.choose_focus(&response, switch_space, true, sur);
        let failed: FocusChoice = self.choose_focus(&response, switch_space, false, sur);
        if made == failed {
            return one_task(Task::Go(Work::KeyWindowTried(response, switch_space)));
        }
        match self.untracked_window_under_cursor(sur) {
            Some((pid, window)) => one_task(
                Task::Ask(
                    Question::KeyWindow { pid, window },
                    Work::KeyWindowTried(response, switch_space),
                ),
            ),
            None => one_task(Task::Go(Work::KeyWindowTried(response, switch_space))),
        }
    }

    /// Whether a window chosen for the focus can be focused: it is visible,
    /// where that matters, and on a managed space.
    pub open spec fn may_focus(&self, wid: WindowId, must_be_visible: bool, sur: Surroundings) -> bool {
        match self.window_manager.window_spec(wid) {
            Some(w) => match w.sys_id {
                Some(wsid) => (must_be_visible ==> self.window_manager.visible_windows@.contains(
                    wsid,
                )) && (self.intended_space(wid, w, sur) matches Some(space) && self.is_active(
                    space,
                )),
                None => true,
            },
            None => true,
        }
    }

    pub(crate) fn can_focus(&self, wid: WindowId, must_be_visible: bool, sur: &Surroundings) -> (r: bool)
        requires
            self.wf(),
        ensures
            r == self.may_focus(wid, must_be_visible, *sur),
    {
        match self.window_manager.window(wid) {
            Some(w) => match w.sys_id {
                Some(wsid) => {
                    if must_be_visible && !self.window_manager.visible_windows.contains(wsid) {
                        return false;
                    }
                    match self.intended_space_for_window_state(wid, &w, sur) {
                        Some(space) => self.is_space_active(space),
                        None => false,
                    }
                },
                None => true,
            },
            None => true,
        }
    }

    /// What a window is grouped by when windows are raised.
    pub open spec fn raise_key(&self, wid: WindowId, sur: Surroundings) -> (pid_t, Option<SpaceId>) {
        (wid.pid, self.intended_space_of(wid, sur))
    }

    /// The windows on managed spaces.
    pub open spec fn raisable(&self, windows: Seq<WindowId>, sur: Surroundings) -> Seq<WindowId> {
        windows.filter(|w: WindowId| self.on_active_space(w, sur))
    }

    /// The known applications among those of some windows.
    pub open spec fn known_apps(&self, windows: Seq<WindowId>) -> Set<pid_t> {
        Set::new(
            |pid: pid_t|
                self.app_manager.apps@.contains_key(pid) && exists|i: int|
                    0 <= i < windows.len() && (#[trigger] windows[i]).pid == pid,
        )
    }
}

pub open spec fn nested(groups: Seq<Vec<WindowId>>) -> Seq<Seq<WindowId>> {
    groups.map_values(|g: Vec<WindowId>| g@)
}

/// Whether `groups` are the windows sorted into classes of one key each, in
/// the order they had; the classes come in no particular order.
pub open spec fn is_grouping<K>(
    groups: Seq<Seq<WindowId>>,
    windows: Seq<WindowId>,
    key: spec_fn(WindowId) -> K,
) -> bool {
    &&& forall|g: int|
        0 <= g < groups.len() ==> (#[trigger] groups[g]).len() > 0 && groups[g] == class_of(
            windows,
            key,
            key(groups[g][0]),
        )
    &&& forall|g: int, h: int|
        0 <= g < h < groups.len() ==> key((#[trigger] groups[g])[0]) != key(
            (#[trigger] groups[h])[0],
        )
    &&& forall|i: int|
        0 <= i < windows.len() ==> has_class(groups, key, key(#[trigger] windows[i]))
}

pub open spec fn has_class<K>(
    groups: Seq<Seq<WindowId>>,
    key: spec_fn(WindowId) -> K,
    k: K,
) -> bool {
    exists|g: int| 0 <= g < groups.len() && key((#[trigger] groups[g])[0]) == k
}


/// The windows with a key.
pub open spec fn class_of<K>(
    windows: Seq<WindowId>,
    key: spec_fn(WindowId) -> K,
    k: K,
) -> Seq<WindowId> {
    windows.filter(|w: WindowId| key(w) == k)
}

/// The position of a key among those seen.
fn class_index(keys: &Vec<(pid_t, Option<SpaceId>)>, key: (pid_t, Option<SpaceId>)) -> (r: Option<
    usize,
>)
    ensures
        match r {
            Some(i) => i < keys@.len() && keys@[i as int] == key,
            None => !keys@.contains(key),
        },
{
    let mut i: usize = 0;
    while i < keys.len()
        invariant
            i <= keys@.len(),
            forall|j: int| 0 <= j < i ==> #[trigger] keys@[j] != key,
        decreases keys@.len() - i,
    {
        let seen: (pid_t, Option<SpaceId>) = keys[i];
        let same_space: bool = match (seen.1, key.1) {
            (Some(a), Some(b)) => a == b,
            (None, None) => true,
            _ => false,
        };
        if seen.0 == key.0 && same_space {
            return Some(i);
        }
        i += 1;
    }
    None
}

/// A filtered list grows by the windows that pass, and only by them.
proof fn lemma_filter_step(windows: Seq<WindowId>, i: int, pred: spec_fn(WindowId) -> bool)
    requires
        0 <= i < windows.len(),
    ensures
        windows.take(i + 1).filter(pred) == if pred(windows[i]) {
            windows.take(i).filter(pred).push(windows[i])
        } else {
            windows.take(i).filter(pred)
        },
{
    reveal(Seq::filter);
    assert(windows.take(i + 1).drop_last() =~= windows.take(i));
}

/// A class grows by a window with its key, and only then.
proof fn lemma_class_step<K>(
    windows: Seq<WindowId>,
    i: int,
    key: spec_fn(WindowId) -> K,
    k: K,
)
    requires
        0 <= i < windows.len(),
    ensures
        class_of(windows.take(i + 1), key, k) == if key(windows[i]) == k {
            class_of(windows.take(i), key, k).push(windows[i])
        } else {
            class_of(windows.take(i), key, k)
        },
{
    lemma_filter_step(windows, i, |w: WindowId| key(w) == k);
}

/// A key of no window so far has an empty class.
proof fn lemma_empty_class<K>(windows: Seq<WindowId>, i: int, key: spec_fn(WindowId) -> K, k: K)
    requires
        0 <= i <= windows.len(),
        forall|j: int| 0 <= j < i ==> key(#[trigger] windows[j]) != k,
    ensures
        class_of(windows.take(i), key, k) == Seq::<WindowId>::empty(),
    decreases i,
{
    if i > 0 {
        lemma_empty_class(windows, i - 1, key, k);
        lemma_class_step(windows, i - 1, key, k);
    } else {
        reveal(Seq::filter);
        assert(class_of(windows.take(0), key, k) =~= Seq::<WindowId>::empty());
    }
}

impl Reactor {
    /// Sorts windows into classes by application and space.
    pub(crate) fn group_for_raising(&self, windows: &Vec<WindowId>, sur: &Surroundings) -> (r: Vec<
        Vec<WindowId>,
    >)
        requires
            self.wf(),
        ensures
            is_grouping(nested(r@), windows@, |w: WindowId| self.raise_key(w, *sur)),
    {
        let ghost key = |w: WindowId| self.raise_key(w, *sur);
        let ghost all = windows@;
        let mut groups: Vec<Vec<WindowId>> = Vec::new();
        let mut keys: Vec<(pid_t, Option<SpaceId>)> = Vec::new();
        let mut i: usize = 0;
        while i < windows.len()
            invariant
                self.wf(),
                i <= windows@.len(),
                all == windows@,
                key == (|w: WindowId| self.raise_key(w, *sur)),
                groups@.len() == keys@.len(),
                keys@.no_duplicates(),
                forall|g: int|
                    0 <= g < groups@.len() ==> (#[trigger] groups@[g])@.len() > 0 && groups@[g]@
                        == class_of(all.take(i as int), key, keys@[g]),
                forall|j: int| 0 <= j < i ==> keys@.contains(key(#[trigger] all[j])),
                forall|g: int|
                    0 <= g < keys@.len() ==> exists|j: int|
                        0 <= j < i && key(#[trigger] all[j]) == #[trigger] keys@[g],
            decreases windows@.len() - i,
        {
            let wid: WindowId = windows[i];
            let k: (pid_t, Option<SpaceId>) = (
                wid.pid,
                self.intended_space_for_window_id(wid, sur),
            );
            assert(k == key(wid));
            let ghost old_groups = groups@;
            let ghost old_keys = keys@;
            proof {
                assert forall|g: int| 0 <= g < old_keys.len() implies class_of(all.take(i + 1), key, old_keys[g]) == if key(wid) == #[trigger] old_keys[g] {
                    class_of(all.take(i as int), key, old_keys[g]).push(wid)
                } else {
                    class_of(all.take(i as int), key, old_keys[g])
                } by {
                    lemma_class_step(all, i as int, key, old_keys[g]);
                }
            }
            match class_index(&keys, k) {
                Some(g) => {
                    let mut group: Vec<WindowId> = Vec::new();
                    std::mem::swap(&mut groups[g], &mut group);
                    group.push(wid);
                    groups[g] = group;
                    proof {
                        assert(keys@ == old_keys);
                        assert forall|h: int| 0 <= h < groups@.len() implies (
                        #[trigger] groups@[h])@.len() > 0 && groups@[h]@ == class_of(all.take(i + 1), key, keys@[h]) by {
                            assert(old_groups[h]@ == class_of(all.take(i as int), key, old_keys[h]));
                            if h == g {
                                assert(groups@[h]@ == old_groups[h]@.push(wid));
                            } else {
                                assert(old_keys[h] != old_keys[g as int]);
                                assert(groups@[h] == old_groups[h]);
                            }
                        }
                    }
                },
                None => {
                    proof {
                        assert forall|j: int| 0 <= j < i implies key(#[trigger] all[j]) != k by {
                            assert(old_keys.contains(key(all[j])));
                        }
                        lemma_empty_class(all, i as int, key, k);
                        lemma_class_step(all, i as int, key, k);
                    }
                    let mut group: Vec<WindowId> = Vec::new();
                    group.push(wid);
                    let ghost class = group@;
                    groups.push(group);
                    keys.push(k);
                    proof {
                        assert(class =~= Seq::<WindowId>::empty().push(wid));
                        assert forall|h: int| 0 <= h < groups@.len() implies (
                        #[trigger] groups@[h])@.len() > 0 && groups@[h]@ == class_of(all.take(i + 1), key, keys@[h]) by {
                            if h < old_groups.len() {
                                assert(groups@[h] == old_groups[h]);
                                assert(old_groups[h]@ == class_of(all.take(i as int), key, old_keys[h]));
                                assert(keys@[h] == old_keys[h]);
                                assert(old_keys.contains(old_keys[h]));
                            } else {
                                assert(keys@[h] == k);
                                assert(groups@[h]@ == class);
                            }
                        }
                    }
                },
            }
            proof {
                assert forall|j: int| 0 <= j < i + 1 implies keys@.contains(
                    key(#[trigger] all[j]),
                ) by {
                    if j < i {
                        assert(old_keys.contains(key(all[j])));
                        let g = choose|g: int| 0 <= g < old_keys.len() && old_keys[g] == key(all[j]);
                        assert(keys@[g] == key(all[j]));
                    } else {
                        if old_keys.contains(k) {
                            let g = choose|g: int| 0 <= g < old_keys.len() && old_keys[g] == k;
                            assert(keys@[g] == k);
                        } else {
                            assert(keys@[keys@.len() - 1] == k);
                        }
                    }
                }
                assert forall|g: int| 0 <= g < keys@.len() implies exists|j: int|
                    0 <= j < i + 1 && key(#[trigger] all[j]) == #[trigger] keys@[g] by {
                    if g < old_keys.len() {
                        let j = choose|j: int| 0 <= j < i && key(#[trigger] all[j]) == old_keys[g];
                        assert(key(all[j]) == keys@[g]);
                    } else {
                        assert(key(all[i as int]) == keys@[g]);
                    }
                }
            }
            i += 1;
        }
        proof {
            assert(all.take(i as int) =~= all);
            let found = nested(groups@);
            assert forall|g: int| 0 <= g < found.len() implies key(
                (#[trigger] found[g])[0],
            ) == keys@[g] && found[g] == groups@[g]@ by {
                assert(groups@[g]@.len() > 0);
                lemma_filter_members(all, |w: WindowId| key(w) == keys@[g]);
                assert(groups@[g]@ == class_of(all, key, keys@[g]));
                assert(groups@[g]@.contains(groups@[g]@[0]));
                assert(key(groups@[g]@[0]) == keys@[g]);
            }
            assert forall|g: int| 0 <= g < found.len() implies (#[trigger] found[g]).len() > 0
                && found[g] == class_of(all, key, key(found[g][0])) by {
                assert(groups@[g]@ == class_of(all, key, keys@[g]));
                assert(key(found[g][0]) == keys@[g]);
            }
            assert forall|j: int| 0 <= j < all.len() implies has_class(
                found,
                key,
                key(#[trigger] all[j]),
            ) by {
                assert(keys@.contains(key(all[j])));
                let g = choose|g: int| 0 <= g < keys@.len() && keys@[g] == key(all[j]);
                assert(key(found[g][0]) == keys@[g]);
            }
        }
        groups
    }

    /// The windows on managed spaces.
    pub(crate) fn filter_raisable(&self, windows: &Vec<WindowId>, sur: &Surroundings) -> (r: Vec<WindowId>)
        requires
            self.wf(),
        ensures
            r@ == self.raisable(windows@, *sur),
    {
        let ghost pred = |w: WindowId| self.on_active_space(w, *sur);
        let ghost all = windows@;
        let mut r: Vec<WindowId> = Vec::new();
        let mut i: usize = 0;
        proof {
            reveal(Seq::filter);
            assert(all.take(0).filter(pred) =~= Seq::<WindowId>::empty());
        }
        while i < windows.len()
            invariant
                self.wf(),
                i <= windows@.len(),
                all == windows@,
                pred == (|w: WindowId| self.on_active_space(w, *sur)),
                r@ == all.take(i as int).filter(pred),
            decreases windows@.len() - i,
        {
            proof {
                lemma_filter_step(all, i as int, pred);
            }
            if self.is_window_on_active_space(windows[i], sur) {
                r.push(windows[i]);
            }
            i += 1;
        }
        assert(all.take(i as int) =~= all);
        r
    }

    /// The known applications of some windows and of one more, each once.
    pub(crate) fn apps_of(&self, windows: &Vec<WindowId>, focus: Option<WindowId>) -> (r: Vec<pid_t>)
        ensures
            r@.no_duplicates(),
            r@.to_set() == self.known_apps(with_focus(windows@, focus)),
    {
        let ghost all = with_focus(windows@, focus);
        let mut apps: Vec<pid_t> = Vec::new();
        let mut i: usize = 0;
        while i < windows.len()
            invariant
                i <= windows@.len(),
                all == with_focus(windows@, focus),
                apps@.no_duplicates(),
                forall|pid: pid_t| #[trigger]
                    apps@.contains(pid) <==> self.known_apps(all.take(i as int)).contains(pid),
            decreases windows@.len() - i,
        {
            let ghost before = apps@;
            self.add_app(&mut apps, windows[i].pid);
            proof {
                self.lemma_known_apps_step(all, i as int);
            }
            i += 1;
        }
        if let Some(wid) = focus {
            proof {
                assert(all[i as int] == wid);
                self.lemma_known_apps_step(all, i as int);
            }
            self.add_app(&mut apps, wid.pid);
        }
        proof {
            if focus is Some {
                assert(all.take(i + 1) =~= all);
            } else {
                assert(all.take(i as int) =~= all);
            }
            assert(apps@.to_set() =~= self.known_apps(all));
        }
        apps
    }

    proof fn lemma_known_apps_step(&self, all: Seq<WindowId>, i: int)
        requires
            0 <= i < all.len(),
        ensures
            forall|pid: pid_t|
                self.known_apps(all.take(i + 1)).contains(pid) <==> self.known_apps(
                    all.take(i),
                ).contains(pid) || (pid == all[i].pid && self.app_manager.apps@.contains_key(pid)),
    {
        let next = all.take(i + 1);
        let prev = all.take(i);
        assert forall|pid: pid_t|
            self.known_apps(next).contains(pid) <==> self.known_apps(prev).contains(pid) || (pid
                == all[i].pid && self.app_manager.apps@.contains_key(pid)) by {
            if self.known_apps(next).contains(pid) {
                let j = choose|j: int| 0 <= j < next.len() && (#[trigger] next[j]).pid == pid;
                if j < i {
                    assert(prev[j].pid == pid);
                }
            }
            if self.known_apps(prev).contains(pid) {
                let j = choose|j: int| 0 <= j < prev.len() && (#[trigger] prev[j]).pid == pid;
                assert(next[j].pid == pid);
            }
            if pid == all[i].pid {
                assert(next[i].pid == pid);
            }
        }
    }

    /// Adds an application if it is known and not listed yet.
    fn add_app(&self, apps: &mut Vec<pid_t>, pid: pid_t)
        requires
            old(apps)@.no_duplicates(),
        ensures
            final(apps)@.no_duplicates(),
            forall|p: pid_t| #[trigger]
                final(apps)@.contains(p) <==> old(apps)@.contains(p) || (p == pid
                    && self.app_manager.apps@.contains_key(p)),
    {
        if !self.app_manager.apps.contains_key(pid) {
            return;
        }
        let mut i: usize = 0;
        while i < apps.len()
            invariant
                i <= apps@.len(),
                apps@ == old(apps)@,
                old(apps)@.no_duplicates(),
                forall|j: int| 0 <= j < i ==> #[trigger] apps@[j] != pid,
            decreases apps@.len() - i,
        {
            if apps[i] == pid {
                assert(apps@.contains(pid));
                return;
            }
            i += 1;
        }
        apps.push(pid);
        proof {
            assert forall|p: pid_t| #[trigger]
                apps@.contains(p) <==> old(apps)@.contains(p) || p == pid by {
                if old(apps)@.contains(p) {
                    let j = choose|j: int| 0 <= j < old(apps)@.len() && old(apps)@[j] == p;
                    assert(apps@[j] == p);
                }
                if p == pid {
                    assert(apps@[apps@.len() - 1] == p);
                }
            }
        }
    }
}

/// Some windows and one more.
pub open spec fn with_focus(windows: Seq<WindowId>, focus: Option<WindowId>) -> Seq<WindowId> {
    match focus {
        Some(wid) => windows.push(wid),
        None => windows,
    }
}

/// A window that the layout names is the one to focus, whatever is under the
/// cursor and whichever switch is under way.
pub proof fn law_layouts_focus_comes_first(
    m: Reactor,
    raises: Seq<WindowId>,
    window: WindowId,
    switch_space: Option<SpaceId>,
    key_made: bool,
    sur: Surroundings,
)
    ensures
        m.focus_choice(raises, Some(window), switch_space, key_made, sur).focus == Some(window),
        m.focus_choice(raises, Some(window), switch_space, key_made, sur).warp is None,
        raises.len() > 0 ==> m.focus_choice(raises, None, switch_space, key_made, sur).focus is None
            && m.focus_choice(raises, None, switch_space, key_made, sur).warp is None,
        m.key_window_to_try(raises, Some(window), switch_space, sur) is None,
{
}

/// A response that names nothing, outside a switch and with no refocus
/// awaited, leaves the focus and the cursor alone.
pub proof fn law_response_without_windows_changes_no_focus(
    m: Reactor,
    switch_space: Option<SpaceId>,
    key_made: bool,
    sur: Surroundings,
)
    requires
        m.workspace_switch_manager.workspace_switch_state == WorkspaceSwitchState::Inactive,
        m.refocus_manager.refocus_state == RefocusState::Idle,
    ensures
        ({
            let choice = m.focus_choice(Seq::empty(), None, switch_space, key_made, sur);
            choice.focus is None && choice.warp is None && !choice.handled && choice.pending is None
        }),
{
}

/// A refocus that is awaited on a space focuses the window that was last
/// focused there; without one, the tracked window under the cursor, or an
/// untracked one that could be made key, or the cursor goes to the space if
/// it follows the focus.
pub proof fn law_awaited_refocus_goes_to_the_last_focused_window(
    m: Reactor,
    space: SpaceId,
    switch_space: Option<SpaceId>,
    key_made: bool,
    wsid: WindowServerId,
    i: int,
    sur: Surroundings,
)
    requires
        m.workspace_switch_manager.workspace_switch_state == WorkspaceSwitchState::Inactive,
        m.refocus_manager.refocus_state == RefocusState::Pending(space),
    ensures
        ({
            let choice = m.focus_choice(Seq::empty(), None, switch_space, key_made, sur);
            let last = m.last_focused(space, sur);
            let known = sur.window_under_cursor == Some(wsid)
                && m.window_manager.window_ids@.contains_key(wsid);
            &&& choice.pending is None
            &&& last is Some ==> choice.focus == last && choice.warp is None
            &&& last is None && known ==> choice.focus == Some(
                m.window_manager.window_ids@[wsid],
            ) && choice.warp is None
            &&& last is None && sur.window_under_cursor is None ==> choice.focus is None && (
            choice.warp is Some ==> m.config.settings.mouse_follows_focus)
            &&& last is None && sur.window_under_cursor is None
                && m.config.settings.mouse_follows_focus && 0 <= i < m.space_manager.screens@.len()
                && m.space_manager.screens@[i].space == Some(space) && (forall|j: int|
                0 <= j < i ==> (#[trigger] m.space_manager.screens@[j]).space != Some(space))
                ==> choice.warp == Some(m.space_manager.screens@[i].frame.middle())
                && choice.handled
        }),
{
    law_screen_of_a_space_is_the_first_that_shows_it(m.space_manager.screens@, space, i);
}

/// While a switch to a workspace is under way, a window under the cursor is
/// focused only if it is on the switched space and its workspace, and not if
/// it is the main window already. Where there is none, the cursor goes to
/// the space, if it follows the focus.
pub proof fn law_switch_focuses_only_windows_of_its_workspace(
    m: Reactor,
    space: SpaceId,
    key_made: bool,
    i: int,
    sur: Surroundings,
)
    requires
        m.workspace_switch_manager.workspace_switch_state == WorkspaceSwitchState::Active,
    ensures
        ({
            let choice = m.focus_choice(Seq::empty(), None, Some(space), key_made, sur);
            &&& choice.focus matches Some(wid) ==> m.under_cursor(sur) == Some(wid)
                && m.best_space_of(wid, sur) == Some(space) && m.shown_workspace(space) is Some
                && m.assigned_workspace(wid) == m.shown_workspace(space)
                && m.main_window_tracker@.main_window() != Some(wid)
            &&& choice.warp is Some ==> m.config.settings.mouse_follows_focus && choice.focus
                is None
            &&& sur.window_under_cursor is None && m.config.settings.mouse_follows_focus && 0 <= i
                < m.space_manager.screens@.len() && m.space_manager.screens@[i].space == Some(space)
                && (forall|j: int|
                0 <= j < i ==> (#[trigger] m.space_manager.screens@[j]).space != Some(space))
                ==> choice.warp == Some(m.space_manager.screens@[i].frame.middle())
            &&& choice.pending == match m.refocus_manager.refocus_state {
                RefocusState::Pending(s) => Some(s),
                RefocusState::Idle => None,
            }
        }),
{
    law_screen_of_a_space_is_the_first_that_shows_it(m.space_manager.screens@, space, i);
}

/// Only an ordinary window under the cursor that the reactor does not track
/// is made key.
pub proof fn law_only_untracked_ordinary_windows_are_made_key(
    m: Reactor,
    wsid: WindowServerId,
    pid: pid_t,
    sur: Surroundings,
)
    ensures
        m.key_candidate(sur) == Some((pid, wsid)) <==> {
            &&& sur.window_under_cursor == Some(wsid)
            &&& !m.window_manager.window_ids@.contains_key(wsid)
            &&& if m.window_manager.window_server_info@.contains_key(wsid) {
                m.window_manager.window_server_info@[wsid].layer == 0
                    && m.window_manager.window_server_info@[wsid].pid == pid
            } else {
                sur.server_windows@.contains_key(wsid) && sur.server_windows@[wsid].layer == 0
                    && sur.server_windows@[wsid].pid == pid
            }
        },
{
}

/// The last focused window of a space is the last tiled one of the workspace
/// that the space shows, as long as it is tracked, still on the space and
/// visible.
pub proof fn law_last_focused_window_is_still_there(
    m: Reactor,
    space: SpaceId,
    wid: WindowId,
    sur: Surroundings,
)
    ensures
        m.last_focused(space, sur) == Some(wid) <==> {
            &&& m.shown_workspace(space) matches Some(workspace) && m.last_tiled(workspace) == Some(
                wid,
            )
            &&& m.window_manager.windows@.contains_key(wid)
            &&& m.best_space(
                m.window_manager.windows@[wid].frame_monotonic,
                m.window_manager.windows@[wid].sys_id,
                sur,
            ) == Some(space)
            &&& m.window_manager.windows@[wid].sys_id matches Some(wsid)
                ==> m.window_manager.visible_windows@.contains(wsid)
        },
{
}

/// A tracked and numbered window can be focused only while it is meant for a
/// managed space and, outside a switch, visible.
pub proof fn law_focus_needs_a_managed_space(
    m: Reactor,
    wid: WindowId,
    wsid: WindowServerId,
    must_be_visible: bool,
    sur: Surroundings,
)
    requires
        m.window_manager.windows@.contains_key(wid),
        m.window_manager.windows@[wid].sys_id == Some(wsid),
    ensures
        m.may_focus(wid, must_be_visible, sur) <==> (!must_be_visible
            || m.window_manager.visible_windows@.contains(wsid)) && (m.intended_space_of(
            wid,
            sur,
        ) matches Some(space) && m.active_spaces@.contains(space)),
{
}

/// Windows raised together are of one application and one space, keep their
/// order, and none is left out or raised that was not asked for.
pub proof fn law_raised_windows_are_grouped(
    m: Reactor,
    groups: Seq<Seq<WindowId>>,
    windows: Seq<WindowId>,
    sur: Surroundings,
    g: int,
    a: int,
    b: int,
    w: WindowId,
)
    requires
        is_grouping(groups, windows, |w: WindowId| m.raise_key(w, sur)),
        0 <= g < groups.len(),
        0 <= a < groups[g].len(),
        0 <= b < groups[g].len(),
    ensures
        groups[g][a].pid == groups[g][b].pid,
        m.intended_space_of(groups[g][a], sur) == m.intended_space_of(groups[g][b], sur),
        windows.contains(groups[g][a]),
        windows.contains(w) ==> exists|h: int|
            0 <= h < groups.len() && (#[trigger] groups[h]).contains(w),
{
    let key = |w: WindowId| m.raise_key(w, sur);
    let k = key(groups[g][0]);
    lemma_class_members(windows, key, k);
    assert(class_of(windows, key, k) == groups[g]);
    assert(groups[g].contains(groups[g][a]));
    assert(groups[g].contains(groups[g][b]));
    assert(key(groups[g][a]) == k);
    assert(key(groups[g][b]) == k);
    if windows.contains(w) {
        let i = windows.index_of(w);
        assert(has_class(groups, key, key(windows[i])));
        let h = choose|h: int| 0 <= h < groups.len() && key((#[trigger] groups[h])[0]) == key(w);
        let kh = key(groups[h][0]);
        assert(groups[h] == class_of(windows, key, kh));
        lemma_class_members(windows, key, kh);
        assert(groups[h].contains(w));
    }
}

proof fn lemma_class_members<K>(windows: Seq<WindowId>, key: spec_fn(WindowId) -> K, k: K)
    ensures
        forall|w: WindowId| #[trigger]
            class_of(windows, key, k).contains(w) <==> windows.contains(w) && key(w) == k,
{
    lemma_filter_members(windows, |w: WindowId| key(w) == k);
}

/// Only windows meant for managed spaces are raised.
pub proof fn law_only_windows_on_managed_spaces_are_raised(
    m: Reactor,
    windows: Seq<WindowId>,
    w: WindowId,
    sur: Surroundings,
)
    ensures
        m.raisable(windows, sur).contains(w) <==> windows.contains(w) && (m.intended_space_of(
            w,
            sur,
        ) matches Some(space) && m.active_spaces@.contains(space)),
{
    lemma_filter_members(windows, |w: WindowId| m.on_active_space(w, sur));
}

} // verus!
