//! Bringing windows up to date with what their application says.

use vstd::prelude::*;

use crate::app::WindowId;
use crate::collections::lemma_filter_members;
use crate::event::WindowInfo;
use crate::ids::{pid_t, SpaceId, WindowServerId};
use crate::model::WorkspaceId;
use crate::reactor::events::window::{details_of, is_described_by};
use crate::reactor::events::window_discovery::WindowDiscoveryHandler;
use crate::reactor::managers::{WindowDetails, WindowManager, WindowState};
use crate::reactor::registry::{compute_window_manageability, manageable, server_state_removed};
use crate::reactor::rules::asks_rules;
use crate::reactor::surroundings::Surroundings;
use crate::reactor::task::{no_tasks, one_task, LayoutEvent, Message, Task, Work};
use crate::reactor::transition::contains_window;
use crate::reactor::Reactor;

verus! {

/// What was under a window's old number is forgotten if the number is another
/// now.
pub open spec fn released(
    before: WindowManager,
    after: WindowManager,
    wid: WindowId,
    from: Option<WindowServerId>,
    to: Option<WindowServerId>,
) -> bool {
    if from is Some && from != to && before.tracked_spec(from->0) == Some(wid) {
        server_state_removed(before, after, from->0)
    } else {
        after == before
    }
}

/// A window goes from one number of the window server to another: what was
/// under the old one is forgotten if it was this window's.
pub open spec fn renumbered(
    before: WindowManager,
    after: WindowManager,
    wid: WindowId,
    from: Option<WindowServerId>,
    to: Option<WindowServerId>,
) -> bool {
    exists|middle: WindowManager|
        {
            &&& #[trigger] released(before, middle, wid, from, to)
            &&& match to {
                Some(wsid) => after.window_ids@ == middle.window_ids@.insert(wsid, wid) && after
                    == (WindowManager { window_ids: after.window_ids, ..middle }),
                None => after == middle,
            }
        }
}

/// The kind of work that follows from a change in whether a window is
/// minimized.
pub open spec fn minimize_tasks(wid: WindowId, before: bool, after: bool) -> Seq<Task> {
    if !before && after {
        seq![Task::Go(Work::WindowMinimized(wid))]
    } else if before && !after {
        seq![Task::Go(Work::WindowDeminiaturized(wid))]
    } else {
        Seq::empty()
    }
}

/// A window's state after its application described it. Whether it is
/// minimized is dealt with apart, if that changed.
pub open spec fn state_synced(w: WindowState, info: WindowInfo, m: WindowManager) -> WindowState {
    WindowState {
        frame_monotonic: if info.frame.size.width != 0 || info.frame.size.height != 0 {
            info.frame
        } else {
            w.frame_monotonic
        },
        is_standard: info.is_standard,
        is_root: info.is_root,
        sys_id: info.sys_id,
        is_manageable: if w.is_minimized == info.is_minimized {
            manageable(
                info.is_minimized,
                info.is_standard,
                info.is_root,
                m.server_info(info.sys_id),
            )
        } else {
            w.is_manageable
        },
        ..w
    }
}

impl WindowDiscoveryHandler {
    fn sync_window_server_id_mapping(
        manager: &mut WindowManager,
        wid: WindowId,
        old_sys_id: Option<WindowServerId>,
        new_sys_id: Option<WindowServerId>,
    )
        requires
            old(manager).wf(),
        ensures
            final(manager).wf(),
            renumbered(*old(manager), *final(manager), wid, old_sys_id, new_sys_id),
            final(manager).windows == old(manager).windows,
            final(manager).details == old(manager).details,
    {
        let ghost before = *manager;
        let changed: bool = match (old_sys_id, new_sys_id) {
            (Some(a), Some(b)) => a != b,
            (None, None) => false,
            _ => true,
        };
        if changed {
            if let Some(old_wsid) = old_sys_id {
                let own: bool = match manager.tracked_window_id(old_wsid) {
                    Some(w) => w == wid,
                    None => false,
                };
                if own {
                    let _ = manager.remove_window_server_state(old_wsid);
                }
            }
        }
        let ghost middle = *manager;
        assert(released(before, middle, wid, old_sys_id, new_sys_id));
        if let Some(new_wsid) = new_sys_id {
            manager.track_window_server_id(new_wsid, wid);
        }
    }

    /// Brings a known window up to date.
    pub fn sync_existing_window_state(reactor: &mut Reactor, wid: WindowId, info: &WindowInfo) -> (r:
        Vec<Task>)
        requires
            old(reactor).wf(),
            info.frame.in_range(),
        ensures
            final(reactor).wf(),
            *final(reactor) == (Reactor {
                window_manager: final(reactor).window_manager,
                ..*old(reactor)
            }),
            ({
                let before = old(reactor).window_manager;
                let after = final(reactor).window_manager;
                match before.window_spec(wid) {
                    Some(w) => {
                        &&& exists|mapped: WindowManager|
                            {
                                &&& #[trigger] renumbered(
                                    before,
                                    mapped,
                                    wid,
                                    w.sys_id,
                                    info.sys_id,
                                )
                                &&& after.windows@ == before.windows@.insert(
                                    wid,
                                    state_synced(w, *info, mapped),
                                )
                                &&& after == (WindowManager {
                                    windows: after.windows,
                                    details: after.details,
                                    ..mapped
                                })
                            }
                        &&& after.windows.order() == before.windows.order()
                        &&& after.details@.contains_key(wid) && is_described_by(
                            after.details@[wid],
                            *info,
                        )
                        &&& after.details@.remove(wid) == before.details@.remove(wid)
                        &&& r@ == minimize_tasks(wid, w.is_minimized, info.is_minimized)
                    },
                    None => r@.len() == 0 && after == before,
                }
            }),
    {
        let w: WindowState = match reactor.window_manager.window(wid) {
            Some(w) => w,
            None => {
                return no_tasks();
            },
        };
        Self::sync_window_server_id_mapping(
            &mut reactor.window_manager,
            wid,
            w.sys_id,
            info.sys_id,
        );
        let ghost mapped = reactor.window_manager;
        let fits: bool = compute_window_manageability(
            info.is_minimized,
            info.is_standard,
            info.is_root,
            reactor.window_manager.server_info_of(info.sys_id),
        );
        let state: WindowState = WindowState {
            frame_monotonic: if info.frame.size.width != 0 || info.frame.size.height != 0 {
                info.frame
            } else {
                w.frame_monotonic
            },
            is_standard: info.is_standard,
            is_root: info.is_root,
            sys_id: info.sys_id,
            is_manageable: if w.is_minimized == info.is_minimized {
                fits
            } else {
                w.is_manageable
            },
            ..w
        };
        let details: WindowDetails = details_of(info);
        reactor.window_manager.insert_window(wid, state, details);
        proof {
            assert(reactor.window_manager.details@.remove(wid)
                =~= old(reactor).window_manager.details@.remove(wid));
            assert(renumbered(old(reactor).window_manager, mapped, wid, w.sys_id, info.sys_id));
        }
        if !w.is_minimized && info.is_minimized {
            one_task(Task::Go(Work::WindowMinimized(wid)))
        } else if w.is_minimized && !info.is_minimized {
            one_task(Task::Go(Work::WindowDeminiaturized(wid)))
        } else {
            no_tasks()
        }
    }

    /// Puts a window under the number that the window server gave it.
    pub fn map_window(reactor: &mut Reactor, wid: WindowId, wsid: Option<WindowServerId>)
        requires
            old(reactor).wf(),
        ensures
            final(reactor).wf(),
            *final(reactor) == (Reactor {
                window_manager: WindowManager {
                    window_ids: final(reactor).window_manager.window_ids,
                    ..old(reactor).window_manager
                },
                ..*old(reactor)
            }),
            final(reactor).window_manager.window_ids@ == match wsid {
                Some(w) => old(reactor).window_manager.window_ids@.insert(w, wid),
                None => old(reactor).window_manager.window_ids@,
            },
    {
        if let Some(w) = wsid {
            reactor.window_manager.track_window_server_id(w, wid);
        }
    }

    /// Takes a new window in.
    pub fn insert_window(reactor: &mut Reactor, wid: WindowId, info: &WindowInfo)
        requires
            old(reactor).wf(),
            info.frame.in_range(),
        ensures
            final(reactor).wf(),
            final(reactor).window_manager.windows@ == old(reactor).window_manager.windows@.insert(
                wid,
                old(reactor).window_manager.state_of(*info),
            ),
            final(reactor).window_manager.details@.contains_key(wid) && is_described_by(
                final(reactor).window_manager.details@[wid],
                *info,
            ),
            final(reactor).window_manager.details@.remove(wid)
                == old(reactor).window_manager.details@.remove(wid),
            *final(reactor) == (Reactor {
                window_manager: WindowManager {
                    windows: final(reactor).window_manager.windows,
                    details: final(reactor).window_manager.details,
                    ..old(reactor).window_manager
                },
                ..*old(reactor)
            }),
    {
        let state: WindowState = reactor.window_manager.new_state(info);
        let details: WindowDetails = details_of(info);
        reactor.window_manager.insert_window(wid, state, details);
        assert(reactor.window_manager.details@.remove(wid)
            =~= old(reactor).window_manager.details@.remove(wid));
    }
}

impl Reactor {
    /// Whether the workspace model is to be told that a window is on a space:
    /// it is not assigned, assigned elsewhere, or on the workspace in view.
    pub open spec fn emits_on(&self, space: SpaceId, wid: WindowId) -> bool {
        match self.assigned_workspace(wid) {
            Some(workspace) => self.home_space(workspace) != Some(space) || (self.shown_workspace(
                space,
            ) matches Some(shown) ==> shown == workspace),
            None => true,
        }
    }

    pub fn should_emit_window_for_space(&self, space: SpaceId, wid: WindowId) -> (r: bool)
        ensures
            r == self.emits_on(space, wid),
    {
        let workspace = match self.workspace_for_window(wid) {
            Some(workspace) => workspace,
            None => {
                return true;
            },
        };
        let at_home: bool = match self.space_for_workspace(workspace) {
            Some(home) => home == space,
            None => false,
        };
        if !at_home {
            return true;
        }
        match self.active_workspace_for_space(space) {
            Some(shown) => shown == workspace,
            None => true,
        }
    }

    /// The space that a discovered window is told to be on.
    pub open spec fn discovery_space(&self, wid: WindowId, sur: Surroundings) -> Option<SpaceId> {
        match self.focus_next_target(wid, sur.now) {
            Some(target) => Some(target.space),
            None => self.best_space_of(wid, sur),
        }
    }

    /// Whether a window of an application is told to the workspace model, on
    /// a managed space.
    pub open spec fn told_on_managed(&self, wid: WindowId, pid: pid_t, sur: Surroundings) -> bool {
        wid.pid == pid && self.layout_may_hold(wid) && (self.discovery_space(wid, sur) matches Some(
            space,
        ) && self.emits_on(space, wid) && self.is_active(space))
    }

    fn is_told_on_managed(&self, wid: WindowId, pid: pid_t, sur: &Surroundings) -> (r: bool)
        requires
            self.wf(),
        ensures
            r == self.told_on_managed(wid, pid, *sur),
    {
        if wid.pid != pid || !self.window_is_standard(wid) {
            return false;
        }
        match self.find_discovery_space(wid, sur) {
            Some(space) => self.should_emit_window_for_space(space, wid) && self.is_space_active(
                space,
            ),
            None => false,
        }
    }

    /// Whether a list of windows holds just those to be told, each once.
    pub open spec fn is_told_list(
        &self,
        list: Seq<WindowId>,
        pid: pid_t,
        known_visible: Seq<WindowId>,
        sur: Surroundings,
    ) -> bool {
        &&& list.no_duplicates()
        &&& forall|w: WindowId| #[trigger]
            list.contains(w) <==> self.told_on_managed(w, pid, sur) && (self.is_visible_window(w)
                || known_visible.contains(w))
    }

    /// Whether a window is tracked under a visible number.
    pub open spec fn is_visible_window(&self, wid: WindowId) -> bool {
        exists|wsid: WindowServerId| #[trigger]
            self.window_manager.visible_windows@.contains(wsid)
                && self.window_manager.tracked_spec(wsid) == Some(wid)
    }

    fn add_told(
        &self,
        list: &mut Vec<WindowId>,
        wid: WindowId,
        pid: pid_t,
        sur: &Surroundings,
    )
        requires
            self.wf(),
            old(list)@.no_duplicates(),
        ensures
            final(list)@.no_duplicates(),
            forall|w: WindowId| #[trigger]
                final(list)@.contains(w) <==> old(list)@.contains(w) || (w == wid
                    && self.told_on_managed(w, pid, *sur)),
    {
        if !self.is_told_on_managed(wid, pid, sur) || contains_window(list, wid) {
            return;
        }
        list.push(wid);
        proof {
            assert forall|w: WindowId| #[trigger]
                list@.contains(w) <==> old(list)@.contains(w) || w == wid by {
                if old(list)@.contains(w) {
                    let j = choose|j: int| 0 <= j < old(list)@.len() && old(list)@[j] == w;
                    assert(list@[j] == w);
                }
                assert(list@[list@.len() - 1] == wid);
            }
        }
    }

    fn find_told(&self, pid: pid_t, known_visible: &Vec<WindowId>, sur: &Surroundings) -> (r: Vec<
        WindowId,
    >)
        requires
            self.wf(),
        ensures
            self.is_told_list(r@, pid, known_visible@, *sur),
    {
        let ids: Vec<WindowServerId> = self.window_manager.visible_windows.items();
        let mut list: Vec<WindowId> = Vec::new();
        let mut i: usize = 0;
        while i < ids.len()
            invariant
                self.wf(),
                i <= ids@.len(),
                list@.no_duplicates(),
                forall|w: WindowId| #[trigger]
                    list@.contains(w) <==> self.told_on_managed(w, pid, *sur) && exists|j: int|
                        0 <= j < i && self.window_manager.tracked_spec(#[trigger] ids@[j]) == Some(
                            w,
                        ),
            decreases ids@.len() - i,
        {
            let ghost before = list@;
            let found: Option<WindowId> = self.window_manager.tracked_window_id(ids[i]);
            if let Some(wid) = found {
                self.add_told(&mut list, wid, pid, sur);
            }
            proof {
                assert forall|w: WindowId| #[trigger]
                    list@.contains(w) <==> self.told_on_managed(w, pid, *sur) && exists|j: int|
                        0 <= j < i + 1 && self.window_manager.tracked_spec(
                            #[trigger] ids@[j],
                        ) == Some(w) by {
                    if list@.contains(w) {
                        if before.contains(w) {
                            let j = choose|j: int|
                                0 <= j < i && self.window_manager.tracked_spec(
                                    #[trigger] ids@[j],
                                ) == Some(w);
                            assert(self.window_manager.tracked_spec(ids@[j]) == Some(w));
                        } else {
                            assert(self.window_manager.tracked_spec(ids@[i as int]) == Some(w));
                        }
                    }
                    if self.told_on_managed(w, pid, *sur) && exists|j: int|
                        0 <= j < i + 1 && self.window_manager.tracked_spec(
                            #[trigger] ids@[j],
                        ) == Some(w) {
                        let j = choose|j: int|
                            0 <= j < i + 1 && self.window_manager.tracked_spec(
                                #[trigger] ids@[j],
                            ) == Some(w);
                        if j < i {
                            assert(before.contains(w));
                        }
                    }
                }
            }
            i += 1;
        }
        let ghost visible = list@;
        proof {
            assert forall|w: WindowId| #[trigger] visible.contains(w) <==> self.told_on_managed(
                w,
                pid,
                *sur,
            ) && self.is_visible_window(w) by {
                if visible.contains(w) {
                    let j = choose|j: int|
                        0 <= j < ids@.len() && self.window_manager.tracked_spec(
                            #[trigger] ids@[j],
                        ) == Some(w);
                    assert(ids@.contains(ids@[j]));
                    assert(self.window_manager.visible_windows@.contains(ids@[j]));
                }
                if self.told_on_managed(w, pid, *sur) && self.is_visible_window(w) {
                    let wsid = choose|wsid: WindowServerId| #[trigger]
                        self.window_manager.visible_windows@.contains(wsid)
                            && self.window_manager.tracked_spec(wsid) == Some(w);
                    assert(ids@.contains(wsid));
                    let j = choose|j: int| 0 <= j < ids@.len() && ids@[j] == wsid;
                    assert(self.window_manager.tracked_spec(ids@[j]) == Some(w));
                }
            }
        }
        let mut k: usize = 0;
        while k < known_visible.len()
            invariant
                self.wf(),
                k <= known_visible@.len(),
                list@.no_duplicates(),
                forall|w: WindowId| #[trigger]
                    visible.contains(w) <==> self.told_on_managed(w, pid, *sur)
                        && self.is_visible_window(w),
                forall|w: WindowId| #[trigger]
                    list@.contains(w) <==> visible.contains(w) || (self.told_on_managed(
                        w,
                        pid,
                        *sur,
                    ) && known_visible@.take(k as int).contains(w)),
            decreases known_visible@.len() - k,
        {
            let ghost before = list@;
            self.add_told(&mut list, known_visible[k], pid, sur);
            proof {
                let prev = known_visible@.take(k as int);
                let next = known_visible@.take(k + 1);
                assert forall|w: WindowId| next.contains(w) <==> prev.contains(w) || w
                    == known_visible@[k as int] by {
                    if next.contains(w) {
                        let j = choose|j: int| 0 <= j < next.len() && next[j] == w;
                        if j < k {
                            assert(prev[j] == w);
                        }
                    }
                    if prev.contains(w) {
                        let j = choose|j: int| 0 <= j < prev.len() && prev[j] == w;
                        assert(next[j] == w);
                    }
                    assert(next[k as int] == known_visible@[k as int]);
                }
            }
            k += 1;
        }
        assert(known_visible@.take(k as int) =~= known_visible@);
        list
    }

    /// Whether the application has a window at all.
    pub open spec fn has_window_of(&self, pid: pid_t) -> bool {
        exists|w: WindowId| #[trigger] self.window_manager.windows@.contains_key(w) && w.pid == pid
    }

    /// Those of some windows that are told to be on a space. Each is told on
    /// the first screen that shows its space.
    pub open spec fn told_on(
        &self,
        list: Seq<WindowId>,
        earlier: Seq<SpaceId>,
        space: SpaceId,
        sur: Surroundings,
    ) -> Seq<WindowId> {
        if earlier.contains(space) {
            Seq::empty()
        } else {
            list.filter(|w: WindowId| self.discovery_space(w, sur) == Some(space))
        }
    }

    /// Whether tasks tell of an application's windows space by space, and have
    /// the layout looked at anew on each.
    pub open spec fn tells_spaces(
        &self,
        tasks: Seq<Task>,
        list: Seq<WindowId>,
        pid: pid_t,
        spaces: Seq<SpaceId>,
        sur: Surroundings,
    ) -> bool
        decreases spaces.len(),
    {
        if spaces.len() == 0 {
            tasks.len() == 0
        } else {
            &&& tasks.len() >= 2
            &&& tasks.last() == Task::Go(Work::LayoutEvent(LayoutEvent::Changed))
            &&& tasks[tasks.len() - 2] matches Task::Tell(
                Message::WindowsOnScreen { space, pid: p, windows },
            ) && space == spaces.last() && p == pid && windows@ == self.told_on(
                list,
                spaces.drop_last(),
                spaces.last(),
                sur,
            )
            &&& self.tells_spaces(
                tasks.drop_last().drop_last(),
                list,
                pid,
                spaces.drop_last(),
                sur,
            )
        }
    }

    fn find_discovery_space(&self, wid: WindowId, sur: &Surroundings) -> (r: Option<SpaceId>)
        requires
            self.wf(),
        ensures
            r == self.discovery_space(wid, *sur),
    {
        match self.focus_next_window_target_for(wid, sur.now) {
            Some(target) => Some(target.space),
            None => self.best_space_for_window_id(wid, sur),
        }
    }

    fn find_told_on(
        &self,
        list: &Vec<WindowId>,
        spaces: &Vec<SpaceId>,
        at: usize,
        sur: &Surroundings,
    ) -> (r: Vec<WindowId>)
        requires
            self.wf(),
            at < spaces@.len(),
        ensures
            r@ == self.told_on(list@, spaces@.take(at as int), spaces@[at as int], *sur),
    {
        let mut k: usize = 0;
        while k < at
            invariant
                k <= at < spaces@.len(),
                forall|j: int| 0 <= j < k ==> spaces@[j] != spaces@[at as int],
            decreases at - k,
        {
            if spaces[k] == spaces[at] {
                assert(spaces@.take(at as int)[k as int] == spaces@[at as int]);
                return Vec::new();
            }
            k += 1;
        }
        let mut r: Vec<WindowId> = Vec::new();
        let ghost pred = |w: WindowId| self.discovery_space(w, *sur) == Some(spaces@[at as int]);
        let mut i: usize = 0;
        proof {
            reveal(Seq::filter);
            assert(r@ =~= list@.take(0).filter(pred));
        }
        while i < list.len()
            invariant
                self.wf(),
                at < spaces@.len(),
                i <= list@.len(),
                pred == (|w: WindowId|
                    self.discovery_space(w, *sur) == Some(spaces@[at as int])),
                r@ == list@.take(i as int).filter(pred),
            decreases list@.len() - i,
        {
            proof {
                reveal(Seq::filter);
                assert(list@.take(i + 1).drop_last() =~= list@.take(i as int));
            }
            let here: bool = match self.find_discovery_space(list[i], sur) {
                Some(space) => space == spaces[at],
                None => false,
            };
            if here {
                r.push(list[i]);
            }
            i += 1;
        }
        assert(list@.take(i as int) =~= list@);
        r
    }

    fn plan_told(
        &self,
        list: &Vec<WindowId>,
        pid: pid_t,
        spaces: &Vec<SpaceId>,
        sur: &Surroundings,
    ) -> (r: Vec<Task>)
        requires
            self.wf(),
        ensures
            self.tells_spaces(r@, list@, pid, spaces@, *sur),
    {
        let mut tasks: Vec<Task> = no_tasks();
        let mut i: usize = 0;
        while i < spaces.len()
            invariant
                self.wf(),
                i <= spaces@.len(),
                self.tells_spaces(tasks@, list@, pid, spaces@.take(i as int), *sur),
            decreases spaces@.len() - i,
        {
            let ghost before = tasks@;
            assert(spaces@.take(i + 1).drop_last() =~= spaces@.take(i as int));
            let windows: Vec<WindowId> = self.find_told_on(list, spaces, i, sur);
            tasks.push(Task::Tell(Message::WindowsOnScreen { space: spaces[i], pid, windows }));
            tasks.push(Task::Go(Work::LayoutEvent(LayoutEvent::Changed)));
            assert(tasks@.drop_last().drop_last() =~= before);
            i += 1;
        }
        assert(spaces@.take(i as int) =~= spaces@);
        tasks
    }

    /// Tells the workspace model of an application's windows: rules are
    /// decided for those on managed spaces, it hears which are on each, and
    /// every managed space is looked at anew.
    pub fn emit_layout_events(
        &self,
        pid: pid_t,
        known_visible: &Vec<WindowId>,
        sur: &Surroundings,
    ) -> (r: Vec<Task>)
        requires
            self.wf(),
        ensures
            if !self.has_window_of(pid) {
                r@.len() == 0
            } else {
                exists|list: Seq<WindowId>|
                    {
                        let ruled = if list.len() > 0 {
                            1int
                        } else {
                            0
                        };
                        &&& #[trigger] self.is_told_list(list, pid, known_visible@, *sur)
                        &&& r@.len() >= ruled + 1
                        &&& ruled == 1 ==> asks_rules(r@[0], list)
                        &&& self.tells_spaces(
                            r@.skip(ruled).drop_last(),
                            list,
                            pid,
                            self.managed_known_spaces(),
                            *sur,
                        )
                        &&& r@.last() == Task::Go(Work::FocusMainIfManaged)
                    }
            },
    {
        let own: Vec<WindowId> = self.window_manager.window_ids_for_pid(pid);
        if own.len() == 0 {
            proof {
                assert forall|w: WindowId| #[trigger]
                    self.window_manager.windows@.contains_key(w) implies w.pid != pid by {
                    if w.pid == pid {
                        assert(own@.contains(w));
                    }
                }
            }
            return no_tasks();
        }
        assert(own@.contains(own@[0]));
        let list: Vec<WindowId> = self.find_told(pid, known_visible, sur);
        let ghost listed = list@;
        let spaces: Vec<SpaceId> = self.find_managed_known_spaces();
        let mut told: Vec<Task> = self.plan_told(&list, pid, &spaces, sur);
        let ghost middle = told@;
        let mut tasks: Vec<Task> = no_tasks();
        if list.len() > 0 {
            tasks.push(Reactor::process_windows_for_app_rules(list));
        }
        let ghost first = tasks@;
        tasks.append(&mut told);
        tasks.push(Task::Go(Work::FocusMainIfManaged));
        proof {
            assert(tasks@.skip(first.len() as int).drop_last() =~= middle);
            assert(self.is_told_list(listed, pid, known_visible@, *sur));
        }
        tasks
    }

    /// The main window has the focus if it is on a managed space.
    pub fn focus_main_if_managed(&self, sur: &Surroundings) -> (r: Vec<Task>)
        requires
            self.wf(),
        ensures
            r@ == match self.main_wid() {
                Some(main) => if self.only_active(self.main_space(*sur)) is Some {
                    seq![Task::Go(Work::LayoutEvent(LayoutEvent::WindowFocused(main)))]
                } else {
                    Seq::empty()
                },
                None => Seq::empty(),
            },
    {
        match self.main_window() {
            Some(main) => match self.main_window_space(sur) {
                Some(space) => if self.is_space_active(space) {
                    one_task(Task::Go(Work::LayoutEvent(LayoutEvent::WindowFocused(main))))
                } else {
                    no_tasks()
                },
                None => no_tasks(),
            },
            None => no_tasks(),
        }
    }
}

/// The model is told of a window on a space unless the window is assigned to
/// a workspace of that very space that is not the one in view.
pub proof fn law_hidden_windows_of_a_space_are_not_told(
    m: Reactor,
    space: SpaceId,
    wid: WindowId,
    workspace: WorkspaceId,
)
    ensures
        m.assigned_workspace(wid) is None ==> m.emits_on(space, wid),
        m.assigned_workspace(wid) == Some(workspace) && m.home_space(workspace) != Some(space)
            ==> m.emits_on(space, wid),
        m.assigned_workspace(wid) == Some(workspace) && m.home_space(workspace) == Some(space)
            && m.shown_workspace(space) is Some ==> (m.emits_on(space, wid) <==> m.shown_workspace(
            space,
        ) == Some(workspace)),
{
}

/// A window of an application is told only if the layout may hold it, it is
/// visible or known to be, and its space is managed.
pub proof fn law_told_windows_are_managed_and_visible(
    m: Reactor,
    list: Seq<WindowId>,
    pid: pid_t,
    known_visible: Seq<WindowId>,
    sur: Surroundings,
    wid: WindowId,
    wsid: WindowServerId,
    space: SpaceId,
)
    requires
        m.is_told_list(list, pid, known_visible, sur),
    ensures
        list.contains(wid) ==> wid.pid == pid && m.window_manager.windows@.contains_key(wid)
            && m.window_manager.windows@[wid].is_manageable
            && !m.window_manager.windows@[wid].ignore_app_rule && (m.discovery_space(
            wid,
            sur,
        ) matches Some(s) && m.active_spaces@.contains(s)),
        wid.pid == pid && m.window_manager.windows@.contains_key(wid)
            && m.window_manager.windows@[wid].is_manageable
            && !m.window_manager.windows@[wid].ignore_app_rule && m.discovery_space(wid, sur)
            == Some(space) && m.active_spaces@.contains(space) && m.assigned_workspace(wid) is None
            && (known_visible.contains(wid) || (m.window_manager.visible_windows@.contains(wsid)
            && m.window_manager.window_ids@.contains_key(wsid)
            && m.window_manager.window_ids@[wsid] == wid)) ==> list.contains(wid),
{
    if m.window_manager.visible_windows@.contains(wsid) && m.window_manager.window_ids@.contains_key(
        wsid,
    ) && m.window_manager.window_ids@[wsid] == wid {
        assert(m.window_manager.tracked_spec(wsid) == Some(wid));
        assert(m.is_visible_window(wid));
    }
}

/// A discovered window is told where the next window was asked for, while
/// that holds, and otherwise where it is.
pub proof fn law_discovered_window_is_told_where_it_was_asked_for(
    m: Reactor,
    wid: WindowId,
    sur: Surroundings,
)
    ensures
        m.focus_next_target(wid, sur.now) matches Some(target) ==> m.discovery_space(wid, sur)
            == Some(target.space),
        m.focus_next_target(wid, sur.now) is None && m.window_manager.windows@.contains_key(wid)
            ==> m.discovery_space(wid, sur) == m.best_space(
            m.window_manager.windows@[wid].frame_monotonic,
            m.window_manager.windows@[wid].sys_id,
            sur,
        ),
{
}

/// Each window is told on its own space, once: on the first screen that shows
/// it.
pub proof fn law_window_is_told_on_its_own_space(
    m: Reactor,
    list: Seq<WindowId>,
    earlier: Seq<SpaceId>,
    space: SpaceId,
    sur: Surroundings,
    wid: WindowId,
)
    ensures
        m.told_on(list, earlier, space, sur).contains(wid) <==> list.contains(wid)
            && m.discovery_space(wid, sur) == Some(space) && !earlier.contains(space),
{
    lemma_filter_members(list, |w: WindowId| m.discovery_space(w, sur) == Some(space));
}

/// A window that its application describes takes the description over: its
/// kind and number always, its frame unless that has neither width nor
/// height. Whether it can be managed is judged anew unless it was or is no
/// longer minimized, which is dealt with apart.
pub proof fn law_described_window_is_brought_up_to_date(
    w: WindowState,
    info: WindowInfo,
    m: WindowManager,
)
    ensures
        ({
            let s = state_synced(w, info, m);
            &&& s.is_standard == info.is_standard && s.is_root == info.is_root && s.sys_id
                == info.sys_id
            &&& info.frame.size.width != 0 || info.frame.size.height != 0 ==> s.frame_monotonic
                == info.frame
            &&& info.frame.size.width == 0 && info.frame.size.height == 0 ==> s.frame_monotonic
                == w.frame_monotonic
            &&& s.is_minimized == w.is_minimized && s.ignore_app_rule == w.ignore_app_rule
            &&& w.is_minimized != info.is_minimized ==> s.is_manageable == w.is_manageable
            &&& info.is_minimized && w.is_minimized ==> !s.is_manageable
        }),
{
}

/// A window that turns out to be minimized, or no longer so, is dealt with as
/// just that.
pub proof fn law_change_of_minimized_is_dealt_with(wid: WindowId, before: bool, after: bool)
    ensures
        before == after ==> minimize_tasks(wid, before, after).len() == 0,
        !before && after ==> minimize_tasks(wid, before, after) == seq![
            Task::Go(Work::WindowMinimized(wid)),
        ],
        before && !after ==> minimize_tasks(wid, before, after) == seq![
            Task::Go(Work::WindowDeminiaturized(wid)),
        ],
{
}

/// A window that gets another number is found under the new one, and the old
/// one no longer finds it; other windows' numbers stay.
pub proof fn law_renumbered_window_is_found_under_its_number(
    before: WindowManager,
    after: WindowManager,
    wid: WindowId,
    from: WindowServerId,
    to: WindowServerId,
    other: WindowServerId,
)
    requires
        renumbered(before, after, wid, Some(from), Some(to)),
        other != from,
        other != to,
    ensures
        after.window_ids@.contains_key(to) && after.window_ids@[to] == wid,
        from != to && before.window_ids@.contains_key(from) && before.window_ids@[from] == wid
            ==> !after.window_ids@.contains_key(from),
        from != to && before.window_ids@.contains_key(from) && before.window_ids@[from] != wid
            ==> after.window_ids@.contains_key(from) && after.window_ids@[from]
            == before.window_ids@[from],
        after.window_ids@.contains_key(other) == before.window_ids@.contains_key(other),
        before.window_ids@.contains_key(other) ==> after.window_ids@[other]
            == before.window_ids@[other],
{
    let middle = choose|middle: WindowManager| #[trigger]
        released(before, middle, wid, Some(from), Some(to)) && after.window_ids@
            == middle.window_ids@.insert(to, wid) && after == (WindowManager {
            window_ids: after.window_ids,
            ..middle
        });
    assert(released(before, middle, wid, Some(from), Some(to)));
}

} // verus!
