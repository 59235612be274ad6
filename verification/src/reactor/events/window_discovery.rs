//! The windows that an application lists.

use vstd::prelude::*;

use crate::app::WindowId;
use crate::collections::{lemma_filter_members, IdSet};
use crate::event::WindowInfo;
use crate::ids::{pid_t, SpaceId, WindowServerId};
use crate::reactor::managers::{StaleCleanupState, WindowManager, WindowState};
use crate::reactor::observation::copy_text;
use crate::reactor::surroundings::Surroundings;
use crate::reactor::task::{no_tasks, one_task, Question, Task, Work};
use crate::reactor::transition::contains_window;
use crate::reactor::Reactor;

verus! {

/// Handles the windows that an application lists: those that are new, those
/// that changed and those that are gone.
pub struct WindowDiscoveryHandler;

/// How long rules that were applied to a window hold, in milliseconds.
pub const APP_RULE_TTL_MS: u64 = 1000;

/// Real windows are larger, in sub-points.
pub const MIN_REAL_WINDOW_DIMENSION: i64 = 512;

/// How the window server sees windows on managed spaces.
pub struct Sightings {
    /// The windows on managed spaces, minimized ones too.
    pub on_managed: IdSet<WindowServerId>,
    /// The windows that are fit for an application.
    pub suitable: IdSet<WindowServerId>,
    /// The windows that are on screen.
    pub ordered_in: IdSet<WindowServerId>,
}

/// Whether a window of such an extent is no real one.
pub open spec fn is_tiny(extent: i64) -> bool {
    -MIN_REAL_WINDOW_DIMENSION < extent < MIN_REAL_WINDOW_DIMENSION
}

fn tiny(extent: i64) -> (r: bool)
    ensures
        r == is_tiny(extent),
{
    -MIN_REAL_WINDOW_DIMENSION < extent && extent < MIN_REAL_WINDOW_DIMENSION
}

pub fn copy_info(info: &WindowInfo) -> (r: WindowInfo)
    ensures
        r == *info,
{
    WindowInfo {
        is_standard: info.is_standard,
        is_root: info.is_root,
        is_minimized: info.is_minimized,
        is_resizable: info.is_resizable,
        min_size: info.min_size,
        max_size: info.max_size,
        title: info.title.clone(),
        frame: info.frame,
        sys_id: info.sys_id,
        bundle_id: copy_text(&info.bundle_id),
        path: copy_text(&info.path),
        ax_role: copy_text(&info.ax_role),
        ax_subrole: copy_text(&info.ax_subrole),
    }
}

impl Reactor {
    /// Whether some visible window of the window server is one of the
    /// application's that it did not list.
    pub open spec fn lists_too_little(&self, pid: pid_t, listed: Seq<WindowId>) -> bool {
        exists|wsid: WindowServerId| #[trigger]
            self.window_manager.visible_windows@.contains(wsid) && self.belongs_to(wsid, pid)
                && !listed.contains(self.window_manager.tracked_spec(wsid)->0)
    }

    fn does_list_too_little(&self, pid: pid_t, listed: &Vec<WindowId>) -> (r: bool)
        ensures
            r == self.lists_too_little(pid, listed@),
    {
        let ids: Vec<WindowServerId> = self.window_manager.visible_windows.items();
        let mut i: usize = 0;
        while i < ids.len()
            invariant
                i <= ids@.len(),
                forall|w: WindowServerId| #[trigger]
                    ids@.contains(w) <==> self.window_manager.visible_windows@.contains(w),
                forall|j: int|
                    0 <= j < i ==> !(self.belongs_to(#[trigger] ids@[j], pid) && !listed@.contains(
                        self.window_manager.tracked_spec(ids@[j])->0,
                    )),
            decreases ids@.len() - i,
        {
            assert(ids@.contains(ids@[i as int]));
            if let Some(wid) = self.window_manager.tracked_window_id(ids[i]) {
                if wid.pid == pid && !contains_window(listed, wid) {
                    return true;
                }
            }
            i += 1;
        }
        proof {
            assert forall|wsid: WindowServerId| #[trigger]
                self.window_manager.visible_windows@.contains(wsid) implies !(self.belongs_to(
                wsid,
                pid,
            ) && !listed@.contains(self.window_manager.tracked_spec(wsid)->0)) by {
                assert(ids@.contains(wsid));
            }
        }
        false
    }

    /// Whether this is no time to look for windows that are gone: what an
    /// application lists may be incomplete.
    pub open spec fn keeps_stale_windows(&self, pid: pid_t, listed: Seq<WindowId>) -> bool {
        ||| self.refocus_manager.stale_cleanup_state == StaleCleanupState::Suppressed
        ||| self.mission_control_manager.pending_mission_control_refresh@.contains(pid)
        ||| self.core.mission_control_active
        ||| self.in_drag()
        ||| listed.len() == 0 && !(exists|wsid: WindowServerId| #[trigger]
            self.window_manager.visible_windows@.contains(wsid) && self.belongs_to(wsid, pid))
        ||| self.lists_too_little(pid, listed)
    }

    fn should_keep_stale_windows(&self, pid: pid_t, listed: &Vec<WindowId>) -> (r: bool)
        ensures
            r == self.keeps_stale_windows(pid, listed@),
    {
        self.refocus_manager.stale_cleanup_state == StaleCleanupState::Suppressed
            || self.mission_control_manager.pending_mission_control_refresh.contains(pid)
            || self.core.mission_control_active || self.is_in_drag() || (listed.len() == 0
            && !self.has_visible_window_server_ids_for_pid(pid)) || self.does_list_too_little(
            pid,
            listed,
        )
    }

    /// Whether a window that its application does not list is gone: the
    /// window server finds it unfit, out of place, tiny, or nowhere to be
    /// seen on a managed space.
    pub open spec fn is_stale(
        &self,
        wid: WindowId,
        pid: pid_t,
        listed: Seq<WindowId>,
        s: Sightings,
        sur: Surroundings,
    ) -> bool {
        match self.window_manager.window_spec(wid) {
            Some(w) => wid.pid == pid && !listed.contains(wid) && !w.is_minimized
                && match w.sys_id {
                Some(wsid) => {
                    let managed = self.active_spaces@ != Set::<SpaceId>::empty();
                    let here = managed && s.on_managed@.contains(wsid);
                    (managed ==> here) && match self.untracked_info(wsid, sur) {
                        Some(info) => {
                            ||| !s.suitable@.contains(wsid)
                            ||| info.layer != 0
                            ||| is_tiny(info.frame.size.width)
                            ||| is_tiny(info.frame.size.height)
                            ||| here && !s.ordered_in@.contains(wsid)
                                && !self.window_manager.visible_windows@.contains(wsid)
                        },
                        None => false,
                    }
                },
                None => false,
            },
            None => false,
        }
    }

    fn window_is_stale(
        &self,
        wid: WindowId,
        pid: pid_t,
        listed: &Vec<WindowId>,
        s: &Sightings,
        sur: &Surroundings,
    ) -> (r: bool)
        ensures
            r == self.is_stale(wid, pid, listed@, *s, *sur),
    {
        let w: WindowState = match self.window_manager.window(wid) {
            Some(w) => w,
            None => {
                return false;
            },
        };
        if wid.pid != pid || contains_window(listed, wid) || w.is_minimized {
            return false;
        }
        let wsid: WindowServerId = match w.sys_id {
            Some(wsid) => wsid,
            None => {
                return false;
            },
        };
        let managed: bool = !self.active_spaces.is_empty();
        let here: bool = managed && s.on_managed.contains(wsid);
        if managed && !here {
            return false;
        }
        let info = match self.window_manager.get_window_server_info(wsid) {
            Some(info) => Some(info),
            None => sur.get_window(wsid),
        };
        match info {
            Some(info) => !s.suitable.contains(wsid) || info.layer != 0 || tiny(
                info.frame.size.width,
            ) || tiny(info.frame.size.height) || (here && !s.ordered_in.contains(wsid)
                && !self.window_manager.visible_windows.contains(wsid)),
            None => false,
        }
    }

    /// The application's windows that are gone.
    pub open spec fn stale_windows(
        &self,
        pid: pid_t,
        listed: Seq<WindowId>,
        s: Sightings,
        sur: Surroundings,
    ) -> Seq<WindowId> {
        if self.keeps_stale_windows(pid, listed) {
            Seq::empty()
        } else {
            self.window_manager.windows.order().filter(
                |w: WindowId| self.is_stale(w, pid, listed, s, sur),
            )
        }
    }

    fn identify_stale_windows(
        &self,
        pid: pid_t,
        listed: &Vec<WindowId>,
        s: &Sightings,
        sur: &Surroundings,
    ) -> (r: Vec<WindowId>)
        ensures
            r@ == self.stale_windows(pid, listed@, *s, *sur),
    {
        let mut r: Vec<WindowId> = Vec::new();
        if self.should_keep_stale_windows(pid, listed) {
            return r;
        }
        let all: Vec<WindowId> = self.window_manager.windows.keys();
        let ghost pred = |w: WindowId| self.is_stale(w, pid, listed@, *s, *sur);
        let mut i: usize = 0;
        proof {
            reveal(Seq::filter);
            assert(r@ =~= all@.take(0).filter(pred));
        }
        while i < all.len()
            invariant
                i <= all@.len(),
                pred == (|w: WindowId| self.is_stale(w, pid, listed@, *s, *sur)),
                r@ == all@.take(i as int).filter(pred),
            decreases all@.len() - i,
        {
            proof {
                reveal(Seq::filter);
                assert(all@.take(i + 1).drop_last() =~= all@.take(i as int));
            }
            if self.window_is_stale(all[i], pid, listed, s, sur) {
                r.push(all[i]);
            }
            i += 1;
        }
        assert(all@.take(i as int) =~= all@);
        r
    }

    /// Whether rules were applied to some listed window a moment ago.
    pub open spec fn some_recent(&self, new: Seq<(WindowId, WindowInfo)>, now: u64) -> bool {
        exists|i: int|
            0 <= i < new.len() && ((#[trigger] new[i]).1.sys_id matches Some(wsid)
                && self.window_manager.is_recent(wsid, APP_RULE_TTL_MS, now))
    }

    fn is_some_recent(&self, new: &Vec<(WindowId, WindowInfo)>, now: u64) -> (r: bool)
        ensures
            r == self.some_recent(new@, now),
    {
        let mut i: usize = 0;
        while i < new.len()
            invariant
                i <= new@.len(),
                forall|j: int|
                    0 <= j < i ==> !((#[trigger] new@[j]).1.sys_id matches Some(wsid)
                        && self.window_manager.is_recent(wsid, APP_RULE_TTL_MS, now)),
            decreases new@.len() - i,
        {
            if let Some(wsid) = new[i].1.sys_id {
                if self.window_manager.is_wsid_recent(wsid, APP_RULE_TTL_MS, now) {
                    return true;
                }
            }
            i += 1;
        }
        false
    }

    pub open spec fn knows_window(&self, wid: WindowId) -> bool {
        self.window_manager.windows@.contains_key(wid)
    }

    /// A known window is brought up to date; a new one is put under its
    /// number.
    pub open spec fn listed_task(&self, entry: (WindowId, WindowInfo)) -> Task {
        if self.knows_window(entry.0) {
            Task::Go(Work::SyncWindow { window: entry.0, info: entry.1 })
        } else {
            Task::Go(Work::MapWindow { window: entry.0, window_server_id: entry.1.sys_id })
        }
    }

    /// New windows are taken in.
    pub open spec fn insert_tasks(&self, new: Seq<(WindowId, WindowInfo)>) -> Seq<Task>
        decreases new.len(),
    {
        if new.len() == 0 {
            Seq::empty()
        } else {
            let rest = self.insert_tasks(new.drop_last());
            if self.knows_window(new.last().0) {
                rest
            } else {
                rest.push(
                    Task::Go(Work::InsertWindow { window: new.last().0, info: new.last().1 }),
                )
            }
        }
    }

    /// The windows that are new.
    pub open spec fn new_windows(&self, new: Seq<(WindowId, WindowInfo)>) -> Seq<WindowId>
        decreases new.len(),
    {
        if new.len() == 0 {
            Seq::empty()
        } else {
            let rest = self.new_windows(new.drop_last());
            if self.knows_window(new.last().0) {
                rest
            } else {
                rest.push(new.last().0)
            }
        }
    }

    /// Without an application and right after rules were applied, windows
    /// are taken in as they are, and rules are not applied anew.
    pub open spec fn early_tasks(&self, new: Seq<(WindowId, WindowInfo)>) -> Seq<Task>
        decreases new.len(),
    {
        if new.len() == 0 {
            Seq::empty()
        } else {
            let (window, info) = new.last();
            self.early_tasks(new.drop_last()) + seq![
                if self.knows_window(window) {
                    Task::Go(Work::SyncWindow { window, info })
                } else {
                    Task::Go(Work::InsertWindow { window, info })
                },
                Task::Go(Work::MapWindow { window, window_server_id: info.sys_id }),
            ]
        }
    }
}

/// What going through an application's list takes.
pub open spec fn list_tasks(
    reactor: Reactor,
    pid: pid_t,
    new: Seq<(WindowId, WindowInfo)>,
    now: u64,
) -> Seq<Task> {
    if reactor.some_recent(new, now) && !reactor.app_manager.apps@.contains_key(pid) {
        reactor.early_tasks(new) + new.map_values(
            |e: (WindowId, WindowInfo)| Task::Go(Work::SyncWindow { window: e.0, info: e.1 }),
        )
    } else {
        new.map_values(|e: (WindowId, WindowInfo)| reactor.listed_task(e)) + reactor.insert_tasks(
            new,
        )
    }
}

/// The windows among those listed that count as new.
pub open spec fn discovered_windows(
    reactor: Reactor,
    pid: pid_t,
    new: Seq<(WindowId, WindowInfo)>,
    now: u64,
) -> Seq<WindowId> {
    if reactor.some_recent(new, now) && !reactor.app_manager.apps@.contains_key(pid) {
        Seq::empty()
    } else {
        reactor.new_windows(new)
    }
}

impl WindowDiscoveryHandler {
    /// Begins to go through an application's list.
    pub fn handle_discovery(
        pid: pid_t,
        new: Vec<(WindowId, WindowInfo)>,
        known_visible: Vec<WindowId>,
    ) -> (r: Vec<Task>)
        ensures
            r@ == seq![
                Task::Ask(Question::Sightings, Work::Discovered { pid, new, known_visible }),
            ],
    {
        one_task(Task::Ask(Question::Sightings, Work::Discovered { pid, new, known_visible }))
    }

    fn early_part(reactor: &Reactor, new: &Vec<(WindowId, WindowInfo)>) -> (r: Vec<Task>)
        ensures
            r@ == reactor.early_tasks(new@) + new@.map_values(
                |e: (WindowId, WindowInfo)| Task::Go(Work::SyncWindow { window: e.0, info: e.1 }),
            ),
    {
        let ghost to_sync = |e: (WindowId, WindowInfo)|
            Task::Go(Work::SyncWindow { window: e.0, info: e.1 });
        let mut tasks: Vec<Task> = no_tasks();
        let mut i: usize = 0;
        while i < new.len()
            invariant
                i <= new@.len(),
                tasks@ == reactor.early_tasks(new@.take(i as int)),
            decreases new@.len() - i,
        {
            assert(new@.take(i + 1).drop_last() =~= new@.take(i as int));
            let ghost before = tasks@;
            let window: WindowId = new[i].0;
            let info: WindowInfo = copy_info(&new[i].1);
            let window_server_id: Option<WindowServerId> = new[i].1.sys_id;
            if reactor.window_manager.windows.contains_key(window) {
                tasks.push(Task::Go(Work::SyncWindow { window, info }));
            } else {
                tasks.push(Task::Go(Work::InsertWindow { window, info }));
            }
            tasks.push(Task::Go(Work::MapWindow { window, window_server_id }));
            assert(tasks@ =~= reactor.early_tasks(new@.take(i + 1)));
            i += 1;
        }
        assert(new@.take(i as int) =~= new@);
        let ghost early = tasks@;
        let mut k: usize = 0;
        assert(tasks@ =~= early + new@.take(0).map_values(to_sync));
        while k < new.len()
            invariant
                k <= new@.len(),
                to_sync == (|e: (WindowId, WindowInfo)|
                    Task::Go(Work::SyncWindow { window: e.0, info: e.1 })),
                tasks@ == early + new@.take(k as int).map_values(to_sync),
            decreases new@.len() - k,
        {
            tasks.push(
                Task::Go(Work::SyncWindow { window: new[k].0, info: copy_info(&new[k].1) }),
            );
            assert(tasks@ =~= early + new@.take(k + 1).map_values(to_sync));
            k += 1;
        }
        assert(new@.take(k as int) =~= new@);
        tasks
    }

    fn regular_part(reactor: &Reactor, new: &Vec<(WindowId, WindowInfo)>) -> (r: (
        Vec<Task>,
        Vec<WindowId>,
    ))
        ensures
            r.0@ == new@.map_values(|e: (WindowId, WindowInfo)| reactor.listed_task(e))
                + reactor.insert_tasks(new@),
            r.1@ == reactor.new_windows(new@),
    {
        let ghost to_task = |e: (WindowId, WindowInfo)| reactor.listed_task(e);
        let mut tasks: Vec<Task> = no_tasks();
        let mut found: Vec<WindowId> = Vec::new();
        let mut i: usize = 0;
        assert(tasks@ =~= new@.take(0).map_values(to_task));
        while i < new.len()
            invariant
                i <= new@.len(),
                to_task == (|e: (WindowId, WindowInfo)| reactor.listed_task(e)),
                tasks@ == new@.take(i as int).map_values(to_task),
                found@ == reactor.new_windows(new@.take(i as int)),
            decreases new@.len() - i,
        {
            assert(new@.take(i + 1).drop_last() =~= new@.take(i as int));
            let window: WindowId = new[i].0;
            if reactor.window_manager.windows.contains_key(window) {
                tasks.push(Task::Go(Work::SyncWindow { window, info: copy_info(&new[i].1) }));
            } else {
                tasks.push(
                    Task::Go(Work::MapWindow { window, window_server_id: new[i].1.sys_id }),
                );
                found.push(window);
            }
            assert(tasks@ =~= new@.take(i + 1).map_values(to_task));
            i += 1;
        }
        assert(new@.take(i as int) =~= new@);
        let ghost listed = tasks@;
        let mut k: usize = 0;
        assert(tasks@ =~= listed + reactor.insert_tasks(new@.take(0)));
        while k < new.len()
            invariant
                k <= new@.len(),
                tasks@ == listed + reactor.insert_tasks(new@.take(k as int)),
            decreases new@.len() - k,
        {
            assert(new@.take(k + 1).drop_last() =~= new@.take(k as int));
            let window: WindowId = new[k].0;
            if !reactor.window_manager.windows.contains_key(window) {
                tasks.push(Task::Go(Work::InsertWindow { window, info: copy_info(&new[k].1) }));
            }
            assert(tasks@ =~= listed + reactor.insert_tasks(new@.take(k + 1)));
            k += 1;
        }
        assert(new@.take(k as int) =~= new@);
        (tasks, found)
    }

    fn prepend_stale(stale: &Vec<WindowId>, rest: Vec<Task>) -> (r: Vec<Task>)
        ensures
            r@ == stale@.map_values(|w: WindowId| Task::Go(Work::StaleWindow(w))) + rest@,
    {
        let ghost to_task = |w: WindowId| Task::Go(Work::StaleWindow(w));
        let mut tasks: Vec<Task> = no_tasks();
        let mut i: usize = 0;
        assert(tasks@ =~= stale@.take(0).map_values(to_task));
        while i < stale.len()
            invariant
                i <= stale@.len(),
                to_task == (|w: WindowId| Task::Go(Work::StaleWindow(w))),
                tasks@ == stale@.take(i as int).map_values(to_task),
            decreases stale@.len() - i,
        {
            tasks.push(Task::Go(Work::StaleWindow(stale[i])));
            assert(tasks@ =~= stale@.take(i + 1).map_values(to_task));
            i += 1;
        }
        assert(stale@.take(i as int) =~= stale@);
        let mut more: Vec<Task> = rest;
        tasks.append(&mut more);
        tasks
    }

    /// Goes through an application's list: windows that are gone are dropped,
    /// known ones brought up to date, new ones taken in; then the workspace
    /// model is told, and a window that was waited for may get the focus.
    /// Marks of rules that were applied some time ago are dropped.
    pub fn windows_discovered(
        reactor: &mut Reactor,
        pid: pid_t,
        new: &Vec<(WindowId, WindowInfo)>,
        known_visible: Vec<WindowId>,
        sightings: &Sightings,
        sur: &Surroundings,
    ) -> (r: Vec<Task>)
        ensures
            old(reactor).wf() ==> final(reactor).wf(),
            *final(reactor) == (Reactor {
                window_manager: WindowManager {
                    recent_wsids: final(reactor).window_manager.recent_wsids,
                    ..old(reactor).window_manager
                },
                ..*old(reactor)
            }),
            final(reactor).window_manager.recent_wsids@
                == old(reactor).window_manager.recent_marks(APP_RULE_TTL_MS, sur.now),
            ({
                let before = *old(reactor);
                let gone = before.stale_windows(pid, known_visible@, *sightings, *sur).map_values(
                    |w: WindowId| Task::Go(Work::StaleWindow(w)),
                );
                let listed = list_tasks(before, pid, new@, sur.now);
                &&& r@.len() == gone.len() + listed.len() + 2
                &&& r@.drop_last().drop_last() == gone + listed
                &&& r@[r@.len() - 2] matches Task::Go(
                    Work::EmitDiscovered { pid: p, known_visible: k },
                ) && p == pid && k@ == known_visible@
                &&& r@.last() matches Task::Go(Work::AwaitedWindow { windows }) && windows@
                    == discovered_windows(before, pid, new@, sur.now)
            }),
    {
        let stale: Vec<WindowId> = reactor.identify_stale_windows(
            pid,
            &known_visible,
            sightings,
            sur,
        );
        let early: bool = reactor.is_some_recent(new, sur.now)
            && !reactor.app_manager.apps.contains_key(pid);
        let (listed, found): (Vec<Task>, Vec<WindowId>) = if early {
            (Self::early_part(reactor, new), Vec::new())
        } else {
            Self::regular_part(reactor, new)
        };
        let mut tasks: Vec<Task> = Self::prepend_stale(&stale, listed);
        let ghost first = tasks@;
        tasks.push(Task::Go(Work::EmitDiscovered { pid, known_visible }));
        tasks.push(Task::Go(Work::AwaitedWindow { windows: found }));
        assert(tasks@.drop_last().drop_last() =~= first);
        reactor.window_manager.purge_expired(APP_RULE_TTL_MS, sur.now);
        tasks
    }
}

/// Nothing is taken for gone while what an application lists may be
/// incomplete: while that is held back, while Mission Control is open or its
/// refresh of the application is awaited, during a drag, when the application
/// lists nothing and shows nothing, and when it does not list a window that
/// is seen.
pub proof fn law_nothing_is_stale_while_lists_may_be_incomplete(
    m: Reactor,
    pid: pid_t,
    listed: Seq<WindowId>,
    seen: WindowServerId,
    s: Sightings,
    sur: Surroundings,
)
    requires
        ({
            let visible = m.window_manager.visible_windows@;
            let ids = m.window_manager.window_ids@;
            ||| m.refocus_manager.stale_cleanup_state == StaleCleanupState::Suppressed
            ||| m.mission_control_manager.pending_mission_control_refresh@.contains(pid)
            ||| m.core.mission_control_active
            ||| m.drag_manager.drag_state is Active
            ||| listed.len() == 0 && forall|w: WindowServerId| #[trigger]
                visible.contains(w) ==> !(ids.contains_key(w) && ids[w].pid == pid)
            ||| visible.contains(seen) && ids.contains_key(seen) && ids[seen].pid == pid
                && !listed.contains(ids[seen])
        }),
    ensures
        m.stale_windows(pid, listed, s, sur).len() == 0,
{
    assert(m.keeps_stale_windows(pid, listed)) by {
        if m.window_manager.visible_windows@.contains(seen)
            && m.window_manager.window_ids@.contains_key(seen)
            && m.window_manager.window_ids@[seen].pid == pid && !listed.contains(
            m.window_manager.window_ids@[seen],
        ) {
            assert(m.belongs_to(seen, pid));
            assert(m.lists_too_little(pid, listed));
        }
    }
}

/// A window that its application lists, one of another application, one that
/// is minimized and one that the window server does not number is never
/// taken for gone; nor is one that is off the managed spaces, while there are
/// any, or that nothing is known of.
pub proof fn law_listed_and_minimized_windows_are_not_stale(
    m: Reactor,
    wid: WindowId,
    pid: pid_t,
    listed: Seq<WindowId>,
    s: Sightings,
    sur: Surroundings,
    space: SpaceId,
)
    requires
        ({
            let w = m.window_manager.windows@[wid];
            ||| !m.window_manager.windows@.contains_key(wid)
            ||| wid.pid != pid
            ||| listed.contains(wid)
            ||| w.is_minimized
            ||| w.sys_id is None
            ||| m.active_spaces@.contains(space) && !s.on_managed@.contains(w.sys_id->0)
            ||| !m.window_manager.window_server_info@.contains_key(w.sys_id->0)
                && !sur.server_windows@.contains_key(w.sys_id->0)
        }),
    ensures
        !m.is_stale(wid, pid, listed, s, sur),
        !m.stale_windows(pid, listed, s, sur).contains(wid),
{
    if m.active_spaces@.contains(space) {
        assert(m.active_spaces@ != Set::<SpaceId>::empty());
    }
    lemma_filter_members(
        m.window_manager.windows.order(),
        |w: WindowId| m.is_stale(w, pid, listed, s, sur),
    );
}

/// A window on a managed space that its application no longer lists is gone
/// if the window server finds it unfit, off the ordinary layer or smaller
/// than two points, or if it is neither on screen nor among the visible
/// ones; otherwise it stays.
pub proof fn law_unlisted_window_is_gone_when_out_of_sight(
    m: Reactor,
    wid: WindowId,
    wsid: WindowServerId,
    listed: Seq<WindowId>,
    s: Sightings,
    sur: Surroundings,
    space: SpaceId,
)
    requires
        m.window_manager.windows@.contains_key(wid),
        !listed.contains(wid),
        !m.window_manager.windows@[wid].is_minimized,
        m.window_manager.windows@[wid].sys_id == Some(wsid),
        m.active_spaces@.contains(space),
        s.on_managed@.contains(wsid),
        m.window_manager.window_server_info@.contains_key(wsid),
    ensures
        ({
            let info = m.window_manager.window_server_info@[wsid];
            m.is_stale(wid, wid.pid, listed, s, sur) <==> {
                ||| !s.suitable@.contains(wsid)
                ||| info.layer != 0
                ||| -2 * 256 < info.frame.size.width < 2 * 256
                ||| -2 * 256 < info.frame.size.height < 2 * 256
                ||| !s.ordered_in@.contains(wsid) && !m.window_manager.visible_windows@.contains(
                    wsid,
                )
            }
        }),
{
    assert(m.active_spaces@ != Set::<SpaceId>::empty());
}

/// Which windows are dealt with as gone, once nothing is held back.
pub proof fn law_stale_windows_are_tracked_ones(
    m: Reactor,
    pid: pid_t,
    listed: Seq<WindowId>,
    s: Sightings,
    sur: Surroundings,
    wid: WindowId,
)
    requires
        forall|w: WindowId| #[trigger]
            m.window_manager.windows.order().contains(w)
                <==> m.window_manager.windows@.contains_key(w),
        m.refocus_manager.stale_cleanup_state != StaleCleanupState::Suppressed,
        !m.mission_control_manager.pending_mission_control_refresh@.contains(pid),
        !m.core.mission_control_active,
        !(m.drag_manager.drag_state is Active),
        listed.len() > 0,
        forall|w: WindowServerId| #[trigger]
            m.window_manager.visible_windows@.contains(w)
                && m.window_manager.window_ids@.contains_key(w)
                && m.window_manager.window_ids@[w].pid == pid ==> listed.contains(
                m.window_manager.window_ids@[w],
            ),
    ensures
        m.stale_windows(pid, listed, s, sur).contains(wid) <==> m.is_stale(
            wid,
            pid,
            listed,
            s,
            sur,
        ),
{
    assert(!m.keeps_stale_windows(pid, listed));
    lemma_filter_members(
        m.window_manager.windows.order(),
        |w: WindowId| m.is_stale(w, pid, listed, s, sur),
    );
}

/// Each listed window that is tracked is brought up to date, and each that is
/// not is put under its number and taken in, whether or not rules were
/// applied a moment ago, as long as the application is there.
pub proof fn law_listed_windows_are_synced_or_taken_in(
    m: Reactor,
    pid: pid_t,
    new: Seq<(WindowId, WindowInfo)>,
    now: u64,
    window: WindowId,
    info: WindowInfo,
)
    requires
        m.app_manager.apps@.contains_key(pid),
        new.contains((window, info)),
    ensures
        m.window_manager.windows@.contains_key(window) ==> list_tasks(m, pid, new, now).contains(
            Task::Go(Work::SyncWindow { window, info }),
        ) && !discovered_windows(m, pid, new, now).contains(window) && !list_tasks(
            m,
            pid,
            new,
            now,
        ).contains(Task::Go(Work::InsertWindow { window, info })),
        !m.window_manager.windows@.contains_key(window) ==> list_tasks(m, pid, new, now).contains(
            Task::Go(Work::MapWindow { window, window_server_id: info.sys_id }),
        ) && list_tasks(m, pid, new, now).contains(Task::Go(Work::InsertWindow { window, info }))
            && discovered_windows(m, pid, new, now).contains(window),
{
    let first = new.map_values(|e: (WindowId, WindowInfo)| m.listed_task(e));
    let second = m.insert_tasks(new);
    let all = list_tasks(m, pid, new, now);
    assert(all == first + second);
    let k = new.index_of((window, info));
    assert(first[k] == m.listed_task((window, info)));
    assert(all[k] == first[k]);
    lemma_inserted(m, new, window, info);
    let insert = Task::Go(Work::InsertWindow { window, info });
    if second.contains(insert) {
        let j = second.index_of(insert);
        assert(all[first.len() + j] == insert);
    }
    if all.contains(insert) && !second.contains(insert) {
        let j = all.index_of(insert);
        if j < first.len() {
            assert(first[j] == m.listed_task(new[j]));
        } else {
            assert(second[j - first.len()] == insert);
        }
    }
}

/// New windows are taken in, and counted, exactly if they are not tracked.
proof fn lemma_inserted(
    m: Reactor,
    new: Seq<(WindowId, WindowInfo)>,
    window: WindowId,
    info: WindowInfo,
)
    ensures
        m.insert_tasks(new).contains(Task::Go(Work::InsertWindow { window, info }))
            <==> new.contains((window, info)) && !m.window_manager.windows@.contains_key(window),
        m.new_windows(new).contains(window) ==> !m.window_manager.windows@.contains_key(window),
        new.contains((window, info)) && !m.window_manager.windows@.contains_key(window)
            ==> m.new_windows(new).contains(window),
    decreases new.len(),
{
    if new.len() > 0 {
        let rest = new.drop_last();
        lemma_inserted(m, rest, window, info);
        let task = Task::Go(Work::InsertWindow { window, info });
        let a = m.insert_tasks(rest);
        let b = m.insert_tasks(new);
        let c = m.new_windows(rest);
        let d = m.new_windows(new);
        if a.contains(task) {
            let k = a.index_of(task);
            assert(b[k] == task);
        }
        if b.contains(task) && !a.contains(task) {
            let k = b.index_of(task);
            if k < a.len() {
                assert(a[k] == task);
            }
            assert(new[new.len() - 1] == (window, info));
        }
        if c.contains(window) {
            let k = c.index_of(window);
            assert(d[k] == window);
        }
        if d.contains(window) && !c.contains(window) {
            let k = d.index_of(window);
            if k < c.len() {
                assert(c[k] == window);
            }
        }
        if rest.contains((window, info)) {
            let k = rest.index_of((window, info));
            assert(new[k] == (window, info));
        }
        if new.contains((window, info)) && !rest.contains((window, info)) {
            let k = new.index_of((window, info));
            if k < rest.len() {
                assert(rest[k] == (window, info));
            }
            if !m.window_manager.windows@.contains_key(window) {
                assert(b.last() == task);
                assert(d.last() == window);
            }
        }
    }
}

/// Right after rules were applied to one of its windows, an application that
/// is not there has no window that counts as new.
pub proof fn law_nothing_is_new_right_after_rules_without_an_application(
    m: Reactor,
    pid: pid_t,
    new: Seq<(WindowId, WindowInfo)>,
    now: u64,
    i: int,
    wsid: WindowServerId,
)
    requires
        !m.app_manager.apps@.contains_key(pid),
        0 <= i < new.len(),
        new[i].1.sys_id == Some(wsid),
        m.window_manager.recent_wsids@.contains_key(wsid),
        now < m.window_manager.recent_wsids@[wsid] + 1000,
    ensures
        discovered_windows(m, pid, new, now).len() == 0,
        list_tasks(m, pid, new, now).len() == 3 * new.len(),
{
    assert(m.some_recent(new, now));
    lemma_early_count(m, new);
}

proof fn lemma_early_count(m: Reactor, new: Seq<(WindowId, WindowInfo)>)
    ensures
        m.early_tasks(new).len() == 2 * new.len(),
    decreases new.len(),
{
    if new.len() > 0 {
        lemma_early_count(m, new.drop_last());
    }
}

} // verus!
