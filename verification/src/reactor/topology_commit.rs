//! Taking over how things are once displays have settled.

use vstd::prelude::*;

use crate::collections::{IdMap, IdSet};
use crate::event::{ScreenInfo, WindowServerInfo};
use crate::ids::{SpaceId, WindowServerId};
use crate::reactor::display_topology::{
    DisplaySnapshot, ManagerModel, TopologyModel, WindowSnapshot,
};
use crate::reactor::managers::known_spaces;
use crate::reactor::observation::copy_text;
use crate::reactor::server_info::infos_in_range;
use crate::reactor::surroundings::Surroundings;
use crate::reactor::task::{no_tasks, one_task, Question, Task, Work};
use crate::reactor::Reactor;

verus! {

/// Whether every screen shows a space and none shows another's.
pub open spec fn all_distinct_spaces(screens: Seq<ScreenInfo>) -> bool {
    &&& screens.len() > 0
    &&& forall|i: int| 0 <= i < screens.len() ==> (#[trigger] screens[i]).space is Some
    &&& forall|i: int, j: int|
        0 <= i < j < screens.len() ==> (#[trigger] screens[i]).space != (#[trigger] screens[j]).space
}

fn are_distinct_spaces(screens: &Vec<ScreenInfo>) -> (r: bool)
    ensures
        r == all_distinct_spaces(screens@),
{
    if screens.len() == 0 {
        return false;
    }
    let mut seen: IdSet<SpaceId> = IdSet::new();
    let mut i: usize = 0;
    while i < screens.len()
        invariant
            i <= screens@.len(),
            screens@.len() > 0,
            forall|j: int| 0 <= j < i ==> (#[trigger] screens@[j]).space is Some,
            forall|j: int, k: int|
                0 <= j < k < i ==> (#[trigger] screens@[j]).space != (#[trigger] screens@[k]).space,
            forall|s: SpaceId| #[trigger]
                seen@.contains(s) <==> exists|j: int|
                    0 <= j < i && (#[trigger] screens@[j]).space == Some(s),
        decreases screens@.len() - i,
    {
        match screens[i].space {
            Some(space) => {
                if seen.contains(space) {
                    proof {
                        let j = choose|j: int|
                            0 <= j < i && (#[trigger] screens@[j]).space == Some(space);
                        assert(screens@[j].space == screens@[i as int].space);
                    }
                    return false;
                }
                let ghost before = seen@;
                let _ = seen.insert(space);
                proof {
                    assert forall|j: int| 0 <= j < i implies (#[trigger] screens@[j]).space != Some(
                        space,
                    ) by {
                        if screens@[j].space == Some(space) {
                            assert(before.contains(space));
                        }
                    }
                    assert forall|s: SpaceId| #[trigger]
                        seen@.contains(s) <==> exists|j: int|
                            0 <= j < i + 1 && (#[trigger] screens@[j]).space == Some(s) by {
                        if seen@.contains(s) {
                            if s == space {
                                assert(screens@[i as int].space == Some(s));
                            } else {
                                assert(before.contains(s));
                                let j = choose|j: int|
                                    0 <= j < i && (#[trigger] screens@[j]).space == Some(s);
                                assert(screens@[j].space == Some(s));
                            }
                        }
                        if exists|j: int|
                            0 <= j < i + 1 && (#[trigger] screens@[j]).space == Some(s) {
                            let j = choose|j: int|
                                0 <= j < i + 1 && (#[trigger] screens@[j]).space == Some(s);
                            if j < i {
                                assert(before.contains(s));
                            }
                        }
                    }
                }
            },
            None => {
                return false;
            },
        }
        i += 1;
    }
    true
}

/// Whether a window that was not known is taken over: an ordinary one on a
/// managed space or another of the user's.
pub open spec fn newcomer(
    reactor: Reactor,
    info: WindowServerInfo,
    known: Set<WindowServerId>,
    sur: Surroundings,
) -> bool {
    !known.contains(info.id) && info.layer == 0 && (sur.space_of(info.id) matches Some(space) && (
    reactor.is_active(space) || sur.user_spaces@.contains(space)))
}

/// Whether a window that was known and is out of sight still is somewhere.
pub open spec fn still_there(reactor: Reactor, wsid: WindowServerId, sur: Surroundings) -> bool {
    sur.server_window(wsid) is Some && sur.every_space@.contains_key(wsid) && exists|i: int|
        0 <= i < sur.every_space@[wsid]@.len() && on_user_or_managed(
            reactor,
            #[trigger] sur.every_space@[wsid]@[i],
            sur,
        )
}

pub open spec fn on_user_or_managed(reactor: Reactor, space: SpaceId, sur: Surroundings) -> bool {
    sur.user_spaces@.contains(space) || reactor.is_active(space)
}

/// The space that a window is taken to have left.
pub open spec fn left_space(reactor: Reactor, wsid: WindowServerId, sur: Surroundings) -> Option<
    SpaceId,
> {
    match sur.space_of(wsid) {
        Some(space) => Some(space),
        None => reactor.first_space(),
    }
}

/// The last description of a window.
pub open spec fn last_described(list: Seq<WindowServerInfo>, window: WindowServerId) -> Option<
    WindowServerInfo,
>
    decreases list.len(),
{
    if list.len() == 0 {
        None
    } else if list.last().id == window {
        Some(list.last())
    } else {
        last_described(list.drop_last(), window)
    }
}

/// Descriptions of windows, the last of each window.
pub open spec fn latest(list: Seq<WindowServerInfo>) -> Seq<WindowServerInfo>
    decreases list.len(),
{
    if list.len() == 0 {
        Seq::empty()
    } else if ids_in(list.drop_first()).contains(list[0].id) {
        latest(list.drop_first())
    } else {
        seq![list[0]] + latest(list.drop_first())
    }
}

fn is_described_from(list: &Vec<WindowServerInfo>, from: usize, window: WindowServerId) -> (r: bool)
    requires
        from <= list@.len(),
    ensures
        r == ids_in(list@.skip(from as int)).contains(window),
{
    let mut i: usize = from;
    while i < list.len()
        invariant
            from <= i <= list@.len(),
            forall|j: int| from <= j < i ==> (#[trigger] list@[j]).id != window,
        decreases list@.len() - i,
    {
        if list[i].id == window {
            assert(list@.skip(from as int)[i - from] == list@[i as int]);
            return true;
        }
        i += 1;
    }
    false
}

fn find_latest(list: &Vec<WindowServerInfo>) -> (r: Vec<WindowServerInfo>)
    ensures
        r@ == latest(list@),
{
    let mut r: Vec<WindowServerInfo> = Vec::new();
    let mut i: usize = 0;
    assert(list@.skip(0) =~= list@);
    assert(r@ + latest(list@.skip(0)) =~= latest(list@));
    while i < list.len()
        invariant
            i <= list@.len(),
            r@ + latest(list@.skip(i as int)) == latest(list@),
        decreases list@.len() - i,
    {
        assert(list@.skip(i as int).drop_first() =~= list@.skip(i + 1));
        let ghost kept = r@;
        if !is_described_from(list, i + 1, list[i].id) {
            r.push(list[i]);
            assert(r@ + latest(list@.skip(i + 1)) =~= kept + (seq![list@[i as int]] + latest(
                list@.skip(i + 1),
            )));
        }
        i += 1;
    }
    assert(r@ + latest(list@.skip(i as int)) =~= r@);
    r
}

/// The tasks for windows that came into sight.
pub open spec fn newcomer_tasks(
    reactor: Reactor,
    list: Seq<WindowServerInfo>,
    known: Set<WindowServerId>,
    sur: Surroundings,
) -> Seq<Task>
    decreases list.len(),
{
    if list.len() == 0 {
        Seq::empty()
    } else {
        let rest = newcomer_tasks(reactor, list.drop_last(), known, sur);
        if newcomer(reactor, list.last(), known, sur) {
            rest.push(
                Task::Go(
                    Work::SnapshotAppeared {
                        info: list.last(),
                        space: sur.space_of(list.last().id)->0,
                    },
                ),
            )
        } else {
            rest
        }
    }
}

/// The tasks for windows that went out of sight.
pub open spec fn departure_tasks(
    reactor: Reactor,
    known: Seq<WindowServerId>,
    in_sight: Set<WindowServerId>,
    sur: Surroundings,
) -> Seq<Task>
    decreases known.len(),
{
    if known.len() == 0 {
        Seq::empty()
    } else {
        let rest = departure_tasks(reactor, known.drop_last(), in_sight, sur);
        let wsid = known.last();
        match left_space(reactor, wsid, sur) {
            Some(space) => if !in_sight.contains(wsid) && !still_there(reactor, wsid, sur) {
                rest.push(Task::Go(Work::ServerWindowDestroyed { window: wsid, space }))
            } else {
                rest
            },
            None => rest,
        }
    }
}

/// The ids of described windows.
pub open spec fn ids_in(list: Seq<WindowServerInfo>) -> Set<WindowServerId> {
    Set::new(
        |w: WindowServerId|
            exists|i: int| 0 <= i < list.len() && (#[trigger] list[i]).id == w,
    )
}

fn collect_ids(list: &Vec<WindowServerInfo>) -> (r: IdSet<WindowServerId>)
    ensures
        r@ == ids_in(list@),
{
    let mut r: IdSet<WindowServerId> = IdSet::new();
    let mut i: usize = 0;
    assert(r@ =~= ids_in(list@.take(0)));
    while i < list.len()
        invariant
            i <= list@.len(),
            r@ == ids_in(list@.take(i as int)),
        decreases list@.len() - i,
    {
        let ghost prev = list@.take(i as int);
        let ghost next = list@.take(i + 1);
        let _ = r.insert(list[i].id);
        proof {
            assert forall|w: WindowServerId| ids_in(next).contains(w) <==> ids_in(prev).contains(w)
                || w == list@[i as int].id by {
                if ids_in(next).contains(w) {
                    let j = choose|j: int| 0 <= j < next.len() && (#[trigger] next[j]).id == w;
                    if j < i {
                        assert(prev[j].id == w);
                    }
                }
                if ids_in(prev).contains(w) {
                    let j = choose|j: int| 0 <= j < prev.len() && (#[trigger] prev[j]).id == w;
                    assert(next[j].id == w);
                }
                assert(next[i as int].id == list@[i as int].id);
            }
            assert(r@ =~= ids_in(next));
        }
        i += 1;
    }
    assert(list@.take(i as int) =~= list@);
    r
}

pub fn copy_screens(screens: &Vec<ScreenInfo>) -> (r: Vec<ScreenInfo>)
    ensures
        r@ == screens@,
{
    let mut r: Vec<ScreenInfo> = Vec::new();
    let mut i: usize = 0;
    while i < screens.len()
        invariant
            i <= screens@.len(),
            r@ == screens@.take(i as int),
        decreases screens@.len() - i,
    {
        let s: &ScreenInfo = &screens[i];
        r.push(
            ScreenInfo {
                id: s.id,
                frame: s.frame,
                space: s.space,
                display_uuid: s.display_uuid.clone(),
                name: copy_text(&s.name),
            },
        );
        assert(r@ =~= screens@.take(i + 1));
        i += 1;
    }
    assert(screens@.take(i as int) =~= screens@);
    r
}

impl Reactor {
    /// The shown spaces that are not managed.
    pub open spec fn unmanaged_spaces(&self) -> Set<SpaceId> {
        Set::new(
            |s: SpaceId|
                known_spaces(self.space_manager.screens@).contains(s) && !self.is_active(s),
        )
    }

    /// What is on screen, with the described windows.
    pub fn build_display_snapshot(&self, ws_info: &Vec<WindowServerInfo>, sur: &Surroundings) -> (r:
        DisplaySnapshot)
        ensures
            r.ordered_screens@ == self.space_manager.screens@,
            r.active_spaces@ == self.active_spaces@,
            r.inactive_spaces@ == self.unmanaged_spaces(),
            r.windows@.dom() == ids_in(ws_info@),
            forall|w: WindowServerId| #[trigger]
                r.windows@.contains_key(w) ==> r.windows@[w].space == sur.space_of(w) && Some(
                    r.windows@[w].info,
                ) == last_described(ws_info@, w),
    {
        let known: Vec<SpaceId> = self.space_manager.iter_known_spaces();
        let mut inactive_spaces: IdSet<SpaceId> = IdSet::new();
        let mut i: usize = 0;
        while i < known.len()
            invariant
                i <= known@.len(),
                forall|s: SpaceId| #[trigger]
                    inactive_spaces@.contains(s) <==> known@.take(i as int).contains(s)
                        && !self.is_active(s),
            decreases known@.len() - i,
        {
            let ghost prev = known@.take(i as int);
            let ghost next = known@.take(i + 1);
            if !self.is_space_active(known[i]) {
                let _ = inactive_spaces.insert(known[i]);
            }
            proof {
                assert forall|s: SpaceId| next.contains(s) <==> prev.contains(s) || s
                    == known@[i as int] by {
                    if next.contains(s) {
                        let j = choose|j: int| 0 <= j < next.len() && next[j] == s;
                        if j < i {
                            assert(prev[j] == s);
                        }
                    }
                    if prev.contains(s) {
                        let j = choose|j: int| 0 <= j < prev.len() && prev[j] == s;
                        assert(next[j] == s);
                    }
                    assert(next[i as int] == known@[i as int]);
                }
            }
            i += 1;
        }
        assert(known@.take(i as int) =~= known@);
        assert(inactive_spaces@ =~= self.unmanaged_spaces());
        let mut windows: IdMap<WindowServerId, WindowSnapshot> = IdMap::new();
        let mut k: usize = 0;
        assert(windows@.dom() =~= ids_in(ws_info@.take(0)));
        while k < ws_info.len()
            invariant
                k <= ws_info@.len(),
                windows@.dom() == ids_in(ws_info@.take(k as int)),
                forall|w: WindowServerId| #[trigger]
                    windows@.contains_key(w) ==> windows@[w].space == sur.space_of(w) && Some(
                        windows@[w].info,
                    ) == last_described(ws_info@.take(k as int), w),
            decreases ws_info@.len() - k,
        {
            let info: WindowServerInfo = ws_info[k];
            let ghost prev = ws_info@.take(k as int);
            let ghost next = ws_info@.take(k + 1);
            let ghost before = windows@;
            let _ = windows.insert(
                info.id,
                WindowSnapshot { info, space: sur.window_space(info.id) },
            );
            proof {
                assert(next.drop_last() =~= prev);
                assert forall|w: WindowServerId| ids_in(next).contains(w) <==> ids_in(
                    prev,
                ).contains(w) || w == info.id by {
                    if ids_in(next).contains(w) {
                        let j = choose|j: int| 0 <= j < next.len() && (#[trigger] next[j]).id == w;
                        if j < k {
                            assert(prev[j].id == w);
                        }
                    }
                    if ids_in(prev).contains(w) {
                        let j = choose|j: int| 0 <= j < prev.len() && (#[trigger] prev[j]).id == w;
                        assert(next[j].id == w);
                    }
                    assert(next[k as int].id == info.id);
                }
                assert(windows@.dom() =~= ids_in(next));
                assert forall|w: WindowServerId| #[trigger]
                    windows@.contains_key(w) implies windows@[w].space == sur.space_of(w) && Some(
                    windows@[w].info,
                ) == last_described(next, w) by {
                    if w != info.id {
                        assert(before.contains_key(w));
                    }
                }
            }
            k += 1;
        }
        assert(ws_info@.take(k as int) =~= ws_info@);
        DisplaySnapshot {
            ordered_screens: copy_screens(&self.space_manager.screens),
            active_spaces: self.active_spaces.copy(),
            inactive_spaces,
            windows,
        }
    }

    /// Asks for the windows in sight if displays have settled and every
    /// screen shows a space of its own; otherwise the next report is waited
    /// for.
    pub fn maybe_commit_display_topology_snapshot(&self) -> (r: Vec<Task>)
        ensures
            r@ == if self.display_topology_manager@.state is AwaitingCommit && all_distinct_spaces(
                self.space_manager.screens@,
            ) {
                seq![Task::Ask(Question::VisibleWindows, Work::CommitTopology)]
            } else {
                Seq::empty()
            },
    {
        let awaiting: bool = self.display_topology_manager.is_churning_or_awaiting_commit()
            && self.display_topology_manager.current_churn().is_none();
        if awaiting && are_distinct_spaces(&self.space_manager.screens) {
            one_task(Task::Ask(Question::VisibleWindows, Work::CommitTopology))
        } else {
            no_tasks()
        }
    }

    fn plan_newcomers(
        &self,
        list: &Vec<WindowServerInfo>,
        known: &IdSet<WindowServerId>,
        sur: &Surroundings,
    ) -> (r: Vec<Task>)
        ensures
            r@ == newcomer_tasks(*self, list@, known@, *sur),
    {
        let mut tasks: Vec<Task> = no_tasks();
        let mut i: usize = 0;
        while i < list.len()
            invariant
                i <= list@.len(),
                tasks@ == newcomer_tasks(*self, list@.take(i as int), known@, *sur),
            decreases list@.len() - i,
        {
            assert(list@.take(i + 1).drop_last() =~= list@.take(i as int));
            let info: WindowServerInfo = list[i];
            if !known.contains(info.id) && info.layer == 0 {
                if let Some(space) = sur.window_space(info.id) {
                    if self.is_space_active(space) || sur.space_is_user(space) {
                        tasks.push(Task::Go(Work::SnapshotAppeared { info, space }));
                    }
                }
            }
            i += 1;
        }
        assert(list@.take(i as int) =~= list@);
        tasks
    }

    fn is_still_there(&self, wsid: WindowServerId, sur: &Surroundings) -> (r: bool)
        ensures
            r == still_there(*self, wsid, *sur),
    {
        if sur.get_window(wsid).is_none() {
            return false;
        }
        match sur.every_space.get(wsid) {
            Some(spaces) => {
                let mut i: usize = 0;
                while i < spaces.len()
                    invariant
                        i <= spaces@.len(),
                        sur.server_window(wsid) is Some,
                        sur.every_space@.contains_key(wsid),
                        *spaces == sur.every_space@[wsid],
                        forall|j: int|
                            0 <= j < i ==> !on_user_or_managed(
                                *self,
                                #[trigger] sur.every_space@[wsid]@[j],
                                *sur,
                            ),
                    decreases spaces@.len() - i,
                {
                    if sur.space_is_user(spaces[i]) || self.is_space_active(spaces[i]) {
                        assert(on_user_or_managed(
                            *self,
                            sur.every_space@[wsid]@[i as int],
                            *sur,
                        ));
                        return true;
                    }
                    i += 1;
                }
                false
            },
            None => false,
        }
    }

    fn push_departures(
        &self,
        tasks: Vec<Task>,
        known: &Vec<WindowServerId>,
        in_sight: &IdSet<WindowServerId>,
        sur: &Surroundings,
    ) -> (r: Vec<Task>)
        ensures
            r@ == tasks@ + departure_tasks(*self, known@, in_sight@, *sur),
    {
        let ghost first = tasks@;
        let mut r: Vec<Task> = tasks;
        let mut i: usize = 0;
        assert(r@ =~= first + departure_tasks(*self, known@.take(0), in_sight@, *sur));
        while i < known.len()
            invariant
                i <= known@.len(),
                r@ == first + departure_tasks(*self, known@.take(i as int), in_sight@, *sur),
            decreases known@.len() - i,
        {
            assert(known@.take(i + 1).drop_last() =~= known@.take(i as int));
            let wsid: WindowServerId = known[i];
            let left: Option<SpaceId> = match sur.window_space(wsid) {
                Some(space) => Some(space),
                None => self.space_manager.first_known_space(),
            };
            if let Some(space) = left {
                if !in_sight.contains(wsid) && !self.is_still_there(wsid, sur) {
                    r.push(Task::Go(Work::ServerWindowDestroyed { window: wsid, space }));
                }
            }
            assert(r@ =~= first + departure_tasks(*self, known@.take(i + 1), in_sight@, *sur));
            i += 1;
        }
        assert(known@.take(i as int) =~= known@);
        r
    }

    /// Displays have settled: windows that came into sight or went out of it
    /// while they had not are dealt with now, and everything is looked at and
    /// laid out anew.
    pub fn reconcile_windows_after_topology_commit(
        &mut self,
        ws_info: &Vec<WindowServerInfo>,
        managed: &IdSet<WindowServerId>,
        sur: &Surroundings,
    ) -> (r: Vec<Task>)
        requires
            infos_in_range(ws_info@),
        ensures
            old(self).wf() ==> final(self).wf(),
            *final(self) == (Reactor {
                display_topology_manager: final(self).display_topology_manager,
                ..*old(self)
            }),
            final(self).display_topology_manager@ == old(self).display_topology_manager@.taken().0,
            match old(self).display_topology_manager@.taken().1 {
                Some((_, _, _, known)) => {
                    let list = old(self).on_managed(ws_info@, managed@);
                    exists|order: Seq<WindowServerId>|
                        {
                            &&& order.no_duplicates()
                            &&& order.to_set() == known
                            &&& r@ == #[trigger] commit_tasks(*old(self), list, known, order, *sur)
                        }
                },
                None => r@.len() == 0,
            },
    {
        let known: IdSet<WindowServerId> =
            match self.display_topology_manager.take_awaiting_commit() {
            Some((_, _, _, known)) => known,
            None => {
                return no_tasks();
            },
        };
        let list: Vec<WindowServerInfo> = self.filter_ws_info_to_active_spaces(ws_info, managed);
        let in_sight: IdSet<WindowServerId> = collect_ids(&list);
        let seen: Vec<WindowServerInfo> = find_latest(&list);
        let first: Vec<Task> = self.plan_newcomers(&seen, &known, sur);
        let order: Vec<WindowServerId> = known.items();
        let mut tasks: Vec<Task> = self.push_departures(first, &order, &in_sight, sur);
        tasks.push(Task::Go(Work::ForceRefresh));
        tasks.push(Task::Go(Work::UpdateLayout { is_resize: false, is_workspace_switch: false }));
        tasks.push(Task::Go(Work::TopologyCommitted));
        proof {
            assert(order@.to_set() =~= known@);
            assert(order@.no_duplicates());
            assert(list@ == old(self).on_managed(ws_info@, managed@));
            lemma_commit_same(*old(self), *self, list@, known@, order@, *sur);
            assert(tasks@ =~= commit_tasks(*old(self), list@, known@, order@, *sur));
        }
        tasks
    }

    /// Everything has been dealt with.
    pub fn topology_committed(&mut self)
        ensures
            old(self).wf() ==> final(self).wf(),
            *final(self) == (Reactor {
                display_topology_manager: final(self).display_topology_manager,
                ..*old(self)
            }),
            final(self).display_topology_manager@ == (ManagerModel {
                state: TopologyModel::Stable,
                ..old(self).display_topology_manager@
            }),
    {
        self.display_topology_manager.mark_stable();
    }
}

/// What settled displays lead to.
pub open spec fn commit_tasks(
    reactor: Reactor,
    list: Seq<WindowServerInfo>,
    known: Set<WindowServerId>,
    order: Seq<WindowServerId>,
    sur: Surroundings,
) -> Seq<Task> {
    newcomer_tasks(reactor, latest(list), known, sur) + departure_tasks(
        reactor,
        order,
        ids_in(list),
        sur,
    ) + seq![
        Task::Go(Work::ForceRefresh),
        Task::Go(Work::UpdateLayout { is_resize: false, is_workspace_switch: false }),
        Task::Go(Work::TopologyCommitted),
    ]
}

/// That displays have settled does not bear on where windows are.
proof fn lemma_commit_same(
    before: Reactor,
    after: Reactor,
    list: Seq<WindowServerInfo>,
    known: Set<WindowServerId>,
    order: Seq<WindowServerId>,
    sur: Surroundings,
)
    requires
        after == (Reactor { display_topology_manager: after.display_topology_manager, ..before }),
    ensures
        newcomer_tasks(after, latest(list), known, sur) == newcomer_tasks(
            before,
            latest(list),
            known,
            sur,
        ),
        departure_tasks(after, order, ids_in(list), sur) == departure_tasks(
            before,
            order,
            ids_in(list),
            sur,
        ),
{
    lemma_newcomers_same(before, after, latest(list), known, sur);
    lemma_departures_same(before, after, order, ids_in(list), sur);
}

proof fn lemma_newcomers_same(
    before: Reactor,
    after: Reactor,
    list: Seq<WindowServerInfo>,
    known: Set<WindowServerId>,
    sur: Surroundings,
)
    requires
        after == (Reactor { display_topology_manager: after.display_topology_manager, ..before }),
    ensures
        newcomer_tasks(after, list, known, sur) == newcomer_tasks(before, list, known, sur),
    decreases list.len(),
{
    if list.len() > 0 {
        lemma_newcomers_same(before, after, list.drop_last(), known, sur);
    }
}

proof fn lemma_departures_same(
    before: Reactor,
    after: Reactor,
    order: Seq<WindowServerId>,
    in_sight: Set<WindowServerId>,
    sur: Surroundings,
)
    requires
        after == (Reactor { display_topology_manager: after.display_topology_manager, ..before }),
    ensures
        departure_tasks(after, order, in_sight, sur) == departure_tasks(
            before,
            order,
            in_sight,
            sur,
        ),
    decreases order.len(),
{
    if order.len() > 0 {
        lemma_departures_same(before, after, order.drop_last(), in_sight, sur);
        let wsid = order.last();
        assert(still_there(after, wsid, sur) == still_there(before, wsid, sur)) by {
            if still_there(before, wsid, sur) {
                let i = choose|i: int|
                    0 <= i < sur.every_space@[wsid]@.len() && on_user_or_managed(
                        before,
                        #[trigger] sur.every_space@[wsid]@[i],
                        sur,
                    );
                assert(on_user_or_managed(after, sur.every_space@[wsid]@[i], sur));
            }
            if still_there(after, wsid, sur) {
                let i = choose|i: int|
                    0 <= i < sur.every_space@[wsid]@.len() && on_user_or_managed(
                        after,
                        #[trigger] sur.every_space@[wsid]@[i],
                        sur,
                    );
                assert(on_user_or_managed(before, sur.every_space@[wsid]@[i], sur));
            }
        }
    }
}

/// A window that was known before displays changed is not taken for a new
/// one.
pub proof fn law_known_window_is_no_newcomer(
    m: Reactor,
    info: WindowServerInfo,
    known: Set<WindowServerId>,
    sur: Surroundings,
)
    requires
        known.contains(info.id),
    ensures
        !newcomer(m, info, known, sur),
{
}

/// Which windows a commit of settled displays gives up: those that were known
/// before, are not among the windows in sight, and that the window server
/// does not describe or has on no space that is the user's or managed. Each
/// leaves the space that the window server names for it, or else the first
/// known one.
pub proof fn law_commit_gives_up_the_windows_that_are_gone(
    m: Reactor,
    list: Seq<WindowServerInfo>,
    known: Set<WindowServerId>,
    order: Seq<WindowServerId>,
    sur: Surroundings,
    window: WindowServerId,
    space: SpaceId,
)
    requires
        order.to_set() == known,
    ensures
        commit_tasks(m, list, known, order, sur).contains(
            Task::Go(Work::ServerWindowDestroyed { window, space }),
        ) <==> {
            &&& known.contains(window)
            &&& forall|i: int| 0 <= i < list.len() ==> (#[trigger] list[i]).id != window
            &&& !sur.server_windows@.contains_key(window) || !sur.every_space@.contains_key(window)
                || forall|i: int|
                0 <= i < sur.every_space@[window]@.len() ==> !sur.user_spaces@.contains(
                    #[trigger] sur.every_space@[window]@[i],
                ) && !m.active_spaces@.contains(sur.every_space@[window]@[i])
            &&& if sur.window_spaces@.contains_key(window) {
                sur.window_spaces@[window] == space
            } else {
                exists|k: int|
                    0 <= k < m.space_manager.screens@.len() && (
                    #[trigger] m.space_manager.screens@[k]).space == Some(space) && forall|j: int|
                        0 <= j < k ==> (#[trigger] m.space_manager.screens@[j]).space is None
            }
        },
{
    let task = Task::Go(Work::ServerWindowDestroyed { window, space });
    let came = newcomer_tasks(m, latest(list), known, sur);
    let left = departure_tasks(m, order, ids_in(list), sur);
    let rest = seq![
        Task::Go(Work::ForceRefresh),
        Task::Go(Work::UpdateLayout { is_resize: false, is_workspace_switch: false }),
        Task::Go(Work::TopologyCommitted),
    ];
    let all = commit_tasks(m, list, known, order, sur);
    assert(all == came + left + rest);
    lemma_newcomers_only_appear(m, latest(list), known, sur);
    lemma_departures(m, order, ids_in(list), sur, window, space);
    assert(all.contains(task) <==> left.contains(task)) by {
        if left.contains(task) {
            let k = left.index_of(task);
            assert(all[came.len() + k] == task);
        }
        if all.contains(task) {
            let k = all.index_of(task);
            if k < came.len() {
                assert(came[k] == task);
            } else if k < came.len() + left.len() {
                assert(left[k - came.len()] == task);
            } else {
                assert(rest[k - came.len() - left.len()] == task);
            }
        }
    }
    assert(known.contains(window) <==> order.contains(window));
    crate::reactor::managers::law_first_known_space_is_of_the_first_screen_that_shows_one(
        m.space_manager.screens@,
    );
    if still_there(m, window, sur) {
        let i = choose|i: int|
            0 <= i < sur.every_space@[window]@.len() && on_user_or_managed(
                m,
                #[trigger] sur.every_space@[window]@[i],
                sur,
            );
        assert(sur.user_spaces@.contains(sur.every_space@[window]@[i]) || m.active_spaces@.contains(
            sur.every_space@[window]@[i],
        ));
    }
    if !sur.window_spaces@.contains_key(window) {
        let screens = m.space_manager.screens@;
        if exists|k: int|
            0 <= k < screens.len() && (#[trigger] screens[k]).space == Some(space) && forall|j: int|
                0 <= j < k ==> (#[trigger] screens[j]).space is None {
            let k = choose|k: int|
                0 <= k < screens.len() && (#[trigger] screens[k]).space == Some(space)
                    && forall|j: int| 0 <= j < k ==> (#[trigger] screens[j]).space is None;
            let f = choose|f: int|
                0 <= f < screens.len() && (#[trigger] screens[f]).space == Some(
                    known_spaces(screens)[0],
                ) && forall|j: int| 0 <= j < f ==> (#[trigger] screens[j]).space is None;
            if k < f {
                assert(screens[k].space is None);
            } else if f < k {
                assert(screens[f].space is None);
            }
        }
    }
}

/// Newcomers only ever appear.
proof fn lemma_newcomers_only_appear(
    m: Reactor,
    list: Seq<WindowServerInfo>,
    known: Set<WindowServerId>,
    sur: Surroundings,
)
    ensures
        forall|i: int|
            0 <= i < newcomer_tasks(m, list, known, sur).len() ==> (#[trigger] newcomer_tasks(
                m,
                list,
                known,
                sur,
            )[i] matches Task::Go(work) && work is SnapshotAppeared),
    decreases list.len(),
{
    if list.len() > 0 {
        lemma_newcomers_only_appear(m, list.drop_last(), known, sur);
    }
}

/// Which windows have departed.
proof fn lemma_departures(
    m: Reactor,
    order: Seq<WindowServerId>,
    in_sight: Set<WindowServerId>,
    sur: Surroundings,
    window: WindowServerId,
    space: SpaceId,
)
    ensures
        departure_tasks(m, order, in_sight, sur).contains(
            Task::Go(Work::ServerWindowDestroyed { window, space }),
        ) <==> order.contains(window) && !in_sight.contains(window) && !still_there(m, window, sur)
            && left_space(m, window, sur) == Some(space),
        forall|i: int|
            0 <= i < departure_tasks(m, order, in_sight, sur).len() ==> (
            #[trigger] departure_tasks(m, order, in_sight, sur)[i] matches Task::Go(work) && work
                is ServerWindowDestroyed),
    decreases order.len(),
{
    if order.len() > 0 {
        let task = Task::Go(Work::ServerWindowDestroyed { window, space });
        let rest = departure_tasks(m, order.drop_last(), in_sight, sur);
        let all = departure_tasks(m, order, in_sight, sur);
        lemma_departures(m, order.drop_last(), in_sight, sur, window, space);
        assert(order.contains(window) <==> order.drop_last().contains(window) || order.last()
            == window) by {
            if order.drop_last().contains(window) {
                let k = order.drop_last().index_of(window);
                assert(order[k] == window);
            }
            if order.contains(window) {
                let k = order.index_of(window);
                if k < order.len() - 1 {
                    assert(order.drop_last()[k] == window);
                }
            }
        }
        if rest.contains(task) {
            let k = rest.index_of(task);
            assert(all[k] == task);
        }
        if all.len() > rest.len() && all.last() == task {
            assert(all.contains(task));
        }
        if all.contains(task) && !rest.contains(task) {
            let k = all.index_of(task);
            if k < rest.len() {
                assert(rest[k] == task);
            }
        }
    }
}

/// Which windows a commit of settled displays takes over: those in sight that
/// were not known, with the last description of each, if they are ordinary
/// ones on a space that is managed or the user's.
pub proof fn law_commit_takes_over_the_windows_that_came(
    m: Reactor,
    list: Seq<WindowServerInfo>,
    known: Set<WindowServerId>,
    order: Seq<WindowServerId>,
    sur: Surroundings,
    info: WindowServerInfo,
    space: SpaceId,
)
    ensures
        commit_tasks(m, list, known, order, sur).contains(
            Task::Go(Work::SnapshotAppeared { info, space }),
        ) <==> {
            &&& exists|i: int|
                0 <= i < list.len() && #[trigger] list[i] == info && forall|j: int|
                    i < j < list.len() ==> (#[trigger] list[j]).id != info.id
            &&& !known.contains(info.id)
            &&& info.layer == 0
            &&& sur.window_spaces@.contains_key(info.id) && sur.window_spaces@[info.id] == space
            &&& m.active_spaces@.contains(space) || sur.user_spaces@.contains(space)
        },
{
    let task = Task::Go(Work::SnapshotAppeared { info, space });
    let came = newcomer_tasks(m, latest(list), known, sur);
    let left = departure_tasks(m, order, ids_in(list), sur);
    let rest = seq![
        Task::Go(Work::ForceRefresh),
        Task::Go(Work::UpdateLayout { is_resize: false, is_workspace_switch: false }),
        Task::Go(Work::TopologyCommitted),
    ];
    let all = commit_tasks(m, list, known, order, sur);
    assert(all == came + left + rest);
    lemma_departures(m, order, ids_in(list), sur, info.id, space);
    lemma_newcomers(m, latest(list), known, sur, info, space);
    lemma_latest(list, info);
    assert(all.contains(task) <==> came.contains(task)) by {
        if came.contains(task) {
            let k = came.index_of(task);
            assert(all[k] == task);
        }
        if all.contains(task) {
            let k = all.index_of(task);
            if k < came.len() {
                assert(came[k] == task);
            } else if k < came.len() + left.len() {
                assert(left[k - came.len()] == task);
            } else {
                assert(rest[k - came.len() - left.len()] == task);
            }
        }
    }
}

proof fn lemma_newcomers(
    m: Reactor,
    list: Seq<WindowServerInfo>,
    known: Set<WindowServerId>,
    sur: Surroundings,
    info: WindowServerInfo,
    space: SpaceId,
)
    ensures
        newcomer_tasks(m, list, known, sur).contains(
            Task::Go(Work::SnapshotAppeared { info, space }),
        ) <==> list.contains(info) && newcomer(m, info, known, sur) && sur.space_of(info.id)
            == Some(space),
    decreases list.len(),
{
    if list.len() > 0 {
        let task = Task::Go(Work::SnapshotAppeared { info, space });
        let rest = newcomer_tasks(m, list.drop_last(), known, sur);
        let all = newcomer_tasks(m, list, known, sur);
        lemma_newcomers(m, list.drop_last(), known, sur, info, space);
        assert(list.contains(info) <==> list.drop_last().contains(info) || list.last() == info) by {
            if list.drop_last().contains(info) {
                let k = list.drop_last().index_of(info);
                assert(list[k] == info);
            }
            if list.contains(info) {
                let k = list.index_of(info);
                if k < list.len() - 1 {
                    assert(list.drop_last()[k] == info);
                }
            }
        }
        if rest.contains(task) {
            let k = rest.index_of(task);
            assert(all[k] == task);
        }
        if all.len() > rest.len() && all.last() == task {
            assert(all.contains(task));
        }
        if all.contains(task) && !rest.contains(task) {
            let k = all.index_of(task);
            if k < rest.len() {
                assert(rest[k] == task);
            }
        }
    }
}

/// A description is the latest of its window if no later one follows.
proof fn lemma_latest(list: Seq<WindowServerInfo>, info: WindowServerInfo)
    ensures
        latest(list).contains(info) <==> exists|i: int|
            0 <= i < list.len() && #[trigger] list[i] == info && forall|j: int|
                i < j < list.len() ==> (#[trigger] list[j]).id != info.id,
    decreases list.len(),
{
    if list.len() > 0 {
        let rest = list.drop_first();
        lemma_latest(rest, info);
        let here = exists|i: int|
            0 <= i < list.len() && #[trigger] list[i] == info && forall|j: int|
                i < j < list.len() ==> (#[trigger] list[j]).id != info.id;
        let there = exists|i: int|
            0 <= i < rest.len() && #[trigger] rest[i] == info && forall|j: int|
                i < j < rest.len() ==> (#[trigger] rest[j]).id != info.id;
        let first = list[0] == info && !ids_in(rest).contains(info.id);
        if there {
            let i = choose|i: int|
                0 <= i < rest.len() && #[trigger] rest[i] == info && forall|j: int|
                    i < j < rest.len() ==> (#[trigger] rest[j]).id != info.id;
            assert(list[i + 1] == info);
            assert forall|j: int| i + 1 < j < list.len() implies (#[trigger] list[j]).id
                != info.id by {
                assert(rest[j - 1] == list[j]);
            }
            assert(here);
        }
        if first {
            assert forall|j: int| 0 < j < list.len() implies (#[trigger] list[j]).id != info.id by {
                assert(rest[j - 1] == list[j]);
            }
            assert(list[0] == info);
            assert(here);
        }
        if here {
            let i = choose|i: int|
                0 <= i < list.len() && #[trigger] list[i] == info && forall|j: int|
                    i < j < list.len() ==> (#[trigger] list[j]).id != info.id;
            if i == 0 {
                if ids_in(rest).contains(info.id) {
                    let k = choose|k: int| 0 <= k < rest.len() && (#[trigger] rest[k]).id
                        == info.id;
                    assert(list[k + 1].id == info.id);
                }
                assert(first);
            } else {
                assert(rest[i - 1] == info);
                assert forall|j: int| i - 1 < j < rest.len() implies (#[trigger] rest[j]).id
                    != info.id by {
                    assert(list[j + 1] == rest[j]);
                }
                assert(there);
            }
        }
        let tail = latest(rest);
        if !ids_in(rest).contains(list[0].id) {
            let all = seq![list[0]] + tail;
            if all.contains(info) {
                let k = all.index_of(info);
                if k > 0 {
                    assert(tail[k - 1] == info);
                }
            }
            if tail.contains(info) {
                let k = tail.index_of(info);
                assert(all[k + 1] == info);
            }
            assert(all[0] == list[0]);
        }
    }
}

/// A commit ends with a look at everything, a layout and its completion,
/// whatever came and went.
pub proof fn law_commit_looks_lays_out_and_completes(
    m: Reactor,
    list: Seq<WindowServerInfo>,
    known: Set<WindowServerId>,
    order: Seq<WindowServerId>,
    sur: Surroundings,
)
    ensures
        ({
            let tasks = commit_tasks(m, list, known, order, sur);
            let n = tasks.len() as int;
            &&& n >= 3
            &&& tasks[n - 3] == Task::Go(Work::ForceRefresh)
            &&& tasks[n - 2] == Task::Go(
                Work::UpdateLayout { is_resize: false, is_workspace_switch: false },
            )
            &&& tasks[n - 1] == Task::Go(Work::TopologyCommitted)
        }),
{
}

} // verus!
