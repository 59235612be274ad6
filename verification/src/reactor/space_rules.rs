//! Applying rules to the windows of spaces that come to be managed.

use vstd::prelude::*;

use crate::app::WindowId;
use crate::collections::lemma_filter_members;
use crate::ids::{pid_t, SpaceId};
use crate::reactor::managers::{WindowFilter, WindowState};
use crate::reactor::rules::asks_rules;
use crate::reactor::surroundings::Surroundings;
use crate::reactor::task::{no_tasks, Task};
use crate::reactor::Reactor;

verus! {

/// An application's windows among some.
pub open spec fn of_app(windows: Seq<WindowId>, pid: pid_t) -> Seq<WindowId> {
    windows.filter(|w: WindowId| w.pid == pid)
}

fn windows_of_app(windows: &Vec<WindowId>, pid: pid_t) -> (r: Vec<WindowId>)
    ensures
        r@ == of_app(windows@, pid),
{
    let ghost pred = |w: WindowId| w.pid == pid;
    let mut r: Vec<WindowId> = Vec::new();
    let mut i: usize = 0;
    proof {
        reveal(Seq::filter);
        assert(r@ =~= windows@.take(0).filter(pred));
    }
    while i < windows.len()
        invariant
            i <= windows@.len(),
            pred == (|w: WindowId| w.pid == pid),
            r@ == windows@.take(i as int).filter(pred),
        decreases windows@.len() - i,
    {
        proof {
            reveal(Seq::filter);
            assert(windows@.take(i + 1).drop_last() =~= windows@.take(i as int));
        }
        if windows[i].pid == pid {
            r.push(windows[i]);
        }
        i += 1;
    }
    assert(windows@.take(i as int) =~= windows@);
    r
}

/// Whether tasks have rules decided for windows, application by application,
/// for every known one and in no particular order.
pub open spec fn asks_rules_by_app(
    tasks: Seq<Task>,
    reactor: Reactor,
    windows: Seq<WindowId>,
    pids: Seq<pid_t>,
) -> bool {
    &&& pids.no_duplicates()
    &&& pids.to_set() == reactor.known_apps(windows)
    &&& tasks.len() == pids.len()
    &&& forall|i: int|
        0 <= i < tasks.len() ==> asks_rules(#[trigger] tasks[i], of_app(windows, pids[i]))
}

impl Reactor {
    /// Whether a window can be managed and is meant for one of some spaces.
    pub open spec fn meant_for(&self, wid: WindowId, spaces: Seq<SpaceId>, sur: Surroundings) -> bool {
        self.window_manager.window_spec(wid) matches Some(w) && w.passes(WindowFilter::Manageable)
            && (self.intended_space(wid, w, sur) matches Some(space) && spaces.contains(space))
    }

    fn is_meant_for(&self, wid: WindowId, spaces: &Vec<SpaceId>, sur: &Surroundings) -> (r: bool)
        requires
            self.wf(),
        ensures
            r == self.meant_for(wid, spaces@, *sur),
    {
        let w: WindowState = match self.window_manager.window(wid) {
            Some(w) => w,
            None => {
                return false;
            },
        };
        if !w.matches_filter(WindowFilter::Manageable) {
            return false;
        }
        match self.intended_space_for_window_state(wid, &w, sur) {
            Some(space) => contains_space(spaces, space),
            None => false,
        }
    }

    /// The windows that can be managed and are meant for one of some spaces.
    pub open spec fn windows_meant_for(&self, spaces: Seq<SpaceId>, sur: Surroundings) -> Seq<
        WindowId,
    > {
        self.window_manager.windows.order().filter(
            |w: WindowId| self.meant_for(w, spaces, sur),
        )
    }

    fn find_windows_meant_for(&self, spaces: &Vec<SpaceId>, sur: &Surroundings) -> (r: Vec<
        WindowId,
    >)
        requires
            self.wf(),
        ensures
            r@ == self.windows_meant_for(spaces@, *sur),
    {
        let all: Vec<WindowId> = self.window_manager.windows.keys();
        let ghost pred = |w: WindowId| self.meant_for(w, spaces@, *sur);
        let mut r: Vec<WindowId> = Vec::new();
        let mut i: usize = 0;
        proof {
            reveal(Seq::filter);
            assert(r@ =~= all@.take(0).filter(pred));
        }
        while i < all.len()
            invariant
                self.wf(),
                i <= all@.len(),
                pred == (|w: WindowId| self.meant_for(w, spaces@, *sur)),
                r@ == all@.take(i as int).filter(pred),
            decreases all@.len() - i,
        {
            proof {
                reveal(Seq::filter);
                assert(all@.take(i + 1).drop_last() =~= all@.take(i as int));
            }
            if self.is_meant_for(all[i], spaces, sur) {
                r.push(all[i]);
            }
            i += 1;
        }
        assert(all@.take(i as int) =~= all@);
        r
    }

    /// Has rules decided for the windows of spaces that came to be managed.
    pub fn apply_app_rules_for_activated_spaces(
        &self,
        activated: &Vec<SpaceId>,
        sur: &Surroundings,
    ) -> (r: Vec<Task>)
        requires
            self.wf(),
        ensures
            exists|pids: Seq<pid_t>|
                asks_rules_by_app(
                    r@,
                    *self,
                    self.windows_meant_for(activated@, *sur),
                    pids,
                ),
    {
        let windows: Vec<WindowId> = self.find_windows_meant_for(activated, sur);
        let pids: Vec<pid_t> = self.apps_of(&windows, None);
        let mut tasks: Vec<Task> = no_tasks();
        let mut i: usize = 0;
        while i < pids.len()
            invariant
                i <= pids@.len(),
                tasks@.len() == i,
                forall|k: int|
                    0 <= k < i ==> asks_rules(#[trigger] tasks@[k], of_app(windows@, pids@[k])),
            decreases pids@.len() - i,
        {
            let list: Vec<WindowId> = windows_of_app(&windows, pids[i]);
            tasks.push(Reactor::process_windows_for_app_rules(list));
            i += 1;
        }
        assert(asks_rules_by_app(tasks@, *self, windows@, pids@));
        tasks
    }
}

pub fn contains_space(spaces: &Vec<SpaceId>, space: SpaceId) -> (r: bool)
    ensures
        r == spaces@.contains(space),
{
    let mut i: usize = 0;
    while i < spaces.len()
        invariant
            i <= spaces@.len(),
            forall|j: int| 0 <= j < i ==> #[trigger] spaces@[j] != space,
        decreases spaces@.len() - i,
    {
        if spaces[i] == space {
            return true;
        }
        i += 1;
    }
    false
}

/// Every window that is meant for a newly managed space and whose application
/// is known has rules decided for it.
pub proof fn law_every_window_of_a_managed_space_is_ruled(
    m: Reactor,
    tasks: Seq<Task>,
    windows: Seq<WindowId>,
    pids: Seq<pid_t>,
    wid: WindowId,
)
    requires
        asks_rules_by_app(tasks, m, windows, pids),
        windows.contains(wid),
        m.app_manager.apps@.contains_key(wid.pid),
    ensures
        exists|i: int|
            0 <= i < tasks.len() && #[trigger] asks_rules(tasks[i], of_app(windows, wid.pid))
                && of_app(windows, wid.pid).contains(wid),
{
    let k = choose|k: int| 0 <= k < windows.len() && windows[k] == wid;
    assert(windows[k].pid == wid.pid);
    assert(m.known_apps(windows).contains(wid.pid));
    assert(pids.to_set().contains(wid.pid));
    let i = choose|i: int| 0 <= i < pids.len() && pids[i] == wid.pid;
    lemma_filter_members(windows, |w: WindowId| w.pid == wid.pid);
    assert(asks_rules(tasks[i], of_app(windows, pids[i])));
}

/// Rules are decided for the tracked windows that can be managed and are
/// meant for one of the spaces, and for no other.
pub proof fn law_rules_are_for_windows_meant_for_the_spaces(
    m: Reactor,
    spaces: Seq<SpaceId>,
    wid: WindowId,
    sur: Surroundings,
)
    requires
        forall|w: WindowId| #[trigger]
            m.window_manager.windows.order().contains(w)
                <==> m.window_manager.windows@.contains_key(w),
    ensures
        m.windows_meant_for(spaces, sur).contains(wid) <==> m.window_manager.windows@.contains_key(
            wid,
        ) && m.window_manager.windows@[wid].is_manageable && (m.intended_space_of(
            wid,
            sur,
        ) matches Some(space) && spaces.contains(space)),
{
    lemma_filter_members(
        m.window_manager.windows.order(),
        |w: WindowId| m.meant_for(w, spaces, sur),
    );
}

/// The windows of one application are just its own.
pub proof fn law_windows_of_one_application(windows: Seq<WindowId>, pid: pid_t, wid: WindowId)
    ensures
        of_app(windows, pid).contains(wid) <==> windows.contains(wid) && wid.pid == pid,
{
    lemma_filter_members(windows, |w: WindowId| w.pid == pid);
}

} // verus!
