//! Which spaces the screens show and which of them are managed.

use vstd::prelude::*;

use crate::app::actor::text_of;
use crate::app::Request;
use crate::broadcast::BroadcastEvent;
use crate::collections::{first_index, lemma_filter_members, IdSet};
use crate::event::{ScreenInfo, WindowServerInfo};
use crate::ids::{pid_t, SpaceId, WindowServerId};
use crate::model::{CoreWorkspace, WorkspaceId};
use crate::reactor::managers::{
    known_spaces, law_known_spaces_are_the_shown_ones,
    law_screen_of_a_space_is_the_first_that_shows_it, screen_showing, RefocusManager, SpaceManager,
    StaleCleanupState,
};
use crate::reactor::query::{display_uuid_owned, identity_of};
use crate::reactor::server_info::{infos_in_range, only_descriptions_changed, ServerModel};
use crate::reactor::surroundings::Surroundings;
use crate::reactor::task::{
    no_tasks, one_task, LayoutEvent, Message, PolicyNote, Question, SpaceActivationConfig, Task,
    Work,
};
use crate::reactor::Reactor;

verus! {

/// The spaces that screens show, screen by screen.
pub open spec fn slots_of(screens: Seq<ScreenInfo>) -> Seq<Option<SpaceId>> {
    screens.map_values(|s: ScreenInfo| s.space)
}

pub fn raw_spaces(screens: &Vec<ScreenInfo>) -> (r: Vec<Option<SpaceId>>)
    ensures
        r@ == slots_of(screens@),
{
    let mut r: Vec<Option<SpaceId>> = Vec::new();
    let mut i: usize = 0;
    while i < screens.len()
        invariant
            i <= screens@.len(),
            r@.len() == i,
            forall|j: int| 0 <= j < i ==> #[trigger] r@[j] == screens@[j].space,
        decreases screens@.len() - i,
    {
        r.push(screens[i].space);
        i += 1;
    }
    assert(r@ =~= slots_of(screens@));
    r
}

/// Whether no screen shows a space.
pub open spec fn all_empty(spaces: Seq<Option<SpaceId>>) -> bool {
    forall|i: int| 0 <= i < spaces.len() ==> #[trigger] spaces[i] is None
}

pub fn are_all_empty(spaces: &Vec<Option<SpaceId>>) -> (r: bool)
    ensures
        r == all_empty(spaces@),
{
    let mut i: usize = 0;
    while i < spaces.len()
        invariant
            i <= spaces@.len(),
            forall|j: int| 0 <= j < i ==> #[trigger] spaces@[j] is None,
        decreases spaces@.len() - i,
    {
        if spaces[i].is_some() {
            assert(!(spaces@[i as int] is None));
            return false;
        }
        i += 1;
    }
    true
}

/// Screens that differ in the spaces they show.
pub open spec fn screens_showing(screens: Seq<ScreenInfo>, spaces: Seq<Option<SpaceId>>) -> Seq<
    ScreenInfo,
> {
    Seq::new(
        screens.len(),
        |i: int|
            if i < spaces.len() {
                ScreenInfo { space: spaces[i], ..screens[i] }
            } else {
                screens[i]
            },
    )
}

pub fn put_spaces(screens: &mut Vec<ScreenInfo>, spaces: &Vec<Option<SpaceId>>)
    ensures
        final(screens)@ == screens_showing(old(screens)@, spaces@),
{
    let mut i: usize = 0;
    while i < screens.len() && i < spaces.len()
        invariant
            i <= screens@.len(),
            i <= spaces@.len(),
            screens@.len() == old(screens)@.len(),
            forall|j: int|
                0 <= j < screens@.len() ==> #[trigger] screens@[j] == if j < i {
                    ScreenInfo { space: spaces@[j], ..old(screens)@[j] }
                } else {
                    old(screens)@[j]
                },
        decreases spaces@.len() - i,
    {
        screens[i].space = spaces[i];
        i += 1;
    }
    assert(screens@ =~= screens_showing(old(screens)@, spaces@));
}

/// The spaces among slots.
pub open spec fn spaces_in(slots: Seq<Option<SpaceId>>) -> Set<SpaceId> {
    Set::new(|s: SpaceId| slots.contains(Some(s)))
}

/// Whether texts are the identities of screens.
pub open spec fn names_screens(displays: Seq<Option<String>>, screens: Seq<ScreenInfo>) -> bool {
    displays.len() == screens.len() && forall|i: int|
        0 <= i < displays.len() ==> text_of(#[trigger] displays[i]) == identity_of(screens[i])
}

/// Whether a task has the policy say which of some spaces are managed, by the
/// settings and the identities of the screens.
pub open spec fn asks_policy(
    task: Task,
    settings: SpaceActivationConfig,
    asked: Seq<Option<SpaceId>>,
    screens: Seq<ScreenInfo>,
) -> bool {
    task matches Task::Ask(
        Question::ActiveSpaces { config, spaces, displays },
        Work::ActiveSpacesKnown,
    ) && config == settings && spaces@ == asked && names_screens(displays@, screens)
}

/// Whether a task tells the policy of the screens.
pub open spec fn tells_policy(
    task: Task,
    settings: SpaceActivationConfig,
    shown: Seq<ScreenInfo>,
) -> bool {
    task matches Task::Tell(Message::Policy(PolicyNote::SpacesUpdated { config, screens }))
        && config == settings && screens@ == shown
}

/// Tasks that ask applications for their windows.
pub open spec fn ask_apps(pids: Seq<pid_t>) -> Seq<Task> {
    pids.map_values(|pid: pid_t| Task::Tell(Message::App(pid, Request::GetVisibleWindows)))
}

/// The first managed space among slots.
pub open spec fn first_managed(reactor: Reactor, slots: Seq<Option<SpaceId>>) -> Option<SpaceId>
    decreases slots.len(),
{
    if slots.len() == 0 {
        None
    } else if slots[0] matches Some(space) && reactor.is_active(space) {
        slots[0]
    } else {
        first_managed(reactor, slots.drop_first())
    }
}

/// Whether a task tells subscribers which workspace a space shows.
pub open spec fn announces(
    task: Task,
    reactor: Reactor,
    space: SpaceId,
    workspace: WorkspaceId,
) -> bool {
    match task {
        Task::Tell(
            Message::Broadcast(
                BroadcastEvent::WorkspaceChanged {
                    space_id,
                    workspace_id,
                    workspace_name,
                    display_uuid,
                },
            ),
        ) => {
            let all = reactor.core.workspaces@;
            &&& space_id == space && workspace_id == workspace
            &&& first_index(all, |w: CoreWorkspace| w.id == workspace) matches Some(place)
                && workspace_name == all[place].name
            &&& reactor.display_of_space(space) == (match display_uuid {
                Some(uuid) => Some(uuid@),
                None => None,
            })
        },
        _ => false,
    }
}

impl Reactor {
    /// Writes down which spaces the screens show.
    pub fn set_screen_spaces(&mut self, spaces: &Vec<Option<SpaceId>>)
        requires
            old(self).wf(),
        ensures
            final(self).wf(),
            final(self).space_manager.screens@ == screens_showing(
                old(self).space_manager.screens@,
                spaces@,
            ),
            *final(self) == (Reactor {
                space_manager: SpaceManager {
                    screens: final(self).space_manager.screens,
                    ..old(self).space_manager
                },
                ..*old(self)
            }),
    {
        put_spaces(&mut self.space_manager.screens, spaces);
    }

    /// The settings that the policy on managed spaces goes by.
    pub open spec fn activation_settings(&self) -> SpaceActivationConfig {
        SpaceActivationConfig {
            default_disable: self.config.settings.default_disable,
            one_space: self.one_space,
        }
    }

    pub fn activation_cfg(&self) -> (r: SpaceActivationConfig)
        ensures
            r == self.activation_settings(),
    {
        SpaceActivationConfig {
            default_disable: self.config.settings.default_disable,
            one_space: self.one_space,
        }
    }

    /// The identities of the screens.
    fn display_uuids_for_current_screens(&self) -> (r: Vec<Option<String>>)
        ensures
            names_screens(r@, self.space_manager.screens@),
    {
        let mut r: Vec<Option<String>> = Vec::new();
        let mut i: usize = 0;
        while i < self.space_manager.screens.len()
            invariant
                i <= self.space_manager.screens@.len(),
                r@.len() == i,
                forall|j: int|
                    0 <= j < i ==> text_of(#[trigger] r@[j]) == identity_of(
                        self.space_manager.screens@[j],
                    ),
            decreases self.space_manager.screens@.len() - i,
        {
            r.push(display_uuid_owned(&self.space_manager.screens[i]));
            i += 1;
        }
        r
    }

    /// Has the policy say which of some spaces are managed.
    pub fn recompute_and_set_active_spaces(&self, spaces: Vec<Option<SpaceId>>) -> (r: Task)
        ensures
            asks_policy(
                r,
                self.activation_settings(),
                spaces@,
                self.space_manager.screens@,
            ),
    {
        Task::Ask(
            Question::ActiveSpaces {
                config: self.activation_cfg(),
                spaces,
                displays: self.display_uuids_for_current_screens(),
            },
            Work::ActiveSpacesKnown,
        )
    }

    /// Tells the policy of the screens.
    pub fn tell_policy(&self, screens: Vec<ScreenInfo>) -> (r: Task)
        ensures
            tells_policy(r, self.activation_settings(), screens@),
    {
        Task::Tell(
            Message::Policy(
                PolicyNote::SpacesUpdated { config: self.activation_cfg(), screens },
            ),
        )
    }

    /// The same for the spaces that the screens show.
    pub fn recompute_from_current_screens(&self) -> (r: Vec<Task>)
        ensures
            r@.len() == 1,
            asks_policy(
                r@[0],
                self.activation_settings(),
                slots_of(self.space_manager.screens@),
                self.space_manager.screens@,
            ),
    {
        let spaces: Vec<Option<SpaceId>> = raw_spaces(&self.space_manager.screens);
        one_task(self.recompute_and_set_active_spaces(spaces))
    }

    fn set_active_spaces(&mut self, spaces: &Vec<Option<SpaceId>>)
        ensures
            final(self).active_spaces@ == spaces_in(spaces@),
            *final(self) == (Reactor { active_spaces: final(self).active_spaces, ..*old(self) }),
    {
        self.active_spaces.clear();
        let mut i: usize = 0;
        assert(self.active_spaces@ =~= spaces_in(spaces@.take(0)));
        while i < spaces.len()
            invariant
                i <= spaces@.len(),
                self.active_spaces@ == spaces_in(spaces@.take(i as int)),
                *self == (Reactor { active_spaces: self.active_spaces, ..*old(self) }),
            decreases spaces@.len() - i,
        {
            let ghost prev = spaces@.take(i as int);
            let ghost next = spaces@.take(i + 1);
            if let Some(space) = spaces[i] {
                let _ = self.active_spaces.insert(space);
            }
            proof {
                assert forall|s: SpaceId| spaces_in(next).contains(s) <==> spaces_in(prev).contains(
                    s,
                ) || spaces@[i as int] == Some(s) by {
                    if next.contains(Some(s)) {
                        let j = choose|j: int| 0 <= j < next.len() && next[j] == Some(s);
                        if j < i {
                            assert(prev[j] == Some(s));
                        }
                    }
                    if prev.contains(Some(s)) {
                        let j = choose|j: int| 0 <= j < prev.len() && prev[j] == Some(s);
                        assert(next[j] == Some(s));
                    }
                    assert(next[i as int] == spaces@[i as int]);
                }
                assert(self.active_spaces@ =~= spaces_in(next));
            }
            i += 1;
        }
        assert(spaces@.take(i as int) =~= spaces@);
    }

    /// The managed spaces that were not managed before, in order.
    pub open spec fn newly_managed(&self, before: Set<SpaceId>) -> Seq<SpaceId> {
        self.active_spaces.order().filter(|s: SpaceId| !before.contains(s))
    }

    fn find_newly_managed(&self, before: &IdSet<SpaceId>) -> (r: Vec<SpaceId>)
        ensures
            r@ == self.newly_managed(before@),
            r@.len() == 0 <==> self.active_spaces@.subset_of(before@),
    {
        let all: Vec<SpaceId> = self.active_spaces.items();
        let ghost pred = |s: SpaceId| !before@.contains(s);
        let mut r: Vec<SpaceId> = Vec::new();
        let mut i: usize = 0;
        proof {
            reveal(Seq::filter);
            assert(r@ =~= all@.take(0).filter(pred));
        }
        while i < all.len()
            invariant
                i <= all@.len(),
                pred == (|s: SpaceId| !before@.contains(s)),
                r@ == all@.take(i as int).filter(pred),
            decreases all@.len() - i,
        {
            proof {
                reveal(Seq::filter);
                assert(all@.take(i + 1).drop_last() =~= all@.take(i as int));
            }
            if !before.contains(all[i]) {
                r.push(all[i]);
            }
            i += 1;
        }
        proof {
            assert(all@.take(i as int) =~= all@);
            crate::collections::lemma_filter_members(all@, pred);
            if r@.len() == 0 {
                assert forall|s: SpaceId| self.active_spaces@.contains(s) implies before@.contains(
                    s,
                ) by {
                    assert(all@.contains(s));
                    if !before@.contains(s) {
                        assert(all@.filter(pred).contains(s));
                    }
                }
            } else {
                assert(r@.contains(r@[0]));
                assert(all@.contains(r@[0]));
            }
        }
        r
    }

    /// The spaces among some that a screen shows are told to the workspace
    /// model.
    pub open spec fn expose_tasks(&self, spaces: Seq<SpaceId>) -> Seq<Task> {
        spaces.filter(
            |s: SpaceId| screen_showing(self.space_manager.screens@, s) is Some,
        ).map_values(|s: SpaceId| Task::Go(Work::LayoutEvent(LayoutEvent::Changed)))
    }

    fn push_expose_tasks(&self, spaces: &Vec<SpaceId>) -> (r: Vec<Task>)
        ensures
            r@ == self.expose_tasks(spaces@),
    {
        let ghost pred = |s: SpaceId| screen_showing(self.space_manager.screens@, s) is Some;
        let ghost to_task = |s: SpaceId| Task::Go(Work::LayoutEvent(LayoutEvent::Changed));
        let mut r: Vec<Task> = no_tasks();
        let mut i: usize = 0;
        proof {
            reveal(Seq::filter);
            assert(r@ =~= spaces@.take(0).filter(pred).map_values(to_task));
        }
        while i < spaces.len()
            invariant
                i <= spaces@.len(),
                pred == (|s: SpaceId| screen_showing(self.space_manager.screens@, s) is Some),
                to_task == (|s: SpaceId| Task::Go(Work::LayoutEvent(LayoutEvent::Changed))),
                r@ == spaces@.take(i as int).filter(pred).map_values(to_task),
            decreases spaces@.len() - i,
        {
            proof {
                reveal(Seq::filter);
                assert(spaces@.take(i + 1).drop_last() =~= spaces@.take(i as int));
            }
            let ghost before = spaces@.take(i as int).filter(pred);
            if self.space_manager.screen_by_space(spaces[i]).is_some() {
                r.push(Task::Go(Work::LayoutEvent(LayoutEvent::Changed)));
                assert(r@ =~= before.push(spaces@[i as int]).map_values(to_task));
            }
            i += 1;
        }
        assert(spaces@.take(i as int) =~= spaces@);
        r
    }

    /// Which spaces are managed is known. Windows stay assigned to the
    /// workspaces of a space that is managed no longer; a space that now is
    /// gets its windows looked at and rules applied.
    pub fn active_spaces_known(&mut self, active: &Vec<Option<SpaceId>>) -> (r: Vec<Task>)
        ensures
            old(self).wf() ==> final(self).wf(),
            final(self).active_spaces@ == spaces_in(active@),
            *final(self) == (Reactor { active_spaces: final(self).active_spaces, ..*old(self) }),
            ({
                let before = old(self).active_spaces@;
                let after = *final(self);
                let gained = after.newly_managed(before);
                let again = after.pending_space_change_manager.topology_relayout_pending;
                if before == after.active_spaces@ {
                    r@.len() == 0
                } else {
                    let looked = after.expose_tasks(gained).push(
                        Task::Ask(Question::VisibleWindows, Work::ServerSnapshot),
                    ) + if again {
                        Seq::empty()
                    } else {
                        seq![Task::Go(Work::CheckForNewWindows)]
                    };
                    if gained.len() == 0 {
                        r@ == looked
                    } else {
                        &&& r@.len() == looked.len() + 1
                        &&& r@.drop_last() == looked
                        &&& r@.last() matches Task::Go(Work::RulesForSpaces(spaces)) && spaces@
                            == gained
                    }
                }
            }),
    {
        let before: IdSet<SpaceId> = self.active_spaces.copy();
        self.set_active_spaces(active);
        let gained: Vec<SpaceId> = self.find_newly_managed(&before);
        let same: bool = gained.len() == 0 && contains_all(&before, &self.active_spaces);
        if same {
            assert(before@ =~= self.active_spaces@);
            return no_tasks();
        }
        assert(before@ != self.active_spaces@);
        let mut tasks: Vec<Task> = self.push_expose_tasks(&gained);
        let ghost exposed = tasks@;
        tasks.push(Task::Ask(Question::VisibleWindows, Work::ServerSnapshot));
        if !self.pending_space_change_manager.topology_relayout_pending {
            tasks.push(Task::Go(Work::CheckForNewWindows));
        }
        let ghost looked = tasks@;
        assert(looked =~= exposed.push(
            Task::Ask(Question::VisibleWindows, Work::ServerSnapshot),
        ) + if self.pending_space_change_manager.topology_relayout_pending {
            Seq::empty()
        } else {
            seq![Task::Go(Work::CheckForNewWindows)]
        });
        if gained.len() > 0 {
            tasks.push(Task::Go(Work::RulesForSpaces(gained)));
            assert(tasks@.drop_last() =~= looked);
        }
        tasks
    }

    /// Asks every application for its windows.
    pub fn check_for_new_windows(&self) -> (r: Vec<Task>)
        ensures
            r@ == ask_apps(self.app_manager.apps.order()),
    {
        let pids: Vec<pid_t> = self.app_manager.apps.keys();
        let ghost to_task = |pid: pid_t|
            Task::Tell(Message::App(pid, Request::GetVisibleWindows));
        let mut r: Vec<Task> = no_tasks();
        let mut i: usize = 0;
        assert(r@ =~= pids@.take(0).map_values(to_task));
        while i < pids.len()
            invariant
                i <= pids@.len(),
                to_task == (|pid: pid_t|
                    Task::Tell(Message::App(pid, Request::GetVisibleWindows))),
                r@ == pids@.take(i as int).map_values(to_task),
            decreases pids@.len() - i,
        {
            r.push(Task::Tell(Message::App(pids[i], Request::GetVisibleWindows)));
            assert(r@ =~= pids@.take(i + 1).map_values(to_task));
            i += 1;
        }
        assert(pids@.take(i as int) =~= pids@);
        r
    }

    /// Asks every application for its windows, unless a relayout that is
    /// pending will.
    pub fn check_unless_relayout(&self) -> (r: Vec<Task>)
        ensures
            r@ == if self.pending_space_change_manager.topology_relayout_pending {
                Seq::empty()
            } else {
                ask_apps(self.app_manager.apps.order())
            },
    {
        if self.pending_space_change_manager.topology_relayout_pending {
            no_tasks()
        } else {
            self.check_for_new_windows()
        }
    }

    /// Asks every application for its windows and waits for each.
    pub fn force_refresh_all_windows(&self) -> (r: Vec<Task>)
        ensures
            r@.len() == 1,
            r@[0] matches Task::Ask(Question::RefreshApps(pids), Work::AppsRefreshed) && pids@
                == self.app_manager.apps.order(),
    {
        one_task(Task::Ask(Question::RefreshApps(self.app_manager.apps.keys()), Work::AppsRefreshed))
    }

    /// These applications could be asked.
    pub fn apps_refreshed(&mut self, pids: &Vec<pid_t>)
        ensures
            old(self).wf() ==> final(self).wf(),
            final(self).mission_control_manager.pending_mission_control_refresh@
                == old(self).mission_control_manager.pending_mission_control_refresh@.union(
                pids@.to_set(),
            ),
            *final(self) == (Reactor {
                mission_control_manager: final(self).mission_control_manager,
                ..*old(self)
            }),
    {
        let ghost first = self.mission_control_manager.pending_mission_control_refresh@;
        let mut i: usize = 0;
        assert(first =~= first.union(pids@.take(0).to_set()));
        while i < pids.len()
            invariant
                i <= pids@.len(),
                self.mission_control_manager.pending_mission_control_refresh@ == first.union(
                    pids@.take(i as int).to_set(),
                ),
                *self == (Reactor {
                    mission_control_manager: self.mission_control_manager,
                    ..*old(self)
                }),
            decreases pids@.len() - i,
        {
            let _ = self.mission_control_manager.pending_mission_control_refresh.insert(pids[i]);
            proof {
                let prev = pids@.take(i as int);
                let next = pids@.take(i + 1);
                assert forall|p: pid_t| next.to_set().contains(p) <==> prev.to_set().contains(p)
                    || p == pids@[i as int] by {
                    if next.contains(p) {
                        let j = choose|j: int| 0 <= j < next.len() && next[j] == p;
                        if j < i {
                            assert(prev[j] == p);
                        }
                    }
                    if prev.contains(p) {
                        let j = choose|j: int| 0 <= j < prev.len() && prev[j] == p;
                        assert(next[j] == p);
                    }
                    assert(next[i as int] == pids@[i as int]);
                }
                assert(self.mission_control_manager.pending_mission_control_refresh@ =~= first.union(
                    next.to_set(),
                ));
            }
            i += 1;
        }
        assert(pids@.take(i as int) =~= pids@);
    }

    /// The windows in sight that are on managed spaces.
    pub open spec fn on_managed(
        &self,
        list: Seq<WindowServerInfo>,
        managed: Set<WindowServerId>,
    ) -> Seq<WindowServerInfo> {
        if self.active_spaces@ == Set::<SpaceId>::empty() {
            Seq::empty()
        } else {
            list.filter(|info: WindowServerInfo| managed.contains(info.id))
        }
    }

    pub fn filter_ws_info_to_active_spaces(
        &self,
        ws_info: &Vec<WindowServerInfo>,
        managed: &IdSet<WindowServerId>,
    ) -> (r: Vec<WindowServerInfo>)
        requires
            infos_in_range(ws_info@),
        ensures
            r@ == self.on_managed(ws_info@, managed@),
            infos_in_range(r@),
    {
        let mut r: Vec<WindowServerInfo> = Vec::new();
        if self.active_spaces.is_empty() {
            return r;
        }
        let ghost pred = |info: WindowServerInfo| managed@.contains(info.id);
        let mut i: usize = 0;
        proof {
            reveal(Seq::filter);
            assert(r@ =~= ws_info@.take(0).filter(pred));
        }
        while i < ws_info.len()
            invariant
                i <= ws_info@.len(),
                infos_in_range(ws_info@),
                infos_in_range(r@),
                pred == (|info: WindowServerInfo| managed@.contains(info.id)),
                r@ == ws_info@.take(i as int).filter(pred),
            decreases ws_info@.len() - i,
        {
            proof {
                reveal(Seq::filter);
                assert(ws_info@.take(i + 1).drop_last() =~= ws_info@.take(i as int));
            }
            if managed.contains(ws_info[i].id) {
                r.push(ws_info[i]);
            }
            i += 1;
        }
        assert(ws_info@.take(i as int) =~= ws_info@);
        r
    }

    /// Takes over what the window server says of all windows in sight on
    /// managed spaces.
    pub fn server_snapshot(
        &mut self,
        ws_info: &Vec<WindowServerInfo>,
        managed: &IdSet<WindowServerId>,
    )
        requires
            old(self).wf(),
            infos_in_range(ws_info@),
        ensures
            final(self).wf(),
            final(self).window_manager.server_model() == (ServerModel {
                visible: Set::empty(),
                ..old(self).window_manager.server_model()
            }).described_by(
                old(self).on_managed(ws_info@, managed@),
                old(self).window_manager.window_ids@,
            ),
            only_descriptions_changed(old(self).window_manager, final(self).window_manager),
            final(self).window_manager.windows.order()
                == old(self).window_manager.windows.order(),
            *final(self) == (Reactor { window_manager: final(self).window_manager, ..*old(self) }),
    {
        let list: Vec<WindowServerInfo> = self.filter_ws_info_to_active_spaces(ws_info, managed);
        self.window_manager.update_complete_window_server_info(&list);
    }

    /// The main window has the focus if it is anywhere.
    pub fn focus_main_window(&self, sur: &Surroundings) -> (r: Vec<Task>)
        requires
            self.wf(),
        ensures
            r@ == match self.main_wid() {
                Some(main) => if self.main_space(*sur) is Some {
                    seq![Task::Go(Work::LayoutEvent(LayoutEvent::WindowFocused(main)))]
                } else {
                    Seq::empty()
                },
                None => Seq::empty(),
            },
    {
        match self.main_window() {
            Some(main) => if self.main_window_space(sur).is_some() {
                one_task(Task::Go(Work::LayoutEvent(LayoutEvent::WindowFocused(main))))
            } else {
                no_tasks()
            },
            None => no_tasks(),
        }
    }

    /// Tells subscribers which workspace the first managed space shows.
    pub fn announce_workspace(&self, spaces: &Vec<Option<SpaceId>>) -> (r: Vec<Task>)
        ensures
            match first_managed(*self, spaces@) {
                Some(space) => match self.shown_workspace(space) {
                    Some(workspace) => if self.number_of(workspace) is Some {
                        r@.len() == 1 && announces(r@[0], *self, space, workspace)
                    } else {
                        r@.len() == 0
                    },
                    None => r@.len() == 0,
                },
                None => r@.len() == 0,
            },
    {
        let space: SpaceId = match self.find_first_managed(spaces) {
            Some(space) => space,
            None => {
                return no_tasks();
            },
        };
        let workspace: WorkspaceId = match self.active_workspace_for_space(space) {
            Some(workspace) => workspace,
            None => {
                return no_tasks();
            },
        };
        match self.workspace_metadata(workspace) {
            Some((_, name)) => {
                let display_uuid: Option<String> = self.display_uuid_for_space(space);
                proof {
                    let all = self.core.workspaces@;
                    let pred = |w: CoreWorkspace| w.id == workspace;
                    if let Some(place) = first_index(all, pred) {
                        assert(crate::collections::first_at(all, pred, place));
                    }
                }
                one_task(
                    Task::Tell(
                        Message::Broadcast(
                            BroadcastEvent::WorkspaceChanged {
                                space_id: space,
                                workspace_id: workspace,
                                workspace_name: name,
                                display_uuid,
                            },
                        ),
                    ),
                )
            },
            None => no_tasks(),
        }
    }

    fn find_first_managed(&self, spaces: &Vec<Option<SpaceId>>) -> (r: Option<SpaceId>)
        ensures
            r == first_managed(*self, spaces@),
    {
        let mut i: usize = 0;
        assert(spaces@.skip(0) =~= spaces@);
        while i < spaces.len()
            invariant
                i <= spaces@.len(),
                first_managed(*self, spaces@) == first_managed(*self, spaces@.skip(i as int)),
            decreases spaces@.len() - i,
        {
            assert(spaces@.skip(i as int).drop_first() =~= spaces@.skip(i + 1));
            if let Some(space) = spaces[i] {
                if self.is_space_active(space) {
                    return Some(space);
                }
            }
            i += 1;
        }
        None
    }

    /// The managed spaces among those that screens show, once per screen.
    pub open spec fn managed_known_spaces(&self) -> Seq<SpaceId> {
        known_spaces(self.space_manager.screens@).filter(|s: SpaceId| self.is_active(s))
    }

    pub(crate) fn find_managed_known_spaces(&self) -> (r: Vec<SpaceId>)
        ensures
            r@ == self.managed_known_spaces(),
    {
        let all: Vec<SpaceId> = self.space_manager.iter_known_spaces();
        let ghost pred = |s: SpaceId| self.is_active(s);
        let mut r: Vec<SpaceId> = Vec::new();
        let mut i: usize = 0;
        proof {
            reveal(Seq::filter);
            assert(r@ =~= all@.take(0).filter(pred));
        }
        while i < all.len()
            invariant
                i <= all@.len(),
                pred == (|s: SpaceId| self.is_active(s)),
                r@ == all@.take(i as int).filter(pred),
            decreases all@.len() - i,
        {
            proof {
                reveal(Seq::filter);
                assert(all@.take(i + 1).drop_last() =~= all@.take(i as int));
            }
            if self.is_space_active(all[i]) {
                r.push(all[i]);
            }
            i += 1;
        }
        assert(all@.take(i as int) =~= all@);
        r
    }

    /// What follows once the screens show other spaces: each is told to the
    /// workspace model, the main window keeps the focus, windows in sight are
    /// looked at, and subscribers are told.
    pub fn finalize_space_change(&mut self, spaces: Vec<Option<SpaceId>>) -> (r: Vec<Task>)
        ensures
            old(self).wf() ==> final(self).wf(),
            *final(self) == (Reactor {
                refocus_manager: RefocusManager {
                    stale_cleanup_state: if all_empty(spaces@) {
                        StaleCleanupState::Suppressed
                    } else {
                        StaleCleanupState::Enabled
                    },
                    ..old(self).refocus_manager
                },
                ..*old(self)
            }),
            r@ == old(self).expose_tasks(old(self).managed_known_spaces()) + seq![
                Task::Go(Work::FocusMainWindow),
                Task::Ask(Question::VisibleWindows, Work::ServerSnapshot),
                Task::Go(Work::CheckUnlessRelayout),
                Task::Go(Work::AnnounceWorkspace(spaces)),
            ],
    {
        self.refocus_manager.stale_cleanup_state = if are_all_empty(&spaces) {
            StaleCleanupState::Suppressed
        } else {
            StaleCleanupState::Enabled
        };
        let managed: Vec<SpaceId> = self.find_managed_known_spaces();
        proof {
            assert((|s: SpaceId| self.is_active(s)) =~= (|s: SpaceId| old(self).is_active(s)));
        }
        let mut tasks: Vec<Task> = self.push_expose_tasks(&managed);
        let ghost told = tasks@;
        tasks.push(Task::Go(Work::FocusMainWindow));
        tasks.push(Task::Ask(Question::VisibleWindows, Work::ServerSnapshot));
        tasks.push(Task::Go(Work::CheckUnlessRelayout));
        tasks.push(Task::Go(Work::AnnounceWorkspace(spaces)));
        assert(tasks@ =~= told + seq![
            Task::Go(Work::FocusMainWindow),
            Task::Ask(Question::VisibleWindows, Work::ServerSnapshot),
            Task::Go(Work::CheckUnlessRelayout),
            Task::Go(Work::AnnounceWorkspace(spaces)),
        ]);
        tasks
    }
}

/// Whether a set holds another's members.
fn contains_all(part: &IdSet<SpaceId>, whole: &IdSet<SpaceId>) -> (r: bool)
    ensures
        r == part@.subset_of(whole@),
{
    let items: Vec<SpaceId> = part.items();
    let mut i: usize = 0;
    while i < items.len()
        invariant
            i <= items@.len(),
            forall|s: SpaceId| #[trigger] items@.contains(s) <==> part@.contains(s),
            forall|j: int| 0 <= j < i ==> whole@.contains(#[trigger] items@[j]),
        decreases items@.len() - i,
    {
        if !whole.contains(items[i]) {
            assert(items@.contains(items@[i as int]));
            return false;
        }
        i += 1;
    }
    proof {
        assert forall|s: SpaceId| part@.contains(s) implies whole@.contains(s) by {
            assert(items@.contains(s));
        }
    }
    true
}

/// What the screens are said to show is what they show.
pub proof fn law_screens_show_what_was_set(screens: Seq<ScreenInfo>, spaces: Seq<Option<SpaceId>>)
    requires
        spaces.len() == screens.len(),
    ensures
        slots_of(screens_showing(screens, spaces)) == spaces,
{
    assert(slots_of(screens_showing(screens, spaces)) =~= spaces);
}

/// The managed spaces are those that the policy leaves in place.
pub proof fn law_managed_spaces_are_those_left_in_place(slots: Seq<Option<SpaceId>>, space: SpaceId)
    ensures
        spaces_in(slots).contains(space) <==> exists|i: int|
            0 <= i < slots.len() && #[trigger] slots[i] == Some(space),
{
    if slots.contains(Some(space)) {
        let i = slots.index_of(Some(space));
        assert(slots[i] == Some(space));
    }
}

/// A space is newly managed if it is managed now and was not before.
pub proof fn law_newly_managed_spaces(m: Reactor, before: Set<SpaceId>, space: SpaceId)
    requires
        forall|s: SpaceId| #[trigger]
            m.active_spaces.order().contains(s) <==> m.active_spaces@.contains(s),
    ensures
        m.newly_managed(before).contains(space) <==> m.active_spaces@.contains(space)
            && !before.contains(space),
{
    lemma_filter_members(m.active_spaces.order(), |s: SpaceId| !before.contains(s));
}

/// The layout looks at the spaces among those named that some screen shows.
pub proof fn law_layout_looks_at_shown_spaces(m: Reactor, spaces: Seq<SpaceId>)
    ensures
        m.expose_tasks(spaces).len() > 0 <==> exists|i: int, j: int|
            0 <= i < spaces.len() && 0 <= j < m.space_manager.screens@.len() && (
            #[trigger] m.space_manager.screens@[j]).space == Some(#[trigger] spaces[i]),
        forall|k: int|
            0 <= k < m.expose_tasks(spaces).len() ==> #[trigger] m.expose_tasks(spaces)[k]
                == Task::Go(Work::LayoutEvent(LayoutEvent::Changed)),
{
    let screens = m.space_manager.screens@;
    let pred = |s: SpaceId| screen_showing(screens, s) is Some;
    let kept = spaces.filter(pred);
    lemma_filter_members(spaces, pred);
    assert(m.expose_tasks(spaces).len() == kept.len());
    if kept.len() > 0 {
        assert(kept.contains(kept[0]));
        let i = spaces.index_of(kept[0]);
        let j = screen_showing(screens, kept[0])->0;
        law_screen_of_a_space_is_the_first_that_shows_it(screens, kept[0], j);
        assert(screens[j].space == Some(spaces[i]));
    }
    if exists|i: int, j: int|
        0 <= i < spaces.len() && 0 <= j < screens.len() && (#[trigger] screens[j]).space == Some(
            #[trigger] spaces[i],
        ) {
        let (i, j) = choose|i: int, j: int|
            0 <= i < spaces.len() && 0 <= j < screens.len() && (#[trigger] screens[j]).space
                == Some(#[trigger] spaces[i]);
        law_screen_of_a_space_is_the_first_that_shows_it(screens, spaces[i], j);
        assert(spaces.contains(spaces[i]));
        assert(kept.contains(spaces[i]));
    }
}

/// The space that is announced is the first managed one.
pub proof fn law_first_managed_space(
    m: Reactor,
    slots: Seq<Option<SpaceId>>,
    i: int,
    space: SpaceId,
)
    ensures
        0 <= i < slots.len() && slots[i] == Some(space) && m.active_spaces@.contains(space) && (
        forall|j: int|
            0 <= j < i ==> (#[trigger] slots[j] matches Some(s) ==> !m.active_spaces@.contains(s)))
            ==> first_managed(m, slots) == Some(space),
        first_managed(m, slots) matches Some(s) ==> m.active_spaces@.contains(s) && slots.contains(
            Some(s),
        ),
    decreases slots.len(),
{
    if slots.len() > 0 {
        let rest = slots.drop_first();
        law_first_managed_space(m, rest, i - 1, space);
        if let Some(s) = first_managed(m, rest) {
            let k = rest.index_of(Some(s));
            assert(slots[k + 1] == Some(s));
        }
        assert(slots.contains(slots[0]));
        if 0 < i < slots.len() {
            assert(rest[i - 1] == slots[i]);
            if forall|j: int|
                0 <= j < i ==> (#[trigger] slots[j] matches Some(s) ==> !m.active_spaces@.contains(
                    s,
                )) {
                assert(slots[0] matches Some(s) ==> !m.active_spaces@.contains(s));
                assert forall|j: int| 0 <= j < i - 1 implies (#[trigger] rest[j] matches Some(s)
                    ==> !m.active_spaces@.contains(s)) by {
                    assert(rest[j] == slots[j + 1]);
                }
            }
        }
    }
}

/// The windows in sight that count are those on managed spaces, and none
/// while no space is managed.
pub proof fn law_windows_on_managed_spaces_count(
    m: Reactor,
    list: Seq<WindowServerInfo>,
    managed: Set<WindowServerId>,
    info: WindowServerInfo,
    space: SpaceId,
)
    ensures
        m.active_spaces@.contains(space) ==> (m.on_managed(list, managed).contains(info)
            <==> list.contains(info) && managed.contains(info.id)),
        (forall|s: SpaceId| !m.active_spaces@.contains(s)) ==> m.on_managed(list, managed).len()
            == 0,
{
    lemma_filter_members(list, |info: WindowServerInfo| managed.contains(info.id));
    if m.active_spaces@.contains(space) {
        assert(m.active_spaces@ != Set::<SpaceId>::empty());
    }
    if forall|s: SpaceId| !m.active_spaces@.contains(s) {
        assert(m.active_spaces@ =~= Set::<SpaceId>::empty());
    }
}

/// The managed known spaces are the managed ones that some screen shows.
pub proof fn law_managed_known_spaces(m: Reactor, space: SpaceId)
    ensures
        m.managed_known_spaces().contains(space) <==> m.active_spaces@.contains(space)
            && exists|i: int|
            0 <= i < m.space_manager.screens@.len() && (
            #[trigger] m.space_manager.screens@[i]).space == Some(space),
{
    lemma_filter_members(known_spaces(m.space_manager.screens@), |s: SpaceId| m.is_active(s));
    law_known_spaces_are_the_shown_ones(m.space_manager.screens@, space);
}

/// Setting the screens' spaces changes nothing else of them, and leaves a
/// screen alone that no space is said of.
pub proof fn law_setting_spaces_keeps_the_screens(
    screens: Seq<ScreenInfo>,
    spaces: Seq<Option<SpaceId>>,
    i: int,
)
    requires
        0 <= i < screens.len(),
    ensures
        screens_showing(screens, spaces).len() == screens.len(),
        screens_showing(screens, spaces)[i].frame == screens[i].frame,
        screens_showing(screens, spaces)[i].id == screens[i].id,
        screens_showing(screens, spaces)[i].display_uuid == screens[i].display_uuid,
        screens_showing(screens, spaces)[i].space == if i < spaces.len() {
            spaces[i]
        } else {
            screens[i].space
        },
{
}

/// Every application is asked for its windows once.
pub proof fn law_every_application_is_asked(pids: Seq<pid_t>, i: int)
    requires
        0 <= i < pids.len(),
    ensures
        ask_apps(pids).len() == pids.len(),
        ask_apps(pids)[i] == Task::Tell(Message::App(pids[i], Request::GetVisibleWindows)),
{
}

/// The policy goes by the settings and by whether one space is set apart.
pub proof fn law_policy_goes_by_the_settings(m: Reactor)
    ensures
        m.activation_settings().default_disable == m.config.settings.default_disable,
        m.activation_settings().one_space == m.one_space,
{
}

} // verus!
