//! Spaces that come into view, also after Mission Control.

use vstd::prelude::*;

use crate::collections::copy_list;
use crate::event::{ScreenInfo, WindowServerInfo};
use crate::ids::{pid_t, SpaceId};
use crate::notification_center::same_spaces;
use crate::reactor::events::space::SpaceEventHandler;
use crate::reactor::managers::{
    PendingSpaceChangeManager, RefocusManager, SpaceManager, StaleCleanupState,
};
use crate::reactor::server_info::{infos_in_range, only_descriptions_changed, ServerModel};
use crate::reactor::space_changes::{
    all_empty, are_all_empty, asks_policy, put_spaces, raw_spaces, screens_showing, slots_of,
    tells_policy,
};
use crate::reactor::surroundings::Surroundings;
use crate::reactor::task::{
    no_tasks, one_task, two_tasks, CoreInput, LayoutEvent, Message, Question, Task, Work,
};
use crate::reactor::topology_commit::copy_screens;
use crate::reactor::Reactor;

verus! {

/// Whether a report of spaces is one to act on.
#[derive(Copy, Clone, Debug, PartialEq, Eq, Structural)]
pub enum SpaceReport {
    /// More spaces than screens, none that is new, or not those of the
    /// screens that a relayout waits for.
    Ignored,
    Due,
}

impl Reactor {
    /// Whether a report of spaces is one to act on.
    pub open spec fn judge_spaces(&self, spaces: Seq<Option<SpaceId>>) -> SpaceReport {
        let screens = self.space_manager.screens@;
        let relayout = self.pending_space_change_manager.topology_relayout_pending;
        if spaces.len() > screens.len() {
            SpaceReport::Ignored
        } else if spaces == slots_of(screens) && !relayout
            && self.display_topology_manager@.state is Stable && !self.has_fullscreen_from_any(
            spaces,
        ) {
            SpaceReport::Ignored
        } else if relayout && spaces.len() != screens.len() {
            SpaceReport::Ignored
        } else {
            SpaceReport::Due
        }
    }

    fn judge_space_report(&self, spaces: &Vec<Option<SpaceId>>) -> (r: SpaceReport)
        ensures
            r == self.judge_spaces(spaces@),
    {
        if spaces.len() > self.space_manager.screens.len() {
            return SpaceReport::Ignored;
        }
        let relayout: bool = self.pending_space_change_manager.topology_relayout_pending;
        let shown: Vec<Option<SpaceId>> = raw_spaces(&self.space_manager.screens);
        if same_spaces(spaces, &shown) && !relayout
            && !self.display_topology_manager.is_churning_or_awaiting_commit()
            && !self.has_fullscreen_windows_for_spaces(spaces) {
            return SpaceReport::Ignored;
        }
        if relayout && spaces.len() != self.space_manager.screens.len() {
            return SpaceReport::Ignored;
        }
        SpaceReport::Due
    }

    /// The tasks by which windows come back from fullscreen before what the
    /// screens show otherwise is dealt with.
    pub open spec fn is_transition(
        &self,
        tasks: Seq<Task>,
        spaces: Seq<Option<SpaceId>>,
        sur: Surroundings,
        last: Work,
    ) -> bool {
        let kept = self.preserved(spaces, sur);
        tasks == self.ordinary_spaces(kept, sur).map_values(
            |space: SpaceId| Task::Go(Work::RestoreFromFullscreen(space)),
        ).push(Task::Go(last))
    }
}

impl SpaceEventHandler {
    /// Other spaces came into view. What is left besides fullscreen spaces is
    /// dealt with once windows have come back from fullscreen.
    pub fn handle_space_changed(
        reactor: &Reactor,
        spaces: Vec<Option<SpaceId>>,
        sur: &Surroundings,
    ) -> (r: Vec<Task>)
        ensures
            ({
                let kept = reactor.preserved(spaces@, *sur);
                if reactor.judge_spaces(spaces@) == SpaceReport::Ignored
                    || reactor.all_fullscreen(kept, *sur) {
                    r@.len() == 0
                } else {
                    r@.len() > 0 && (r@.last() matches Task::Go(Work::SpaceChangeDue(left))
                        && left@ == reactor.without_fullscreen(kept, *sur)
                        && reactor.is_transition(
                        r@,
                        spaces@,
                        *sur,
                        Work::SpaceChangeDue(left),
                    ))
                }
            }),
    {
        if reactor.judge_space_report(&spaces) == SpaceReport::Ignored {
            return no_tasks();
        }
        match reactor.handle_fullscreen_space_transition(spaces, sur) {
            Some((left, tasks)) => {
                let mut r: Vec<Task> = tasks;
                r.push(Task::Go(Work::SpaceChangeDue(left)));
                r
            },
            None => no_tasks(),
        }
    }

    /// Deals with what the screens show. During Mission Control that waits;
    /// when they show nothing, stale windows are not looked for.
    pub fn space_change_due(reactor: &mut Reactor, spaces: Vec<Option<SpaceId>>) -> (r: Vec<Task>)
        requires
            old(reactor).wf(),
        ensures
            final(reactor).wf(),
            space_change_made(
                *old(reactor),
                *final(reactor),
                r@,
                spaces,
            ),
    {
        if reactor.core.mission_control_active {
            reactor.pending_space_change_manager.pending_space_change = Some(spaces);
            return no_tasks();
        }
        if are_all_empty(&spaces) {
            reactor.refocus_manager.stale_cleanup_state = StaleCleanupState::Suppressed;
            if spaces.len() == reactor.space_manager.screens.len() {
                reactor.set_screen_spaces(&spaces);
            }
            return one_task(reactor.recompute_and_set_active_spaces(spaces));
        }
        if spaces.len() != reactor.space_manager.screens.len() {
            return no_tasks();
        }
        reactor.refocus_manager.stale_cleanup_state = StaleCleanupState::Enabled;
        let mut screens: Vec<ScreenInfo> = copy_screens(&reactor.space_manager.screens);
        put_spaces(&mut screens, &spaces);
        let mut tasks: Vec<Task> = two_tasks(
            reactor.tell_policy(screens),
            reactor.recompute_and_set_active_spaces(copy_list(&spaces)),
        );
        tasks.push(Task::Go(Work::ShowSpaces(spaces)));
        tasks.push(Task::Go(Work::RelayoutIfPending));
        tasks.push(Task::Go(Work::CommitTopologyIfReady));
        tasks
    }

    /// The screens show these spaces from now on.
    pub fn show_spaces(reactor: &mut Reactor, spaces: Vec<Option<SpaceId>>) -> (r: Vec<Task>)
        requires
            old(reactor).wf(),
        ensures
            final(reactor).wf(),
            final(reactor).space_manager.screens@ == screens_showing(
                old(reactor).space_manager.screens@,
                spaces@,
            ),
            *final(reactor) == (Reactor {
                space_manager: SpaceManager {
                    screens: final(reactor).space_manager.screens,
                    ..old(reactor).space_manager
                },
                ..*old(reactor)
            }),
            r@ == seq![Task::Go(Work::SpacesShown(spaces))],
    {
        reactor.set_screen_spaces(&spaces);
        one_task(Task::Go(Work::SpacesShown(spaces)))
    }

    /// Windows are laid out once after displays changed.
    pub fn relayout_if_pending(reactor: &mut Reactor) -> (r: Vec<Task>)
        ensures
            old(reactor).wf() ==> final(reactor).wf(),
            *final(reactor) == (Reactor {
                pending_space_change_manager: PendingSpaceChangeManager {
                    topology_relayout_pending: false,
                    ..old(reactor).pending_space_change_manager
                },
                ..*old(reactor)
            }),
            r@ == if old(reactor).pending_space_change_manager.topology_relayout_pending {
                seq![
                    Task::Go(Work::ForceRefresh),
                    Task::Go(Work::UpdateLayout { is_resize: false, is_workspace_switch: false }),
                ]
            } else {
                Seq::empty()
            },
    {
        if !reactor.pending_space_change_manager.topology_relayout_pending {
            return no_tasks();
        }
        reactor.pending_space_change_manager.topology_relayout_pending = false;
        two_tasks(
            Task::Go(Work::ForceRefresh),
            Task::Go(Work::UpdateLayout { is_resize: false, is_workspace_switch: false }),
        )
    }

    /// Windows are to be laid out once the spaces of changed displays are
    /// known.
    pub fn arm_relayout(reactor: &mut Reactor)
        ensures
            old(reactor).wf() ==> final(reactor).wf(),
            *final(reactor) == (Reactor {
                pending_space_change_manager: PendingSpaceChangeManager {
                    topology_relayout_pending: true,
                    ..old(reactor).pending_space_change_manager
                },
                ..*old(reactor)
            }),
    {
        reactor.pending_space_change_manager.topology_relayout_pending = true;
    }

    /// No window is in sight.
    pub fn nothing_in_sight(reactor: &mut Reactor)
        requires
            old(reactor).wf(),
        ensures
            final(reactor).wf(),
            final(reactor).window_manager.server_model() == (ServerModel {
                visible: Set::empty(),
                ..old(reactor).window_manager.server_model()
            }),
            only_descriptions_changed(old(reactor).window_manager, final(reactor).window_manager),
            *final(reactor) == (Reactor {
                window_manager: final(reactor).window_manager,
                ..*old(reactor)
            }),
    {
        let none: Vec<WindowServerInfo> = Vec::new();
        reactor.window_manager.update_complete_window_server_info(&none);
    }

    /// Managed spaces on screens that are new or have another size are told
    /// to the workspace model.
    pub fn expose_resized(reactor: &Reactor, spaces: &Vec<SpaceId>) -> (r: Vec<Task>)
        ensures
            r@ == spaces@.filter(|s: SpaceId| reactor.is_active(s)).map_values(
                |s: SpaceId| Task::Go(Work::LayoutEvent(LayoutEvent::Changed)),
            ),
    {
        let ghost pred = |s: SpaceId| reactor.is_active(s);
        let ghost to_task = |s: SpaceId| Task::Go(Work::LayoutEvent(LayoutEvent::Changed));
        let mut r: Vec<Task> = no_tasks();
        let mut i: usize = 0;
        proof {
            reveal(Seq::filter);
            assert(r@ =~= spaces@.take(0).filter(pred).map_values(to_task));
        }
        while i < spaces.len()
            invariant
                i <= spaces@.len(),
                pred == (|s: SpaceId| reactor.is_active(s)),
                to_task == (|s: SpaceId| Task::Go(Work::LayoutEvent(LayoutEvent::Changed))),
                r@ == spaces@.take(i as int).filter(pred).map_values(to_task),
            decreases spaces@.len() - i,
        {
            proof {
                reveal(Seq::filter);
                assert(spaces@.take(i + 1).drop_last() =~= spaces@.take(i as int));
            }
            let ghost before = spaces@.take(i as int).filter(pred);
            if reactor.is_space_active(spaces[i]) {
                r.push(Task::Go(Work::LayoutEvent(LayoutEvent::Changed)));
                assert(r@ =~= before.push(spaces@[i as int]).map_values(to_task));
            }
            i += 1;
        }
        assert(spaces@.take(i as int) =~= spaces@);
        r
    }

    /// Deals with spaces that came into view during Mission Control, once
    /// they are as many as the screens.
    pub fn apply_pending_space_change(reactor: &mut Reactor, sur: &Surroundings) -> (r: Vec<Task>)
        ensures
            old(reactor).wf() ==> final(reactor).wf(),
            pending_change_applied(
                *old(reactor),
                *final(reactor),
                r@,
                *sur,
            ),
    {
        let pending: Vec<Option<SpaceId>> =
            match &reactor.pending_space_change_manager.pending_space_change {
            Some(pending) => {
                if pending.len() != reactor.space_manager.screens.len() {
                    return no_tasks();
                }
                copy_list(pending)
            },
            None => {
                return no_tasks();
            },
        };
        let tasks: Option<(Vec<Option<SpaceId>>, Vec<Task>)> =
            reactor.handle_fullscreen_space_transition(pending, sur);
        reactor.pending_space_change_manager.pending_space_change = None;
        match tasks {
            Some((left, back)) => {
                let ghost returned = back@;
                let mut r: Vec<Task> = back;
                r.push(reactor.recompute_and_set_active_spaces(copy_list(&left)));
                r.push(Task::Go(Work::ShowSpaces(left)));
                assert(r@.drop_last().drop_last() =~= returned);
                r
            },
            None => no_tasks(),
        }
    }

    pub fn handle_mission_control_native_entered(reactor: &Reactor) -> (r: Vec<Task>)
        ensures
            r@ == if reactor.core.mission_control_active {
                Seq::empty()
            } else {
                seq![
                    Task::Ask(
                        Question::Core(CoreInput::MissionControl { active: true }),
                        Work::MissionControlObserved,
                    ),
                ]
            },
    {
        reactor.set_mission_control_active(true)
    }

    /// Mission Control is over: spaces that came into view meanwhile are dealt
    /// with, missing ones are asked for, and windows are looked at.
    pub fn handle_mission_control_native_exited(reactor: &Reactor) -> (r: Vec<Task>)
        ensures
            r@ == mission_control_left(*reactor),
    {
        let mut tasks: Vec<Task> = reactor.set_mission_control_active(false);
        let ghost first = tasks@;
        tasks.push(Task::Go(Work::ApplyPendingSpaceChange));
        tasks.push(Task::Go(Work::RepairSpaces));
        tasks.push(Task::Go(Work::RefreshAfterMissionControl));
        assert(tasks@ =~= first + seq![
            Task::Go(Work::ApplyPendingSpaceChange),
            Task::Go(Work::RepairSpaces),
            Task::Go(Work::RefreshAfterMissionControl),
        ]);
        tasks
    }

    /// After Mission Control, the system may not report the spaces again that
    /// it reported as none. If no space is managed or shown, they are asked
    /// for.
    pub fn repair_spaces_after_mission_control(reactor: &Reactor) -> (r: Vec<Task>)
        ensures
            ({
                let screens = reactor.space_manager.screens@;
                r@ == if screens.len() > 0 && (reactor.active_spaces@ == Set::<SpaceId>::empty()
                    || all_empty(slots_of(screens))) {
                    seq![Task::Ask(Question::CurrentSpaces, Work::CurrentSpacesKnown)]
                } else {
                    Seq::empty()
                }
            }),
    {
        let shown: Vec<Option<SpaceId>> = raw_spaces(&reactor.space_manager.screens);
        if shown.len() > 0 && (reactor.active_spaces.is_empty() || are_all_empty(&shown)) {
            one_task(Task::Ask(Question::CurrentSpaces, Work::CurrentSpacesKnown))
        } else {
            no_tasks()
        }
    }

    /// Which space each display shows is known, where it is.
    pub fn current_spaces_known(reactor: &mut Reactor, current: &Vec<Option<SpaceId>>) -> (r: Vec<
        Task,
    >)
        requires
            old(reactor).wf(),
            current@.len() == old(reactor).space_manager.screens@.len(),
        ensures
            final(reactor).wf(),
            ({
                let before = *old(reactor);
                let after = *final(reactor);
                let spaces = completed(current@, slots_of(before.space_manager.screens@));
                if all_empty(spaces) {
                    r@.len() == 0 && after == before
                } else {
                    &&& r@.len() == 1
                    &&& asks_policy(
                        r@[0],
                        before.activation_settings(),
                        spaces,
                        after.space_manager.screens@,
                    )
                    &&& after.space_manager.screens@ == screens_showing(
                        before.space_manager.screens@,
                        spaces,
                    )
                    &&& after == (Reactor {
                        space_manager: SpaceManager {
                            screens: after.space_manager.screens,
                            ..before.space_manager
                        },
                        ..before
                    })
                }
            }),
    {
        let mut spaces: Vec<Option<SpaceId>> = Vec::new();
        let mut i: usize = 0;
        while i < current.len()
            invariant
                i <= current@.len(),
                current@.len() == reactor.space_manager.screens@.len(),
                spaces@.len() == i,
                forall|j: int|
                    0 <= j < i ==> #[trigger] spaces@[j] == if current@[j] is Some {
                        current@[j]
                    } else {
                        reactor.space_manager.screens@[j].space
                    },
            decreases current@.len() - i,
        {
            if current[i].is_some() {
                spaces.push(current[i]);
            } else {
                spaces.push(reactor.space_manager.screens[i].space);
            }
            i += 1;
        }
        assert(spaces@ =~= completed(current@, slots_of(reactor.space_manager.screens@)));
        if are_all_empty(&spaces) {
            return no_tasks();
        }
        reactor.set_screen_spaces(&spaces);
        one_task(reactor.recompute_and_set_active_spaces(spaces))
    }

    /// Looks at windows after Mission Control. On a fullscreen space
    /// applications would leave out their other windows, so nothing is done
    /// there.
    pub fn refresh_windows_after_mission_control(sur: &Surroundings) -> (r: Vec<Task>)
        ensures
            r@ == if sur.active_space matches Some(s) && sur.user_spaces@.contains(s) {
                seq![Task::Ask(Question::VisibleWindows, Work::MissionControlWindows)]
            } else {
                Seq::empty()
            },
    {
        if sur.active_space_is_user() {
            one_task(Task::Ask(Question::VisibleWindows, Work::MissionControlWindows))
        } else {
            no_tasks()
        }
    }

    /// The windows in sight after Mission Control are known.
    pub fn mission_control_windows(reactor: &mut Reactor, ws_info: &Vec<WindowServerInfo>) -> (r:
        Vec<Task>)
        requires
            old(reactor).wf(),
            infos_in_range(ws_info@),
        ensures
            final(reactor).wf(),
            final(reactor).window_manager.server_model()
                == old(reactor).window_manager.server_model().described_by(
                ws_info@,
                old(reactor).window_manager.window_ids@,
            ),
            only_descriptions_changed(old(reactor).window_manager, final(reactor).window_manager),
            final(reactor).mission_control_manager.pending_mission_control_refresh@
                == Set::<pid_t>::empty(),
            *final(reactor) == (Reactor {
                window_manager: final(reactor).window_manager,
                mission_control_manager: final(reactor).mission_control_manager,
                ..*old(reactor)
            }),
            r@ == seq![
                Task::Go(Work::ForceRefresh),
                Task::Go(Work::CheckForNewWindows),
                Task::Go(Work::UpdateLayout { is_resize: false, is_workspace_switch: false }),
                Task::Tell(Message::MenuUpdate),
            ],
    {
        reactor.window_manager.update_partial_window_server_info(ws_info);
        reactor.mission_control_manager.pending_mission_control_refresh.clear();
        let mut tasks: Vec<Task> = two_tasks(
            Task::Go(Work::ForceRefresh),
            Task::Go(Work::CheckForNewWindows),
        );
        tasks.push(Task::Go(Work::UpdateLayout { is_resize: false, is_workspace_switch: false }));
        tasks.push(Task::Tell(Message::MenuUpdate));
        assert(tasks@ =~= seq![
            Task::Go(Work::ForceRefresh),
            Task::Go(Work::CheckForNewWindows),
            Task::Go(Work::UpdateLayout { is_resize: false, is_workspace_switch: false }),
            Task::Tell(Message::MenuUpdate),
        ]);
        tasks
    }
}

/// The spaces that displays show, and what they showed where that is not
/// known.
pub open spec fn completed(current: Seq<Option<SpaceId>>, shown: Seq<Option<SpaceId>>) -> Seq<
    Option<SpaceId>,
> {
    Seq::new(
        current.len(),
        |i: int|
            if current[i] is Some {
                current[i]
            } else {
                shown[i]
            },
    )
}

/// The same spaces again are ignored while nothing else is going on.
pub proof fn law_repeated_space_report_is_ignored(m: Reactor)
    requires
        !m.pending_space_change_manager.topology_relayout_pending,
        m.display_topology_manager@.state is Stable,
        !m.has_fullscreen_from_any(slots_of(m.space_manager.screens@)),
    ensures
        m.judge_spaces(slots_of(m.space_manager.screens@)) == SpaceReport::Ignored,
{
}

/// A report of spaces is ignored if it is about more screens than there are,
/// or not about all of them while a relayout waits for it, or if it says what
/// is known while displays are settled, nothing waits, and no window is in
/// fullscreen from those spaces. Any other is acted on.
pub proof fn law_space_reports_that_say_nothing_new_are_ignored(
    m: Reactor,
    spaces: Seq<Option<SpaceId>>,
    i: int,
)
    ensures
        spaces.len() > m.space_manager.screens@.len() ==> m.judge_spaces(spaces)
            == SpaceReport::Ignored,
        m.pending_space_change_manager.topology_relayout_pending && spaces.len()
            != m.space_manager.screens@.len() ==> m.judge_spaces(spaces) == SpaceReport::Ignored,
        m.pending_space_change_manager.topology_relayout_pending && spaces.len()
            == m.space_manager.screens@.len() ==> m.judge_spaces(spaces) == SpaceReport::Due,
        spaces.len() <= m.space_manager.screens@.len()
            && !m.pending_space_change_manager.topology_relayout_pending && 0 <= i < spaces.len()
            && spaces[i] != m.space_manager.screens@[i].space ==> m.judge_spaces(spaces)
            == SpaceReport::Due,
        spaces == slots_of(m.space_manager.screens@) && !(m.display_topology_manager@.state
            is Stable) ==> m.judge_spaces(spaces) == SpaceReport::Due,
        spaces == slots_of(m.space_manager.screens@) && m.display_topology_manager@.state is Stable
            && !m.pending_space_change_manager.topology_relayout_pending
            && !m.has_fullscreen_from_any(spaces) ==> m.judge_spaces(spaces)
            == SpaceReport::Ignored,
        spaces == slots_of(m.space_manager.screens@) && m.has_fullscreen_from_any(spaces)
            ==> m.judge_spaces(spaces) == SpaceReport::Due,
{
    if 0 <= i < spaces.len() && i < m.space_manager.screens@.len() {
        assert(slots_of(m.space_manager.screens@)[i] == m.space_manager.screens@[i].space);
    }
}

/// A screen shows what the system says of it now, or else what it showed.
pub proof fn law_missing_spaces_are_completed(
    current: Seq<Option<SpaceId>>,
    shown: Seq<Option<SpaceId>>,
    i: int,
    space: SpaceId,
)
    requires
        0 <= i < current.len(),
    ensures
        completed(current, shown).len() == current.len(),
        current[i] == Some(space) ==> completed(current, shown)[i] == Some(space),
        current[i] is None ==> completed(current, shown)[i] == shown[i],
{
}

/// What a change of the screens' spaces leads to and leaves.
pub open spec fn space_change_made(
    before: Reactor,
    after: Reactor,
    tasks: Seq<Task>,
    spaces: Vec<Option<SpaceId>>,
) -> bool {
    let count = before.space_manager.screens@.len();
    if before.core.mission_control_active {
        &&& tasks.len() == 0
        &&& after == (Reactor {
            pending_space_change_manager: PendingSpaceChangeManager {
                pending_space_change: Some(spaces),
                ..before.pending_space_change_manager
            },
            ..before
        })
    } else if all_empty(spaces@) {
        &&& tasks.len() == 1
        &&& asks_policy(
            tasks[0],
            before.activation_settings(),
            spaces@,
            after.space_manager.screens@,
        )
        &&& after.space_manager.screens@ == if spaces@.len() == count {
            screens_showing(before.space_manager.screens@, spaces@)
        } else {
            before.space_manager.screens@
        }
        &&& after == (Reactor {
            space_manager: SpaceManager {
                screens: after.space_manager.screens,
                ..before.space_manager
            },
            refocus_manager: RefocusManager {
                stale_cleanup_state: StaleCleanupState::Suppressed,
                ..before.refocus_manager
            },
            ..before
        })
    } else if spaces@.len() != count {
        tasks.len() == 0 && after == before
    } else {
        &&& tasks.len() == 5
        &&& tells_policy(
            tasks[0],
            before.activation_settings(),
            screens_showing(before.space_manager.screens@, spaces@),
        )
        &&& asks_policy(
            tasks[1],
            before.activation_settings(),
            spaces@,
            before.space_manager.screens@,
        )
        &&& tasks[2] == Task::Go(Work::ShowSpaces(spaces))
        &&& tasks[3] == Task::Go(Work::RelayoutIfPending)
        &&& tasks[4] == Task::Go(Work::CommitTopologyIfReady)
        &&& after == (Reactor {
            refocus_manager: RefocusManager {
                stale_cleanup_state: StaleCleanupState::Enabled,
                ..before.refocus_manager
            },
            ..before
        })
    }
}

/// A change of spaces waits while Mission Control is open. Spaces that are
/// all gone keep windows from being taken for gone; others are shown, and
/// allow it again.
pub proof fn law_space_change_waits_for_mission_control(
    before: Reactor,
    after: Reactor,
    tasks: Seq<Task>,
    spaces: Vec<Option<SpaceId>>,
    i: int,
)
    requires
        space_change_made(before, after, tasks, spaces),
    ensures
        before.core.mission_control_active ==> tasks.len() == 0
            && after.pending_space_change_manager.pending_space_change == Some(spaces)
            && after.space_manager == before.space_manager,
        !before.core.mission_control_active && (forall|j: int|
            0 <= j < spaces@.len() ==> #[trigger] spaces@[j] is None)
            ==> after.refocus_manager.stale_cleanup_state == StaleCleanupState::Suppressed
            && tasks.len() == 1,
        !before.core.mission_control_active && 0 <= i < spaces@.len() && spaces@[i] is Some
            && spaces@.len() == before.space_manager.screens@.len() ==> tasks.contains(
            Task::Go(Work::ShowSpaces(spaces)),
        ) && tasks.contains(Task::Go(Work::RelayoutIfPending)) && tasks.contains(
            Task::Go(Work::CommitTopologyIfReady),
        ) && after.refocus_manager.stale_cleanup_state == StaleCleanupState::Enabled,
        !before.core.mission_control_active && 0 <= i < spaces@.len() && spaces@[i] is Some
            && spaces@.len() != before.space_manager.screens@.len() ==> tasks.len() == 0 && after
            == before,
{
    if tasks.len() == 5 {
        assert(tasks.contains(tasks[2]));
        assert(tasks.contains(tasks[3]));
        assert(tasks.contains(tasks[4]));
    }
}

/// What a change of spaces that was waiting leads to and leaves.
pub open spec fn pending_change_applied(
    before: Reactor,
    after: Reactor,
    tasks: Seq<Task>,
    sur: Surroundings,
) -> bool {
    match before.pending_space_change_manager.pending_space_change {
        Some(pending) => if pending@.len() == before.space_manager.screens@.len() {
            let kept = before.preserved(pending@, sur);
            let left = before.without_fullscreen(kept, sur);
            &&& after == (Reactor {
                pending_space_change_manager: PendingSpaceChangeManager {
                    pending_space_change: None,
                    ..before.pending_space_change_manager
                },
                ..before
            })
            &&& if before.all_fullscreen(kept, sur) {
                tasks.len() == 0
            } else {
                let back = before.ordinary_spaces(kept, sur).map_values(
                    |space: SpaceId| Task::Go(Work::RestoreFromFullscreen(space)),
                );
                &&& tasks.len() == back.len() + 2
                &&& tasks.drop_last().drop_last() == back
                &&& asks_policy(
                    tasks[tasks.len() - 2],
                    before.activation_settings(),
                    left,
                    before.space_manager.screens@,
                )
                &&& tasks.last() matches Task::Go(Work::ShowSpaces(b)) && b@ == left
            }
        } else {
            tasks.len() == 0 && after == before
        },
        None => tasks.len() == 0 && after == before,
    }
}

/// A change of spaces that was waiting is made once the screens it is about
/// are there, and then waits no longer.
pub proof fn law_waiting_space_change_is_made_once(
    before: Reactor,
    after: Reactor,
    tasks: Seq<Task>,
    pending: Vec<Option<SpaceId>>,
    sur: Surroundings,
)
    requires
        pending_change_applied(before, after, tasks, sur),
    ensures
        before.pending_space_change_manager.pending_space_change is None ==> tasks.len() == 0
            && after == before,
        before.pending_space_change_manager.pending_space_change == Some(pending) && pending@.len()
            != before.space_manager.screens@.len() ==> tasks.len() == 0 && after == before,
        before.pending_space_change_manager.pending_space_change == Some(pending) && pending@.len()
            == before.space_manager.screens@.len()
            ==> after.pending_space_change_manager.pending_space_change is None && (
        !before.all_fullscreen(before.preserved(pending@, sur), sur) ==> tasks.len() >= 2 && (
        tasks.last() matches Task::Go(Work::ShowSpaces(shown)) && shown@
            == before.without_fullscreen(before.preserved(pending@, sur), sur))),
{
}

/// What the end of Mission Control leads to.
pub open spec fn mission_control_left(m: Reactor) -> Seq<Task> {
    (if m.core.mission_control_active {
        seq![
            Task::Ask(
                Question::Core(CoreInput::MissionControl { active: false }),
                Work::MissionControlObserved,
            ),
        ]
    } else {
        Seq::empty()
    }) + seq![
        Task::Go(Work::ApplyPendingSpaceChange),
        Task::Go(Work::RepairSpaces),
        Task::Go(Work::RefreshAfterMissionControl),
    ]
}

/// When Mission Control is left, the model is told if it thought it open;
/// then the change of spaces that waited is made, spaces are repaired and
/// windows looked at, in this order.
pub proof fn law_leaving_mission_control_catches_up(m: Reactor)
    ensures
        ({
            let tasks = mission_control_left(m);
            let n = tasks.len() as int;
            &&& n == if m.core.mission_control_active {
                4int
            } else {
                3
            }
            &&& m.core.mission_control_active ==> tasks[0] == Task::Ask(
                Question::Core(CoreInput::MissionControl { active: false }),
                Work::MissionControlObserved,
            )
            &&& tasks[n - 3] == Task::Go(Work::ApplyPendingSpaceChange)
            &&& tasks[n - 2] == Task::Go(Work::RepairSpaces)
            &&& tasks[n - 1] == Task::Go(Work::RefreshAfterMissionControl)
        }),
{
}

} // verus!
