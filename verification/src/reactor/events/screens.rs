//! Displays that come, go or change, and the spaces they show.

use vstd::prelude::*;

use crate::collections::{copy_list, first_match, lemma_first_index, lemma_no_match};
use crate::event::ScreenInfo;
use crate::geometry::{to_whole, whole, Size};
use crate::ids::SpaceId;
use crate::reactor::display_topology::TopologyModel;
use crate::reactor::events::space::SpaceEventHandler;
use crate::reactor::managers::{RefocusManager, SpaceManager, StaleCleanupState};
use crate::reactor::screens::screens_in_range;
use crate::reactor::space_changes::{
    asks_policy, put_spaces, raw_spaces, screens_showing, slots_of, tells_policy,
};
use crate::reactor::surroundings::Surroundings;
use crate::reactor::task::{no_tasks, two_tasks, Message, Task, Work};
use crate::reactor::topology_commit::copy_screens;
use crate::reactor::Reactor;

verus! {

/// The reconfiguration flags of a display that was removed or disabled.
pub const REMOVED_OR_DISABLED: u32 = 0x220;

/// Whether some screen has an identity.
pub open spec fn has_display(screens: Seq<ScreenInfo>, uuid: Seq<char>) -> bool {
    exists|i: int| 0 <= i < screens.len() && (#[trigger] screens[i]).display_uuid@ == uuid
}

fn is_display(screens: &Vec<ScreenInfo>, uuid: &String) -> (r: bool)
    ensures
        r == has_display(screens@, uuid@),
{
    let mut i: usize = 0;
    while i < screens.len()
        invariant
            i <= screens@.len(),
            forall|j: int| 0 <= j < i ==> (#[trigger] screens@[j]).display_uuid@ != uuid@,
        decreases screens@.len() - i,
    {
        if screens[i].display_uuid == *uuid {
            return true;
        }
        i += 1;
    }
    false
}

/// Whether some display of one list is missing in another.
pub open spec fn some_missing(before: Seq<ScreenInfo>, after: Seq<ScreenInfo>) -> bool {
    exists|i: int|
        0 <= i < before.len() && !has_display(after, (#[trigger] before[i]).display_uuid@)
}

fn is_some_missing(before: &Vec<ScreenInfo>, after: &Vec<ScreenInfo>) -> (r: bool)
    ensures
        r == some_missing(before@, after@),
{
    let mut i: usize = 0;
    while i < before.len()
        invariant
            i <= before@.len(),
            forall|j: int|
                0 <= j < i ==> has_display(after@, (#[trigger] before@[j]).display_uuid@),
        decreases before@.len() - i,
    {
        if !is_display(after, &before[i].display_uuid) {
            assert(!has_display(after@, before@[i as int].display_uuid@));
            return true;
        }
        i += 1;
    }
    false
}

/// Whether the displays are the same in the same order.
pub open spec fn same_order(a: Seq<ScreenInfo>, b: Seq<ScreenInfo>) -> bool {
    a.len() == b.len() && forall|i: int|
        0 <= i < a.len() ==> (#[trigger] a[i]).display_uuid@ == b[i].display_uuid@
}

fn is_same_order(a: &Vec<ScreenInfo>, b: &Vec<ScreenInfo>) -> (r: bool)
    ensures
        r == same_order(a@, b@),
{
    if a.len() != b.len() {
        return false;
    }
    let mut i: usize = 0;
    while i < a.len()
        invariant
            i <= a@.len(),
            a@.len() == b@.len(),
            forall|j: int| 0 <= j < i ==> (#[trigger] a@[j]).display_uuid@ == b@[j].display_uuid@,
        decreases a@.len() - i,
    {
        if a[i].display_uuid != b[i].display_uuid {
            assert(a@[i as int].display_uuid@ != b@[i as int].display_uuid@);
            return false;
        }
        i += 1;
    }
    true
}

/// The first display that shows a space.
pub open spec fn first_with_space(screens: Seq<ScreenInfo>) -> Option<ScreenInfo> {
    first_match(screens, |s: ScreenInfo| s.space is Some)
}

fn find_first_with_space(screens: &Vec<ScreenInfo>) -> (r: Option<usize>)
    ensures
        match r {
            Some(i) => i < screens@.len() && first_with_space(screens@) == Some(
                screens@[i as int],
            ),
            None => first_with_space(screens@) is None,
        },
{
    let ghost pred = |s: ScreenInfo| s.space is Some;
    let mut i: usize = 0;
    while i < screens.len()
        invariant
            i <= screens@.len(),
            pred == (|s: ScreenInfo| s.space is Some),
            forall|j: int| 0 <= j < i ==> !pred(#[trigger] screens@[j]),
        decreases screens@.len() - i,
    {
        if screens[i].space.is_some() {
            proof {
                lemma_first_index(screens@, pred, i as int);
            }
            return Some(i);
        }
        i += 1;
    }
    proof {
        lemma_no_match(screens@, pred);
    }
    None
}

/// The workspaces of displays that are gone go to the first display that
/// shows a space, each display's once.
pub open spec fn migration_tasks(before: Seq<ScreenInfo>, after: Seq<ScreenInfo>) -> Seq<Task>
    decreases before.len(),
{
    if before.len() == 0 {
        Seq::empty()
    } else {
        let rest = migration_tasks(before.drop_last(), after);
        let from = before.last().display_uuid;
        match first_with_space(after) {
            Some(receiver) => if !has_display(after, from@) && !has_display(
                before.drop_last(),
                from@,
            ) {
                rest.push(
                    Task::Tell(Message::MigrateWorkspaces { from, to: receiver.display_uuid }),
                )
            } else {
                rest
            },
            None => rest,
        }
    }
}

/// Whether one of the first screens has an identity.
fn is_display_before(screens: &Vec<ScreenInfo>, n: usize, uuid: &String) -> (r: bool)
    requires
        n <= screens@.len(),
    ensures
        r == has_display(screens@.take(n as int), uuid@),
{
    let mut i: usize = 0;
    while i < n
        invariant
            i <= n <= screens@.len(),
            forall|j: int| 0 <= j < i ==> (#[trigger] screens@[j]).display_uuid@ != uuid@,
        decreases n - i,
    {
        if screens[i].display_uuid == *uuid {
            assert(screens@.take(n as int)[i as int] == screens@[i as int]);
            return true;
        }
        i += 1;
    }
    false
}

fn plan_migrations(before: &Vec<ScreenInfo>, after: &Vec<ScreenInfo>) -> (r: Vec<Task>)
    ensures
        r@ == migration_tasks(before@, after@),
{
    let mut tasks: Vec<Task> = no_tasks();
    let receiver: Option<usize> = find_first_with_space(after);
    let mut i: usize = 0;
    while i < before.len()
        invariant
            i <= before@.len(),
            match receiver {
                Some(k) => k < after@.len() && first_with_space(after@) == Some(after@[k as int]),
                None => first_with_space(after@) is None,
            },
            tasks@ == migration_tasks(before@.take(i as int), after@),
        decreases before@.len() - i,
    {
        assert(before@.take(i + 1).drop_last() =~= before@.take(i as int));
        if let Some(k) = receiver {
            if !is_display(after, &before[i].display_uuid) && !is_display_before(
                before,
                i,
                &before[i].display_uuid,
            ) {
                tasks.push(
                    Task::Tell(
                        Message::MigrateWorkspaces {
                            from: before[i].display_uuid.clone(),
                            to: after[k].display_uuid.clone(),
                        },
                    ),
                );
            }
        }
        i += 1;
    }
    assert(before@.take(i as int) =~= before@);
    tasks
}

/// The identities of displays, each once.
pub open spec fn identities(screens: Seq<ScreenInfo>) -> Seq<String>
    decreases screens.len(),
{
    if screens.len() == 0 {
        Seq::empty()
    } else {
        let rest = identities(screens.drop_last());
        if has_display(screens.drop_last(), screens.last().display_uuid@) {
            rest
        } else {
            rest.push(screens.last().display_uuid)
        }
    }
}

fn list_identities(screens: &Vec<ScreenInfo>) -> (r: Vec<String>)
    ensures
        r@ == identities(screens@),
{
    let mut r: Vec<String> = Vec::new();
    let mut i: usize = 0;
    while i < screens.len()
        invariant
            i <= screens@.len(),
            r@ == identities(screens@.take(i as int)),
        decreases screens@.len() - i,
    {
        assert(screens@.take(i + 1).drop_last() =~= screens@.take(i as int));
        if !is_display_before(screens, i, &screens[i].display_uuid) {
            r.push(screens[i].display_uuid.clone());
        }
        i += 1;
    }
    assert(screens@.take(i as int) =~= screens@);
    r
}

/// No identity is named twice, and none is left out.
pub proof fn law_identities_are_distinct(screens: Seq<ScreenInfo>)
    ensures
        forall|i: int, j: int|
            0 <= i < j < identities(screens).len() ==> (#[trigger] identities(screens)[i])@ != (
            #[trigger] identities(screens)[j])@,
        forall|uuid: Seq<char>| #[trigger]
            has_display(screens, uuid) <==> exists|i: int|
                0 <= i < identities(screens).len() && (#[trigger] identities(screens)[i])@ == uuid,
    decreases screens.len(),
{
    if screens.len() > 0 {
        let shorter = screens.drop_last();
        let last = screens.last().display_uuid;
        law_identities_are_distinct(shorter);
        let rest = identities(shorter);
        let all = identities(screens);
        assert forall|uuid: Seq<char>| #[trigger]
            has_display(screens, uuid) <==> exists|i: int|
                0 <= i < all.len() && (#[trigger] all[i])@ == uuid by {
            if has_display(screens, uuid) {
                let i = choose|i: int|
                    0 <= i < screens.len() && (#[trigger] screens[i]).display_uuid@ == uuid;
                if i < shorter.len() {
                    assert(shorter[i] == screens[i]);
                }
                if has_display(shorter, uuid) {
                    let k = choose|k: int| 0 <= k < rest.len() && (#[trigger] rest[k])@ == uuid;
                    assert(all[k] == rest[k]);
                } else {
                    assert(all.last() == last);
                }
            }
            if exists|i: int| 0 <= i < all.len() && (#[trigger] all[i])@ == uuid {
                let i = choose|i: int| 0 <= i < all.len() && (#[trigger] all[i])@ == uuid;
                if i < rest.len() {
                    assert(rest[i] == all[i]);
                    assert(has_display(shorter, uuid));
                    let k = choose|k: int|
                        0 <= k < shorter.len() && (#[trigger] shorter[k]).display_uuid@ == uuid;
                    assert(screens[k] == shorter[k]);
                } else {
                    assert(screens[screens.len() - 1].display_uuid@ == uuid);
                }
            }
        }
        assert forall|i: int, j: int| 0 <= i < j < all.len() implies (#[trigger] all[i])@ != (
        #[trigger] all[j])@ by {
            assert(all[i] == rest[i]);
            if j < rest.len() {
                assert(all[j] == rest[j]);
            } else {
                assert(!has_display(shorter, last@));
            }
        }
    }
}

/// Whether two sizes differ in whole points.
pub open spec fn differs(a: Size, b: Size) -> bool {
    to_whole(a.width as int) != to_whole(b.width as int) || to_whole(a.height as int) != to_whole(
        b.height as int,
    )
}

/// The last screen with an id.
pub open spec fn last_with_id(screens: Seq<ScreenInfo>, id: u32) -> Option<ScreenInfo>
    decreases screens.len(),
{
    if screens.len() == 0 {
        None
    } else if screens.last().id == id {
        Some(screens.last())
    } else {
        last_with_id(screens.drop_last(), id)
    }
}

/// Whether a screen is new or has another size than before.
pub open spec fn is_resized(before: Seq<ScreenInfo>, screen: ScreenInfo) -> bool {
    match last_with_id(before, screen.id) {
        Some(s) => differs(s.frame.size, screen.frame.size),
        None => true,
    }
}

fn screen_is_resized(before: &Vec<ScreenInfo>, screen: &ScreenInfo) -> (r: bool)
    requires
        screens_in_range(before@),
        screen.frame.in_range(),
    ensures
        r == is_resized(before@, *screen),
{
    let mut i: usize = before.len();
    assert(before@.take(i as int) =~= before@);
    while i > 0
        invariant
            i <= before@.len(),
            screens_in_range(before@),
            screen.frame.in_range(),
            last_with_id(before@, screen.id) == last_with_id(before@.take(i as int), screen.id),
        decreases i,
    {
        i -= 1;
        assert(before@.take(i + 1).drop_last() =~= before@.take(i as int));
        if before[i].id == screen.id {
            let a: Size = before[i].frame.size;
            let b: Size = screen.frame.size;
            return whole(a.width) != whole(b.width) || whole(a.height) != whole(b.height);
        }
    }
    true
}

/// Whether a screen with an id is new or has another size than before.
pub open spec fn is_id_resized(before: Seq<ScreenInfo>, after: Seq<ScreenInfo>, id: u32) -> bool {
    exists|i: int|
        0 <= i < after.len() && (#[trigger] after[i]).id == id && is_resized(before, after[i])
}

fn id_is_resized(before: &Vec<ScreenInfo>, after: &Vec<ScreenInfo>, id: u32) -> (r: bool)
    requires
        screens_in_range(before@),
        screens_in_range(after@),
    ensures
        r == is_id_resized(before@, after@, id),
{
    let mut i: usize = 0;
    while i < after.len()
        invariant
            i <= after@.len(),
            screens_in_range(before@),
            screens_in_range(after@),
            forall|j: int|
                0 <= j < i ==> !((#[trigger] after@[j]).id == id && is_resized(before@, after@[j])),
        decreases after@.len() - i,
    {
        if after[i].id == id && screen_is_resized(before, &after[i]) {
            return true;
        }
        i += 1;
    }
    false
}

/// The spaces of those of some screens that are new or have another size.
pub open spec fn resized_spaces(
    before: Seq<ScreenInfo>,
    after: Seq<ScreenInfo>,
    screens: Seq<ScreenInfo>,
) -> Seq<SpaceId>
    decreases screens.len(),
{
    if screens.len() == 0 {
        Seq::empty()
    } else {
        let rest = resized_spaces(before, after, screens.drop_last());
        match screens.last().space {
            Some(space) => if is_id_resized(before, after, screens.last().id) {
                rest.push(space)
            } else {
                rest
            },
            None => rest,
        }
    }
}

fn find_resized_spaces(before: &Vec<ScreenInfo>, after: &Vec<ScreenInfo>) -> (r: Vec<SpaceId>)
    requires
        screens_in_range(before@),
        screens_in_range(after@),
    ensures
        r@ == resized_spaces(before@, after@, after@),
{
    let mut r: Vec<SpaceId> = Vec::new();
    let mut i: usize = 0;
    while i < after.len()
        invariant
            i <= after@.len(),
            screens_in_range(before@),
            screens_in_range(after@),
            r@ == resized_spaces(before@, after@, after@.take(i as int)),
        decreases after@.len() - i,
    {
        assert(after@.take(i + 1).drop_last() =~= after@.take(i as int));
        if let Some(space) = after[i].space {
            if id_is_resized(before, after, after[i].id) {
                r.push(space);
            }
        }
        i += 1;
    }
    assert(after@.take(i as int) =~= after@);
    r
}

/// What a report of the screens comes to.
pub struct ScreensModel {
    /// The screens without fullscreen spaces.
    pub screens: Seq<ScreenInfo>,
    /// A display is missing although none was removed: the report is a
    /// passing one.
    pub refused: bool,
    pub displays_changed: bool,
    /// Windows are to be laid out anew once the spaces are known.
    pub relayout: bool,
}

impl Reactor {
    /// Whether a display may be missing.
    pub open spec fn may_lose_display(&self) -> bool {
        match self.display_topology_manager@.state {
            TopologyModel::Churning(_, _, flags) => flags & REMOVED_OR_DISABLED != 0,
            TopologyModel::AwaitingCommit(_, _, flags, _) => flags & REMOVED_OR_DISABLED != 0,
            TopologyModel::Stable => false,
        }
    }

    pub open spec fn screens_reported(&self, reported: Seq<ScreenInfo>, sur: Surroundings) -> ScreensModel {
        let before = self.space_manager.screens@;
        let slots = self.without_fullscreen(self.preserved(slots_of(reported), sur), sur);
        let screens = screens_showing(reported, slots);
        let missing = some_missing(before, screens);
        let displays_changed = missing || some_missing(screens, before);
        ScreensModel {
            screens,
            refused: missing && !self.may_lose_display() && screens.len() > 0,
            displays_changed,
            relayout: (displays_changed || !same_order(before, screens)) && (
            self.space_manager.has_seen_display_set || before.len() > 0),
        }
    }

    /// The tasks for screens that are there.
    pub open spec fn is_screens_update(
        &self,
        tasks: Seq<Task>,
        m: ScreensModel,
    ) -> bool {
        let slots = slots_of(m.screens);
        &&& tasks.len() == 4
        &&& tells_policy(tasks[0], self.activation_settings(), m.screens)
        &&& asks_policy(tasks[1], self.activation_settings(), slots, m.screens)
        &&& tasks[2] matches Task::Go(Work::ExposeResized(spaces)) && spaces@ == resized_spaces(
            self.space_manager.screens@,
            m.screens,
            m.screens,
        )
        &&& tasks[3] matches Task::Go(Work::SpacesShown(spaces)) && spaces@ == slots
    }

    /// The tasks for no screens.
    pub open spec fn is_screens_gone(&self, tasks: Seq<Task>) -> bool {
        &&& tasks.len() == 2
        &&& asks_policy(tasks[0], self.activation_settings(), Seq::empty(), Seq::empty())
        &&& tasks[1] == Task::Go(Work::NothingInSight)
    }

    /// What always comes last.
    pub open spec fn after_screens(&self, relayout: bool) -> Seq<Task> {
        let always = seq![
            Task::Go(Work::ApplyPendingSpaceChange),
            Task::Go(Work::CommitTopologyIfReady),
        ];
        if relayout {
            always.push(Task::Go(Work::ArmRelayout))
        } else {
            always
        }
    }

    /// Displays that are gone hand their workspaces on, and only the others
    /// are kept in mind.
    pub open spec fn is_display_change(&self, tasks: Seq<Task>, m: ScreensModel) -> bool {
        let moved = migration_tasks(self.space_manager.screens@, m.screens);
        if m.displays_changed {
            &&& tasks.len() == moved.len() + 1
            &&& tasks.drop_last() == moved
            &&& tasks.last() matches Task::Tell(Message::PruneDisplays(left)) && left@
                == identities(m.screens)
        } else {
            tasks.len() == 0
        }
    }
}

/// Whether a list of tasks is made of three parts.
pub open spec fn in_three_parts(
    tasks: Seq<Task>,
    a: Seq<Task>,
    b: Seq<Task>,
    c: Seq<Task>,
) -> bool {
    tasks == a + b + c
}

fn append_tasks(tasks: Vec<Task>, more: Vec<Task>) -> (r: Vec<Task>)
    ensures
        r@ == tasks@ + more@,
{
    let mut r: Vec<Task> = tasks;
    let mut rest: Vec<Task> = more;
    r.append(&mut rest);
    r
}

impl SpaceEventHandler {
    /// The screens without fullscreen spaces: those are never taken for
    /// regular ones, lest windows be assigned anew for a passing space.
    fn clean_screens(reactor: &Reactor, reported: Vec<ScreenInfo>, sur: &Surroundings) -> (r: Vec<
        ScreenInfo,
    >)
        requires
            screens_in_range(reported@),
        ensures
            r@ == reactor.screens_reported(reported@, *sur).screens,
            screens_in_range(r@),
    {
        let slots: Vec<Option<SpaceId>> =
            reactor.preserve_user_spaces_during_fullscreen_transition(raw_spaces(&reported), sur);
        let left: Vec<Option<SpaceId>> = reactor.clear_fullscreen_slots(&slots, sur);
        let mut screens: Vec<ScreenInfo> = reported;
        put_spaces(&mut screens, &left);
        screens
    }

    fn plan_screens(reactor: &Reactor, screens: &Vec<ScreenInfo>) -> (r: (bool, bool, bool))
        ensures
            ({
                let before = reactor.space_manager.screens@;
                let missing = some_missing(before, screens@);
                let displays_changed = missing || some_missing(screens@, before);
                &&& r.0 == (missing && !reactor.may_lose_display() && screens@.len() > 0)
                &&& r.1 == displays_changed
                &&& r.2 == ((displays_changed || !same_order(before, screens@)) && (
                reactor.space_manager.has_seen_display_set || before.len() > 0))
            }),
    {
        let before = &reactor.space_manager.screens;
        let missing: bool = is_some_missing(before, screens);
        let changed: bool = missing || is_some_missing(screens, before);
        let may_lose: bool = match reactor.display_topology_manager.active_reconfig_flags() {
            Some(flags) => flags & REMOVED_OR_DISABLED != 0,
            None => false,
        };
        let relayout: bool = (changed || !is_same_order(before, screens)) && (
        reactor.space_manager.has_seen_display_set || before.len() > 0);
        (missing && !may_lose && screens.len() > 0, changed, relayout)
    }

    fn plan_display_change(reactor: &Reactor, screens: &Vec<ScreenInfo>, changed: bool) -> (r: Vec<
        Task,
    >)
        ensures
            forall|m: ScreensModel|
                m.screens == screens@ && m.displays_changed == changed
                    ==> #[trigger] reactor.is_display_change(r@, m),
    {
        if !changed {
            return no_tasks();
        }
        let mut tasks: Vec<Task> = plan_migrations(&reactor.space_manager.screens, screens);
        let ghost moved = tasks@;
        tasks.push(Task::Tell(Message::PruneDisplays(list_identities(screens))));
        assert(tasks@.drop_last() =~= moved);
        tasks
    }

    fn plan_after_screens(reactor: &Reactor, relayout: bool) -> (r: Vec<Task>)
        ensures
            r@ == reactor.after_screens(relayout),
    {
        let mut tasks: Vec<Task> = two_tasks(
            Task::Go(Work::ApplyPendingSpaceChange),
            Task::Go(Work::CommitTopologyIfReady),
        );
        if relayout {
            tasks.push(Task::Go(Work::ArmRelayout));
        }
        tasks
    }

    /// The screens changed: which there are, where, or what they show. A
    /// report in which a display is missing that was not removed is a passing
    /// one and ignored.
    pub fn handle_screen_parameters_changed(
        reactor: &mut Reactor,
        screens: Vec<ScreenInfo>,
        sur: &Surroundings,
    ) -> (r: Vec<Task>)
        requires
            old(reactor).wf(),
            screens_in_range(screens@),
        ensures
            final(reactor).wf(),
            ({
                let before = *old(reactor);
                let after = *final(reactor);
                let m = before.screens_reported(screens@, *sur);
                if m.refused {
                    r@.len() == 0 && after == before
                } else {
                    &&& after.space_manager.screens@ == m.screens
                    &&& after == (Reactor {
                        space_manager: SpaceManager {
                            screens: after.space_manager.screens,
                            has_seen_display_set: before.space_manager.has_seen_display_set
                                || m.screens.len() > 0,
                            ..before.space_manager
                        },
                        refocus_manager: RefocusManager {
                            stale_cleanup_state: if m.screens.len() == 0 {
                                StaleCleanupState::Suppressed
                            } else {
                                before.refocus_manager.stale_cleanup_state
                            },
                            ..before.refocus_manager
                        },
                        ..before
                    })
                    &&& exists|a: Seq<Task>, b: Seq<Task>|
                        {
                            &&& #[trigger] in_three_parts(r@, a, b, before.after_screens(m.relayout))
                            &&& before.is_display_change(a, m)
                            &&& if m.screens.len() == 0 {
                                before.is_screens_gone(b)
                            } else {
                                before.is_screens_update(b, m)
                            }
                        }
                }
            }),
    {
        let ghost m = reactor.screens_reported(screens@, *sur);
        let ghost before = *reactor;
        let new: Vec<ScreenInfo> = Self::clean_screens(reactor, screens, sur);
        let (refused, changed, relayout): (bool, bool, bool) = Self::plan_screens(reactor, &new);
        if refused {
            return no_tasks();
        }
        let first: Vec<Task> = Self::plan_display_change(reactor, &new, changed);
        let last: Vec<Task> = Self::plan_after_screens(reactor, relayout);
        let ghost a = first@;
        assert(before.is_display_change(a, m));
        if new.len() == 0 {
            reactor.refocus_manager.stale_cleanup_state = StaleCleanupState::Suppressed;
            reactor.space_manager.screens = new;
            let middle: Vec<Task> = two_tasks(
                reactor.recompute_and_set_active_spaces(Vec::new()),
                Task::Go(Work::NothingInSight),
            );
            let ghost b = middle@;
            let tasks: Vec<Task> = append_tasks(append_tasks(first, middle), last);
            proof {
                assert(before.is_screens_gone(b));
                assert(in_three_parts(tasks@, a, b, before.after_screens(m.relayout)));
            }
            return tasks;
        }
        reactor.space_manager.has_seen_display_set = true;
        let resized: Vec<SpaceId> = find_resized_spaces(&reactor.space_manager.screens, &new);
        let shown: Vec<ScreenInfo> = copy_screens(&new);
        let slots: Vec<Option<SpaceId>> = raw_spaces(&new);
        reactor.space_manager.screens = new;
        let mut middle: Vec<Task> = two_tasks(
            reactor.tell_policy(shown),
            reactor.recompute_and_set_active_spaces(copy_list(&slots)),
        );
        middle.push(Task::Go(Work::ExposeResized(resized)));
        middle.push(Task::Go(Work::SpacesShown(slots)));
        let ghost b = middle@;
        assert(before.is_screens_update(b, m));
        let tasks: Vec<Task> = append_tasks(append_tasks(first, middle), last);
        assert(in_three_parts(tasks@, a, b, before.after_screens(m.relayout)));
        tasks
    }
}

impl Reactor {
    fn clear_fullscreen_slots(&self, slots: &Vec<Option<SpaceId>>, sur: &Surroundings) -> (r: Vec<
        Option<SpaceId>,
    >)
        ensures
            r@ == self.without_fullscreen(slots@, *sur),
    {
        let mut r: Vec<Option<SpaceId>> = Vec::new();
        let mut i: usize = 0;
        while i < slots.len()
            invariant
                i <= slots@.len(),
                r@.len() == i,
                forall|j: int|
                    0 <= j < i ==> #[trigger] r@[j] == if self.fullscreen_slot(slots@[j], *sur) {
                        None
                    } else {
                        slots@[j]
                    },
            decreases slots@.len() - i,
        {
            let fullscreen: bool = match slots[i] {
                Some(space) => self.is_fullscreen_space(space, sur),
                None => false,
            };
            if fullscreen {
                r.push(None);
            } else {
                r.push(slots[i]);
            }
            i += 1;
        }
        assert(r@ =~= self.without_fullscreen(slots@, *sur));
        r
    }
}

/// A report of screens is taken for a passing one, and refused, exactly if a
/// known display is missing in it, no display was removed or disabled, and
/// some screen is there.
pub proof fn law_report_without_a_known_display_is_refused(
    m: Reactor,
    reported: Seq<ScreenInfo>,
    sur: Surroundings,
)
    ensures
        ({
            let r = m.screens_reported(reported, sur);
            let lost = exists|i: int|
                0 <= i < m.space_manager.screens@.len() && forall|j: int|
                    0 <= j < reported.len() ==> (#[trigger] reported[j]).display_uuid@ != (
                    #[trigger] m.space_manager.screens@[i]).display_uuid@;
            let removed = match m.display_topology_manager@.state {
                TopologyModel::Churning(_, _, flags) => flags & 0x220u32 != 0,
                TopologyModel::AwaitingCommit(_, _, flags, _) => flags & 0x220u32 != 0,
                TopologyModel::Stable => false,
            };
            &&& r.refused <==> lost && !removed && reported.len() > 0
            &&& lost ==> r.displays_changed
            &&& r.screens.len() == reported.len()
        }),
{
    let r = m.screens_reported(reported, sur);
    let before = m.space_manager.screens@;
    assert forall|i: int| 0 <= i < before.len() implies has_display(
        r.screens,
        (#[trigger] before[i]).display_uuid@,
    ) == has_display(reported, before[i].display_uuid@) by {
        lemma_same_displays(reported, r.screens, before[i].display_uuid@);
    }
    if some_missing(before, r.screens) {
        let i = choose|i: int|
            0 <= i < before.len() && !has_display(r.screens, (#[trigger] before[i]).display_uuid@);
        assert(!has_display(reported, before[i].display_uuid@));
        assert forall|j: int| 0 <= j < reported.len() implies (#[trigger] reported[j]).display_uuid@
            != before[i].display_uuid@ by {}
    }
    if exists|i: int|
        0 <= i < before.len() && forall|j: int|
            0 <= j < reported.len() ==> (#[trigger] reported[j]).display_uuid@ != (
            #[trigger] before[i]).display_uuid@ {
        let i = choose|i: int|
            0 <= i < before.len() && forall|j: int|
                0 <= j < reported.len() ==> (#[trigger] reported[j]).display_uuid@ != (
                #[trigger] before[i]).display_uuid@;
        assert(!has_display(reported, before[i].display_uuid@));
        assert(!has_display(r.screens, before[i].display_uuid@));
    }
}

proof fn lemma_same_displays(a: Seq<ScreenInfo>, b: Seq<ScreenInfo>, uuid: Seq<char>)
    requires
        a.len() == b.len(),
        forall|i: int| 0 <= i < a.len() ==> (#[trigger] a[i]).display_uuid == b[i].display_uuid,
    ensures
        has_display(a, uuid) == has_display(b, uuid),
{
    if has_display(a, uuid) {
        let i = choose|i: int| 0 <= i < a.len() && (#[trigger] a[i]).display_uuid@ == uuid;
        assert(b[i].display_uuid@ == uuid);
    }
    if has_display(b, uuid) {
        let i = choose|i: int| 0 <= i < b.len() && (#[trigger] b[i]).display_uuid@ == uuid;
        assert(a[i].display_uuid@ == uuid);
    }
}

/// Screens that are just as they were change nothing: no report of them is
/// refused, no display has changed, and nothing is laid out anew.
pub proof fn law_unchanged_displays_change_nothing(
    m: Reactor,
    reported: Seq<ScreenInfo>,
    sur: Surroundings,
)
    requires
        reported.len() == m.space_manager.screens@.len(),
        forall|i: int|
            0 <= i < reported.len() ==> (#[trigger] reported[i]).display_uuid
                == m.space_manager.screens@[i].display_uuid,
    ensures
        ({
            let r = m.screens_reported(reported, sur);
            !r.refused && !r.displays_changed && !r.relayout
        }),
{
    let r = m.screens_reported(reported, sur);
    let before = m.space_manager.screens@;
    assert forall|i: int| 0 <= i < before.len() implies has_display(
        r.screens,
        (#[trigger] before[i]).display_uuid@,
    ) by {
        assert(r.screens[i].display_uuid@ == before[i].display_uuid@);
    }
    assert forall|i: int| 0 <= i < r.screens.len() implies has_display(
        before,
        (#[trigger] r.screens[i]).display_uuid@,
    ) by {
        assert(before[i].display_uuid@ == r.screens[i].display_uuid@);
    }
}

/// Displays that come, go or change places have windows laid out anew, once
/// any were seen before.
pub proof fn law_changed_displays_are_laid_out_anew(
    m: Reactor,
    reported: Seq<ScreenInfo>,
    i: int,
    sur: Surroundings,
)
    requires
        m.space_manager.screens@.len() > 0,
        reported.len() != m.space_manager.screens@.len() || (0 <= i < reported.len()
            && reported[i].display_uuid@ != m.space_manager.screens@[i].display_uuid@),
    ensures
        m.screens_reported(reported, sur).relayout,
        m.after_screens(true).contains(Task::Go(Work::ArmRelayout)),
        !m.after_screens(false).contains(Task::Go(Work::ArmRelayout)),
        m.after_screens(true)[0] == Task::Go(Work::ApplyPendingSpaceChange),
        m.after_screens(false)[1] == Task::Go(Work::CommitTopologyIfReady),
{
    let r = m.screens_reported(reported, sur);
    if 0 <= i < reported.len() && i < m.space_manager.screens@.len() {
        assert(r.screens[i].display_uuid == reported[i].display_uuid);
        assert(m.space_manager.screens@[i].display_uuid@ != r.screens[i].display_uuid@
            ==> !same_order(m.space_manager.screens@, r.screens));
    }
    assert(m.after_screens(true)[2] == Task::Go(Work::ArmRelayout));
}

/// The workspaces of each display that is gone go to the first display that
/// shows a space; those of a display that is still there stay.
pub proof fn law_workspaces_of_lost_displays_migrate(
    before: Seq<ScreenInfo>,
    after: Seq<ScreenInfo>,
    i: int,
    k: int,
)
    ensures
        0 <= i < before.len() && 0 <= k < after.len() && after[k].space is Some && (forall|j: int|
            0 <= j < k ==> (#[trigger] after[j]).space is None) && (forall|j: int|
            0 <= j < after.len() ==> (#[trigger] after[j]).display_uuid@
                != before[i].display_uuid@) ==> exists|t: int|
            0 <= t < migration_tasks(before, after).len() && is_migration(
                #[trigger] migration_tasks(before, after)[t],
                before[i].display_uuid@,
                after[k].display_uuid,
            ),
        forall|t: int|
            0 <= t < migration_tasks(before, after).len() ==> (#[trigger] migration_tasks(
                before,
                after,
            )[t] matches Task::Tell(Message::MigrateWorkspaces { from, to }) && !has_display(
                after,
                from@,
            ) && has_display(before, from@)),
        (forall|j: int| 0 <= j < after.len() ==> (#[trigger] after[j]).space is None)
            ==> migration_tasks(before, after).len() == 0,
    decreases before.len(),
{
    let pred = |s: ScreenInfo| s.space is Some;
    if forall|j: int| 0 <= j < after.len() ==> (#[trigger] after[j]).space is None {
        lemma_no_match(after, pred);
    }
    if 0 <= k < after.len() && after[k].space is Some && (forall|j: int|
        0 <= j < k ==> (#[trigger] after[j]).space is None) {
        assert forall|j: int| 0 <= j < k implies !pred(#[trigger] after[j]) by {}
        lemma_first_index(after, pred, k);
    }
    if before.len() > 0 {
        let shorter = before.drop_last();
        law_workspaces_of_lost_displays_migrate(shorter, after, i, k);
        let a = migration_tasks(shorter, after);
        let b = migration_tasks(before, after);
        assert forall|t: int| 0 <= t < b.len() implies (#[trigger] b[t] matches Task::Tell(
            Message::MigrateWorkspaces { from, to },
        ) && !has_display(after, from@) && has_display(before, from@)) by {
            if t < a.len() {
                assert(b[t] == a[t]);
                let from = match a[t] {
                    Task::Tell(Message::MigrateWorkspaces { from, to }) => from,
                    _ => arbitrary(),
                };
                let j = choose|j: int|
                    0 <= j < shorter.len() && (#[trigger] shorter[j]).display_uuid@ == from@;
                assert(before[j].display_uuid@ == from@);
            } else {
                assert(before[before.len() - 1].display_uuid@ == before.last().display_uuid@);
            }
        }
        if 0 <= i < before.len() && 0 <= k < after.len() && after[k].space is Some && (forall|
            j: int,
        |
            0 <= j < k ==> (#[trigger] after[j]).space is None) && (forall|j: int|
            0 <= j < after.len() ==> (#[trigger] after[j]).display_uuid@
                != before[i].display_uuid@) {
            let uuid = before[i].display_uuid@;
            if has_display(shorter, uuid) {
                let h = choose|h: int|
                    0 <= h < shorter.len() && (#[trigger] shorter[h]).display_uuid@ == uuid;
                law_workspaces_of_lost_displays_migrate(shorter, after, h, k);
                let t = choose|t: int|
                    0 <= t < a.len() && is_migration(
                        #[trigger] a[t],
                        shorter[h].display_uuid@,
                        after[k].display_uuid,
                    );
                assert(b[t] == a[t]);
                assert(is_migration(b[t], uuid, after[k].display_uuid));
            } else {
                if i < shorter.len() {
                    assert(shorter[i].display_uuid@ == uuid);
                }
                assert(!has_display(after, uuid));
                let t = b.len() - 1;
                assert(is_migration(b[t], uuid, after[k].display_uuid));
            }
        }
    }
}

/// Whether a task hands a display's workspaces to another.
pub open spec fn is_migration(task: Task, from: Seq<char>, to: String) -> bool {
    task matches Task::Tell(Message::MigrateWorkspaces { from: f, to: t }) && f@ == from && t == to
}

/// The layout looks at the space of each screen that is new or has another
/// size in whole points, and at no other.
pub proof fn law_resized_screens_are_looked_at(
    before: Seq<ScreenInfo>,
    after: Seq<ScreenInfo>,
    screens: Seq<ScreenInfo>,
    space: SpaceId,
)
    ensures
        resized_spaces(before, after, screens).contains(space) <==> exists|i: int|
            0 <= i < screens.len() && (#[trigger] screens[i]).space == Some(space) && is_id_resized(
                before,
                after,
                screens[i].id,
            ),
    decreases screens.len(),
{
    if screens.len() > 0 {
        let rest = screens.drop_last();
        law_resized_screens_are_looked_at(before, after, rest, space);
        let a = resized_spaces(before, after, rest);
        let b = resized_spaces(before, after, screens);
        if a.contains(space) {
            let k = a.index_of(space);
            assert(b[k] == space);
            let i = choose|i: int|
                0 <= i < rest.len() && (#[trigger] rest[i]).space == Some(space) && is_id_resized(
                    before,
                    after,
                    rest[i].id,
                );
            assert(screens[i] == rest[i]);
        }
        if b.contains(space) && !a.contains(space) {
            let k = b.index_of(space);
            if k < a.len() {
                assert(a[k] == space);
            }
            assert(screens[screens.len() - 1].space == Some(space));
        }
        if exists|i: int|
            0 <= i < screens.len() && (#[trigger] screens[i]).space == Some(space) && is_id_resized(
                before,
                after,
                screens[i].id,
            ) {
            let i = choose|i: int|
                0 <= i < screens.len() && (#[trigger] screens[i]).space == Some(space)
                    && is_id_resized(before, after, screens[i].id);
            if i < rest.len() {
                assert(rest[i] == screens[i]);
            } else {
                assert(b.last() == space);
            }
        }
    }
}

/// A screen that was not there before counts as resized; one that was there
/// does if its size in whole points is another.
pub proof fn law_resized_screen(before: Seq<ScreenInfo>, screen: ScreenInfo, i: int)
    ensures
        (forall|j: int| 0 <= j < before.len() ==> (#[trigger] before[j]).id != screen.id)
            ==> is_resized(before, screen),
        0 <= i < before.len() && before[i].id == screen.id && (forall|j: int|
            i < j < before.len() ==> (#[trigger] before[j]).id != screen.id) ==> (is_resized(
            before,
            screen,
        ) <==> to_whole(before[i].frame.size.width as int) != to_whole(
            screen.frame.size.width as int,
        ) || to_whole(before[i].frame.size.height as int) != to_whole(
            screen.frame.size.height as int,
        )),
{
    lemma_last_with_id(before, screen.id, i);
}

proof fn lemma_last_with_id(screens: Seq<ScreenInfo>, id: u32, i: int)
    ensures
        (forall|j: int| 0 <= j < screens.len() ==> (#[trigger] screens[j]).id != id)
            ==> last_with_id(screens, id) is None,
        0 <= i < screens.len() && screens[i].id == id && (forall|j: int|
            i < j < screens.len() ==> (#[trigger] screens[j]).id != id) ==> last_with_id(screens, id)
            == Some(screens[i]),
    decreases screens.len(),
{
    if screens.len() > 0 {
        let rest = screens.drop_last();
        lemma_last_with_id(rest, id, i);
        assert(screens[screens.len() - 1] == screens.last());
        if forall|j: int| 0 <= j < screens.len() ==> (#[trigger] screens[j]).id != id {
            assert forall|j: int| 0 <= j < rest.len() implies (#[trigger] rest[j]).id != id by {
                assert(rest[j] == screens[j]);
            }
        }
        if 0 <= i < rest.len() && (forall|j: int|
            i < j < screens.len() ==> (#[trigger] screens[j]).id != id) {
            assert(rest[i] == screens[i]);
            assert forall|j: int| i < j < rest.len() implies (#[trigger] rest[j]).id != id by {
                assert(rest[j] == screens[j]);
            }
        }
    }
}

} // verus!
