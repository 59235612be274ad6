//! Spaces that the system makes for one fullscreen window.

use vstd::prelude::*;

use crate::app::{Request, WindowId};
use crate::collections::lemma_filter_members;
use crate::event::ScreenInfo;
use crate::ids::{pid_t, SpaceId};
use crate::model::CoreCommand;
use crate::reactor::managers::{
    known_spaces, FullscreenSpaceTrack, FullscreenWindowTrack, RefocusManager, RefocusState,
    SpaceManager,
};
use crate::reactor::surroundings::Surroundings;
use crate::reactor::task::{ask_core, no_tasks, one_task, CoreInput, Message, Question, Task, Work};
use crate::reactor::Reactor;

verus! {

/// Whether a window of a fullscreen space came from a space.
pub open spec fn came_from(track: FullscreenSpaceTrack, space: SpaceId) -> bool {
    exists|i: int|
        0 <= i < track.windows@.len() && (#[trigger] track.windows@[i]).last_known_user_space
            == Some(space)
}

fn track_came_from(track: &FullscreenSpaceTrack, space: SpaceId) -> (r: bool)
    ensures
        r == came_from(*track, space),
{
    let mut i: usize = 0;
    while i < track.windows.len()
        invariant
            i <= track.windows@.len(),
            forall|j: int|
                0 <= j < i ==> (#[trigger] track.windows@[j]).last_known_user_space != Some(space),
        decreases track.windows@.len() - i,
    {
        if let Some(s) = track.windows[i].last_known_user_space {
            if s == space {
                return true;
            }
        }
        i += 1;
    }
    false
}

impl Reactor {
    /// Whether a space is one made for a fullscreen window.
    pub open spec fn fullscreen_space(&self, space: SpaceId, sur: Surroundings) -> bool {
        sur.fullscreen_spaces@.contains(space)
            || self.space_manager.fullscreen_by_space@.contains_key(space.0)
    }

    pub fn is_fullscreen_space(&self, space: SpaceId, sur: &Surroundings) -> (r: bool)
        ensures
            r == self.fullscreen_space(space, *sur),
    {
        sur.space_is_fullscreen(space) || self.space_manager.fullscreen_by_space.contains_key(
            space.get(),
        )
    }

    /// Whether a slot's space is one made for a fullscreen window.
    pub open spec fn fullscreen_slot(&self, slot: Option<SpaceId>, sur: Surroundings) -> bool {
        slot matches Some(space) && self.fullscreen_space(space, sur)
    }

    fn is_fullscreen_slot(&self, slot: Option<SpaceId>, sur: &Surroundings) -> (r: bool)
        ensures
            r == self.fullscreen_slot(slot, *sur),
    {
        match slot {
            Some(space) => self.is_fullscreen_space(space, sur),
            None => false,
        }
    }

    /// Whether some fullscreen window came from a space.
    pub open spec fn has_fullscreen_from(&self, space: SpaceId) -> bool {
        exists|key: u64| #[trigger]
            self.space_manager.fullscreen_by_space@.contains_key(key) && came_from(
                self.space_manager.fullscreen_by_space@[key],
                space,
            )
    }

    fn has_fullscreen_windows_from(&self, space: SpaceId) -> (r: bool)
        ensures
            r == self.has_fullscreen_from(space),
    {
        let keys: Vec<u64> = self.space_manager.fullscreen_by_space.keys();
        let mut i: usize = 0;
        while i < keys.len()
            invariant
                i <= keys@.len(),
                forall|k: u64| #[trigger]
                    keys@.contains(k) <==> self.space_manager.fullscreen_by_space@.contains_key(k),
                forall|j: int|
                    0 <= j < i ==> !came_from(
                        self.space_manager.fullscreen_by_space@[#[trigger] keys@[j]],
                        space,
                    ),
            decreases keys@.len() - i,
        {
            assert(keys@.contains(keys@[i as int]));
            if let Some(track) = self.space_manager.fullscreen_by_space.get(keys[i]) {
                if track_came_from(track, space) {
                    return true;
                }
            }
            i += 1;
        }
        proof {
            assert forall|key: u64| #[trigger]
                self.space_manager.fullscreen_by_space@.contains_key(key) implies !came_from(
                self.space_manager.fullscreen_by_space@[key],
                space,
            ) by {
                assert(keys@.contains(key));
            }
        }
        false
    }

    /// Whether some fullscreen window came from one of some spaces.
    pub open spec fn has_fullscreen_from_any(&self, spaces: Seq<Option<SpaceId>>) -> bool {
        exists|i: int|
            0 <= i < spaces.len() && (#[trigger] spaces[i] matches Some(space)
                && self.has_fullscreen_from(space))
    }

    pub fn has_fullscreen_windows_for_spaces(&self, spaces: &Vec<Option<SpaceId>>) -> (r: bool)
        ensures
            r == self.has_fullscreen_from_any(spaces@),
    {
        let mut i: usize = 0;
        while i < spaces.len()
            invariant
                i <= spaces@.len(),
                forall|j: int|
                    0 <= j < i ==> !(#[trigger] spaces@[j] matches Some(space)
                        && self.has_fullscreen_from(space)),
            decreases spaces@.len() - i,
        {
            if let Some(space) = spaces[i] {
                if self.has_fullscreen_windows_from(space) {
                    return true;
                }
            }
            i += 1;
        }
        false
    }

    /// Whether a screen goes from an ordinary space to a fullscreen one.
    pub open spec fn enters_fullscreen(
        &self,
        screen: ScreenInfo,
        slot: Option<SpaceId>,
        sur: Surroundings,
    ) -> bool {
        self.fullscreen_slot(slot, sur) && screen.space is Some && !self.fullscreen_slot(
            screen.space,
            sur,
        )
    }

    /// Whether some screen enters fullscreen.
    pub open spec fn some_screen_enters(
        &self,
        spaces: Seq<Option<SpaceId>>,
        sur: Surroundings,
    ) -> bool {
        exists|i: int|
            0 <= i < spaces.len() && i < self.space_manager.screens@.len()
                && self.enters_fullscreen(
                #[trigger] self.space_manager.screens@[i],
                spaces[i],
                sur,
            )
    }

    fn does_some_screen_enter(&self, spaces: &Vec<Option<SpaceId>>, sur: &Surroundings) -> (r: bool)
        ensures
            r == self.some_screen_enters(spaces@, *sur),
    {
        let screens = &self.space_manager.screens;
        let mut i: usize = 0;
        while i < spaces.len() && i < screens.len()
            invariant
                i <= spaces@.len(),
                i <= screens@.len(),
                *screens == self.space_manager.screens,
                forall|j: int|
                    0 <= j < i ==> !self.enters_fullscreen(
                        #[trigger] screens@[j],
                        spaces@[j],
                        *sur,
                    ),
            decreases spaces@.len() - i,
        {
            if self.is_fullscreen_slot(spaces[i], sur) && screens[i].space.is_some()
                && !self.is_fullscreen_slot(screens[i].space, sur) {
                assert(self.enters_fullscreen(screens@[i as int], spaces@[i as int], *sur));
                return true;
            }
            i += 1;
        }
        false
    }

    /// The space that a screen keeps while another enters fullscreen.
    pub open spec fn kept_slot(
        &self,
        screen: ScreenInfo,
        slot: Option<SpaceId>,
        sur: Surroundings,
    ) -> Option<SpaceId> {
        if slot is Some && !self.fullscreen_slot(slot, sur) && screen.space is Some
            && !self.fullscreen_slot(screen.space, sur) {
            screen.space
        } else {
            slot
        }
    }

    /// The spaces of the screens, where those that stay ordinary keep what
    /// they showed while some screen enters fullscreen: the system reports
    /// passing spaces then.
    pub open spec fn preserved(&self, spaces: Seq<Option<SpaceId>>, sur: Surroundings) -> Seq<
        Option<SpaceId>,
    > {
        if self.some_screen_enters(spaces, sur) {
            Seq::new(
                spaces.len(),
                |i: int|
                    if i < self.space_manager.screens@.len() {
                        self.kept_slot(self.space_manager.screens@[i], spaces[i], sur)
                    } else {
                        spaces[i]
                    },
            )
        } else {
            spaces
        }
    }

    pub fn preserve_user_spaces_during_fullscreen_transition(
        &self,
        spaces: Vec<Option<SpaceId>>,
        sur: &Surroundings,
    ) -> (r: Vec<Option<SpaceId>>)
        ensures
            r@ == self.preserved(spaces@, *sur),
    {
        if !self.does_some_screen_enter(&spaces, sur) {
            return spaces;
        }
        let screens = &self.space_manager.screens;
        let mut r: Vec<Option<SpaceId>> = Vec::new();
        let mut i: usize = 0;
        while i < spaces.len()
            invariant
                i <= spaces@.len(),
                *screens == self.space_manager.screens,
                r@.len() == i,
                forall|j: int|
                    0 <= j < i ==> #[trigger] r@[j] == if j < screens@.len() {
                        self.kept_slot(screens@[j], spaces@[j], *sur)
                    } else {
                        spaces@[j]
                    },
            decreases spaces@.len() - i,
        {
            let slot: Option<SpaceId> = spaces[i];
            if i < screens.len() && slot.is_some() && !self.is_fullscreen_slot(slot, sur)
                && screens[i].space.is_some() && !self.is_fullscreen_slot(screens[i].space, sur) {
                r.push(screens[i].space);
            } else {
                r.push(slot);
            }
            i += 1;
        }
        assert(r@ =~= self.preserved(spaces@, *sur));
        r
    }

    /// The spaces without those made for fullscreen windows.
    pub open spec fn without_fullscreen(&self, spaces: Seq<Option<SpaceId>>, sur: Surroundings) -> Seq<
        Option<SpaceId>,
    > {
        spaces.map_values(
            |slot: Option<SpaceId>|
                if self.fullscreen_slot(slot, sur) {
                    None
                } else {
                    slot
                },
        )
    }

    /// Whether every screen shows a fullscreen space.
    pub open spec fn all_fullscreen(&self, spaces: Seq<Option<SpaceId>>, sur: Surroundings) -> bool {
        spaces.len() > 0 && forall|i: int|
            0 <= i < spaces.len() ==> self.fullscreen_slot(#[trigger] spaces[i], sur)
    }

    /// The spaces to which windows may come back from fullscreen.
    pub open spec fn ordinary_spaces(&self, spaces: Seq<Option<SpaceId>>, sur: Surroundings) -> Seq<
        SpaceId,
    >
        decreases spaces.len(),
    {
        if spaces.len() == 0 {
            Seq::empty()
        } else {
            let rest = self.ordinary_spaces(spaces.drop_last(), sur);
            match spaces.last() {
                Some(space) => if self.fullscreen_space(space, sur) {
                    rest
                } else {
                    rest.push(space)
                },
                None => rest,
            }
        }
    }

    /// Takes fullscreen spaces out of what the screens show. If they show
    /// nothing else, nothing follows; otherwise windows come back to what
    /// they show.
    pub fn handle_fullscreen_space_transition(
        &self,
        spaces: Vec<Option<SpaceId>>,
        sur: &Surroundings,
    ) -> (r: Option<(Vec<Option<SpaceId>>, Vec<Task>)>)
        ensures
            ({
                let kept = self.preserved(spaces@, *sur);
                match r {
                    Some((left, tasks)) => {
                        &&& !self.all_fullscreen(kept, *sur)
                        &&& left@ == self.without_fullscreen(kept, *sur)
                        &&& tasks@ == self.ordinary_spaces(kept, *sur).map_values(
                            |space: SpaceId| Task::Go(Work::RestoreFromFullscreen(space)),
                        )
                    },
                    None => self.all_fullscreen(kept, *sur),
                }
            }),
    {
        let kept: Vec<Option<SpaceId>> = self.preserve_user_spaces_during_fullscreen_transition(
            spaces,
            sur,
        );
        let ghost to_task = |space: SpaceId| Task::Go(Work::RestoreFromFullscreen(space));
        let ghost cleared = |slot: Option<SpaceId>|
            if self.fullscreen_slot(slot, *sur) {
                None
            } else {
                slot
            };
        let mut left: Vec<Option<SpaceId>> = Vec::new();
        let mut tasks: Vec<Task> = no_tasks();
        let mut all: bool = kept.len() > 0;
        let mut i: usize = 0;
        proof {
            assert(left@ =~= kept@.take(0).map_values(cleared));
            assert(tasks@ =~= self.ordinary_spaces(kept@.take(0), *sur).map_values(to_task));
        }
        while i < kept.len()
            invariant
                i <= kept@.len(),
                to_task == (|space: SpaceId| Task::Go(Work::RestoreFromFullscreen(space))),
                cleared == (|slot: Option<SpaceId>|
                    if self.fullscreen_slot(slot, *sur) {
                        None
                    } else {
                        slot
                    }),
                left@ == kept@.take(i as int).map_values(cleared),
                tasks@ == self.ordinary_spaces(kept@.take(i as int), *sur).map_values(to_task),
                all == (kept@.len() > 0 && forall|j: int|
                    0 <= j < i ==> self.fullscreen_slot(#[trigger] kept@[j], *sur)),
            decreases kept@.len() - i,
        {
            proof {
                assert(kept@.take(i + 1).drop_last() =~= kept@.take(i as int));
            }
            let slot: Option<SpaceId> = kept[i];
            let ghost before = self.ordinary_spaces(kept@.take(i as int), *sur);
            if self.is_fullscreen_slot(slot, sur) {
                left.push(None);
            } else {
                all = false;
                left.push(slot);
                if let Some(space) = slot {
                    tasks.push(Task::Go(Work::RestoreFromFullscreen(space)));
                    assert(tasks@ =~= before.push(space).map_values(to_task));
                }
            }
            assert(left@ =~= kept@.take(i + 1).map_values(cleared));
            i += 1;
        }
        assert(kept@.take(i as int) =~= kept@);
        if all {
            None
        } else {
            Some((left, tasks))
        }
    }

    /// The fullscreen spaces whose windows come back to a space, besides one
    /// of that very number.
    pub open spec fn returning_keys(&self, space: SpaceId) -> Seq<u64> {
        let tracks = self.space_manager.fullscreen_by_space;
        tracks.order().filter(|k: u64| k != space.0 && came_from(tracks@[k], space))
    }

    fn find_returning_keys(&self, space: SpaceId) -> (r: Vec<u64>)
        ensures
            r@ == self.returning_keys(space),
            forall|k: u64| #[trigger]
                r@.contains(k) ==> self.space_manager.fullscreen_by_space@.contains_key(k) && k
                    != space.0,
            r@.no_duplicates(),
    {
        let tracks = &self.space_manager.fullscreen_by_space;
        let keys: Vec<u64> = tracks.keys();
        let ghost pred = |k: u64| k != space.0 && came_from(tracks@[k], space);
        let mut r: Vec<u64> = Vec::new();
        let mut i: usize = 0;
        proof {
            reveal(Seq::filter);
            assert(r@ =~= keys@.take(0).filter(pred));
        }
        while i < keys.len()
            invariant
                i <= keys@.len(),
                *tracks == self.space_manager.fullscreen_by_space,
                forall|k: u64| #[trigger] keys@.contains(k) <==> tracks@.contains_key(k),
                pred == (|k: u64| k != space.0 && came_from(tracks@[k], space)),
                r@ == keys@.take(i as int).filter(pred),
            decreases keys@.len() - i,
        {
            proof {
                reveal(Seq::filter);
                assert(keys@.take(i + 1).drop_last() =~= keys@.take(i as int));
                assert(keys@.contains(keys@[i as int]));
            }
            let key: u64 = keys[i];
            if let Some(track) = tracks.get(key) {
                if key != space.get() && track_came_from(track, space) {
                    r.push(key);
                }
            }
            i += 1;
        }
        proof {
            assert(keys@.take(i as int) =~= keys@);
            crate::collections::lemma_filter_members(keys@, pred);
        }
        r
    }
}

/// What one window that comes back from fullscreen takes.
pub open spec fn return_tasks(reactor: Reactor, window: FullscreenWindowTrack) -> Seq<Task> {
    let asked = if reactor.app_manager.apps@.contains_key(window.pid) {
        seq![Task::Tell(Message::App(window.pid, Request::GetVisibleWindows))]
    } else {
        Seq::empty()
    };
    match (window.window_id, window.last_known_user_space) {
        (Some(wid), Some(space)) => asked.push(
            Task::Go(Work::RestoreWindow { window: wid, space }),
        ),
        _ => asked,
    }
}

/// What some windows that come back from fullscreen take.
pub open spec fn all_return_tasks(reactor: Reactor, windows: Seq<FullscreenWindowTrack>) -> Seq<Task>
    decreases windows.len(),
{
    if windows.len() == 0 {
        Seq::empty()
    } else {
        all_return_tasks(reactor, windows.drop_last()) + return_tasks(reactor, windows.last())
    }
}

/// What the end of one fullscreen space takes.
pub open spec fn track_tasks(
    reactor: Reactor,
    track: FullscreenSpaceTrack,
    space: SpaceId,
) -> Seq<Task> {
    seq![Task::Tell(Message::AwaitFullscreenTransition)] + all_return_tasks(reactor, track.windows@)
        + seq![
        Task::Go(Work::RefocusOn(space)),
        Task::Go(Work::UpdateLayout { is_resize: false, is_workspace_switch: false }),
        Task::Go(Work::UpdateFocusFollowsMouse),
    ]
}

/// What the end of some fullscreen spaces takes.
pub open spec fn tracks_tasks(
    reactor: Reactor,
    tracks: Map<u64, FullscreenSpaceTrack>,
    keys: Seq<u64>,
    space: SpaceId,
) -> Seq<Task>
    decreases keys.len(),
{
    if keys.len() == 0 {
        Seq::empty()
    } else {
        tracks_tasks(reactor, tracks, keys.drop_last(), space) + track_tasks(
            reactor,
            tracks[keys.last()],
            space,
        )
    }
}

fn push_return_tasks(reactor: &Reactor, tasks: &mut Vec<Task>, window: &FullscreenWindowTrack)
    ensures
        final(tasks)@ == old(tasks)@ + return_tasks(*reactor, *window),
{
    if reactor.app_manager.apps.contains_key(window.pid) {
        tasks.push(Task::Tell(Message::App(window.pid, Request::GetVisibleWindows)));
    }
    if let (Some(wid), Some(space)) = (window.window_id, window.last_known_user_space) {
        tasks.push(Task::Go(Work::RestoreWindow { window: wid, space }));
    }
    assert(tasks@ =~= old(tasks)@ + return_tasks(*reactor, *window));
}

fn push_track_tasks(
    reactor: &Reactor,
    tasks: &mut Vec<Task>,
    track: &FullscreenSpaceTrack,
    space: SpaceId,
)
    ensures
        final(tasks)@ == old(tasks)@ + track_tasks(*reactor, *track, space),
{
    tasks.push(Task::Tell(Message::AwaitFullscreenTransition));
    let ghost base = tasks@;
    let windows = &track.windows;
    let mut i: usize = 0;
    assert(tasks@ =~= base + all_return_tasks(*reactor, windows@.take(0)));
    while i < windows.len()
        invariant
            i <= windows@.len(),
            *windows == track.windows,
            tasks@ == base + all_return_tasks(*reactor, windows@.take(i as int)),
        decreases windows@.len() - i,
    {
        assert(windows@.take(i + 1).drop_last() =~= windows@.take(i as int));
        push_return_tasks(reactor, tasks, &windows[i]);
        assert(tasks@ =~= base + all_return_tasks(*reactor, windows@.take(i + 1)));
        i += 1;
    }
    assert(windows@.take(i as int) =~= windows@);
    tasks.push(Task::Go(Work::RefocusOn(space)));
    tasks.push(Task::Go(Work::UpdateLayout { is_resize: false, is_workspace_switch: false }));
    tasks.push(Task::Go(Work::UpdateFocusFollowsMouse));
    assert(tasks@ =~= old(tasks)@ + track_tasks(*reactor, *track, space));
}

impl Reactor {
    /// The fullscreen spaces that end when their windows come back to a
    /// space.
    pub open spec fn ending_keys(&self, space: SpaceId) -> Seq<u64> {
        if self.space_manager.fullscreen_by_space@.contains_key(space.0) {
            seq![space.0] + self.returning_keys(space)
        } else {
            self.returning_keys(space)
        }
    }

    fn find_ending_keys(&self, space: SpaceId) -> (r: Vec<u64>)
        ensures
            r@ == self.ending_keys(space),
            forall|k: u64| #[trigger]
                r@.contains(k) ==> self.space_manager.fullscreen_by_space@.contains_key(k),
            r@.no_duplicates(),
    {
        let mut r: Vec<u64> = Vec::new();
        if self.space_manager.fullscreen_by_space.contains_key(space.get()) {
            r.push(space.get());
        }
        let ghost first = r@;
        let rest: Vec<u64> = self.find_returning_keys(space);
        let mut i: usize = 0;
        assert(r@ =~= first + rest@.take(0));
        while i < rest.len()
            invariant
                i <= rest@.len(),
                r@ == first + rest@.take(i as int),
            decreases rest@.len() - i,
        {
            r.push(rest[i]);
            assert(r@ =~= first + rest@.take(i + 1));
            i += 1;
        }
        proof {
            assert(rest@.take(i as int) =~= rest@);
            assert(r@ =~= self.ending_keys(space));
            assert forall|k: u64| #[trigger]
                r@.contains(k) implies self.space_manager.fullscreen_by_space@.contains_key(k) by {
                let j = choose|j: int| 0 <= j < r@.len() && r@[j] == k;
                if j >= first.len() {
                    assert(rest@[j - first.len()] == k);
                    assert(rest@.contains(k));
                }
            }
            assert forall|a: int, b: int| 0 <= a < b < r@.len() implies r@[a] != r@[b] by {
                if b >= first.len() {
                    assert(rest@.contains(rest@[b - first.len()]));
                    if a >= first.len() {
                        assert(rest@[a - first.len()] != rest@[b - first.len()]);
                    }
                }
            }
        }
        r
    }

    /// Windows come back to a space from fullscreen: their applications are
    /// asked for their windows, they go to where they were, and one of them
    /// gets the focus.
    pub fn restore_from_fullscreen(&mut self, space: SpaceId) -> (r: Vec<Task>)
        ensures
            old(self).wf() ==> final(self).wf(),
            r@ == tracks_tasks(
                *old(self),
                old(self).space_manager.fullscreen_by_space@,
                old(self).ending_keys(space),
                space,
            ),
            final(self).space_manager.fullscreen_by_space@
                == old(self).space_manager.fullscreen_by_space@.remove_keys(
                old(self).ending_keys(space).to_set(),
            ),
            *final(self) == (Reactor {
                space_manager: SpaceManager {
                    fullscreen_by_space: final(self).space_manager.fullscreen_by_space,
                    ..old(self).space_manager
                },
                ..*old(self)
            }),
    {
        let keys: Vec<u64> = self.find_ending_keys(space);
        let mut tasks: Vec<Task> = no_tasks();
        let ghost tracks = self.space_manager.fullscreen_by_space@;
        let mut i: usize = 0;
        while i < keys.len()
            invariant
                i <= keys@.len(),
                tracks == old(self).space_manager.fullscreen_by_space@,
                *self == *old(self),
                forall|k: u64| #[trigger] keys@.contains(k) ==> tracks.contains_key(k),
                tasks@ == tracks_tasks(*old(self), tracks, keys@.take(i as int), space),
            decreases keys@.len() - i,
        {
            proof {
                assert(keys@.take(i + 1).drop_last() =~= keys@.take(i as int));
                assert(keys@.contains(keys@[i as int]));
            }
            if let Some(track) = self.space_manager.fullscreen_by_space.get(keys[i]) {
                push_track_tasks(self, &mut tasks, track, space);
            }
            i += 1;
        }
        assert(keys@.take(i as int) =~= keys@);
        let mut k: usize = 0;
        assert(tracks =~= tracks.remove_keys(keys@.take(0).to_set()));
        while k < keys.len()
            invariant
                k <= keys@.len(),
                tracks == old(self).space_manager.fullscreen_by_space@,
                self.space_manager.fullscreen_by_space@ == tracks.remove_keys(
                    keys@.take(k as int).to_set(),
                ),
                *self == (Reactor {
                    space_manager: SpaceManager {
                        fullscreen_by_space: self.space_manager.fullscreen_by_space,
                        ..old(self).space_manager
                    },
                    ..*old(self)
                }),
            decreases keys@.len() - k,
        {
            let _ = self.space_manager.fullscreen_by_space.remove(keys[k]);
            proof {
                let next = keys@.take(k + 1);
                let prev = keys@.take(k as int);
                assert forall|x: u64| next.to_set().contains(x) <==> prev.to_set().contains(x) || x
                    == keys@[k as int] by {
                    if next.contains(x) {
                        let j = choose|j: int| 0 <= j < next.len() && next[j] == x;
                        if j < k {
                            assert(prev[j] == x);
                        }
                    }
                    if prev.contains(x) {
                        let j = choose|j: int| 0 <= j < prev.len() && prev[j] == x;
                        assert(next[j] == x);
                    }
                    assert(next[k as int] == keys@[k as int]);
                }
                assert(self.space_manager.fullscreen_by_space@ =~= tracks.remove_keys(
                    next.to_set(),
                ));
            }
            k += 1;
        }
        assert(keys@.take(k as int) =~= keys@);
        tasks
    }

    /// Gives a window that came back from fullscreen to its space again, if
    /// it is elsewhere.
    pub fn restore_window(&self, window: WindowId, space: SpaceId, sur: &Surroundings) -> (r: Vec<
        Task,
    >)
        requires
            self.wf(),
        ensures
            ({
                let source = self.best_space_of(window, *sur);
                match self.display_of_space(space) {
                    Some(display) => if source is Some && source != Some(space) {
                        r@.len() == 1 && (r@[0] matches Task::Ask(
                            Question::Core(
                                CoreInput::Command(
                                    CoreCommand::MoveWindowToDisplay { display: d, window: w },
                                ),
                            ),
                            Work::Done,
                        ) && d@ == display && w == Some(window))
                    } else {
                        r@.len() == 0
                    },
                    None => r@.len() == 0,
                }
            }),
    {
        let elsewhere: bool = match self.best_space_for_window_id(window, sur) {
            Some(source) => source != space,
            None => false,
        };
        if !elsewhere {
            return no_tasks();
        }
        match self.display_uuid_for_space(space) {
            Some(display) => one_task(
                ask_core(
                    CoreCommand::MoveWindowToDisplay { display, window: Some(window) },
                    Work::Done,
                ),
            ),
            None => no_tasks(),
        }
    }

    /// Some window on a space is to get the focus.
    pub fn refocus_on(&mut self, space: SpaceId)
        ensures
            *final(self) == (Reactor {
                refocus_manager: RefocusManager {
                    refocus_state: RefocusState::Pending(space),
                    ..old(self).refocus_manager
                },
                ..*old(self)
            }),
            old(self).wf() ==> final(self).wf(),
    {
        self.refocus_manager.refocus_state = RefocusState::Pending(space);
    }

    /// The first of the known spaces that is the user's.
    pub open spec fn first_user_space(&self, spaces: Seq<SpaceId>, sur: Surroundings) -> Option<
        SpaceId,
    >
        decreases spaces.len(),
    {
        if spaces.len() == 0 {
            None
        } else if sur.user_spaces@.contains(spaces[0]) {
            Some(spaces[0])
        } else {
            self.first_user_space(spaces.drop_first(), sur)
        }
    }

    /// The user's space that a window was last on, or else any.
    pub open spec fn last_user_space(&self, window: Option<WindowId>, sur: Surroundings) -> Option<
        SpaceId,
    > {
        let own = match window {
            Some(wid) => self.best_space_of(wid, sur),
            None => None,
        };
        match own {
            Some(space) => if sur.user_spaces@.contains(space) {
                Some(space)
            } else {
                self.first_user_space(known_spaces(self.space_manager.screens@), sur)
            },
            None => self.first_user_space(known_spaces(self.space_manager.screens@), sur),
        }
    }

    pub fn resolve_last_known_user_space(&self, window: Option<WindowId>, sur: &Surroundings) -> (r:
        Option<SpaceId>)
        requires
            self.wf(),
        ensures
            r == self.last_user_space(window, *sur),
    {
        let own: Option<SpaceId> = match window {
            Some(wid) => self.best_space_for_window_id(wid, sur),
            None => None,
        };
        if let Some(space) = own {
            if sur.space_is_user(space) {
                return Some(space);
            }
        }
        let spaces: Vec<SpaceId> = self.space_manager.iter_known_spaces();
        self.find_user_space(&spaces, sur)
    }

    fn find_user_space(&self, spaces: &Vec<SpaceId>, sur: &Surroundings) -> (r: Option<SpaceId>)
        ensures
            r == self.first_user_space(spaces@, *sur),
    {
        let mut i: usize = 0;
        assert(spaces@.skip(0) =~= spaces@);
        while i < spaces.len()
            invariant
                i <= spaces@.len(),
                self.first_user_space(spaces@, *sur) == self.first_user_space(
                    spaces@.skip(i as int),
                    *sur,
                ),
            decreases spaces@.len() - i,
        {
            assert(spaces@.skip(i as int).drop_first() =~= spaces@.skip(i + 1));
            if sur.space_is_user(spaces[i]) {
                return Some(spaces[i]);
            }
            i += 1;
        }
        None
    }

    /// The windows of a fullscreen space, so far.
    pub open spec fn fullscreen_windows(&self, space: SpaceId) -> Seq<FullscreenWindowTrack> {
        if self.space_manager.fullscreen_by_space@.contains_key(space.0) {
            self.space_manager.fullscreen_by_space@[space.0].windows@
        } else {
            Seq::empty()
        }
    }

    /// Notes a window that went to a fullscreen space.
    pub fn record_fullscreen_window(
        &mut self,
        space: SpaceId,
        pid: pid_t,
        window_id: Option<WindowId>,
        last_known_user_space: Option<SpaceId>,
    )
        ensures
            old(self).wf() ==> final(self).wf(),
            final(self).fullscreen_windows(space) == old(self).fullscreen_windows(space).push(
                FullscreenWindowTrack { pid, window_id, last_known_user_space },
            ),
            final(self).space_manager.fullscreen_by_space@.remove(space.0)
                == old(self).space_manager.fullscreen_by_space@.remove(space.0),
            final(self).space_manager.fullscreen_by_space@.contains_key(space.0),
            *final(self) == (Reactor {
                space_manager: SpaceManager {
                    fullscreen_by_space: final(self).space_manager.fullscreen_by_space,
                    ..old(self).space_manager
                },
                ..*old(self)
            }),
    {
        let mut windows: Vec<FullscreenWindowTrack> = match self.space_manager.fullscreen_by_space.remove(
            space.get(),
        ) {
            Some(track) => track.windows,
            None => Vec::new(),
        };
        windows.push(FullscreenWindowTrack { pid, window_id, last_known_user_space });
        let _ = self.space_manager.fullscreen_by_space.insert(
            space.get(),
            FullscreenSpaceTrack { windows },
        );
        assert(self.space_manager.fullscreen_by_space@.remove(space.0) =~= old(
            self).space_manager.fullscreen_by_space@.remove(space.0));
        assert(self.fullscreen_windows(space) =~= old(self).fullscreen_windows(space).push(
            FullscreenWindowTrack { pid, window_id, last_known_user_space },
        ));
    }
}

/// While a screen enters fullscreen, no slot that shows a fullscreen space is
/// changed, and every other screen keeps an ordinary space.
pub proof fn law_entering_fullscreen_keeps_other_screens(
    m: Reactor,
    spaces: Seq<Option<SpaceId>>,
    i: int,
    sur: Surroundings,
)
    requires
        0 <= i < spaces.len(),
    ensures
        m.preserved(spaces, sur).len() == spaces.len(),
        m.fullscreen_slot(spaces[i], sur) ==> m.preserved(spaces, sur)[i] == spaces[i],
        spaces[i] is None ==> m.preserved(spaces, sur)[i] is None,
        !m.fullscreen_slot(spaces[i], sur) ==> !m.fullscreen_slot(m.preserved(spaces, sur)[i], sur),
{
}

/// No fullscreen space is left among the spaces that the screens are taken to
/// show.
pub proof fn law_fullscreen_spaces_are_left_out(
    m: Reactor,
    spaces: Seq<Option<SpaceId>>,
    i: int,
    sur: Surroundings,
)
    requires
        0 <= i < spaces.len(),
    ensures
        !m.fullscreen_slot(m.without_fullscreen(spaces, sur)[i], sur),
{
}

/// A space counts as made for a fullscreen window if the window server says
/// so or the reactor has recorded a fullscreen window on it.
pub proof fn law_fullscreen_spaces_are_reported_or_recorded(
    m: Reactor,
    space: SpaceId,
    sur: Surroundings,
)
    ensures
        m.fullscreen_space(space, sur) <==> sur.fullscreen_spaces@.contains(space)
            || m.space_manager.fullscreen_by_space@.contains_key(space.0),
        m.fullscreen_slot(Some(space), sur) <==> sur.fullscreen_spaces@.contains(space)
            || m.space_manager.fullscreen_by_space@.contains_key(space.0),
        !m.fullscreen_slot(None, sur),
{
}

/// While one screen goes from an ordinary space to a fullscreen one, each
/// other screen that showed an ordinary space and is said to show another
/// keeps the one that it showed; while none does, what is said holds.
pub proof fn law_ordinary_screens_keep_their_space_while_one_goes_fullscreen(
    m: Reactor,
    spaces: Seq<Option<SpaceId>>,
    entering: int,
    from: SpaceId,
    to: SpaceId,
    other: int,
    shown: SpaceId,
    said: SpaceId,
    sur: Surroundings,
)
    requires
        0 <= entering < spaces.len(),
        entering < m.space_manager.screens@.len(),
        m.space_manager.screens@[entering].space == Some(from),
        spaces[entering] == Some(to),
        sur.fullscreen_spaces@.contains(to),
        !sur.fullscreen_spaces@.contains(from),
        !m.space_manager.fullscreen_by_space@.contains_key(from.0),
        0 <= other < spaces.len(),
        other < m.space_manager.screens@.len(),
        m.space_manager.screens@[other].space == Some(shown),
        spaces[other] == Some(said),
        !sur.fullscreen_spaces@.contains(shown),
        !m.space_manager.fullscreen_by_space@.contains_key(shown.0),
        !sur.fullscreen_spaces@.contains(said),
        !m.space_manager.fullscreen_by_space@.contains_key(said.0),
    ensures
        m.preserved(spaces, sur)[other] == Some(shown),
        m.preserved(spaces, sur)[entering] == Some(to),
{
    assert(m.enters_fullscreen(m.space_manager.screens@[entering], spaces[entering], sur));
}

/// Without a screen that goes from an ordinary space to a fullscreen one,
/// what is said of the screens' spaces holds.
pub proof fn law_spaces_hold_as_said_unless_a_screen_goes_fullscreen(
    m: Reactor,
    spaces: Seq<Option<SpaceId>>,
    sur: Surroundings,
)
    requires
        forall|i: int|
            0 <= i < spaces.len() ==> (#[trigger] spaces[i] matches Some(space)
                ==> !sur.fullscreen_spaces@.contains(space)
                && !m.space_manager.fullscreen_by_space@.contains_key(space.0)),
    ensures
        m.preserved(spaces, sur) == spaces,
        m.without_fullscreen(spaces, sur) == spaces,
        !m.all_fullscreen(spaces, sur),
{
    assert(!m.some_screen_enters(spaces, sur)) by {
        if m.some_screen_enters(spaces, sur) {
            let i = choose|i: int|
                0 <= i < spaces.len() && i < m.space_manager.screens@.len() && m.enters_fullscreen(
                    #[trigger] m.space_manager.screens@[i],
                    spaces[i],
                    sur,
                );
            assert(m.fullscreen_slot(spaces[i], sur));
        }
    }
    assert forall|i: int| 0 <= i < spaces.len() implies m.without_fullscreen(spaces, sur)[i]
        == #[trigger] spaces[i] by {}
    assert(m.without_fullscreen(spaces, sur) =~= spaces);
    if spaces.len() > 0 {
        assert(!m.fullscreen_slot(spaces[0], sur));
    }
}

/// An ordinary space stays where it is when the fullscreen ones are left
/// out, and a fullscreen one leaves its place empty.
pub proof fn law_only_fullscreen_spaces_are_left_out(
    m: Reactor,
    spaces: Seq<Option<SpaceId>>,
    i: int,
    sur: Surroundings,
)
    requires
        0 <= i < spaces.len(),
    ensures
        m.without_fullscreen(spaces, sur).len() == spaces.len(),
        m.without_fullscreen(spaces, sur)[i] == match spaces[i] {
            Some(space) => if sur.fullscreen_spaces@.contains(space)
                || m.space_manager.fullscreen_by_space@.contains_key(space.0) {
                None
            } else {
                Some(space)
            },
            None => None,
        },
{
}

/// Windows may come back to exactly the ordinary spaces among those shown.
pub proof fn law_windows_come_back_to_ordinary_spaces(
    m: Reactor,
    spaces: Seq<Option<SpaceId>>,
    space: SpaceId,
    sur: Surroundings,
)
    ensures
        m.ordinary_spaces(spaces, sur).contains(space) <==> spaces.contains(Some(space))
            && !sur.fullscreen_spaces@.contains(space)
            && !m.space_manager.fullscreen_by_space@.contains_key(space.0),
    decreases spaces.len(),
{
    if spaces.len() > 0 {
        let rest = spaces.drop_last();
        law_windows_come_back_to_ordinary_spaces(m, rest, space, sur);
        let a = m.ordinary_spaces(rest, sur);
        let b = m.ordinary_spaces(spaces, sur);
        if a.contains(space) {
            let k = a.index_of(space);
            assert(b[k] == space);
        }
        if b.contains(space) && !a.contains(space) {
            let k = b.index_of(space);
            if k < a.len() {
                assert(a[k] == space);
            }
        }
        if rest.contains(Some(space)) {
            let k = rest.index_of(Some(space));
            assert(spaces[k] == Some(space));
        }
        if spaces.contains(Some(space)) && !rest.contains(Some(space)) {
            let k = spaces.index_of(Some(space));
            if k < rest.len() {
                assert(rest[k] == Some(space));
            }
            assert(b.last() == space || m.fullscreen_space(space, sur));
        }
        assert(spaces.last() == Some(space) ==> spaces[spaces.len() - 1] == Some(space));
    }
}

/// A fullscreen space ends when its windows come back: the one of the
/// space's own number, and each that has a window that was last on the
/// space.
pub proof fn law_fullscreen_ends_for_windows_that_come_back(m: Reactor, space: SpaceId, key: u64)
    requires
        forall|k: u64| #[trigger]
            m.space_manager.fullscreen_by_space.order().contains(k)
                <==> m.space_manager.fullscreen_by_space@.contains_key(k),
    ensures
        m.ending_keys(space).contains(key) <==> m.space_manager.fullscreen_by_space@.contains_key(
            key,
        ) && (key == space.0 || exists|i: int|
            0 <= i < m.space_manager.fullscreen_by_space@[key].windows@.len() && (
            #[trigger] m.space_manager.fullscreen_by_space@[key].windows@[i]).last_known_user_space
                == Some(space)),
{
    let tracks = m.space_manager.fullscreen_by_space;
    let pred = |k: u64| k != space.0 && came_from(tracks@[k], space);
    lemma_filter_members(tracks.order(), pred);
    let rest = m.returning_keys(space);
    assert(rest == tracks.order().filter(pred));
    if tracks@.contains_key(space.0) {
        let all = seq![space.0] + rest;
        assert(all[0] == space.0);
        if rest.contains(key) {
            let k = rest.index_of(key);
            assert(all[k + 1] == key);
        }
        if all.contains(key) && key != space.0 {
            let k = all.index_of(key);
            assert(rest[k - 1] == key);
        }
    }
}

/// A window that comes back from fullscreen is put on the space that it was
/// last on, if both are known; its application is asked for its windows as
/// long as it is there.
pub proof fn law_returning_window_is_restored_to_its_space(
    m: Reactor,
    window: FullscreenWindowTrack,
    wid: WindowId,
    space: SpaceId,
)
    ensures
        return_tasks(m, window).contains(Task::Go(Work::RestoreWindow { window: wid, space }))
            <==> window.window_id == Some(wid) && window.last_known_user_space == Some(space),
        m.app_manager.apps@.contains_key(window.pid) <==> return_tasks(m, window).contains(
            Task::Tell(Message::App(window.pid, Request::GetVisibleWindows)),
        ),
{
    let tasks = return_tasks(m, window);
    let asked = Task::Tell(Message::App(window.pid, Request::GetVisibleWindows));
    let back = Task::Go(Work::RestoreWindow { window: wid, space });
    if m.app_manager.apps@.contains_key(window.pid) {
        assert(tasks[0] == asked);
    }
    if window.window_id == Some(wid) && window.last_known_user_space == Some(space) {
        assert(tasks.last() == back);
    }
}

/// Each window of a fullscreen space that ends is restored, and windows are
/// laid out and focused anew on the space they come back to.
pub proof fn law_end_of_fullscreen_restores_every_window(
    m: Reactor,
    track: FullscreenSpaceTrack,
    space: SpaceId,
    i: int,
    wid: WindowId,
    home: SpaceId,
)
    requires
        0 <= i < track.windows@.len(),
        track.windows@[i].window_id == Some(wid),
        track.windows@[i].last_known_user_space == Some(home),
    ensures
        track_tasks(m, track, space).contains(
            Task::Go(Work::RestoreWindow { window: wid, space: home }),
        ),
        track_tasks(m, track, space).contains(Task::Go(Work::RefocusOn(space))),
        track_tasks(m, track, space).contains(
            Task::Go(Work::UpdateLayout { is_resize: false, is_workspace_switch: false }),
        ),
        track_tasks(m, track, space).contains(Task::Go(Work::UpdateFocusFollowsMouse)),
        track_tasks(m, track, space)[0] == Task::Tell(Message::AwaitFullscreenTransition),
{
    let back = Task::Go(Work::RestoreWindow { window: wid, space: home });
    lemma_every_window_returns(m, track.windows@, i, wid, home);
    let middle = all_return_tasks(m, track.windows@);
    let all = track_tasks(m, track, space);
    let k = middle.index_of(back);
    assert(all[k + 1] == back);
    assert(all[middle.len() as int + 1] == Task::Go(Work::RefocusOn(space)));
    assert(all[middle.len() as int + 2] == Task::Go(
        Work::UpdateLayout { is_resize: false, is_workspace_switch: false },
    ));
    assert(all[middle.len() as int + 3] == Task::Go(Work::UpdateFocusFollowsMouse));
}

proof fn lemma_every_window_returns(
    m: Reactor,
    windows: Seq<FullscreenWindowTrack>,
    i: int,
    wid: WindowId,
    home: SpaceId,
)
    requires
        0 <= i < windows.len(),
        windows[i].window_id == Some(wid),
        windows[i].last_known_user_space == Some(home),
    ensures
        all_return_tasks(m, windows).contains(
            Task::Go(Work::RestoreWindow { window: wid, space: home }),
        ),
    decreases windows.len(),
{
    let back = Task::Go(Work::RestoreWindow { window: wid, space: home });
    let before = all_return_tasks(m, windows.drop_last());
    let last = return_tasks(m, windows.last());
    let all = all_return_tasks(m, windows);
    if i == windows.len() - 1 {
        law_returning_window_is_restored_to_its_space(m, windows[i], wid, home);
        let k = last.index_of(back);
        assert(all[before.len() + k] == back);
    } else {
        assert(windows.drop_last()[i] == windows[i]);
        lemma_every_window_returns(m, windows.drop_last(), i, wid, home);
        let k = before.index_of(back);
        assert(all[k] == back);
    }
}

/// A window that goes fullscreen was last on the space that it is on, if that
/// is the user's; or else on the first of the known spaces that is.
pub proof fn law_last_user_space_is_the_windows_own(
    m: Reactor,
    wid: WindowId,
    space: SpaceId,
    sur: Surroundings,
)
    ensures
        m.best_space_of(wid, sur) == Some(space) && sur.user_spaces@.contains(space)
            ==> m.last_user_space(Some(wid), sur) == Some(space),
        m.last_user_space(Some(wid), sur) matches Some(s) ==> sur.user_spaces@.contains(s),
        m.last_user_space(None, sur) matches Some(s) ==> sur.user_spaces@.contains(s)
            && known_spaces(m.space_manager.screens@).contains(s),
        m.last_user_space(None, sur) is None <==> forall|i: int|
            0 <= i < known_spaces(m.space_manager.screens@).len() ==> !sur.user_spaces@.contains(
                #[trigger] known_spaces(m.space_manager.screens@)[i],
            ),
        !(m.best_space_of(wid, sur) matches Some(s) && sur.user_spaces@.contains(s))
            ==> m.last_user_space(Some(wid), sur) == m.last_user_space(None, sur),
{
    lemma_first_user_space(m, known_spaces(m.space_manager.screens@), sur);
}

proof fn lemma_first_user_space(m: Reactor, spaces: Seq<SpaceId>, sur: Surroundings)
    ensures
        match m.first_user_space(spaces, sur) {
            Some(s) => sur.user_spaces@.contains(s) && spaces.contains(s),
            None => forall|i: int|
                0 <= i < spaces.len() ==> !sur.user_spaces@.contains(#[trigger] spaces[i]),
        },
    decreases spaces.len(),
{
    if spaces.len() > 0 {
        let rest = spaces.drop_first();
        lemma_first_user_space(m, rest, sur);
        if sur.user_spaces@.contains(spaces[0]) {
            assert(spaces.contains(spaces[0]));
        } else {
            match m.first_user_space(rest, sur) {
                Some(s) => {
                    let k = rest.index_of(s);
                    assert(spaces[k + 1] == s);
                },
                None => {
                    assert forall|i: int| 0 <= i < spaces.len() implies !sur.user_spaces@.contains(
                        #[trigger] spaces[i],
                    ) by {
                        if i > 0 {
                            assert(rest[i - 1] == spaces[i]);
                        }
                    }
                },
            }
        }
    }
}

} // verus!
