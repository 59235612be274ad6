//! What the reactor reads from the workspace model's latest snapshot.

use vstd::prelude::*;

use crate::app::WindowId;
use crate::collections::{
    first_index, first_match, lemma_filter_members, lemma_first_index, lemma_no_match,
};
use crate::event::ScreenInfo;
use crate::ids::SpaceId;
use crate::model::{
    CoreDisplay, CoreSnapshot, CoreWindow, CoreWorkspace, WorkspaceId, WorkspaceNumber,
};
use crate::reactor::managers::screen_showing;
use crate::reactor::Reactor;
use crate::stack_line::{find_window, find_workspace, window_by_id, workspace_by_id};
use crate::text::chars_of;

verus! {

/// A reader's handle on the last published snapshot.
pub struct ReactorSnapshotHandle {
    pub published: CoreSnapshot,
}

impl ReactorSnapshotHandle {
    pub fn new(published: CoreSnapshot) -> (r: Self)
        ensures
            r.published == published,
    {
        ReactorSnapshotHandle { published }
    }

    pub fn snapshot(&self) -> (r: &CoreSnapshot)
        ensures
            *r == self.published,
    {
        &self.published
    }
}

pub open spec fn display_by_id(s: CoreSnapshot, id: Seq<char>) -> Option<CoreDisplay> {
    first_match(s.displays@, |d: CoreDisplay| d.id@ == id)
}

/// The first display with an identity, by its position.
pub fn find_display(s: &CoreSnapshot, id: &String) -> (r: Option<usize>)
    ensures
        match r {
            Some(i) => i < s.displays@.len() && display_by_id(*s, id@) == Some(
                s.displays@[i as int],
            ) && s.displays@[i as int].id@ == id@,
            None => display_by_id(*s, id@) is None,
        },
{
    let ghost pred = |d: CoreDisplay| d.id@ == id@;
    let mut i: usize = 0;
    while i < s.displays.len()
        invariant
            i <= s.displays@.len(),
            pred == (|d: CoreDisplay| d.id@ == id@),
            forall|j: int| 0 <= j < i ==> !pred(#[trigger] s.displays@[j]),
        decreases s.displays@.len() - i,
    {
        if s.displays[i].id == *id {
            proof {
                lemma_first_index(s.displays@, pred, i as int);
            }
            return Some(i);
        }
        i += 1;
    }
    proof {
        lemma_no_match(s.displays@, pred);
    }
    None
}

pub open spec fn workspace_by_number(
    s: CoreSnapshot,
    number: WorkspaceNumber,
) -> Option<CoreWorkspace> {
    first_match(s.workspaces@, |w: CoreWorkspace| w.number == Some(number))
}

/// The first workspace with a number, by its position.
pub fn find_workspace_by_number(s: &CoreSnapshot, number: WorkspaceNumber) -> (r: Option<usize>)
    ensures
        match r {
            Some(i) => i < s.workspaces@.len() && workspace_by_number(*s, number) == Some(
                s.workspaces@[i as int],
            ),
            None => workspace_by_number(*s, number) is None,
        },
{
    let ghost pred = |w: CoreWorkspace| w.number == Some(number);
    let mut i: usize = 0;
    while i < s.workspaces.len()
        invariant
            i <= s.workspaces@.len(),
            pred == (|w: CoreWorkspace| w.number == Some(number)),
            forall|j: int| 0 <= j < i ==> !pred(#[trigger] s.workspaces@[j]),
        decreases s.workspaces@.len() - i,
    {
        let same: bool = match s.workspaces[i].number {
            Some(n) => n == number,
            None => false,
        };
        if same {
            proof {
                lemma_first_index(s.workspaces@, pred, i as int);
            }
            return Some(i);
        }
        i += 1;
    }
    proof {
        lemma_no_match(s.workspaces@, pred);
    }
    None
}

/// A display's identity; an empty one stands for none.
pub open spec fn identity_of(screen: ScreenInfo) -> Option<Seq<char>> {
    if screen.display_uuid@.len() == 0 {
        None
    } else {
        Some(screen.display_uuid@)
    }
}

pub fn display_uuid_owned(screen: &ScreenInfo) -> (r: Option<String>)
    ensures
        match r {
            Some(uuid) => uuid == screen.display_uuid && identity_of(*screen) == Some(uuid@),
            None => identity_of(*screen) is None,
        },
{
    if chars_of(screen.display_uuid.as_str()).len() == 0 {
        None
    } else {
        Some(screen.display_uuid.clone())
    }
}

/// Whether a numbered workspace of a display comes before the one at `place`.
pub open spec fn numbered_before(all: Seq<CoreWorkspace>, place: int, k: int) -> bool {
    let item = all[place];
    let other = all[k];
    &&& other.display@ == item.display@
    &&& other.number matches Some(n) && item.number matches Some(m) && (n.0 < m.0 || (n.0 == m.0
        && k < place))
}

/// How many of the first `n` workspaces are numbered ones of the same display
/// that come before the one at `place`.
pub open spec fn count_before(all: Seq<CoreWorkspace>, place: int, n: int) -> nat
    decreases n,
{
    if n <= 0 {
        0
    } else if numbered_before(all, place, n - 1) {
        count_before(all, place, n - 1) + 1
    } else {
        count_before(all, place, n - 1)
    }
}

proof fn lemma_count_before_bound(all: Seq<CoreWorkspace>, place: int, n: int)
    requires
        0 <= n,
    ensures
        count_before(all, place, n) <= n,
    decreases n,
{
    if n > 0 {
        lemma_count_before_bound(all, place, n - 1);
    }
}

impl Reactor {
    /// The identity of the display that shows a space.
    pub open spec fn display_of_space(&self, space: SpaceId) -> Option<Seq<char>> {
        match screen_showing(self.space_manager.screens@, space) {
            Some(i) => identity_of(self.space_manager.screens@[i]),
            None => None,
        }
    }

    /// The workspace shown on a space.
    pub open spec fn shown_workspace(&self, space: SpaceId) -> Option<WorkspaceId> {
        match self.display_of_space(space) {
            Some(id) => match display_by_id(self.core, id) {
                Some(display) => display.active_workspace,
                None => None,
            },
            None => None,
        }
    }

    /// The workspace that a window is assigned to.
    pub open spec fn assigned_workspace(&self, window: WindowId) -> Option<WorkspaceId> {
        match window_by_id(self.core, window) {
            Some(w) => w.workspace,
            None => None,
        }
    }

    /// The space that shows the display of a workspace.
    pub open spec fn home_space(&self, workspace: WorkspaceId) -> Option<SpaceId> {
        match workspace_by_id(self.core, workspace) {
            Some(w) => match display_by_id(self.core, w.display@) {
                Some(display) => display.space,
                None => None,
            },
            None => None,
        }
    }

    pub open spec fn floats(&self, window: WindowId) -> bool {
        window_by_id(self.core, window) matches Some(w) && w.floating
    }

    /// Whether a window is on the workspace that a space shows.
    pub open spec fn on_shown_workspace(&self, space: SpaceId, window: WindowId) -> bool {
        self.shown_workspace(space) is Some && self.assigned_workspace(window)
            == self.shown_workspace(space)
    }

    pub open spec fn number_of(&self, workspace: WorkspaceId) -> Option<WorkspaceNumber> {
        match workspace_by_id(self.core, workspace) {
            Some(w) => w.number,
            None => None,
        }
    }

    pub open spec fn last_tiled(&self, workspace: WorkspaceId) -> Option<WindowId> {
        match workspace_by_id(self.core, workspace) {
            Some(w) => w.last_tiled_window,
            None => None,
        }
    }

    /// The windows on the workspace that a space shows.
    pub open spec fn shown_windows(&self, space: SpaceId) -> Seq<WindowId> {
        match self.shown_workspace(space) {
            Some(workspace) => self.core.windows@.filter(
                |w: CoreWindow| w.workspace == Some(workspace),
            ).map_values(|w: CoreWindow| w.id),
            None => Seq::empty(),
        }
    }

    pub fn display_uuid_for_space(&self, space: SpaceId) -> (r: Option<String>)
        ensures
            match r {
                Some(uuid) => self.display_of_space(space) == Some(uuid@),
                None => self.display_of_space(space) is None,
            },
    {
        match self.space_manager.screen_by_space(space) {
            Some(screen) => display_uuid_owned(screen),
            None => None,
        }
    }

    pub fn active_workspace_for_space(&self, space: SpaceId) -> (r: Option<WorkspaceId>)
        ensures
            r == self.shown_workspace(space),
    {
        match self.display_uuid_for_space(space) {
            Some(id) => match find_display(&self.core, &id) {
                Some(i) => self.core.displays[i].active_workspace,
                None => None,
            },
            None => None,
        }
    }

    pub fn workspace_for_window(&self, window: WindowId) -> (r: Option<WorkspaceId>)
        ensures
            r == self.assigned_workspace(window),
    {
        match find_window(&self.core, window) {
            Some(i) => self.core.windows[i].workspace,
            None => None,
        }
    }

    pub fn space_for_workspace(&self, workspace: WorkspaceId) -> (r: Option<SpaceId>)
        ensures
            r == self.home_space(workspace),
    {
        match find_workspace(&self.core, workspace) {
            Some(i) => match find_display(&self.core, &self.core.workspaces[i].display) {
                Some(d) => self.core.displays[d].space,
                None => None,
            },
            None => None,
        }
    }

    pub fn is_window_floating(&self, window: WindowId) -> (r: bool)
        ensures
            r == self.floats(window),
    {
        match find_window(&self.core, window) {
            Some(i) => self.core.windows[i].floating,
            None => false,
        }
    }

    pub fn is_window_in_active_workspace(&self, space: SpaceId, window: WindowId) -> (r: bool)
        ensures
            r == self.on_shown_workspace(space, window),
    {
        match self.active_workspace_for_space(space) {
            Some(workspace) => match self.workspace_for_window(window) {
                Some(assigned) => assigned == workspace,
                None => false,
            },
            None => false,
        }
    }

    pub fn windows_in_active_workspace(&self, space: SpaceId) -> (r: Vec<WindowId>)
        ensures
            r@ == self.shown_windows(space),
    {
        let mut r: Vec<WindowId> = Vec::new();
        let workspace: WorkspaceId = match self.active_workspace_for_space(space) {
            Some(workspace) => workspace,
            None => {
                return r;
            },
        };
        let ghost pred = |w: CoreWindow| w.workspace == Some(workspace);
        let ghost id = |w: CoreWindow| w.id;
        let ghost all = self.core.windows@;
        let mut i: usize = 0;
        proof {
            reveal(Seq::filter);
            assert(all.take(0).filter(pred).map_values(id) =~= Seq::<WindowId>::empty());
        }
        while i < self.core.windows.len()
            invariant
                i <= self.core.windows@.len(),
                all == self.core.windows@,
                pred == (|w: CoreWindow| w.workspace == Some(workspace)),
                id == (|w: CoreWindow| w.id),
                r@ == all.take(i as int).filter(pred).map_values(id),
            decreases self.core.windows@.len() - i,
        {
            proof {
                reveal(Seq::filter);
                assert(all.take(i + 1).drop_last() =~= all.take(i as int));
            }
            let here: bool = match self.core.windows[i].workspace {
                Some(w) => w == workspace,
                None => false,
            };
            let ghost before = r@;
            if here {
                r.push(self.core.windows[i].id);
            }
            proof {
                assert(r@ =~= all.take(i + 1).filter(pred).map_values(id));
            }
            i += 1;
        }
        assert(all.take(i as int) =~= all);
        r
    }

    /// The window that the workspace model has focused.
    pub fn focused_window_for_command(&self) -> (r: Option<WindowId>)
        ensures
            r == self.core.focused_window,
    {
        self.core.focused_window
    }

    pub fn last_tiled_window_in_workspace(&self, workspace: WorkspaceId) -> (r: Option<WindowId>)
        ensures
            r == self.last_tiled(workspace),
    {
        match find_workspace(&self.core, workspace) {
            Some(i) => self.core.workspaces[i].last_tiled_window,
            None => None,
        }
    }

    pub fn workspace_number(&self, workspace: WorkspaceId) -> (r: Option<WorkspaceNumber>)
        ensures
            r == self.number_of(workspace),
    {
        match find_workspace(&self.core, workspace) {
            Some(i) => self.core.workspaces[i].number,
            None => None,
        }
    }

    /// A numbered workspace's place among those of its display, by number,
    /// and its name.
    pub fn workspace_metadata(&self, workspace: WorkspaceId) -> (r: Option<(u64, String)>)
        ensures
            match r {
                Some((index, name)) => {
                    let all = self.core.workspaces@;
                    first_index(all, |w: CoreWorkspace| w.id == workspace) matches Some(place)
                        && all[place].number is Some && name == all[place].name && index
                        == count_before(all, place, all.len() as int)
                },
                None => self.number_of(workspace) is None,
            },
    {
        let ghost all = self.core.workspaces@;
        let ghost pred = |w: CoreWorkspace| w.id == workspace;
        let mut place: usize = 0;
        while place < self.core.workspaces.len()
            invariant
                place <= self.core.workspaces@.len(),
                all == self.core.workspaces@,
                pred == (|w: CoreWorkspace| w.id == workspace),
                forall|j: int| 0 <= j < place ==> !pred(#[trigger] all[j]),
            decreases self.core.workspaces@.len() - place,
        {
            if self.core.workspaces[place].id == workspace {
                proof {
                    lemma_first_index(all, pred, place as int);
                }
                return match self.core.workspaces[place].number {
                    Some(_) => Some(
                        (self.place_by_number(place), self.core.workspaces[place].name.clone()),
                    ),
                    None => None,
                };
            }
            place += 1;
        }
        proof {
            lemma_no_match(all, pred);
        }
        None
    }

    fn place_by_number(&self, place: usize) -> (r: u64)
        requires
            place < self.core.workspaces@.len(),
        ensures
            r == count_before(
                self.core.workspaces@,
                place as int,
                self.core.workspaces@.len() as int,
            ),
    {
        let ghost all = self.core.workspaces@;
        let mut index: u64 = 0;
        let mut k: usize = 0;
        while k < self.core.workspaces.len()
            invariant
                k <= self.core.workspaces@.len(),
                all == self.core.workspaces@,
                place < all.len(),
                index == count_before(all, place as int, k as int),
            decreases self.core.workspaces@.len() - k,
        {
            let item: &CoreWorkspace = &self.core.workspaces[place];
            let other: &CoreWorkspace = &self.core.workspaces[k];
            let before: bool = other.display == item.display && match (other.number, item.number) {
                (Some(n), Some(m)) => n.0 < m.0 || (n.0 == m.0 && k < place),
                _ => false,
            };
            proof {
                lemma_count_before_bound(all, place as int, k as int);
            }
            if before {
                index += 1;
            }
            k += 1;
        }
        index
    }

    /// Whether a window is assigned to another workspace than the one that a
    /// space shows.
    pub fn window_in_non_active_workspace(&self, space: SpaceId, window: WindowId) -> (r: bool)
        ensures
            r == (self.shown_workspace(space) is Some && self.assigned_workspace(window) is Some
                && self.assigned_workspace(window) != self.shown_workspace(space)),
    {
        match self.active_workspace_for_space(space) {
            Some(active) => match self.workspace_for_window(window) {
                Some(assigned) => assigned != active,
                None => false,
            },
            None => false,
        }
    }
}

/// What the snapshot says of a window: its workspace and whether it floats
/// are those of its first entry, and a window without an entry has neither.
pub proof fn law_window_facts_come_from_its_entry(m: Reactor, window: WindowId, i: int)
    ensures
        0 <= i < m.core.windows@.len() && m.core.windows@[i].id == window && (forall|j: int|
            0 <= j < i ==> (#[trigger] m.core.windows@[j]).id != window) ==> m.assigned_workspace(
            window,
        ) == m.core.windows@[i].workspace && m.floats(window) == m.core.windows@[i].floating,
        (forall|j: int| 0 <= j < m.core.windows@.len() ==> (#[trigger] m.core.windows@[j]).id
            != window) ==> m.assigned_workspace(window) is None && !m.floats(window),
{
    let all = m.core.windows@;
    let pred = |w: CoreWindow| w.id == window;
    if 0 <= i < all.len() && all[i].id == window && (forall|j: int|
        0 <= j < i ==> (#[trigger] all[j]).id != window) {
        assert forall|j: int| 0 <= j < i implies !pred(#[trigger] all[j]) by {}
        lemma_first_index(all, pred, i);
    }
    if forall|j: int| 0 <= j < all.len() ==> (#[trigger] all[j]).id != window {
        lemma_no_match(all, pred);
    }
}

/// What the snapshot says of a workspace: its number and last tiled window
/// are those of its first entry.
pub proof fn law_workspace_facts_come_from_its_entry(m: Reactor, workspace: WorkspaceId, i: int)
    requires
        0 <= i < m.core.workspaces@.len(),
        m.core.workspaces@[i].id == workspace,
        forall|j: int| 0 <= j < i ==> (#[trigger] m.core.workspaces@[j]).id != workspace,
    ensures
        m.number_of(workspace) == m.core.workspaces@[i].number,
        m.last_tiled(workspace) == m.core.workspaces@[i].last_tiled_window,
{
    let all = m.core.workspaces@;
    let pred = |w: CoreWorkspace| w.id == workspace;
    assert forall|j: int| 0 <= j < i implies !pred(#[trigger] all[j]) by {}
    lemma_first_index(all, pred, i);
}

/// A space shows the workspace that is active on the display of the first
/// screen that shows the space; a screen without an identity shows none.
pub proof fn law_space_shows_its_displays_active_workspace(
    m: Reactor,
    space: SpaceId,
    i: int,
    d: int,
)
    requires
        0 <= i < m.space_manager.screens@.len(),
        m.space_manager.screens@[i].space == Some(space),
        forall|j: int| 0 <= j < i ==> (#[trigger] m.space_manager.screens@[j]).space != Some(space),
    ensures
        m.space_manager.screens@[i].display_uuid@.len() == 0 ==> m.display_of_space(space) is None
            && m.shown_workspace(space) is None,
        m.space_manager.screens@[i].display_uuid@.len() > 0 ==> m.display_of_space(space) == Some(
            m.space_manager.screens@[i].display_uuid@,
        ),
        m.space_manager.screens@[i].display_uuid@.len() > 0 && 0 <= d < m.core.displays@.len()
            && m.core.displays@[d].id@ == m.space_manager.screens@[i].display_uuid@ && (forall|
            j: int,
        |
            0 <= j < d ==> (#[trigger] m.core.displays@[j]).id@
                != m.space_manager.screens@[i].display_uuid@) ==> m.shown_workspace(space)
            == m.core.displays@[d].active_workspace,
{
    let screens = m.space_manager.screens@;
    let pred = |s: ScreenInfo| s.space == Some(space);
    assert forall|j: int| 0 <= j < i implies !pred(#[trigger] screens[j]) by {}
    lemma_first_index(screens, pred, i);
    let id = screens[i].display_uuid@;
    let all = m.core.displays@;
    let named = |x: CoreDisplay| x.id@ == screens[i].display_uuid@;
    if 0 <= d < all.len() && all[d].id@ == id && (forall|j: int|
        0 <= j < d ==> (#[trigger] all[j]).id@ != id) {
        assert forall|j: int| 0 <= j < d implies !named(#[trigger] all[j]) by {}
        lemma_first_index(all, named, d);
        assert(display_by_id(m.core, screens[i].display_uuid@) == first_match(all, named));
    }
}

/// A workspace is at home on the space of its display.
pub proof fn law_workspace_is_at_home_on_its_displays_space(
    m: Reactor,
    workspace: WorkspaceId,
    i: int,
    d: int,
)
    requires
        0 <= i < m.core.workspaces@.len(),
        m.core.workspaces@[i].id == workspace,
        forall|j: int| 0 <= j < i ==> (#[trigger] m.core.workspaces@[j]).id != workspace,
        0 <= d < m.core.displays@.len(),
        m.core.displays@[d].id@ == m.core.workspaces@[i].display@,
        forall|j: int|
            0 <= j < d ==> (#[trigger] m.core.displays@[j]).id@ != m.core.workspaces@[i].display@,
    ensures
        m.home_space(workspace) == m.core.displays@[d].space,
{
    let all = m.core.workspaces@;
    let pred = |w: CoreWorkspace| w.id == workspace;
    assert forall|j: int| 0 <= j < i implies !pred(#[trigger] all[j]) by {}
    lemma_first_index(all, pred, i);
    let id = all[i].display@;
    let displays = m.core.displays@;
    let named = |x: CoreDisplay| x.id@ == all[i].display@;
    assert forall|j: int| 0 <= j < d implies !named(#[trigger] displays[j]) by {}
    lemma_first_index(displays, named, d);
    assert(display_by_id(m.core, all[i].display@) == first_match(displays, named));
}

/// The windows shown on a space are those assigned to the workspace that it
/// shows; a space that shows no workspace shows no window.
pub proof fn law_shown_windows_are_those_of_the_shown_workspace(
    m: Reactor,
    space: SpaceId,
    window: WindowId,
)
    ensures
        m.shown_windows(space).contains(window) <==> exists|i: int|
            0 <= i < m.core.windows@.len() && (#[trigger] m.core.windows@[i]).id == window
                && m.core.windows@[i].workspace is Some && m.core.windows@[i].workspace
                == m.shown_workspace(space),
        m.on_shown_workspace(space, window) <==> m.assigned_workspace(window) is Some
            && m.assigned_workspace(window) == m.shown_workspace(space),
{
    if let Some(workspace) = m.shown_workspace(space) {
        let all = m.core.windows@;
        let pred = |w: CoreWindow| w.workspace == Some(workspace);
        let kept = all.filter(pred);
        let ids = m.shown_windows(space);
        lemma_filter_members(all, pred);
        if ids.contains(window) {
            let k = ids.index_of(window);
            assert(kept.contains(kept[k]));
            let i = all.index_of(kept[k]);
            assert(all[i].id == window);
        }
        if exists|i: int|
            0 <= i < all.len() && (#[trigger] all[i]).id == window && all[i].workspace == Some(
                workspace,
            ) {
            let i = choose|i: int|
                0 <= i < all.len() && (#[trigger] all[i]).id == window && all[i].workspace == Some(
                    workspace,
                );
            assert(all.contains(all[i]));
            assert(kept.contains(all[i]));
            let k = kept.index_of(all[i]);
            assert(ids[k] == window);
        }
    }
}

/// The workspace of a number is the first that has it.
pub proof fn law_workspace_by_number(s: CoreSnapshot, number: WorkspaceNumber, i: int)
    requires
        0 <= i < s.workspaces@.len(),
        s.workspaces@[i].number == Some(number),
        forall|j: int| 0 <= j < i ==> (#[trigger] s.workspaces@[j]).number != Some(number),
    ensures
        workspace_by_number(s, number) == Some(s.workspaces@[i]),
{
    let pred = |w: CoreWorkspace| w.number == Some(number);
    assert forall|j: int| 0 <= j < i implies !pred(#[trigger] s.workspaces@[j]) by {}
    lemma_first_index(s.workspaces@, pred, i);
}

} // verus!
