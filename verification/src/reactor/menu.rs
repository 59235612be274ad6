//! What the menu bar shows.

use vstd::prelude::*;

use crate::collections::{first_index, first_match, lemma_first_index, lemma_no_match};
use crate::event::ScreenInfo;
use crate::geometry::Rect;
use crate::ids::SpaceId;
use crate::model::{CoreDisplay, CoreSnapshot, WorkspaceId};
use crate::reactor::Reactor;
use crate::text::{append_u64, decimal};

verus! {

/// A display in the menu, with the ids of its entries for workspaces.
pub struct MenuDisplay {
    pub display_uuid: String,
    pub frame: Rect,
    pub workspaces: Vec<String>,
}

/// An entry of the menu: which of the displays has it, and where.
#[derive(Copy, Clone, Debug, PartialEq, Eq, Structural)]
pub struct MenuPlace {
    pub display: usize,
    pub entry: usize,
}

/// What the menu bar is told. The entries themselves stay with the displays.
pub struct MenuUpdate<W> {
    pub active_space: SpaceId,
    pub active_space_is_activated: bool,
    /// The entries of all displays.
    pub workspaces: Vec<MenuPlace>,
    /// Where the entries of each display but the first begin.
    pub display_starts: Vec<usize>,
    /// Where each display is.
    pub frames: Vec<Rect>,
    pub active_workspace_idx: Option<u64>,
    pub active_workspace: Option<WorkspaceId>,
    /// The windows of the workspace in use.
    pub windows: Vec<W>,
}

/// The display that the user is at.
pub open spec fn context_display(s: CoreSnapshot) -> Option<CoreDisplay> {
    first_match(s.displays@, |d: CoreDisplay| d.is_active_context)
}

fn find_context_display(s: &CoreSnapshot) -> (r: Option<usize>)
    ensures
        match r {
            Some(i) => i < s.displays@.len() && context_display(*s) == Some(s.displays@[i as int]),
            None => context_display(*s) is None,
        },
{
    let ghost pred = |d: CoreDisplay| d.is_active_context;
    let mut i: usize = 0;
    while i < s.displays.len()
        invariant
            i <= s.displays@.len(),
            pred == (|d: CoreDisplay| d.is_active_context),
            forall|j: int| 0 <= j < i ==> !pred(#[trigger] s.displays@[j]),
        decreases s.displays@.len() - i,
    {
        if s.displays[i].is_active_context {
            proof {
                lemma_first_index(s.displays@, pred, i as int);
            }
            return Some(i);
        }
        i += 1;
    }
    proof {
        lemma_no_match(s.displays@, pred);
    }
    None
}

/// The entries of one display.
pub open spec fn places_on(displays: Seq<MenuDisplay>, display: int) -> Seq<MenuPlace> {
    Seq::new(
        displays[display].workspaces@.len(),
        |k: int| MenuPlace { display: display as usize, entry: k as usize },
    )
}

/// The entries of displays, one after the other.
pub open spec fn all_places(displays: Seq<MenuDisplay>) -> Seq<MenuPlace>
    decreases displays.len(),
{
    if displays.len() == 0 {
        Seq::empty()
    } else {
        all_places(displays.drop_last()) + places_on(displays, displays.len() - 1)
    }
}

/// Where the workspaces of each display but the first begin. Displays without
/// workspaces are passed over.
pub open spec fn starts(displays: Seq<MenuDisplay>) -> Seq<int>
    decreases displays.len(),
{
    if displays.len() == 0 {
        Seq::empty()
    } else {
        let before = displays.drop_last();
        if displays.last().workspaces@.len() > 0 && all_places(before).len() > 0 {
            starts(before).push(all_places(before).len() as int)
        } else {
            starts(before)
        }
    }
}

/// The full bounds of the screen with an identity, if they are known.
pub open spec fn full_bounds(
    screens: Seq<ScreenInfo>,
    bounds: Seq<Rect>,
    uuid: Seq<char>,
) -> Option<Rect> {
    match first_index(screens, |s: ScreenInfo| s.display_uuid@ == uuid) {
        Some(i) => if bounds[i].size.width > 0 && bounds[i].size.height > 0 {
            Some(bounds[i])
        } else {
            None
        },
        None => None,
    }
}

/// Where a display in the menu is: its full bounds, or else its frame.
pub open spec fn menu_frame(display: MenuDisplay, screens: Seq<ScreenInfo>, bounds: Seq<Rect>) -> Rect {
    match full_bounds(screens, bounds, display.display_uuid@) {
        Some(b) => b,
        None => display.frame,
    }
}

/// Whether an entry is of the workspace with an id.
pub open spec fn is_entry_of(displays: Seq<MenuDisplay>, id: WorkspaceId) -> spec_fn(
    MenuPlace,
) -> bool {
    |p: MenuPlace|
        displays[p.display as int].workspaces@[p.entry as int]@ == decimal(id.0 as nat)
}

/// The place of the active workspace in the menu.
pub open spec fn active_place(displays: Seq<MenuDisplay>, active: Option<WorkspaceId>) -> Option<
    int,
> {
    match active {
        Some(id) => first_index(all_places(displays), is_entry_of(displays, id)),
        None => None,
    }
}

/// Every place is one of an entry.
pub open spec fn are_entries(places: Seq<MenuPlace>, displays: Seq<MenuDisplay>) -> bool {
    forall|i: int|
        0 <= i < places.len() ==> (#[trigger] places[i]).display < displays.len()
            && places[i].entry < displays[places[i].display as int].workspaces@.len()
}

fn append_places(list: &mut Vec<MenuPlace>, displays: &Vec<MenuDisplay>, display: usize)
    requires
        display < displays@.len(),
        are_entries(old(list)@, displays@),
    ensures
        final(list)@ == old(list)@ + places_on(displays@, display as int),
        are_entries(final(list)@, displays@),
{
    let mut i: usize = 0;
    let n: usize = displays[display].workspaces.len();
    let ghost places = places_on(displays@, display as int);
    assert(list@ =~= old(list)@ + places.take(0));
    while i < n
        invariant
            i <= n,
            display < displays@.len(),
            n == displays@[display as int].workspaces@.len(),
            places == places_on(displays@, display as int),
            list@ == old(list)@ + places.take(i as int),
            are_entries(list@, displays@),
        decreases n - i,
    {
        list.push(MenuPlace { display, entry: i });
        assert(list@ =~= old(list)@ + places.take(i + 1));
        i += 1;
    }
    assert(places.take(i as int) =~= places);
}

fn find_full_bounds(screens: &Vec<ScreenInfo>, bounds: &Vec<Rect>, uuid: &String) -> (r: Option<
    Rect,
>)
    requires
        bounds@.len() == screens@.len(),
    ensures
        r == full_bounds(screens@, bounds@, uuid@),
{
    let ghost pred = |s: ScreenInfo| s.display_uuid@ == uuid@;
    let mut i: usize = 0;
    while i < screens.len()
        invariant
            i <= screens@.len(),
            bounds@.len() == screens@.len(),
            pred == (|s: ScreenInfo| s.display_uuid@ == uuid@),
            forall|j: int| 0 <= j < i ==> !pred(#[trigger] screens@[j]),
        decreases screens@.len() - i,
    {
        if screens[i].display_uuid == *uuid {
            proof {
                lemma_first_index(screens@, pred, i as int);
            }
            if bounds[i].size.width > 0 && bounds[i].size.height > 0 {
                return Some(bounds[i]);
            }
            return None;
        }
        i += 1;
    }
    proof {
        lemma_no_match(screens@, pred);
    }
    None
}

fn find_active_place(
    displays: &Vec<MenuDisplay>,
    places: &Vec<MenuPlace>,
    active: Option<WorkspaceId>,
) -> (r: Option<usize>)
    requires
        places@ == all_places(displays@),
        are_entries(places@, displays@),
    ensures
        match r {
            Some(i) => active_place(displays@, active) == Some(i as int),
            None => active_place(displays@, active) is None,
        },
{
    let id: WorkspaceId = match active {
        Some(id) => id,
        None => {
            return None;
        },
    };
    let mut text: String = String::new();
    append_u64(&mut text, id.0);
    assert(text@ =~= decimal(id.0 as nat));
    let ghost pred = is_entry_of(displays@, id);
    let mut i: usize = 0;
    while i < places.len()
        invariant
            i <= places@.len(),
            places@ == all_places(displays@),
            are_entries(places@, displays@),
            text@ == decimal(id.0 as nat),
            active == Some(id),
            pred == is_entry_of(displays@, id),
            forall|j: int| 0 <= j < i ==> !pred(#[trigger] places@[j]),
        decreases places@.len() - i,
    {
        let place: MenuPlace = places[i];
        if displays[place.display].workspaces[place.entry] == text {
            proof {
                lemma_first_index(places@, pred, i as int);
            }
            return Some(i);
        }
        i += 1;
    }
    proof {
        lemma_no_match(places@, pred);
    }
    None
}

impl Reactor {
    /// What the menu bar is told: the entries of all displays, where each
    /// display is, which workspace is in use and its windows. Nothing is told
    /// where no display is in use or the one in use shows no space.
    pub fn maybe_send_menu_update<W>(
        &self,
        displays: &Vec<MenuDisplay>,
        windows: Vec<W>,
        bounds: &Vec<Rect>,
    ) -> (r: Option<MenuUpdate<W>>)
        requires
            bounds@.len() == self.space_manager.screens@.len(),
        ensures
            match context_display(self.core) {
                Some(d) if d.space is Some => {
                    let space = d.space.unwrap();
                    &&& r matches Some(u)
                    &&& u.active_space == space
                    &&& u.active_space_is_activated == self.active_spaces@.contains(space)
                    &&& u.workspaces@ == all_places(displays@)
                    &&& u.display_starts@.map_values(|n: usize| n as int) == starts(displays@)
                    &&& u.frames@ == displays@.map_values(
                        |display: MenuDisplay|
                            menu_frame(display, self.space_manager.screens@, bounds@),
                    )
                    &&& u.active_workspace == d.active_workspace
                    &&& match active_place(displays@, d.active_workspace) {
                        Some(i) => u.active_workspace_idx == Some(i as u64),
                        None => u.active_workspace_idx is None,
                    }
                    &&& u.windows == windows
                },
                _ => r is None,
            },
    {
        let at: usize = match find_context_display(&self.core) {
            Some(at) => at,
            None => {
                return None;
            },
        };
        let active_space: SpaceId = match self.core.displays[at].space {
            Some(space) => space,
            None => {
                return None;
            },
        };
        let mut workspaces: Vec<MenuPlace> = Vec::new();
        let mut display_starts: Vec<usize> = Vec::new();
        let mut frames: Vec<Rect> = Vec::new();
        let ghost place = |display: MenuDisplay|
            menu_frame(display, self.space_manager.screens@, bounds@);
        let mut i: usize = 0;
        assert(display_starts@.map_values(|n: usize| n as int) =~= starts(displays@.take(0)));
        assert(frames@ =~= displays@.take(0).map_values(place));
        while i < displays.len()
            invariant
                i <= displays@.len(),
                bounds@.len() == self.space_manager.screens@.len(),
                workspaces@ == all_places(displays@.take(i as int)),
                are_entries(workspaces@, displays@),
                display_starts@.map_values(|n: usize| n as int) == starts(
                    displays@.take(i as int),
                ),
                place == (|display: MenuDisplay|
                    menu_frame(display, self.space_manager.screens@, bounds@)),
                frames@ == displays@.take(i as int).map_values(place),
            decreases displays@.len() - i,
        {
            assert(displays@.take(i + 1).drop_last() =~= displays@.take(i as int));
            let display: &MenuDisplay = &displays[i];
            let ghost before = display_starts@;
            if display.workspaces.len() > 0 && workspaces.len() > 0 {
                let start: usize = workspaces.len();
                display_starts.push(start);
                assert(display_starts@.map_values(|n: usize| n as int) =~= before.map_values(
                    |n: usize| n as int,
                ).push(start as int));
            }
            append_places(&mut workspaces, displays, i);
            assert(places_on(displays@, i as int) =~= places_on(displays@.take(i + 1), i as int));
            let frame: Rect = match find_full_bounds(
                &self.space_manager.screens,
                bounds,
                &display.display_uuid,
            ) {
                Some(b) => b,
                None => display.frame,
            };
            frames.push(frame);
            assert(frames@ =~= displays@.take(i + 1).map_values(place));
            i += 1;
        }
        assert(displays@.take(i as int) =~= displays@);
        let active_workspace: Option<WorkspaceId> = self.core.displays[at].active_workspace;
        let active_workspace_idx: Option<u64> = match find_active_place(
            displays,
            &workspaces,
            active_workspace,
        ) {
            Some(place) => Some(place as u64),
            None => None,
        };
        Some(
            MenuUpdate {
                active_space,
                active_space_is_activated: self.is_space_active(active_space),
                workspaces,
                display_starts,
                frames,
                active_workspace_idx,
                active_workspace,
                windows,
            },
        )
    }
}

/// The display that the user is at is the first that the model marks so.
pub proof fn law_menu_is_for_the_display_in_use(s: CoreSnapshot, i: int)
    ensures
        0 <= i < s.displays@.len() && s.displays@[i].is_active_context && (forall|j: int|
            0 <= j < i ==> !(#[trigger] s.displays@[j]).is_active_context) ==> context_display(s)
            == Some(s.displays@[i]),
        (forall|j: int| 0 <= j < s.displays@.len() ==> !(#[trigger] s.displays@[j]).is_active_context)
            ==> context_display(s) is None,
{
    let pred = |d: CoreDisplay| d.is_active_context;
    if 0 <= i < s.displays@.len() && s.displays@[i].is_active_context && (forall|j: int|
        0 <= j < i ==> !(#[trigger] s.displays@[j]).is_active_context) {
        assert forall|j: int| 0 <= j < i implies !pred(#[trigger] s.displays@[j]) by {}
        lemma_first_index(s.displays@, pred, i);
    }
    if forall|j: int| 0 <= j < s.displays@.len() ==> !(#[trigger] s.displays@[j]).is_active_context {
        lemma_no_match(s.displays@, pred);
    }
}

/// The menu lists every workspace of every display, each once, display by
/// display.
pub proof fn law_menu_lists_every_workspace(displays: Seq<MenuDisplay>, d: int, k: int)
    requires
        0 <= d < displays.len() <= usize::MAX,
        0 <= k < displays[d].workspaces@.len(),
        forall|i: int|
            0 <= i < displays.len() ==> (#[trigger] displays[i]).workspaces@.len() <= usize::MAX,
    ensures
        all_places(displays).contains(MenuPlace { display: d as usize, entry: k as usize }),
    decreases displays.len(),
{
    let place = MenuPlace { display: d as usize, entry: k as usize };
    let rest = displays.drop_last();
    let a = all_places(rest);
    let b = places_on(displays, displays.len() - 1);
    let all = all_places(displays);
    assert(all == a + b);
    if d == displays.len() - 1 {
        assert(b[k] == place);
        assert(all[a.len() + k] == place);
    } else {
        assert(rest[d] == displays[d]);
        assert forall|i: int| 0 <= i < rest.len() implies (#[trigger] rest[i]).workspaces@.len()
            <= usize::MAX by {
            assert(rest[i] == displays[i]);
        }
        law_menu_lists_every_workspace(rest, d, k);
        let j = a.index_of(place);
        assert(all[j] == place);
    }
}

/// The bounds of a display in the menu are the full ones of its screen, if
/// they have an area, or else its frame.
pub proof fn law_menu_frame(
    display: MenuDisplay,
    screens: Seq<ScreenInfo>,
    bounds: Seq<Rect>,
    i: int,
)
    requires
        0 <= i < screens.len(),
        screens[i].display_uuid@ == display.display_uuid@,
        forall|j: int|
            0 <= j < i ==> (#[trigger] screens[j]).display_uuid@ != display.display_uuid@,
    ensures
        bounds[i].size.width > 0 && bounds[i].size.height > 0 ==> menu_frame(
            display,
            screens,
            bounds,
        ) == bounds[i],
        bounds[i].size.width <= 0 || bounds[i].size.height <= 0 ==> menu_frame(
            display,
            screens,
            bounds,
        ) == display.frame,
{
    let pred = |s: ScreenInfo| s.display_uuid@ == display.display_uuid@;
    assert forall|j: int| 0 <= j < i implies !pred(#[trigger] screens[j]) by {}
    lemma_first_index(screens, pred, i);
    assert(full_bounds(screens, bounds, display.display_uuid@) == match first_index(screens, pred) {
        Some(k) => if bounds[k].size.width > 0 && bounds[k].size.height > 0 {
            Some(bounds[k])
        } else {
            None
        },
        None => None,
    });
}

} // verus!
