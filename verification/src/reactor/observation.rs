//! How the system looks to the workspace model.

use vstd::prelude::*;

use crate::app::WindowId;
use crate::collections::{first_match, lemma_filter_members, lemma_first_index, lemma_no_match};
use crate::event::ScreenInfo;
use crate::geometry::{overlap, Rect, Size};
use crate::ids::{SpaceId, WindowServerId};
use crate::reactor::managers::{FullscreenSpaceTrack, WindowFilter, WindowState};
use crate::reactor::screens::screens_in_range;
use crate::reactor::surroundings::Surroundings;
use crate::reactor::Reactor;
use crate::stack_line::{find_workspace, workspace_by_id};

verus! {

pub struct DisplayObservation {
    pub id: String,
    pub frame: Rect,
    pub space: Option<SpaceId>,
}

pub struct WindowObservation {
    pub id: WindowId,
    pub frame: Rect,
    pub display: Option<String>,
    pub platform_id: Option<u32>,
    pub app_id: Option<String>,
    pub app_name: Option<String>,
    pub title: String,
    pub ax_role: Option<String>,
    pub ax_subrole: Option<String>,
    pub minimized: bool,
    pub fullscreen: bool,
    pub resizable: bool,
    pub preferred_size: Size,
    pub min_size: Option<Size>,
    pub max_size: Option<Size>,
}

/// Everything that the workspace model is shown at once.
pub struct PlatformObservation {
    /// The number of the displays' last reconfiguration.
    pub generation: u64,
    pub displays: Vec<DisplayObservation>,
    pub active_display: Option<String>,
    pub windows: Vec<WindowObservation>,
    pub focused_window: Option<WindowId>,
}

/// What the workspace model is shown of displays alone.
pub struct DisplayTopologyObservation {
    pub generation: u64,
    pub displays: Vec<DisplayObservation>,
    pub active_display: Option<String>,
}

/// How much of a window a screen must show, in square sub-points, to count
/// as the window's: nine square points.
pub const MIN_OVERLAP: i128 = 589824;

/// Whether a screen is the last of those that show most of a frame.
pub open spec fn is_main_screen(screens: Seq<ScreenInfo>, frame: Rect, i: int) -> bool {
    &&& 0 <= i < screens.len()
    &&& overlap(screens[i].frame, frame) > MIN_OVERLAP
    &&& forall|j: int|
        0 <= j < screens.len() ==> overlap((#[trigger] screens[j]).frame, frame) <= overlap(
            screens[i].frame,
            frame,
        )
    &&& forall|j: int|
        i < j < screens.len() ==> overlap((#[trigger] screens[j]).frame, frame) < overlap(
            screens[i].frame,
            frame,
        )
}

/// The screen that shows most of a frame.
pub open spec fn main_screen(screens: Seq<ScreenInfo>, frame: Rect) -> Option<int> {
    if exists|i: int| is_main_screen(screens, frame, i) {
        Some(choose|i: int| is_main_screen(screens, frame, i))
    } else {
        None
    }
}

fn find_main_screen(screens: &Vec<ScreenInfo>, frame: &Rect) -> (r: Option<usize>)
    requires
        screens_in_range(screens@),
        frame.in_range(),
    ensures
        match r {
            Some(i) => i < screens@.len() && main_screen(screens@, *frame) == Some(i as int),
            None => main_screen(screens@, *frame) is None,
        },
{
    let mut best: Option<usize> = None;
    let mut best_area: i128 = MIN_OVERLAP;
    let mut i: usize = 0;
    while i < screens.len()
        invariant
            screens_in_range(screens@),
            frame.in_range(),
            i <= screens@.len(),
            match best {
                Some(b) => {
                    &&& b < i
                    &&& best_area > MIN_OVERLAP
                    &&& best_area == overlap(screens@[b as int].frame, *frame)
                    &&& forall|j: int|
                        0 <= j < i ==> overlap((#[trigger] screens@[j]).frame, *frame) <= best_area
                    &&& forall|j: int|
                        b < j < i ==> overlap((#[trigger] screens@[j]).frame, *frame) < best_area
                },
                None => best_area == MIN_OVERLAP && forall|j: int|
                    0 <= j < i ==> overlap((#[trigger] screens@[j]).frame, *frame) <= MIN_OVERLAP,
            },
        decreases screens@.len() - i,
    {
        let area: i128 = screens[i].frame.overlap_area(frame);
        if area > MIN_OVERLAP && area >= best_area {
            best = Some(i);
            best_area = area;
        }
        i += 1;
    }
    match best {
        Some(b) => {
            proof {
                assert(is_main_screen(screens@, *frame, b as int));
                let k = choose|k: int| is_main_screen(screens@, *frame, k);
                assert(is_main_screen(screens@, *frame, k));
                if k < b {
                    assert(overlap(screens@[b as int].frame, *frame) < overlap(
                        screens@[k].frame,
                        *frame,
                    ));
                } else if b < k {
                    assert(overlap(screens@[k].frame, *frame) < overlap(
                        screens@[b as int].frame,
                        *frame,
                    ));
                }
            }
            Some(b)
        },
        None => {
            proof {
                assert forall|k: int| !is_main_screen(screens@, *frame, k) by {
                    if 0 <= k < screens@.len() {
                        assert(overlap(screens@[k].frame, *frame) <= MIN_OVERLAP);
                    }
                }
            }
            None
        },
    }
}

pub fn copy_text(s: &Option<String>) -> (r: Option<String>)
    ensures
        r == *s,
{
    match s {
        Some(x) => Some(x.clone()),
        None => None,
    }
}

/// Whether a fullscreen space was made for a window.
pub open spec fn holds_window(track: FullscreenSpaceTrack, wid: WindowId) -> bool {
    exists|i: int|
        0 <= i < track.windows@.len() && (#[trigger] track.windows@[i]).window_id == Some(wid)
}

fn track_holds(track: &FullscreenSpaceTrack, wid: WindowId) -> (r: bool)
    ensures
        r == holds_window(*track, wid),
{
    let mut i: usize = 0;
    while i < track.windows.len()
        invariant
            i <= track.windows@.len(),
            forall|j: int|
                0 <= j < i ==> (#[trigger] track.windows@[j]).window_id != Some(wid),
        decreases track.windows@.len() - i,
    {
        if let Some(w) = track.windows[i].window_id {
            if w == wid {
                return true;
            }
        }
        i += 1;
    }
    false
}

/// Whether two texts that may be missing are the same.
pub open spec fn same_optional(a: Option<String>, b: Option<Seq<char>>) -> bool {
    match (a, b) {
        (Some(x), Some(y)) => x@ == y,
        (None, None) => true,
        _ => false,
    }
}

impl Reactor {
    /// Whether the workspace model is shown a window.
    pub open spec fn observable(&self, wid: WindowId) -> bool {
        self.window_manager.windows@.contains_key(wid) && self.layout_may_hold(wid) && (
        self.window_manager.server_info(self.window_manager.windows@[wid].sys_id) matches Some(info)
            ==> info.layer == 0)
    }

    fn is_observable(&self, wid: WindowId) -> (r: bool)
        ensures
            r == self.observable(wid),
    {
        match self.window_manager.window(wid) {
            Some(w) => w.matches_filter(WindowFilter::EffectivelyManageable)
                && match self.window_manager.server_info_of(w.sys_id) {
                Some(info) => info.layer == 0,
                None => true,
            },
            None => false,
        }
    }

    /// Whether a window is on a fullscreen space of its own.
    pub open spec fn is_fullscreen(&self, wid: WindowId) -> bool {
        exists|space: u64| #[trigger]
            self.space_manager.fullscreen_by_space@.contains_key(space) && holds_window(
                self.space_manager.fullscreen_by_space@[space],
                wid,
            )
    }

    fn window_is_fullscreen(&self, wid: WindowId) -> (r: bool)
        ensures
            r == self.is_fullscreen(wid),
    {
        let spaces: Vec<u64> = self.space_manager.fullscreen_by_space.keys();
        let mut i: usize = 0;
        while i < spaces.len()
            invariant
                i <= spaces@.len(),
                forall|s: u64| #[trigger]
                    spaces@.contains(s) <==> self.space_manager.fullscreen_by_space@.contains_key(
                        s,
                    ),
                forall|j: int|
                    0 <= j < i ==> !holds_window(
                        self.space_manager.fullscreen_by_space@[#[trigger] spaces@[j]],
                        wid,
                    ),
            decreases spaces@.len() - i,
        {
            assert(spaces@.contains(spaces@[i as int]));
            if let Some(track) = self.space_manager.fullscreen_by_space.get(spaces[i]) {
                if track_holds(track, wid) {
                    return true;
                }
            }
            i += 1;
        }
        proof {
            assert forall|space: u64| #[trigger]
                self.space_manager.fullscreen_by_space@.contains_key(space) implies !holds_window(
                self.space_manager.fullscreen_by_space@[space],
                wid,
            ) by {
                assert(spaces@.contains(space));
            }
        }
        false
    }

    /// The display that a window is on: the one that shows most of it, or
    /// else that of its workspace.
    pub open spec fn observed_display(&self, wid: WindowId, frame: Rect) -> Option<Seq<char>> {
        match main_screen(self.space_manager.screens@, frame) {
            Some(i) => Some(self.space_manager.screens@[i].display_uuid@),
            None => match self.assigned_workspace(wid) {
                Some(workspace) => match workspace_by_id(self.core, workspace) {
                    Some(w) => Some(w.display@),
                    None => None,
                },
                None => None,
            },
        }
    }

    fn display_of_window(&self, wid: WindowId, frame: &Rect) -> (r: Option<String>)
        requires
            self.wf(),
            frame.in_range(),
        ensures
            same_optional(r, self.observed_display(wid, *frame)),
    {
        match find_main_screen(&self.space_manager.screens, frame) {
            Some(i) => Some(self.space_manager.screens[i].display_uuid.clone()),
            None => match self.workspace_for_window(wid) {
                Some(workspace) => match find_workspace(&self.core, workspace) {
                    Some(i) => Some(self.core.workspaces[i].display.clone()),
                    None => None,
                },
                None => None,
            },
        }
    }

    /// Whether an observation shows a window as it is.
    pub open spec fn shows_window(&self, o: WindowObservation) -> bool {
        let w = self.window_manager.windows@[o.id];
        let details = self.window_manager.details@[o.id];
        &&& o.frame == w.frame_monotonic
        &&& same_optional(o.display, self.observed_display(o.id, w.frame_monotonic))
        &&& o.platform_id == match w.sys_id {
            Some(wsid) => Some(wsid.0),
            None => None,
        }
        &&& if self.app_manager.apps@.contains_key(o.id.pid) {
            let info = self.app_manager.apps@[o.id.pid].info;
            o.app_id == info.bundle_id && o.app_name == info.localized_name
        } else {
            o.app_id is None && o.app_name is None
        }
        &&& o.title == details.title
        &&& o.ax_role == details.ax_role
        &&& o.ax_subrole == details.ax_subrole
        &&& o.minimized == w.is_minimized
        &&& o.fullscreen == self.is_fullscreen(o.id)
        &&& o.resizable == details.is_resizable
        &&& o.preferred_size == w.frame_monotonic.size
        &&& o.min_size == details.min_size
        &&& o.max_size == details.max_size
    }

    fn observe_window(&self, wid: WindowId) -> (r: WindowObservation)
        requires
            self.wf(),
            self.window_manager.windows@.contains_key(wid),
        ensures
            r.id == wid,
            self.shows_window(r),
    {
        let w: WindowState = match self.window_manager.windows.get(wid) {
            Some(w) => *w,
            None => vstd::pervasive::unreached(),
        };
        let (app_id, app_name): (Option<String>, Option<String>) =
            match self.app_manager.apps.get(wid.pid) {
            Some(app) => (copy_text(&app.info.bundle_id), copy_text(&app.info.localized_name)),
            None => (None, None),
        };
        let display: Option<String> = self.display_of_window(wid, &w.frame_monotonic);
        let fullscreen: bool = self.window_is_fullscreen(wid);
        match self.window_manager.details.get(wid) {
            Some(details) => WindowObservation {
                id: wid,
                frame: w.frame_monotonic,
                display,
                platform_id: match w.sys_id {
                    Some(wsid) => Some(wsid.0),
                    None => None,
                },
                app_id,
                app_name,
                title: details.title.clone(),
                ax_role: copy_text(&details.ax_role),
                ax_subrole: copy_text(&details.ax_subrole),
                minimized: w.is_minimized,
                fullscreen,
                resizable: details.is_resizable,
                preferred_size: w.frame_monotonic.size,
                min_size: details.min_size,
                max_size: details.max_size,
            },
            None => vstd::pervasive::unreached(),
        }
    }

    /// The windows that the workspace model is shown, in the order in which
    /// they came.
    pub open spec fn observed_windows(&self) -> Seq<WindowId> {
        self.window_manager.windows.order().filter(|w: WindowId| self.observable(w))
    }

    fn observe_windows(&self) -> (r: Vec<WindowObservation>)
        requires
            self.wf(),
        ensures
            r@.map_values(|o: WindowObservation| o.id) == self.observed_windows(),
            forall|i: int| 0 <= i < r@.len() ==> self.shows_window(#[trigger] r@[i]),
    {
        let ghost pred = |w: WindowId| self.observable(w);
        let ghost id = |o: WindowObservation| o.id;
        let all: Vec<WindowId> = self.window_manager.windows.keys();
        let mut r: Vec<WindowObservation> = Vec::new();
        let mut i: usize = 0;
        proof {
            reveal(Seq::filter);
            assert(r@.map_values(id) =~= all@.take(0).filter(pred));
        }
        while i < all.len()
            invariant
                self.wf(),
                i <= all@.len(),
                all@ == self.window_manager.windows.order(),
                pred == (|w: WindowId| self.observable(w)),
                id == (|o: WindowObservation| o.id),
                r@.map_values(id) == all@.take(i as int).filter(pred),
                forall|k: int| 0 <= k < r@.len() ==> self.shows_window(#[trigger] r@[k]),
            decreases all@.len() - i,
        {
            proof {
                reveal(Seq::filter);
                assert(all@.take(i + 1).drop_last() =~= all@.take(i as int));
            }
            let ghost before = r@;
            if self.is_observable(all[i]) {
                r.push(self.observe_window(all[i]));
                assert(r@.map_values(id) =~= before.map_values(id).push(all@[i as int]));
            }
            i += 1;
        }
        assert(all@.take(i as int) =~= all@);
        r
    }

    /// The display in use: the first that shows the space a command is about.
    pub open spec fn active_display(&self, sur: Surroundings) -> Option<Seq<char>> {
        match first_match(
            self.space_manager.screens@,
            |s: ScreenInfo| s.space == self.command_space(sur),
        ) {
            Some(screen) => Some(screen.display_uuid@),
            None => None,
        }
    }

    fn find_active_display(&self, sur: &Surroundings) -> (r: Option<String>)
        requires
            self.wf(),
            sur.wf(),
        ensures
            same_optional(r, self.active_display(*sur)),
    {
        let space: Option<SpaceId> = self.workspace_command_space(sur);
        let screens = &self.space_manager.screens;
        let ghost pred = |s: ScreenInfo| s.space == self.command_space(*sur);
        let mut i: usize = 0;
        while i < screens.len()
            invariant
                i <= screens@.len(),
                *screens == self.space_manager.screens,
                space == self.command_space(*sur),
                pred == (|s: ScreenInfo| s.space == self.command_space(*sur)),
                forall|j: int| 0 <= j < i ==> !pred(#[trigger] screens@[j]),
            decreases screens@.len() - i,
        {
            let same: bool = match (screens[i].space, space) {
                (Some(a), Some(b)) => a == b,
                (None, None) => true,
                _ => false,
            };
            if same {
                proof {
                    lemma_first_index(screens@, pred, i as int);
                }
                return Some(screens[i].display_uuid.clone());
            }
            i += 1;
        }
        proof {
            lemma_no_match(screens@, pred);
        }
        None
    }

    /// The displays as the workspace model sees them.
    pub fn observe_displays(&self) -> (r: Vec<DisplayObservation>)
        ensures
            shows_displays(r@, self.space_manager.screens@),
    {
        let screens = &self.space_manager.screens;
        let mut r: Vec<DisplayObservation> = Vec::new();
        let mut i: usize = 0;
        while i < screens.len()
            invariant
                i <= screens@.len(),
                *screens == self.space_manager.screens,
                r@.len() == i,
                forall|k: int|
                    0 <= k < i ==> (#[trigger] r@[k]).id == screens@[k].display_uuid && r@[k].frame
                        == screens@[k].frame && r@[k].space == screens@[k].space,
            decreases screens@.len() - i,
        {
            r.push(
                DisplayObservation {
                    id: screens[i].display_uuid.clone(),
                    frame: screens[i].frame,
                    space: screens[i].space,
                },
            );
            i += 1;
        }
        r
    }

    /// Everything that the workspace model is to see. Only a window that it
    /// sees can have the focus.
    pub fn platform_observation(&self, sur: &Surroundings) -> (r: PlatformObservation)
        requires
            self.wf(),
            sur.wf(),
        ensures
            r.generation == sur.display_epoch,
            shows_displays(r.displays@, self.space_manager.screens@),
            same_optional(r.active_display, self.active_display(*sur)),
            r.windows@.map_values(|o: WindowObservation| o.id) == self.observed_windows(),
            forall|i: int| 0 <= i < r.windows@.len() ==> self.shows_window(#[trigger] r.windows@[i]),
            r.focused_window == match self.main_wid() {
                Some(wid) => if self.observable(wid) {
                    Some(wid)
                } else {
                    None
                },
                None => None,
            },
    {
        let focused_window: Option<WindowId> = match self.main_window() {
            Some(wid) => if self.is_observable(wid) {
                Some(wid)
            } else {
                None
            },
            None => None,
        };
        PlatformObservation {
            generation: sur.display_epoch,
            displays: self.observe_displays(),
            active_display: self.find_active_display(sur),
            windows: self.observe_windows(),
            focused_window,
        }
    }

    /// The displays and the one in use, for a change of displays.
    pub fn topology_observation(&self, sur: &Surroundings) -> (r: DisplayTopologyObservation)
        requires
            self.wf(),
            sur.wf(),
        ensures
            r.generation == sur.display_epoch,
            shows_displays(r.displays@, self.space_manager.screens@),
            same_optional(r.active_display, self.active_display(*sur)),
    {
        DisplayTopologyObservation {
            generation: sur.display_epoch,
            displays: self.observe_displays(),
            active_display: self.find_active_display(sur),
        }
    }
}

/// Whether displays are shown as the screens are.
pub open spec fn shows_displays(
    displays: Seq<DisplayObservation>,
    screens: Seq<ScreenInfo>,
) -> bool {
    displays.len() == screens.len() && forall|i: int|
        0 <= i < displays.len() ==> (#[trigger] displays[i]).id == screens[i].display_uuid
            && displays[i].frame == screens[i].frame && displays[i].space == screens[i].space
}

/// The focused window that the workspace model is told of is one that it is
/// shown.
pub proof fn law_focused_window_is_observed(m: Reactor, wid: WindowId)
    requires
        m.observable(wid),
        m.window_manager.windows.order().contains(wid),
    ensures
        m.observed_windows().contains(wid),
{
    lemma_filter_members(
        m.window_manager.windows.order(),
        |w: WindowId| m.observable(w),
    );
}

/// The model is shown the tracked windows that the layout may hold and that
/// are on the ordinary layer.
pub proof fn law_observed_windows(m: Reactor, wid: WindowId, wsid: WindowServerId)
    requires
        forall|w: WindowId| #[trigger]
            m.window_manager.windows.order().contains(w)
                <==> m.window_manager.windows@.contains_key(w),
        m.window_manager.windows@[wid].sys_id == Some(wsid),
    ensures
        m.observed_windows().contains(wid) <==> m.window_manager.windows@.contains_key(wid)
            && m.window_manager.windows@[wid].is_manageable
            && !m.window_manager.windows@[wid].ignore_app_rule && (
        m.window_manager.window_server_info@.contains_key(wsid)
            ==> m.window_manager.window_server_info@[wsid].layer == 0),
{
    lemma_filter_members(m.window_manager.windows.order(), |w: WindowId| m.observable(w));
}

/// A window is on the display that shows most of it, as long as that is more
/// than three points by three; otherwise on its workspace's.
pub proof fn law_observed_display_shows_most(m: Reactor, wid: WindowId, frame: Rect, i: int)
    requires
        0 <= i < m.space_manager.screens@.len(),
    ensures
        overlap(m.space_manager.screens@[i].frame, frame) > 9 * 256 * 256 && (forall|j: int|
            0 <= j < m.space_manager.screens@.len() && j != i ==> overlap(
                (#[trigger] m.space_manager.screens@[j]).frame,
                frame,
            ) < overlap(m.space_manager.screens@[i].frame, frame)) ==> m.observed_display(wid, frame)
            == Some(m.space_manager.screens@[i].display_uuid@),
        (forall|j: int|
            0 <= j < m.space_manager.screens@.len() ==> overlap(
                (#[trigger] m.space_manager.screens@[j]).frame,
                frame,
            ) <= 9 * 256 * 256) ==> m.observed_display(wid, frame) == match m.assigned_workspace(
            wid,
        ) {
            Some(workspace) => match workspace_by_id(m.core, workspace) {
                Some(w) => Some(w.display@),
                None => None,
            },
            None => None,
        },
{
    let screens = m.space_manager.screens@;
    if overlap(screens[i].frame, frame) > 9 * 256 * 256 && (forall|j: int|
        0 <= j < screens.len() && j != i ==> overlap((#[trigger] screens[j]).frame, frame)
            < overlap(screens[i].frame, frame)) {
        assert(is_main_screen(screens, frame, i));
        let k = choose|k: int| is_main_screen(screens, frame, k);
        assert(is_main_screen(screens, frame, k));
        assert(overlap(screens[i].frame, frame) <= overlap(screens[k].frame, frame));
        assert(k == i);
    }
    if forall|j: int|
        0 <= j < screens.len() ==> overlap((#[trigger] screens[j]).frame, frame) <= 9 * 256 * 256 {
        assert(!exists|k: int| is_main_screen(screens, frame, k));
    }
}

/// The display in use is that of the first screen that shows the space that
/// commands are about.
pub proof fn law_display_in_use_shows_the_command_space(
    m: Reactor,
    space: SpaceId,
    i: int,
    sur: Surroundings,
)
    requires
        m.command_space(sur) == Some(space),
        0 <= i < m.space_manager.screens@.len(),
        m.space_manager.screens@[i].space == Some(space),
        forall|j: int| 0 <= j < i ==> (#[trigger] m.space_manager.screens@[j]).space != Some(space),
    ensures
        m.active_display(sur) == Some(m.space_manager.screens@[i].display_uuid@),
{
    let screens = m.space_manager.screens@;
    let pred = |s: ScreenInfo| s.space == m.command_space(sur);
    assert forall|j: int| 0 <= j < i implies !pred(#[trigger] screens[j]) by {}
    lemma_first_index(screens, pred, i);
}

/// A window is in fullscreen if some fullscreen space holds it.
pub proof fn law_fullscreen_windows_are_recorded(m: Reactor, wid: WindowId, key: u64, i: int)
    ensures
        m.space_manager.fullscreen_by_space@.contains_key(key) && 0 <= i
            < m.space_manager.fullscreen_by_space@[key].windows@.len()
            && m.space_manager.fullscreen_by_space@[key].windows@[i].window_id == Some(wid)
            ==> m.is_fullscreen(wid),
        (forall|k: u64| #[trigger]
            m.space_manager.fullscreen_by_space@.contains_key(k) ==> forall|j: int|
                0 <= j < m.space_manager.fullscreen_by_space@[k].windows@.len() ==> (
                #[trigger] m.space_manager.fullscreen_by_space@[k].windows@[j]).window_id != Some(
                    wid,
                )) ==> !m.is_fullscreen(wid),
{
    if m.space_manager.fullscreen_by_space@.contains_key(key) && 0 <= i
        < m.space_manager.fullscreen_by_space@[key].windows@.len()
        && m.space_manager.fullscreen_by_space@[key].windows@[i].window_id == Some(wid) {
        assert(holds_window(m.space_manager.fullscreen_by_space@[key], wid));
    }
}

/// An observation shows a window's own frame, number, title and state.
pub proof fn law_observation_shows_the_window(m: Reactor, o: WindowObservation)
    requires
        m.shows_window(o),
    ensures
        o.frame == m.window_manager.windows@[o.id].frame_monotonic,
        o.preferred_size == m.window_manager.windows@[o.id].frame_monotonic.size,
        o.minimized == m.window_manager.windows@[o.id].is_minimized,
        o.title == m.window_manager.details@[o.id].title,
        o.min_size == m.window_manager.details@[o.id].min_size,
        o.max_size == m.window_manager.details@[o.id].max_size,
        o.resizable == m.window_manager.details@[o.id].is_resizable,
        m.window_manager.windows@[o.id].sys_id matches Some(wsid) ==> o.platform_id == Some(
            wsid.0,
        ),
        m.app_manager.apps@.contains_key(o.id.pid) ==> o.app_id
            == m.app_manager.apps@[o.id.pid].info.bundle_id,
{
}

} // verus!
