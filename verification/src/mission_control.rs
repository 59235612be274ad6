//! The Mission Control overlay: what is shown, and when.

use vstd::prelude::*;

use crate::app::WindowId;
use crate::collections::{first_match, lemma_first_index, lemma_no_match};
use crate::event::{Command, Event as ReactorEvent, LayoutCommand, ReactorCommand, ScreenInfo};
use crate::geometry::{Point, Rect, Size, GRID};
use crate::ids::{SpaceId, WindowServerId};

verus! {

#[derive(Copy, Clone, Debug, PartialEq, Eq, Structural)]
pub enum Event {
    ShowAll,
    ShowCurrent,
    Dismiss,
    RefreshCurrentWorkspace,
}

#[derive(Copy, Clone, Debug, PartialEq, Eq, Structural)]
pub enum MissionControlViewMode {
    AllWorkspaces,
    CurrentWorkspace,
}

/// What the user did in the overlay.
#[derive(Copy, Clone, Debug, PartialEq, Eq, Structural)]
pub enum MissionControlAction {
    Dismiss,
    SwitchToWorkspace(usize),
    FocusWindow { window_id: WindowId, window_server_id: Option<WindowServerId> },
}

/// What to do with the overlay.
#[derive(Copy, Clone, Debug, PartialEq, Eq, Structural)]
pub enum OverlayStep {
    Nothing,
    /// Hide and drop the overlay.
    Dispose,
    /// Show it empty, then with all workspaces.
    ShowAll,
    /// Show it empty, then with the windows of the current workspace.
    ShowCurrent,
    /// Move the highlight to the active workspace.
    RefreshHighlight,
}

/// The state of the Mission Control actor. Events are heeded only while the
/// feature is enabled.
#[derive(Copy, Clone, Debug, PartialEq, Eq, Structural)]
pub struct MissionControlActor {
    pub enabled: bool,
    pub mission_control_active: bool,
    pub current_view_mode: Option<MissionControlViewMode>,
}

pub open spec fn showing(a: MissionControlActor, mode: MissionControlViewMode) -> MissionControlActor {
    MissionControlActor { mission_control_active: true, current_view_mode: Some(mode), ..a }
}

pub open spec fn disposed(a: MissionControlActor) -> MissionControlActor {
    MissionControlActor { mission_control_active: false, current_view_mode: None, ..a }
}

/// What an event does: showing a view that is open closes it.
pub open spec fn overlay_step(a: MissionControlActor, event: Event) -> (
    MissionControlActor,
    OverlayStep,
) {
    if !a.enabled {
        (a, OverlayStep::Nothing)
    } else {
        match event {
            Event::ShowAll => if a.mission_control_active {
                (disposed(a), OverlayStep::Dispose)
            } else {
                (showing(a, MissionControlViewMode::AllWorkspaces), OverlayStep::ShowAll)
            },
            Event::ShowCurrent => if a.mission_control_active {
                (disposed(a), OverlayStep::Dispose)
            } else {
                (showing(a, MissionControlViewMode::CurrentWorkspace), OverlayStep::ShowCurrent)
            },
            Event::Dismiss => (disposed(a), OverlayStep::Dispose),
            Event::RefreshCurrentWorkspace => if !a.mission_control_active {
                (a, OverlayStep::Nothing)
            } else {
                match a.current_view_mode {
                    Some(MissionControlViewMode::CurrentWorkspace) => (a, OverlayStep::ShowCurrent),
                    Some(MissionControlViewMode::AllWorkspaces) => (
                        a,
                        OverlayStep::RefreshHighlight,
                    ),
                    None => (a, OverlayStep::Nothing),
                }
            },
        }
    }
}

impl MissionControlActor {
    /// A view mode is recorded exactly while the overlay is shown.
    pub open spec fn wf(self) -> bool {
        self.mission_control_active <==> self.current_view_mode is Some
    }

    pub fn new(enabled: bool) -> (r: Self)
        ensures
            r == (MissionControlActor {
                enabled,
                mission_control_active: false,
                current_view_mode: None,
            }),
            r.wf(),
    {
        MissionControlActor { enabled, mission_control_active: false, current_view_mode: None }
    }

    fn dispose_overlay(&mut self)
        ensures
            *final(self) == disposed(*old(self)),
    {
        self.mission_control_active = false;
        self.current_view_mode = None;
    }

    fn show(&mut self, mode: MissionControlViewMode)
        ensures
            *final(self) == showing(*old(self), mode),
    {
        self.mission_control_active = true;
        self.current_view_mode = Some(mode);
    }

    /// Takes an action of the user; gives the event for the reactor. The
    /// overlay is disposed of in each case.
    pub fn handle_overlay_action(&mut self, action: MissionControlAction) -> (r: Option<
        ReactorEvent,
    >)
        ensures
            *final(self) == disposed(*old(self)),
            final(self).wf(),
            r == match action {
                MissionControlAction::Dismiss => None,
                MissionControlAction::SwitchToWorkspace(index) => Some(
                    ReactorEvent::Command(
                        Command::Layout(LayoutCommand::SwitchToWorkspace(index)),
                    ),
                ),
                MissionControlAction::FocusWindow { window_id, window_server_id } => Some(
                    ReactorEvent::Command(
                        Command::Reactor(
                            ReactorCommand::FocusWindow { window_id, window_server_id },
                        ),
                    ),
                ),
            },
    {
        self.dispose_overlay();
        match action {
            MissionControlAction::Dismiss => None,
            MissionControlAction::SwitchToWorkspace(index) => Some(
                ReactorEvent::Command(Command::Layout(LayoutCommand::SwitchToWorkspace(index))),
            ),
            MissionControlAction::FocusWindow { window_id, window_server_id } => Some(
                ReactorEvent::Command(
                    Command::Reactor(ReactorCommand::FocusWindow { window_id, window_server_id }),
                ),
            ),
        }
    }

    pub fn handle_event(&mut self, event: Event) -> (r: OverlayStep)
        ensures
            (*final(self), r) == overlay_step(*old(self), event),
            old(self).wf() ==> final(self).wf(),
    {
        if !self.enabled {
            return OverlayStep::Nothing;
        }
        match event {
            Event::ShowAll => {
                if self.mission_control_active {
                    self.dispose_overlay();
                    OverlayStep::Dispose
                } else {
                    self.show(MissionControlViewMode::AllWorkspaces);
                    OverlayStep::ShowAll
                }
            },
            Event::ShowCurrent => {
                if self.mission_control_active {
                    self.dispose_overlay();
                    OverlayStep::Dispose
                } else {
                    self.show(MissionControlViewMode::CurrentWorkspace);
                    OverlayStep::ShowCurrent
                }
            },
            Event::Dismiss => {
                self.dispose_overlay();
                OverlayStep::Dispose
            },
            Event::RefreshCurrentWorkspace => {
                if self.mission_control_active {
                    match self.current_view_mode {
                        Some(MissionControlViewMode::CurrentWorkspace) => OverlayStep::ShowCurrent,
                        Some(MissionControlViewMode::AllWorkspaces) => {
                            OverlayStep::RefreshHighlight
                        },
                        None => OverlayStep::Nothing,
                    }
                } else {
                    OverlayStep::Nothing
                }
            },
        }
    }
}

/// The overlay's frame where no screen is known.
pub open spec fn fallback_frame() -> Rect {
    Rect {
        origin: Point { x: 0, y: 0 },
        size: Size { width: (1280 * GRID) as i64, height: (800 * GRID) as i64 },
    }
}

/// The screen that the overlay appears on: the first one under the cursor,
/// else the first that shows the active space, else the first.
pub open spec fn overlay_screen(
    screens: Seq<ScreenInfo>,
    cursor: Option<Point>,
    active_space: Option<SpaceId>,
) -> Option<ScreenInfo> {
    let under_cursor = match cursor {
        Some(p) => first_match(screens, |s: ScreenInfo| s.frame.holds(p)),
        None => None,
    };
    let on_space = match active_space {
        Some(space) => first_match(screens, |s: ScreenInfo| s.space == Some(space)),
        None => None,
    };
    if under_cursor is Some {
        under_cursor
    } else if on_space is Some {
        on_space
    } else if screens.len() > 0 {
        Some(screens[0])
    } else {
        None
    }
}

/// The scale of a screen, in hundredths; one that is not known has none.
pub open spec fn scale_of(scales: Seq<(u32, u32)>, id: u32) -> u32
    decreases scales.len(),
{
    if scales.len() == 0 {
        100
    } else if scales[0].0 == id {
        scales[0].1
    } else {
        scale_of(scales.drop_first(), id)
    }
}

fn find_under_cursor(screens: &Vec<ScreenInfo>, p: Point) -> (r: Option<usize>)
    requires
        screens_in_range(screens@),
    ensures
        match r {
            Some(i) => i < screens@.len() && first_match(
                screens@,
                |s: ScreenInfo| s.frame.holds(p),
            ) == Some(screens@[i as int]),
            None => first_match(screens@, |s: ScreenInfo| s.frame.holds(p)) is None,
        },
{
    let ghost pred = |s: ScreenInfo| s.frame.holds(p);
    let mut i: usize = 0;
    while i < screens.len()
        invariant
            i <= screens@.len(),
            screens_in_range(screens@),
            pred == (|s: ScreenInfo| s.frame.holds(p)),
            forall|j: int| 0 <= j < i ==> !pred(#[trigger] screens@[j]),
        decreases screens@.len() - i,
    {
        assert(screens@[i as int].frame.in_range());
        if screens[i].frame.contains(p) {
            proof {
                lemma_first_index(screens@, pred, i as int);
            }
            return Some(i);
        }
        i += 1;
    }
    proof {
        lemma_no_match(screens@, pred);
    }
    None
}

fn find_on_space(screens: &Vec<ScreenInfo>, space: SpaceId) -> (r: Option<usize>)
    ensures
        match r {
            Some(i) => i < screens@.len() && first_match(
                screens@,
                |s: ScreenInfo| s.space == Some(space),
            ) == Some(screens@[i as int]),
            None => first_match(screens@, |s: ScreenInfo| s.space == Some(space)) is None,
        },
{
    let ghost pred = |s: ScreenInfo| s.space == Some(space);
    let mut i: usize = 0;
    while i < screens.len()
        invariant
            i <= screens@.len(),
            pred == (|s: ScreenInfo| s.space == Some(space)),
            forall|j: int| 0 <= j < i ==> !pred(#[trigger] screens@[j]),
        decreases screens@.len() - i,
    {
        let shows: bool = match screens[i].space {
            Some(s) => s == space,
            None => false,
        };
        if shows {
            proof {
                lemma_first_index(screens@, pred, i as int);
            }
            return Some(i);
        }
        i += 1;
    }
    proof {
        lemma_no_match(screens@, pred);
    }
    None
}

fn find_scale(scales: &Vec<(u32, u32)>, id: u32) -> (r: u32)
    ensures
        r == scale_of(scales@, id),
{
    let mut i: usize = 0;
    assert(scales@.skip(0) =~= scales@);
    while i < scales.len()
        invariant
            i <= scales@.len(),
            scale_of(scales@, id) == scale_of(scales@.skip(i as int), id),
        decreases scales@.len() - i,
    {
        assert(scales@.skip(i as int).drop_first() =~= scales@.skip(i + 1));
        if scales[i].0 == id {
            return scales[i].1;
        }
        i += 1;
    }
    100
}

pub open spec fn screens_in_range(screens: Seq<ScreenInfo>) -> bool {
    forall|i: int| 0 <= i < screens.len() ==> (#[trigger] screens[i]).frame.in_range()
}

/// The frame and the scale, in hundredths, with which the overlay appears.
/// `scales` has the scales of screens by their ids.
pub fn initial_overlay_geometry(
    screens: &Vec<ScreenInfo>,
    cursor: Option<Point>,
    active_space: Option<SpaceId>,
    scales: &Vec<(u32, u32)>,
) -> (r: (Rect, u32))
    requires
        screens_in_range(screens@),
    ensures
        r == match overlay_screen(screens@, cursor, active_space) {
            Some(screen) => (screen.frame, scale_of(scales@, screen.id)),
            None => (fallback_frame(), 100),
        },
{
    let under_cursor: Option<usize> = match cursor {
        Some(p) => find_under_cursor(screens, p),
        None => None,
    };
    let on_space: Option<usize> = match active_space {
        Some(space) => find_on_space(screens, space),
        None => None,
    };
    let at: usize = match under_cursor {
        Some(i) => i,
        None => match on_space {
            Some(i) => i,
            None => if screens.len() > 0 {
                0
            } else {
                let frame: Rect = Rect {
                    origin: Point { x: 0, y: 0 },
                    size: Size { width: 1280 * GRID, height: 800 * GRID },
                };
                return (frame, 100);
            },
        },
    };
    (screens[at].frame, find_scale(scales, screens[at].id))
}

/// Asking for a view twice shows it and closes it again.
pub proof fn law_showing_twice_closes(a: MissionControlActor, event: Event)
    requires
        a.enabled,
        !a.mission_control_active,
        a.current_view_mode is None,
        event == Event::ShowAll || event == Event::ShowCurrent,
    ensures
        overlay_step(overlay_step(a, event).0, event) == (a, OverlayStep::Dispose),
{
}

/// Nothing happens while the feature is disabled.
pub proof fn law_disabled_overlay_stays_closed(a: MissionControlActor, event: Event)
    requires
        !a.enabled,
    ensures
        overlay_step(a, event) == (a, OverlayStep::Nothing),
{
}

/// A view that is not open is opened as asked; an open one is refreshed in
/// its own way; dismissing closes it, open or not.
pub proof fn law_overlay_opens_refreshes_and_closes(a: MissionControlActor)
    requires
        a.enabled,
        a.wf(),
    ensures
        !a.mission_control_active ==> overlay_step(a, Event::ShowAll).1 == OverlayStep::ShowAll
            && overlay_step(a, Event::ShowAll).0.current_view_mode == Some(
            MissionControlViewMode::AllWorkspaces,
        ) && overlay_step(a, Event::ShowAll).0.mission_control_active,
        !a.mission_control_active ==> overlay_step(a, Event::ShowCurrent).1
            == OverlayStep::ShowCurrent && overlay_step(
            a,
            Event::ShowCurrent,
        ).0.current_view_mode == Some(MissionControlViewMode::CurrentWorkspace),
        !a.mission_control_active ==> overlay_step(a, Event::RefreshCurrentWorkspace) == (
            a,
            OverlayStep::Nothing,
        ),
        a.current_view_mode == Some(MissionControlViewMode::CurrentWorkspace) ==> overlay_step(
            a,
            Event::RefreshCurrentWorkspace,
        ) == (a, OverlayStep::ShowCurrent),
        a.current_view_mode == Some(MissionControlViewMode::AllWorkspaces) ==> overlay_step(
            a,
            Event::RefreshCurrentWorkspace,
        ) == (a, OverlayStep::RefreshHighlight),
        overlay_step(a, Event::Dismiss).1 == OverlayStep::Dispose,
        !overlay_step(a, Event::Dismiss).0.mission_control_active,
        overlay_step(a, Event::Dismiss).0.enabled,
{
}

/// The overlay appears on the screen under the cursor; where none is, on the
/// one that shows the active space; where none does, on the first.
pub proof fn law_overlay_appears_under_the_cursor(
    screens: Seq<ScreenInfo>,
    p: Point,
    space: SpaceId,
    active: Option<SpaceId>,
    i: int,
)
    requires
        0 <= i < screens.len(),
    ensures
        screens[i].frame.holds(p) && (forall|j: int|
            0 <= j < i ==> !(#[trigger] screens[j]).frame.holds(p)) ==> overlay_screen(
            screens,
            Some(p),
            active,
        ) == Some(screens[i]),
        screens[i].space == Some(space) && (forall|j: int|
            0 <= j < i ==> (#[trigger] screens[j]).space != Some(space)) ==> overlay_screen(
            screens,
            None,
            Some(space),
        ) == Some(screens[i]),
        overlay_screen(screens, None, None) == Some(screens[0]),
{
    if screens[i].frame.holds(p) && (forall|j: int|
        0 <= j < i ==> !(#[trigger] screens[j]).frame.holds(p)) {
        let pred = |s: ScreenInfo| s.frame.holds(p);
        assert forall|j: int| 0 <= j < i implies !pred(#[trigger] screens[j]) by {}
        lemma_first_index(screens, pred, i);
    }
    if screens[i].space == Some(space) && (forall|j: int|
        0 <= j < i ==> (#[trigger] screens[j]).space != Some(space)) {
        let pred = |s: ScreenInfo| s.space == Some(space);
        assert forall|j: int| 0 <= j < i implies !pred(#[trigger] screens[j]) by {}
        lemma_first_index(screens, pred, i);
    }
}

/// A screen has the scale that is known for it first, or else none.
pub proof fn law_scale_of_a_screen(scales: Seq<(u32, u32)>, id: u32, i: int)
    ensures
        0 <= i < scales.len() && scales[i].0 == id && (forall|j: int|
            0 <= j < i ==> (#[trigger] scales[j]).0 != id) ==> scale_of(scales, id) == scales[i].1,
        (forall|j: int| 0 <= j < scales.len() ==> (#[trigger] scales[j]).0 != id) ==> scale_of(
            scales,
            id,
        ) == 100,
    decreases scales.len(),
{
    if scales.len() > 0 {
        let rest = scales.drop_first();
        law_scale_of_a_screen(rest, id, i - 1);
        if 0 < i < scales.len() {
            assert(rest[i - 1] == scales[i]);
            if forall|j: int| 0 <= j < i ==> (#[trigger] scales[j]).0 != id {
                assert(scales[0].0 != id);
                assert forall|j: int| 0 <= j < i - 1 implies (#[trigger] rest[j]).0 != id by {
                    assert(rest[j] == scales[j + 1]);
                }
            }
        }
        if forall|j: int| 0 <= j < scales.len() ==> (#[trigger] scales[j]).0 != id {
            assert(scales[0].0 != id);
            assert forall|j: int| 0 <= j < rest.len() implies (#[trigger] rest[j]).0 != id by {
                assert(rest[j] == scales[j + 1]);
            }
        }
    }
}

} // verus!
