//! The workspace model as the actors see it: snapshots of its state, the
//! commands it takes and what comes of them.

use vstd::prelude::*;
use vstd::string::*;

use crate::app::WindowId;
use crate::collections::IdMap;
use crate::event::Direction;
use crate::geometry::Rect;
use crate::ids::{pid_t, Id, SpaceId};
use crate::text::{chars_of, ends_with, finishes_with};

verus! {

#[derive(Copy, Clone, Debug, PartialEq, Eq, Hash, PartialOrd, Ord, Structural)]
pub struct WorkspaceId(pub u64);

#[derive(Copy, Clone, Debug, PartialEq, Eq, Hash, PartialOrd, Ord, Structural)]
pub struct GroupId(pub u64);

/// A workspace's digit on the number row, 0 to 9.
#[derive(Copy, Clone, Debug, PartialEq, Eq, Hash, PartialOrd, Ord, Structural)]
pub struct WorkspaceNumber(pub u8);

impl Id for WorkspaceId {
    fn same(self, other: Self) -> (r: bool) {
        self == other
    }
}

impl Id for GroupId {
    fn same(self, other: Self) -> (r: bool) {
        self == other
    }
}

impl WorkspaceNumber {
    /// The number of a digit.
    pub fn try_from(digit: u8) -> (r: Option<WorkspaceNumber>)
        ensures
            r == if digit <= 9 {
                Some(WorkspaceNumber(digit))
            } else {
                None
            },
    {
        if digit <= 9 {
            Some(WorkspaceNumber(digit))
        } else {
            None
        }
    }

    pub fn get(self) -> (r: u8)
        ensures
            r == self.0,
    {
        self.0
    }
}

#[derive(Copy, Clone, Debug, PartialEq, Eq, Structural)]
pub enum Axis {
    Horizontal,
    Vertical,
}

#[derive(Copy, Clone, Debug, PartialEq, Eq, Structural)]
pub enum LayoutKind {
    Horizontal,
    Vertical,
    HorizontalStack,
    VerticalStack,
}

impl LayoutKind {
    /// Whether windows of such a container lie on top of one another.
    pub fn is_group(self) -> (r: bool)
        ensures
            r == (self == LayoutKind::HorizontalStack || self == LayoutKind::VerticalStack),
    {
        match self {
            LayoutKind::HorizontalStack | LayoutKind::VerticalStack => true,
            _ => false,
        }
    }
}

/// A stack of windows of which one is shown.
pub struct CoreGroup {
    pub id: GroupId,
    pub axis: Axis,
    pub windows: Vec<WindowId>,
    pub selected: usize,
}

pub struct CoreDisplay {
    pub id: String,
    pub frame: Rect,
    pub space: Option<SpaceId>,
    pub is_active_context: bool,
    pub active_workspace: Option<WorkspaceId>,
    pub last_workspace: Option<WorkspaceId>,
}

pub struct CoreWorkspace {
    pub id: WorkspaceId,
    pub number: Option<WorkspaceNumber>,
    pub name: String,
    pub display: String,
    pub groups: Vec<CoreGroup>,
    pub floating_windows: Vec<WindowId>,
    pub last_tiled_window: Option<WindowId>,
    pub last_floating_window: Option<WindowId>,
    pub layout_frames: IdMap<WindowId, Rect>,
}

pub struct CoreWindow {
    pub id: WindowId,
    pub workspace: Option<WorkspaceId>,
    pub frame: Rect,
    pub floating: bool,
    pub minimized: bool,
    pub fullscreen: bool,
}

/// The window being dragged, where its drag began and what it is dragged onto.
#[derive(Copy, Clone, Debug, PartialEq, Eq, Structural)]
pub struct DragSnapshot {
    pub window: Option<WindowId>,
    pub target: Option<WindowId>,
    pub origin_frame: Option<Rect>,
}

/// A running application, as readers of a snapshot see it.
pub struct ApplicationSnapshot {
    pub id: pid_t,
    pub bundle_id: Option<String>,
    pub name: String,
    pub frontmost: bool,
    pub window_count: usize,
}

/// The state of the workspace model at one moment.
pub struct CoreSnapshot {
    pub revision: u64,
    pub applications: Vec<ApplicationSnapshot>,
    pub displays: Vec<CoreDisplay>,
    pub workspaces: Vec<CoreWorkspace>,
    pub windows: Vec<CoreWindow>,
    pub focused_window: Option<WindowId>,
    pub drag: DragSnapshot,
    pub mission_control_active: bool,
}

impl Default for CoreSnapshot {
    fn default() -> (r: Self)
        ensures
            r.revision == 0,
            r.applications@ == Seq::<ApplicationSnapshot>::empty(),
            r.displays@ == Seq::<CoreDisplay>::empty(),
            r.workspaces@ == Seq::<CoreWorkspace>::empty(),
            r.windows@ == Seq::<CoreWindow>::empty(),
            r.focused_window is None,
            r.drag == (DragSnapshot { window: None, target: None, origin_frame: None }),
            !r.mission_control_active,
    {
        CoreSnapshot {
            revision: 0,
            applications: Vec::new(),
            displays: Vec::new(),
            workspaces: Vec::new(),
            windows: Vec::new(),
            focused_window: None,
            drag: DragSnapshot { window: None, target: None, origin_frame: None },
            mission_control_active: false,
        }
    }
}

#[derive(Copy, Clone, Debug, PartialEq, Eq, Structural)]
pub enum Effect {
    FocusWindow(WindowId),
    RaiseWindow(WindowId),
    CloseWindow(WindowId),
    Save,
    Shutdown,
    Other,
}

#[derive(Copy, Clone, Debug, PartialEq, Eq, Structural)]
pub enum DomainEvent {
    WorkspaceChanged { workspace: WorkspaceId },
    Other,
}

/// What a command or an observation led to.
pub struct Transition {
    pub effects: Vec<Effect>,
    pub events: Vec<DomainEvent>,
    pub snapshot: CoreSnapshot,
}

/// Why the workspace model refused something.
pub enum CoreError {
    IncompleteObservation(String),
    InvalidCommand(String),
    UnsupportedCommand(String),
    InvariantViolation(String),
}

/// A refused move that ran into the edge of the layout.
pub open spec fn reached_boundary(error: CoreError) -> bool {
    error matches CoreError::InvalidCommand(message) && finishes_with(
        message@,
        "reached a boundary"@,
    )
}

impl CoreError {
    pub fn is_boundary(&self) -> (r: bool)
        ensures
            r == reached_boundary(*self),
    {
        match self {
            CoreError::InvalidCommand(message) => {
                let chars: Vec<char> = chars_of(message.as_str());
                ends_with(&chars, "reached a boundary")
            },
            _ => false,
        }
    }
}

/// Commands on single windows. Resize amounts count ten-thousandths.
#[allow(inconsistent_fields)]
#[derive(Copy, Clone, Debug, PartialEq, Eq, Structural)]
pub enum WindowCommand {
    Next { window: Option<WindowId> },
    Previous { window: Option<WindowId> },
    Focus { direction: Direction, window: Option<WindowId> },
    Move { direction: Direction, window: Option<WindowId> },
    Resize { amount: i32, window: Option<WindowId> },
    ResizeDirectional { direction: Direction, window: Option<WindowId> },
    ToggleFocusLayer { window: Option<WindowId> },
    ToggleFullscreen { window: Option<WindowId>, within_gaps: bool },
    ToggleFloating { window: Option<WindowId> },
    Join { direction: Direction, window: Option<WindowId> },
    Unjoin { window: Option<WindowId> },
    ToggleOrientation { window: Option<WindowId> },
    Swap { first: WindowId, second: WindowId },
    Activate { window: WindowId },
    Close(Option<WindowId>),
}

/// Commands on workspaces; displays are named by their identity.
pub enum WorkspaceCommand {
    Next { display: String, skip_empty: bool },
    Previous { display: String, skip_empty: bool },
    Activate(WorkspaceNumber),
    ActivateOrCreate { workspace: WorkspaceNumber, display: String },
    Create { display: String },
    Last { display: String },
    ToggleHidden { display: String },
    MoveWindow { workspace: WorkspaceNumber, window: Option<WindowId> },
    MoveWindowToHidden { window: Option<WindowId> },
}

#[derive(Copy, Clone, Debug, PartialEq, Eq, Structural)]
pub enum MissionControlCommand {
    ShowAll,
    ShowCurrent,
    Dismiss,
}

pub enum CoreCommand {
    Workspace(WorkspaceCommand),
    Window(WindowCommand),
    MoveWindowToDisplay { display: String, window: Option<WindowId> },
    MissionControl(MissionControlCommand),
    SaveAndExit,
}

/// What the layout wants raised and focused.
pub struct EventResponse {
    pub raise_windows: Vec<WindowId>,
    pub focus_window: Option<WindowId>,
    pub boundary_hit: Option<Direction>,
}

impl Default for EventResponse {
    fn default() -> (r: Self)
        ensures
            r.raise_windows@ == Seq::<WindowId>::empty(),
            r.focus_window is None,
            r.boundary_hit is None,
    {
        EventResponse { raise_windows: Vec::new(), focus_window: None, boundary_hit: None }
    }
}

} // verus!
