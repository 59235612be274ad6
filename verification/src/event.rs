//! What the actors tell the reactor, and the commands a user can give.

use vstd::prelude::*;

use crate::app::{Quiet, WindowId};
use crate::config::Config;
use crate::event_tap::{Hotkey, KeyCode};
use crate::geometry::{Point, Rect, Size};
use crate::ids::{pid_t, SpaceId, TransactionId, WindowServerId};
use crate::wm_controller::WmCommand;

verus! {

#[derive(Copy, Clone, Debug, PartialEq, Eq, Structural)]
pub enum Direction {
    Left,
    Right,
    Up,
    Down,
}

#[derive(Copy, Clone, Debug, PartialEq, Eq, Structural)]
pub enum MouseState {
    Down,
    Up,
}

/// Whether a frame change answers a request of the window manager.
#[derive(Copy, Clone, Debug, PartialEq, Eq, Structural)]
pub struct Requested(pub bool);

pub struct AppInfo {
    pub bundle_id: Option<String>,
    pub localized_name: Option<String>,
}

/// A window as the accessibility APIs describe it.
pub struct WindowInfo {
    pub is_standard: bool,
    pub is_root: bool,
    pub is_minimized: bool,
    pub is_resizable: bool,
    pub min_size: Option<Size>,
    pub max_size: Option<Size>,
    pub title: String,
    pub frame: Rect,
    pub sys_id: Option<WindowServerId>,
    pub bundle_id: Option<String>,
    pub path: Option<String>,
    pub ax_role: Option<String>,
    pub ax_subrole: Option<String>,
}

/// A window as the window server describes it.
#[derive(Copy, Clone, Debug, PartialEq, Eq, Structural)]
pub struct WindowServerInfo {
    pub pid: pid_t,
    pub id: WindowServerId,
    pub layer: i32,
    pub frame: Rect,
    pub min_frame: Size,
    pub max_frame: Size,
}

/// A display: its number, its usable frame, the space it shows and its identity.
pub struct ScreenInfo {
    pub id: u32,
    pub frame: Rect,
    pub space: Option<SpaceId>,
    pub display_uuid: String,
    pub name: Option<String>,
}

/// Which display a command means.
pub enum DisplaySelector {
    Direction(Direction),
    Index(usize),
    Uuid(String),
}

#[derive(Copy, Clone, Debug, PartialEq, Eq, Structural)]
pub enum MetricsCommand {
    ShowTiming,
}

/// Commands on the window layout. Resize amounts count ten-thousandths of
/// the container.
#[derive(Copy, Clone, Debug, PartialEq, Eq, Structural)]
pub enum LayoutCommand {
    NextWindow,
    PrevWindow,
    MoveFocus(Direction),
    MoveNode(Direction),
    JoinWindow(Direction),
    UnjoinWindows,
    ToggleOrientation,
    SwapWindows(WindowId, WindowId),
    ToggleWindowFloating,
    ToggleFocusFloating,
    ToggleFullscreen,
    ToggleFullscreenWithinGaps,
    ResizeWindowGrow,
    ResizeWindowShrink,
    ResizeWindowBy { amount: i32 },
    ResizeWindowDirectional(Direction),
    NextWorkspace(Option<bool>),
    PrevWorkspace(Option<bool>),
    SwitchToWorkspace(usize),
    SwitchToGlobalSlot(usize),
    MoveWindowToWorkspace { workspace: usize, window_id: Option<u32> },
    MoveWindowToHiddenWorkspace { window_id: Option<u32> },
    ToggleHiddenWorkspace,
    CreateWorkspace,
    SwitchToLastWorkspace,
}

#[allow(inconsistent_fields)]
pub enum ReactorCommand {
    Debug,
    Serialize,
    SaveAndExit,
    SwitchSpace(Direction),
    ToggleSpaceActivated,
    FocusWindow { window_id: WindowId, window_server_id: Option<WindowServerId> },
    FocusNextWindow,
    CancelFocusNextWindow,
    ShowMissionControlAll,
    ShowMissionControlCurrent,
    DismissMissionControl,
    MoveMouseToDisplay(DisplaySelector),
    FocusDisplay(DisplaySelector),
    CloseWindow { window_server_id: Option<WindowServerId> },
    MoveWindowToDisplay { selector: DisplaySelector, window_id: Option<u32> },
}

pub enum Command {
    Layout(LayoutCommand),
    Metrics(MetricsCommand),
    Reactor(ReactorCommand),
}

impl DisplaySelector {
    pub fn copy(&self) -> (r: DisplaySelector)
        ensures
            r == *self,
    {
        match self {
            DisplaySelector::Direction(direction) => DisplaySelector::Direction(*direction),
            DisplaySelector::Index(index) => DisplaySelector::Index(*index),
            DisplaySelector::Uuid(uuid) => DisplaySelector::Uuid(uuid.clone()),
        }
    }
}

impl ReactorCommand {
    pub fn copy(&self) -> (r: ReactorCommand)
        ensures
            r == *self,
    {
        match self {
            ReactorCommand::Debug => ReactorCommand::Debug,
            ReactorCommand::Serialize => ReactorCommand::Serialize,
            ReactorCommand::SaveAndExit => ReactorCommand::SaveAndExit,
            ReactorCommand::SwitchSpace(direction) => ReactorCommand::SwitchSpace(*direction),
            ReactorCommand::ToggleSpaceActivated => ReactorCommand::ToggleSpaceActivated,
            ReactorCommand::FocusWindow { window_id, window_server_id } =>
                ReactorCommand::FocusWindow {
                window_id: *window_id,
                window_server_id: *window_server_id,
            },
            ReactorCommand::FocusNextWindow => ReactorCommand::FocusNextWindow,
            ReactorCommand::CancelFocusNextWindow => ReactorCommand::CancelFocusNextWindow,
            ReactorCommand::ShowMissionControlAll => ReactorCommand::ShowMissionControlAll,
            ReactorCommand::ShowMissionControlCurrent => ReactorCommand::ShowMissionControlCurrent,
            ReactorCommand::DismissMissionControl => ReactorCommand::DismissMissionControl,
            ReactorCommand::MoveMouseToDisplay(selector) => ReactorCommand::MoveMouseToDisplay(
                selector.copy(),
            ),
            ReactorCommand::FocusDisplay(selector) => ReactorCommand::FocusDisplay(
                selector.copy(),
            ),
            ReactorCommand::CloseWindow { window_server_id } => ReactorCommand::CloseWindow {
                window_server_id: *window_server_id,
            },
            ReactorCommand::MoveWindowToDisplay { selector, window_id } =>
                ReactorCommand::MoveWindowToDisplay {
                selector: selector.copy(),
                window_id: *window_id,
            },
        }
    }
}

impl Command {
    pub fn copy(&self) -> (r: Command)
        ensures
            r == *self,
    {
        match self {
            Command::Layout(command) => Command::Layout(*command),
            Command::Metrics(command) => Command::Metrics(*command),
            Command::Reactor(command) => Command::Reactor(command.copy()),
        }
    }
}

/// The keys that a user input was made with.
#[derive(Copy, Clone, Debug, PartialEq, Eq, Structural)]
pub enum TracedInput {
    Key(KeyCode),
    Hotkey(Hotkey),
}

/// A user input that was turned into a command, for the diagnostic log.
pub struct UserInputTrace {
    /// What the input went by: `hotkey` or `resize_mode`.
    pub source: String,
    pub input: TracedInput,
    pub command: WmCommand,
}

/// Everything the reactor reacts to.
pub enum Event {
    /// The screen layout, including resolution, changed. This is always the
    /// first event sent on startup. The main screen is first in the list.
    ScreenParametersChanged(Vec<ScreenInfo>),
    /// The current space changed: one entry per screen of the last
    /// `ScreenParametersChanged`; `None` disables managing windows there.
    SpaceChanged(Vec<Option<SpaceId>>),
    /// An application was launched, or was found running on startup.
    ApplicationLaunched {
        pid: pid_t,
        info: AppInfo,
        is_frontmost: bool,
        main_window: Option<WindowId>,
        visible_windows: Vec<(WindowId, WindowInfo)>,
        window_server_info: Vec<WindowServerInfo>,
    },
    ApplicationTerminated(pid_t),
    ApplicationThreadTerminated(pid_t),
    ApplicationActivated(pid_t, Quiet),
    ApplicationDeactivated(pid_t),
    ApplicationGloballyActivated(pid_t),
    ApplicationGloballyDeactivated(pid_t),
    ApplicationMainWindowChanged(pid_t, Option<WindowId>, Quiet),
    WindowsDiscovered {
        pid: pid_t,
        new: Vec<(WindowId, WindowInfo)>,
        known_visible: Vec<WindowId>,
    },
    WindowCreated(WindowId, WindowInfo, Option<WindowServerInfo>, Option<MouseState>),
    WindowDestroyed(WindowId),
    WindowServerDestroyed(WindowServerId, SpaceId),
    WindowServerAppeared(WindowServerId, SpaceId),
    SpaceCreated(SpaceId),
    SpaceDestroyed(SpaceId),
    WindowMinimized(WindowId),
    WindowDeminiaturized(WindowId),
    WindowFrameChanged(WindowId, Rect, Option<TransactionId>, Requested, Option<MouseState>),
    WindowTitleChanged(WindowId, String),
    ResyncAppForWindow(WindowServerId),
    MenuOpened(pid_t),
    MenuClosed(pid_t),
    /// Left mouse button was released. Layout changes are suppressed while
    /// the button is down so that they don't interfere with drags.
    MouseUp,
    /// The left mouse button was pressed, on the given window if any.
    MouseDown(Option<WindowServerInfo>, Point),
    /// The mouse cursor moved. Only sent if focus-follows-mouse is enabled.
    MouseMoved(Point),
    /// System woke from sleep.
    SystemWoke,
    /// The login session became active after an unlock or user switch.
    SessionDidBecomeActive,
    DisplayChurnBegin,
    DisplayChurnEnd,
    MissionControlNativeEntered,
    MissionControlNativeExited,
    /// A raise request completed.
    RaiseCompleted { window_id: WindowId, sequence_id: u64 },
    /// A raise sequence timed out.
    RaiseTimeout { sequence_id: u64 },
    Command(Command),
    RegisterWmSender,
    ConfigUpdated(Config),
    UserInput(UserInputTrace),
}

} // verus!
