//! The work that a step of the reactor leaves to be done.
//!
//! Tasks are done in order. Whatever tasks a piece of work leaves are done
//! before the ones behind it.

use vstd::prelude::*;

use crate::app::{Quiet, Request, WindowId};
use crate::broadcast::BroadcastEvent;
use crate::config::Config;
use crate::event::{
    AppInfo, Command, Direction, DisplaySelector, Event, LayoutCommand, MetricsCommand, MouseState,
    ReactorCommand, Requested, ScreenInfo, WindowInfo, WindowServerInfo,
};
use crate::event_tap::input::Request as TapRequest;
use crate::geometry::{Point, Rect};
use crate::ids::{pid_t, SpaceId, TransactionId, WindowServerId};
use crate::model::{CoreCommand, EventResponse, MissionControlCommand, WorkspaceId};
use crate::reactor::animation::Animation;
use crate::reactor::diagnostics::DiagnosticNote;
use crate::reactor::Turn;
use crate::wm_controller::WmCmd;

verus! {

/// Something about the layout that the workspace model is told of.
#[derive(Copy, Clone, Debug, PartialEq, Eq, Structural)]
pub enum LayoutEvent {
    Changed,
    WindowAdded(SpaceId, WindowId),
    WindowFocused(WindowId),
}

/// What the workspace model is given.
pub enum CoreInput {
    Command(CoreCommand),
    FocusChanged(WindowId),
    DragUpdated { window: WindowId, frame: Rect, candidates: Vec<(WindowId, Rect)> },
    DragCommitted(WindowId),
    DragCancelled,
    MissionControl { active: bool },
}

/// What the raise manager is to bring to the front.
pub struct RaiseRequest {
    /// Windows that belong to one application and one space, by groups.
    pub raise_windows: Vec<Vec<WindowId>>,
    /// The window to focus, and where to put the cursor.
    pub focus_window: Option<(WindowId, Option<Point>)>,
    /// The applications whose threads the manager needs.
    pub apps: Vec<pid_t>,
    pub focus_quiet: Quiet,
    pub workspace_switch_generation: Option<u64>,
}

/// The settings that the policy on managed spaces goes by.
#[derive(Copy, Clone, Debug, PartialEq, Eq, Structural)]
pub struct SpaceActivationConfig {
    pub default_disable: bool,
    pub one_space: bool,
}

/// What the policy on managed spaces is told.
pub enum PolicyNote {
    Toggled { config: SpaceActivationConfig, space: SpaceId, display: Option<String> },
    /// The screens, with the spaces that they show.
    SpacesUpdated { config: SpaceActivationConfig, screens: Vec<ScreenInfo> },
    SpaceCreated(SpaceId),
    SpaceDestroyed(SpaceId),
    LoginWindow(bool),
}

/// What other actors are told.
pub enum Message {
    App(pid_t, Request),
    Tap(TapRequest),
    Broadcast(BroadcastEvent),
    Raise(RaiseRequest),
    Wm(WmCmd),
    /// The hotkeys changed.
    WmConfigUpdated,
    StackLineConfigUpdated,
    MenuConfigUpdated,
    Metrics(MetricsCommand),
    Policy(PolicyNote),
    /// Show the state to whoever asked.
    PrintState,
    SwitchSpace(Direction),
    /// Let the system's transition from fullscreen come to its end.
    AwaitFullscreenTransition,
    /// An event of the reactor's own.
    Requeue(Event),
    /// Take an application for launched, if it runs.
    LaunchIfRunning(pid_t),
    /// The workspaces of a display that is gone go to another.
    MigrateWorkspaces { from: String, to: String },
    /// Only these displays are left.
    PruneDisplays(Vec<String>),
    /// The windows of an application that are on a managed space.
    WindowsOnScreen { space: SpaceId, pid: pid_t, windows: Vec<WindowId> },
    /// Show the workspaces in the menu bar.
    MenuUpdate,
    /// A window is busy, by its number of the window server.
    WindowActivity(u32),
    /// Watch these windows of the window server.
    WatchWindows(Vec<u32>),
    RaiseCompleted { window: WindowId, sequence: u64 },
    RaiseTimeout { sequence: u64 },
    /// Watch windows anew.
    SystemWoke,
    /// Windows set out to where the layout puts them, or go there at once.
    Animate { animation: Animation, at_once: bool },
    /// Readers have a new snapshot to see.
    SnapshotPublished,
    /// Something for the diagnostic log.
    Diagnostics(DiagnosticNote),
    /// Raises of earlier workspace switches are out of date.
    WorkspaceSwitchStarted { generation: u64 },
}

/// What has to be answered before the work can go on.
pub enum Question {
    /// Put something to the workspace model.
    Core(CoreInput),
    /// Show the workspace model how the system looks now.
    Observe,
    /// Make a window that the reactor does not track the key window.
    KeyWindow { pid: pid_t, window: WindowServerId },
    /// Hand a request to the raise manager.
    Raise(RaiseRequest),
    /// Decide the rules for windows.
    Rules(Vec<WindowId>),
    /// Say how windows lie on a space.
    Stacking(SpaceId),
    /// Say which of some spaces are managed, given the identities of the
    /// screens.
    ActiveSpaces {
        config: SpaceActivationConfig,
        spaces: Vec<Option<SpaceId>>,
        displays: Vec<Option<String>>,
    },
    /// Describe all windows in sight and say which are on managed spaces.
    VisibleWindows,
    /// Ask applications for their windows and say which could be asked.
    RefreshApps(Vec<pid_t>),
    /// Say which space each display shows.
    CurrentSpaces,
    /// Say how the window server sees windows on managed spaces.
    Sightings,
    /// Say which window is at a point.
    WindowAt(Point),
    /// Have the workspace model take a configuration over, with its rules.
    Configure(Config),
    /// Show the workspace model how the system looks and say where it puts
    /// windows, display by display.
    Layout,
}

/// What the rules say of a window.
#[derive(Copy, Clone, Debug, PartialEq, Eq, Structural)]
pub enum RuleDecision {
    Managed { focus: bool },
    Unmanaged,
}

/// Work that is left.
#[allow(inconsistent_fields)]
pub enum Work {
    /// Nothing follows from the answer.
    Done,
    LayoutEvent(LayoutEvent),
    LayoutEventObserved(LayoutEvent),
    /// Raise and focus what the layout asks for, possibly after a switch to a
    /// workspace on the given space.
    Respond(EventResponse, Option<SpaceId>),
    /// The same where the layout asks for nothing.
    RespondNothing(Option<SpaceId>),
    KeyWindowTried(EventResponse, Option<SpaceId>),
    RaiseSent { quiet: Option<pid_t>, focus: Option<WindowId> },
    /// Give every window the frame that the layout has for it.
    UpdateLayout { is_resize: bool, is_workspace_switch: bool },
    /// Find out which spaces are managed.
    RecomputeSpaces,
    LayoutCommand(LayoutCommand),
    ReactorCommand(ReactorCommand),
    WorkspaceCommand { command: LayoutCommand, space: Option<SpaceId> },
    WorkspaceCommanded { is_switch: bool, space: Option<SpaceId> },
    /// The log is told what came of it where `noted` is set.
    CurrentWindowMoved { window: WindowId, layout_focus: Option<WindowId>, noted: bool },
    NoteMoveAccepted(WindowId),
    WindowMoved { window: WindowId },
    RememberTarget(WindowId),
    LayoutCommanded { direction: Option<Direction> },
    SwitchToGlobalSlot(usize),
    SlotSwitched { space: SpaceId },
    RaiseFocused { window: WindowId, follow: bool },
    ToggleSpaceActivated,
    FocusWindow { window: WindowId, window_server_id: Option<WindowServerId> },
    FocusAccepted { window: WindowId },
    FocusNextWindow,
    CancelFocusNextWindow,
    MoveMouseToDisplay(DisplaySelector),
    FocusDisplay(DisplaySelector),
    MoveWindowToDisplay { selector: DisplaySelector, window_id: Option<u32> },
    MovedToDisplay { window: WindowId },
    CloseWindow { window_server_id: Option<WindowServerId> },
    CloseReplied { window: WindowId },
    ExitReplied,
    MissionControlCommanded(MissionControlCommand),
    MissionControlObserved,
    /// An application came to the front, perhaps for a click on one of its
    /// auxiliary windows.
    Activation { pid: pid_t, global: bool },
    AuxiliaryMoved { pid: pid_t, global: bool },
    /// Nothing but its activation speaks for an application.
    Activated { pid: pid_t, global: bool },
    AutoSwitched { window: WindowId, space: SpaceId },
    /// Rules are decided for windows.
    RulesDecided(Vec<WindowId>),
    RulesObserved { windows: Vec<WindowId>, focus: Vec<WindowId> },
    RuleTarget(WindowId),
    FocusRuleWindow(WindowId),
    /// See whether one of some windows is the one that was waited for.
    AwaitedWindow { windows: Vec<WindowId> },
    AwaitedWindowObserved { window: WindowId, rest: Vec<WindowId> },
    AwaitedWindowMoved { window: WindowId, rest: Vec<WindowId> },
    /// See what a dragged window is over.
    SwapOnDrag { window: WindowId, frame: Rect },
    DragUpdated { window: WindowId },
    MouseUp,
    DragCommitted { pending: Option<(WindowId, WindowId)> },
    DragReleased { pending: Option<(WindowId, WindowId)> },
    /// Give a window that was dragged to another space to what that shows.
    AssignToSpace { window: WindowId, space: SpaceId },
    AssignedToSpace { window: WindowId, space: SpaceId, workspace: WorkspaceId },
    DragLayout { needed: bool },
    ClearSkippedWindow,
    MouseUpIfNeeded,
    /// A window may have come to a space.
    AddedInSpace { window: WindowId, space: SpaceId },
    /// A window is gone; what it took part in is over.
    WindowGone(WindowId),
    MouseOver(WindowServerId),
    /// Windows come back to a space from fullscreen.
    RestoreFromFullscreen(SpaceId),
    /// A window comes back to its space from fullscreen.
    RestoreWindow { window: WindowId, space: SpaceId },
    RefocusOn(SpaceId),
    UpdateFocusFollowsMouse,
    /// The policy has said which spaces are managed.
    ActiveSpacesKnown,
    /// The window server has described all windows in sight.
    ServerSnapshot,
    CheckForNewWindows,
    /// Ask applications for their windows, unless a relayout will.
    CheckUnlessRelayout,
    ForceRefresh,
    AppsRefreshed,
    /// Apply rules to the windows meant for some spaces.
    RulesForSpaces(Vec<SpaceId>),
    FocusMainWindow,
    /// Tell subscribers which workspace is in view.
    AnnounceWorkspace(Vec<Option<SpaceId>>),
    /// A window appeared among those in sight.
    SnapshotAppeared { info: WindowServerInfo, space: SpaceId },
    ServerWindowDestroyed { window: WindowServerId, space: SpaceId },
    /// No window is in sight.
    NothingInSight,
    /// Spaces whose screens have another size.
    ExposeResized(Vec<SpaceId>),
    /// The screens show these spaces.
    ShowSpaces(Vec<Option<SpaceId>>),
    SpacesShown(Vec<Option<SpaceId>>),
    SpaceChangeDue(Vec<Option<SpaceId>>),
    ApplyPendingSpaceChange,
    CommitTopologyIfReady,
    CommitTopology,
    TopologyCommitted,
    ArmRelayout,
    RelayoutIfPending,
    RepairSpaces,
    CurrentSpacesKnown,
    RefreshAfterMissionControl,
    MissionControlWindows,
    /// An application has listed its windows.
    Discovered { pid: pid_t, new: Vec<(WindowId, WindowInfo)>, known_visible: Vec<WindowId> },
    /// A window of an application is not there any more.
    StaleWindow(WindowId),
    SyncWindow { window: WindowId, info: WindowInfo },
    MapWindow { window: WindowId, window_server_id: Option<WindowServerId> },
    InsertWindow { window: WindowId, info: WindowInfo },
    WindowMinimized(WindowId),
    WindowDeminiaturized(WindowId),
    /// Tell the workspace model of an application's windows.
    EmitDiscovered { pid: pid_t, known_visible: Vec<WindowId> },
    FocusMainIfManaged,
    AppLaunched {
        pid: pid_t,
        info: AppInfo,
        visible_windows: Vec<(WindowId, WindowInfo)>,
        window_server_info: Vec<WindowServerInfo>,
    },
    AppTerminated(pid_t),
    AppThreadTerminated(pid_t),
    ResyncApp(WindowServerId),
    /// Close the menu of an application.
    CloseMenuOf(pid_t),
    /// Close a menu of any other application.
    CloseMenuOfOthers(pid_t),
    SetLoginWindow(bool),
    WindowCreated { window: WindowId, info: WindowInfo, server_info: Option<WindowServerInfo> },
    WindowDestroyed(WindowId),
    ServerWindowAppeared { window: WindowServerId, space: SpaceId },
    FrameChanged {
        window: WindowId,
        frame: Rect,
        last_seen: Option<TransactionId>,
        requested: Requested,
        mouse: Option<MouseState>,
    },
    TitleChanged { window: WindowId, title: String },
    ScreensChanged(Vec<ScreenInfo>),
    SpacesChanged(Vec<Option<SpaceId>>),
    MouseDown { info: Option<WindowServerInfo>, point: Point },
    FocusUnderCursor,
    MouseAt,
    MenuOpened(pid_t),
    MenuClosed(pid_t),
    MissionControlEntered,
    MissionControlExited,
    ConfigUpdated(Config),
    Configured(Config),
    Command(Command),
    RegisterWm,
    /// The event in hand has been dealt with; the one before goes on.
    Finalize { outer: Turn },
    FinalizeLayout,
    FinalizeRest { outer: Turn },
    ApplyLayout { is_resize: bool, is_workspace_switch: bool },
    /// Show readers how things are now.
    Publish,
    /// Give the windows of a space their frames.
    LayoutSpace {
        space: SpaceId,
        frames: Vec<(WindowId, Rect)>,
        is_resize: bool,
        instant: bool,
        skip: Option<WindowId>,
    },
}

pub enum Task {
    Tell(Message),
    Ask(Question, Work),
    Go(Work),
}

/// A list of one task.
pub fn one_task(task: Task) -> (r: Vec<Task>)
    ensures
        r@ == seq![task],
{
    let mut r: Vec<Task> = Vec::new();
    r.push(task);
    assert(r@ =~= seq![task]);
    r
}

/// A list of two tasks.
pub fn two_tasks(first: Task, second: Task) -> (r: Vec<Task>)
    ensures
        r@ == seq![first, second],
{
    let mut r: Vec<Task> = Vec::new();
    r.push(first);
    r.push(second);
    assert(r@ =~= seq![first, second]);
    r
}

/// A list of three tasks.
pub fn three_tasks(first: Task, second: Task, third: Task) -> (r: Vec<Task>)
    ensures
        r@ == seq![first, second, third],
{
    let mut r: Vec<Task> = two_tasks(first, second);
    r.push(third);
    assert(r@ =~= seq![first, second, third]);
    r
}

/// Some tasks, then one more.
pub fn then_task(tasks: Vec<Task>, next: Task) -> (r: Vec<Task>)
    ensures
        r@ == tasks@.push(next),
{
    let mut r: Vec<Task> = tasks;
    r.push(next);
    r
}

/// Puts something to the workspace model.
pub open spec fn core_task(command: CoreCommand, next: Work) -> Task {
    Task::Ask(Question::Core(CoreInput::Command(command)), next)
}

pub fn ask_core(command: CoreCommand, next: Work) -> (r: Task)
    ensures
        r == core_task(command, next),
{
    Task::Ask(Question::Core(CoreInput::Command(command)), next)
}

pub fn no_tasks() -> (r: Vec<Task>)
    ensures
        r@ == Seq::<Task>::empty(),
{
    Vec::new()
}

} // verus!
