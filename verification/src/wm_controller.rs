//! The WM Controller routes major events: it enables and disables the window
//! manager on spaces, launches app actors and controls hotkey registration.

pub mod routing;

use vstd::prelude::*;
use vstd::string::*;

use crate::event::{Command, DisplaySelector, ReactorCommand};
use crate::text::text_eq;

verus! {

/// How a command names a workspace: by its digit-row number or by its name.
pub enum WorkspaceSelector {
    Index(usize),
    Name(String),
}

/// A program to run, as one line or as its argument list.
pub enum ExecCmd {
    String(String),
    Array(Vec<String>),
}

pub enum WmCmd {
    ToggleSpaceActivated,
    Exec(ExecCmd),
    NextWorkspace,
    PrevWorkspace,
    SwitchToWorkspace(WorkspaceSelector),
    MoveWindowToWorkspace(WorkspaceSelector),
    CreateWorkspace,
    SwitchToLastWorkspace,
    ShowMissionControlAll,
    ShowMissionControlCurrent,
    DismissMissionControl,
    ResizeMode,
}

pub enum WmCommand {
    Wm(WmCmd),
    ReactorCommand(Command),
}

pub open spec fn texts_of(v: Seq<String>) -> Seq<Seq<char>> {
    v.map_values(|s: String| s@)
}

pub open spec fn same_selector(a: WorkspaceSelector, b: WorkspaceSelector) -> bool {
    match (a, b) {
        (WorkspaceSelector::Index(x), WorkspaceSelector::Index(y)) => x == y,
        (WorkspaceSelector::Name(x), WorkspaceSelector::Name(y)) => x@ == y@,
        _ => false,
    }
}

pub open spec fn same_exec(a: ExecCmd, b: ExecCmd) -> bool {
    match (a, b) {
        (ExecCmd::String(x), ExecCmd::String(y)) => x@ == y@,
        (ExecCmd::Array(x), ExecCmd::Array(y)) => texts_of(x@) == texts_of(y@),
        _ => false,
    }
}

pub open spec fn same_wm_cmd(a: WmCmd, b: WmCmd) -> bool {
    match (a, b) {
        (WmCmd::Exec(x), WmCmd::Exec(y)) => same_exec(x, y),
        (WmCmd::SwitchToWorkspace(x), WmCmd::SwitchToWorkspace(y)) => same_selector(x, y),
        (WmCmd::MoveWindowToWorkspace(x), WmCmd::MoveWindowToWorkspace(y)) => same_selector(x, y),
        (WmCmd::Exec(_), _) => false,
        (WmCmd::SwitchToWorkspace(_), _) => false,
        (WmCmd::MoveWindowToWorkspace(_), _) => false,
        _ => a == b,
    }
}

pub open spec fn same_display(a: DisplaySelector, b: DisplaySelector) -> bool {
    match (a, b) {
        (DisplaySelector::Uuid(x), DisplaySelector::Uuid(y)) => x@ == y@,
        (DisplaySelector::Uuid(_), _) => false,
        _ => a == b,
    }
}

pub open spec fn same_reactor_command(a: ReactorCommand, b: ReactorCommand) -> bool {
    match (a, b) {
        (ReactorCommand::MoveMouseToDisplay(x), ReactorCommand::MoveMouseToDisplay(y)) =>
            same_display(x, y),
        (ReactorCommand::FocusDisplay(x), ReactorCommand::FocusDisplay(y)) => same_display(x, y),
        (
            ReactorCommand::MoveWindowToDisplay { selector: x, window_id: i },
            ReactorCommand::MoveWindowToDisplay { selector: y, window_id: j },
        ) => same_display(x, y) && i == j,
        (ReactorCommand::MoveMouseToDisplay(_), _) => false,
        (ReactorCommand::FocusDisplay(_), _) => false,
        (ReactorCommand::MoveWindowToDisplay { .. }, _) => false,
        _ => a == b,
    }
}

/// Whether two commands are the same, texts compared by their characters.
pub open spec fn same_command(a: WmCommand, b: WmCommand) -> bool {
    match (a, b) {
        (WmCommand::Wm(x), WmCommand::Wm(y)) => same_wm_cmd(x, y),
        (
            WmCommand::ReactorCommand(Command::Layout(x)),
            WmCommand::ReactorCommand(Command::Layout(y)),
        ) => x == y,
        (
            WmCommand::ReactorCommand(Command::Metrics(x)),
            WmCommand::ReactorCommand(Command::Metrics(y)),
        ) => x == y,
        (
            WmCommand::ReactorCommand(Command::Reactor(x)),
            WmCommand::ReactorCommand(Command::Reactor(y)),
        ) => same_reactor_command(x, y),
        _ => false,
    }
}

impl WorkspaceSelector {
    pub fn same(&self, other: &WorkspaceSelector) -> (r: bool)
        ensures
            r == same_selector(*self, *other),
    {
        match (self, other) {
            (WorkspaceSelector::Index(x), WorkspaceSelector::Index(y)) => *x == *y,
            (WorkspaceSelector::Name(x), WorkspaceSelector::Name(y)) => text_eq(
                x.as_str(),
                y.as_str(),
            ),
            _ => false,
        }
    }
}

impl ExecCmd {
    pub fn same(&self, other: &ExecCmd) -> (r: bool)
        ensures
            r == same_exec(*self, *other),
    {
        match (self, other) {
            (ExecCmd::String(x), ExecCmd::String(y)) => text_eq(x.as_str(), y.as_str()),
            (ExecCmd::Array(x), ExecCmd::Array(y)) => same_texts(x, y),
            _ => false,
        }
    }
}

pub fn copy_texts(v: &Vec<String>) -> (r: Vec<String>)
    ensures
        texts_of(r@) == texts_of(v@),
{
    let mut r: Vec<String> = Vec::new();
    let mut i: usize = 0;
    while i < v.len()
        invariant
            i <= v@.len(),
            r@.len() == i,
            forall|j: int| 0 <= j < i ==> (#[trigger] r@[j])@ == v@[j]@,
        decreases v@.len() - i,
    {
        r.push(v[i].clone());
        i += 1;
    }
    assert(texts_of(r@) =~= texts_of(v@));
    r
}

fn copy_selector(v: &WorkspaceSelector) -> (r: WorkspaceSelector)
    ensures
        same_selector(r, *v),
{
    match v {
        WorkspaceSelector::Index(index) => WorkspaceSelector::Index(*index),
        WorkspaceSelector::Name(name) => WorkspaceSelector::Name(name.clone()),
    }
}

fn copy_wm(v: &WmCmd) -> (r: WmCmd)
    ensures
        same_wm_cmd(r, *v),
{
    match v {
        WmCmd::ToggleSpaceActivated => WmCmd::ToggleSpaceActivated,
        WmCmd::Exec(ExecCmd::String(line)) => WmCmd::Exec(ExecCmd::String(line.clone())),
        WmCmd::Exec(ExecCmd::Array(words)) => WmCmd::Exec(ExecCmd::Array(copy_texts(words))),
        WmCmd::NextWorkspace => WmCmd::NextWorkspace,
        WmCmd::PrevWorkspace => WmCmd::PrevWorkspace,
        WmCmd::SwitchToWorkspace(selector) => WmCmd::SwitchToWorkspace(copy_selector(selector)),
        WmCmd::MoveWindowToWorkspace(selector) => WmCmd::MoveWindowToWorkspace(
            copy_selector(selector),
        ),
        WmCmd::CreateWorkspace => WmCmd::CreateWorkspace,
        WmCmd::SwitchToLastWorkspace => WmCmd::SwitchToLastWorkspace,
        WmCmd::ShowMissionControlAll => WmCmd::ShowMissionControlAll,
        WmCmd::ShowMissionControlCurrent => WmCmd::ShowMissionControlCurrent,
        WmCmd::DismissMissionControl => WmCmd::DismissMissionControl,
        WmCmd::ResizeMode => WmCmd::ResizeMode,
    }
}

fn same_texts(x: &Vec<String>, y: &Vec<String>) -> (r: bool)
    ensures
        r == (texts_of(x@) == texts_of(y@)),
{
    if x.len() != y.len() {
        assert(texts_of(x@).len() != texts_of(y@).len());
        return false;
    }
    let mut i: usize = 0;
    while i < x.len()
        invariant
            i <= x@.len(),
            x@.len() == y@.len(),
            forall|j: int| 0 <= j < i ==> (#[trigger] x@[j])@ == y@[j]@,
        decreases x@.len() - i,
    {
        if !text_eq(x[i].as_str(), y[i].as_str()) {
            assert(texts_of(x@)[i as int] != texts_of(y@)[i as int]);
            return false;
        }
        i += 1;
    }
    assert(texts_of(x@) =~= texts_of(y@));
    true
}

fn same_display_selector(a: &DisplaySelector, b: &DisplaySelector) -> (r: bool)
    ensures
        r == same_display(*a, *b),
{
    match (a, b) {
        (DisplaySelector::Uuid(x), DisplaySelector::Uuid(y)) => text_eq(x.as_str(), y.as_str()),
        (DisplaySelector::Direction(x), DisplaySelector::Direction(y)) => *x == *y,
        (DisplaySelector::Index(x), DisplaySelector::Index(y)) => *x == *y,
        _ => false,
    }
}

fn same_opt_u32(a: Option<u32>, b: Option<u32>) -> (r: bool)
    ensures
        r == (a == b),
{
    match (a, b) {
        (Some(x), Some(y)) => x == y,
        (None, None) => true,
        _ => false,
    }
}

impl WmCommand {
    /// The same command once more.
    pub fn copy(&self) -> (r: WmCommand)
        ensures
            same_command(r, *self),
    {
        match self {
            WmCommand::Wm(command) => WmCommand::Wm(copy_wm(command)),
            WmCommand::ReactorCommand(command) => WmCommand::ReactorCommand(command.copy()),
        }
    }

    pub fn same(&self, other: &WmCommand) -> (r: bool)
        ensures
            r == same_command(*self, *other),
    {
        match (self, other) {
            (WmCommand::Wm(x), WmCommand::Wm(y)) => same_wm(x, y),
            (WmCommand::ReactorCommand(x), WmCommand::ReactorCommand(y)) => match (x, y) {
                (Command::Layout(x), Command::Layout(y)) => *x == *y,
                (Command::Metrics(x), Command::Metrics(y)) => *x == *y,
                (Command::Reactor(x), Command::Reactor(y)) => same_reactor(x, y),
                _ => false,
            },
            _ => false,
        }
    }
}

fn same_wm(a: &WmCmd, b: &WmCmd) -> (r: bool)
    ensures
        r == same_wm_cmd(*a, *b),
{
    match (a, b) {
        (WmCmd::Exec(x), WmCmd::Exec(y)) => x.same(y),
        (WmCmd::SwitchToWorkspace(x), WmCmd::SwitchToWorkspace(y)) => x.same(y),
        (WmCmd::MoveWindowToWorkspace(x), WmCmd::MoveWindowToWorkspace(y)) => x.same(y),
        (WmCmd::ToggleSpaceActivated, WmCmd::ToggleSpaceActivated) => true,
        (WmCmd::NextWorkspace, WmCmd::NextWorkspace) => true,
        (WmCmd::PrevWorkspace, WmCmd::PrevWorkspace) => true,
        (WmCmd::CreateWorkspace, WmCmd::CreateWorkspace) => true,
        (WmCmd::SwitchToLastWorkspace, WmCmd::SwitchToLastWorkspace) => true,
        (WmCmd::ShowMissionControlAll, WmCmd::ShowMissionControlAll) => true,
        (WmCmd::ShowMissionControlCurrent, WmCmd::ShowMissionControlCurrent) => true,
        (WmCmd::DismissMissionControl, WmCmd::DismissMissionControl) => true,
        (WmCmd::ResizeMode, WmCmd::ResizeMode) => true,
        _ => false,
    }
}

fn same_reactor(a: &ReactorCommand, b: &ReactorCommand) -> (r: bool)
    ensures
        r == same_reactor_command(*a, *b),
{
    match (a, b) {
        (ReactorCommand::MoveMouseToDisplay(x), ReactorCommand::MoveMouseToDisplay(y)) =>
            same_display_selector(x, y),
        (ReactorCommand::FocusDisplay(x), ReactorCommand::FocusDisplay(y)) =>
            same_display_selector(x, y),
        (
            ReactorCommand::MoveWindowToDisplay { selector: x, window_id: i },
            ReactorCommand::MoveWindowToDisplay { selector: y, window_id: j },
        ) => same_display_selector(x, y) && same_opt_u32(*i, *j),
        (ReactorCommand::Debug, ReactorCommand::Debug) => true,
        (ReactorCommand::Serialize, ReactorCommand::Serialize) => true,
        (ReactorCommand::SaveAndExit, ReactorCommand::SaveAndExit) => true,
        (ReactorCommand::SwitchSpace(x), ReactorCommand::SwitchSpace(y)) => *x == *y,
        (ReactorCommand::ToggleSpaceActivated, ReactorCommand::ToggleSpaceActivated) => true,
        (
            ReactorCommand::FocusWindow { window_id: w, window_server_id: s },
            ReactorCommand::FocusWindow { window_id: v, window_server_id: t },
        ) => *w == *v && match (s, t) {
            (Some(x), Some(y)) => *x == *y,
            (None, None) => true,
            _ => false,
        },
        (ReactorCommand::FocusNextWindow, ReactorCommand::FocusNextWindow) => true,
        (ReactorCommand::CancelFocusNextWindow, ReactorCommand::CancelFocusNextWindow) => true,
        (ReactorCommand::ShowMissionControlAll, ReactorCommand::ShowMissionControlAll) => true,
        (ReactorCommand::ShowMissionControlCurrent, ReactorCommand::ShowMissionControlCurrent) =>
            true,
        (ReactorCommand::DismissMissionControl, ReactorCommand::DismissMissionControl) => true,
        (
            ReactorCommand::CloseWindow { window_server_id: s },
            ReactorCommand::CloseWindow { window_server_id: t },
        ) => match (s, t) {
            (Some(x), Some(y)) => *x == *y,
            (None, None) => true,
            _ => false,
        },
        _ => false,
    }
}

} // verus!
