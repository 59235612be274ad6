//! Where the WM controller sends what it is told.

use vstd::prelude::*;
use vstd::string::*;

use crate::app::actor::text_of;
use crate::collections::copy_list;
use crate::config::Config as LiftConfig;
use crate::event::{
    AppInfo, Command, Event, LayoutCommand, ReactorCommand, ScreenInfo,
};
use crate::event_tap::input::Request as TapRequest;
use crate::geometry::Rect;
use crate::ids::{pid_t, SpaceId};
use crate::mission_control::Event as MissionControlEvent;
use crate::text::{ascii_lower, chars_of, text_eq};
use crate::wm_controller::{
    copy_texts, texts_of, ExecCmd, WmCmd, WmCommand, WorkspaceSelector,
};

verus! {

pub enum WmEvent {
    DiscoverRunningApps,
    AppEventsRegistered,
    AppLaunch(pid_t, AppInfo),
    AppGloballyActivated(pid_t),
    AppGloballyDeactivated(pid_t),
    AppTerminated(pid_t),
    DisplayChurnBegin,
    DisplayChurnEnd,
    SpaceChanged(Vec<Option<SpaceId>>),
    ScreenParametersChanged(Vec<ScreenInfo>),
    SystemWoke,
    SessionDidBecomeActive,
    PowerStateChanged(bool),
    KeyboardLayoutChanged,
    /// A new configuration, with the serialised hotkey tables of the old and
    /// of the new one as far as they could be written.
    ConfigUpdated { config: LiftConfig, old_keys: Option<String>, new_keys: Option<String> },
    Command(WmCommand),
}

/// What the controller has done, in order.
pub enum WmAction {
    SendReactor(Event),
    SendEventTap(TapRequest),
    SendMissionControl(MissionControlEvent),
    /// Hand the new configuration to the event tap or to the gesture tap.
    SendTapConfig,
    SendGestureConfig,
    /// Hand the new coordinate conversion to the stack line.
    SendStackLineScreens,
    /// Hand the configured hotkeys to the event tap.
    RegisterHotkeys,
    /// List the running applications after a delay in milliseconds.
    DiscoverAppsAfter(u64),
    /// Let the event tap process mouse events after a delay in milliseconds.
    EnableEventProcessingAfter(u64),
    /// List the running applications.
    DiscoverApps,
    /// Look at an application that is running.
    NewApp(pid_t, AppInfo),
    /// Stop watching an application.
    ForgetApp(pid_t),
    Exec(ExecCmd),
}

pub struct Config {
    pub config: LiftConfig,
}

/// The state of the WM controller: its configuration, whether the hotkeys
/// are installed, and which actors there are to talk to.
pub struct WmController {
    pub config: Config,
    pub hotkeys_installed: bool,
    pub has_gesture_tap: bool,
    pub has_stack_line: bool,
    pub has_mission_control: bool,
}

/// How long after registration the running applications are listed.
pub const DISCOVERY_DELAY_MS: u64 = 250;

/// How long after registration mouse events are processed.
pub const EVENT_PROCESSING_DELAY_MS: u64 = 600;

/// The zero-based slot of a digit-row workspace number, in the order 1 to 9, 0.
pub open spec fn global_slot(number: usize) -> Option<usize> {
    if number == 0 {
        Some(9)
    } else if number <= 9 {
        Some((number - 1) as usize)
    } else {
        None
    }
}

pub fn workspace_number_to_global_slot(number: usize) -> (r: Option<usize>)
    ensures
        r == global_slot(number),
{
    if number == 0 {
        Some(9)
    } else if number <= 9 {
        Some(number - 1)
    } else {
        None
    }
}

/// The slot that a selector names. Names are not resolved here.
pub open spec fn selected_slot(selector: WorkspaceSelector) -> Option<usize> {
    match selector {
        WorkspaceSelector::Index(number) => global_slot(number),
        WorkspaceSelector::Name(_) => None,
    }
}

fn slot_of(selector: &WorkspaceSelector) -> (r: Option<usize>)
    ensures
        r == selected_slot(*selector),
{
    match selector {
        WorkspaceSelector::Index(number) => workspace_number_to_global_slot(*number),
        WorkspaceSelector::Name(_) => None,
    }
}

/// Whether an event can change what Mission Control shows.
pub open spec fn refreshes_mission_control(event: WmEvent) -> bool {
    match event {
        WmEvent::SpaceChanged(_) => true,
        WmEvent::Command(WmCommand::Wm(cmd)) => match cmd {
            WmCmd::NextWorkspace
            | WmCmd::PrevWorkspace
            | WmCmd::SwitchToWorkspace(_)
            | WmCmd::SwitchToLastWorkspace => true,
            _ => false,
        },
        _ => false,
    }
}

pub open spec fn layout_event(command: LayoutCommand) -> WmAction {
    WmAction::SendReactor(Event::Command(Command::Layout(command)))
}

/// The actions for a command to the window manager itself.
pub open spec fn wm_cmd_actions(has_mission_control: bool, cmd: WmCmd) -> Seq<WmAction> {
    match cmd {
        WmCmd::ToggleSpaceActivated => seq![
            WmAction::SendReactor(
                Event::Command(Command::Reactor(ReactorCommand::ToggleSpaceActivated)),
            ),
        ],
        WmCmd::NextWorkspace => seq![layout_event(LayoutCommand::NextWorkspace(None))],
        WmCmd::PrevWorkspace => seq![layout_event(LayoutCommand::PrevWorkspace(None))],
        WmCmd::SwitchToWorkspace(selector) => match selected_slot(selector) {
            Some(slot) => seq![layout_event(LayoutCommand::SwitchToGlobalSlot(slot))],
            None => Seq::empty(),
        },
        WmCmd::MoveWindowToWorkspace(selector) => match selected_slot(selector) {
            Some(slot) => seq![
                layout_event(
                    LayoutCommand::MoveWindowToWorkspace { workspace: slot, window_id: None },
                ),
            ],
            None => Seq::empty(),
        },
        WmCmd::CreateWorkspace => seq![layout_event(LayoutCommand::CreateWorkspace)],
        WmCmd::SwitchToLastWorkspace => seq![layout_event(LayoutCommand::SwitchToLastWorkspace)],
        WmCmd::ShowMissionControlAll => if has_mission_control {
            seq![WmAction::SendMissionControl(MissionControlEvent::ShowAll)]
        } else {
            Seq::empty()
        },
        WmCmd::ShowMissionControlCurrent => if has_mission_control {
            seq![WmAction::SendMissionControl(MissionControlEvent::ShowCurrent)]
        } else {
            Seq::empty()
        },
        WmCmd::DismissMissionControl => if has_mission_control {
            seq![WmAction::SendMissionControl(MissionControlEvent::Dismiss)]
        } else {
            Seq::empty()
        },
        WmCmd::Exec(cmd) => seq![WmAction::Exec(cmd)],
        WmCmd::ResizeMode => seq![WmAction::SendEventTap(TapRequest::EnterResizeMode)],
    }
}

pub open spec fn frames_with_spaces(screens: Seq<ScreenInfo>) -> Seq<(Rect, Option<SpaceId>)> {
    screens.map_values(|s: ScreenInfo| (s.frame, s.space))
}

/// The actions that follow a new configuration.
pub open spec fn config_actions(
    w: WmController,
    old_keys: Option<Seq<char>>,
    new_keys: Option<Seq<char>>,
) -> Seq<WmAction> {
    let sent = if w.has_gesture_tap {
        seq![WmAction::SendTapConfig, WmAction::SendGestureConfig]
    } else {
        seq![WmAction::SendTapConfig]
    };
    if w.hotkeys_installed && (old_keys is None || old_keys != new_keys) {
        sent.push(WmAction::RegisterHotkeys)
    } else {
        sent
    }
}

/// The actions for an event, after a possible refresh of Mission Control.
pub open spec fn routed(w: WmController, event: WmEvent, actions: Seq<WmAction>) -> bool {
    match event {
        WmEvent::SystemWoke => actions == seq![WmAction::SendReactor(Event::SystemWoke)],
        WmEvent::SessionDidBecomeActive => actions == seq![
            WmAction::SendReactor(Event::SessionDidBecomeActive),
        ],
        WmEvent::DisplayChurnBegin => actions == seq![
            WmAction::SendReactor(Event::DisplayChurnBegin),
        ],
        WmEvent::DisplayChurnEnd => actions == seq![WmAction::SendReactor(Event::DisplayChurnEnd)],
        WmEvent::AppEventsRegistered => {
            let off = seq![WmAction::SendEventTap(TapRequest::SetEventProcessing(false))];
            let installed = if w.hotkeys_installed {
                off
            } else {
                off.push(WmAction::RegisterHotkeys)
            };
            actions == installed + seq![
                WmAction::DiscoverAppsAfter(DISCOVERY_DELAY_MS),
                WmAction::EnableEventProcessingAfter(EVENT_PROCESSING_DELAY_MS),
            ]
        },
        WmEvent::DiscoverRunningApps => actions == seq![WmAction::DiscoverApps],
        WmEvent::AppLaunch(pid, info) => actions == seq![WmAction::NewApp(pid, info)],
        WmEvent::AppGloballyActivated(pid) => actions == seq![
            WmAction::SendEventTap(TapRequest::EnforceHidden),
            WmAction::SendReactor(Event::ApplicationGloballyActivated(pid)),
        ],
        WmEvent::AppGloballyDeactivated(pid) => actions == seq![
            WmAction::SendReactor(Event::ApplicationGloballyDeactivated(pid)),
        ],
        WmEvent::AppTerminated(pid) => actions == seq![
            WmAction::ForgetApp(pid),
            WmAction::SendReactor(Event::ApplicationTerminated(pid)),
        ],
        WmEvent::ConfigUpdated { config, old_keys, new_keys } => actions == config_actions(
            w,
            text_of(old_keys),
            text_of(new_keys),
        ),
        WmEvent::ScreenParametersChanged(screens) => {
            &&& actions.len() == if w.has_stack_line {
                3int
            } else {
                2
            }
            &&& actions[0] == WmAction::SendReactor(Event::ScreenParametersChanged(screens))
            &&& actions[1] matches WmAction::SendEventTap(
                TapRequest::ScreenParametersChanged(pairs),
            ) && pairs@ == frames_with_spaces(screens@)
            &&& w.has_stack_line ==> actions[2] == WmAction::SendStackLineScreens
        },
        WmEvent::SpaceChanged(spaces) => {
            &&& actions.len() == 2
            &&& actions[0] matches WmAction::SendReactor(Event::SpaceChanged(sent)) && sent@
                == spaces@
            &&& actions[1] matches WmAction::SendEventTap(TapRequest::SpaceChanged(sent)) && sent@
                == spaces@
        },
        WmEvent::PowerStateChanged(low) => actions == seq![
            WmAction::SendEventTap(TapRequest::SetLowPowerMode(low)),
        ],
        WmEvent::KeyboardLayoutChanged => actions == seq![
            WmAction::SendEventTap(TapRequest::KeyboardLayoutChanged),
        ],
        WmEvent::Command(WmCommand::Wm(cmd)) => actions == wm_cmd_actions(
            w.has_mission_control,
            cmd,
        ),
        WmEvent::Command(WmCommand::ReactorCommand(cmd)) => actions == seq![
            WmAction::SendReactor(Event::Command(cmd)),
        ],
    }
}

/// What the refresh of Mission Control puts in front of the actions.
pub open spec fn refresh_prefix(w: WmController, event: WmEvent) -> Seq<WmAction> {
    if refreshes_mission_control(event) && w.has_mission_control {
        seq![WmAction::SendMissionControl(MissionControlEvent::RefreshCurrentWorkspace)]
    } else {
        Seq::empty()
    }
}

impl WmController {
    pub fn new(
        config: Config,
        has_gesture_tap: bool,
        has_stack_line: bool,
        has_mission_control: bool,
    ) -> (r: WmController)
        ensures
            r == (WmController {
                config,
                hotkeys_installed: false,
                has_gesture_tap,
                has_stack_line,
                has_mission_control,
            }),
    {
        WmController {
            config,
            hotkeys_installed: false,
            has_gesture_tap,
            has_stack_line,
            has_mission_control,
        }
    }

    pub fn handle_event(&mut self, event: WmEvent) -> (r: Vec<WmAction>)
        ensures
            ({
                let prefix = refresh_prefix(*old(self), event);
                &&& r@.len() >= prefix.len()
                &&& r@.take(prefix.len() as int) == prefix
                &&& routed(*old(self), event, r@.skip(prefix.len() as int))
            }),
            *final(self) == (WmController {
                config: match event {
                    WmEvent::ConfigUpdated { config, .. } => Config { config },
                    _ => old(self).config,
                },
                hotkeys_installed: old(self).hotkeys_installed || event
                    is AppEventsRegistered,
                ..*old(self)
            }),
    {
        let refresh: bool = needs_mission_control_refresh(&event) && self.has_mission_control;
        let mut rest: Vec<WmAction> = self.route(event);
        if refresh {
            let mut actions: Vec<WmAction> = Vec::new();
            actions.push(
                WmAction::SendMissionControl(MissionControlEvent::RefreshCurrentWorkspace),
            );
            let ghost routed_actions = rest@;
            actions.append(&mut rest);
            proof {
                let prefix = refresh_prefix(*old(self), event);
                assert(actions@.take(prefix.len() as int) =~= prefix);
                assert(actions@.skip(prefix.len() as int) =~= routed_actions);
            }
            actions
        } else {
            proof {
                assert(rest@.take(0) =~= Seq::<WmAction>::empty());
                assert(rest@.skip(0) =~= rest@);
            }
            rest
        }
    }

    fn route(&mut self, event: WmEvent) -> (r: Vec<WmAction>)
        ensures
            routed(*old(self), event, r@),
            *final(self) == (WmController {
                config: match event {
                    WmEvent::ConfigUpdated { config, .. } => Config { config },
                    _ => old(self).config,
                },
                hotkeys_installed: old(self).hotkeys_installed || event
                    is AppEventsRegistered,
                ..*old(self)
            }),
    {
        match event {
            WmEvent::SystemWoke => one(WmAction::SendReactor(Event::SystemWoke)),
            WmEvent::SessionDidBecomeActive => one(
                WmAction::SendReactor(Event::SessionDidBecomeActive),
            ),
            WmEvent::DisplayChurnBegin => one(WmAction::SendReactor(Event::DisplayChurnBegin)),
            WmEvent::DisplayChurnEnd => one(WmAction::SendReactor(Event::DisplayChurnEnd)),
            WmEvent::AppEventsRegistered => {
                let ghost before = *self;
                let mut actions: Vec<WmAction> = one(
                    WmAction::SendEventTap(TapRequest::SetEventProcessing(false)),
                );
                if !self.hotkeys_installed {
                    actions.push(WmAction::RegisterHotkeys);
                    self.hotkeys_installed = true;
                }
                let ghost installed = actions@;
                actions.push(WmAction::DiscoverAppsAfter(DISCOVERY_DELAY_MS));
                actions.push(WmAction::EnableEventProcessingAfter(EVENT_PROCESSING_DELAY_MS));
                assert(actions@ =~= installed + seq![
                    WmAction::DiscoverAppsAfter(DISCOVERY_DELAY_MS),
                    WmAction::EnableEventProcessingAfter(EVENT_PROCESSING_DELAY_MS),
                ]);
                actions
            },
            WmEvent::DiscoverRunningApps => one(WmAction::DiscoverApps),
            WmEvent::AppLaunch(pid, info) => one(WmAction::NewApp(pid, info)),
            WmEvent::AppGloballyActivated(pid) => two(
                WmAction::SendEventTap(TapRequest::EnforceHidden),
                WmAction::SendReactor(Event::ApplicationGloballyActivated(pid)),
            ),
            WmEvent::AppGloballyDeactivated(pid) => one(
                WmAction::SendReactor(Event::ApplicationGloballyDeactivated(pid)),
            ),
            WmEvent::AppTerminated(pid) => two(
                WmAction::ForgetApp(pid),
                WmAction::SendReactor(Event::ApplicationTerminated(pid)),
            ),
            WmEvent::ConfigUpdated { config, old_keys, new_keys } => {
                let actions = self.config_updated(&old_keys, &new_keys);
                self.config = Config { config };
                actions
            },
            WmEvent::ScreenParametersChanged(screens) => {
                let pairs: Vec<(Rect, Option<SpaceId>)> = screen_pairs(&screens);
                let mut actions: Vec<WmAction> = two(
                    WmAction::SendReactor(Event::ScreenParametersChanged(screens)),
                    WmAction::SendEventTap(TapRequest::ScreenParametersChanged(pairs)),
                );
                if self.has_stack_line {
                    actions.push(WmAction::SendStackLineScreens);
                }
                actions
            },
            WmEvent::SpaceChanged(spaces) => {
                let copy: Vec<Option<SpaceId>> = copy_list(&spaces);
                two(
                    WmAction::SendReactor(Event::SpaceChanged(copy)),
                    WmAction::SendEventTap(TapRequest::SpaceChanged(spaces)),
                )
            },
            WmEvent::PowerStateChanged(low) => one(
                WmAction::SendEventTap(TapRequest::SetLowPowerMode(low)),
            ),
            WmEvent::KeyboardLayoutChanged => one(
                WmAction::SendEventTap(TapRequest::KeyboardLayoutChanged),
            ),
            WmEvent::Command(WmCommand::Wm(cmd)) => self.wm_command(cmd),
            WmEvent::Command(WmCommand::ReactorCommand(cmd)) => one(
                WmAction::SendReactor(Event::Command(cmd)),
            ),
        }
    }

    fn config_updated(&self, old_keys: &Option<String>, new_keys: &Option<String>) -> (r: Vec<
        WmAction,
    >)
        ensures
            r@ == config_actions(*self, text_of(*old_keys), text_of(*new_keys)),
    {
        let mut actions: Vec<WmAction> = one(WmAction::SendTapConfig);
        if self.has_gesture_tap {
            actions.push(WmAction::SendGestureConfig);
            assert(actions@ =~= seq![WmAction::SendTapConfig, WmAction::SendGestureConfig]);
        }
        if !self.hotkeys_installed {
            return actions;
        }
        let unchanged: bool = match (old_keys, new_keys) {
            (Some(x), Some(y)) => text_eq(x.as_str(), y.as_str()),
            _ => false,
        };
        if !unchanged {
            actions.push(WmAction::RegisterHotkeys);
        }
        actions
    }

    fn wm_command(&self, cmd: WmCmd) -> (r: Vec<WmAction>)
        ensures
            r@ == wm_cmd_actions(self.has_mission_control, cmd),
    {
        match cmd {
            WmCmd::ToggleSpaceActivated => one(
                WmAction::SendReactor(
                    Event::Command(Command::Reactor(ReactorCommand::ToggleSpaceActivated)),
                ),
            ),
            WmCmd::NextWorkspace => one(layout_action(LayoutCommand::NextWorkspace(None))),
            WmCmd::PrevWorkspace => one(layout_action(LayoutCommand::PrevWorkspace(None))),
            WmCmd::SwitchToWorkspace(selector) => match slot_of(&selector) {
                Some(slot) => one(layout_action(LayoutCommand::SwitchToGlobalSlot(slot))),
                None => Vec::new(),
            },
            WmCmd::MoveWindowToWorkspace(selector) => match slot_of(&selector) {
                Some(slot) => one(
                    layout_action(
                        LayoutCommand::MoveWindowToWorkspace { workspace: slot, window_id: None },
                    ),
                ),
                None => Vec::new(),
            },
            WmCmd::CreateWorkspace => one(layout_action(LayoutCommand::CreateWorkspace)),
            WmCmd::SwitchToLastWorkspace => one(
                layout_action(LayoutCommand::SwitchToLastWorkspace),
            ),
            WmCmd::ShowMissionControlAll => self.mission_control(MissionControlEvent::ShowAll),
            WmCmd::ShowMissionControlCurrent => self.mission_control(
                MissionControlEvent::ShowCurrent,
            ),
            WmCmd::DismissMissionControl => self.mission_control(MissionControlEvent::Dismiss),
            WmCmd::Exec(cmd) => one(WmAction::Exec(cmd)),
            WmCmd::ResizeMode => one(WmAction::SendEventTap(TapRequest::EnterResizeMode)),
        }
    }

    fn mission_control(&self, event: MissionControlEvent) -> (r: Vec<WmAction>)
        ensures
            r@ == if self.has_mission_control {
                seq![WmAction::SendMissionControl(event)]
            } else {
                Seq::empty()
            },
    {
        if self.has_mission_control {
            one(WmAction::SendMissionControl(event))
        } else {
            Vec::new()
        }
    }
}

fn layout_action(command: LayoutCommand) -> (r: WmAction)
    ensures
        r == layout_event(command),
{
    WmAction::SendReactor(Event::Command(Command::Layout(command)))
}

fn one(action: WmAction) -> (r: Vec<WmAction>)
    ensures
        r@ == seq![action],
{
    let mut r: Vec<WmAction> = Vec::new();
    r.push(action);
    assert(r@ =~= seq![action]);
    r
}

fn two(first: WmAction, second: WmAction) -> (r: Vec<WmAction>)
    ensures
        r@ == seq![first, second],
{
    let mut r: Vec<WmAction> = Vec::new();
    r.push(first);
    r.push(second);
    assert(r@ =~= seq![first, second]);
    r
}

fn screen_pairs(screens: &Vec<ScreenInfo>) -> (r: Vec<(Rect, Option<SpaceId>)>)
    ensures
        r@ == frames_with_spaces(screens@),
{
    let mut r: Vec<(Rect, Option<SpaceId>)> = Vec::new();
    let mut i: usize = 0;
    while i < screens.len()
        invariant
            i <= screens@.len(),
            r@ == frames_with_spaces(screens@).take(i as int),
        decreases screens@.len() - i,
    {
        r.push((screens[i].frame, screens[i].space));
        assert(r@ =~= frames_with_spaces(screens@).take(i + 1));
        i += 1;
    }
    assert(r@ =~= frames_with_spaces(screens@));
    r
}

fn needs_mission_control_refresh(event: &WmEvent) -> (r: bool)
    ensures
        r == refreshes_mission_control(*event),
{
    match event {
        WmEvent::SpaceChanged(_) => true,
        WmEvent::Command(WmCommand::Wm(cmd)) => match cmd {
            WmCmd::NextWorkspace => true,
            WmCmd::PrevWorkspace => true,
            WmCmd::SwitchToWorkspace(_) => true,
            WmCmd::SwitchToLastWorkspace => true,
            _ => false,
        },
        _ => false,
    }
}

/// What was read about an application before and after watching it.
#[derive(Copy, Clone, Debug, PartialEq, Eq, Structural)]
pub struct LaunchReadings {
    pub is_running: bool,
    pub is_login_window: bool,
    pub regular: bool,
    pub regular_after_watch: bool,
    pub finished: bool,
    pub finished_after_watch: bool,
}

/// Whether the activation policy and the launch of an application are
/// watched, for good or only for a moment, and whether its actor starts.
#[derive(Copy, Clone, Debug, PartialEq, Eq, Structural)]
pub struct LaunchDecision {
    pub watch_policy: bool,
    pub unwatch_policy: bool,
    pub watch_launch: bool,
    pub unwatch_launch: bool,
    pub spawn: bool,
}

/// Decides on an application that is running. One that is not a regular
/// application yet, or has not finished launching, is watched; each is read
/// again right after, in case it changed in between.
pub fn new_app(read: LaunchReadings) -> (r: LaunchDecision)
    ensures
        ({
            let policy_waits = !read.regular && !read.is_login_window;
            let policy_ok = read.is_running && (!policy_waits || read.regular_after_watch);
            let launch_waits = !read.finished;
            r == (LaunchDecision {
                watch_policy: read.is_running && policy_waits,
                unwatch_policy: read.is_running && policy_waits && read.regular_after_watch,
                watch_launch: policy_ok && launch_waits,
                unwatch_launch: policy_ok && launch_waits && read.finished_after_watch,
                spawn: policy_ok && (!launch_waits || read.finished_after_watch),
            })
        }),
{
    let mut decision = LaunchDecision {
        watch_policy: false,
        unwatch_policy: false,
        watch_launch: false,
        unwatch_launch: false,
        spawn: false,
    };
    if !read.is_running {
        return decision;
    }
    if !read.regular && !read.is_login_window {
        decision.watch_policy = true;
        if read.regular_after_watch {
            decision.unwatch_policy = true;
        } else {
            return decision;
        }
    }
    if !read.finished {
        decision.watch_launch = true;
        if read.finished_after_watch {
            decision.unwatch_launch = true;
        } else {
            return decision;
        }
    }
    decision.spawn = true;
    decision
}

/// The pieces of a line between its spaces.
pub open spec fn split_at_spaces(s: Seq<char>) -> Seq<Seq<char>>
    decreases s.len(),
{
    if s.len() == 0 {
        seq![Seq::<char>::empty()]
    } else {
        let rest = split_at_spaces(s.drop_last());
        if s.last() == ' ' {
            rest.push(Seq::empty())
        } else {
            rest.drop_last().push(rest.last().push(s.last()))
        }
    }
}

/// The arguments of a program to run.
pub open spec fn exec_arguments(cmd: ExecCmd) -> Seq<Seq<char>> {
    match cmd {
        ExecCmd::Array(v) => texts_of(v@),
        ExecCmd::String(s) => split_at_spaces(s@),
    }
}

proof fn lemma_split_nonempty(s: Seq<char>)
    ensures
        split_at_spaces(s).len() > 0,
    decreases s.len(),
{
    if s.len() > 0 {
        lemma_split_nonempty(s.drop_last());
    }
}

/// The last piece of a line without a space after position `start`.
proof fn lemma_last_piece(s: Seq<char>, start: int, end: int)
    requires
        0 <= start <= end <= s.len(),
        start == 0 || s[start - 1] == ' ',
        forall|i: int| start <= i < end ==> s[i] != ' ',
    ensures
        split_at_spaces(s.take(end)).last() == s.subrange(start, end),
        split_at_spaces(s.take(end)).drop_last() == split_at_spaces(s.take(start)).drop_last(),
    decreases end - start,
{
    lemma_split_nonempty(s.take(end));
    if start == end {
        if start > 0 {
            lemma_split_nonempty(s.take(start - 1));
            assert(s.take(start).drop_last() =~= s.take(start - 1));
            assert(s.take(start).last() == ' ');
        }
        assert(s.subrange(start, end) =~= Seq::<char>::empty());
    } else {
        lemma_last_piece(s, start, end - 1);
        lemma_split_nonempty(s.take(end - 1));
        assert(s.take(end).drop_last() =~= s.take(end - 1));
        assert(s.take(end).last() == s[end - 1]);
        assert(s.subrange(start, end) =~= s.subrange(start, end - 1).push(s[end - 1]));
        let before = split_at_spaces(s.take(end - 1));
        assert(split_at_spaces(s.take(end)).drop_last() =~= before.drop_last());
    }
}

impl ExecCmd {
    /// The program and its arguments: an array as it is, a line cut at each space.
    pub fn as_array(&self) -> (r: Vec<String>)
        ensures
            texts_of(r@) == exec_arguments(*self),
    {
        match self {
            ExecCmd::Array(v) => copy_texts(v),
            ExecCmd::String(s) => split_line(s.as_str()),
        }
    }
}

fn split_line(s: &str) -> (r: Vec<String>)
    ensures
        texts_of(r@) == split_at_spaces(s@),
{
    let chars: Vec<char> = chars_of(s);
    let mut r: Vec<String> = Vec::new();
    let mut start: usize = 0;
    let mut i: usize = 0;
    assert(texts_of(r@) =~= split_at_spaces(s@.take(0)).drop_last());
    while i < chars.len()
        invariant
            chars@ == s@,
            start <= i <= s@.len(),
            start == 0 || s@[start - 1] == ' ',
            forall|j: int| start <= j < i ==> s@[j] != ' ',
            texts_of(r@) == split_at_spaces(s@.take(start as int)).drop_last(),
        decreases s@.len() - i,
    {
        if chars[i] == ' ' {
            let ghost before = r@;
            r.push(s.substring_char(start, i).to_owned());
            proof {
                lemma_last_piece(s@, start as int, i as int);
                lemma_split_nonempty(s@.take(i as int));
                let next = s@.take(i + 1);
                assert(next.drop_last() =~= s@.take(i as int));
                assert(next.last() == ' ');
                assert(split_at_spaces(next).drop_last() =~= split_at_spaces(s@.take(i as int)));
                let pieces = split_at_spaces(s@.take(i as int));
                assert(texts_of(r@).drop_last() =~= texts_of(before));
                assert(texts_of(r@) =~= pieces.drop_last().push(pieces.last()));
                assert(pieces.drop_last().push(pieces.last()) =~= pieces);
            }
            start = i + 1;
        }
        i += 1;
    }
    let ghost before = r@;
    r.push(s.substring_char(start, i).to_owned());
    proof {
        lemma_last_piece(s@, start as int, i as int);
        lemma_split_nonempty(s@);
        assert(s@.take(i as int) =~= s@);
        let pieces = split_at_spaces(s@);
        assert(texts_of(r@).drop_last() =~= texts_of(before));
        assert(texts_of(r@) =~= pieces.drop_last().push(pieces.last()));
        assert(pieces.drop_last().push(pieces.last()) =~= pieces);
    }
    r
}

/// The arguments to run and the event to send first, or `None` for an empty
/// argument list.
pub fn exec_cmd(cmd: &ExecCmd) -> (r: Option<(Vec<String>, Event)>)
    ensures
        match r {
            Some((args, event)) => {
                &&& exec_arguments(*cmd).len() > 0
                &&& texts_of(args@) == exec_arguments(*cmd)
                &&& event == Event::Command(Command::Reactor(ReactorCommand::FocusNextWindow))
            },
            None => exec_arguments(*cmd).len() == 0,
        },
{
    let args: Vec<String> = cmd.as_array();
    assert(texts_of(args@).len() == args@.len());
    if args.len() == 0 {
        return None;
    }
    Some((args, Event::Command(Command::Reactor(ReactorCommand::FocusNextWindow))))
}

/// The event that follows a program that was run: nothing is focused for one
/// that could not be started or failed.
pub fn exec_finished(succeeded: Option<bool>) -> (r: Option<Event>)
    ensures
        r == if succeeded == Some(true) {
            None
        } else {
            Some(Event::Command(Command::Reactor(ReactorCommand::CancelFocusNextWindow)))
        },
{
    match succeeded {
        Some(true) => None,
        _ => Some(Event::Command(Command::Reactor(ReactorCommand::CancelFocusNextWindow))),
    }
}

/// A name in snake case: an underscore before each capital but the first
/// letter, and all letters small.
pub open spec fn snake_case(name: Seq<char>) -> Seq<char>
    decreases name.len(),
{
    if name.len() == 0 {
        Seq::empty()
    } else {
        let rest = snake_case(name.drop_last());
        let c = name.last();
        if 'A' <= c && c <= 'Z' {
            (if name.len() > 1 {
                rest.push('_')
            } else {
                rest
            }).push(ascii_lower(c))
        } else {
            rest.push(c)
        }
    }
}

/// The names of the commands to the window manager.
pub open spec fn wm_cmd_names() -> Seq<Seq<char>> {
    seq![
        "ToggleSpaceActivated"@,
        "Exec"@,
        "NextWorkspace"@,
        "PrevWorkspace"@,
        "SwitchToWorkspace"@,
        "MoveWindowToWorkspace"@,
        "CreateWorkspace"@,
        "SwitchToLastWorkspace"@,
        "ShowMissionControlAll"@,
        "ShowMissionControlCurrent"@,
        "DismissMissionControl"@,
        "ResizeMode"@,
    ]
}

pub open spec fn snake_case_names() -> Seq<Seq<char>> {
    wm_cmd_names().map_values(|n: Seq<char>| snake_case(n))
}

fn small_letter(c: char) -> (r: &'static str)
    requires
        'A' <= c && c <= 'Z',
    ensures
        r@ == seq![ascii_lower(c)],
{
    proof {
        reveal_strlit("a");
        reveal_strlit("b");
        reveal_strlit("c");
        reveal_strlit("d");
        reveal_strlit("e");
        reveal_strlit("f");
        reveal_strlit("g");
        reveal_strlit("h");
        reveal_strlit("i");
        reveal_strlit("j");
        reveal_strlit("k");
        reveal_strlit("l");
        reveal_strlit("m");
        reveal_strlit("n");
        reveal_strlit("o");
        reveal_strlit("p");
        reveal_strlit("q");
        reveal_strlit("r");
        reveal_strlit("s");
        reveal_strlit("t");
        reveal_strlit("u");
        reveal_strlit("v");
        reveal_strlit("w");
        reveal_strlit("x");
        reveal_strlit("y");
        reveal_strlit("z");
    }
    let r: &'static str = match c {
        'A' => "a",
        'B' => "b",
        'C' => "c",
        'D' => "d",
        'E' => "e",
        'F' => "f",
        'G' => "g",
        'H' => "h",
        'I' => "i",
        'J' => "j",
        'K' => "k",
        'L' => "l",
        'M' => "m",
        'N' => "n",
        'O' => "o",
        'P' => "p",
        'Q' => "q",
        'R' => "r",
        'S' => "s",
        'T' => "t",
        'U' => "u",
        'V' => "v",
        'W' => "w",
        'X' => "x",
        'Y' => "y",
        _ => "z",
    };
    assert(r@ =~= seq![ascii_lower(c)]);
    r
}

fn to_snake_case(name: &str) -> (r: String)
    ensures
        r@ == snake_case(name@),
{
    let chars: Vec<char> = chars_of(name);
    let mut out: String = String::new();
    let mut i: usize = 0;
    while i < chars.len()
        invariant
            chars@ == name@,
            i <= name@.len(),
            out@ == snake_case(name@.take(i as int)),
        decreases name@.len() - i,
    {
        let c: char = chars[i];
        proof {
            assert(name@.take(i + 1).drop_last() =~= name@.take(i as int));
            assert(name@.take(i + 1).last() == c);
            reveal_strlit("_");
            assert("_"@ =~= seq!['_']);
        }
        let ghost before = out@;
        if 'A' <= c && c <= 'Z' {
            if i != 0 {
                out.append("_");
                assert(out@ =~= before.push('_'));
            }
            let ghost marked = out@;
            out.append(small_letter(c));
            assert(out@ =~= marked.push(ascii_lower(c)));
        } else {
            out.append(name.substring_char(i, i + 1));
            assert(name@.subrange(i as int, i + 1) =~= seq![c]);
            assert(out@ =~= before.push(c));
        }
        i += 1;
    }
    assert(name@.take(i as int) =~= name@);
    out
}

impl WmCmd {
    /// The snake-case names of the commands, as a configuration writes them.
    pub fn snake_case_variants() -> (r: Vec<String>)
        ensures
            texts_of(r@) == snake_case_names(),
    {
        let names: Vec<&'static str> = vec![
            "ToggleSpaceActivated",
            "Exec",
            "NextWorkspace",
            "PrevWorkspace",
            "SwitchToWorkspace",
            "MoveWindowToWorkspace",
            "CreateWorkspace",
            "SwitchToLastWorkspace",
            "ShowMissionControlAll",
            "ShowMissionControlCurrent",
            "DismissMissionControl",
            "ResizeMode",
        ];
        assert(names@.map_values(|n: &'static str| n@) =~= wm_cmd_names());
        let mut r: Vec<String> = Vec::new();
        let mut i: usize = 0;
        while i < names.len()
            invariant
                i <= names@.len(),
                names@.map_values(|n: &'static str| n@) == wm_cmd_names(),
                texts_of(r@) == snake_case_names().take(i as int),
            decreases names@.len() - i,
        {
            let ghost before = r@;
            assert(names@.map_values(|n: &'static str| n@)[i as int] == names@[i as int]@);
            r.push(to_snake_case(names[i]));
            assert(texts_of(r@).drop_last() =~= texts_of(before));
            assert(texts_of(r@) =~= snake_case_names().take(i + 1));
            i += 1;
        }
        assert(names@.map_values(|n: &'static str| n@).len() == names@.len());
        assert(texts_of(r@) =~= snake_case_names());
        r
    }
}

impl WmCommand {
    /// The command names that are offered for completion.
    pub fn builtin_candidates() -> (r: Vec<String>)
        ensures
            texts_of(r@) == snake_case_names(),
    {
        WmCmd::snake_case_variants()
    }
}

/// Every digit of the number row selects a slot of its own.
pub proof fn law_digit_row_slots_are_distinct(a: usize, b: usize)
    requires
        global_slot(a) is Some,
        global_slot(a) == global_slot(b),
    ensures
        a == b,
        a <= 9,
{
}

/// The digit row runs from one to nine and ends with zero: a command for a
/// digit goes to the slot at its place, and one for no digit nowhere.
pub proof fn law_digits_go_to_their_slots(w: WmController, number: usize, cmd: WorkspaceSelector)
    requires
        cmd == WorkspaceSelector::Index(number),
    ensures
        1 <= number <= 9 ==> wm_cmd_actions(w.has_mission_control, WmCmd::SwitchToWorkspace(cmd))
            == seq![
            WmAction::SendReactor(
                Event::Command(
                    Command::Layout(LayoutCommand::SwitchToGlobalSlot((number - 1) as usize)),
                ),
            ),
        ],
        number == 0 ==> wm_cmd_actions(w.has_mission_control, WmCmd::SwitchToWorkspace(cmd)) == seq![
            WmAction::SendReactor(
                Event::Command(Command::Layout(LayoutCommand::SwitchToGlobalSlot(9))),
            ),
        ],
        number > 9 ==> wm_cmd_actions(w.has_mission_control, WmCmd::SwitchToWorkspace(cmd)).len()
            == 0 && wm_cmd_actions(
            w.has_mission_control,
            WmCmd::MoveWindowToWorkspace(cmd),
        ).len() == 0,
        1 <= number <= 9 ==> wm_cmd_actions(
            w.has_mission_control,
            WmCmd::MoveWindowToWorkspace(cmd),
        ) == seq![
            WmAction::SendReactor(
                Event::Command(
                    Command::Layout(
                        LayoutCommand::MoveWindowToWorkspace {
                            workspace: (number - 1) as usize,
                            window_id: None,
                        },
                    ),
                ),
            ),
        ],
{
}

/// Commands on workspaces reach the reactor as what they are, and those on
/// Mission Control its actor, if there is one.
pub proof fn law_commands_reach_their_actor(has: bool)
    ensures
        wm_cmd_actions(has, WmCmd::NextWorkspace) == seq![
            WmAction::SendReactor(
                Event::Command(Command::Layout(LayoutCommand::NextWorkspace(None))),
            ),
        ],
        wm_cmd_actions(has, WmCmd::PrevWorkspace) == seq![
            WmAction::SendReactor(
                Event::Command(Command::Layout(LayoutCommand::PrevWorkspace(None))),
            ),
        ],
        wm_cmd_actions(has, WmCmd::CreateWorkspace) == seq![
            WmAction::SendReactor(Event::Command(Command::Layout(LayoutCommand::CreateWorkspace))),
        ],
        wm_cmd_actions(has, WmCmd::SwitchToLastWorkspace) == seq![
            WmAction::SendReactor(
                Event::Command(Command::Layout(LayoutCommand::SwitchToLastWorkspace)),
            ),
        ],
        wm_cmd_actions(has, WmCmd::ToggleSpaceActivated) == seq![
            WmAction::SendReactor(
                Event::Command(Command::Reactor(ReactorCommand::ToggleSpaceActivated)),
            ),
        ],
        wm_cmd_actions(has, WmCmd::ResizeMode) == seq![
            WmAction::SendEventTap(TapRequest::EnterResizeMode),
        ],
        wm_cmd_actions(true, WmCmd::ShowMissionControlAll) == seq![
            WmAction::SendMissionControl(MissionControlEvent::ShowAll),
        ],
        wm_cmd_actions(true, WmCmd::ShowMissionControlCurrent) == seq![
            WmAction::SendMissionControl(MissionControlEvent::ShowCurrent),
        ],
        wm_cmd_actions(true, WmCmd::DismissMissionControl) == seq![
            WmAction::SendMissionControl(MissionControlEvent::Dismiss),
        ],
        wm_cmd_actions(false, WmCmd::ShowMissionControlAll).len() == 0,
        wm_cmd_actions(false, WmCmd::ShowMissionControlCurrent).len() == 0,
        wm_cmd_actions(false, WmCmd::DismissMissionControl).len() == 0,
{
}

/// What the system reports reaches the actors that it concerns: an
/// activation hides the cursor again first, an application that ends is
/// forgotten first, and changed spaces and screens go to the reactor and to
/// the input processor alike.
pub proof fn law_system_events_reach_their_actors(
    w: WmController,
    event: WmEvent,
    actions: Seq<WmAction>,
    pid: pid_t,
    low: bool,
)
    requires
        routed(w, event, actions),
    ensures
        event == WmEvent::AppGloballyActivated(pid) ==> actions == seq![
            WmAction::SendEventTap(TapRequest::EnforceHidden),
            WmAction::SendReactor(Event::ApplicationGloballyActivated(pid)),
        ],
        event == WmEvent::AppGloballyDeactivated(pid) ==> actions == seq![
            WmAction::SendReactor(Event::ApplicationGloballyDeactivated(pid)),
        ],
        event == WmEvent::AppTerminated(pid) ==> actions == seq![
            WmAction::ForgetApp(pid),
            WmAction::SendReactor(Event::ApplicationTerminated(pid)),
        ],
        event is SystemWoke ==> actions == seq![WmAction::SendReactor(Event::SystemWoke)],
        event is DisplayChurnBegin ==> actions == seq![
            WmAction::SendReactor(Event::DisplayChurnBegin),
        ],
        event is DisplayChurnEnd ==> actions == seq![WmAction::SendReactor(Event::DisplayChurnEnd)],
        event == WmEvent::PowerStateChanged(low) ==> actions == seq![
            WmAction::SendEventTap(TapRequest::SetLowPowerMode(low)),
        ],
        event is AppEventsRegistered ==> actions.contains(WmAction::DiscoverAppsAfter(250))
            && actions.contains(WmAction::EnableEventProcessingAfter(600)) && actions[0]
            == WmAction::SendEventTap(TapRequest::SetEventProcessing(false)) && actions.contains(
            WmAction::RegisterHotkeys,
        ) == !w.hotkeys_installed,
        event is SpaceChanged ==> actions.len() == 2 && (actions[0] matches WmAction::SendReactor(
            Event::SpaceChanged(a),
        ) && actions[1] matches WmAction::SendEventTap(TapRequest::SpaceChanged(b)) && a@ == b@),
{
    if event is AppEventsRegistered {
        let n = actions.len() as int;
        assert(actions[n - 2] == WmAction::DiscoverAppsAfter(250));
        assert(actions[n - 1] == WmAction::EnableEventProcessingAfter(600));
        if !w.hotkeys_installed {
            assert(actions[1] == WmAction::RegisterHotkeys);
        }
    }
}

/// New settings reach the input processor, and the gestures if they are
/// tapped; hotkeys are registered anew only if they were and have changed.
pub proof fn law_settings_reach_the_taps(
    w: WmController,
    old_keys: Option<Seq<char>>,
    new_keys: Option<Seq<char>>,
)
    ensures
        ({
            let actions = config_actions(w, old_keys, new_keys);
            &&& actions[0] == WmAction::SendTapConfig
            &&& actions.contains(WmAction::SendGestureConfig) == w.has_gesture_tap
            &&& actions.contains(WmAction::RegisterHotkeys) == (w.hotkeys_installed && (old_keys
                is None || old_keys != new_keys))
        }),
{
    let actions = config_actions(w, old_keys, new_keys);
    if w.has_gesture_tap {
        assert(actions[1] == WmAction::SendGestureConfig);
    }
    if w.hotkeys_installed && (old_keys is None || old_keys != new_keys) {
        assert(actions.last() == WmAction::RegisterHotkeys);
    }
}

/// What can change Mission Control refreshes it first: changed spaces and
/// switches of workspaces, and nothing else.
pub proof fn law_mission_control_is_refreshed_by_switches(w: WmController, event: WmEvent)
    requires
        w.has_mission_control,
    ensures
        refresh_prefix(w, event).len() == 1 <==> event is SpaceChanged || (event
            matches WmEvent::Command(WmCommand::Wm(cmd)) && (cmd is NextWorkspace || cmd
            is PrevWorkspace || cmd is SwitchToWorkspace || cmd is SwitchToLastWorkspace)),
        refresh_prefix(w, event).len() == 1 ==> refresh_prefix(w, event)[0]
            == WmAction::SendMissionControl(MissionControlEvent::RefreshCurrentWorkspace),
        refresh_prefix(w, event).len() <= 1,
{
}

/// A line is split at each of its spaces: the pieces hold none, and there is
/// one more than there are spaces.
pub proof fn law_line_is_split_at_its_spaces(s: Seq<char>, c: char)
    ensures
        c == ' ' ==> split_at_spaces(s.push(c)) == split_at_spaces(s).push(Seq::empty()),
        c != ' ' ==> split_at_spaces(s.push(c)).len() == split_at_spaces(s).len()
            && split_at_spaces(s.push(c)).last() == split_at_spaces(s).last().push(c),
        split_at_spaces(Seq::empty()) == seq![Seq::<char>::empty()],
        forall|i: int|
            0 <= i < split_at_spaces(s).len() ==> !(#[trigger] split_at_spaces(s)[i]).contains(' '),
    decreases s.len(),
{
    assert(s.push(c).drop_last() =~= s);
    lemma_split_nonempty(s);
    if s.len() > 0 {
        law_line_is_split_at_its_spaces(s.drop_last(), c);
        lemma_split_nonempty(s.drop_last());
        let rest = split_at_spaces(s.drop_last());
        let all = split_at_spaces(s);
        assert forall|i: int| 0 <= i < all.len() implies !(#[trigger] all[i]).contains(' ') by {
            if i < all.len() - 1 || s.last() != ' ' {
                assert(!rest[i].contains(' '));
                if s.last() != ' ' && i == all.len() - 1 {
                    let last = rest.last();
                    let longer = last.push(s.last());
                    if longer.contains(' ') {
                        let k = longer.index_of(' ');
                        assert(last[k] == ' ');
                        assert(rest[rest.len() - 1].contains(' '));
                    }
                }
            }
        }
    }
}

} // verus!
