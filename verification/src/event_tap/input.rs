//! What the input processor does with requests and tapped events.

use vstd::prelude::*;

use crate::event::{
    Command, Direction, Event, LayoutCommand, MouseState, TracedInput, UserInputTrace,
    WindowServerInfo,
};
use crate::collections::lemma_filter_members;
use crate::event_tap::hotkeys::HotkeyTable;
use crate::event_tap::{
    build_event_mask, confirmed_keys, distance_sq, elapsed, has_flag, mouse_move_sampling_profile,
    resize_step, DisableHotkey, EventType, Hotkey, KeyCode, KeyTraits, Modifiers, ResizeModeAction,
    State, TapModel, LATEST, RESIZE_MODE_TIMEOUT,
};
use crate::geometry::{Point, Rect};
use crate::ids::SpaceId;
use crate::wm_controller::{same_command, WmCmd, WmCommand};

verus! {

/// The settings that the input processor follows.
#[derive(Copy, Clone, Debug, PartialEq, Eq, Structural)]
pub struct TapSettings {
    pub mouse_hides_on_focus: bool,
    pub focus_follows_mouse: bool,
    pub stack_line_enabled: bool,
    pub disable_hotkey: Option<DisableHotkey>,
}

pub enum Request {
    Warp(Point),
    EnforceHidden,
    ScreenParametersChanged(Vec<(Rect, Option<SpaceId>)>),
    SpaceChanged(Vec<Option<SpaceId>>),
    SetEventProcessing(bool),
    SetFocusFollowsMouseEnabled(bool),
    SetHotkeys(Vec<(String, WmCommand)>),
    EnterResizeMode,
    KeyboardLayoutChanged,
    ConfigUpdated(TapSettings),
    SetLowPowerMode(bool),
}

/// What a request asks of the system, in this order: move the cursor, hide
/// it, show it so many times, resolve the hotkeys and install them, and see
/// whether the tap needs another mask.
#[derive(Copy, Clone, Debug, PartialEq, Eq, Structural)]
pub struct RequestEffects {
    pub warp: Option<Point>,
    pub hide: bool,
    pub shows: u32,
    pub resolve_hotkeys: bool,
    pub rebuild_mask: bool,
}

pub open spec fn no_effects() -> RequestEffects {
    RequestEffects { warp: None, hide: false, shows: 0, resolve_hotkeys: false, rebuild_mask: false }
}

/// The input processor.
pub struct EventTap {
    pub state: State,
    pub event_mask: u64,
    pub tap_generation: u64,
    pub disable_hotkey: Option<DisableHotkey>,
    pub hotkey_specs: Vec<(String, WmCommand)>,
    pub hotkeys: HotkeyTable,
}

/// The frames that show a space, with it.
pub open spec fn spaced(frames: Seq<(Rect, Option<SpaceId>)>) -> Seq<(Rect, SpaceId)>
    decreases frames.len(),
{
    if frames.len() == 0 {
        Seq::empty()
    } else {
        let rest = spaced(frames.drop_last());
        match frames.last().1 {
            Some(space) => rest.push((frames.last().0, space)),
            None => rest,
        }
    }
}

/// Two sequences side by side, as far as both go.
pub open spec fn side_by_side(frames: Seq<Rect>, spaces: Seq<Option<SpaceId>>) -> Seq<
    (Rect, Option<SpaceId>),
> {
    Seq::new(
        if frames.len() < spaces.len() {
            frames.len()
        } else {
            spaces.len()
        },
        |i: int| (frames[i], spaces[i]),
    )
}

pub open spec fn frames_of(pairs: Seq<(Rect, Option<SpaceId>)>) -> Seq<Rect> {
    pairs.map_values(|p: (Rect, Option<SpaceId>)| p.0)
}

fn collect_spaced(frames: &Vec<(Rect, Option<SpaceId>)>) -> (r: Vec<(Rect, SpaceId)>)
    ensures
        r@ == spaced(frames@),
{
    let mut r: Vec<(Rect, SpaceId)> = Vec::new();
    let mut i: usize = 0;
    while i < frames.len()
        invariant
            i <= frames@.len(),
            r@ == spaced(frames@.take(i as int)),
        decreases frames@.len() - i,
    {
        assert(frames@.take(i + 1).drop_last() =~= frames@.take(i as int));
        if let Some(space) = frames[i].1 {
            r.push((frames[i].0, space));
        }
        i += 1;
    }
    assert(frames@.take(i as int) =~= frames@);
    r
}

fn collect_frames(pairs: &Vec<(Rect, Option<SpaceId>)>) -> (r: Vec<Rect>)
    ensures
        r@ == frames_of(pairs@),
{
    let mut r: Vec<Rect> = Vec::new();
    let mut i: usize = 0;
    while i < pairs.len()
        invariant
            i <= pairs@.len(),
            r@ == frames_of(pairs@).take(i as int),
        decreases pairs@.len() - i,
    {
        r.push(pairs[i].0);
        assert(r@ =~= frames_of(pairs@).take(i + 1));
        i += 1;
    }
    assert(r@ =~= frames_of(pairs@));
    r
}

fn pair_up(frames: &Vec<Rect>, spaces: &Vec<Option<SpaceId>>) -> (r: Vec<(Rect, Option<SpaceId>)>)
    ensures
        r@ == side_by_side(frames@, spaces@),
{
    let mut r: Vec<(Rect, Option<SpaceId>)> = Vec::new();
    let mut i: usize = 0;
    let ghost all = side_by_side(frames@, spaces@);
    while i < frames.len() && i < spaces.len()
        invariant
            i <= frames@.len(),
            i <= spaces@.len(),
            all == side_by_side(frames@, spaces@),
            r@ == all.take(i as int),
        decreases spaces@.len() - i,
    {
        r.push((frames[i], spaces[i]));
        assert(r@ =~= all.take(i + 1));
        i += 1;
    }
    assert(r@ =~= all);
    r
}

impl State {
    /// Takes over changed settings; gives how often the cursor is shown.
    fn apply_settings(&mut self, settings: &TapSettings, held: Modifiers) -> (r: u32)
        ensures
            final(self)@ == requested(
                old(self)@,
                Request::ConfigUpdated(*settings),
                0,
                held,
            ).0,
            r == requested(
                old(self)@,
                Request::ConfigUpdated(*settings),
                0,
                held,
            ).1.shows,
    {
        let prev_mouse_hides_on_focus: bool = self.mouse_hides_on_focus;
        self.mouse_hides_on_focus = settings.mouse_hides_on_focus;
        self.focus_follows_mouse_config_enabled = settings.focus_follows_mouse;
        self.stack_line_enabled = settings.stack_line_enabled;
        let prev_active: bool = self.disable_hotkey_active;
        self.disable_hotkey_active = match &settings.disable_hotkey {
            Some(target) => self.compute_disable_hotkey_active(target, held),
            None => false,
        };
        if prev_active && !self.disable_hotkey_active {
            self.reset(true);
        }
        if prev_mouse_hides_on_focus && !self.mouse_hides_on_focus && self.hide_count > 0 {
            return self.show_mouse();
        }
        0
    }
}

/// Whether something handles mouse moves.
pub open spec fn handles_mouse_moves(m: TapModel) -> bool {
    m.event_processing_enabled && (m.stack_line_enabled || (m.focus_follows_mouse_config_enabled
        && m.focus_follows_mouse_enabled))
}

/// The state and effects that follow a request, but for the parts that
/// concern hotkey lists.
pub open spec fn requested(
    m: TapModel,
    request: Request,
    now: u64,
    held: Modifiers,
) -> (TapModel, RequestEffects) {
    match request {
        Request::Warp(point) => {
            let hide = m.mouse_hides_on_focus && m.hide_count == 0;
            (
                TapModel {
                    hide_count: if hide {
                        1
                    } else {
                        m.hide_count
                    },
                    ..m
                },
                RequestEffects { warp: Some(point), hide, ..no_effects() },
            )
        },
        Request::EnforceHidden => if m.hide_count > 0 {
            (
                TapModel { hide_count: (m.hide_count + 1) as u32, ..m },
                RequestEffects { hide: true, ..no_effects() },
            )
        } else {
            (m, no_effects())
        },
        Request::ScreenParametersChanged(screens) => (
            TapModel { screens: frames_of(screens@), screen_spaces: spaced(screens@), ..m },
            no_effects(),
        ),
        Request::SpaceChanged(spaces) => (
            TapModel { screen_spaces: spaced(side_by_side(m.screens, spaces@)), ..m },
            no_effects(),
        ),
        Request::SetEventProcessing(enabled) => (
            TapModel { event_processing_enabled: enabled, ..m }.reset(enabled),
            RequestEffects { rebuild_mask: true, ..no_effects() },
        ),
        Request::SetFocusFollowsMouseEnabled(enabled) => (
            TapModel { focus_follows_mouse_enabled: enabled, ..m }.reset(enabled),
            RequestEffects { rebuild_mask: true, ..no_effects() },
        ),
        Request::SetHotkeys(_) | Request::KeyboardLayoutChanged => (
            m,
            RequestEffects { resolve_hotkeys: true, rebuild_mask: true, ..no_effects() },
        ),
        Request::EnterResizeMode => (
            TapModel { resize_mode_deadline: Some((now + RESIZE_MODE_TIMEOUT) as u64), ..m },
            no_effects(),
        ),
        Request::ConfigUpdated(settings) => {
            let active = match settings.disable_hotkey {
                Some(t) => crate::event_tap::hotkey_held(m.pressed_keys, m.current_flags, t, held),
                None => false,
            };
            let next = TapModel {
                mouse_hides_on_focus: settings.mouse_hides_on_focus,
                focus_follows_mouse_config_enabled: settings.focus_follows_mouse,
                stack_line_enabled: settings.stack_line_enabled,
                disable_hotkey_active: active,
                ..m
            };
            let settled = if m.disable_hotkey_active && !active {
                next.reset(true)
            } else {
                next
            };
            let show = m.mouse_hides_on_focus && !settings.mouse_hides_on_focus;
            (
                TapModel {
                    hide_count: if show {
                        0
                    } else {
                        m.hide_count
                    },
                    ..settled
                },
                RequestEffects {
                    shows: if show {
                        m.hide_count
                    } else {
                        0
                    },
                    rebuild_mask: true,
                    ..no_effects()
                },
            )
        },
        Request::SetLowPowerMode(enabled) => if m.low_power_mode != enabled {
            (
                TapModel {
                    low_power_mode: enabled,
                    last_mouse_move_loc: None,
                    last_mouse_move_timestamp: 0,
                    ..m
                },
                no_effects(),
            )
        } else {
            (m, no_effects())
        },
    }
}

/// A tapped event with what was read about it.
pub struct TapInput {
    pub kind: EventType,
    pub flags: u64,
    /// The tap was switched on again since the last event.
    pub reenabled: bool,
    pub location: Point,
    pub timestamp: u64,
    pub now: u64,
    /// The location is over a stack-line indicator, and under a foreign window.
    pub hits_indicator: bool,
    pub occluded: bool,
    /// The window at the location.
    pub window: Option<WindowServerInfo>,
    /// The key of a keyboard event.
    pub key: Option<KeyTraits>,
    /// The modifiers held, going by the flags alone and by the flags with
    /// the pressed keys.
    pub held_by_flags: Modifiers,
    pub held: Modifiers,
}

/// A message to the stack-line actor.
#[derive(Copy, Clone, Debug, PartialEq, Eq, Structural)]
pub enum StackLineInput {
    MouseDown(Point),
    MouseMoved { point: Point, hits_indicator: bool },
}

/// What a keyboard event sets off.
pub enum KeyReaction {
    /// Nothing: the event goes on to its application.
    Pass,
    /// The focused window is resized: the reactor gets the trace, and the
    /// controller its command.
    Resize(UserInputTrace),
    /// Resize mode ends.
    ExitResizeMode,
    /// The commands at these positions of the bindings are given, in order.
    /// The reactor gets the traces.
    Commands { at: Vec<usize>, traces: Vec<UserInputTrace> },
}

/// Whether a trace tells of a command and what it was given with.
pub open spec fn traces_command(
    trace: UserInputTrace,
    source: Seq<char>,
    input: TracedInput,
    command: WmCommand,
) -> bool {
    trace.source@ == source && trace.input == input && same_command(trace.command, command)
}

/// The command that an arrow key gives in resize mode.
pub open spec fn resize_command(direction: Direction) -> WmCommand {
    WmCommand::ReactorCommand(Command::Layout(LayoutCommand::ResizeWindowDirectional(direction)))
}

/// The positions at which there is a binding.
pub open spec fn bound_at(specs: Seq<(String, WmCommand)>, at: Seq<usize>) -> Seq<usize> {
    at.filter(|i: usize| i < specs.len())
}

/// Whether there is one trace for each command that a hotkey is bound to, in
/// order, resize mode among them.
pub open spec fn traces_hotkey(
    traces: Seq<UserInputTrace>,
    specs: Seq<(String, WmCommand)>,
    at: Seq<usize>,
    hotkey: Hotkey,
) -> bool {
    &&& traces.len() == bound_at(specs, at).len()
    &&& forall|j: int|
        0 <= j < traces.len() ==> traces_command(
            #[trigger] traces[j],
            "hotkey"@,
            TracedInput::Hotkey(hotkey),
            specs[bound_at(specs, at)[j] as int].1,
        )
}

/// What a tapped event sets off. The event goes on to its application only
/// if `pass` is set.
pub struct Reaction {
    pub pass: bool,
    pub mouse: Option<MouseState>,
    pub shows: u32,
    pub stack_line: Option<StackLineInput>,
    pub event: Option<Event>,
    pub key: KeyReaction,
}

pub open spec fn is_key_event(kind: EventType) -> bool {
    kind == EventType::KeyDown || kind == EventType::KeyUp || kind == EventType::FlagsChanged
}

/// The pressed keys after a keyboard event, going by the flags before it.
pub open spec fn noted_keys(m: TapModel, kind: EventType, key: Option<KeyTraits>) -> Map<
    KeyCode,
    Option<u64>,
> {
    match key {
        None => m.pressed_keys,
        Some(k) => match kind {
            EventType::KeyDown => m.pressed_keys.insert(k.key, k.flag),
            EventType::KeyUp => m.pressed_keys.remove(k.key),
            EventType::FlagsChanged => match k.flag {
                Some(flag) if k.is_modifier => if has_flag(m.current_flags, flag) {
                    m.pressed_keys.insert(k.key, k.flag)
                } else {
                    m.pressed_keys.remove(k.key)
                },
                _ => m.pressed_keys,
            },
            _ => m.pressed_keys,
        },
    }
}

/// The state once a keyboard event was tracked, before it sets anything off.
pub open spec fn key_tracked(
    m: TapModel,
    target: Option<DisableHotkey>,
    kind: EventType,
    key: Option<KeyTraits>,
    flags: u64,
    held: Modifiers,
) -> TapModel {
    TapModel { pressed_keys: noted_keys(m, kind, key), current_flags: flags, ..m }.refreshed(
        target,
        held,
    )
}

pub open spec fn is_resize_mode(specs: Seq<(String, WmCommand)>, at: usize) -> bool {
    at < specs.len() && specs[at as int].1 == WmCommand::Wm(WmCmd::ResizeMode)
}

/// The positions whose command is handed on, which is every one but resize mode.
pub open spec fn dispatched(specs: Seq<(String, WmCommand)>, at: Seq<usize>) -> Seq<usize> {
    at.filter(|i: usize| !is_resize_mode(specs, i))
}

pub open spec fn enters_resize_mode(specs: Seq<(String, WmCommand)>, at: Seq<usize>) -> bool {
    exists|j: int| 0 <= j < at.len() && is_resize_mode(specs, #[trigger] at[j])
}

/// The state once the tap was recreated or switched on again: key-up events
/// may have been lost, so no key counts as pressed.
pub open spec fn keys_forgotten(
    m: TapModel,
    target: Option<DisableHotkey>,
    flags: u64,
    held_by_flags: Modifiers,
) -> TapModel {
    TapModel { pressed_keys: Map::empty(), current_flags: flags, ..m }.refreshed(
        target,
        held_by_flags,
    )
}

/// The state once an event's flags were taken over.
pub open spec fn flags_synced(
    m: TapModel,
    target: Option<DisableHotkey>,
    input: TapInput,
) -> TapModel {
    let first = if input.reenabled {
        keys_forgotten(m, target, input.flags, input.held_by_flags)
    } else {
        m
    };
    if !is_key_event(input.kind) && input.flags != first.current_flags {
        TapModel {
            current_flags: input.flags,
            pressed_keys: confirmed_keys(first.pressed_keys, input.flags),
            ..first
        }.refreshed(target, input.held)
    } else {
        first
    }
}

/// The mouse button that an event shows.
pub open spec fn shown_mouse_state(kind: EventType) -> Option<MouseState> {
    match kind {
        EventType::LeftMouseDown
        | EventType::RightMouseDown
        | EventType::LeftMouseDragged
        | EventType::RightMouseDragged => Some(MouseState::Down),
        EventType::LeftMouseUp | EventType::RightMouseUp => Some(MouseState::Up),
        _ => None,
    }
}

/// Whether a click lands on a visible stack-line indicator.
pub open spec fn clicks_indicator(input: TapInput) -> bool {
    (input.kind == EventType::LeftMouseDown || input.kind == EventType::RightMouseDown)
        && input.hits_indicator && !input.occluded
}

/// Whether a mouse move is worth reporting.
pub open spec fn worth_sampling(m: TapModel, input: TapInput) -> bool {
    match m.last_mouse_move_loc {
        None => true,
        Some(last) => {
            let (interval, distance): (u64, u64) = if m.low_power_mode {
                (
                    crate::event_tap::MOUSE_MOVE_MIN_INTERVAL_NS_LOW_POWER,
                    crate::event_tap::MOUSE_MOVE_MIN_DISTANCE_SQ_LOW_POWER,
                )
            } else {
                (
                    crate::event_tap::MOUSE_MOVE_MIN_INTERVAL_NS_NORMAL,
                    crate::event_tap::MOUSE_MOVE_MIN_DISTANCE_SQ_NORMAL,
                )
            };
            distance_sq(input.location, last) >= distance || elapsed(
                m.last_mouse_move_timestamp,
                input.timestamp,
            ) >= interval
        },
    }
}

/// The state and reaction for a mouse event, once its flags are taken over.
pub open spec fn mouse_reaction(m: TapModel, input: TapInput) -> (TapModel, Reaction) {
    let quiet = Reaction {
        pass: true,
        mouse: shown_mouse_state(input.kind),
        shows: 0,
        stack_line: None,
        event: None,
        key: KeyReaction::Pass,
    };
    if clicks_indicator(input) {
        (
            m,
            Reaction {
                pass: false,
                stack_line: Some(StackLineInput::MouseDown(input.location)),
                ..quiet
            },
        )
    } else if !m.event_processing_enabled {
        (m, quiet)
    } else {
        let next = TapModel { hide_count: 0, ..m };
        let shown = Reaction { shows: m.hide_count, ..quiet };
        match input.kind {
            EventType::LeftMouseDown => (
                next,
                Reaction { event: Some(Event::MouseDown(input.window, input.location)), ..shown },
            ),
            EventType::RightMouseUp | EventType::LeftMouseUp => (
                next,
                Reaction { event: Some(Event::MouseUp), ..shown },
            ),
            EventType::MouseMoved => if !worth_sampling(m, input) {
                (next, shown)
            } else {
                (
                    TapModel {
                        last_mouse_move_loc: Some(input.location),
                        last_mouse_move_timestamp: input.timestamp,
                        ..next
                    },
                    Reaction {
                        stack_line: if m.stack_line_enabled {
                            Some(
                                StackLineInput::MouseMoved {
                                    point: input.location,
                                    hits_indicator: input.hits_indicator && !input.occluded,
                                },
                            )
                        } else {
                            None
                        },
                        event: if m.focus_follows_mouse_config_enabled
                            && m.focus_follows_mouse_enabled && !m.disable_hotkey_active {
                            Some(Event::MouseMoved(input.location))
                        } else {
                            None
                        },
                        ..shown
                    },
                )
            },
            _ => (next, shown),
        }
    }
}

/// What a keyboard event sets off, once it was tracked.
pub open spec fn key_reaction(
    m: TapModel,
    specs: Seq<(String, WmCommand)>,
    table: HotkeyTable,
    input: TapInput,
    next: TapModel,
    reaction: KeyReaction,
) -> bool {
    match input.key {
        Some(key) if input.kind == EventType::KeyDown => {
            let (deadline, action) = resize_step(m.resize_mode_deadline, key.key, input.now);
            let hotkey = Hotkey { modifiers: input.held, key_code: key.key };
            match action {
                Some(ResizeModeAction::Resize(direction)) => {
                    &&& reaction matches KeyReaction::Resize(trace) && traces_command(
                        trace,
                        "resize_mode"@,
                        TracedInput::Key(key.key),
                        resize_command(direction),
                    )
                    &&& next == (TapModel { resize_mode_deadline: deadline, ..m })
                },
                Some(ResizeModeAction::Exit) => reaction == KeyReaction::ExitResizeMode && next == (
                TapModel { resize_mode_deadline: deadline, ..m }),
                None => if table.commands@.contains_key(hotkey) {
                    &&& reaction matches KeyReaction::Commands { at, traces } && at@ == dispatched(
                        specs,
                        table.of(hotkey),
                    ) && traces_hotkey(traces@, specs, table.of(hotkey), hotkey)
                    &&& next == (TapModel {
                        resize_mode_deadline: if enters_resize_mode(specs, table.of(hotkey)) {
                            Some((input.now + RESIZE_MODE_TIMEOUT) as u64)
                        } else {
                            deadline
                        },
                        ..m
                    })
                } else {
                    reaction == KeyReaction::Pass && next == (TapModel {
                        resize_mode_deadline: deadline,
                        ..m
                    })
                },
            }
        },
        _ => reaction == KeyReaction::Pass && next == m,
    }
}

impl EventTap {
    pub fn new(settings: TapSettings, low_power_mode: bool, held: Modifiers) -> (r: EventTap)
        ensures
            r.disable_hotkey == settings.disable_hotkey,
            r.tap_generation == 0,
            r.hotkey_specs@ == Seq::<(String, WmCommand)>::empty(),
            r.hotkeys.commands@ == Map::<Hotkey, Vec<usize>>::empty(),
            r.state@ == (TapModel {
                hide_count: 0,
                mouse_hides_on_focus: settings.mouse_hides_on_focus,
                focus_follows_mouse_config_enabled: settings.focus_follows_mouse,
                screens: Seq::empty(),
                event_processing_enabled: false,
                focus_follows_mouse_enabled: true,
                stack_line_enabled: settings.stack_line_enabled,
                disable_hotkey_active: match settings.disable_hotkey {
                    Some(t) => crate::event_tap::hotkey_held(Map::empty(), 0, t, held),
                    None => false,
                },
                low_power_mode,
                pressed_keys: Map::empty(),
                current_flags: 0,
                screen_spaces: Seq::empty(),
                last_mouse_move_loc: None,
                last_mouse_move_timestamp: 0,
                resize_mode_deadline: None,
            }),
            r.event_mask == if settings.disable_hotkey is Some {
                0x1cdeu64
            } else {
                0xdeu64
            },
    {
        let mut state = State::default();
        state.low_power_mode = low_power_mode;
        state.mouse_hides_on_focus = settings.mouse_hides_on_focus;
        state.focus_follows_mouse_config_enabled = settings.focus_follows_mouse;
        state.stack_line_enabled = settings.stack_line_enabled;
        state.disable_hotkey_active = match &settings.disable_hotkey {
            Some(target) => state.compute_disable_hotkey_active(target, held),
            None => false,
        };
        let moves: bool = state.event_processing_enabled && (state.stack_line_enabled || (
        state.focus_follows_mouse_config_enabled && state.focus_follows_mouse_enabled));
        let event_mask: u64 = build_event_mask(settings.disable_hotkey.is_some(), moves);
        EventTap {
            state,
            event_mask,
            tap_generation: 0,
            disable_hotkey: settings.disable_hotkey,
            hotkey_specs: Vec::new(),
            hotkeys: HotkeyTable::empty(),
        }
    }

    pub fn keyboard_handlers_enabled(&self) -> (r: bool)
        ensures
            r <==> self.disable_hotkey is Some || self.hotkeys.commands@ != Map::<
                Hotkey,
                Vec<usize>,
            >::empty(),
    {
        self.disable_hotkey.is_some() || !self.hotkeys.is_empty()
    }

    pub fn mouse_move_handlers_enabled(&self) -> (r: bool)
        ensures
            r == handles_mouse_moves(self.state@),
    {
        self.state.event_processing_enabled && (self.state.stack_line_enabled || (
        self.state.focus_follows_mouse_config_enabled && self.state.focus_follows_mouse_enabled))
    }

    /// The mask that the tap is to have.
    pub fn desired_event_mask(&self) -> (r: u64)
        ensures
            r == 0xde + (if handles_mouse_moves(self.state@) {
                0x20int
            } else {
                0
            }) + (if self.disable_hotkey is Some || self.hotkeys.commands@ != Map::<
                Hotkey,
                Vec<usize>,
            >::empty() {
                0x1c00int
            } else {
                0
            }),
    {
        build_event_mask(self.keyboard_handlers_enabled(), self.mouse_move_handlers_enabled())
    }

    /// The mask to recreate the tap with, if the one it has is not the one it
    /// is to have.
    pub fn mask_to_build(&self) -> (r: Option<u64>)
        ensures
            match r {
                Some(mask) => mask != self.event_mask && mask == 0xde + (if handles_mouse_moves(
                    self.state@,
                ) {
                    0x20int
                } else {
                    0
                }) + (if self.disable_hotkey is Some || self.hotkeys.commands@ != Map::<
                    Hotkey,
                    Vec<usize>,
                >::empty() {
                    0x1c00int
                } else {
                    0
                }),
                None => self.event_mask == 0xde + (if handles_mouse_moves(self.state@) {
                    0x20int
                } else {
                    0
                }) + (if self.disable_hotkey is Some || self.hotkeys.commands@ != Map::<
                    Hotkey,
                    Vec<usize>,
                >::empty() {
                    0x1c00int
                } else {
                    0
                }),
            },
    {
        let next_mask: u64 = self.desired_event_mask();
        if next_mask == self.event_mask {
            None
        } else {
            Some(next_mask)
        }
    }

    /// Notes that a tap was created with a mask. Its generation is the next one.
    pub fn tap_created(&mut self, mask: u64)
        ensures
            *final(self) == (EventTap {
                event_mask: mask,
                tap_generation: if old(self).tap_generation == u64::MAX {
                    0
                } else {
                    (old(self).tap_generation + 1) as u64
                },
                ..*old(self)
            }),
    {
        self.tap_generation = self.tap_generation.wrapping_add(1);
        self.event_mask = mask;
    }

    /// Whether an invalidation concerns the present tap, which is then to be
    /// recreated with the mask it has.
    pub fn invalidation_is_current(&self, generation: u64) -> (r: bool)
        ensures
            r == (generation == self.tap_generation),
    {
        generation == self.tap_generation
    }

    /// Forgets pressed keys after the tap was recreated.
    pub fn reconcile_after_tap_recreated(&mut self, held_by_flags: Modifiers)
        ensures
            *final(self) == (EventTap { state: final(self).state, ..*old(self) }),
            final(self).state@ == keys_forgotten(
                old(self).state@,
                old(self).disable_hotkey,
                0,
                held_by_flags,
            ),
    {
        self.forget_keys(0, held_by_flags);
    }

    fn forget_keys(&mut self, flags: u64, held_by_flags: Modifiers)
        ensures
            *final(self) == (EventTap { state: final(self).state, ..*old(self) }),
            final(self).state@ == keys_forgotten(
                old(self).state@,
                old(self).disable_hotkey,
                flags,
                held_by_flags,
            ),
    {
        self.state.pressed_keys.clear();
        self.state.current_flags = flags;
        self.state.reconcile_modifier_keys();
        assert(self.state@ =~= (TapModel {
            pressed_keys: Map::empty(),
            current_flags: flags,
            ..old(self).state@
        }));
        self.state.refresh_disable_hotkey_state(&self.disable_hotkey, held_by_flags);
    }

    /// Installs the hotkeys that the bindings stand for on the current layout.
    pub fn install_hotkeys(&mut self, resolved: &Vec<Vec<Hotkey>>)
        requires
            resolved@.len() == old(self).hotkey_specs@.len(),
        ensures
            *final(self) == (EventTap { hotkeys: final(self).hotkeys, ..*old(self) }),
            forall|h: Hotkey| #[trigger]
                final(self).hotkeys.of(h) == crate::event_tap::hotkeys::bound(
                    crate::event_tap::hotkeys::command_list(old(self).hotkey_specs@),
                    crate::event_tap::hotkeys::hotkey_lists(resolved@),
                    resolved@.len() as int,
                    h,
                ),
            forall|h: Hotkey| #[trigger]
                final(self).hotkeys.commands@.contains_key(h) <==> exists|i: int|
                    0 <= i < resolved@.len() && (#[trigger] resolved@[i])@.contains(h),
    {
        self.hotkeys = HotkeyTable::rebuild_hotkeys_for_current_layout(
            &self.hotkey_specs,
            resolved,
        );
    }

    /// Takes a request of another actor.
    pub fn on_request(&mut self, request: Request, now: u64, held: Modifiers) -> (r: RequestEffects)
        requires
            now <= LATEST,
            old(self).state.hide_count < u32::MAX,
        ensures
            (final(self).state@, r) == requested(
                old(self).state@,
                request,
                now,
                held,
            ),
            *final(self) == (EventTap {
                state: final(self).state,
                disable_hotkey: match request {
                    Request::ConfigUpdated(settings) => settings.disable_hotkey,
                    _ => old(self).disable_hotkey,
                },
                hotkey_specs: match request {
                    Request::SetHotkeys(bindings) => bindings,
                    _ => old(self).hotkey_specs,
                },
                ..*old(self)
            }),
    {
        let mut effects = RequestEffects {
            warp: None,
            hide: false,
            shows: 0,
            resolve_hotkeys: false,
            rebuild_mask: false,
        };
        match request {
            Request::Warp(point) => {
                effects.warp = Some(point);
                if self.state.mouse_hides_on_focus && self.state.hide_count == 0 {
                    self.state.hide_mouse();
                    effects.hide = true;
                }
            },
            Request::EnforceHidden => {
                if self.state.hide_count > 0 {
                    self.state.hide_mouse();
                    effects.hide = true;
                }
            },
            Request::ScreenParametersChanged(screens_with_spaces) => {
                self.state.screens = collect_frames(&screens_with_spaces);
                self.state.screen_spaces = collect_spaced(&screens_with_spaces);
            },
            Request::SpaceChanged(spaces) => {
                let pairs = pair_up(&self.state.screens, &spaces);
                self.state.screen_spaces = collect_spaced(&pairs);
            },
            Request::SetEventProcessing(enabled) => {
                self.state.event_processing_enabled = enabled;
                self.state.reset(enabled);
                effects.rebuild_mask = true;
            },
            Request::SetFocusFollowsMouseEnabled(enabled) => {
                self.state.focus_follows_mouse_enabled = enabled;
                self.state.reset(enabled);
                effects.rebuild_mask = true;
            },
            Request::SetHotkeys(bindings) => {
                self.hotkey_specs = bindings;
                effects.resolve_hotkeys = true;
                effects.rebuild_mask = true;
            },
            Request::EnterResizeMode => self.state.enter_resize_mode(now),
            Request::KeyboardLayoutChanged => {
                effects.resolve_hotkeys = true;
                effects.rebuild_mask = true;
            },
            Request::ConfigUpdated(settings) => {
                self.disable_hotkey = settings.disable_hotkey;
                effects.shows = self.state.apply_settings(&settings, held);
                effects.rebuild_mask = true;
            },
            Request::SetLowPowerMode(enabled) => {
                if self.state.low_power_mode != enabled {
                    self.state.low_power_mode = enabled;
                    self.state.last_mouse_move_loc = None;
                    self.state.last_mouse_move_timestamp = 0;
                }
            },
        }
        effects
    }

    /// Tracks a keyboard event and finds what it sets off.
    pub fn handle_keyboard_event(&mut self, input: &TapInput) -> (r: KeyReaction)
        requires
            input.now <= LATEST,
        ensures
            *final(self) == (EventTap { state: final(self).state, ..*old(self) }),
            key_reaction(
                key_tracked(
                    old(self).state@,
                    old(self).disable_hotkey,
                    input.kind,
                    input.key,
                    input.flags,
                    input.held,
                ),
                old(self).hotkey_specs@,
                old(self).hotkeys,
                *input,
                final(self).state@,
                r,
            ),
    {
        if let Some(key) = input.key {
            match input.kind {
                EventType::KeyDown => self.state.note_key_down(key),
                EventType::KeyUp => self.state.note_key_up(key),
                EventType::FlagsChanged => self.state.note_flags_changed(key),
                _ => {},
            }
        }
        self.state.current_flags = input.flags;
        self.state.refresh_disable_hotkey_state(&self.disable_hotkey, input.held);
        let ghost tracked_state = self.state@;
        assert(tracked_state =~= key_tracked(
            old(self).state@,
            old(self).disable_hotkey,
            input.kind,
            input.key,
            input.flags,
            input.held,
        ));
        if input.kind == EventType::KeyDown {
            if let Some(key) = input.key {
                match self.state.resize_mode_action(key.key, input.now) {
                    Some(ResizeModeAction::Resize(direction)) => {
                        let command = WmCommand::ReactorCommand(
                            Command::Layout(LayoutCommand::ResizeWindowDirectional(direction)),
                        );
                        return KeyReaction::Resize(
                            UserInputTrace {
                                source: "resize_mode".to_string(),
                                input: TracedInput::Key(key.key),
                                command,
                            },
                        );
                    },
                    Some(ResizeModeAction::Exit) => {
                        return KeyReaction::ExitResizeMode;
                    },
                    None => {},
                }
                let hotkey = Hotkey { modifiers: input.held, key_code: key.key };
                if let Some(at) = self.hotkeys.get(hotkey) {
                    let (commands, resize_mode) = split_commands(&self.hotkey_specs, at);
                    if resize_mode {
                        self.state.enter_resize_mode(input.now);
                    }
                    let traces: Vec<UserInputTrace> = trace_hotkey(&self.hotkey_specs, at, hotkey);
                    return KeyReaction::Commands { at: commands, traces };
                }
            }
        }
        KeyReaction::Pass
    }

    /// Takes a tapped event.
    pub fn on_event(&mut self, input: &TapInput) -> (r: Reaction)
        requires
            input.now <= LATEST,
        ensures
            *final(self) == (EventTap { state: final(self).state, ..*old(self) }),
            ({
                let synced = flags_synced(old(self).state@, old(self).disable_hotkey, *input);
                if is_key_event(input.kind) {
                    &&& key_reaction(
                        key_tracked(
                            synced,
                            old(self).disable_hotkey,
                            input.kind,
                            input.key,
                            input.flags,
                            input.held,
                        ),
                        old(self).hotkey_specs@,
                        old(self).hotkeys,
                        *input,
                        final(self).state@,
                        r.key,
                    )
                    &&& r.pass == (r.key is Pass)
                    &&& r.mouse is None && r.shows == 0 && r.stack_line is None && r.event is None
                } else {
                    (final(self).state@, r) == mouse_reaction(synced, *input)
                }
            }),
    {
        if input.reenabled {
            self.forget_keys(input.flags, input.held_by_flags);
        }
        let is_key: bool = match input.kind {
            EventType::KeyDown | EventType::KeyUp | EventType::FlagsChanged => true,
            _ => false,
        };
        if !is_key {
            if input.flags != self.state.current_flags {
                self.state.current_flags = input.flags;
                self.state.reconcile_modifier_keys();
                self.state.refresh_disable_hotkey_state(&self.disable_hotkey, input.held);
            }
        }
        assert(self.state@ =~= flags_synced(old(self).state@, old(self).disable_hotkey, *input));
        if is_key {
            let key = self.handle_keyboard_event(input);
            let pass: bool = match &key {
                KeyReaction::Pass => true,
                _ => false,
            };
            return Reaction { pass, mouse: None, shows: 0, stack_line: None, event: None, key };
        }
        self.on_mouse_event(input)
    }

    fn on_mouse_event(&mut self, input: &TapInput) -> (r: Reaction)
        ensures
            *final(self) == (EventTap { state: final(self).state, ..*old(self) }),
            (final(self).state@, r) == mouse_reaction(old(self).state@, *input),
    {
        let mut reaction = Reaction {
            pass: true,
            mouse: None,
            shows: 0,
            stack_line: None,
            event: None,
            key: KeyReaction::Pass,
        };
        match input.kind {
            EventType::LeftMouseDown | EventType::RightMouseDown => {
                reaction.mouse = Some(MouseState::Down);
                if input.hits_indicator && !input.occluded {
                    reaction.pass = false;
                    reaction.stack_line = Some(StackLineInput::MouseDown(input.location));
                    return reaction;
                }
            },
            EventType::LeftMouseDragged | EventType::RightMouseDragged => {
                reaction.mouse = Some(MouseState::Down);
            },
            EventType::LeftMouseUp | EventType::RightMouseUp => {
                reaction.mouse = Some(MouseState::Up);
            },
            _ => {},
        }
        if !self.state.event_processing_enabled {
            return reaction;
        }
        if self.state.hide_count > 0 {
            reaction.shows = self.state.show_mouse();
        }
        match input.kind {
            EventType::LeftMouseDown => {
                reaction.event = Some(Event::MouseDown(input.window, input.location));
            },
            EventType::RightMouseUp | EventType::LeftMouseUp => {
                reaction.event = Some(Event::MouseUp);
            },
            EventType::MouseMoved => {
                let sampling: (u64, u64) = mouse_move_sampling_profile(self.state.low_power_mode);
                if !self.state.should_sample_mouse_move(
                    input.location,
                    input.timestamp,
                    sampling,
                ) {
                    return reaction;
                }
                if self.state.stack_line_enabled {
                    reaction.stack_line =
                    Some(
                        StackLineInput::MouseMoved {
                            point: input.location,
                            hits_indicator: input.hits_indicator && !input.occluded,
                        },
                    );
                }
                if self.state.focus_follows_mouse_config_enabled
                    && self.state.focus_follows_mouse_enabled && !self.state.disable_hotkey_active {
                    reaction.event = Some(Event::MouseMoved(input.location));
                }
            },
            _ => {},
        }
        reaction
    }
}

/// Resize mode that was entered and not used for its whole time is over, and
/// the key that comes then is not taken for it.
pub proof fn law_resize_mode_times_out(entered: u64, key: KeyCode, now: u64)
    requires
        entered <= LATEST,
        now > entered + RESIZE_MODE_TIMEOUT,
    ensures
        resize_step(Some((entered + RESIZE_MODE_TIMEOUT) as u64), key, now) == (
            None::<u64>,
            None::<ResizeModeAction>,
        ),
{
}

/// Within its time, an arrow key resizes and starts the time anew; any other
/// key ends resize mode.
pub proof fn law_resize_mode_goes_on_with_arrows(entered: u64, key: KeyCode, now: u64)
    requires
        entered <= LATEST,
        now <= entered + RESIZE_MODE_TIMEOUT,
        now <= LATEST,
    ensures
        ({
            let (deadline, action) = resize_step(
                Some((entered + RESIZE_MODE_TIMEOUT) as u64),
                key,
                now,
            );
            match crate::event_tap::resize_direction(key) {
                Some(direction) => deadline == Some((now + RESIZE_MODE_TIMEOUT) as u64) && action
                    == Some(ResizeModeAction::Resize(direction)),
                None => deadline is None && (action == Some(ResizeModeAction::Exit)
                    <==> crate::event_tap::leaves_resize_mode(key)),
            }
        }),
{
}

/// While the pause hotkey is held, no mouse move reaches the reactor.
pub proof fn law_pause_hotkey_silences_mouse_moves(m: TapModel, input: TapInput, p: Point)
    requires
        m.disable_hotkey_active,
        !is_key_event(input.kind),
    ensures
        mouse_reaction(m, input).1.event != Some(Event::MouseMoved(p)),
{
}

/// A click on a visible indicator goes to the stack line and nowhere else.
pub proof fn law_indicator_click_is_swallowed(m: TapModel, input: TapInput)
    requires
        clicks_indicator(input),
    ensures
        !mouse_reaction(m, input).1.pass,
        mouse_reaction(m, input).1.event is None,
        mouse_reaction(m, input).1.stack_line == Some(StackLineInput::MouseDown(input.location)),
        mouse_reaction(m, input).0 == m,
{
}

/// The traces of a hotkey's commands.
fn trace_hotkey(specs: &Vec<(String, WmCommand)>, at: &Vec<usize>, hotkey: Hotkey) -> (r: Vec<
    UserInputTrace,
>)
    ensures
        traces_hotkey(r@, specs@, at@, hotkey),
{
    let mut traces: Vec<UserInputTrace> = Vec::new();
    let mut i: usize = 0;
    proof {
        reveal(Seq::filter);
        assert(at@.take(0) =~= Seq::<usize>::empty());
    }
    while i < at.len()
        invariant
            i <= at@.len(),
            traces_hotkey(traces@, specs@, at@.take(i as int), hotkey),
        decreases at@.len() - i,
    {
        proof {
            assert(at@.take(i + 1).drop_last() =~= at@.take(i as int));
            assert(at@.take(i + 1).last() == at@[i as int]);
            reveal(Seq::filter);
        }
        let n: usize = at[i];
        if n < specs.len() {
            traces.push(
                UserInputTrace {
                    source: "hotkey".to_string(),
                    input: TracedInput::Hotkey(hotkey),
                    command: specs[n].1.copy(),
                },
            );
        }
        i += 1;
    }
    assert(at@.take(i as int) =~= at@);
    traces
}

fn split_commands(specs: &Vec<(String, WmCommand)>, at: &Vec<usize>) -> (r: (Vec<usize>, bool))
    ensures
        r.0@ == dispatched(specs@, at@),
        r.1 == enters_resize_mode(specs@, at@),
{
    let mut commands: Vec<usize> = Vec::new();
    let mut resize_mode: bool = false;
    let mut i: usize = 0;
    proof {
        reveal(Seq::filter);
        assert(at@.take(0) =~= Seq::<usize>::empty());
    }
    while i < at.len()
        invariant
            i <= at@.len(),
            commands@ == dispatched(specs@, at@.take(i as int)),
            resize_mode <==> exists|j: int| 0 <= j < i && is_resize_mode(specs@, #[trigger] at@[j]),
        decreases at@.len() - i,
    {
        proof {
            assert(at@.take(i + 1).drop_last() =~= at@.take(i as int));
            assert(at@.take(i + 1).last() == at@[i as int]);
            reveal(Seq::filter);
        }
        let n: usize = at[i];
        let is_mode: bool = n < specs.len() && match &specs[n].1 {
            WmCommand::Wm(WmCmd::ResizeMode) => true,
            _ => false,
        };
        if is_mode {
            assert(is_resize_mode(specs@, at@[i as int]));
            resize_mode = true;
        } else {
            commands.push(n);
        }
        i += 1;
    }
    assert(at@.take(i as int) =~= at@);
    (commands, resize_mode)
}

/// While input is processed, every release of the left or the right button
/// reaches the reactor and goes on to its application, and so does a left
/// press that is not on a visible indicator, with its place and the window
/// there.
pub proof fn law_presses_and_releases_reach_the_reactor(m: TapModel, input: TapInput)
    requires
        m.event_processing_enabled,
    ensures
        input.kind == EventType::LeftMouseUp || input.kind == EventType::RightMouseUp
            ==> mouse_reaction(m, input).1.event == Some(Event::MouseUp) && mouse_reaction(
            m,
            input,
        ).1.pass && mouse_reaction(m, input).1.mouse == Some(MouseState::Up),
        input.kind == EventType::LeftMouseDown && !(input.hits_indicator && !input.occluded)
            ==> mouse_reaction(m, input).1.event == Some(
            Event::MouseDown(input.window, input.location),
        ) && mouse_reaction(m, input).1.pass && mouse_reaction(m, input).1.mouse == Some(
            MouseState::Down,
        ),
{
}

/// A click on an indicator that no foreign window covers is the indicator's
/// alone; every other mouse event goes on to its application.
pub proof fn law_only_indicator_clicks_are_swallowed(m: TapModel, input: TapInput)
    ensures
        mouse_reaction(m, input).1.pass <==> !((input.kind == EventType::LeftMouseDown || input.kind
            == EventType::RightMouseDown) && input.hits_indicator && !input.occluded),
        mouse_reaction(m, input).1.key == KeyReaction::Pass,
        !mouse_reaction(m, input).1.pass ==> mouse_reaction(m, input).1.stack_line == Some(
            StackLineInput::MouseDown(input.location),
        ) && mouse_reaction(m, input).1.event is None && mouse_reaction(m, input).0 == m,
{
}

/// What a mouse event tells of the buttons holds whatever is switched on:
/// presses and drags show one held, releases show it let go, and nothing
/// else says anything.
pub proof fn law_buttons_are_tracked_always(m: TapModel, input: TapInput)
    ensures
        mouse_reaction(m, input).1.mouse == Some(MouseState::Down) <==> (input.kind
            == EventType::LeftMouseDown || input.kind == EventType::RightMouseDown || input.kind
            == EventType::LeftMouseDragged || input.kind == EventType::RightMouseDragged),
        mouse_reaction(m, input).1.mouse == Some(MouseState::Up) <==> (input.kind
            == EventType::LeftMouseUp || input.kind == EventType::RightMouseUp),
{
}

/// While input is not processed a mouse event sets off nothing, unless it
/// clicks an indicator.
pub proof fn law_switched_off_tap_reports_nothing(m: TapModel, input: TapInput)
    requires
        !m.event_processing_enabled,
    ensures
        mouse_reaction(m, input).0 == m,
        mouse_reaction(m, input).1.event is None,
        mouse_reaction(m, input).1.shows == 0,
        mouse_reaction(m, input).1.pass ==> mouse_reaction(m, input).1.stack_line is None,
{
}

/// A hidden cursor is shown again, as often as it was hidden, by the first
/// mouse event that is not an indicator's; a second one shows it no more.
pub proof fn law_mouse_event_shows_the_cursor_once(m: TapModel, first: TapInput, second: TapInput)
    requires
        m.event_processing_enabled,
        mouse_reaction(m, first).1.pass,
    ensures
        mouse_reaction(m, first).1.shows == m.hide_count,
        mouse_reaction(m, first).0.hide_count == 0,
        mouse_reaction(mouse_reaction(m, first).0, second).1.shows == 0,
{
}

/// A mouse move is reported if it is the first, if it is far enough from the
/// last one reported, or if long enough has passed since; it is remembered
/// exactly then. It goes to the indicators if they are on, and to the
/// reactor if focus follows the mouse by the settings and at the moment and
/// the pause hotkey is not held.
pub proof fn law_mouse_moves_are_sampled(m: TapModel, input: TapInput, last: Point)
    requires
        m.event_processing_enabled,
        input.kind == EventType::MouseMoved,
    ensures
        ({
            let dx = input.location.x - last.x;
            let dy = input.location.y - last.y;
            let (interval, distance): (int, int) = if m.low_power_mode {
                (16_000_000, 589_824)
            } else {
                (8_000_000, 262_144)
            };
            let (next, r) = mouse_reaction(m, input);
            let taken = next.last_mouse_move_loc == Some(input.location)
                && next.last_mouse_move_timestamp == input.timestamp;
            let focus = m.focus_follows_mouse_config_enabled && m.focus_follows_mouse_enabled
                && !m.disable_hotkey_active;
            &&& m.last_mouse_move_loc is None ==> taken
            &&& m.last_mouse_move_loc == Some(last) && (dx * dx + dy * dy >= distance
                || input.timestamp - m.last_mouse_move_timestamp >= interval) ==> taken
            &&& m.last_mouse_move_loc == Some(last) && dx * dx + dy * dy < distance
                && input.timestamp - m.last_mouse_move_timestamp < interval ==> next
                == (TapModel { hide_count: 0, ..m }) && r.event is None && r.stack_line is None
            &&& m.last_mouse_move_loc is None && focus ==> r.event == Some(
                Event::MouseMoved(input.location),
            )
            &&& !focus ==> r.event is None
            &&& m.last_mouse_move_loc is None && m.stack_line_enabled ==> r.stack_line == Some(
                StackLineInput::MouseMoved {
                    point: input.location,
                    hits_indicator: input.hits_indicator && !input.occluded,
                },
            )
            &&& !m.stack_line_enabled ==> r.stack_line is None
        }),
{
}

/// A warp puts the cursor there and, by the settings, hides it once; a hidden
/// cursor is hidden again when that is to be enforced, and a visible one is
/// not.
pub proof fn law_warp_and_hiding(m: TapModel, p: Point, now: u64, held: Modifiers)
    requires
        m.hide_count < u32::MAX,
    ensures
        ({
            let (next, effects) = requested(m, Request::Warp(p), now, held);
            &&& effects.warp == Some(p)
            &&& effects.hide <==> m.mouse_hides_on_focus && m.hide_count == 0
            &&& next.hide_count == m.hide_count + if effects.hide {
                1int
            } else {
                0
            }
        }),
        ({
            let (next, effects) = requested(m, Request::EnforceHidden, now, held);
            &&& effects.hide <==> m.hide_count > 0
            &&& effects.warp is None
            &&& next.hide_count == m.hide_count + if effects.hide {
                1int
            } else {
                0
            }
        }),
{
}

/// Switching processing or focus that follows the mouse on or off does that,
/// and has the tap's mask looked at.
pub proof fn law_switches_are_set(m: TapModel, enabled: bool, now: u64, held: Modifiers)
    ensures
        ({
            let (next, effects) = requested(m, Request::SetEventProcessing(enabled), now, held);
            next.event_processing_enabled == enabled && effects.rebuild_mask
                && next.focus_follows_mouse_enabled == m.focus_follows_mouse_enabled
                && next.resize_mode_deadline is None
        }),
        ({
            let (next, effects) = requested(
                m,
                Request::SetFocusFollowsMouseEnabled(enabled),
                now,
                held,
            );
            next.focus_follows_mouse_enabled == enabled && effects.rebuild_mask
                && next.event_processing_enabled == m.event_processing_enabled
        }),
        ({
            let (next, effects) = requested(m, Request::SetLowPowerMode(enabled), now, held);
            next.low_power_mode == enabled && effects == no_effects() && (m.low_power_mode
                != enabled ==> next.last_mouse_move_loc is None) && (m.low_power_mode == enabled
                ==> next == m)
        }),
{
}

/// Resize mode that is entered lasts ten seconds.
pub proof fn law_resize_mode_lasts(m: TapModel, now: u64, held: Modifiers)
    requires
        now <= LATEST,
    ensures
        requested(m, Request::EnterResizeMode, now, held).0.resize_mode_deadline == Some(
            (now + 10_000) as u64,
        ),
{
}

/// Other hotkeys, or another keyboard layout, have the hotkeys resolved and
/// the mask looked at.
pub proof fn law_hotkeys_are_resolved_anew(
    m: TapModel,
    list: Vec<(String, WmCommand)>,
    now: u64,
    held: Modifiers,
)
    ensures
        requested(m, Request::SetHotkeys(list), now, held).1.resolve_hotkeys,
        requested(m, Request::SetHotkeys(list), now, held).1.rebuild_mask,
        requested(m, Request::KeyboardLayoutChanged, now, held).1.resolve_hotkeys,
        requested(m, Request::KeyboardLayoutChanged, now, held).1.rebuild_mask,
{
}

/// New settings are taken over; a cursor hidden under the old ones is shown
/// again, as often as it was hidden, if it is not to be hidden any more.
pub proof fn law_settings_are_taken_over(
    m: TapModel,
    settings: TapSettings,
    now: u64,
    held: Modifiers,
)
    ensures
        ({
            let (next, effects) = requested(m, Request::ConfigUpdated(settings), now, held);
            &&& next.mouse_hides_on_focus == settings.mouse_hides_on_focus
            &&& next.focus_follows_mouse_config_enabled == settings.focus_follows_mouse
            &&& next.stack_line_enabled == settings.stack_line_enabled
            &&& settings.disable_hotkey is None ==> !next.disable_hotkey_active
            &&& m.mouse_hides_on_focus && !settings.mouse_hides_on_focus ==> effects.shows
                == m.hide_count && next.hide_count == 0
            &&& settings.mouse_hides_on_focus || !m.mouse_hides_on_focus ==> effects.shows == 0
                && next.hide_count == m.hide_count
            &&& effects.rebuild_mask && !effects.hide && effects.warp is None
        }),
{
}

/// The screens are those reported, and each that shows a space is known with
/// it.
pub proof fn law_reported_screens_are_taken_over(
    m: TapModel,
    screens: Vec<(Rect, Option<SpaceId>)>,
    i: int,
    frame: Rect,
    space: SpaceId,
    now: u64,
    held: Modifiers,
)
    requires
        0 <= i < screens@.len(),
    ensures
        ({
            let next = requested(m, Request::ScreenParametersChanged(screens), now, held).0;
            &&& next.screens.len() == screens@.len()
            &&& next.screens[i] == screens@[i].0
            &&& next.screen_spaces.contains((frame, space)) <==> screens@.contains(
                (frame, Some(space)),
            )
        }),
{
    lemma_spaced(screens@, frame, space);
}

proof fn lemma_spaced(frames: Seq<(Rect, Option<SpaceId>)>, frame: Rect, space: SpaceId)
    ensures
        spaced(frames).contains((frame, space)) <==> frames.contains((frame, Some(space))),
    decreases frames.len(),
{
    if frames.len() > 0 {
        let rest = frames.drop_last();
        lemma_spaced(rest, frame, space);
        let a = spaced(rest);
        let b = spaced(frames);
        let pair = (frame, space);
        let entry = (frame, Some(space));
        if a.contains(pair) {
            let k = a.index_of(pair);
            assert(b[k] == pair);
        }
        if b.contains(pair) && !a.contains(pair) {
            let k = b.index_of(pair);
            if k < a.len() {
                assert(a[k] == pair);
            }
            assert(frames[frames.len() - 1] == entry);
        }
        if rest.contains(entry) {
            let k = rest.index_of(entry);
            assert(frames[k] == entry);
        }
        if frames.contains(entry) && !rest.contains(entry) {
            let k = frames.index_of(entry);
            if k < rest.len() {
                assert(rest[k] == entry);
            }
            assert(b.last() == pair);
        }
    }
}

/// Spaces that change are those of the known screens, in their order.
pub proof fn law_changed_spaces_are_of_the_known_screens(
    frames: Seq<Rect>,
    spaces: Seq<Option<SpaceId>>,
    i: int,
)
    requires
        0 <= i < frames.len(),
        i < spaces.len(),
    ensures
        side_by_side(frames, spaces)[i] == (frames[i], spaces[i]),
        side_by_side(frames, spaces).len() <= frames.len(),
        side_by_side(frames, spaces).len() <= spaces.len(),
        side_by_side(frames, spaces).len() == frames.len() || side_by_side(frames, spaces).len()
            == spaces.len(),
{
}

/// A key that goes down is pressed, one that comes up is not, and a change of
/// flags presses or lifts a modifier as the flags say.
pub proof fn law_keys_are_tracked(m: TapModel, key: KeyTraits, flag: u64, other: KeyCode)
    requires
        other != key.key,
    ensures
        noted_keys(m, EventType::KeyDown, Some(key)).contains_key(key.key),
        !noted_keys(m, EventType::KeyUp, Some(key)).contains_key(key.key),
        key.is_modifier && key.flag == Some(flag) ==> (noted_keys(
            m,
            EventType::FlagsChanged,
            Some(key),
        ).contains_key(key.key) <==> m.current_flags & flag == flag),
        noted_keys(m, EventType::KeyDown, Some(key)).contains_key(other)
            == m.pressed_keys.contains_key(other),
        noted_keys(m, EventType::KeyUp, Some(key)).contains_key(other)
            == m.pressed_keys.contains_key(other),
        noted_keys(m, EventType::KeyDown, None) == m.pressed_keys,
{
}

/// A hotkey's commands are all handed on but resize mode, which is entered
/// instead.
pub proof fn law_hotkey_commands_are_handed_on(
    specs: Seq<(String, WmCommand)>,
    at: Seq<usize>,
    i: usize,
)
    requires
        at.contains(i),
        i < specs.len(),
    ensures
        dispatched(specs, at).contains(i) <==> specs[i as int].1 != WmCommand::Wm(WmCmd::ResizeMode),
        specs[i as int].1 == WmCommand::Wm(WmCmd::ResizeMode) ==> enters_resize_mode(specs, at),
{
    lemma_filter_members(at, |k: usize| !is_resize_mode(specs, k));
    let j = at.index_of(i);
    assert(at[j] == i);
}

/// A key that goes down with modifiers sets off the hotkey of just those,
/// outside resize mode; a key without a hotkey passes; keys that come up and
/// changes of flags set off nothing.
pub proof fn law_keys_set_off_their_hotkey(
    m: TapModel,
    specs: Seq<(String, WmCommand)>,
    table: HotkeyTable,
    input: TapInput,
    next: TapModel,
    reaction: KeyReaction,
    key: KeyTraits,
)
    requires
        key_reaction(m, specs, table, input, next, reaction),
        m.resize_mode_deadline is None,
        input.key == Some(key),
    ensures
        ({
            let hotkey = Hotkey { modifiers: input.held, key_code: key.key };
            &&& input.kind != EventType::KeyDown ==> reaction == KeyReaction::Pass && next == m
            &&& input.kind == EventType::KeyDown && !table.commands@.contains_key(hotkey)
                ==> reaction == KeyReaction::Pass
            &&& input.kind == EventType::KeyDown && table.commands@.contains_key(hotkey) ==> (
            reaction matches KeyReaction::Commands { at, traces } && at@ == dispatched(
                specs,
                table.commands@[hotkey]@,
            ))
        }),
{
}

/// In resize mode an arrow key resizes and is not handed on as a hotkey.
pub proof fn law_arrows_resize_in_resize_mode(
    m: TapModel,
    specs: Seq<(String, WmCommand)>,
    table: HotkeyTable,
    input: TapInput,
    next: TapModel,
    reaction: KeyReaction,
    key: KeyTraits,
    deadline: u64,
)
    requires
        key_reaction(m, specs, table, input, next, reaction),
        input.kind == EventType::KeyDown,
        input.key == Some(key),
        m.resize_mode_deadline == Some(deadline),
        input.now <= deadline,
        input.now <= LATEST,
    ensures
        key.key == KeyCode::ArrowLeft ==> (reaction matches KeyReaction::Resize(trace)
            && trace.input == TracedInput::Key(key.key)) && next.resize_mode_deadline == Some(
            (input.now + 10_000) as u64,
        ),
        key.key == KeyCode::Escape ==> reaction == KeyReaction::ExitResizeMode
            && next.resize_mode_deadline is None,
{
}

/// A tap that was switched on again takes no key for pressed; flags that an
/// event carries are taken over.
pub proof fn law_flags_are_taken_over(m: TapModel, target: Option<DisableHotkey>, input: TapInput)
    ensures
        ({
            let next = flags_synced(m, target, input);
            let is_key = input.kind == EventType::KeyDown || input.kind == EventType::KeyUp
                || input.kind == EventType::FlagsChanged;
            &&& input.reenabled ==> forall|k: KeyCode| !next.pressed_keys.contains_key(k)
            &&& !is_key ==> next.current_flags == input.flags
            &&& is_key && !input.reenabled ==> next == m
            &&& next.event_processing_enabled == m.event_processing_enabled
        }),
{
}

/// Something handles mouse moves while input is processed and indicators are
/// on or focus follows the mouse by the settings and at the moment.
pub proof fn law_mouse_moves_are_handled(m: TapModel)
    ensures
        handles_mouse_moves(m) <==> m.event_processing_enabled && (m.stack_line_enabled || (
        m.focus_follows_mouse_config_enabled && m.focus_follows_mouse_enabled)),
{
}

} // verus!
