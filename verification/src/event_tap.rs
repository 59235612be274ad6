//! The input processor: hotkeys, resize mode, focus-follows-mouse and cursor
//! hiding, decided from tapped events.
//!
//! Times are milliseconds of a monotonic clock; event timestamps are
//! nanoseconds. What a key means as a modifier and which modifiers are held
//! is read from the keyboard and handed in.

pub mod hotkeys;
pub mod input;

use vstd::prelude::*;

use crate::collections::IdMap;
use crate::event::Direction;
use crate::geometry::{Point, Rect};
use crate::ids::{Id, SpaceId};

verus! {

/// Mouse moves closer in time than this are sampled, in nanoseconds.
pub const MOUSE_MOVE_MIN_INTERVAL_NS_NORMAL: u64 = 8_000_000;

/// Mouse moves shorter than this are sampled, as a squared distance in
/// sub-points: two points.
pub const MOUSE_MOVE_MIN_DISTANCE_SQ_NORMAL: u64 = 262_144;

pub const MOUSE_MOVE_MIN_INTERVAL_NS_LOW_POWER: u64 = 16_000_000;

/// Three points.
pub const MOUSE_MOVE_MIN_DISTANCE_SQ_LOW_POWER: u64 = 589_824;

/// How long resize mode lasts without a key, in milliseconds.
pub const RESIZE_MODE_TIMEOUT: u64 = 10_000;

/// The latest time that the clock can show.
pub const LATEST: u64 = 0x7fff_ffff_ffff_ffff;

/// A key. Keys that no rule names are known by their number.
#[derive(Copy, Clone, Debug, PartialEq, Eq, Structural)]
pub enum KeyCode {
    ArrowLeft,
    ArrowRight,
    ArrowUp,
    ArrowDown,
    Escape,
    Enter,
    NumpadEnter,
    Other(u16),
}

impl Id for KeyCode {
    fn same(self, other: Self) -> (r: bool) {
        self == other
    }
}

/// A key with its meaning as a modifier: whether it is one, and the event
/// flag that shows it held.
#[derive(Copy, Clone, Debug, PartialEq, Eq, Structural)]
pub struct KeyTraits {
    pub key: KeyCode,
    pub is_modifier: bool,
    pub flag: Option<u64>,
}

/// Held or wanted modifier keys.
#[derive(Copy, Clone, Debug, PartialEq, Eq, Structural)]
pub struct Modifiers {
    pub shift_left: bool,
    pub shift_right: bool,
    pub control_left: bool,
    pub control_right: bool,
    pub alt_left: bool,
    pub alt_right: bool,
    pub meta_left: bool,
    pub meta_right: bool,
}

/// A key with modifiers.
#[derive(Copy, Clone, Debug, PartialEq, Eq, Structural)]
pub struct Hotkey {
    pub modifiers: Modifiers,
    pub key_code: KeyCode,
}

/// The hotkey that pauses focus-follows-mouse while it is held.
#[derive(Copy, Clone, Debug, PartialEq, Eq, Structural)]
pub struct DisableHotkey {
    pub modifiers: Modifiers,
    pub base: KeyTraits,
}

/// The state of the input processor.
pub struct State {
    pub hide_count: u32,
    pub mouse_hides_on_focus: bool,
    pub focus_follows_mouse_config_enabled: bool,
    pub screens: Vec<Rect>,
    pub event_processing_enabled: bool,
    pub focus_follows_mouse_enabled: bool,
    pub stack_line_enabled: bool,
    pub disable_hotkey_active: bool,
    pub low_power_mode: bool,
    /// The pressed keys, each with the event flag that shows it held.
    pub pressed_keys: IdMap<KeyCode, Option<u64>>,
    pub current_flags: u64,
    pub screen_spaces: Vec<(Rect, SpaceId)>,
    pub last_mouse_move_loc: Option<Point>,
    pub last_mouse_move_timestamp: u64,
    pub resize_mode_deadline: Option<u64>,
}

#[derive(Copy, Clone, Debug, PartialEq, Eq, Structural)]
pub enum ResizeModeAction {
    Resize(Direction),
    Exit,
}

/// Whether all bits of `flag` are set in `flags`.
pub open spec fn has_flag(flags: u64, flag: u64) -> bool {
    flags & flag == flag
}

/// Whether one kind of modifier is held as wanted: on the wanted side, on
/// either side if both are named, in any way if none is.
pub open spec fn side_ok(want_left: bool, want_right: bool, left: bool, right: bool) -> bool {
    if want_left && want_right {
        left || right
    } else {
        (want_left ==> left) && (want_right ==> right)
    }
}

pub open spec fn modifiers_ok(wanted: Modifiers, held: Modifiers) -> bool {
    &&& side_ok(wanted.shift_left, wanted.shift_right, held.shift_left, held.shift_right)
    &&& side_ok(wanted.control_left, wanted.control_right, held.control_left, held.control_right)
    &&& side_ok(wanted.alt_left, wanted.alt_right, held.alt_left, held.alt_right)
    &&& side_ok(wanted.meta_left, wanted.meta_right, held.meta_left, held.meta_right)
}

fn side_holds(want_left: bool, want_right: bool, left: bool, right: bool) -> (r: bool)
    ensures
        r == side_ok(want_left, want_right, left, right),
{
    if want_left && want_right {
        left || right
    } else if want_left {
        left
    } else if want_right {
        right
    } else {
        true
    }
}

/// The direction that a key resizes in.
pub open spec fn resize_direction(key: KeyCode) -> Option<Direction> {
    match key {
        KeyCode::ArrowLeft => Some(Direction::Left),
        KeyCode::ArrowRight => Some(Direction::Right),
        KeyCode::ArrowUp => Some(Direction::Up),
        KeyCode::ArrowDown => Some(Direction::Down),
        _ => None,
    }
}

pub open spec fn leaves_resize_mode(key: KeyCode) -> bool {
    key == KeyCode::Escape || key == KeyCode::Enter || key == KeyCode::NumpadEnter
}

/// What a key means in resize mode, and the deadline afterwards.
pub open spec fn resize_step(deadline: Option<u64>, key: KeyCode, now: u64) -> (
    Option<u64>,
    Option<ResizeModeAction>,
) {
    match deadline {
        None => (None, None),
        Some(d) => if now > d {
            (None, None)
        } else {
            match resize_direction(key) {
                Some(direction) => (
                    Some((now + RESIZE_MODE_TIMEOUT) as u64),
                    Some(ResizeModeAction::Resize(direction)),
                ),
                None => (
                    None,
                    if leaves_resize_mode(key) {
                        Some(ResizeModeAction::Exit)
                    } else {
                        None
                    },
                ),
            }
        },
    }
}

pub open spec fn distance_sq(a: Point, b: Point) -> int {
    (a.x - b.x) * (a.x - b.x) + (a.y - b.y) * (a.y - b.y)
}

pub open spec fn elapsed(from: u64, to: u64) -> int {
    if to < from {
        0
    } else {
        to - from
    }
}

/// The pressed keys that the flags do not contradict.
pub open spec fn confirmed_keys(pressed: Map<KeyCode, Option<u64>>, flags: u64) -> Map<
    KeyCode,
    Option<u64>,
> {
    pressed.restrict(
        Set::new(|k: KeyCode| pressed[k] matches Some(flag) ==> has_flag(flags, flag)),
    )
}

/// The pause hotkey is held.
pub open spec fn hotkey_held(
    pressed: Map<KeyCode, Option<u64>>,
    flags: u64,
    target: DisableHotkey,
    held: Modifiers,
) -> bool {
    modifiers_ok(target.modifiers, held) && if target.base.is_modifier {
        target.base.flag matches Some(flag) && has_flag(flags, flag)
    } else {
        pressed.contains_key(target.base.key)
    }
}

impl Default for State {
    fn default() -> (r: Self)
        ensures
            r.hide_count == 0,
            !r.mouse_hides_on_focus,
            !r.focus_follows_mouse_config_enabled,
            r.screens@ == Seq::<Rect>::empty(),
            !r.event_processing_enabled,
            r.focus_follows_mouse_enabled,
            !r.stack_line_enabled,
            !r.disable_hotkey_active,
            !r.low_power_mode,
            r.pressed_keys@ == Map::<KeyCode, Option<u64>>::empty(),
            r.current_flags == 0,
            r.screen_spaces@ == Seq::<(Rect, SpaceId)>::empty(),
            r.last_mouse_move_loc is None,
            r.last_mouse_move_timestamp == 0,
            r.resize_mode_deadline is None,
    {
        State {
            hide_count: 0,
            mouse_hides_on_focus: false,
            focus_follows_mouse_config_enabled: false,
            screens: Vec::new(),
            event_processing_enabled: false,
            focus_follows_mouse_enabled: true,
            stack_line_enabled: false,
            disable_hotkey_active: false,
            low_power_mode: false,
            pressed_keys: IdMap::new(),
            current_flags: 0,
            screen_spaces: Vec::new(),
            last_mouse_move_loc: None,
            last_mouse_move_timestamp: 0,
            resize_mode_deadline: None,
        }
    }
}

impl State {
    pub fn enter_resize_mode(&mut self, now: u64)
        requires
            now <= LATEST,
        ensures
            *final(self) == (State {
                resize_mode_deadline: Some((now + RESIZE_MODE_TIMEOUT) as u64),
                ..*old(self)
            }),
    {
        self.resize_mode_deadline = Some(now + RESIZE_MODE_TIMEOUT);
    }

    pub fn resize_mode_action(&mut self, key_code: KeyCode, now: u64) -> (r: Option<
        ResizeModeAction,
    >)
        requires
            now <= LATEST,
        ensures
            *final(self) == (State {
                resize_mode_deadline: resize_step(
                    old(self).resize_mode_deadline,
                    key_code,
                    now,
                ).0,
                ..*old(self)
            }),
            r == resize_step(old(self).resize_mode_deadline, key_code, now).1,
    {
        let deadline: u64 = match self.resize_mode_deadline {
            Some(d) => d,
            None => {
                return None;
            },
        };
        if now > deadline {
            self.resize_mode_deadline = None;
            return None;
        }
        let direction = match key_code {
            KeyCode::ArrowLeft => Direction::Left,
            KeyCode::ArrowRight => Direction::Right,
            KeyCode::ArrowUp => Direction::Up,
            KeyCode::ArrowDown => Direction::Down,
            KeyCode::Escape | KeyCode::Enter | KeyCode::NumpadEnter => {
                self.resize_mode_deadline = None;
                return Some(ResizeModeAction::Exit);
            },
            _ => {
                self.resize_mode_deadline = None;
                return None;
            },
        };
        self.resize_mode_deadline = Some(now + RESIZE_MODE_TIMEOUT);
        Some(ResizeModeAction::Resize(direction))
    }

    /// Counts a request to hide the cursor; the caller hides it.
    pub fn hide_mouse(&mut self)
        requires
            old(self).hide_count < u32::MAX,
        ensures
            *final(self) == (State { hide_count: (old(self).hide_count + 1) as u32, ..*old(self) }),
    {
        self.hide_count = self.hide_count + 1;
    }

    /// Takes back all requests to hide the cursor; gives how often the caller
    /// shows it.
    pub fn show_mouse(&mut self) -> (r: u32)
        ensures
            *final(self) == (State { hide_count: 0, ..*old(self) }),
            r == old(self).hide_count,
    {
        let shows: u32 = self.hide_count;
        self.hide_count = 0;
        shows
    }

    /// Whether a mouse move is worth reporting: it is far enough or late
    /// enough after the last one that was.
    pub fn should_sample_mouse_move(
        &mut self,
        loc: Point,
        timestamp: u64,
        sampling: (u64, u64),
    ) -> (r: bool)
        requires
            sampling.1 <= 0x100_0000_0000,
        ensures
            r <==> match old(self).last_mouse_move_loc {
                None => true,
                Some(last) => distance_sq(loc, last) >= sampling.1 || elapsed(
                    old(self).last_mouse_move_timestamp,
                    timestamp,
                ) >= sampling.0,
            },
            *final(self) == if r {
                State {
                    last_mouse_move_loc: Some(loc),
                    last_mouse_move_timestamp: timestamp,
                    ..*old(self)
                }
            } else {
                *old(self)
            },
    {
        if let Some(last) = self.last_mouse_move_loc {
            let passed: u64 = timestamp.saturating_sub(self.last_mouse_move_timestamp);
            if closer_than(loc, last, sampling.1) && passed < sampling.0 {
                return false;
            }
        }
        self.last_mouse_move_loc = Some(loc);
        self.last_mouse_move_timestamp = timestamp;
        true
    }

    pub fn note_key_down(&mut self, key: KeyTraits)
        ensures
            *final(self) == (State { pressed_keys: final(self).pressed_keys, ..*old(self) }),
            final(self).pressed_keys@ == old(self).pressed_keys@.insert(key.key, key.flag),
    {
        let _ = self.pressed_keys.insert(key.key, key.flag);
    }

    pub fn note_key_up(&mut self, key: KeyTraits)
        ensures
            *final(self) == (State { pressed_keys: final(self).pressed_keys, ..*old(self) }),
            final(self).pressed_keys@ == old(self).pressed_keys@.remove(key.key),
    {
        let _ = self.pressed_keys.remove(key.key);
    }

    /// A modifier key changed: whether it is pressed is read from the flags,
    /// not from the tracked keys.
    pub fn note_flags_changed(&mut self, key: KeyTraits)
        ensures
            *final(self) == (State { pressed_keys: final(self).pressed_keys, ..*old(self) }),
            final(self).pressed_keys@ == match key.flag {
                Some(flag) if key.is_modifier => if has_flag(old(self).current_flags, flag) {
                    old(self).pressed_keys@.insert(key.key, key.flag)
                } else {
                    old(self).pressed_keys@.remove(key.key)
                },
                _ => old(self).pressed_keys@,
            },
    {
        if !key.is_modifier {
            return;
        }
        if let Some(flag) = key.flag {
            if self.current_flags & flag == flag {
                let _ = self.pressed_keys.insert(key.key, key.flag);
            } else {
                let _ = self.pressed_keys.remove(key.key);
            }
        }
    }

    /// Forgets pressed modifier keys that the flags do not show.
    pub fn reconcile_modifier_keys(&mut self)
        ensures
            *final(self) == (State { pressed_keys: final(self).pressed_keys, ..*old(self) }),
            final(self).pressed_keys@ == confirmed_keys(
                old(self).pressed_keys@,
                old(self).current_flags,
            ),
    {
        let ghost before = self.pressed_keys@;
        let keys: Vec<KeyCode> = self.pressed_keys.keys();
        let flags: u64 = self.current_flags;
        let mut i: usize = 0;
        assert forall|j: int| 0 <= j < keys@.len() implies before.contains_key(
            #[trigger] keys@[j],
        ) by {
            assert(keys@.contains(keys@[j]));
        }
        while i < keys.len()
            invariant
                i <= keys@.len(),
                keys@.no_duplicates(),
                forall|k: KeyCode| #[trigger] keys@.contains(k) <==> before.contains_key(k),
                flags == old(self).current_flags,
                *self == (State { pressed_keys: self.pressed_keys, ..*old(self) }),
                forall|k: KeyCode| #[trigger]
                    self.pressed_keys@.contains_key(k) ==> before.contains_key(k)
                        && self.pressed_keys@[k] == before[k],
                forall|j: int|
                    0 <= j < i ==> (self.pressed_keys@.contains_key(#[trigger] keys@[j])
                        <==> confirmed_keys(before, flags).contains_key(keys@[j])),
                forall|j: int|
                    i <= j < keys@.len() ==> self.pressed_keys@.contains_key(#[trigger] keys@[j]),
            decreases keys@.len() - i,
        {
            let key: KeyCode = keys[i];
            assert(keys@.contains(key));
            let stale: bool = match self.pressed_keys.get(key) {
                Some(Some(flag)) => flags & *flag != *flag,
                _ => false,
            };
            if stale {
                let _ = self.pressed_keys.remove(key);
            }
            i += 1;
        }
        proof {
            let target = confirmed_keys(before, flags);
            assert forall|k: KeyCode| #[trigger]
                self.pressed_keys@.contains_key(k) <==> target.contains_key(k) by {
                if before.contains_key(k) {
                    assert(keys@.contains(k));
                    let j = choose|j: int| 0 <= j < keys@.len() && keys@[j] == k;
                    assert(self.pressed_keys@.contains_key(keys@[j]) <==> target.contains_key(
                        keys@[j],
                    ));
                }
            }
            assert(self.pressed_keys@ =~= target);
        }
    }

    /// Whether the pause hotkey is held, given the modifiers that are.
    pub fn compute_disable_hotkey_active(&self, target: &DisableHotkey, held: Modifiers) -> (r:
        bool)
        ensures
            r == hotkey_held(self.pressed_keys@, self.current_flags, *target, held),
    {
        let t = target.modifiers;
        let ok = side_holds(t.shift_left, t.shift_right, held.shift_left, held.shift_right)
            && side_holds(t.control_left, t.control_right, held.control_left, held.control_right)
            && side_holds(t.alt_left, t.alt_right, held.alt_left, held.alt_right) && side_holds(
            t.meta_left,
            t.meta_right,
            held.meta_left,
            held.meta_right,
        );
        if !ok {
            return false;
        }
        self.base_key_active(target.base)
    }

    fn base_key_active(&self, base: KeyTraits) -> (r: bool)
        ensures
            r == if base.is_modifier {
                base.flag matches Some(flag) && has_flag(self.current_flags, flag)
            } else {
                self.pressed_keys@.contains_key(base.key)
            },
    {
        if base.is_modifier {
            match base.flag {
                Some(flag) => self.current_flags & flag == flag,
                None => false,
            }
        } else {
            self.pressed_keys.contains_key(base.key)
        }
    }

    /// Leaves resize mode, and forgets the last mouse move if `enabled`.
    pub fn reset(&mut self, enabled: bool)
        ensures
            final(self)@ == old(self)@.reset(enabled),
    {
        self.resize_mode_deadline = None;
        if enabled {
            self.last_mouse_move_loc = None;
            self.last_mouse_move_timestamp = 0;
        }
    }

    /// Recomputes whether the pause hotkey is held; a release resets the state.
    pub fn refresh_disable_hotkey_state(
        &mut self,
        target: &Option<DisableHotkey>,
        held: Modifiers,
    )
        ensures
            final(self)@ == old(self)@.refreshed(*target, held),
    {
        if let Some(target) = target {
            let prev_active: bool = self.disable_hotkey_active;
            self.disable_hotkey_active = self.compute_disable_hotkey_active(target, held);
            if self.disable_hotkey_active != prev_active {
                if !self.disable_hotkey_active {
                    self.reset(true);
                }
            }
        }
    }
}

/// The mathematical content of a [`State`].
#[verifier::ext_equal]
pub struct TapModel {
    pub hide_count: u32,
    pub mouse_hides_on_focus: bool,
    pub focus_follows_mouse_config_enabled: bool,
    pub screens: Seq<Rect>,
    pub event_processing_enabled: bool,
    pub focus_follows_mouse_enabled: bool,
    pub stack_line_enabled: bool,
    pub disable_hotkey_active: bool,
    pub low_power_mode: bool,
    pub pressed_keys: Map<KeyCode, Option<u64>>,
    pub current_flags: u64,
    pub screen_spaces: Seq<(Rect, SpaceId)>,
    pub last_mouse_move_loc: Option<Point>,
    pub last_mouse_move_timestamp: u64,
    pub resize_mode_deadline: Option<u64>,
}

impl View for State {
    type V = TapModel;

    open spec fn view(&self) -> TapModel {
        TapModel {
            hide_count: self.hide_count,
            mouse_hides_on_focus: self.mouse_hides_on_focus,
            focus_follows_mouse_config_enabled: self.focus_follows_mouse_config_enabled,
            screens: self.screens@,
            event_processing_enabled: self.event_processing_enabled,
            focus_follows_mouse_enabled: self.focus_follows_mouse_enabled,
            stack_line_enabled: self.stack_line_enabled,
            disable_hotkey_active: self.disable_hotkey_active,
            low_power_mode: self.low_power_mode,
            pressed_keys: self.pressed_keys@,
            current_flags: self.current_flags,
            screen_spaces: self.screen_spaces@,
            last_mouse_move_loc: self.last_mouse_move_loc,
            last_mouse_move_timestamp: self.last_mouse_move_timestamp,
            resize_mode_deadline: self.resize_mode_deadline,
        }
    }
}

impl TapModel {
    pub open spec fn reset(self, enabled: bool) -> TapModel {
        TapModel {
            resize_mode_deadline: None,
            last_mouse_move_loc: if enabled {
                None
            } else {
                self.last_mouse_move_loc
            },
            last_mouse_move_timestamp: if enabled {
                0
            } else {
                self.last_mouse_move_timestamp
            },
            ..self
        }
    }

    /// Once the pause hotkey was looked at again.
    pub open spec fn refreshed(self, target: Option<DisableHotkey>, held: Modifiers) -> TapModel {
        match target {
            None => self,
            Some(t) => {
                let active = hotkey_held(self.pressed_keys, self.current_flags, t, held);
                let next = TapModel { disable_hotkey_active: active, ..self };
                if self.disable_hotkey_active && !active {
                    next.reset(true)
                } else {
                    next
                }
            },
        }
    }
}

/// Whether two points are closer than a squared distance.
fn closer_than(a: Point, b: Point, limit_sq: u64) -> (r: bool)
    requires
        limit_sq <= 0x100_0000_0000,
    ensures
        r == (distance_sq(a, b) < limit_sq),
{
    let dx: i128 = a.x as i128 - b.x as i128;
    let dy: i128 = a.y as i128 - b.y as i128;
    if dx <= -0x10_0000 || dx >= 0x10_0000 || dy <= -0x10_0000 || dy >= 0x10_0000 {
        proof {
            assert(dx * dx >= 0 && dy * dy >= 0) by (nonlinear_arith);
            if dx <= -0x10_0000 || dx >= 0x10_0000 {
                assert(dx * dx >= 0x100_0000_0000) by (nonlinear_arith)
                    requires
                        dx <= -0x10_0000 || dx >= 0x10_0000,
                ;
            } else {
                assert(dy * dy >= 0x100_0000_0000) by (nonlinear_arith)
                    requires
                        dy <= -0x10_0000 || dy >= 0x10_0000,
                ;
            }
        }
        return false;
    }
    proof {
        assert(0 <= dx * dx <= 0x100_0000_0000) by (nonlinear_arith)
            requires
                -0x10_0000 < dx < 0x10_0000,
        ;
        assert(0 <= dy * dy <= 0x100_0000_0000) by (nonlinear_arith)
            requires
                -0x10_0000 < dy < 0x10_0000,
        ;
    }
    dx * dx + dy * dy < limit_sq as i128
}

/// The sampling interval and squared distance for mouse moves.
pub fn mouse_move_sampling_profile(low_power_mode: bool) -> (r: (u64, u64))
    ensures
        r == if low_power_mode {
            (MOUSE_MOVE_MIN_INTERVAL_NS_LOW_POWER, MOUSE_MOVE_MIN_DISTANCE_SQ_LOW_POWER)
        } else {
            (MOUSE_MOVE_MIN_INTERVAL_NS_NORMAL, MOUSE_MOVE_MIN_DISTANCE_SQ_NORMAL)
        },
{
    if low_power_mode {
        (MOUSE_MOVE_MIN_INTERVAL_NS_LOW_POWER, MOUSE_MOVE_MIN_DISTANCE_SQ_LOW_POWER)
    } else {
        (MOUSE_MOVE_MIN_INTERVAL_NS_NORMAL, MOUSE_MOVE_MIN_DISTANCE_SQ_NORMAL)
    }
}

/// The kinds of events that a tap can see.
#[derive(Copy, Clone, Debug, PartialEq, Eq, Structural)]
pub enum EventType {
    LeftMouseDown,
    LeftMouseUp,
    RightMouseDown,
    RightMouseUp,
    MouseMoved,
    LeftMouseDragged,
    RightMouseDragged,
    KeyDown,
    KeyUp,
    FlagsChanged,
    Other,
}

/// The bit of an event kind in a tap's mask.
pub open spec fn mask_bit(kind: EventType) -> u64 {
    match kind {
        EventType::LeftMouseDown => 0x2,
        EventType::LeftMouseUp => 0x4,
        EventType::RightMouseDown => 0x8,
        EventType::RightMouseUp => 0x10,
        EventType::MouseMoved => 0x20,
        EventType::LeftMouseDragged => 0x40,
        EventType::RightMouseDragged => 0x80,
        EventType::KeyDown => 0x400,
        EventType::KeyUp => 0x800,
        EventType::FlagsChanged => 0x1000,
        EventType::Other => 0,
    }
}

/// Whether a tap is to see events of a kind: clicks and drags always, moves
/// and keys if something handles them.
pub open spec fn tapped(kind: EventType, keyboard_enabled: bool, mouse_move_enabled: bool) -> bool {
    match kind {
        EventType::MouseMoved => mouse_move_enabled,
        EventType::KeyDown | EventType::KeyUp | EventType::FlagsChanged => keyboard_enabled,
        EventType::Other => false,
        _ => true,
    }
}

/// The mask of a tap.
pub fn build_event_mask(keyboard_enabled: bool, mouse_move_enabled: bool) -> (r: u64)
    ensures
        r == 0xde + (if mouse_move_enabled {
            0x20int
        } else {
            0
        }) + (if keyboard_enabled {
            0x1c00int
        } else {
            0
        }),
        forall|kind: EventType|
            kind != EventType::Other ==> (#[trigger] mask_bit(kind) & r != 0 <==> tapped(
                kind,
                keyboard_enabled,
                mouse_move_enabled,
            )),
{
    let mut m: u64 = 0x2 | 0x4 | 0x8 | 0x10 | 0x40 | 0x80;
    assert(0x2u64 | 0x4u64 | 0x8u64 | 0x10u64 | 0x40u64 | 0x80u64 == 0xdeu64) by (bit_vector);
    if mouse_move_enabled {
        m = m | 0x20;
        assert(0xdeu64 | 0x20u64 == 0xfeu64) by (bit_vector);
    }
    if keyboard_enabled {
        m = m | 0x400 | 0x800 | 0x1000;
        assert(0xdeu64 | 0x400u64 | 0x800u64 | 0x1000u64 == 0x1cdeu64) by (bit_vector);
        assert(0xfeu64 | 0x400u64 | 0x800u64 | 0x1000u64 == 0x1cfeu64) by (bit_vector);
    }
    proof {
        lemma_mask_bits(m);
    }
    m
}

proof fn lemma_mask_bits(m: u64)
    requires
        m == 0xde || m == 0xfe || m == 0x1cde || m == 0x1cfe,
    ensures
        0x2u64 & m != 0,
        0x4u64 & m != 0,
        0x8u64 & m != 0,
        0x10u64 & m != 0,
        0x40u64 & m != 0,
        0x80u64 & m != 0,
        0x20u64 & m != 0 <==> m == 0xfe || m == 0x1cfe,
        0x400u64 & m != 0 <==> m == 0x1cde || m == 0x1cfe,
        0x800u64 & m != 0 <==> m == 0x1cde || m == 0x1cfe,
        0x1000u64 & m != 0 <==> m == 0x1cde || m == 0x1cfe,
{
    assert(0x2u64 & m != 0 && 0x4u64 & m != 0 && 0x8u64 & m != 0 && 0x10u64 & m != 0 && 0x40u64 & m
        != 0 && 0x80u64 & m != 0 && (0x20u64 & m != 0 <==> m == 0xfe || m == 0x1cfe) && (0x400u64
        & m != 0 <==> m == 0x1cde || m == 0x1cfe) && (0x800u64 & m != 0 <==> m == 0x1cde || m
        == 0x1cfe) && (0x1000u64 & m != 0 <==> m == 0x1cde || m == 0x1cfe)) by (bit_vector)
        requires
            m == 0xde || m == 0xfe || m == 0x1cde || m == 0x1cfe,
    ;
}

/// A modifier wanted on one side has to be held there; wanted on both, either
/// side will do; not wanted, it may be held or not.
pub proof fn law_modifier_sides(left: bool, right: bool)
    ensures
        side_ok(true, false, left, right) <==> left,
        side_ok(false, true, left, right) <==> right,
        side_ok(true, true, left, right) <==> left || right,
        side_ok(false, false, left, right),
{
}

/// Modifiers are held as wanted if each of the four kinds is.
pub proof fn law_all_wanted_modifiers_are_needed(wanted: Modifiers, held: Modifiers)
    ensures
        modifiers_ok(wanted, held) ==> (wanted.shift_left && !wanted.shift_right ==> held.shift_left)
            && (wanted.control_left && !wanted.control_right ==> held.control_left) && (
        wanted.alt_left && !wanted.alt_right ==> held.alt_left) && (wanted.meta_left
            && !wanted.meta_right ==> held.meta_left),
        modifiers_ok(wanted, held) ==> (wanted.shift_right && !wanted.shift_left
            ==> held.shift_right) && (wanted.control_right && !wanted.control_left
            ==> held.control_right) && (wanted.alt_right && !wanted.alt_left ==> held.alt_right) && (
        wanted.meta_right && !wanted.meta_left ==> held.meta_right),
        modifiers_ok(wanted, wanted),
{
}

/// Each arrow key resizes in its own direction, and no other key does.
pub proof fn law_arrows_resize_in_their_direction(key: KeyCode)
    ensures
        resize_direction(key) == Some(Direction::Left) <==> key == KeyCode::ArrowLeft,
        resize_direction(key) == Some(Direction::Right) <==> key == KeyCode::ArrowRight,
        resize_direction(key) == Some(Direction::Up) <==> key == KeyCode::ArrowUp,
        resize_direction(key) == Some(Direction::Down) <==> key == KeyCode::ArrowDown,
{
}

/// In resize mode an arrow resizes and gives ten more seconds; escape and
/// enter leave the mode; any other key ends it without a word; and after the
/// deadline, or outside the mode, no key means anything.
pub proof fn law_resize_mode(deadline: u64, key: KeyCode, now: u64)
    requires
        now <= LATEST,
    ensures
        ({
            let arrow = key == KeyCode::ArrowLeft || key == KeyCode::ArrowRight || key
                == KeyCode::ArrowUp || key == KeyCode::ArrowDown;
            let leaves = key == KeyCode::Escape || key == KeyCode::Enter || key
                == KeyCode::NumpadEnter;
            let (next, action) = resize_step(Some(deadline), key, now);
            &&& now <= deadline && arrow ==> next == Some((now + 10_000) as u64) && (action
                matches Some(ResizeModeAction::Resize(_)))
            &&& now <= deadline && leaves ==> next is None && action == Some(ResizeModeAction::Exit)
            &&& now <= deadline && !arrow && !leaves ==> next is None && action is None
            &&& now > deadline ==> next is None && action is None
            &&& resize_step(None, key, now) == (None::<u64>, None::<ResizeModeAction>)
        }),
{
}

/// A pressed key is forgotten if it is a modifier that the flags no longer
/// show; every other stays.
pub proof fn law_flags_take_back_modifiers(
    pressed: Map<KeyCode, Option<u64>>,
    flags: u64,
    key: KeyCode,
    flag: u64,
)
    requires
        pressed.contains_key(key),
    ensures
        pressed[key] is None ==> confirmed_keys(pressed, flags).contains_key(key),
        pressed[key] == Some(flag) ==> (confirmed_keys(pressed, flags).contains_key(key) <==> flags
            & flag == flag),
        confirmed_keys(pressed, flags).contains_key(key) ==> confirmed_keys(pressed, flags)[key]
            == pressed[key],
{
}

/// The pause hotkey is held while its modifiers are and its key is: by the
/// flags for a modifier, by what is pressed for any other key.
pub proof fn law_pause_hotkey_is_held(
    pressed: Map<KeyCode, Option<u64>>,
    flags: u64,
    flag: u64,
    target: DisableHotkey,
    held: Modifiers,
)
    ensures
        !modifiers_ok(target.modifiers, held) ==> !hotkey_held(pressed, flags, target, held),
        modifiers_ok(target.modifiers, held) && !target.base.is_modifier ==> (hotkey_held(
            pressed,
            flags,
            target,
            held,
        ) <==> pressed.contains_key(target.base.key)),
        modifiers_ok(target.modifiers, held) && target.base.is_modifier && target.base.flag == Some(
            flag,
        ) ==> (hotkey_held(pressed, flags, target, held) <==> flags & flag == flag),
{
}

/// A reset ends resize mode; when things are switched on, the next mouse move
/// counts as the first.
pub proof fn law_reset_forgets(m: TapModel)
    ensures
        m.reset(true).resize_mode_deadline is None,
        m.reset(false).resize_mode_deadline is None,
        m.reset(true).last_mouse_move_loc is None,
        m.reset(false).last_mouse_move_loc == m.last_mouse_move_loc,
        m.reset(true).pressed_keys == m.pressed_keys,
        m.reset(true).hide_count == m.hide_count,
{
}

/// Letting go of the pause hotkey has mouse moves count anew.
pub proof fn law_released_pause_hotkey_resets(m: TapModel, target: DisableHotkey, held: Modifiers)
    ensures
        ({
            let next = m.refreshed(Some(target), held);
            let active = hotkey_held(m.pressed_keys, m.current_flags, target, held);
            &&& next.disable_hotkey_active == active
            &&& m.disable_hotkey_active && !active ==> next.last_mouse_move_loc is None
            &&& !(m.disable_hotkey_active && !active) ==> next.last_mouse_move_loc
                == m.last_mouse_move_loc && next.resize_mode_deadline == m.resize_mode_deadline
            &&& m.refreshed(None, held) == m
        }),
{
}

/// A tap always sees clicks and drags, sees moves and keys if something
/// handles them, and nothing else.
pub proof fn law_clicks_are_always_tapped(kind: EventType, keyboard: bool, moves: bool)
    ensures
        kind == EventType::LeftMouseDown || kind == EventType::LeftMouseUp || kind
            == EventType::RightMouseDown || kind == EventType::RightMouseUp || kind
            == EventType::LeftMouseDragged || kind == EventType::RightMouseDragged ==> tapped(
            kind,
            keyboard,
            moves,
        ),
        kind == EventType::MouseMoved ==> (tapped(kind, keyboard, moves) <==> moves),
        kind == EventType::KeyDown || kind == EventType::KeyUp || kind == EventType::FlagsChanged
            ==> (tapped(kind, keyboard, moves) <==> keyboard),
{
}

} // verus!
