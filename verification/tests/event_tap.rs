//! The input processor.

use lift::event::{Command, Direction, Event, LayoutCommand, TracedInput};
use lift::event_tap::hotkeys::HotkeyTable;
use lift::event_tap::input::{
    EventTap, KeyReaction, Request, StackLineInput, TapInput, TapSettings,
};
use lift::event_tap::{
    build_event_mask, mouse_move_sampling_profile, DisableHotkey, EventType, Hotkey, KeyCode,
    KeyTraits, Modifiers, ResizeModeAction, State, RESIZE_MODE_TIMEOUT,
};
use lift::geometry::{Point, GRID};
use lift::wm_controller::{ExecCmd, WmCmd, WmCommand};

const NO_MODIFIERS: Modifiers = Modifiers {
    shift_left: false,
    shift_right: false,
    control_left: false,
    control_right: false,
    alt_left: false,
    alt_right: false,
    meta_left: false,
    meta_right: false,
};

fn settings() -> TapSettings {
    TapSettings {
        mouse_hides_on_focus: false,
        focus_follows_mouse: true,
        stack_line_enabled: true,
        disable_hotkey: None,
    }
}

fn plain(n: u16) -> KeyTraits {
    KeyTraits { key: KeyCode::Other(n), is_modifier: false, flag: None }
}

fn input(kind: EventType) -> TapInput {
    TapInput {
        kind,
        flags: 0,
        reenabled: false,
        location: Point { x: 0, y: 0 },
        timestamp: 0,
        now: 0,
        hits_indicator: false,
        occluded: false,
        window: None,
        key: None,
        held_by_flags: NO_MODIFIERS,
        held: NO_MODIFIERS,
    }
}

#[test]
fn resize_mode_maps_arrows_and_refreshes_its_deadline() {
    let mut state = State::default();
    let now = 1_000_000;
    state.enter_resize_mode(now);

    assert_eq!(
        state.resize_mode_action(KeyCode::ArrowLeft, now + 9_000),
        Some(ResizeModeAction::Resize(Direction::Left))
    );
    assert_eq!(
        state.resize_mode_action(KeyCode::ArrowDown, now + 18_000),
        Some(ResizeModeAction::Resize(Direction::Down))
    );
}

#[test]
fn resize_mode_exits_explicitly_or_after_inactivity() {
    let mut state = State::default();
    let now = 1_000_000;
    state.enter_resize_mode(now);
    assert_eq!(
        state.resize_mode_action(KeyCode::Escape, now),
        Some(ResizeModeAction::Exit)
    );
    assert!(state.resize_mode_deadline.is_none());

    state.enter_resize_mode(now);
    assert_eq!(
        state.resize_mode_action(KeyCode::ArrowRight, now + RESIZE_MODE_TIMEOUT),
        Some(ResizeModeAction::Resize(Direction::Right))
    );
    assert_eq!(
        state.resize_mode_action(
            KeyCode::ArrowRight,
            now + RESIZE_MODE_TIMEOUT + RESIZE_MODE_TIMEOUT + 1,
        ),
        None
    );
    assert!(state.resize_mode_deadline.is_none());
}

#[test]
fn other_keys_leave_resize_mode_without_effect() {
    let mut state = State::default();
    state.enter_resize_mode(0);
    assert_eq!(state.resize_mode_action(KeyCode::Other(5), 1), None);
    assert!(state.resize_mode_deadline.is_none());
    assert_eq!(state.resize_mode_action(KeyCode::ArrowUp, 2), None);
}

#[test]
fn the_mask_has_the_events_that_are_handled() {
    let buttons = (1 << 1) | (1 << 2) | (1 << 3) | (1 << 4) | (1 << 6) | (1 << 7);
    assert_eq!(build_event_mask(false, false), buttons);
    assert_eq!(build_event_mask(false, true), buttons | (1 << 5));
    assert_eq!(
        build_event_mask(true, false),
        buttons | (1 << 10) | (1 << 11) | (1 << 12)
    );
}

#[test]
fn mouse_moves_are_sampled_by_time_and_distance() {
    assert_eq!(mouse_move_sampling_profile(false), (8_000_000, 262_144));
    assert_eq!(mouse_move_sampling_profile(true), (16_000_000, 589_824));
}

#[test]
fn the_cursor_comes_back_as_often_as_it_was_hidden() {
    let mut state = State::default();
    state.hide_mouse();
    state.hide_mouse();
    assert_eq!(state.show_mouse(), 2);
    assert_eq!(state.show_mouse(), 0);
}

#[test]
fn hotkeys_give_their_commands() {
    let mut tap = EventTap::new(settings(), false, NO_MODIFIERS);
    let hotkey = Hotkey { modifiers: NO_MODIFIERS, key_code: KeyCode::Other(4) };
    let specs = vec![
        ("h".to_string(), WmCommand::Wm(WmCmd::NextWorkspace)),
        (
            "h".to_string(),
            WmCommand::ReactorCommand(Command::Layout(LayoutCommand::NextWindow)),
        ),
    ];
    let effects = tap.on_request(Request::SetHotkeys(specs), 0, NO_MODIFIERS);
    assert!(effects.resolve_hotkeys);
    tap.install_hotkeys(&vec![vec![hotkey], vec![hotkey]]);
    assert_eq!(tap.hotkeys.get(hotkey), Some(&vec![0, 1]));

    let mut press = input(EventType::KeyDown);
    press.key = Some(plain(4));
    match tap.on_event(&press) {
        reaction => {
            assert!(!reaction.pass);
            match reaction.key {
                KeyReaction::Commands { at, traces } => {
                    assert_eq!(at, vec![0, 1]);
                    assert_eq!(traces.len(), 2);
                    for (n, trace) in traces.iter().enumerate() {
                        assert_eq!(trace.source, "hotkey");
                        assert_eq!(trace.input, TracedInput::Hotkey(hotkey));
                        assert!(trace.command.same(&tap.hotkey_specs[n].1));
                    }
                }
                _ => panic!("no commands were given"),
            }
        }
    }
    press.key = Some(plain(5));
    let reaction = tap.on_event(&press);
    assert!(reaction.pass);
    assert!(matches!(reaction.key, KeyReaction::Pass));
}

#[test]
fn resize_mode_is_entered_by_request_and_resizes() {
    let mut tap = EventTap::new(settings(), false, NO_MODIFIERS);
    tap.on_request(Request::EnterResizeMode, 5_000, NO_MODIFIERS);
    let mut press = input(EventType::KeyDown);
    press.now = 6_000;
    press.key = Some(KeyTraits { key: KeyCode::ArrowUp, is_modifier: false, flag: None });
    let reaction = tap.on_event(&press);
    assert!(!reaction.pass);
    match reaction.key {
        KeyReaction::Resize(trace) => {
            assert_eq!(trace.source, "resize_mode");
            assert_eq!(trace.input, TracedInput::Key(KeyCode::ArrowUp));
            assert!(trace.command.same(&WmCommand::ReactorCommand(Command::Layout(
                LayoutCommand::ResizeWindowDirectional(Direction::Up)
            ))));
        }
        _ => panic!("nothing was resized"),
    }
    press.key = Some(KeyTraits { key: KeyCode::Enter, is_modifier: false, flag: None });
    assert!(matches!(tap.on_event(&press).key, KeyReaction::ExitResizeMode));
}

#[test]
fn indicator_clicks_are_swallowed() {
    let mut tap = EventTap::new(settings(), false, NO_MODIFIERS);
    tap.on_request(Request::SetEventProcessing(true), 0, NO_MODIFIERS);
    let mut click = input(EventType::LeftMouseDown);
    click.hits_indicator = true;
    let reaction = tap.on_event(&click);
    assert!(!reaction.pass);
    assert!(matches!(reaction.stack_line, Some(StackLineInput::MouseDown(_))));
    click.occluded = true;
    let reaction = tap.on_event(&click);
    assert!(reaction.pass);
    assert!(matches!(reaction.event, Some(Event::MouseDown(None, _))));
}

#[test]
fn the_pause_hotkey_silences_mouse_moves() {
    let shift = 1 << 17;
    let mut paused = settings();
    paused.disable_hotkey = Some(DisableHotkey {
        modifiers: NO_MODIFIERS,
        base: KeyTraits { key: KeyCode::Other(56), is_modifier: true, flag: Some(shift) },
    });
    let mut tap = EventTap::new(paused, false, NO_MODIFIERS);
    tap.on_request(Request::SetEventProcessing(true), 0, NO_MODIFIERS);
    let mut moved = input(EventType::MouseMoved);
    moved.location = Point { x: 100 * GRID, y: 100 * GRID };
    moved.timestamp = 1_000_000_000;
    assert!(matches!(tap.on_event(&moved).event, Some(Event::MouseMoved(_))));

    let mut hold = input(EventType::FlagsChanged);
    hold.flags = shift;
    hold.key = Some(KeyTraits { key: KeyCode::Other(56), is_modifier: true, flag: Some(shift) });
    tap.on_event(&hold);
    assert!(tap.state.disable_hotkey_active);
    moved.flags = shift;
    moved.location = Point { x: 300 * GRID, y: 100 * GRID };
    moved.timestamp = 2_000_000_000;
    assert!(tap.on_event(&moved).event.is_none());
}

#[test]
fn an_invalidation_counts_once() {
    let mut tap = EventTap::new(settings(), false, NO_MODIFIERS);
    let mask = tap.desired_event_mask();
    tap.tap_created(mask);
    let generation = tap.tap_generation;
    assert!(tap.invalidation_is_current(generation));
    tap.tap_created(mask);
    assert!(!tap.invalidation_is_current(generation));
    assert_eq!(tap.mask_to_build(), None);
}

#[test]
fn an_empty_table_has_no_hotkeys() {
    let table = HotkeyTable::empty();
    assert!(table.is_empty());
    assert!(table
        .get(Hotkey { modifiers: NO_MODIFIERS, key_code: KeyCode::Escape })
        .is_none());
}

#[test]
fn entering_resize_mode_leaves_a_trace_and_no_command() {
    let mut tap = EventTap::new(settings(), false, NO_MODIFIERS);
    let hotkey = Hotkey { modifiers: NO_MODIFIERS, key_code: KeyCode::Other(4) };
    let specs = vec![
        ("h".to_string(), WmCommand::Wm(WmCmd::ResizeMode)),
        (
            "h".to_string(),
            WmCommand::Wm(WmCmd::Exec(ExecCmd::Array(vec!["a".to_string(), "b".to_string()]))),
        ),
    ];
    tap.on_request(Request::SetHotkeys(specs), 0, NO_MODIFIERS);
    tap.install_hotkeys(&vec![vec![hotkey], vec![hotkey]]);
    let mut press = input(EventType::KeyDown);
    press.key = Some(plain(4));
    match tap.on_event(&press).key {
        KeyReaction::Commands { at, traces } => {
            assert_eq!(at, vec![1]);
            assert_eq!(traces.len(), 2);
            assert!(traces[0].command.same(&WmCommand::Wm(WmCmd::ResizeMode)));
            assert!(traces[1].command.same(&tap.hotkey_specs[1].1));
        }
        _ => panic!("no commands were given"),
    }
    assert!(tap.state.resize_mode_deadline.is_some());
}
