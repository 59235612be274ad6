//! The app actor's books.

use lift::app::actor::{AxCode, AxError, AxOutcome, ElementRef, State};
use lift::app::focus::{activation_wait_step, MainWindowStep, WaitEvent, WaitStep};
use lift::app::lifecycle::{
    request_outcome, visible_window_server_info_map, watch_step, Launch, RequestOutcome,
    WatchStep,
};
use lift::app::notifications::NotificationStep;
use lift::app::raise::{activation_to_await, key_window_id, RaiseError};
use lift::app::refresh::{failed_refresh, Refresh, Visit};
use lift::app::register::{launch_patience_ms, Prepared, WindowReport};
use lift::app::requests::RequestStep;
use lift::app::{
    decode_notification_data, encode_notification_data, AxNotificationKind, Quiet, Request,
    WindowId,
};
use lift::event::{AppInfo, Event, Requested, WindowInfo, WindowServerInfo};
use lift::geometry::{Point, Rect, Size};
use lift::ids::{TransactionId, WindowServerId};
use lift::reactor::transactions::WriteRecord;

const PID: i32 = 7;

fn frame(x: i64) -> Rect {
    Rect { origin: Point { x, y: 0 }, size: Size { width: 1000, height: 1000 } }
}

fn info(sys_id: Option<u32>) -> WindowInfo {
    WindowInfo {
        is_standard: true,
        is_root: true,
        is_minimized: false,
        is_resizable: true,
        min_size: None,
        max_size: None,
        title: "Window".to_string(),
        frame: frame(0),
        sys_id: sys_id.map(WindowServerId::new),
        bundle_id: None,
        path: None,
        ax_role: None,
        ax_subrole: None,
    }
}

fn server_info(id: u32) -> WindowServerInfo {
    WindowServerInfo {
        pid: PID,
        id: WindowServerId::new(id),
        layer: 0,
        frame: frame(0),
        min_frame: Size { width: 0, height: 0 },
        max_frame: Size { width: 0, height: 0 },
    }
}

fn report(elem: u64, sys_id: Option<u32>) -> WindowReport {
    WindowReport {
        elem,
        info: info(sys_id),
        server_info: sys_id.map(server_info),
        has_title_element: true,
        has_parent: false,
        fallback_server_id: None,
    }
}

fn watched() -> Vec<Result<(), AxError>> {
    vec![
        Ok(()),
        Err(AxError::Ax(AxCode::NotificationAlreadyRegistered)),
        Ok(()),
    ]
}

fn register(state: &mut State, elem: u64, sys_id: Option<u32>) -> WindowId {
    let prepared: Prepared = state.prepare_window(report(elem, sys_id)).unwrap();
    let (ok, _) = state.register_window(&prepared, true, &watched(), None);
    assert!(ok);
    prepared.wid
}

fn state_with_windows() -> (State, WindowId, WindowId) {
    let mut state = State::new(PID, Some("com.example".to_string()));
    let first = register(&mut state, 101, Some(11));
    let second = register(&mut state, 102, None);
    (state, first, second)
}

fn elem(token: u64) -> ElementRef {
    ElementRef { token, server_id: None }
}

#[test]
fn registered_windows_are_found_again() {
    let (state, first, second) = state_with_windows();
    assert_eq!(first, WindowId::new(PID, 11));
    assert_eq!(second, WindowId::new(PID, 1));
    assert_eq!(state.id(elem(101)), Some(first));
    assert_eq!(
        state.id(ElementRef { token: 999, server_id: Some(WindowServerId::new(11)) }),
        Some(first)
    );
    assert_eq!(state.id(elem(999)), None);
    assert_eq!(state.wid_for_notification(elem(101), Some(second)), Some(second));
    assert_eq!(
        state.wid_for_notification(elem(101), Some(WindowId::new(8, 1))),
        Some(first)
    );
}

#[test]
fn windows_that_are_not_to_be_managed_are_passed_over() {
    let mut state = State::new(PID, Some("com.googlecode.iterm2".to_string()));
    let mut widget = report(1, Some(1));
    widget.info.bundle_id = Some("com.example.Widget.helper".to_string());
    assert!(state.prepare_window(widget).is_none());
    let mut extension = report(1, Some(1));
    extension.info.path = Some("/Applications/X.APPEX/Contents".to_string());
    assert!(state.prepare_window(extension).is_none());
    let mut menu = report(1, Some(1));
    menu.info.ax_role = Some("AXMenu".to_string());
    assert!(state.prepare_window(menu).is_none());
    let mut unseen = report(1, Some(1));
    unseen.server_info = None;
    assert!(state.prepare_window(unseen).is_none());

    let mut untitled = report(1, Some(1));
    untitled.has_title_element = false;
    untitled.has_parent = true;
    let prepared = state.prepare_window(untitled).unwrap();
    assert!(!prepared.info.is_standard);
    assert!(!prepared.info.is_root);
    let failed = vec![Err(AxError::Ax(AxCode::Other))];
    assert!(!state.register_window(&prepared, true, &failed, None).0);
    assert!(!state.register_window(&prepared, false, &watched(), None).0);
}

#[test]
fn writes_are_echoed_with_their_number() {
    let (mut state, first, _) = state_with_windows();
    let txid = TransactionId(5);
    match state.handle_request(Request::SetWindowFrame(first, frame(9), txid, true)) {
        RequestStep::SetFrame(write) => {
            assert_eq!(write.elem, 101);
            assert_eq!(write.frame, frame(9));
            assert!(write.pause_enhanced_ui);
        }
        _ => panic!("expected a write"),
    }
    assert!(matches!(
        state.frame_read(first, Some(txid), Requested(true), None, Ok(frame(9))),
        AxOutcome::Value(Event::WindowFrameChanged(w, f, Some(t), Requested(true), None))
            if w == first && f == frame(9) && t == txid
    ));
    assert!(matches!(
        state.frame_read(
            first,
            Some(txid),
            Requested(true),
            None,
            Err(AxError::Ax(AxCode::CannotComplete)),
        ),
        AxOutcome::Skip
    ));
    assert!(matches!(
        state.frame_read(
            first,
            Some(txid),
            Requested(true),
            None,
            Err(AxError::Ax(AxCode::InvalidUiElement)),
        ),
        AxOutcome::Destroyed { event: Event::WindowDestroyed(w), .. } if w == first
    ));
    assert_eq!(state.id(elem(101)), None);
    assert!(matches!(
        state.handle_request(Request::SetWindowFrame(first, frame(9), txid, true)),
        RequestStep::Done
    ));
}

#[test]
fn animated_windows_keep_only_their_last_frame() {
    let (mut state, first, _) = state_with_windows();
    assert!(matches!(
        state.handle_request(Request::BeginWindowAnimation(first)),
        RequestStep::BeginAnimation { elem: 101, disable_enhanced_ui: true }
    ));
    for x in [1, 2, 3] {
        assert!(matches!(
            state.handle_request(Request::AnimationFrame {
                wid: first,
                frame: frame(x),
                set_size: false,
                txid: TransactionId(4),
            }),
            RequestStep::Done
        ));
    }
    let flushed = state.flush_all_frames();
    assert_eq!(flushed.len(), 1);
    assert_eq!(flushed[0].frame, frame(3));
    assert!(matches!(
        state.handle_notification(AxNotificationKind::WindowMoved, elem(101), None),
        NotificationStep::Ignore
    ));
    match state.handle_request(Request::EndWindowAnimation(first)) {
        RequestStep::EndAnimation(end) => assert!(end.enable_enhanced_ui),
        _ => panic!("expected the end of an animation"),
    }
    assert!(matches!(
        state.handle_notification(AxNotificationKind::WindowMoved, elem(101), None),
        NotificationStep::ReadFrame { wid, last_seen_txid: TransactionId(4), .. } if wid == first
    ));
}

#[test]
fn hiding_an_application_minimizes_its_windows() {
    let (mut state, first, second) = state_with_windows();
    let events = state.on_application_hidden();
    assert_eq!(events.len(), 2);
    assert!(matches!(events[0], Event::WindowMinimized(w) if w == first));
    assert!(state.on_application_hidden().is_empty());
    let events = state.on_application_shown(&vec![false, true]);
    assert_eq!(events.len(), 1);
    assert!(matches!(events[0], Event::WindowDeminiaturized(w) if w == first));
    assert!(state.windows_with_mark(true).is_empty());
    assert_eq!(state.windows_with_mark(false), vec![first, second]);
}

#[test]
fn the_main_window_is_told_once() {
    let (mut state, first, _) = state_with_windows();
    assert!(matches!(
        state.main_window_read(Ok(elem(101)), true),
        MainWindowStep::Known(w) if w == first
    ));
    assert!(matches!(
        state.main_window_settled(first, Some(first)),
        Some(Event::ApplicationMainWindowChanged(PID, Some(w), Quiet::Yes)) if w == first
    ));
    assert!(state.main_window_settled(first, None).is_none());
    assert!(matches!(
        state.main_window_read(Ok(elem(999)), true),
        MainWindowStep::Register
    ));
    assert!(matches!(
        state.main_window_read(Ok(elem(999)), false),
        MainWindowStep::Cleared(Some(Event::ApplicationMainWindowChanged(PID, None, Quiet::No)))
    ));
    assert!(matches!(
        state.main_window_read(Ok(elem(999)), false),
        MainWindowStep::Cleared(None)
    ));
    assert!(matches!(
        state.main_window_read(Err(AxError::NotFound), false),
        MainWindowStep::Unreadable
    ));
}

#[test]
fn own_activations_are_quiet() {
    let (mut state, first, _) = state_with_windows();
    assert_eq!(state.expect_activation(1_000, Quiet::Yes, Some(first), 42), None);
    let outcome = state.on_activation_changed(true, 1_100);
    assert_eq!(outcome.release, Some(42));
    assert!(matches!(
        outcome.event,
        Some(Event::ApplicationActivated(PID, Quiet::Yes))
    ));
    assert!(state.on_activation_changed(true, 1_200).event.is_none());
    assert!(matches!(
        state.on_activation_changed(false, 1_300).event,
        Some(Event::ApplicationDeactivated(PID))
    ));
    assert_eq!(
        activation_wait_step(WaitEvent::Tick { frontmost: false }),
        WaitStep::KeepWaiting
    );
}

#[test]
fn stale_windows_are_removed() {
    let (mut state, first, second) = state_with_windows();
    let (events, _) = state.remove_stale_windows(&vec![elem(101)]);
    assert_eq!(events.len(), 1);
    assert!(matches!(events[0], Event::WindowDestroyed(w) if w == second));
    let (events, _) = state.remove_tracked_windows(&vec![first, second]);
    assert_eq!(events.len(), 1);
}

#[test]
fn raises_are_quiet_but_for_the_last_window() {
    let (state, first, second) = state_with_windows();
    let wids = vec![first, second];
    assert_eq!(state.first_raise_target(&wids), Ok(Some(101)));
    assert_eq!(state.first_raise_target(&vec![]), Ok(None));
    assert_eq!(
        state.first_raise_target(&vec![WindowId::new(PID, 99)]),
        Err(RaiseError::AXError(AxError::NotFound))
    );
    assert_eq!(State::check_cancel(true), Err(RaiseError::RaiseCancelled));
    assert_eq!(
        activation_to_await(&wids, Quiet::No, false, Some(true), true),
        Some((Quiet::Yes, Some(first)))
    );
    assert_eq!(
        activation_to_await(&vec![first], Quiet::No, false, Some(true), true),
        Some((Quiet::No, None))
    );
    assert_eq!(activation_to_await(&wids, Quiet::No, true, Some(true), true), None);
    assert_eq!(key_window_id(Err(AxError::NotFound)), Ok(None));
    let step = state.raise_step(&wids, 1, 8, Quiet::Yes).unwrap();
    assert!(step.is_last);
    assert_eq!(step.quiet_if, Some(second));
    assert!(matches!(
        step.completed,
        Event::RaiseCompleted { window_id, sequence_id: 8 } if window_id == second
    ));
}

#[test]
fn listings_tell_known_and_new_windows() {
    let (state, first, _) = state_with_windows();
    let mut refresh = Refresh::new();
    assert!(matches!(
        refresh.visit(&state, elem(101), None, info(Some(11))),
        Visit::Known(w) if w == first
    ));
    let unseen = ElementRef { token: 5, server_id: Some(WindowServerId::new(50)) };
    assert!(matches!(refresh.visit(&state, unseen, None, info(Some(50))), Visit::Skip));
    assert!(matches!(
        refresh.visit(&state, unseen, Some(server_info(50)), info(Some(50))),
        Visit::Register(_)
    ));
    match refresh.finish(PID) {
        Event::WindowsDiscovered { pid, new, known_visible } => {
            assert_eq!(pid, PID);
            assert_eq!(new.len(), 1);
            assert_eq!(known_visible, vec![first]);
        }
        _ => panic!("expected a listing"),
    }
    assert!(matches!(
        failed_refresh(PID),
        Event::WindowsDiscovered { known_visible, .. } if known_visible.is_empty()
    ));
}

#[test]
fn slow_applications_get_a_minute() {
    assert_eq!(launch_patience_ms(&Some("com.jetbrains.rider".to_string())), 60_000);
    assert_eq!(launch_patience_ms(&Some("com.apple.finder".to_string())), 0);
    assert_eq!(launch_patience_ms(&None), 0);
    let failure = Err(AxError::Ax(AxCode::CannotComplete));
    assert_eq!(
        watch_step(failure, 20, 0, 60_000),
        WatchStep::Retry { sleep: 20, next_pause: 40 }
    );
    assert_eq!(
        watch_step(failure, 1000, 59_500, 60_000),
        WatchStep::Retry { sleep: 500, next_pause: 1000 }
    );
    assert_eq!(watch_step(failure, 1000, 60_001, 60_000), WatchStep::GiveUp);
    assert_eq!(
        watch_step(Err(AxError::Ax(AxCode::NotificationAlreadyRegistered)), 20, 5, 0),
        WatchStep::Watched
    );
    assert_eq!(watch_step(Ok(()), 20, 5, 0), WatchStep::Watched);
}

#[test]
fn a_launch_reports_what_was_found() {
    let (mut state, first, _) = state_with_windows();
    let infos = vec![server_info(11), server_info(12)];
    let map = visible_window_server_info_map(&infos);
    assert_eq!(map.get(WindowServerId::new(12)), Some(&infos[1]));
    assert_eq!(map.get(WindowServerId::new(13)), None);
    let mut launch = Launch::new();
    let seen = ElementRef { token: 101, server_id: Some(WindowServerId::new(11)) };
    assert!(launch.visit(seen, Some(infos[0])));
    assert!(!launch.visit(seen, None));
    launch.registered(first, info(Some(11)));
    let about = AppInfo { bundle_id: None, localized_name: None };
    match state.launched(about, launch, Ok(seen), Err(AxError::NotFound)) {
        Event::ApplicationLaunched {
            is_frontmost,
            main_window,
            visible_windows,
            window_server_info,
            ..
        } => {
            assert!(!is_frontmost);
            assert_eq!(main_window, Some(first));
            assert_eq!(visible_windows.len(), 1);
            assert_eq!(window_server_info.len(), 1);
        }
        _ => panic!("expected a launch"),
    }
}

#[test]
fn requests_to_a_dead_application_end_the_actor() {
    let gone = Err(AxError::Ax(AxCode::CannotComplete));
    assert!(matches!(
        request_outcome(gone, true, PID),
        RequestOutcome::Gone(Event::ApplicationThreadTerminated(PID))
    ));
    assert!(matches!(request_outcome(gone, false, PID), RequestOutcome::Continue));
    assert!(matches!(request_outcome(Ok(true), false, PID), RequestOutcome::Stop));
    let mut state = State::new(PID, None);
    assert!(matches!(
        state.handle_request(Request::Terminate),
        RequestStep::Terminate(Event::ApplicationThreadTerminated(PID))
    ));
}

#[test]
fn watches_carry_their_window() {
    let (state, first, _) = state_with_windows();
    let watches = state.restart_notifications_after_animation(elem(101));
    assert_eq!(
        decode_notification_data(PID, watches[0].1),
        Some((AxNotificationKind::WindowMoved, Some(first)))
    );
    assert_eq!(
        decode_notification_data(PID, watches[1].1),
        Some((AxNotificationKind::WindowResized, Some(first)))
    );
    let bare = encode_notification_data(AxNotificationKind::MenuOpened, None);
    assert_eq!(
        decode_notification_data(PID, bare),
        Some((AxNotificationKind::MenuOpened, None))
    );
    assert_eq!(decode_notification_data(PID, 0xff), None);
}

#[test]
fn stored_numbers_count_while_a_window_is_on_its_way() {
    let under_way = WriteRecord { last_sent: TransactionId(9), target: Some(frame(0)) };
    let done = WriteRecord { last_sent: TransactionId(9), target: None };
    assert_eq!(State::txid_from_store(Some(under_way)), Some(TransactionId(9)));
    assert_eq!(State::txid_from_store(Some(done)), None);
    assert_eq!(State::txid_for_window_state(None, TransactionId(0)), None);
    assert_eq!(
        State::txid_for_window_state(None, TransactionId(2)),
        Some(TransactionId(2))
    );
    assert_eq!(
        State::txid_for_window_state(Some(TransactionId(9)), TransactionId(2)),
        Some(TransactionId(9))
    );
}

#[test]
fn debug_strings_round_trip() {
    let wid = WindowId::new(-3, 4_000_000_000);
    assert_eq!(WindowId::from_debug_string(&wid.to_debug_string()), Some(wid));
    assert_eq!(
        wid.to_debug_string(),
        "WindowId { pid: -3, idx: 4000000000 }"
    );
    assert_eq!(WindowId::from_debug_string("WindowId { pid: 1, idx: 0 }"), None);
    assert_eq!(WindowId::from_debug_string("nonsense"), None);
}
