//! Animations with frames that are computed by the caller.

use lift::app::WindowId;
use lift::collections::IdMap;
use lift::geometry::{Point, Rect, Size, GRID};
use lift::ids::{TransactionId, WindowServerId};
use lift::reactor::animation::{Animation, AnimationRequest};
use lift::reactor::animation_manager::AnimationManager;

fn rect(x: f64, y: f64, width: f64, height: f64) -> Rect {
    let grid = GRID as f64;
    Rect {
        origin: Point { x: (x * grid).round() as i64, y: (y * grid).round() as i64 },
        size: Size {
            width: (width * grid).round() as i64,
            height: (height * grid).round() as i64,
        },
    }
}

fn ease_in_out(t: f64) -> f64 {
    if t < 0.5 {
        4.0 * t.powi(3)
    } else {
        1.0 - (-2.0 * t + 2.0).powi(3) / 2.0
    }
}

fn ease_out_cubic(t: f64) -> f64 {
    1.0 - (1.0 - t).powi(3)
}

fn linear(t: f64) -> f64 {
    t
}

fn between(a: Rect, b: Rect, s: f64) -> Rect {
    let mix = |a: i64, b: i64| ((1.0 - s) * a as f64 + s * b as f64).round() as i64;
    Rect {
        origin: Point { x: mix(a.origin.x, b.origin.x), y: mix(a.origin.y, b.origin.y) },
        size: Size {
            width: mix(a.size.width, b.size.width),
            height: mix(a.size.height, b.size.height),
        },
    }
}

fn frames_at(animation: &Animation, frame: u32, easing: fn(f64) -> f64) -> Vec<Rect> {
    let s = easing(f64::from(frame) / f64::from(animation.frames));
    animation.windows.iter().map(|w| between(w.start, w.finish, s)).collect()
}

/// Where the windows of the animation under way are.
fn current_frames(manager: &AnimationManager, easing: fn(f64) -> f64) -> Vec<(WindowId, Rect)> {
    match &manager.active {
        Some(active) => {
            let rects = frames_at(&active.animation, active.next_frame - 1, easing);
            active.animation.windows.iter().map(|w| w.wid).zip(rects).collect()
        }
        None => vec![],
    }
}

fn replace(
    manager: &mut AnimationManager,
    next: Animation,
    now: u64,
    easing: fn(f64) -> f64,
) -> Vec<AnimationRequest> {
    let current = current_frames(manager, easing);
    let prepared = manager.prepare(next, &current);
    manager.launch(prepared, &IdMap::new(), &current, now)
}

fn tick(
    manager: &mut AnimationManager,
    now: u64,
    easing: fn(f64) -> f64,
) -> Vec<AnimationRequest> {
    let rects = match manager.due_frame(now) {
        Some(frame) => frames_at(&manager.active.as_ref().unwrap().animation, frame, easing),
        None => vec![],
    };
    manager.tick_at(now, &rects).0
}

fn empty_animation() -> Animation {
    Animation::new(300, 100)
}

fn animation(wid: WindowId, from: Rect, to: Rect) -> Animation {
    let mut animation = empty_animation();
    animation.add_window(wid, from, to, false, TransactionId::default());
    animation
}

fn animation_contains(manager: &AnimationManager, wid: WindowId) -> bool {
    manager
        .active
        .as_ref()
        .map(|active| active.animation.windows.iter().any(|w| w.wid == wid))
        .unwrap_or(false)
}

#[test]
fn animation_uses_configured_timing_and_resizes_every_frame() {
    let wid = WindowId::new(1, 1);
    let mut animation = Animation::new(150, 60);
    assert_eq!(
        animation.interval,
        std::time::Duration::from_secs_f64(1.0 / 60.0).as_nanos() as u64
    );
    assert_eq!(animation.frames, 9);
    animation.add_window(
        wid,
        rect(0.0, 0.0, 100.0, 100.0),
        rect(50.0, 60.0, 200.0, 200.0),
        false,
        TransactionId::default(),
    );

    let mut manager = AnimationManager::new();
    replace(&mut manager, animation, 0, ease_out_cubic);
    let requests = tick(&mut manager, 0, ease_out_cubic);
    match requests[0] {
        AnimationRequest::Frame { frame, set_size, .. } => {
            assert!(set_size);
            assert!(frame.size.width > 100 * GRID && frame.size.width < 200 * GRID);
        }
        _ => panic!("expected animation frame"),
    }
}

#[test]
fn position_only_animation_avoids_expensive_size_writes() {
    let wid = WindowId::new(1, 1);
    let animation = animation(
        wid,
        rect(0.0, 0.0, 100.0, 100.0),
        rect(400.0, 300.0, 100.0, 100.0),
    );
    let mut manager = AnimationManager::new();
    replace(&mut manager, animation, 0, ease_in_out);

    let requests = tick(&mut manager, 0, ease_in_out);
    assert_eq!(requests.len(), 1);
    assert!(matches!(requests[0], AnimationRequest::Frame { set_size: false, .. }));
}

#[test]
fn delayed_tick_catches_up_to_wall_clock_progress() {
    let wid = WindowId::new(1, 1);
    let mut animation = Animation::new(200, 60);
    animation.add_window(
        wid,
        rect(0.0, 0.0, 100.0, 100.0),
        rect(120.0, 0.0, 100.0, 100.0),
        false,
        TransactionId::default(),
    );
    let started_at = 5_000_000_000;
    let mut manager = AnimationManager::new();
    replace(&mut manager, animation, started_at, linear);

    let requests = tick(&mut manager, started_at + 70_000_000, linear);
    match requests[0] {
        AnimationRequest::Frame { frame, .. } => assert_eq!(frame.origin.x, 40 * GRID),
        _ => panic!("expected animation frame"),
    }
    assert_eq!(manager.active.as_ref().unwrap().next_frame, 5);
}

#[test]
fn replacement_uses_last_animated_frame_for_continuing_windows() {
    let wid = WindowId::new(1, 1);
    let first = animation(wid, rect(0.0, 0.0, 10.0, 10.0), rect(50.0, 60.0, 10.0, 10.0));
    let second = animation(wid, rect(50.0, 60.0, 10.0, 10.0), rect(80.0, 90.0, 10.0, 10.0));

    let mut manager = AnimationManager::new();
    let requests = replace(&mut manager, first, 0, ease_in_out);
    assert_eq!(requests.len(), 1);
    assert!(matches!(
        requests[0],
        AnimationRequest::Begin { wid: req_wid, target: None, .. } if req_wid == wid
    ));

    let requests = tick(&mut manager, 0, ease_in_out);
    let continuing_frame = current_frames(&manager, ease_in_out)[0].1;
    assert!(matches!(
        requests[0],
        AnimationRequest::Frame { wid: req_wid, frame, set_size: false, .. }
            if req_wid == wid && frame.origin == continuing_frame.origin
    ));

    assert!(replace(&mut manager, second, 0, ease_in_out).is_empty());

    let resumed_start = manager.active.as_ref().unwrap().animation.windows[0].start;
    assert_eq!(resumed_start, continuing_frame);

    let requests = tick(&mut manager, 0, ease_in_out);
    let expected_next =
        between(resumed_start, rect(80.0, 90.0, 10.0, 10.0), ease_in_out(1.0 / 30.0));
    assert!(matches!(
        requests[0],
        AnimationRequest::Frame { wid: req_wid, frame, set_size: false, .. }
            if req_wid == wid && frame.origin == expected_next.origin
    ));
}

#[test]
fn replacement_only_restarts_changed_windows() {
    let wid1 = WindowId::new(1, 1);
    let wid2 = WindowId::new(1, 2);
    let wid3 = WindowId::new(1, 3);
    let none = TransactionId::default();
    let mut first = empty_animation();
    first.add_window(
        wid1,
        rect(0.0, 0.0, 10.0, 10.0),
        rect(50.0, 60.0, 10.0, 10.0),
        false,
        none,
    );
    first.add_window(
        wid2,
        rect(10.0, 0.0, 10.0, 10.0),
        rect(60.0, 60.0, 10.0, 10.0),
        false,
        none,
    );
    let mut second = empty_animation();
    second.add_window(
        wid1,
        rect(50.0, 60.0, 10.0, 10.0),
        rect(80.0, 90.0, 10.0, 10.0),
        false,
        none,
    );
    second.add_window(
        wid3,
        rect(20.0, 0.0, 10.0, 10.0),
        rect(90.0, 90.0, 10.0, 10.0),
        false,
        none,
    );

    let mut manager = AnimationManager::new();
    assert_eq!(replace(&mut manager, first, 0, ease_in_out).len(), 2);
    let requests = replace(&mut manager, second, 0, ease_in_out);

    assert_eq!(requests.len(), 1);
    assert!(matches!(
        requests[0],
        AnimationRequest::Begin { wid: req_wid, target: None, .. } if req_wid == wid3
    ));
    assert!(animation_contains(&manager, wid2));

    let windows = &manager.active.as_ref().unwrap().animation.windows;
    let carried = windows.iter().find(|w| w.wid == wid2).unwrap();
    assert_eq!(carried.finish, rect(60.0, 60.0, 10.0, 10.0));
}

#[test]
fn replacement_does_not_carry_over_explicitly_handled_windows() {
    let wid1 = WindowId::new(1, 1);
    let wid2 = WindowId::new(1, 2);
    let none = TransactionId::default();
    let mut first = empty_animation();
    first.add_window(
        wid1,
        rect(0.0, 0.0, 10.0, 10.0),
        rect(50.0, 60.0, 10.0, 10.0),
        false,
        none,
    );
    first.add_window(
        wid2,
        rect(10.0, 0.0, 10.0, 10.0),
        rect(60.0, 60.0, 10.0, 10.0),
        false,
        none,
    );
    let mut second = empty_animation();
    second.add_window(
        wid1,
        rect(50.0, 60.0, 10.0, 10.0),
        rect(80.0, 90.0, 10.0, 10.0),
        false,
        none,
    );
    second.mark_handled(wid2);

    let mut manager = AnimationManager::new();
    replace(&mut manager, first, 0, ease_in_out);
    replace(&mut manager, second, 0, ease_in_out);

    assert!(!animation_contains(&manager, wid2));
}

#[test]
fn skip_to_end_finishes_active_animation_and_applies_new_layout() {
    let wid = WindowId::new(1, 1);
    let first = animation(wid, rect(0.0, 0.0, 10.0, 10.0), rect(50.0, 60.0, 10.0, 10.0));
    let second = animation(wid, rect(50.0, 60.0, 10.0, 10.0), rect(80.0, 90.0, 10.0, 10.0));

    let mut manager = AnimationManager::new();
    let mut requests = replace(&mut manager, first, 0, ease_in_out);
    requests.extend(manager.skip_to_end(&second));

    assert_eq!(requests.len(), 4);
    assert!(matches!(
        requests[0],
        AnimationRequest::Begin { wid: req_wid, target: None, .. } if req_wid == wid
    ));
    assert_eq!(
        requests[1],
        AnimationRequest::Frame {
            wid,
            frame: rect(50.0, 60.0, 10.0, 10.0),
            set_size: true,
            txid: TransactionId::default(),
        }
    );
    assert_eq!(requests[2], AnimationRequest::End { wid, proxy: None });
    assert_eq!(
        requests[3],
        AnimationRequest::SetWindowFrame {
            wid,
            frame: rect(80.0, 90.0, 10.0, 10.0),
            txid: TransactionId::default(),
        }
    );
}

#[test]
fn the_last_frame_ends_the_animation() {
    let wid = WindowId::new(1, 1);
    let next = animation(wid, rect(0.0, 0.0, 10.0, 10.0), rect(50.0, 60.0, 20.0, 10.0));
    let mut manager = AnimationManager::new();
    replace(&mut manager, next, 0, linear);
    let requests = tick(&mut manager, 10_000_000_000, linear);
    assert!(manager.active.is_none());
    assert_eq!(requests.last(), Some(&AnimationRequest::End { wid, proxy: None }));
    assert!(tick(&mut manager, 10_000_000_000, linear).is_empty());
}

#[test]
fn resizing_windows_move_behind_proxies() {
    let wid = WindowId::new(1, 1);
    let wsid = WindowServerId::new(7);
    let mut next = empty_animation();
    next.add_window_with_server_id(
        wid,
        rect(0.0, 0.0, 10.0, 10.0),
        rect(0.0, 0.0, 20.0, 20.0),
        false,
        Some(wsid),
        TransactionId(3),
    );
    assert_eq!(next.proxies_wanted(), vec![(wsid, rect(0.0, 0.0, 10.0, 10.0))]);
    let mut manager = AnimationManager::new();
    let prepared = manager.prepare(next, &vec![]);
    let mut made = IdMap::new();
    made.insert(wsid, 99);
    let requests = manager.launch(prepared, &made, &vec![], 0);
    assert_eq!(
        requests,
        vec![AnimationRequest::Begin {
            wid,
            target: Some(rect(0.0, 0.0, 20.0, 20.0)),
            txid: TransactionId(3),
        }]
    );
    assert_eq!(
        manager.finish_active(),
        vec![AnimationRequest::End { wid, proxy: Some(99) }]
    );
}

#[test]
fn animations_have_at_least_one_frame() {
    assert_eq!(Animation::new(0, 60).frames, 1);
    assert_eq!(Animation::new(1000, 0).frames, 60);
    assert!(Animation::new(1000, 0).is_empty());
}

#[test]
fn frames_without_a_time_between_them_are_all_due_at_once() {
    assert_eq!(Animation::new(10, 2_000_000_000).interval, 1);
    let mut animation = Animation::new(10, 2_000_000_001);
    assert_eq!(animation.interval, 0);
    animation.add_window(
        WindowId::new(1, 1),
        rect(0.0, 0.0, 100.0, 100.0),
        rect(50.0, 60.0, 100.0, 100.0),
        false,
        TransactionId::default(),
    );
    let frames = animation.frames;
    let mut manager = AnimationManager::new();
    replace(&mut manager, animation, 100, ease_out_cubic);
    let next = manager.active.as_ref().map(|active| active.next_frame);
    assert_eq!(manager.due_frame(100), next);
    assert_eq!(manager.due_frame(101), Some(frames));
}
