//! The animation that is under way.

use vstd::prelude::*;

use crate::app::WindowId;
use crate::collections::IdMap;
use crate::geometry::Rect;
use crate::ids::WindowServerId;
use crate::reactor::animation::{
    adoption, all_begin_requests, all_finish_requests, all_frame_requests, with_proxy,
    AnimatedWindow, Animation, AnimationModel, AnimationRequest,
};

verus! {

/// An animation that has begun, on a clock of nanoseconds.
pub struct ActiveAnimation {
    pub animation: Animation,
    pub started_at: u64,
    pub next_frame: u32,
}

pub struct AnimationManager {
    pub active: Option<ActiveAnimation>,
}

/// An animation that is about to begin: the windows that were under way
/// start from where they are. What is left of the one before goes with it.
pub struct PreparedAnimation {
    pub animation: Animation,
    pub continuing: Vec<WindowId>,
    pub previous: Option<Animation>,
}

/// How many whole intervals have passed. Intervals of no length pass without
/// end in any time.
pub open spec fn intervals_passed(since: u64, now: u64, interval: u64) -> int {
    if now <= since {
        0
    } else if interval == 0 {
        u32::MAX as int
    } else {
        (now - since) / (interval as int)
    }
}

/// The frame that is due: the next one, or a later one if time has run on,
/// but none after the last.
pub open spec fn frame_due(active: ActiveAnimation, now: u64) -> int {
    let passed = intervals_passed(active.started_at, now, active.animation.interval);
    let due = if passed > active.next_frame {
        passed
    } else {
        active.next_frame as int
    };
    if due > active.animation.frames {
        active.animation.frames as int
    } else {
        due
    }
}

/// How long it is until the next frame.
pub open spec fn time_to_frame(active: ActiveAnimation, frame: int, now: u64) -> int {
    let at = active.started_at + active.animation.interval * frame;
    if at <= now {
        0
    } else if at - now > u64::MAX {
        u64::MAX as int
    } else {
        at - now
    }
}

impl AnimationManager {
    pub fn new() -> (r: Self)
        ensures
            r.active is None,
    {
        AnimationManager { active: None }
    }

    /// Gets an animation ready to take the place of the one under way:
    /// windows that go on start from where they are and keep their proxies.
    pub fn prepare(&mut self, next: Animation, current: &Vec<(WindowId, Rect)>) -> (r:
        PreparedAnimation)
        ensures
            final(self).active is None,
            match old(self).active {
                Some(active) => {
                    let patched = next@.patched(current@);
                    let (taken, left) = adoption(
                        patched.windows,
                        active.animation@.windows,
                        patched.windows.len(),
                    );
                    &&& r.animation@ == (AnimationModel { windows: taken, ..patched })
                    &&& r.continuing@ == next@.continuing(current@)
                    &&& r.previous matches Some(previous) && previous@ == (AnimationModel {
                        windows: left,
                        ..active.animation@
                    })
                },
                None => r.animation@ == next@ && r.continuing@.len() == 0 && r.previous is None,
            },
    {
        let mut active: Option<ActiveAnimation> = None;
        std::mem::swap(&mut self.active, &mut active);
        let mut animation: Animation = next;
        match active {
            Some(active) => {
                let mut previous: Animation = active.animation;
                let continuing: Vec<WindowId> = animation.patch_starts_from(current);
                animation.adopt_proxies_from(&mut previous);
                PreparedAnimation { animation, continuing, previous: Some(previous) }
            },
            None => PreparedAnimation { animation, continuing: Vec::new(), previous: None },
        }
    }

    /// Begins a prepared animation with the proxies that could be made. One
    /// without windows does not begin, unless it takes the place of another.
    pub fn launch(
        &mut self,
        prepared: PreparedAnimation,
        made: &IdMap<WindowServerId, u64>,
        current: &Vec<(WindowId, Rect)>,
        now: u64,
    ) -> (r: Vec<AnimationRequest>)
        ensures
            ({
                let ready = AnimationModel {
                    windows: prepared.animation@.windows.map_values(
                        |w: AnimatedWindow| with_proxy(w, made@),
                    ),
                    ..prepared.animation@
                };
                let begun = all_begin_requests(ready.windows, prepared.continuing@);
                match prepared.previous {
                    Some(previous) => {
                        &&& r@ == begun + ready.given_up(previous@.windows)
                        &&& final(self).active matches Some(active) && active.animation@ == (
                        AnimationModel {
                            windows: ready.carried(previous@.windows, current@),
                            ..ready
                        }) && active.started_at == now && active.next_frame == 1
                    },
                    None => if prepared.animation@.windows.len() == 0 {
                        r@.len() == 0 && final(self).active is None
                    } else {
                        &&& r@ == begun
                        &&& final(self).active matches Some(active) && active.animation@ == ready
                            && active.started_at == now && active.next_frame == 1
                    },
                }
            }),
    {
        let PreparedAnimation { mut animation, continuing, previous } = prepared;
        if previous.is_none() && animation.is_empty() {
            self.active = None;
            return Vec::new();
        }
        animation.set_proxies(made);
        let mut requests: Vec<AnimationRequest> = animation.begin_windows_not_in(&continuing);
        if let Some(previous) = &previous {
            let mut more: Vec<AnimationRequest> = animation.carry_over(previous, current);
            requests.append(&mut more);
        }
        self.active = Some(ActiveAnimation { animation, started_at: now, next_frame: 1 });
        requests
    }

    /// Lets the animation under way arrive at once.
    pub fn finish_active(&mut self) -> (r: Vec<AnimationRequest>)
        ensures
            final(self).active is None,
            r@ == match old(self).active {
                Some(active) => all_finish_requests(active.animation@.windows),
                None => Seq::empty(),
            },
    {
        let mut active: Option<ActiveAnimation> = None;
        std::mem::swap(&mut self.active, &mut active);
        match active {
            Some(active) => active.animation.finish_all(),
            None => Vec::new(),
        }
    }

    /// Lets the animation under way arrive and puts the windows of another
    /// where they end up.
    pub fn skip_to_end(&mut self, animation: &Animation) -> (r: Vec<AnimationRequest>)
        ensures
            final(self).active is None,
            r@ == (match old(self).active {
                Some(active) => all_finish_requests(active.animation@.windows),
                None => Seq::empty(),
            }) + animation@.windows.map_values(
                |w: AnimatedWindow|
                    AnimationRequest::SetWindowFrame { wid: w.wid, frame: w.finish, txid: w.txid },
            ),
    {
        let mut requests: Vec<AnimationRequest> = self.finish_active();
        let mut more: Vec<AnimationRequest> = animation.skip_to_end();
        requests.append(&mut more);
        requests
    }

    /// The frame that is due.
    pub fn due_frame(&self, now: u64) -> (r: Option<u32>)
        ensures
            match self.active {
                Some(active) => r matches Some(frame) && frame == frame_due(active, now),
                None => r is None,
            },
    {
        match &self.active {
            Some(active) => {
                let interval: u64 = active.animation.interval;
                let passed: u64 = if now <= active.started_at {
                    0
                } else if interval == 0 {
                    u32::MAX as u64
                } else {
                    (now - active.started_at) / interval
                };
                let due: u64 = if passed > active.next_frame as u64 {
                    passed
                } else {
                    active.next_frame as u64
                };
                if due > active.animation.frames as u64 {
                    Some(active.animation.frames)
                } else {
                    Some(due as u32)
                }
            },
            None => None,
        }
    }

    /// Moves the windows to where they are on the frame that is due, which is
    /// given. After the last frame they arrive; otherwise the time until the
    /// next is given.
    pub fn tick_at(&mut self, now: u64, rects: &Vec<Rect>) -> (r: (
        Vec<AnimationRequest>,
        Option<u64>,
    ))
        requires
            old(self).active matches Some(active) ==> rects@.len()
                == active.animation@.windows.len(),
        ensures
            match old(self).active {
                Some(active) => {
                    let frame = frame_due(active, now);
                    let sent = all_frame_requests(active.animation@.windows, rects@);
                    if frame >= active.animation.frames {
                        &&& r.0@ == sent + all_finish_requests(active.animation@.windows)
                        &&& r.1 is None
                        &&& final(self).active is None
                    } else {
                        &&& r.0@ == sent
                        &&& r.1 == Some(time_to_frame(active, frame + 1, now) as u64)
                        &&& final(self).active == Some(
                            ActiveAnimation { next_frame: (frame + 1) as u32, ..active },
                        )
                    }
                },
                None => r.0@.len() == 0 && r.1 is None && final(self).active is None,
            },
    {
        let frame: u32 = match self.due_frame(now) {
            Some(frame) => frame,
            None => {
                return (Vec::new(), None);
            },
        };
        let mut active: Option<ActiveAnimation> = None;
        std::mem::swap(&mut self.active, &mut active);
        match active {
            Some(mut active) => {
                let mut requests: Vec<AnimationRequest> = active.animation.send_frame(rects);
                if frame >= active.animation.frames {
                    let mut more: Vec<AnimationRequest> = active.animation.finish_all();
                    requests.append(&mut more);
                    return (requests, None);
                }
                let next: u32 = frame + 1;
                let interval: u64 = active.animation.interval;
                assert(0 <= interval as int * next as int <= u64::MAX as int * u32::MAX as int)
                    by (nonlinear_arith)
                    requires
                        0 <= interval <= u64::MAX,
                        0 <= next <= u32::MAX,
                ;
                let at: u128 = active.started_at as u128 + interval as u128 * next as u128;
                let delay: u64 = if at <= now as u128 {
                    0
                } else if at - now as u128 > u64::MAX as u128 {
                    u64::MAX
                } else {
                    (at - now as u128) as u64
                };
                active.next_frame = next;
                self.active = Some(active);
                (requests, Some(delay))
            },
            None => (Vec::new(), None),
        }
    }
}

/// However late a tick comes, the frame is at least the next one and at most
/// the last.
pub proof fn law_due_frame_is_between_next_and_last(active: ActiveAnimation, now: u64)
    requires
        active.next_frame <= active.animation.frames,
    ensures
        active.next_frame <= frame_due(active, now) <= active.animation.frames,
{
}

/// A frame is due once its time has come: never one later than the time that
/// has passed says, unless it is simply the next.
pub proof fn law_due_frame_follows_the_time(active: ActiveAnimation, now: u64)
    requires
        active.next_frame <= active.animation.frames,
        active.animation.interval > 0,
        active.started_at <= now,
    ensures
        frame_due(active, now) == active.next_frame || frame_due(active, now)
            * active.animation.interval <= now - active.started_at,
        frame_due(active, now) == active.animation.frames || (frame_due(active, now) + 1)
            * active.animation.interval > now - active.started_at,
{
    let i = active.animation.interval as int;
    let t = now - active.started_at;
    let p = intervals_passed(active.started_at, now, active.animation.interval);
    if t > 0 {
        assert(p == t / i);
        assert(p * i <= t && t < (p + 1) * i) by (nonlinear_arith)
            requires
                i > 0,
                p == t / i,
        ;
    } else {
        assert(p == 0);
    }
    let d = frame_due(active, now);
    if d != active.next_frame {
        assert(d <= p);
        assert(d * i <= p * i) by (nonlinear_arith)
            requires
                d <= p,
                i > 0,
        ;
    }
    if d != active.animation.frames {
        assert(d >= p);
        assert((d + 1) * i >= (p + 1) * i) by (nonlinear_arith)
            requires
                d >= p,
                i > 0,
        ;
        if t <= 0 {
            assert((d + 1) * i > 0) by (nonlinear_arith)
                requires
                    d >= 0,
                    i > 0,
            ;
        }
    }
}

/// The wait for a frame ends just when it is due.
pub proof fn law_wait_ends_when_the_frame_is_due(active: ActiveAnimation, frame: int, now: u64)
    requires
        0 <= frame,
        active.started_at + active.animation.interval * frame <= u64::MAX,
    ensures
        time_to_frame(active, frame, now) >= 0,
        active.started_at + active.animation.interval * frame >= now ==> now + time_to_frame(
            active,
            frame,
            now,
        ) == active.started_at + active.animation.interval * frame,
        active.started_at + active.animation.interval * frame <= now ==> time_to_frame(
            active,
            frame,
            now,
        ) == 0,
{
}

} // verus!
