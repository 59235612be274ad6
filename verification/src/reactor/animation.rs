//! Windows on their way to where the layout puts them.
//!
//! Where a window is on a given frame of an animation is computed outside:
//! what is decided here is which windows are animated, from where to where,
//! and what their applications are asked at each step.

use vstd::prelude::*;

use crate::app::WindowId;
use crate::collections::{first_at, first_index, lemma_first_index, lemma_no_match, IdMap};
use crate::geometry::Rect;
use crate::ids::{TransactionId, WindowServerId};
use crate::reactor::transition::contains_window;

verus! {

/// A window on its way. A proxy is a picture of the window that is moved in
/// its place.
#[derive(Copy, Clone, Debug, PartialEq, Eq, Structural)]
pub struct AnimatedWindow {
    pub wid: WindowId,
    pub start: Rect,
    pub finish: Rect,
    pub is_focus: bool,
    pub resizes: bool,
    pub window_server_id: Option<WindowServerId>,
    pub proxy: Option<u64>,
    pub txid: TransactionId,
}

/// Windows that set out together.
pub struct Animation {
    /// Nanoseconds between two frames.
    pub interval: u64,
    pub frames: u32,
    pub windows: Vec<AnimatedWindow>,
    /// The windows that the animation settles, on their way or not.
    pub handled_windows: Vec<WindowId>,
}

/// The mathematical content of an [`Animation`].
#[verifier::ext_equal]
pub struct AnimationModel {
    pub interval: u64,
    pub frames: u32,
    pub windows: Seq<AnimatedWindow>,
    pub handled: Seq<WindowId>,
}

impl View for Animation {
    type V = AnimationModel;

    open spec fn view(&self) -> AnimationModel {
        AnimationModel {
            interval: self.interval,
            frames: self.frames,
            windows: self.windows@,
            handled: self.handled_windows@,
        }
    }
}

/// What an application is asked on behalf of an animation.
#[derive(Copy, Clone, Debug, PartialEq, Eq, Structural)]
pub enum AnimationRequest {
    SetWindowFrame { wid: WindowId, frame: Rect, txid: TransactionId },
    /// With the frame that the window itself takes at once behind its proxy.
    Begin { wid: WindowId, target: Option<Rect>, txid: TransactionId },
    Frame { wid: WindowId, frame: Rect, set_size: bool, txid: TransactionId },
    End { wid: WindowId, proxy: Option<u64> },
}

/// Nanoseconds in a second.
pub const SECOND_NS: u64 = 1_000_000_000;

/// The frames per second that an animation gets; none means sixty.
pub open spec fn effective_fps(fps: u32) -> int {
    if fps == 0 {
        60
    } else {
        fps as int
    }
}

/// How many frames a duration in milliseconds takes.
pub open spec fn frame_count(duration: u64, fps: u32) -> int {
    let frames = (duration * effective_fps(fps) + 999) / 1000;
    if frames < 1 {
        1
    } else if frames > u32::MAX {
        u32::MAX as int
    } else {
        frames
    }
}

/// The time between two frames, to the nearest nanosecond.
pub open spec fn frame_interval(fps: u32) -> int {
    (SECOND_NS + effective_fps(fps) / 2) / effective_fps(fps)
}

/// The first window of a list with an id.
pub open spec fn position_of(windows: Seq<AnimatedWindow>, wid: WindowId) -> Option<int> {
    first_index(windows, |w: AnimatedWindow| w.wid == wid)
}

fn find_window(windows: &Vec<AnimatedWindow>, wid: WindowId) -> (r: Option<usize>)
    ensures
        match r {
            Some(i) => i < windows@.len() && position_of(windows@, wid) == Some(i as int)
                && windows@[i as int].wid == wid,
            None => position_of(windows@, wid) is None && forall|j: int|
                0 <= j < windows@.len() ==> (#[trigger] windows@[j]).wid != wid,
        },
{
    let ghost pred = |w: AnimatedWindow| w.wid == wid;
    let mut i: usize = 0;
    while i < windows.len()
        invariant
            i <= windows@.len(),
            pred == (|w: AnimatedWindow| w.wid == wid),
            forall|j: int| 0 <= j < i ==> !pred(#[trigger] windows@[j]),
        decreases windows@.len() - i,
    {
        if windows[i].wid == wid {
            proof {
                lemma_first_index(windows@, pred, i as int);
            }
            return Some(i);
        }
        i += 1;
    }
    proof {
        lemma_no_match(windows@, pred);
        assert forall|j: int| 0 <= j < windows@.len() implies (#[trigger] windows@[j]).wid
            != wid by {
            assert(!pred(windows@[j]));
        }
    }
    None
}

/// The place of a window on the current frame.
pub open spec fn place_of(current: Seq<(WindowId, Rect)>, wid: WindowId) -> Option<Rect>
    decreases current.len(),
{
    if current.len() == 0 {
        None
    } else if current[0].0 == wid {
        Some(current[0].1)
    } else {
        place_of(current.drop_first(), wid)
    }
}

fn find_place(current: &Vec<(WindowId, Rect)>, wid: WindowId) -> (r: Option<Rect>)
    ensures
        r == place_of(current@, wid),
{
    let mut i: usize = 0;
    assert(current@.skip(0) =~= current@);
    while i < current.len()
        invariant
            i <= current@.len(),
            place_of(current@, wid) == place_of(current@.skip(i as int), wid),
        decreases current@.len() - i,
    {
        assert(current@.skip(i as int).drop_first() =~= current@.skip(i + 1));
        if current[i].0 == wid {
            return Some(current[i].1);
        }
        i += 1;
    }
    None
}

/// What a window is asked when it sets out: one that is under way already
/// only needs to know where it ends up behind its proxy.
pub open spec fn begin_requests(w: AnimatedWindow, continuing: Seq<WindowId>) -> Seq<
    AnimationRequest,
> {
    let target = if w.proxy is Some {
        Some(w.finish)
    } else {
        None
    };
    let begin = AnimationRequest::Begin { wid: w.wid, target, txid: w.txid };
    if continuing.contains(w.wid) {
        if w.proxy is Some {
            seq![begin]
        } else {
            Seq::empty()
        }
    } else if w.proxy is None && w.is_focus {
        seq![
            begin,
            AnimationRequest::Frame {
                wid: w.wid,
                frame: Rect { origin: w.start.origin, size: w.finish.size },
                set_size: true,
                txid: w.txid,
            },
        ]
    } else {
        seq![begin]
    }
}

pub open spec fn all_begin_requests(windows: Seq<AnimatedWindow>, continuing: Seq<WindowId>) -> Seq<
    AnimationRequest,
>
    decreases windows.len(),
{
    if windows.len() == 0 {
        Seq::empty()
    } else {
        all_begin_requests(windows.drop_last(), continuing) + begin_requests(
            windows.last(),
            continuing,
        )
    }
}

/// What a window is asked when it is to arrive at once.
pub open spec fn finish_requests(w: AnimatedWindow) -> Seq<AnimationRequest> {
    let end = AnimationRequest::End { wid: w.wid, proxy: w.proxy };
    if w.proxy is None {
        seq![
            AnimationRequest::Frame {
                wid: w.wid,
                frame: w.finish,
                set_size: true,
                txid: w.txid,
            },
            end,
        ]
    } else {
        seq![end]
    }
}

pub open spec fn all_finish_requests(windows: Seq<AnimatedWindow>) -> Seq<AnimationRequest>
    decreases windows.len(),
{
    if windows.len() == 0 {
        Seq::empty()
    } else {
        all_finish_requests(windows.drop_last()) + finish_requests(windows.last())
    }
}

/// What a window is asked on a frame: nothing if its proxy is moved. Sizes
/// are written only where the size changes on the way.
pub open spec fn frame_requests(w: AnimatedWindow, rect: Rect) -> Seq<AnimationRequest> {
    if w.proxy is Some {
        Seq::empty()
    } else {
        seq![
            AnimationRequest::Frame {
                wid: w.wid,
                frame: if w.is_focus {
                    Rect { origin: rect.origin, size: w.finish.size }
                } else {
                    rect
                },
                set_size: w.resizes && !w.is_focus,
                txid: w.txid,
            },
        ]
    }
}

pub open spec fn all_frame_requests(windows: Seq<AnimatedWindow>, rects: Seq<Rect>) -> Seq<
    AnimationRequest,
>
    decreases windows.len(),
{
    if windows.len() == 0 || rects.len() != windows.len() {
        Seq::empty()
    } else {
        all_frame_requests(windows.drop_last(), rects.drop_last()) + frame_requests(
            windows.last(),
            rects.last(),
        )
    }
}

/// The windows that are to get a proxy: those that change their size and
/// have none.
pub open spec fn wants_proxy(w: AnimatedWindow) -> bool {
    w.resizes && w.proxy is None && w.window_server_id is Some
}

/// A window with the proxy that could be made for it, if it wants one.
pub open spec fn with_proxy(w: AnimatedWindow, made: Map<WindowServerId, u64>) -> AnimatedWindow {
    if wants_proxy(w) && made.contains_key(w.window_server_id->0) {
        AnimatedWindow { proxy: Some(made[w.window_server_id->0]), ..w }
    } else {
        w
    }
}

impl AnimationModel {
    pub open spec fn marked(self, wid: WindowId) -> AnimationModel {
        if self.handled.contains(wid) {
            self
        } else {
            AnimationModel { handled: self.handled.push(wid), ..self }
        }
    }

    pub open spec fn with_window(self, w: AnimatedWindow) -> AnimationModel {
        AnimationModel { windows: self.windows.push(w), ..self }.marked(w.wid)
    }

    /// The windows start from where they are now, where they are under way.
    pub open spec fn patched(self, current: Seq<(WindowId, Rect)>) -> AnimationModel
        decreases current.len(),
    {
        if current.len() == 0 {
            self
        } else {
            let rest = self.patched(current.drop_last());
            let (wid, rect) = current.last();
            match position_of(rest.windows, wid) {
                Some(i) => AnimationModel {
                    windows: rest.windows.update(
                        i,
                        AnimatedWindow { start: rect, ..rest.windows[i] },
                    ),
                    ..rest
                },
                None => rest,
            }
        }
    }

    /// The windows that are under way and go on.
    pub open spec fn continuing(self, current: Seq<(WindowId, Rect)>) -> Seq<WindowId>
        decreases current.len(),
    {
        if current.len() == 0 {
            Seq::empty()
        } else {
            let rest = self.continuing(current.drop_last());
            if position_of(self.windows, current.last().0) is Some {
                rest.push(current.last().0)
            } else {
                rest
            }
        }
    }

    /// The windows that are under way in another animation and go on in this
    /// one: those that this one says nothing of.
    pub open spec fn carried(
        self,
        previous: Seq<AnimatedWindow>,
        current: Seq<(WindowId, Rect)>,
    ) -> Seq<AnimatedWindow>
        decreases previous.len(),
    {
        if previous.len() == 0 {
            self.windows
        } else {
            let rest = self.carried(previous.drop_last(), current);
            let w = previous.last();
            if self.handled.contains(w.wid) || position_of(rest, w.wid) is Some {
                rest
            } else {
                rest.push(
                    match place_of(current, w.wid) {
                        Some(rect) => AnimatedWindow { start: rect, ..w },
                        None => w,
                    },
                )
            }
        }
    }

    /// The proxies of windows that this animation settles otherwise are
    /// given up.
    pub open spec fn given_up(self, previous: Seq<AnimatedWindow>) -> Seq<AnimationRequest>
        decreases previous.len(),
    {
        if previous.len() == 0 {
            Seq::empty()
        } else {
            let rest = self.given_up(previous.drop_last());
            let w = previous.last();
            if self.handled.contains(w.wid) && w.proxy is Some {
                rest.push(AnimationRequest::End { wid: w.wid, proxy: w.proxy })
            } else {
                rest
            }
        }
    }
}

impl Animation {
    pub fn new(duration: u64, fps: u32) -> (r: Self)
        ensures
            r@ == (AnimationModel {
                interval: frame_interval(fps) as u64,
                frames: frame_count(duration, fps) as u32,
                windows: Seq::empty(),
                handled: Seq::empty(),
            }),
    {
        let fps: u32 = if fps == 0 {
            60
        } else {
            fps
        };
        assert(0 <= duration as int * fps as int <= u64::MAX as int * u32::MAX as int)
            by (nonlinear_arith)
            requires
                0 <= duration <= u64::MAX,
                0 <= fps <= u32::MAX,
        ;
        let product: u128 = duration as u128 * fps as u128;
        let frames: u128 = (product + 999) / 1000;
        let frames: u32 = if frames < 1 {
            1
        } else if frames > u32::MAX as u128 {
            u32::MAX
        } else {
            frames as u32
        };
        let interval: u64 = (SECOND_NS + (fps / 2) as u64) / fps as u64;
        let r = Animation { interval, frames, windows: Vec::new(), handled_windows: Vec::new() };
        assert(r@.windows =~= Seq::empty());
        assert(r@.handled =~= Seq::empty());
        r
    }

    pub fn mark_handled(&mut self, wid: WindowId)
        ensures
            final(self)@ == old(self)@.marked(wid),
    {
        if !contains_window(&self.handled_windows, wid) {
            self.handled_windows.push(wid);
        }
    }

    pub fn add_window_with_server_id(
        &mut self,
        wid: WindowId,
        start: Rect,
        finish: Rect,
        is_focus: bool,
        window_server_id: Option<WindowServerId>,
        txid: TransactionId,
    )
        ensures
            final(self)@ == old(self)@.with_window(
                AnimatedWindow {
                    wid,
                    start,
                    finish,
                    is_focus,
                    resizes: !start.size.near(finish.size),
                    window_server_id,
                    proxy: None,
                    txid,
                },
            ),
    {
        let resizes: bool = !start.size.same_as(&finish.size);
        self.windows.push(
            AnimatedWindow {
                wid,
                start,
                finish,
                is_focus,
                resizes,
                window_server_id,
                proxy: None,
                txid,
            },
        );
        self.mark_handled(wid);
    }

    pub fn add_window(
        &mut self,
        wid: WindowId,
        start: Rect,
        finish: Rect,
        is_focus: bool,
        txid: TransactionId,
    )
        ensures
            final(self)@ == old(self)@.with_window(
                AnimatedWindow {
                    wid,
                    start,
                    finish,
                    is_focus,
                    resizes: !start.size.near(finish.size),
                    window_server_id: None,
                    proxy: None,
                    txid,
                },
            ),
    {
        self.add_window_with_server_id(wid, start, finish, is_focus, None, txid);
    }

    pub fn is_empty(&self) -> (r: bool)
        ensures
            r == (self@.windows.len() == 0),
    {
        self.windows.len() == 0
    }

    /// Puts every window where it ends up.
    pub fn skip_to_end(&self) -> (r: Vec<AnimationRequest>)
        ensures
            r@ == self@.windows.map_values(
                |w: AnimatedWindow|
                    AnimationRequest::SetWindowFrame { wid: w.wid, frame: w.finish, txid: w.txid },
            ),
    {
        let ghost to_request = |w: AnimatedWindow|
            AnimationRequest::SetWindowFrame { wid: w.wid, frame: w.finish, txid: w.txid };
        let windows = &self.windows;
        let mut r: Vec<AnimationRequest> = Vec::new();
        let mut i: usize = 0;
        assert(r@ =~= windows@.take(0).map_values(to_request));
        while i < windows.len()
            invariant
                i <= windows@.len(),
                *windows == self.windows,
                to_request == (|w: AnimatedWindow|
                    AnimationRequest::SetWindowFrame { wid: w.wid, frame: w.finish, txid: w.txid }),
                r@ == windows@.take(i as int).map_values(to_request),
            decreases windows@.len() - i,
        {
            let w: AnimatedWindow = windows[i];
            r.push(
                AnimationRequest::SetWindowFrame { wid: w.wid, frame: w.finish, txid: w.txid },
            );
            assert(r@ =~= windows@.take(i + 1).map_values(to_request));
            i += 1;
        }
        assert(windows@.take(i as int) =~= windows@);
        r
    }

    /// Lets windows set out, but for those that are under way.
    pub fn begin_windows_not_in(&self, continuing: &Vec<WindowId>) -> (r: Vec<AnimationRequest>)
        ensures
            r@ == all_begin_requests(self@.windows, continuing@),
    {
        let windows = &self.windows;
        let mut r: Vec<AnimationRequest> = Vec::new();
        let mut i: usize = 0;
        while i < windows.len()
            invariant
                i <= windows@.len(),
                *windows == self.windows,
                r@ == all_begin_requests(windows@.take(i as int), continuing@),
            decreases windows@.len() - i,
        {
            assert(windows@.take(i + 1).drop_last() =~= windows@.take(i as int));
            let w: AnimatedWindow = windows[i];
            let target: Option<Rect> = if w.proxy.is_some() {
                Some(w.finish)
            } else {
                None
            };
            let begin: AnimationRequest = AnimationRequest::Begin {
                wid: w.wid,
                target,
                txid: w.txid,
            };
            let ghost before = r@;
            if contains_window(continuing, w.wid) {
                if w.proxy.is_some() {
                    r.push(begin);
                }
            } else {
                r.push(begin);
                if w.proxy.is_none() && w.is_focus {
                    r.push(
                        AnimationRequest::Frame {
                            wid: w.wid,
                            frame: Rect { origin: w.start.origin, size: w.finish.size },
                            set_size: true,
                            txid: w.txid,
                        },
                    );
                }
            }
            assert(r@ =~= before + begin_requests(w, continuing@));
            i += 1;
        }
        assert(windows@.take(i as int) =~= windows@);
        r
    }

    /// The proxies to make: the window and where it starts from.
    pub fn proxies_wanted(&self) -> (r: Vec<(WindowServerId, Rect)>)
        ensures
            r@ == self@.windows.filter(|w: AnimatedWindow| wants_proxy(w)).map_values(
                |w: AnimatedWindow| (w.window_server_id->0, w.start),
            ),
    {
        let ghost pred = |w: AnimatedWindow| wants_proxy(w);
        let ghost entry = |w: AnimatedWindow| (w.window_server_id->0, w.start);
        let windows = &self.windows;
        let mut r: Vec<(WindowServerId, Rect)> = Vec::new();
        let mut i: usize = 0;
        proof {
            reveal(Seq::filter);
            assert(r@ =~= windows@.take(0).filter(pred).map_values(entry));
        }
        while i < windows.len()
            invariant
                i <= windows@.len(),
                *windows == self.windows,
                pred == (|w: AnimatedWindow| wants_proxy(w)),
                entry == (|w: AnimatedWindow| (w.window_server_id->0, w.start)),
                r@ == windows@.take(i as int).filter(pred).map_values(entry),
            decreases windows@.len() - i,
        {
            proof {
                reveal(Seq::filter);
                assert(windows@.take(i + 1).drop_last() =~= windows@.take(i as int));
            }
            let w: AnimatedWindow = windows[i];
            let ghost before = windows@.take(i as int).filter(pred);
            if w.resizes && w.proxy.is_none() {
                if let Some(wsid) = w.window_server_id {
                    r.push((wsid, w.start));
                    assert(r@ =~= before.push(w).map_values(entry));
                }
            }
            i += 1;
        }
        assert(windows@.take(i as int) =~= windows@);
        r
    }

    /// Gives windows the proxies that could be made for them.
    pub fn set_proxies(&mut self, made: &IdMap<WindowServerId, u64>)
        ensures
            final(self)@ == (AnimationModel {
                windows: old(self)@.windows.map_values(|w: AnimatedWindow| with_proxy(w, made@)),
                ..old(self)@
            }),
    {
        let mut i: usize = 0;
        while i < self.windows.len()
            invariant
                i <= self.windows@.len(),
                self.windows@.len() == old(self).windows@.len(),
                self.interval == old(self).interval,
                self.frames == old(self).frames,
                self.handled_windows == old(self).handled_windows,
                forall|j: int|
                    0 <= j < self.windows@.len() ==> #[trigger] self.windows@[j] == if j < i {
                        with_proxy(old(self).windows@[j], made@)
                    } else {
                        old(self).windows@[j]
                    },
            decreases self.windows@.len() - i,
        {
            let mut w: AnimatedWindow = self.windows[i];
            if w.resizes && w.proxy.is_none() {
                if let Some(wsid) = w.window_server_id {
                    if let Some(proxy) = made.get(wsid) {
                        w.proxy = Some(*proxy);
                    }
                }
            }
            self.windows[i] = w;
            i += 1;
        }
        assert(self@.windows =~= old(self)@.windows.map_values(
            |w: AnimatedWindow| with_proxy(w, made@),
        ));
    }

    /// Lets every window arrive.
    pub fn finish_all(&self) -> (r: Vec<AnimationRequest>)
        ensures
            r@ == all_finish_requests(self@.windows),
    {
        let windows = &self.windows;
        let mut r: Vec<AnimationRequest> = Vec::new();
        let mut i: usize = 0;
        while i < windows.len()
            invariant
                i <= windows@.len(),
                *windows == self.windows,
                r@ == all_finish_requests(windows@.take(i as int)),
            decreases windows@.len() - i,
        {
            assert(windows@.take(i + 1).drop_last() =~= windows@.take(i as int));
            let w: AnimatedWindow = windows[i];
            let ghost before = r@;
            if w.proxy.is_none() {
                r.push(
                    AnimationRequest::Frame {
                        wid: w.wid,
                        frame: w.finish,
                        set_size: true,
                        txid: w.txid,
                    },
                );
            }
            r.push(AnimationRequest::End { wid: w.wid, proxy: w.proxy });
            assert(r@ =~= before + finish_requests(w));
            i += 1;
        }
        assert(windows@.take(i as int) =~= windows@);
        r
    }

    /// Moves every window to where it is on a frame.
    pub fn send_frame(&self, rects: &Vec<Rect>) -> (r: Vec<AnimationRequest>)
        requires
            rects@.len() == self@.windows.len(),
        ensures
            r@ == all_frame_requests(self@.windows, rects@),
    {
        let windows = &self.windows;
        let mut r: Vec<AnimationRequest> = Vec::new();
        let mut i: usize = 0;
        while i < windows.len()
            invariant
                i <= windows@.len(),
                *windows == self.windows,
                rects@.len() == windows@.len(),
                r@ == all_frame_requests(windows@.take(i as int), rects@.take(i as int)),
            decreases windows@.len() - i,
        {
            proof {
                assert(windows@.take(i + 1).drop_last() =~= windows@.take(i as int));
                assert(rects@.take(i + 1).drop_last() =~= rects@.take(i as int));
            }
            let w: AnimatedWindow = windows[i];
            let rect: Rect = rects[i];
            let ghost before = r@;
            if w.proxy.is_none() {
                let frame: Rect = if w.is_focus {
                    Rect { origin: rect.origin, size: w.finish.size }
                } else {
                    rect
                };
                r.push(
                    AnimationRequest::Frame {
                        wid: w.wid,
                        frame,
                        set_size: w.resizes && !w.is_focus,
                        txid: w.txid,
                    },
                );
            }
            assert(r@ =~= before + frame_requests(w, rect));
            i += 1;
        }
        proof {
            assert(windows@.take(i as int) =~= windows@);
            assert(rects@.take(i as int) =~= rects@);
        }
        r
    }

    /// Lets windows that are under way start from where they are; gives
    /// those.
    pub fn patch_starts_from(&mut self, current: &Vec<(WindowId, Rect)>) -> (r: Vec<WindowId>)
        ensures
            final(self)@ == old(self)@.patched(current@),
            r@ == old(self)@.continuing(current@),
    {
        let mut r: Vec<WindowId> = Vec::new();
        let mut i: usize = 0;
        while i < current.len()
            invariant
                i <= current@.len(),
                self@ == old(self)@.patched(current@.take(i as int)),
                r@ == old(self)@.continuing(current@.take(i as int)),
                same_ids(self@.windows, old(self)@.windows),
            decreases current@.len() - i,
        {
            proof {
                assert(current@.take(i + 1).drop_last() =~= current@.take(i as int));
                lemma_same_positions(self@.windows, old(self)@.windows, current@[i as int].0);
            }
            let (wid, rect): (WindowId, Rect) = current[i];
            if let Some(k) = find_window(&self.windows, wid) {
                let ghost before = self@;
                let w: AnimatedWindow = self.windows[k];
                self.windows[k] = AnimatedWindow { start: rect, ..w };
                r.push(wid);
                assert(self@ =~= AnimationModel {
                    windows: before.windows.update(k as int, AnimatedWindow { start: rect, ..w }),
                    ..before
                });
            }
            i += 1;
        }
        assert(current@.take(i as int) =~= current@);
        r
    }

    /// Takes the proxies of windows that are under way in another animation
    /// over.
    pub fn adopt_proxies_from(&mut self, previous: &mut Animation)
        ensures
            ({
                let own = old(self)@.windows;
                let (taken, left) = adoption(own, old(previous)@.windows, own.len());
                &&& final(self)@ == (AnimationModel { windows: taken, ..old(self)@ })
                &&& final(previous)@ == (AnimationModel { windows: left, ..old(previous)@ })
            }),
    {
        let ghost own = self@.windows;
        let ghost theirs = previous@.windows;
        let mut i: usize = 0;
        while i < self.windows.len()
            invariant
                i <= self.windows@.len(),
                own == old(self)@.windows,
                theirs == old(previous)@.windows,
                same_ids(self@.windows, own),
                self@ == (AnimationModel {
                    windows: adoption(own, theirs, i as nat).0,
                    ..old(self)@
                }),
                previous@ == (AnimationModel {
                    windows: adoption(own, theirs, i as nat).1,
                    ..old(previous)@
                }),
            decreases self.windows@.len() - i,
        {
            let mut w: AnimatedWindow = self.windows[i];
            let ghost before = self@;
            let ghost before_theirs = previous@;
            assert(w.wid == own[i as int].wid);
            if let Some(k) = find_window(&previous.windows, w.wid) {
                let mut p: AnimatedWindow = previous.windows[k];
                w.proxy = p.proxy;
                p.proxy = None;
                previous.windows[k] = p;
                self.windows[i] = w;
                assert(self@ =~= AnimationModel {
                    windows: before.windows.update(i as int, w),
                    ..before
                });
                assert(previous@ =~= AnimationModel {
                    windows: before_theirs.windows.update(k as int, p),
                    ..before_theirs
                });
            }
            i += 1;
        }
    }

    /// Takes over the windows that are under way in another animation and of
    /// which this one says nothing.
    pub fn carry_over(&mut self, previous: &Animation, current: &Vec<(WindowId, Rect)>) -> (r: Vec<
        AnimationRequest,
    >)
        ensures
            final(self)@ == (AnimationModel {
                windows: old(self)@.carried(previous@.windows, current@),
                ..old(self)@
            }),
            r@ == old(self)@.given_up(previous@.windows),
    {
        let mut r: Vec<AnimationRequest> = Vec::new();
        let windows = &previous.windows;
        let mut i: usize = 0;
        assert(self@.windows =~= old(self)@.carried(windows@.take(0), current@));
        while i < windows.len()
            invariant
                i <= windows@.len(),
                *windows == previous.windows,
                self@ == (AnimationModel {
                    windows: old(self)@.carried(windows@.take(i as int), current@),
                    ..old(self)@
                }),
                r@ == old(self)@.given_up(windows@.take(i as int)),
            decreases windows@.len() - i,
        {
            assert(windows@.take(i + 1).drop_last() =~= windows@.take(i as int));
            let w: AnimatedWindow = windows[i];
            if contains_window(&self.handled_windows, w.wid) {
                if w.proxy.is_some() {
                    r.push(AnimationRequest::End { wid: w.wid, proxy: w.proxy });
                }
            } else if find_window(&self.windows, w.wid).is_none() {
                let moved: AnimatedWindow = match find_place(current, w.wid) {
                    Some(rect) => AnimatedWindow { start: rect, ..w },
                    None => w,
                };
                self.windows.push(moved);
            }
            assert(self@ =~= AnimationModel {
                windows: old(self)@.carried(windows@.take(i + 1), current@),
                ..old(self)@
            });
            i += 1;
        }
        assert(windows@.take(i as int) =~= windows@);
        r
    }
}

/// Whether two lists hold the same windows in the same places.
pub open spec fn same_ids(a: Seq<AnimatedWindow>, b: Seq<AnimatedWindow>) -> bool {
    a.len() == b.len() && forall|i: int|
        0 <= i < a.len() ==> (#[trigger] a[i]).wid == b[i].wid
}

/// The windows of two animations once the first `n` of one have taken their
/// proxies over from the other.
pub open spec fn adoption(
    own: Seq<AnimatedWindow>,
    theirs: Seq<AnimatedWindow>,
    n: nat,
) -> (Seq<AnimatedWindow>, Seq<AnimatedWindow>)
    decreases n,
{
    if n == 0 {
        (own, theirs)
    } else {
        let (taken, left) = adoption(own, theirs, (n - 1) as nat);
        match position_of(left, own[n - 1].wid) {
            Some(k) => (
                taken.update(n - 1, AnimatedWindow { proxy: left[k].proxy, ..taken[n - 1] }),
                left.update(k, AnimatedWindow { proxy: None, ..left[k] }),
            ),
            None => (taken, left),
        }
    }
}

proof fn lemma_position(windows: Seq<AnimatedWindow>, wid: WindowId)
    ensures
        match position_of(windows, wid) {
            Some(i) => 0 <= i < windows.len() && windows[i].wid == wid && forall|j: int|
                0 <= j < i ==> (#[trigger] windows[j]).wid != wid,
            None => forall|j: int| 0 <= j < windows.len() ==> (#[trigger] windows[j]).wid != wid,
        },
    decreases windows.len(),
{
    let pred = |w: AnimatedWindow| w.wid == wid;
    if exists|i: int| first_at(windows, pred, i) {
        let i = choose|i: int| first_at(windows, pred, i);
        assert(first_at(windows, pred, i));
        assert forall|j: int| 0 <= j < i implies (#[trigger] windows[j]).wid != wid by {
            assert(!pred(windows[j]));
        }
    } else {
        assert forall|j: int| 0 <= j < windows.len() implies (#[trigger] windows[j]).wid != wid by {
            if windows[j].wid == wid {
                lemma_some_first_window(windows, wid, j);
            }
        }
    }
}

proof fn lemma_some_first_window(windows: Seq<AnimatedWindow>, wid: WindowId, j: int)
    requires
        0 <= j < windows.len(),
        windows[j].wid == wid,
    ensures
        position_of(windows, wid) is Some,
    decreases j,
{
    let pred = |w: AnimatedWindow| w.wid == wid;
    if exists|k: int| 0 <= k < j && (#[trigger] windows[k]).wid == wid {
        let k = choose|k: int| 0 <= k < j && (#[trigger] windows[k]).wid == wid;
        lemma_some_first_window(windows, wid, k);
    } else {
        assert forall|k: int| 0 <= k < j implies !pred(#[trigger] windows[k]) by {
            assert(windows[k].wid != wid);
        }
        assert(first_at(windows, pred, j));
    }
}

/// Where a window stands depends on the ids alone.
proof fn lemma_same_positions(a: Seq<AnimatedWindow>, b: Seq<AnimatedWindow>, wid: WindowId)
    requires
        same_ids(a, b),
    ensures
        position_of(a, wid) == position_of(b, wid),
{
    lemma_position(a, wid);
    lemma_position(b, wid);
    match (position_of(a, wid), position_of(b, wid)) {
        (Some(i), Some(j)) => {
            if i < j {
                assert(b[i].wid != wid);
                assert(a[i].wid == b[i].wid);
            } else if j < i {
                assert(a[j].wid != wid);
                assert(a[j].wid == b[j].wid);
            }
        },
        (Some(i), None) => {
            assert(a[i].wid == b[i].wid);
        },
        (None, Some(j)) => {
            assert(a[j].wid == b[j].wid);
        },
        (None, None) => {},
    }
}

/// Where a window goes, by the first entry for it.
pub open spec fn finish_of(windows: Seq<AnimatedWindow>, wid: WindowId) -> Option<Rect> {
    match position_of(windows, wid) {
        Some(i) => Some(windows[i].finish),
        None => None,
    }
}

proof fn lemma_carried_finish(
    m: AnimationModel,
    previous: Seq<AnimatedWindow>,
    current: Seq<(WindowId, Rect)>,
    wid: WindowId,
)
    requires
        !m.handled.contains(wid),
        position_of(m.windows, wid) is None,
    ensures
        finish_of(m.carried(previous, current), wid) == finish_of(previous, wid),
    decreases previous.len(),
{
    if previous.len() == 0 {
        lemma_position(previous, wid);
    } else {
        let shorter = previous.drop_last();
        let rest = m.carried(shorter, current);
        let all = m.carried(previous, current);
        lemma_carried_finish(m, shorter, current, wid);
        lemma_position(shorter, wid);
        lemma_position(previous, wid);
        lemma_position(rest, wid);
        lemma_position(all, wid);
        assert forall|k: int| 0 <= k < shorter.len() implies #[trigger] shorter[k]
            == previous[k] by {}
        assert forall|k: int| 0 <= k < rest.len() implies #[trigger] all[k] == rest[k] by {}
        match position_of(shorter, wid) {
            Some(f) => {
                let p = position_of(rest, wid)->0;
                lemma_same_position(shorter, previous, wid);
                lemma_same_position(rest, all, wid);
                assert(previous[f] == shorter[f]);
                assert(all[p] == rest[p]);
            },
            None => {
                if previous.last().wid == wid {
                    assert(previous[shorter.len() as int].wid == wid);
                    assert(all[rest.len() as int].wid == wid);
                    assert(all.len() == rest.len() + 1);
                }
                if let Some(q) = position_of(previous, wid) {
                    if q < shorter.len() {
                        assert(shorter[q] == previous[q]);
                    }
                    assert(previous[q] == previous.last());
                }
                if let Some(q) = position_of(all, wid) {
                    if q < rest.len() {
                        assert(rest[q] == all[q]);
                    }
                    assert(all[q] == all.last());
                }
            },
        }
    }
}

/// A window keeps its position when entries follow.
proof fn lemma_same_position(shorter: Seq<AnimatedWindow>, longer: Seq<AnimatedWindow>, wid: WindowId)
    requires
        position_of(shorter, wid) is Some,
        shorter.len() <= longer.len(),
        forall|k: int| 0 <= k < shorter.len() ==> #[trigger] shorter[k] == longer[k],
    ensures
        position_of(longer, wid) == position_of(shorter, wid),
{
    lemma_position(shorter, wid);
    lemma_position(longer, wid);
    let f = position_of(shorter, wid)->0;
    assert(shorter[f] == longer[f]);
    let q = position_of(longer, wid)->0;
    if q < f {
        assert(shorter[q] == longer[q]);
    }
}

/// A window that a new animation settles, on its way or not, is not carried
/// over from the one before; any other that was under way is, and still goes
/// where it went.
pub proof fn law_replacement_carries_the_other_windows_over(
    m: AnimationModel,
    previous: Seq<AnimatedWindow>,
    current: Seq<(WindowId, Rect)>,
    i: int,
)
    requires
        0 <= i < previous.len(),
    ensures
        m.carried(previous, current).len() >= m.windows.len(),
        forall|k: int|
            0 <= k < m.windows.len() ==> #[trigger] m.carried(previous, current)[k] == m.windows[k],
        forall|k: int|
            m.windows.len() <= k < m.carried(previous, current).len() ==> !m.handled.contains(
                (#[trigger] m.carried(previous, current)[k]).wid,
            ),
        !m.handled.contains(previous[i].wid) ==> position_of(
            m.carried(previous, current),
            previous[i].wid,
        ) is Some,
        !m.handled.contains(previous[i].wid) && position_of(m.windows, previous[i].wid) is None
            ==> finish_of(m.carried(previous, current), previous[i].wid) == finish_of(
            previous,
            previous[i].wid,
        ),
    decreases previous.len(),
{
    if !m.handled.contains(previous[i].wid) && position_of(m.windows, previous[i].wid) is None {
        lemma_carried_finish(m, previous, current, previous[i].wid);
    }
    let rest = m.carried(previous.drop_last(), current);
    let last = previous.last();
    if previous.len() > 1 {
        let j = if i < previous.len() - 1 {
            i
        } else {
            0
        };
        law_replacement_carries_the_other_windows_over(m, previous.drop_last(), current, j);
        assert(previous.drop_last()[j] == previous[j]);
    } else {
        assert(previous.drop_last().len() == 0);
    }
    let all = m.carried(previous, current);
    assert forall|k: int| 0 <= k < rest.len() implies #[trigger] all[k] == rest[k] by {}
    if !m.handled.contains(previous[i].wid) {
        lemma_position(rest, previous[i].wid);
        lemma_position(all, previous[i].wid);
        if i < previous.len() - 1 {
            let k = position_of(rest, previous[i].wid)->0;
            assert(all[k] == rest[k]);
        } else if position_of(rest, last.wid) is Some {
            let k = position_of(rest, last.wid)->0;
            assert(all[k] == rest[k]);
        } else {
            assert(all[rest.len() as int].wid == last.wid);
        }
    }
}

/// A window that keeps its size is moved without any write of its size.
pub proof fn law_moved_window_keeps_its_size(w: AnimatedWindow, rect: Rect)
    requires
        !w.resizes,
    ensures
        forall|i: int|
            0 <= i < frame_requests(w, rect).len() ==> (#[trigger] frame_requests(
                w,
                rect,
            )[i] matches AnimationRequest::Frame { set_size, .. } && !set_size),
{
}

/// An animation takes as many frames as its duration holds at its rate,
/// counting a begun one, but at least one; no rate means sixty a second.
pub proof fn law_frames_of_a_duration(duration: u64, fps: u32)
    requires
        fps > 0,
        duration * fps <= 1000 * u32::MAX,
    ensures
        frame_count(duration, fps) >= 1,
        frame_count(duration, fps) * 1000 >= duration * fps,
        duration > 0 ==> (frame_count(duration, fps) - 1) * 1000 < duration * fps,
        frame_count(duration, 0) == frame_count(duration, 60),
        frame_interval(0) == frame_interval(60),
{
    assert(0 <= duration * fps) by (nonlinear_arith);
    if duration > 0 {
        assert(duration * fps > 0) by (nonlinear_arith)
            requires
                duration > 0,
                fps > 0,
        ;
    }
}

/// The time between two frames is a second over the rate, to the nearest
/// nanosecond.
pub proof fn law_interval_of_a_rate(fps: u32)
    requires
        fps > 0,
    ensures
        2 * frame_interval(fps) * fps <= 2_000_000_000 + fps,
        2_000_000_000 < 2 * frame_interval(fps) * fps + fps + 1,
{
    let f = fps as int;
    let n = 1_000_000_000 + f / 2;
    let q = n / f;
    assert(frame_interval(fps) == q);
    assert(q * f <= n && n < q * f + f) by (nonlinear_arith)
        requires
            f > 0,
            q == n / f,
    ;
    assert(2 * q * f == 2 * (q * f)) by (nonlinear_arith);
}

/// A window that arrives at once is put where it ends and is let go; behind a
/// proxy it is there already, and only the proxy is given up.
pub proof fn law_finished_window_is_where_it_ends(w: AnimatedWindow)
    ensures
        w.proxy is None ==> finish_requests(w)[0] == (AnimationRequest::Frame {
            wid: w.wid,
            frame: w.finish,
            set_size: true,
            txid: w.txid,
        }),
        finish_requests(w).last() == (AnimationRequest::End { wid: w.wid, proxy: w.proxy }),
        finish_requests(w).len() == if w.proxy is None {
            2int
        } else {
            1
        },
{
}

/// A window that sets out is told so once, with where it ends if it goes
/// behind a proxy; one that goes on without one is not told again. The
/// focused one takes its final size where it starts.
pub proof fn law_window_sets_out_once(w: AnimatedWindow, continuing: Seq<WindowId>)
    ensures
        continuing.contains(w.wid) && w.proxy is None ==> begin_requests(w, continuing).len() == 0,
        !continuing.contains(w.wid) || w.proxy is Some ==> begin_requests(w, continuing).len() > 0
            && begin_requests(w, continuing)[0] == (AnimationRequest::Begin {
            wid: w.wid,
            target: if w.proxy is Some {
                Some(w.finish)
            } else {
                None
            },
            txid: w.txid,
        }),
        !continuing.contains(w.wid) && w.proxy is None && w.is_focus ==> begin_requests(
            w,
            continuing,
        ).len() == 2 && (begin_requests(w, continuing)[1] matches AnimationRequest::Frame {
            wid,
            frame,
            set_size,
            txid,
        } && wid == w.wid && frame.origin == w.start.origin && frame.size == w.finish.size
            && set_size && txid == w.txid),
{
}

/// On a frame a window without a proxy is asked to be where the frame says,
/// with its size only if that changes on the way; one with a proxy is asked
/// nothing.
pub proof fn law_frame_moves_the_window(w: AnimatedWindow, rect: Rect)
    ensures
        w.proxy is Some ==> frame_requests(w, rect).len() == 0,
        w.proxy is None ==> frame_requests(w, rect).len() == 1 && (frame_requests(
            w,
            rect,
        )[0] matches AnimationRequest::Frame { wid, frame, set_size, txid } && wid == w.wid
            && frame.origin == rect.origin && txid == w.txid && (w.is_focus ==> frame.size
            == w.finish.size && !set_size) && (!w.is_focus ==> frame == rect && set_size
            == w.resizes)),
{
}

/// Every window of an animation is finished, in order.
pub proof fn law_every_window_is_finished(windows: Seq<AnimatedWindow>, i: int)
    requires
        0 <= i < windows.len(),
    ensures
        all_finish_requests(windows).contains(
            AnimationRequest::End { wid: windows[i].wid, proxy: windows[i].proxy },
        ),
    decreases windows.len(),
{
    let end = AnimationRequest::End { wid: windows[i].wid, proxy: windows[i].proxy };
    let a = all_finish_requests(windows.drop_last());
    let b = finish_requests(windows.last());
    let all = all_finish_requests(windows);
    if i == windows.len() - 1 {
        assert(b[b.len() - 1] == end);
        assert(all[a.len() + b.len() - 1] == end);
    } else {
        assert(windows.drop_last()[i] == windows[i]);
        law_every_window_is_finished(windows.drop_last(), i);
        let k = a.index_of(end);
        assert(all[k] == end);
    }
}

/// Only a window that changes its size, has a number and has no proxy yet
/// gets one, if one could be made for it.
pub proof fn law_proxies_are_for_resized_windows(w: AnimatedWindow, made: Map<WindowServerId, u64>)
    ensures
        !w.resizes ==> with_proxy(w, made) == w,
        w.proxy is Some ==> with_proxy(w, made) == w,
        w.resizes && w.proxy is None && (w.window_server_id matches Some(n) && made.contains_key(n))
            ==> with_proxy(w, made).proxy == Some(made[w.window_server_id->0]),
        with_proxy(w, made).finish == w.finish,
        with_proxy(w, made).start == w.start,
{
}

/// A window that is under way starts from where it is, and ends where it was
/// to.
pub proof fn law_window_under_way_starts_from_where_it_is(
    m: AnimationModel,
    wid: WindowId,
    rect: Rect,
    i: int,
)
    requires
        0 <= i < m.windows.len(),
        m.windows[i].wid == wid,
        forall|j: int| 0 <= j < i ==> (#[trigger] m.windows[j]).wid != wid,
    ensures
        m.patched(seq![(wid, rect)]).windows[i].start == rect,
        m.patched(seq![(wid, rect)]).windows[i].finish == m.windows[i].finish,
        m.continuing(seq![(wid, rect)]) == seq![wid],
        m.patched(Seq::empty()) == m,
        m.continuing(Seq::empty()).len() == 0,
{
    let one = seq![(wid, rect)];
    assert(one.drop_last() =~= Seq::<(WindowId, Rect)>::empty());
    assert(one.last() == (wid, rect));
    let pred = |w: AnimatedWindow| w.wid == wid;
    assert forall|j: int| 0 <= j < i implies !pred(#[trigger] m.windows[j]) by {}
    lemma_first_index(m.windows, pred, i);
    assert(m.patched(Seq::empty()) == m);
    assert(m.continuing(Seq::empty()) =~= Seq::<WindowId>::empty());
    assert(m.continuing(one) =~= seq![wid]);
}

/// A proxy is given up if its window is settled otherwise.
pub proof fn law_settled_windows_give_up_their_proxy(
    m: AnimationModel,
    previous: Seq<AnimatedWindow>,
    w: AnimatedWindow,
)
    ensures
        m.handled.contains(w.wid) && w.proxy is Some ==> m.given_up(previous.push(w)) == m.given_up(
            previous,
        ).push(AnimationRequest::End { wid: w.wid, proxy: w.proxy }),
        !m.handled.contains(w.wid) || w.proxy is None ==> m.given_up(previous.push(w))
            == m.given_up(previous),
        m.given_up(Seq::empty()).len() == 0,
{
    assert(previous.push(w).drop_last() =~= previous);
}

/// A window that is added is handled, once.
pub proof fn law_added_window_is_handled(m: AnimationModel, w: AnimatedWindow)
    ensures
        m.with_window(w).windows == m.windows.push(w),
        m.with_window(w).handled.contains(w.wid),
        m.marked(w.wid).handled.contains(w.wid),
        m.marked(w.wid).windows == m.windows,
        m.handled.contains(w.wid) ==> m.marked(w.wid) == m,
        m.with_window(w).frames == m.frames,
        m.with_window(w).interval == m.interval,
{
    if !m.handled.contains(w.wid) {
        assert(m.handled.push(w.wid).last() == w.wid);
    }
}

/// A window takes over the proxy that it has in the animation before, which
/// then has none.
pub proof fn law_proxy_is_taken_over(own: AnimatedWindow, theirs: AnimatedWindow)
    requires
        own.wid == theirs.wid,
    ensures
        adoption(seq![own], seq![theirs], 1).0[0].proxy == theirs.proxy,
        adoption(seq![own], seq![theirs], 1).0[0].finish == own.finish,
        adoption(seq![own], seq![theirs], 1).1[0].proxy is None,
{
    reveal_with_fuel(adoption, 2);
    let pred = |w: AnimatedWindow| w.wid == own.wid;
    assert(pred(seq![theirs][0]));
    lemma_first_index(seq![theirs], pred, 0);
}

} // verus!
