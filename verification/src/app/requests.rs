//! How the app actor carries out the reactor's requests.

use vstd::prelude::*;

use crate::app::actor::{
    animating, lemma_animating_insert, AppModel, AppWindowState, AxCode, AxError, AxOutcome,
    PendingFrame, RemovedWindow, State,
};
use crate::app::{Quiet, Request, WindowId};
use crate::collections::order_without;
use crate::event::{Event, MouseState, Requested};
use crate::geometry::{Point, Rect};
use crate::ids::{pid_t, TransactionId, WindowServerId};
use crate::reactor::transactions::WriteRecord;

verus! {

/// A frame to be written to a window: size, position, then size again. While
/// it is written, the application's enhanced user interface is to be off if
/// `pause_enhanced_ui` is set.
#[derive(Copy, Clone, Debug, PartialEq, Eq, Structural)]
pub struct FrameWrite {
    pub wid: WindowId,
    pub elem: u64,
    pub frame: Rect,
    pub txid: TransactionId,
    pub pause_enhanced_ui: bool,
}

/// A position to be written to a window.
#[derive(Copy, Clone, Debug, PartialEq, Eq, Structural)]
pub struct PositionWrite {
    pub wid: WindowId,
    pub elem: u64,
    pub position: Point,
    pub txid: TransactionId,
    pub pause_enhanced_ui: bool,
}

/// An animation frame to be written; only its position if `set_size` is off.
#[derive(Copy, Clone, Debug, PartialEq, Eq, Structural)]
pub struct FrameFlush {
    pub elem: u64,
    pub frame: Rect,
    pub set_size: bool,
}

/// The end of a window's animation.
#[derive(Copy, Clone, Debug, PartialEq, Eq, Structural)]
pub struct AnimationEnd {
    pub wid: WindowId,
    /// A frame that was still pending and is written first.
    pub flushed: Option<FrameFlush>,
    pub elem: u64,
    pub server_id: Option<WindowServerId>,
    pub last_seen_txid: TransactionId,
    /// The frame that the window is to end up with.
    pub final_frame: Option<Rect>,
    pub enable_enhanced_ui: bool,
}

/// What to do next about a request.
pub enum RequestStep {
    /// Nothing is left to do.
    Done,
    /// Stop the actor, and send the event.
    Terminate(Event),
    /// List the application's windows.
    RefreshVisibleWindows,
    /// Close the window of an element.
    Close(u64),
    SetPosition(PositionWrite),
    SetFrame(FrameWrite),
    /// Write a batch of frames, with the enhanced user interface switched off
    /// around the whole batch if `disable_enhanced_ui` is set.
    SetFrames {
        frames: Vec<(WindowId, Rect)>,
        txid: TransactionId,
        eui: bool,
        disable_enhanced_ui: bool,
    },
    /// Stop watching moves and resizes of an element.
    BeginAnimation { elem: u64, disable_enhanced_ui: bool },
    EndAnimation(AnimationEnd),
    /// Queue a raise.
    Raise { windows: Vec<WindowId>, cancel: u64, sequence_id: u64, quiet: Quiet },
    Failed(AxError),
}

/// Whether a request that needs a window of the application names one.
pub open spec fn targets_app(request: Request, pid: pid_t) -> bool {
    match request {
        Request::SetWindowFrame(w, _, _, _) => w.pid == pid,
        Request::SetWindowPos(w, _, _, _) => w.pid == pid,
        Request::SetBatchWindowFrame(frames, _, _) => batch_targets_app(frames@, pid),
        Request::AnimationFrame { wid, .. } => wid.pid == pid,
        Request::BeginWindowAnimation(w) => w.pid == pid,
        Request::EndWindowAnimation(w) => w.pid == pid,
        _ => true,
    }
}

pub open spec fn batch_targets_app(frames: Seq<(WindowId, Rect)>, pid: pid_t) -> bool {
    forall|i: int| 0 <= i < frames.len() ==> (#[trigger] frames[i]).0.pid == pid
}

/// Whether a batch holds a window that is known and at rest.
pub open spec fn batch_has_resting_window(m: AppModel, frames: Seq<(WindowId, Rect)>) -> bool {
    exists|i: int|
        0 <= i < frames.len() && m.windows.contains_key((#[trigger] frames[i]).0)
            && !m.windows[frames[i].0].is_animating
}

/// With the number of a frame write noted on its window.
pub open spec fn with_txid(m: AppModel, wid: WindowId, txid: TransactionId) -> AppModel {
    m.with_window(wid, AppWindowState { last_seen_txid: txid, ..m.windows[wid] })
}

pub open spec fn without_pending(m: AppModel, wid: WindowId) -> AppModel {
    AppModel {
        pending_frames: m.pending_frames.remove(wid),
        pending_order: order_without(m.pending_order, wid),
        ..m
    }
}

/// The books after a window's pending frame was taken to be written.
pub open spec fn after_flush(m: AppModel, wid: WindowId) -> AppModel {
    if !m.pending_frames.contains_key(wid) {
        m
    } else if !m.windows.contains_key(wid) {
        without_pending(m, wid)
    } else {
        let p = m.pending_frames[wid];
        without_pending(m, wid).with_window(
            wid,
            AppWindowState {
                last_seen_txid: p.txid,
                last_animation_frame: if p.set_size {
                    Some(p.frame)
                } else {
                    m.windows[wid].last_animation_frame
                },
                ..m.windows[wid]
            },
        )
    }
}

/// The frame that flushing a window writes.
pub open spec fn flush_write(m: AppModel, wid: WindowId) -> Option<FrameFlush> {
    if m.pending_frames.contains_key(wid) && m.windows.contains_key(wid) {
        let p = m.pending_frames[wid];
        Some(FrameFlush { elem: m.windows[wid].elem, frame: p.frame, set_size: p.set_size })
    } else {
        None
    }
}

pub open spec fn after_flushes(m: AppModel, wids: Seq<WindowId>) -> AppModel
    decreases wids.len(),
{
    if wids.len() == 0 {
        m
    } else {
        after_flush(after_flushes(m, wids.drop_last()), wids.last())
    }
}

pub open spec fn flush_writes(m: AppModel, wids: Seq<WindowId>) -> Seq<FrameFlush>
    decreases wids.len(),
{
    if wids.len() == 0 {
        Seq::empty()
    } else {
        let rest = flush_writes(m, wids.drop_last());
        match flush_write(after_flushes(m, wids.drop_last()), wids.last()) {
            Some(w) => rest.push(w),
            None => rest,
        }
    }
}

/// The next state and step for a request.
pub open spec fn request_step(m: AppModel, request: Request) -> (AppModel, RequestStep) {
    match request {
        Request::Terminate => (m, RequestStep::Terminate(Event::ApplicationThreadTerminated(m.pid))),
        Request::WindowMaybeDestroyed(wid) => (
            m,
            if wid.pid == m.pid && m.windows.contains_key(wid) {
                RequestStep::RefreshVisibleWindows
            } else {
                RequestStep::Done
            },
        ),
        Request::CloseWindow(wid) => (
            m,
            if m.windows.contains_key(wid) {
                RequestStep::Close(m.windows[wid].elem)
            } else {
                RequestStep::Done
            },
        ),
        Request::GetVisibleWindows => (m, RequestStep::RefreshVisibleWindows),
        Request::SetWindowPos(wid, position, txid, eui) => if m.windows.contains_key(wid) {
            (
                with_txid(m, wid, txid),
                RequestStep::SetPosition(
                    PositionWrite {
                        wid,
                        elem: m.windows[wid].elem,
                        position,
                        txid,
                        pause_enhanced_ui: eui && !m.windows[wid].is_animating,
                    },
                ),
            )
        } else {
            (m, RequestStep::Done)
        },
        Request::SetWindowFrame(wid, frame, txid, eui) => if m.windows.contains_key(wid) {
            (
                with_txid(m, wid, txid),
                RequestStep::SetFrame(
                    FrameWrite {
                        wid,
                        elem: m.windows[wid].elem,
                        frame,
                        txid,
                        pause_enhanced_ui: eui && !m.windows[wid].is_animating,
                    },
                ),
            )
        } else {
            (m, RequestStep::Done)
        },
        Request::SetBatchWindowFrame(frames, txid, eui) => (
            m,
            RequestStep::SetFrames {
                frames,
                txid,
                eui,
                disable_enhanced_ui: eui && batch_has_resting_window(m, frames@),
            },
        ),
        Request::AnimationFrame { wid, frame, set_size, txid } => (
            AppModel {
                pending_frames: m.pending_frames.insert(wid, PendingFrame { frame, set_size, txid }),
                pending_order: if m.pending_frames.contains_key(wid) {
                    m.pending_order
                } else {
                    m.pending_order.push(wid)
                },
                ..m
            },
            RequestStep::Done,
        ),
        Request::BeginWindowAnimation(wid) => if !m.windows.contains_key(wid) {
            (m, RequestStep::Failed(AxError::NotFound))
        } else {
            let window = m.windows[wid];
            let started = !window.is_animating;
            let next = AppModel {
                active_animation_count: if started {
                    m.active_animation_count + 1
                } else {
                    m.active_animation_count
                },
                ..m.with_window(
                    wid,
                    AppWindowState { is_animating: true, last_animation_frame: None, ..window },
                )
            };
            (
                next,
                RequestStep::BeginAnimation {
                    elem: window.elem,
                    disable_enhanced_ui: started && next.active_animation_count == 1,
                },
            )
        },
        Request::EndWindowAnimation(wid) => {
            let flushed = after_flush(m, wid);
            if !m.windows.contains_key(wid) {
                (flushed, RequestStep::Done)
            } else {
                let window = flushed.windows[wid];
                let next = AppModel {
                    active_animation_count: if window.is_animating {
                        (m.active_animation_count - 1) as nat
                    } else {
                        m.active_animation_count
                    },
                    ..flushed.with_window(
                        wid,
                        AppWindowState { is_animating: false, last_animation_frame: None, ..window },
                    )
                };
                (
                    next,
                    RequestStep::EndAnimation(
                        AnimationEnd {
                            wid,
                            flushed: flush_write(m, wid),
                            elem: window.elem,
                            server_id: window.window_server_id,
                            last_seen_txid: window.last_seen_txid,
                            final_frame: window.last_animation_frame,
                            enable_enhanced_ui: window.is_animating && next.active_animation_count
                                == 0,
                        },
                    ),
                )
            }
        },
        Request::Raise(windows, cancel, sequence_id, quiet) => (
            m,
            RequestStep::Raise { windows, cancel, sequence_id, quiet },
        ),
    }
}

/// The number of a frame write, if it is one.
pub open spec fn some_txid_spec(txid: TransactionId) -> Option<TransactionId> {
    if txid == TransactionId(0) {
        None
    } else {
        Some(txid)
    }
}

/// The write that a frame is attributed to: the recorded target's, else the
/// last one that the window saw.
pub open spec fn txid_for(
    stored: Option<TransactionId>,
    last_seen: TransactionId,
) -> Option<TransactionId> {
    match stored {
        Some(t) => Some(t),
        None => some_txid_spec(last_seen),
    }
}

/// What a frame read that follows a write or a notification leads to.
pub open spec fn frame_outcome(
    m: AppModel,
    wid: WindowId,
    txid: Option<TransactionId>,
    requested: Requested,
    mouse: Option<MouseState>,
    read: Result<Rect, AxError>,
) -> (AppModel, AxOutcome<Event>) {
    match read {
        Ok(frame) => (
            m,
            AxOutcome::Value(Event::WindowFrameChanged(wid, frame, txid, requested, mouse)),
        ),
        Err(AxError::Ax(AxCode::InvalidUiElement)) => (
            m.without_window(wid),
            if m.windows.contains_key(wid) {
                AxOutcome::Destroyed {
                    removed: RemovedWindow {
                        wid,
                        window: m.windows[wid],
                        restore_enhanced_ui: m.removal_ends_animation(wid),
                    },
                    event: Event::WindowDestroyed(wid),
                }
            } else {
                AxOutcome::Skip
            },
        ),
        Err(AxError::Ax(AxCode::CannotComplete)) | Err(AxError::NotFound) => (m, AxOutcome::Skip),
        Err(error) => (m, AxOutcome::Failed(error)),
    }
}

impl State {
    /// Replaces the record of a known window by one that is animated or not
    /// as before.
    pub(crate) fn update_window(&mut self, wid: WindowId, window: AppWindowState)
        requires
            old(self).wf(),
            old(self)@.windows.contains_key(wid),
            window.elem == old(self)@.windows[wid].elem,
            window.is_animating == old(self)@.windows[wid].is_animating,
        ensures
            final(self).wf(),
            final(self)@ == old(self)@.with_window(wid, window),
    {
        let ghost before = self@;
        proof {
            lemma_animating_insert(before.windows, wid, window);
            if window.is_animating {
                assert(animating(before.windows).insert(wid) =~= animating(before.windows));
            } else {
                assert(animating(before.windows).remove(wid) =~= animating(before.windows));
            }
        }
        let _ = self.windows.insert(wid, window);
        assert(self@ =~= before.with_window(wid, window));
    }

    /// The number of a frame write, if it is one.
    pub fn some_txid(txid: TransactionId) -> (r: Option<TransactionId>)
        ensures
            r == some_txid_spec(txid),
    {
        if txid == TransactionId(0) {
            None
        } else {
            Some(txid)
        }
    }

    /// The number that the transaction store holds for a window: that of the
    /// last write, while the window is on its way to a frame.
    pub fn txid_from_store(record: Option<WriteRecord>) -> (r: Option<TransactionId>)
        ensures
            r == match record {
                Some(w) => if w.target is Some {
                    Some(w.last_sent)
                } else {
                    None
                },
                None => None,
            },
    {
        match record {
            Some(w) => if w.target.is_some() {
                Some(w.last_sent)
            } else {
                None
            },
            None => None,
        }
    }

    /// The write that a window's frame is attributed to. `stored` is the
    /// number that the transaction store holds for the window's target frame.
    pub fn txid_for_window_state(
        stored: Option<TransactionId>,
        last_seen: TransactionId,
    ) -> (r: Option<TransactionId>)
        ensures
            r == txid_for(stored, last_seen),
    {
        match stored {
            Some(t) => Some(t),
            None => State::some_txid(last_seen),
        }
    }

    /// Takes a window's pending animation frame to be written.
    pub fn flush_frames(&mut self, wid: WindowId) -> (r: Result<Option<FrameFlush>, AxError>)
        requires
            old(self).wf(),
        ensures
            final(self).wf(),
            final(self)@ == after_flush(old(self)@, wid),
            r == if old(self)@.pending_frames.contains_key(wid)
                && !old(self)@.windows.contains_key(wid) {
                Err::<Option<FrameFlush>, AxError>(AxError::NotFound)
            } else {
                Ok(flush_write(old(self)@, wid))
            },
    {
        let ghost before = self@;
        match self.pending_frames.remove(wid) {
            None => Ok(None),
            Some(pending) => {
                assert(self@ =~= without_pending(before, wid));
                let window: AppWindowState = match self.windows.get(wid) {
                    Some(w) => *w,
                    None => {
                        return Err(AxError::NotFound);
                    },
                };
                let last_animation_frame = if pending.set_size {
                    Some(pending.frame)
                } else {
                    window.last_animation_frame
                };
                self.update_window(
                    wid,
                    AppWindowState { last_seen_txid: pending.txid, last_animation_frame, ..window },
                );
                Ok(
                    Some(
                        FrameFlush {
                            elem: window.elem,
                            frame: pending.frame,
                            set_size: pending.set_size,
                        },
                    ),
                )
            },
        }
    }

    /// Takes all pending animation frames to be written.
    pub fn flush_all_frames(&mut self) -> (r: Vec<FrameFlush>)
        requires
            old(self).wf(),
        ensures
            final(self).wf(),
            final(self)@ == after_flushes(old(self)@, old(self)@.pending_order),
            r@ == flush_writes(old(self)@, old(self)@.pending_order),
            final(self)@.pending_frames == Map::<WindowId, PendingFrame>::empty(),
    {
        let ghost before = self@;
        let wids: Vec<WindowId> = self.pending_frames.keys();
        let mut writes: Vec<FrameFlush> = Vec::new();
        let mut i: usize = 0;
        while i < wids.len()
            invariant
                i <= wids@.len(),
                self.wf(),
                self@ == after_flushes(before, wids@.take(i as int)),
                writes@ == flush_writes(before, wids@.take(i as int)),
                forall|w: WindowId| #[trigger]
                    self@.pending_frames.contains_key(w) ==> before.pending_frames.contains_key(w)
                        && !wids@.take(i as int).contains(w),
                forall|w: WindowId| #[trigger]
                    before.pending_frames.contains_key(w) ==> wids@.contains(w),
            decreases wids@.len() - i,
        {
            let ghost taken = wids@.take(i + 1);
            assert(taken.drop_last() =~= wids@.take(i as int));
            assert(taken.last() == wids@[i as int]);
            if let Ok(Some(write)) = self.flush_frames(wids[i]) {
                writes.push(write);
            }
            proof {
                assert forall|w: WindowId| #[trigger]
                    self@.pending_frames.contains_key(w) implies before.pending_frames.contains_key(
                    w,
                ) && !taken.contains(w) by {
                    if taken.contains(w) {
                        let k = choose|k: int| 0 <= k < taken.len() && taken[k] == w;
                        if k < i {
                            assert(wids@.take(i as int)[k] == w);
                        }
                    }
                }
            }
            i += 1;
        }
        proof {
            assert(wids@.take(i as int) =~= wids@);
            assert(self@.pending_frames =~= Map::<WindowId, PendingFrame>::empty()) by {
                assert forall|w: WindowId| !self@.pending_frames.contains_key(w) by {
                    if self@.pending_frames.contains_key(w) {
                        assert(wids@.contains(w));
                    }
                }
            }
        }
        writes
    }

    /// The first step of a request.
    pub fn handle_request(&mut self, request: Request) -> (r: RequestStep)
        requires
            old(self).wf(),
            targets_app(request, old(self).pid),
        ensures
            final(self).wf(),
            (final(self)@, r) == request_step(old(self)@, request),
    {
        let ghost before = self@;
        match request {
            Request::Terminate => RequestStep::Terminate(
                Event::ApplicationThreadTerminated(self.pid),
            ),
            Request::WindowMaybeDestroyed(wid) => {
                if wid.pid != self.pid {
                    return RequestStep::Done;
                }
                if !self.windows.contains_key(wid) {
                    return RequestStep::Done;
                }
                RequestStep::RefreshVisibleWindows
            },
            Request::CloseWindow(wid) => match self.windows.get(wid) {
                Some(window) => RequestStep::Close(window.elem),
                None => RequestStep::Done,
            },
            Request::GetVisibleWindows => RequestStep::RefreshVisibleWindows,
            Request::SetWindowPos(wid, position, txid, eui) => match self.begin_write(wid, txid) {
                Some((elem, is_animating)) => RequestStep::SetPosition(
                    PositionWrite {
                        wid,
                        elem,
                        position,
                        txid,
                        pause_enhanced_ui: eui && !is_animating,
                    },
                ),
                None => RequestStep::Done,
            },
            Request::SetWindowFrame(wid, frame, txid, eui) => match self.begin_write(wid, txid) {
                Some((elem, is_animating)) => RequestStep::SetFrame(
                    FrameWrite { wid, elem, frame, txid, pause_enhanced_ui: eui && !is_animating },
                ),
                None => RequestStep::Done,
            },
            Request::SetBatchWindowFrame(frames, txid, eui) => {
                let resting: bool = self.has_resting_window(&frames);
                RequestStep::SetFrames { frames, txid, eui, disable_enhanced_ui: eui && resting }
            },
            Request::AnimationFrame { wid, frame, set_size, txid } => {
                let _ = self.pending_frames.insert(wid, PendingFrame { frame, set_size, txid });
                assert(self@ =~= request_step(before, request).0);
                RequestStep::Done
            },
            Request::BeginWindowAnimation(wid) => self.begin_animation(wid),
            Request::EndWindowAnimation(wid) => self.end_animation(wid),
            Request::Raise(windows, cancel, sequence_id, quiet) => RequestStep::Raise {
                windows,
                cancel,
                sequence_id,
                quiet,
            },
        }
    }

    fn begin_animation(&mut self, wid: WindowId) -> (r: RequestStep)
        requires
            old(self).wf(),
        ensures
            final(self).wf(),
            (final(self)@, r) == request_step(old(self)@, Request::BeginWindowAnimation(wid)),
    {
        let ghost before = self@;
        let window: AppWindowState = match self.windows.get(wid) {
            Some(w) => *w,
            None => {
                return RequestStep::Failed(AxError::NotFound);
            },
        };
        let started: bool = !window.is_animating;
        let next = AppWindowState { is_animating: true, last_animation_frame: None, ..window };
        let count: usize = self.windows.len();
        proof {
            lemma_animating_insert(before.windows, wid, next);
            lemma_animating_insert(before.windows.insert(wid, next), wid, next);
            assert(before.windows.insert(wid, next).dom() =~= before.windows.dom());
            if !started {
                assert(animating(before.windows).insert(wid) =~= animating(before.windows));
            }
            assert(before.active_animation_count + (if started {
                1int
            } else {
                0
            }) <= count);
        }
        let _ = self.windows.insert(wid, next);
        if started {
            self.active_animation_count = self.active_animation_count + 1;
        }
        assert(self@ =~= request_step(before, Request::BeginWindowAnimation(wid)).0);
        RequestStep::BeginAnimation {
            elem: window.elem,
            disable_enhanced_ui: started && self.active_animation_count == 1,
        }
    }

    fn end_animation(&mut self, wid: WindowId) -> (r: RequestStep)
        requires
            old(self).wf(),
        ensures
            final(self).wf(),
            (final(self)@, r) == request_step(old(self)@, Request::EndWindowAnimation(wid)),
    {
        let ghost before = self@;
        let flushed: Option<FrameFlush> = match self.flush_frames(wid) {
            Ok(write) => write,
            Err(_) => None,
        };
        let ghost middle = self@;
        let window: AppWindowState = match self.windows.get(wid) {
            Some(w) => *w,
            None => {
                return RequestStep::Done;
            },
        };
        let ended: bool = window.is_animating;
        let next = AppWindowState { is_animating: false, last_animation_frame: None, ..window };
        proof {
            lemma_animating_insert(middle.windows, wid, next);
            if !ended {
                assert(animating(middle.windows).remove(wid) =~= animating(middle.windows));
            }
        }
        let _ = self.windows.insert(wid, next);
        if ended {
            self.active_animation_count = self.active_animation_count.saturating_sub(1);
        }
        assert(self@ =~= request_step(before, Request::EndWindowAnimation(wid)).0);
        RequestStep::EndAnimation(
            AnimationEnd {
                wid,
                flushed,
                elem: window.elem,
                server_id: window.window_server_id,
                last_seen_txid: window.last_seen_txid,
                final_frame: window.last_animation_frame,
                enable_enhanced_ui: ended && self.active_animation_count == 0,
            },
        )
    }

    /// Notes the number of a frame write on its window; gives the window's
    /// element and whether it is being animated.
    fn begin_write(&mut self, wid: WindowId, txid: TransactionId) -> (r: Option<(u64, bool)>)
        requires
            old(self).wf(),
        ensures
            final(self).wf(),
            match r {
                Some((elem, is_animating)) => {
                    &&& old(self)@.windows.contains_key(wid)
                    &&& elem == old(self)@.windows[wid].elem
                    &&& is_animating == old(self)@.windows[wid].is_animating
                    &&& final(self)@ == with_txid(old(self)@, wid, txid)
                },
                None => !old(self)@.windows.contains_key(wid) && final(self)@ == old(self)@,
            },
    {
        let window: AppWindowState = match self.windows.get(wid) {
            Some(w) => *w,
            None => {
                return None;
            },
        };
        self.update_window(wid, AppWindowState { last_seen_txid: txid, ..window });
        Some((window.elem, window.is_animating))
    }

    fn has_resting_window(&self, frames: &Vec<(WindowId, Rect)>) -> (r: bool)
        ensures
            r == batch_has_resting_window(self@, frames@),
    {
        let mut i: usize = 0;
        while i < frames.len()
            invariant
                i <= frames@.len(),
                forall|j: int|
                    0 <= j < i ==> !(self@.windows.contains_key((#[trigger] frames@[j]).0)
                        && !self@.windows[frames@[j].0].is_animating),
            decreases frames@.len() - i,
        {
            if let Some(window) = self.windows.get(frames[i].0) {
                if !window.is_animating {
                    assert(self@.windows.contains_key(frames@[i as int].0));
                    return true;
                }
            }
            i += 1;
        }
        false
    }

    /// The next write of a batch, from position `from` on, with its position.
    /// Windows that are not known are passed over.
    pub fn next_batch_write(
        &mut self,
        frames: &Vec<(WindowId, Rect)>,
        from: usize,
        txid: TransactionId,
        eui: bool,
        enhanced_ui_disabled: bool,
    ) -> (r: Option<(usize, FrameWrite)>)
        requires
            old(self).wf(),
            from <= frames@.len(),
        ensures
            final(self).wf(),
            match r {
                Some((at, write)) => {
                    let wid = frames@[at as int].0;
                    &&& from <= at < frames@.len()
                    &&& old(self)@.windows.contains_key(wid)
                    &&& forall|j: int|
                        from <= j < at ==> !old(self)@.windows.contains_key(
                            (#[trigger] frames@[j]).0,
                        )
                    &&& final(self)@ == with_txid(old(self)@, wid, txid)
                    &&& write == (FrameWrite {
                        wid,
                        elem: old(self)@.windows[wid].elem,
                        frame: frames@[at as int].1,
                        txid,
                        pause_enhanced_ui: !enhanced_ui_disabled && eui
                            && !old(self)@.windows[wid].is_animating,
                    })
                },
                None => {
                    &&& final(self)@ == old(self)@
                    &&& forall|j: int|
                        from <= j < frames@.len() ==> !old(self)@.windows.contains_key(
                            (#[trigger] frames@[j]).0,
                        )
                },
            },
    {
        let ghost before = self@;
        let mut i: usize = from;
        while i < frames.len()
            invariant
                from <= i <= frames@.len(),
                self.wf(),
                self@ == before,
                before == old(self)@,
                forall|j: int|
                    from <= j < i ==> !before.windows.contains_key((#[trigger] frames@[j]).0),
            decreases frames@.len() - i,
        {
            let (wid, frame) = frames[i];
            if let Some((elem, is_animating)) = self.begin_write(wid, txid) {
                let pause_enhanced_ui = !enhanced_ui_disabled && eui && !is_animating;
                return Some((i, FrameWrite { wid, elem, frame, txid, pause_enhanced_ui }));
            }
            i += 1;
        }
        None
    }

    /// What a frame read that follows a write or a notification leads to.
    pub fn frame_read(
        &mut self,
        wid: WindowId,
        txid: Option<TransactionId>,
        requested: Requested,
        mouse: Option<MouseState>,
        read: Result<Rect, AxError>,
    ) -> (r: AxOutcome<Event>)
        requires
            old(self).wf(),
        ensures
            final(self).wf(),
            (final(self)@, r) == frame_outcome(old(self)@, wid, txid, requested, mouse, read),
    {
        match self.handle_ax_result(wid, read) {
            AxOutcome::Value(frame) => AxOutcome::Value(
                Event::WindowFrameChanged(wid, frame, txid, requested, mouse),
            ),
            AxOutcome::Skip => AxOutcome::Skip,
            AxOutcome::Destroyed { removed, event } => AxOutcome::Destroyed { removed, event },
            AxOutcome::Failed(error) => AxOutcome::Failed(error),
        }
    }
}

/// A frame or position is written to the window's own element, under the
/// number that came with it, which the window then has seen; a window that
/// is not known is left. A window that is being animated does not pause the
/// enhanced interface again.
pub proof fn law_frame_write_goes_to_its_window(
    m: AppModel,
    wid: WindowId,
    frame: Rect,
    txid: TransactionId,
    eui: bool,
)
    ensures
        !m.windows.contains_key(wid) ==> request_step(
            m,
            Request::SetWindowFrame(wid, frame, txid, eui),
        ) == (m, RequestStep::Done),
        m.windows.contains_key(wid) ==> {
            let (next, step) = request_step(m, Request::SetWindowFrame(wid, frame, txid, eui));
            &&& next.windows[wid].last_seen_txid == txid
            &&& next.windows[wid].elem == m.windows[wid].elem
            &&& step == RequestStep::SetFrame(
                FrameWrite {
                    wid,
                    elem: m.windows[wid].elem,
                    frame,
                    txid,
                    pause_enhanced_ui: eui && !m.windows[wid].is_animating,
                },
            )
        },
{
}

/// A frame of an animation waits until it is flushed, and a later one for
/// the same window takes its place; flushing writes the last and leaves
/// none.
pub proof fn law_animation_frames_are_coalesced(
    m: AppModel,
    wid: WindowId,
    a: PendingFrame,
    b: PendingFrame,
)
    requires
        m.windows.contains_key(wid),
    ensures
        ({
            let first = request_step(
                m,
                Request::AnimationFrame { wid, frame: a.frame, set_size: a.set_size, txid: a.txid },
            ).0;
            let second = request_step(
                first,
                Request::AnimationFrame { wid, frame: b.frame, set_size: b.set_size, txid: b.txid },
            ).0;
            &&& second.pending_order == first.pending_order
            &&& flush_write(second, wid) == Some(
                FrameFlush { elem: m.windows[wid].elem, frame: b.frame, set_size: b.set_size },
            )
            &&& !after_flush(second, wid).pending_frames.contains_key(wid)
            &&& after_flush(second, wid).windows[wid].last_seen_txid == b.txid
            &&& b.set_size ==> after_flush(second, wid).windows[wid].last_animation_frame == Some(
                b.frame,
            )
        }),
{
}

/// An animation that begins is counted once, and the first one switches the
/// enhanced interface off; the last one to end switches it on again. A window
/// that begins again, or ends without having begun, is not counted.
pub proof fn law_animations_are_counted(m: AppModel, wid: WindowId)
    requires
        m.windows.contains_key(wid),
        !m.pending_frames.contains_key(wid),
        m.windows[wid].is_animating ==> m.active_animation_count > 0,
    ensures
        ({
            let (begun, begin) = request_step(m, Request::BeginWindowAnimation(wid));
            let (ended, end) = request_step(m, Request::EndWindowAnimation(wid));
            &&& begun.windows[wid].is_animating && !ended.windows[wid].is_animating
            &&& !m.windows[wid].is_animating ==> begun.active_animation_count
                == m.active_animation_count + 1 && ended.active_animation_count
                == m.active_animation_count
            &&& m.windows[wid].is_animating ==> begun.active_animation_count
                == m.active_animation_count && ended.active_animation_count + 1
                == m.active_animation_count
            &&& begin == (RequestStep::BeginAnimation {
                elem: m.windows[wid].elem,
                disable_enhanced_ui: !m.windows[wid].is_animating && m.active_animation_count == 0,
            })
            &&& end matches RequestStep::EndAnimation(e) && e.wid == wid && e.elem
                == m.windows[wid].elem && e.enable_enhanced_ui == (m.windows[wid].is_animating
                && m.active_animation_count == 1) && e.flushed is None
        }),
{
}

/// A window that cannot be found cannot begin an animation; one that is asked
/// to close is closed by its own element; a window that may be gone has the
/// windows read anew if it is known.
pub proof fn law_requests_on_windows(m: AppModel, wid: WindowId)
    ensures
        !m.windows.contains_key(wid) ==> request_step(m, Request::BeginWindowAnimation(wid)).1
            == RequestStep::Failed(AxError::NotFound),
        m.windows.contains_key(wid) ==> request_step(m, Request::CloseWindow(wid)) == (
            m,
            RequestStep::Close(m.windows[wid].elem),
        ),
        !m.windows.contains_key(wid) ==> request_step(m, Request::CloseWindow(wid)) == (
            m,
            RequestStep::Done,
        ),
        m.windows.contains_key(wid) && wid.pid == m.pid ==> request_step(
            m,
            Request::WindowMaybeDestroyed(wid),
        ) == (m, RequestStep::RefreshVisibleWindows),
        !m.windows.contains_key(wid) ==> request_step(m, Request::WindowMaybeDestroyed(wid)) == (
            m,
            RequestStep::Done,
        ),
        request_step(m, Request::GetVisibleWindows) == (m, RequestStep::RefreshVisibleWindows),
        request_step(m, Request::Terminate).1 == RequestStep::Terminate(
            Event::ApplicationThreadTerminated(m.pid),
        ),
{
}

/// A frame that is read is reported with the write it belongs to; a window
/// whose element is gone is destroyed; a window that does not answer is
/// passed over; any other failure is handed on.
pub proof fn law_read_frames_are_reported(
    m: AppModel,
    wid: WindowId,
    txid: Option<TransactionId>,
    requested: Requested,
    mouse: Option<MouseState>,
    frame: Rect,
)
    ensures
        frame_outcome(m, wid, txid, requested, mouse, Ok(frame)) == (
            m,
            AxOutcome::Value(Event::WindowFrameChanged(wid, frame, txid, requested, mouse)),
        ),
        ({
            let r = frame_outcome(
                m,
                wid,
                txid,
                requested,
                mouse,
                Err(AxError::Ax(AxCode::InvalidUiElement)),
            );
            &&& !r.0.windows.contains_key(wid)
            &&& m.windows.contains_key(wid) ==> (r.1 matches AxOutcome::Destroyed { removed, event }
                && event == Event::WindowDestroyed(wid) && removed.wid == wid)
        }),
        frame_outcome(
            m,
            wid,
            txid,
            requested,
            mouse,
            Err(AxError::Ax(AxCode::CannotComplete)),
        ) == (m, AxOutcome::<Event>::Skip),
{
}

/// A write is attributed to the recorded target, or else to the last number
/// seen; zero is no number.
pub proof fn law_writes_are_attributed(stored: TransactionId, last_seen: TransactionId)
    ensures
        txid_for(Some(stored), last_seen) == Some(stored),
        last_seen.0 != 0 ==> txid_for(None, last_seen) == Some(last_seen),
        last_seen.0 == 0 ==> txid_for(None, last_seen) is None,
{
}

/// A batch pauses the enhanced interface only if some window of it is known
/// and at rest.
pub proof fn law_batch_pauses_for_resting_windows(
    m: AppModel,
    frames: Seq<(WindowId, Rect)>,
    i: int,
)
    ensures
        0 <= i < frames.len() && m.windows.contains_key(frames[i].0)
            && !m.windows[frames[i].0].is_animating ==> batch_has_resting_window(m, frames),
        (forall|j: int|
            0 <= j < frames.len() ==> !m.windows.contains_key((#[trigger] frames[j]).0)
                || m.windows[frames[j].0].is_animating) ==> !batch_has_resting_window(m, frames),
{
}

} // verus!
