//! The app actor's bookkeeping of one application's windows.
//!
//! The actor alternates accessibility calls with decisions. Each function
//! here takes what a call returned and says what to record, which event to
//! send and which call comes next. Accessibility elements are known by
//! tokens, times are milliseconds of a monotonic clock.

use vstd::prelude::*;
use vstd::set_lib::*;

use crate::app::{Quiet, WindowId};
use crate::collections::{order_without, IdMap};
use crate::event::Event;
use crate::geometry::Rect;
use crate::ids::{pid_t, TransactionId, WindowServerId};
use crate::text::contains;

verus! {

/// An accessibility failure code.
#[derive(Copy, Clone, Debug, PartialEq, Eq, Structural)]
pub enum AxCode {
    CannotComplete,
    InvalidUiElement,
    NotificationAlreadyRegistered,
    Other,
}

#[derive(Copy, Clone, Debug, PartialEq, Eq, Structural)]
pub enum AxError {
    Ax(AxCode),
    NotFound,
}

/// An accessibility element, with the window server id that it reports.
#[derive(Copy, Clone, Debug, PartialEq, Eq, Structural)]
pub struct ElementRef {
    pub token: u64,
    pub server_id: Option<WindowServerId>,
}

/// What the actor knows of one window.
#[derive(Copy, Clone, Debug, PartialEq, Eq, Structural)]
pub struct AppWindowState {
    pub elem: u64,
    pub last_seen_txid: TransactionId,
    pub hidden_by_app: bool,
    pub window_server_id: Option<WindowServerId>,
    pub is_animating: bool,
    pub last_animation_frame: Option<Rect>,
}

/// The latest animation frame that was not written yet.
#[derive(Copy, Clone, Debug, PartialEq, Eq, Structural)]
pub struct PendingFrame {
    pub frame: Rect,
    pub set_size: bool,
    pub txid: TransactionId,
}

/// An activation that the actor asked for and waits to see.
#[derive(Copy, Clone, Debug, PartialEq, Eq, Structural)]
pub struct LastActivation {
    pub at: u64,
    pub quiet: Quiet,
    pub window: Option<WindowId>,
    pub waiter: u64,
}

/// The state of one application's actor.
pub struct State {
    pub pid: pid_t,
    pub bundle_id: Option<String>,
    pub windows: IdMap<WindowId, AppWindowState>,
    pub elem_to_wid: IdMap<u64, WindowId>,
    pub last_window_idx: u32,
    pub main_window: Option<WindowId>,
    pub last_activated: Option<LastActivation>,
    pub is_hidden: bool,
    pub is_frontmost: bool,
    pub active_animation_count: usize,
    pub pending_frames: IdMap<WindowId, PendingFrame>,
}

/// The mathematical content of a [`State`].
#[verifier::ext_equal]
pub struct AppModel {
    pub pid: pid_t,
    pub bundle_id: Option<Seq<char>>,
    pub windows: Map<WindowId, AppWindowState>,
    pub window_order: Seq<WindowId>,
    pub elem_to_wid: Map<u64, WindowId>,
    pub last_window_idx: u32,
    pub main_window: Option<WindowId>,
    pub last_activated: Option<LastActivation>,
    pub is_hidden: bool,
    pub is_frontmost: bool,
    pub active_animation_count: nat,
    pub pending_frames: Map<WindowId, PendingFrame>,
    pub pending_order: Seq<WindowId>,
}

pub open spec fn text_of(s: Option<String>) -> Option<Seq<char>> {
    match s {
        Some(t) => Some(t@),
        None => None,
    }
}

impl View for State {
    type V = AppModel;

    open spec fn view(&self) -> AppModel {
        AppModel {
            pid: self.pid,
            bundle_id: text_of(self.bundle_id),
            windows: self.windows@,
            window_order: self.windows.order(),
            elem_to_wid: self.elem_to_wid@,
            last_window_idx: self.last_window_idx,
            main_window: self.main_window,
            last_activated: self.last_activated,
            is_hidden: self.is_hidden,
            is_frontmost: self.is_frontmost,
            active_animation_count: self.active_animation_count as nat,
            pending_frames: self.pending_frames@,
            pending_order: self.pending_frames.order(),
        }
    }
}

/// The windows that are being animated.
pub open spec fn animating(windows: Map<WindowId, AppWindowState>) -> Set<WindowId> {
    windows.dom().filter(|w: WindowId| windows[w].is_animating)
}

impl AppModel {
    /// Every window belongs to the application, every element leads to the
    /// window that holds it, and the animation count is the number of
    /// windows that are being animated.
    pub open spec fn wf(self) -> bool {
        &&& self.windows.dom().finite()
        &&& forall|w: WindowId| #[trigger]
            self.windows.contains_key(w) ==> w.pid == self.pid && w.valid()
        &&& forall|e: u64| #[trigger]
            self.elem_to_wid.contains_key(e) ==> self.windows.contains_key(self.elem_to_wid[e])
                && self.windows[self.elem_to_wid[e]].elem == e
        &&& forall|w: WindowId| #[trigger] self.pending_frames.contains_key(w) ==> w.pid == self.pid
        &&& self.active_animation_count == animating(self.windows).len()
    }

    /// The window that an element belongs to, by its server id or by itself.
    pub open spec fn id(self, elem: ElementRef) -> Option<WindowId> {
        match elem.server_id {
            Some(s) if s.0 != 0 && self.windows.contains_key(
                WindowId { pid: self.pid, idx: s.0 },
            ) => Some(WindowId { pid: self.pid, idx: s.0 }),
            _ => if self.elem_to_wid.contains_key(elem.token) {
                Some(self.elem_to_wid[elem.token])
            } else {
                None
            },
        }
    }

    /// The window that a notification is about: the one it was registered
    /// with if that belongs to this application, else the element's.
    pub open spec fn wid_for_notification(
        self,
        elem: ElementRef,
        hinted_wid: Option<WindowId>,
    ) -> Option<WindowId> {
        match hinted_wid {
            Some(w) if w.pid == self.pid => Some(w),
            _ => self.id(elem),
        }
    }

    /// With one window's record replaced or added.
    pub open spec fn with_window(self, wid: WindowId, window: AppWindowState) -> AppModel {
        AppModel {
            windows: self.windows.insert(wid, window),
            window_order: if self.windows.contains_key(wid) {
                self.window_order
            } else {
                self.window_order.push(wid)
            },
            ..self
        }
    }

    /// Without a window.
    pub open spec fn without_window(self, wid: WindowId) -> AppModel {
        if self.windows.contains_key(wid) {
            AppModel {
                windows: self.windows.remove(wid),
                window_order: order_without(self.window_order, wid),
                elem_to_wid: self.elem_to_wid.remove(self.windows[wid].elem),
                active_animation_count: if self.windows[wid].is_animating {
                    (self.active_animation_count - 1) as nat
                } else {
                    self.active_animation_count
                },
                ..self
            }
        } else {
            self
        }
    }

    /// Whether removing a window ends the last running animation.
    pub open spec fn removal_ends_animation(self, wid: WindowId) -> bool {
        self.windows.contains_key(wid) && self.windows[wid].is_animating
            && self.active_animation_count == 1
    }
}

pub proof fn lemma_animating_insert(
    windows: Map<WindowId, AppWindowState>,
    wid: WindowId,
    window: AppWindowState,
)
    requires
        windows.dom().finite(),
    ensures
        animating(windows).finite(),
        animating(windows.insert(wid, window)) == if window.is_animating {
            animating(windows).insert(wid)
        } else {
            animating(windows).remove(wid)
        },
        animating(windows).contains(wid) <==> windows.contains_key(wid)
            && windows[wid].is_animating,
        windows.insert(wid, window).dom().finite(),
        animating(windows).len() <= windows.dom().len(),
{
    assert(animating(windows.insert(wid, window)) =~= if window.is_animating {
        animating(windows).insert(wid)
    } else {
        animating(windows).remove(wid)
    });
    lemma_len_subset(animating(windows), windows.dom());
}

proof fn lemma_animating_remove(windows: Map<WindowId, AppWindowState>, wid: WindowId)
    requires
        windows.dom().finite(),
    ensures
        animating(windows).finite(),
        animating(windows.remove(wid)) == animating(windows).remove(wid),
        animating(windows).contains(wid) <==> windows.contains_key(wid)
            && windows[wid].is_animating,
{
    assert(animating(windows.remove(wid)) =~= animating(windows).remove(wid));
}

/// Well-formedness is a matter of the window books alone.
pub proof fn lemma_same_books(before: AppModel, after: AppModel)
    requires
        before.wf(),
        after.pid == before.pid,
        after.windows == before.windows,
        after.elem_to_wid == before.elem_to_wid,
        after.pending_frames == before.pending_frames,
        after.active_animation_count == before.active_animation_count,
    ensures
        after.wf(),
{
}

/// A window that was dropped from the books.
#[derive(Copy, Clone, Debug, PartialEq, Eq, Structural)]
pub struct RemovedWindow {
    pub wid: WindowId,
    pub window: AppWindowState,
    /// The last animation of the application ended with the window, so its
    /// enhanced user interface is to be switched on again.
    pub restore_enhanced_ui: bool,
}

/// What became of an accessibility read.
pub enum AxOutcome<T> {
    /// The value that was read.
    Value(T),
    /// Nothing was read, and nothing is to be done.
    Skip,
    /// The window is gone. The event is to be sent, then the main window read
    /// again, quietly for the removed window.
    Destroyed { removed: RemovedWindow, event: Event },
    /// The failure is reported.
    Failed(AxError),
}

impl State {
    pub open spec fn wf(&self) -> bool {
        self@.wf()
    }

    pub fn new(pid: pid_t, bundle_id: Option<String>) -> (r: State)
        ensures
            r.wf(),
            r@ == (AppModel {
                pid,
                bundle_id: text_of(bundle_id),
                windows: Map::empty(),
                window_order: Seq::empty(),
                elem_to_wid: Map::empty(),
                last_window_idx: 0,
                main_window: None,
                last_activated: None,
                is_hidden: false,
                is_frontmost: false,
                active_animation_count: 0,
                pending_frames: Map::empty(),
                pending_order: Seq::empty(),
            }),
    {
        let r = State {
            pid,
            bundle_id,
            windows: IdMap::new(),
            elem_to_wid: IdMap::new(),
            last_window_idx: 0,
            main_window: None,
            last_activated: None,
            is_hidden: false,
            is_frontmost: false,
            active_animation_count: 0,
            pending_frames: IdMap::new(),
        };
        assert(animating(r.windows@) =~= Set::<WindowId>::empty());
        r
    }

    pub fn id(&self, elem: ElementRef) -> (r: Option<WindowId>)
        ensures
            r == self@.id(elem),
    {
        if let Some(s) = elem.server_id {
            if s.0 != 0 {
                let wid = WindowId { pid: self.pid, idx: s.0 };
                if self.windows.contains_key(wid) {
                    return Some(wid);
                }
            }
        }
        match self.elem_to_wid.get(elem.token) {
            Some(w) => Some(*w),
            None => None,
        }
    }

    pub fn wid_for_notification(
        &self,
        elem: ElementRef,
        hinted_wid: Option<WindowId>,
    ) -> (r: Option<WindowId>)
        ensures
            r == self@.wid_for_notification(elem, hinted_wid),
    {
        match hinted_wid {
            Some(w) if w.pid == self.pid => Some(w),
            _ => self.id(elem),
        }
    }

    /// Drops a window from the books.
    pub fn remove_window(&mut self, wid: WindowId) -> (r: Option<RemovedWindow>)
        requires
            old(self).wf(),
        ensures
            final(self).wf(),
            final(self)@ == old(self)@.without_window(wid),
            r == if old(self)@.windows.contains_key(wid) {
                Some(
                    RemovedWindow {
                        wid,
                        window: old(self)@.windows[wid],
                        restore_enhanced_ui: old(self)@.removal_ends_animation(wid),
                    },
                )
            } else {
                None
            },
            r matches Some(removed) && removed.window.is_animating
                ==> old(self).active_animation_count > 0,
    {
        let ghost before = self@;
        proof {
            lemma_animating_remove(self@.windows, wid);
        }
        match self.windows.remove(wid) {
            None => None,
            Some(window) => {
                let _ = self.elem_to_wid.remove(window.elem);
                if window.is_animating {
                    self.active_animation_count = self.active_animation_count.saturating_sub(1);
                }
                assert(self@ =~= before.without_window(wid));
                let restore_enhanced_ui = window.is_animating && self.active_animation_count == 0;
                Some(RemovedWindow { wid, window, restore_enhanced_ui })
            },
        }
    }

    /// Drops a window that turned out to be gone; tells whether the failure
    /// says so, and what to send.
    pub fn handle_ax_error(&mut self, wid: WindowId, code: AxCode) -> (r: (
        bool,
        Option<RemovedWindow>,
    ))
        requires
            old(self).wf(),
        ensures
            final(self).wf(),
            r.0 == (code == AxCode::InvalidUiElement),
            r.0 ==> {
                &&& final(self)@ == old(self)@.without_window(wid)
                &&& r.1 is Some <==> old(self)@.windows.contains_key(wid)
                &&& r.1 matches Some(removed) ==> removed == (RemovedWindow {
                    wid,
                    window: old(self)@.windows[wid],
                    restore_enhanced_ui: old(self)@.removal_ends_animation(wid),
                })
            },
            !r.0 ==> final(self)@ == old(self)@ && r.1 is None,
    {
        if code == AxCode::InvalidUiElement {
            let removed = self.remove_window(wid);
            return (true, removed);
        }
        (false, None)
    }

    /// Sorts the result of an accessibility read on a window.
    pub fn handle_ax_result<T>(&mut self, wid: WindowId, result: Result<T, AxError>) -> (r:
        AxOutcome<T>)
        requires
            old(self).wf(),
        ensures
            final(self).wf(),
            match result {
                Ok(value) => r == AxOutcome::Value(value) && final(self)@ == old(self)@,
                Err(AxError::Ax(AxCode::InvalidUiElement)) => {
                    &&& final(self)@ == old(self)@.without_window(wid)
                    &&& r == if old(self)@.windows.contains_key(wid) {
                        AxOutcome::<T>::Destroyed {
                            removed: RemovedWindow {
                                wid,
                                window: old(self)@.windows[wid],
                                restore_enhanced_ui: old(self)@.removal_ends_animation(wid),
                            },
                            event: Event::WindowDestroyed(wid),
                        }
                    } else {
                        AxOutcome::<T>::Skip
                    }
                },
                Err(AxError::Ax(AxCode::CannotComplete)) | Err(AxError::NotFound) => r
                    == AxOutcome::<T>::Skip && final(self)@ == old(self)@,
                Err(error) => r == AxOutcome::<T>::Failed(error) && final(self)@ == old(self)@,
            },
    {
        match result {
            Ok(value) => AxOutcome::Value(value),
            Err(AxError::NotFound) => AxOutcome::Skip,
            Err(AxError::Ax(AxCode::CannotComplete)) => AxOutcome::Skip,
            Err(AxError::Ax(code)) => {
                let (handled, removed) = self.handle_ax_error(wid, code);
                if handled {
                    match removed {
                        Some(removed) => AxOutcome::Destroyed {
                            removed,
                            event: Event::WindowDestroyed(wid),
                        },
                        None => AxOutcome::Skip,
                    }
                } else {
                    AxOutcome::Failed(AxError::Ax(code))
                }
            },
        }
    }
}

/// An element is its window's: by the window server's number if that is known
/// here, or else by the element itself.
pub proof fn law_element_leads_to_its_window(m: AppModel, elem: ElementRef, n: WindowServerId)
    ensures
        elem.server_id == Some(n) && n.0 != 0 && m.windows.contains_key(
            WindowId { pid: m.pid, idx: n.0 },
        ) ==> m.id(elem) == Some(WindowId { pid: m.pid, idx: n.0 }),
        elem.server_id is None && m.elem_to_wid.contains_key(elem.token) ==> m.id(elem) == Some(
            m.elem_to_wid[elem.token],
        ),
        elem.server_id is None && !m.elem_to_wid.contains_key(elem.token) ==> m.id(elem) is None,
        elem.server_id == Some(n) && !m.windows.contains_key(WindowId { pid: m.pid, idx: n.0 })
            && m.elem_to_wid.contains_key(elem.token) ==> m.id(elem) == Some(
            m.elem_to_wid[elem.token],
        ),
{
}

/// A notification is about the window it was registered with, if that is the
/// application's, or else about its element's.
pub proof fn law_notification_is_about_its_window(m: AppModel, elem: ElementRef, w: WindowId)
    ensures
        w.pid == m.pid ==> m.wid_for_notification(elem, Some(w)) == Some(w),
        w.pid != m.pid ==> m.wid_for_notification(elem, Some(w)) == m.id(elem),
        m.wid_for_notification(elem, None) == m.id(elem),
{
}

/// A window that is removed is gone with its element, and no other is; its
/// animation no longer counts, and if it was the last, the animations are
/// over.
pub proof fn law_removed_window_is_gone(m: AppModel, wid: WindowId, other: WindowId)
    requires
        m.wf(),
        m.windows.contains_key(wid),
        other != wid,
    ensures
        ({
            let r = m.without_window(wid);
            &&& !r.windows.contains_key(wid)
            &&& !r.elem_to_wid.contains_key(m.windows[wid].elem)
            &&& r.windows.contains_key(other) == m.windows.contains_key(other)
            &&& m.windows.contains_key(other) ==> r.windows[other] == m.windows[other]
            &&& !m.windows[wid].is_animating ==> r.active_animation_count
                == m.active_animation_count && !m.removal_ends_animation(wid)
            &&& m.windows[wid].is_animating ==> r.active_animation_count + 1
                == m.active_animation_count && m.removal_ends_animation(wid) == (
            r.active_animation_count == 0)
            &&& !m.windows.contains_key(other) ==> m.without_window(other) == m
        }),
{
    lemma_animating_remove(m.windows, wid);
    if m.windows[wid].is_animating {
        assert(animating(m.windows).contains(wid));
        assert(animating(m.windows).len() > 0) by {
            if animating(m.windows).len() == 0 {
                assert(animating(m.windows) =~= Set::<WindowId>::empty());
            }
        }
    }
}

} // verus!
