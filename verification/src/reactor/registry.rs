//! Keeping track of windows.

use vstd::prelude::*;

use crate::app::WindowId;
use crate::event::{WindowInfo, WindowServerInfo};
use crate::ids::{pid_t, WindowServerId};
use crate::reactor::managers::{WindowDetails, WindowManager, WindowState};

verus! {

/// Whether the layout can manage a window: a standard window at the top level
/// of its application, not minimized, and on the layer of ordinary windows as
/// far as the window server says.
pub open spec fn manageable(
    minimized: bool,
    standard: bool,
    root: bool,
    info: Option<WindowServerInfo>,
) -> bool {
    !minimized && standard && root && (info matches Some(i) ==> i.layer == 0)
}

pub fn compute_window_manageability(
    minimized: bool,
    standard: bool,
    root: bool,
    info: Option<WindowServerInfo>,
) -> (r: bool)
    ensures
        r == manageable(minimized, standard, root, info),
{
    !minimized && standard && root && match info {
        Some(i) => i.layer == 0,
        None => true,
    }
}

impl WindowManager {
    pub open spec fn server_info(&self, wsid: Option<WindowServerId>) -> Option<WindowServerInfo> {
        match wsid {
            Some(w) => if self.window_server_info@.contains_key(w) {
                Some(self.window_server_info@[w])
            } else {
                None
            },
            None => None,
        }
    }

    /// What the window server says of a window, if it has a number there.
    pub fn server_info_of(&self, wsid: Option<WindowServerId>) -> (r: Option<WindowServerInfo>)
        ensures
            r == self.server_info(wsid),
    {
        match wsid {
            Some(w) => self.get_window_server_info(w),
            None => None,
        }
    }

    /// A window's state as first reported.
    pub open spec fn state_of(&self, info: WindowInfo) -> WindowState {
        WindowState {
            sys_id: info.sys_id,
            frame_monotonic: info.frame,
            is_minimized: info.is_minimized,
            is_standard: info.is_standard,
            is_root: info.is_root,
            is_manageable: manageable(
                info.is_minimized,
                info.is_standard,
                info.is_root,
                self.server_info(info.sys_id),
            ),
            ignore_app_rule: false,
        }
    }

    pub fn new_state(&self, info: &WindowInfo) -> (r: WindowState)
        ensures
            r == self.state_of(*info),
    {
        WindowState {
            sys_id: info.sys_id,
            frame_monotonic: info.frame,
            is_minimized: info.is_minimized,
            is_standard: info.is_standard,
            is_root: info.is_root,
            is_manageable: compute_window_manageability(
                info.is_minimized,
                info.is_standard,
                info.is_root,
                self.server_info_of(info.sys_id),
            ),
            ignore_app_rule: false,
        }
    }

    /// Puts a window under the number that the window server gave it.
    pub fn track_window_server_id(&mut self, wsid: WindowServerId, wid: WindowId)
        ensures
            final(self).window_ids@ == old(self).window_ids@.insert(wsid, wid),
            *final(self) == (WindowManager { window_ids: final(self).window_ids, ..*old(self) }),
    {
        let _ = self.window_ids.insert(wsid, wid);
    }

    pub fn clear_window_server_observed(&mut self, wsid: WindowServerId)
        ensures
            final(self).observed_window_server_ids@ == old(self).observed_window_server_ids@.remove(wsid),
            *final(self) == (WindowManager {
                observed_window_server_ids: final(self).observed_window_server_ids,
                ..*old(self)
            }),
    {
        let _ = self.observed_window_server_ids.remove(wsid);
    }

    pub fn mark_window_server_observed(&mut self, wsid: WindowServerId)
        ensures
            final(self).observed_window_server_ids@ == old(self).observed_window_server_ids@.insert(wsid),
            *final(self) == (WindowManager {
                observed_window_server_ids: final(self).observed_window_server_ids,
                ..*old(self)
            }),
    {
        let _ = self.observed_window_server_ids.insert(wsid);
    }

    pub fn track_window_server_info(&mut self, info: WindowServerInfo)
        ensures
            final(self).window_server_info@ == old(self).window_server_info@.insert(info.id, info),
            *final(self) == (WindowManager {
                window_server_info: final(self).window_server_info,
                ..*old(self)
            }),
    {
        let _ = self.window_server_info.insert(info.id, info);
    }

    /// Whether the window server's window is known, tracked or not.
    pub open spec fn knows(&self, wsid: WindowServerId) -> bool {
        self.window_ids@.contains_key(wsid) || self.window_server_info@.contains_key(wsid)
    }

    pub fn knows_window_server_id(&self, wsid: WindowServerId) -> (r: bool)
        ensures
            r == self.knows(wsid),
    {
        self.window_ids.contains_key(wsid) || self.window_server_info.contains_key(wsid)
    }

    pub fn insert_window(&mut self, wid: WindowId, state: WindowState, details: WindowDetails)
        ensures
            final(self).windows@ == old(self).windows@.insert(wid, state),
            final(self).windows.order() == if old(self).windows@.contains_key(wid) {
                old(self).windows.order()
            } else {
                old(self).windows.order().push(wid)
            },
            final(self).details@ == old(self).details@.insert(wid, details),
            *final(self) == (WindowManager {
                windows: final(self).windows,
                details: final(self).details,
                ..*old(self)
            }),
    {
        let _ = self.windows.insert(wid, state);
        let _ = self.details.insert(wid, details);
    }

    /// Changes a tracked window's state.
    pub fn set_window(&mut self, wid: WindowId, state: WindowState)
        requires
            old(self).windows@.contains_key(wid),
        ensures
            final(self).windows@ == old(self).windows@.insert(wid, state),
            final(self).windows.order() == old(self).windows.order(),
            *final(self) == (WindowManager { windows: final(self).windows, ..*old(self) }),
    {
        let _ = self.windows.insert(wid, state);
    }

    pub fn remove_window(&mut self, wid: WindowId)
        ensures
            final(self).windows@ == old(self).windows@.remove(wid),
            final(self).details@ == old(self).details@.remove(wid),
            *final(self) == (WindowManager {
                windows: final(self).windows,
                details: final(self).details,
                ..*old(self)
            }),
    {
        let _ = self.windows.remove(wid);
        let _ = self.details.remove(wid);
    }

    /// Forgets everything under a number of the window server; gives the
    /// window that was tracked under it.
    pub fn remove_window_server_state(&mut self, wsid: WindowServerId) -> (r: Option<WindowId>)
        ensures
            r == old(self).tracked_spec(wsid),
            server_state_removed(*old(self), *final(self), wsid),
    {
        let known: Option<WindowId> = self.tracked_window_id(wsid);
        let _ = self.window_ids.remove(wsid);
        let _ = self.window_server_info.remove(wsid);
        let _ = self.visible_windows.remove(wsid);
        let _ = self.observed_window_server_ids.remove(wsid);
        known
    }

    pub fn mark_window_hidden(&mut self, wsid: WindowServerId)
        ensures
            final(self).visible_windows@ == old(self).visible_windows@.remove(wsid),
            *final(self) == (WindowManager {
                visible_windows: final(self).visible_windows,
                ..*old(self)
            }),
    {
        let _ = self.visible_windows.remove(wsid);
    }

    pub fn clear_visible_windows(&mut self)
        ensures
            final(self).visible_windows@ == Set::<WindowServerId>::empty(),
            *final(self) == (WindowManager {
                visible_windows: final(self).visible_windows,
                ..*old(self)
            }),
    {
        self.visible_windows.clear();
    }

    /// Notes when rules were applied to a window.
    pub fn mark_wsid_recent(&mut self, wsid: WindowServerId, now: u64)
        ensures
            final(self).recent_wsids@ == old(self).recent_wsids@.insert(wsid, now),
            *final(self) == (WindowManager { recent_wsids: final(self).recent_wsids, ..*old(self) }),
    {
        let _ = self.recent_wsids.insert(wsid, now);
    }

    pub open spec fn is_recent(&self, wsid: WindowServerId, ttl: u64, now: u64) -> bool {
        self.recent_wsids@.contains_key(wsid) && now < self.recent_wsids@[wsid] + ttl
    }

    /// The marks that are recent.
    pub open spec fn recent_marks(&self, ttl: u64, now: u64) -> Map<WindowServerId, u64> {
        self.recent_wsids@.restrict(Set::new(|w: WindowServerId| self.is_recent(w, ttl, now)))
    }

    /// Drops the marks that are not recent any more.
    pub fn purge_expired(&mut self, ttl: u64, now: u64)
        ensures
            final(self).recent_wsids@ == old(self).recent_marks(ttl, now),
            *final(self) == (WindowManager { recent_wsids: final(self).recent_wsids, ..*old(self) }),
    {
        let keys: Vec<WindowServerId> = self.recent_wsids.keys();
        let mut i: usize = 0;
        while i < keys.len()
            invariant
                i <= keys@.len(),
                keys@.no_duplicates(),
                forall|w: WindowServerId| #[trigger]
                    keys@.contains(w) <==> old(self).recent_wsids@.contains_key(w),
                *self == (WindowManager { recent_wsids: self.recent_wsids, ..*old(self) }),
                forall|w: WindowServerId| #[trigger]
                    self.recent_wsids@.contains_key(w) <==> old(self).recent_wsids@.contains_key(w)
                        && (old(self).is_recent(w, ttl, now) || !keys@.take(i as int).contains(w)),
                forall|w: WindowServerId| #[trigger]
                    self.recent_wsids@.contains_key(w) ==> self.recent_wsids@[w] == old(
                        self,
                    ).recent_wsids@[w],
            decreases keys@.len() - i,
        {
            let wsid: WindowServerId = keys[i];
            let ghost prev = keys@.take(i as int);
            let ghost next = keys@.take(i + 1);
            proof {
                assert forall|w: WindowServerId| next.contains(w) <==> prev.contains(w) || w
                    == wsid by {
                    if next.contains(w) {
                        let j = choose|j: int| 0 <= j < next.len() && next[j] == w;
                        if j < i {
                            assert(prev[j] == w);
                        }
                    }
                    if prev.contains(w) {
                        let j = choose|j: int| 0 <= j < prev.len() && prev[j] == w;
                        assert(next[j] == w);
                    }
                    assert(next[i as int] == wsid);
                }
                if prev.contains(wsid) {
                    let j = choose|j: int| 0 <= j < prev.len() && prev[j] == wsid;
                    assert(keys@[j] == keys@[i as int]);
                }
                assert(keys@.contains(keys@[i as int]));
            }
            if !self.is_wsid_recent(wsid, ttl, now) {
                let _ = self.recent_wsids.remove(wsid);
            }
            i += 1;
        }
        proof {
            assert(keys@.take(i as int) =~= keys@);
            assert forall|w: WindowServerId| #[trigger]
                self.recent_wsids@.contains_key(w) <==> old(self).is_recent(w, ttl, now) by {
                assert(keys@.contains(w) <==> old(self).recent_wsids@.contains_key(w));
            }
            assert(self.recent_wsids@ =~= old(self).recent_marks(ttl, now));
        }
    }

    pub fn is_wsid_recent(&self, wsid: WindowServerId, ttl: u64, now: u64) -> (r: bool)
        ensures
            r == self.is_recent(wsid, ttl, now),
    {
        match self.recent_wsids.get(wsid) {
            Some(at) => now < *at || now - *at < ttl,
            None => false,
        }
    }

    /// An application's windows, in the order in which they came.
    pub fn window_ids_for_pid(&self, pid: pid_t) -> (r: Vec<WindowId>)
        ensures
            r@ == self.windows.order().filter(|w: WindowId| w.pid == pid),
            forall|w: WindowId| #[trigger]
                r@.contains(w) <==> self.windows@.contains_key(w) && w.pid == pid,
    {
        let all: Vec<WindowId> = self.windows.keys();
        let ghost pred = |w: WindowId| w.pid == pid;
        let mut r: Vec<WindowId> = Vec::new();
        let mut i: usize = 0;
        proof {
            reveal(Seq::filter);
            assert(all@.take(0).filter(pred) =~= Seq::<WindowId>::empty());
        }
        while i < all.len()
            invariant
                i <= all@.len(),
                pred == (|w: WindowId| w.pid == pid),
                r@ == all@.take(i as int).filter(pred),
            decreases all@.len() - i,
        {
            proof {
                reveal(Seq::filter);
                assert(all@.take(i + 1).drop_last() =~= all@.take(i as int));
            }
            if all[i].pid == pid {
                r.push(all[i]);
            }
            i += 1;
        }
        proof {
            assert(all@.take(i as int) =~= all@);
            crate::collections::lemma_filter_members(all@, pred);
        }
        r
    }
}

/// Nothing is left under a number of the window server; all else is the same.
pub open spec fn server_state_removed(
    before: WindowManager,
    after: WindowManager,
    wsid: WindowServerId,
) -> bool {
    &&& after.window_ids@ == before.window_ids@.remove(wsid)
    &&& after.window_server_info@ == before.window_server_info@.remove(wsid)
    &&& after.visible_windows@ == before.visible_windows@.remove(wsid)
    &&& after.observed_window_server_ids@ == before.observed_window_server_ids@.remove(wsid)
    &&& after == (WindowManager {
        window_ids: after.window_ids,
        window_server_info: after.window_server_info,
        visible_windows: after.visible_windows,
        observed_window_server_ids: after.observed_window_server_ids,
        ..before
    })
}

/// A window that was forgotten by the window server is not tracked, visible
/// or known any more.
pub proof fn law_forgotten_window_is_unknown(
    before: WindowManager,
    after: WindowManager,
    wsid: WindowServerId,
)
    requires
        server_state_removed(before, after, wsid),
    ensures
        !after.knows(wsid),
        after.tracked_spec(wsid) is None,
        !after.visible_windows@.contains(wsid),
        after.windows == before.windows,
{
}

/// A window can be managed if it is standard, at the top level, not minimized
/// and not off the ordinary layer, and only then; a new one is as reported,
/// with no rule against it.
pub proof fn law_manageable_windows(m: WindowManager, info: WindowInfo, wsid: WindowServerId)
    requires
        info.sys_id == Some(wsid),
    ensures
        m.state_of(info).is_manageable <==> !info.is_minimized && info.is_standard && info.is_root
            && (m.window_server_info@.contains_key(wsid) ==> m.window_server_info@[wsid].layer
            == 0),
        !m.state_of(info).ignore_app_rule,
        m.state_of(info).frame_monotonic == info.frame,
        m.state_of(info).sys_id == info.sys_id,
        m.state_of(info).is_minimized == info.is_minimized,
{
}

/// A mark is recent for as long as it is given, and expired ones are dropped.
pub proof fn law_marks_expire(m: WindowManager, wsid: WindowServerId, ttl: u64, now: u64)
    ensures
        m.recent_marks(ttl, now).contains_key(wsid) <==> m.recent_wsids@.contains_key(wsid) && now
            < m.recent_wsids@[wsid] + ttl,
        m.recent_marks(ttl, now).contains_key(wsid) ==> m.recent_marks(ttl, now)[wsid]
            == m.recent_wsids@[wsid],
        m.is_recent(wsid, ttl, now) <==> m.recent_marks(ttl, now).contains_key(wsid),
{
}

} // verus!
