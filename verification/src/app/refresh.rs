//! How the app actor lists its application's windows.

use vstd::prelude::*;

use crate::app::actor::{ElementRef, State};
use crate::app::register::visible_cg_peer;
use crate::app::WindowId;
use crate::event::{Event, WindowInfo, WindowServerInfo};
use crate::ids::pid_t;

verus! {

/// The windows that a listing has found so far.
pub struct Refresh {
    pub new: Vec<(WindowId, WindowInfo)>,
    pub known_visible: Vec<WindowId>,
}

/// What to do about a listed element.
pub enum Visit {
    /// Pass it over.
    Skip,
    /// It belongs to a known window and was noted.
    Known(WindowId),
    /// Register its window, then call `registered`.
    Register(WindowInfo),
}

/// A window's id, if it is not minimized.
pub open spec fn visible_entry(wid: WindowId, info: WindowInfo) -> Seq<WindowId> {
    if info.is_minimized {
        Seq::empty()
    } else {
        seq![wid]
    }
}

impl Refresh {
    pub fn new() -> (r: Refresh)
        ensures
            r.new@ == Seq::<(WindowId, WindowInfo)>::empty(),
            r.known_visible@ == Seq::<WindowId>::empty(),
    {
        Refresh { new: Vec::new(), known_visible: Vec::new() }
    }

    fn note(&mut self, wid: WindowId, info: WindowInfo)
        ensures
            final(self).new@ == old(self).new@.push((wid, info)),
            final(self).known_visible@ == old(self).known_visible@ + visible_entry(wid, info),
    {
        if !info.is_minimized {
            self.known_visible.push(wid);
        }
        self.new.push((wid, info));
        assert(self.known_visible@ =~= old(self).known_visible@ + visible_entry(wid, info));
    }

    /// Takes up a listed element. An element that the window server does not
    /// show is passed over unless its window is minimized.
    pub fn visit(
        &mut self,
        state: &State,
        elem: ElementRef,
        hint: Option<WindowServerInfo>,
        info: WindowInfo,
    ) -> (r: Visit)
        ensures
            if !visible_cg_peer(elem.server_id, hint is Some) && !info.is_minimized {
                r == Visit::Skip && *final(self) == *old(self)
            } else {
                match state@.id(elem) {
                    Some(wid) => {
                        &&& r == Visit::Known(wid)
                        &&& final(self).new@ == old(self).new@.push((wid, info))
                        &&& final(self).known_visible@ == old(self).known_visible@ + visible_entry(
                            wid,
                            info,
                        )
                    },
                    None => r == Visit::Register(info) && *final(self) == *old(self),
                }
            },
    {
        if !State::has_visible_cg_peer(elem.server_id, hint) && !info.is_minimized {
            return Visit::Skip;
        }
        match state.id(elem) {
            Some(wid) => {
                self.note(wid, info);
                Visit::Known(wid)
            },
            None => Visit::Register(info),
        }
    }

    /// Notes a window that was just registered: first as it was registered,
    /// then as it was listed.
    pub fn registered(&mut self, wid: WindowId, as_registered: WindowInfo, as_listed: WindowInfo)
        ensures
            final(self).new@ == old(self).new@.push((wid, as_registered)).push((wid, as_listed)),
            final(self).known_visible@ == old(self).known_visible@ + visible_entry(
                wid,
                as_registered,
            ) + visible_entry(wid, as_listed),
    {
        self.note(wid, as_registered);
        self.note(wid, as_listed);
    }

    /// The event that reports the listing.
    pub fn finish(self, pid: pid_t) -> (r: Event)
        ensures
            r == (Event::WindowsDiscovered {
                pid,
                new: self.new,
                known_visible: self.known_visible,
            }),
    {
        Event::WindowsDiscovered { pid, new: self.new, known_visible: self.known_visible }
    }
}

/// The event that reports a listing which failed: no window is visible.
pub fn failed_refresh(pid: pid_t) -> (r: Event)
    ensures
        r matches Event::WindowsDiscovered { pid: p, new, known_visible } && p == pid && new@
            == Seq::<(WindowId, WindowInfo)>::empty() && known_visible@ == Seq::<WindowId>::empty(),
{
    Event::WindowsDiscovered { pid, new: Vec::new(), known_visible: Vec::new() }
}

/// A listed window counts as visible exactly if it is not minimized.
pub proof fn law_minimized_windows_are_not_visible(wid: WindowId, info: WindowInfo)
    ensures
        visible_entry(wid, info).contains(wid) <==> !info.is_minimized,
        info.is_minimized ==> visible_entry(wid, info).len() == 0,
        !info.is_minimized ==> visible_entry(wid, info) == seq![wid],
{
    if !info.is_minimized {
        assert(visible_entry(wid, info)[0] == wid);
    }
}

} // verus!
