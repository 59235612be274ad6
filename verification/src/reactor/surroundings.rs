//! What the system answers when the reactor looks around.

use vstd::prelude::*;

use crate::collections::{IdMap, IdSet};
use crate::event::{MouseState, WindowServerInfo};
use crate::geometry::Point;
use crate::ids::{SpaceId, WindowServerId};

verus! {

/// The latest time, in milliseconds, at which the reactor is asked anything:
/// deadlines of up to a minute are still representable.
pub const TIME_LIMIT: u64 = 0xffff_ffff_ffff_0000;

/// The system as it is while one step is taken.
pub struct Surroundings {
    /// Milliseconds on a clock that never goes back.
    pub now: u64,
    pub cursor: Option<Point>,
    pub window_under_cursor: Option<WindowServerId>,
    /// The space that the system calls active.
    pub active_space: Option<SpaceId>,
    /// The space that each window is on, as far as the window server says.
    pub window_spaces: IdMap<WindowServerId, SpaceId>,
    /// All the spaces that each window is on.
    pub every_space: IdMap<WindowServerId, Vec<SpaceId>>,
    /// The spaces that hold ordinary windows.
    pub user_spaces: IdSet<SpaceId>,
    /// The spaces made for one fullscreen window.
    pub fullscreen_spaces: IdSet<SpaceId>,
    /// The windows that the window server knows.
    pub server_windows: IdMap<WindowServerId, WindowServerInfo>,
    pub mouse: Option<MouseState>,
    /// The number of the displays' last reconfiguration.
    pub display_epoch: u64,
}

impl Surroundings {
    pub open spec fn wf(&self) -> bool {
        &&& self.now <= TIME_LIMIT
        &&& self.cursor matches Some(p) ==> p.in_range()
        &&& forall|w: WindowServerId| #[trigger]
            self.server_windows@.contains_key(w) ==> self.server_windows@[w].frame.in_range()
    }

    pub open spec fn space_of(&self, wsid: WindowServerId) -> Option<SpaceId> {
        if self.window_spaces@.contains_key(wsid) {
            Some(self.window_spaces@[wsid])
        } else {
            None
        }
    }

    pub open spec fn server_window(&self, wsid: WindowServerId) -> Option<WindowServerInfo> {
        if self.server_windows@.contains_key(wsid) {
            Some(self.server_windows@[wsid])
        } else {
            None
        }
    }

    /// The space a window is on.
    pub fn window_space(&self, wsid: WindowServerId) -> (r: Option<SpaceId>)
        ensures
            r == self.space_of(wsid),
    {
        match self.window_spaces.get(wsid) {
            Some(s) => Some(*s),
            None => None,
        }
    }

    /// What the window server says of a window.
    pub fn get_window(&self, wsid: WindowServerId) -> (r: Option<WindowServerInfo>)
        ensures
            r == self.server_window(wsid),
    {
        match self.server_windows.get(wsid) {
            Some(i) => Some(*i),
            None => None,
        }
    }

    pub fn space_is_user(&self, space: SpaceId) -> (r: bool)
        ensures
            r == self.user_spaces@.contains(space),
    {
        self.user_spaces.contains(space)
    }

    pub fn space_is_fullscreen(&self, space: SpaceId) -> (r: bool)
        ensures
            r == self.fullscreen_spaces@.contains(space),
    {
        self.fullscreen_spaces.contains(space)
    }

    /// Whether the active space holds ordinary windows.
    pub fn active_space_is_user(&self) -> (r: bool)
        ensures
            r == (self.active_space matches Some(s) && self.user_spaces@.contains(s)),
    {
        match self.active_space {
            Some(s) => self.user_spaces.contains(s),
            None => false,
        }
    }
}

} // verus!
