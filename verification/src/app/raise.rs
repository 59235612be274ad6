//! How the app actor raises windows.

use vstd::prelude::*;

use crate::app::actor::{AxError, State};
use crate::app::{Quiet, WindowId};
use crate::event::Event;
use crate::ids::WindowServerId;

verus! {

#[derive(Copy, Clone, Debug, PartialEq, Eq, Structural)]
pub enum RaiseError {
    RaiseCancelled,
    AXError(AxError),
}

impl From<AxError> for RaiseError {
    fn from(value: AxError) -> (r: Self) {
        RaiseError::AXError(value)
    }
}

impl vstd::std_specs::convert::FromSpecImpl<AxError> for RaiseError {
    open spec fn obeys_from_spec() -> bool {
        true
    }

    open spec fn from_spec(value: AxError) -> Self {
        RaiseError::AXError(value)
    }
}

/// A window to raise. After it was raised the event is sent; after the last
/// one the main window is read, quietly for the given window.
pub struct RaiseStep {
    pub elem: u64,
    pub completed: Event,
    pub is_last: bool,
    pub quiet_if: Option<WindowId>,
}

/// The window that an activation is quiet for.
pub open spec fn quiet_window(quiet: Quiet, wid: WindowId) -> Option<WindowId> {
    if quiet == Quiet::Yes {
        Some(wid)
    } else {
        None
    }
}

pub fn quiet_window_if(quiet: Quiet, wid: WindowId) -> (r: Option<WindowId>)
    ensures
        r == quiet_window(quiet, wid),
{
    if quiet == Quiet::Yes {
        Some(wid)
    } else {
        None
    }
}

/// The server id that is made key, going by a read of it: a window that has
/// none yet is raised without.
pub fn key_window_id(read: Result<WindowServerId, AxError>) -> (r: Result<
    Option<WindowServerId>,
    RaiseError,
>)
    ensures
        r == match read {
            Ok(id) => Ok::<Option<WindowServerId>, RaiseError>(Some(id)),
            Err(AxError::NotFound) => Ok(None),
            Err(error) => Err(RaiseError::AXError(error)),
        },
{
    match read {
        Ok(id) => Ok(Some(id)),
        Err(AxError::NotFound) => Ok(None),
        Err(error) => Err(RaiseError::from(error)),
    }
}

/// Whether the activation of the application is awaited before its windows
/// are raised, and how quiet it and the window change are. Windows before
/// the last are always quiet.
pub open spec fn awaited_activation(
    wids: Seq<WindowId>,
    quiet: Quiet,
    is_frontmost: bool,
    made_key: Option<bool>,
    is_standard: bool,
) -> Option<(Quiet, Option<WindowId>)> {
    if wids.len() == 0 || is_frontmost || made_key != Some(true) || !is_standard {
        None
    } else if wids.len() == 1 {
        Some((quiet, quiet_window(quiet, wids[0])))
    } else {
        Some((Quiet::Yes, Some(wids[0])))
    }
}

/// Decides on waiting for an activation. `made_key` says whether making the
/// first window key was tried and succeeded.
pub fn activation_to_await(
    wids: &Vec<WindowId>,
    quiet: Quiet,
    is_frontmost: bool,
    made_key: Option<bool>,
    is_standard: bool,
) -> (r: Option<(Quiet, Option<WindowId>)>)
    ensures
        r == awaited_activation(wids@, quiet, is_frontmost, made_key, is_standard),
{
    let key_ok: bool = match made_key {
        Some(ok) => ok,
        None => false,
    };
    if wids.len() == 0 || is_frontmost || !key_ok || !is_standard {
        return None;
    }
    if wids.len() == 1 {
        Some((quiet, quiet_window_if(quiet, wids[0])))
    } else {
        Some((Quiet::Yes, Some(wids[0])))
    }
}

impl State {
    /// Whether a raise goes on at a point where it can be cancelled.
    pub fn check_cancel(cancelled: bool) -> (r: Result<(), RaiseError>)
        ensures
            r == if cancelled {
                Err::<(), RaiseError>(RaiseError::RaiseCancelled)
            } else {
                Ok(())
            },
    {
        if cancelled {
            Err(RaiseError::RaiseCancelled)
        } else {
            Ok(())
        }
    }

    /// The element of the first window of a raise, or `None` if there is no
    /// window to raise.
    pub fn first_raise_target(&self, wids: &Vec<WindowId>) -> (r: Result<Option<u64>, RaiseError>)
        requires
            wids@.len() > 0 ==> wids@[0].pid == self.pid,
        ensures
            r == if wids@.len() == 0 {
                Ok::<Option<u64>, RaiseError>(None)
            } else if self@.windows.contains_key(wids@[0]) {
                Ok(Some(self@.windows[wids@[0]].elem))
            } else {
                Err(RaiseError::AXError(AxError::NotFound))
            },
    {
        if wids.len() == 0 {
            return Ok(None);
        }
        match self.windows.get(wids[0]) {
            Some(window) => Ok(Some(window.elem)),
            None => Err(RaiseError::AXError(AxError::NotFound)),
        }
    }

    /// The step for the window at a position of a raise.
    pub fn raise_step(
        &self,
        wids: &Vec<WindowId>,
        i: usize,
        sequence_id: u64,
        quiet: Quiet,
    ) -> (r: Result<RaiseStep, RaiseError>)
        requires
            i < wids@.len(),
            wids@[i as int].pid == self.pid,
        ensures
            r == if self@.windows.contains_key(wids@[i as int]) {
                Ok::<RaiseStep, RaiseError>(
                    RaiseStep {
                        elem: self@.windows[wids@[i as int]].elem,
                        completed: Event::RaiseCompleted {
                            window_id: wids@[i as int],
                            sequence_id,
                        },
                        is_last: i + 1 == wids@.len(),
                        quiet_if: if i + 1 == wids@.len() {
                            quiet_window(quiet, wids@[i as int])
                        } else {
                            None
                        },
                    },
                )
            } else {
                Err(RaiseError::AXError(AxError::NotFound))
            },
    {
        let wid: WindowId = wids[i];
        match self.windows.get(wid) {
            Some(window) => {
                let is_last: bool = i == wids.len() - 1;
                let quiet_if = if is_last {
                    quiet_window_if(quiet, wid)
                } else {
                    None
                };
                Ok(
                    RaiseStep {
                        elem: window.elem,
                        completed: Event::RaiseCompleted { window_id: wid, sequence_id },
                        is_last,
                        quiet_if,
                    },
                )
            },
            None => Err(RaiseError::AXError(AxError::NotFound)),
        }
    }
}

/// The activation of an application is awaited only for windows to raise, if
/// it is not in front, its first window was made key and is a standard one.
/// A single window is as quiet as asked; several are quiet but for the last.
pub proof fn law_activation_is_awaited(wids: Seq<WindowId>, quiet: Quiet, made_key: Option<bool>)
    ensures
        awaited_activation(wids, quiet, true, made_key, true) is None,
        awaited_activation(wids, quiet, false, made_key, false) is None,
        made_key != Some(true) ==> awaited_activation(wids, quiet, false, made_key, true) is None,
        wids.len() == 0 ==> awaited_activation(wids, quiet, false, made_key, true) is None,
        wids.len() == 1 ==> awaited_activation(wids, Quiet::No, false, Some(true), true) == Some(
            (Quiet::No, None::<WindowId>),
        ) && awaited_activation(wids, Quiet::Yes, false, Some(true), true) == Some(
            (Quiet::Yes, Some(wids[0])),
        ),
        wids.len() > 1 ==> awaited_activation(wids, quiet, false, Some(true), true) == Some(
            (Quiet::Yes, Some(wids[0])),
        ),
{
}

} // verus!
