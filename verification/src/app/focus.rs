//! The app actor's view of activation, the main window and vanished windows.

use vstd::prelude::*;

use crate::app::actor::{lemma_same_books, AppModel, AxError, ElementRef, LastActivation, State};
use crate::app::notifications::OWN_ACTIVATION_WINDOW;
use crate::app::{Quiet, WindowId};
use crate::collections::{lemma_filter_keeps_all, lemma_filter_members};
use crate::event::Event;

verus! {

/// What a read of the application's main window leads to.
pub enum MainWindowStep {
    /// It could not be read.
    Unreadable,
    /// It is not a known window, and no longer is one recorded; the event is
    /// sent if one was.
    Cleared(Option<Event>),
    /// It is a known window: call `main_window_settled`.
    Known(WindowId),
    /// It is a new window: register it, send `WindowCreated`, then call
    /// `main_window_settled`.
    Register,
}

/// What a change of activation leads to. The waiter is released first, then
/// the main window is read, then the event is sent.
pub struct ActivationOutcome {
    pub release: Option<u64>,
    pub read_main_window: bool,
    pub quiet_if: Option<WindowId>,
    pub event: Option<Event>,
}

/// Whether an activation at `now` is the one that the actor asked for.
pub open spec fn by_us(activation: LastActivation, now: u64) -> bool {
    now < activation.at || now - activation.at < OWN_ACTIVATION_WINDOW
}

pub open spec fn activation_outcome(m: AppModel, is_frontmost: bool, now: u64) -> (
    AppModel,
    ActivationOutcome,
) {
    let changed = m.is_frontmost != is_frontmost;
    if !is_frontmost {
        (
            AppModel { is_frontmost, ..m },
            ActivationOutcome {
                release: None,
                read_main_window: false,
                quiet_if: None,
                event: if changed {
                    Some(Event::ApplicationDeactivated(m.pid))
                } else {
                    None
                },
            },
        )
    } else {
        let (quiet, window) = match m.last_activated {
            Some(a) if by_us(a, now) => (a.quiet, a.window),
            _ => (Quiet::No, None),
        };
        (
            AppModel { is_frontmost, last_activated: None, ..m },
            ActivationOutcome {
                release: match m.last_activated {
                    Some(a) => Some(a.waiter),
                    None => None,
                },
                read_main_window: true,
                quiet_if: window,
                event: if changed {
                    Some(Event::ApplicationActivated(m.pid, quiet))
                } else {
                    None
                },
            },
        )
    }
}

/// What happened while an activation was awaited.
#[derive(Copy, Clone, Debug, PartialEq, Eq, Structural)]
pub enum WaitEvent {
    Signalled,
    Cancelled,
    Tick { frontmost: bool },
}

#[derive(Copy, Clone, Debug, PartialEq, Eq, Structural)]
pub enum WaitStep {
    Activated,
    Cancelled,
    KeepWaiting,
}

/// Whether the wait for an activation is over.
pub fn activation_wait_step(event: WaitEvent) -> (r: WaitStep)
    ensures
        r == match event {
            WaitEvent::Signalled => WaitStep::Activated,
            WaitEvent::Cancelled => WaitStep::Cancelled,
            WaitEvent::Tick { frontmost } => if frontmost {
                WaitStep::Activated
            } else {
                WaitStep::KeepWaiting
            },
        },
{
    match event {
        WaitEvent::Signalled => WaitStep::Activated,
        WaitEvent::Cancelled => WaitStep::Cancelled,
        WaitEvent::Tick { frontmost } => {
            if frontmost {
                WaitStep::Activated
            } else {
                WaitStep::KeepWaiting
            }
        },
    }
}

/// Without several windows.
pub open spec fn without_windows(m: AppModel, wids: Seq<WindowId>) -> AppModel
    decreases wids.len(),
{
    if wids.len() == 0 {
        m
    } else {
        without_windows(m, wids.drop_last()).without_window(wids.last())
    }
}

pub open spec fn destroyed_events(wids: Seq<WindowId>) -> Seq<Event> {
    wids.map_values(|w: WindowId| Event::WindowDestroyed(w))
}

/// Whether one of the elements belongs to the window.
pub open spec fn listed_window(m: AppModel, listed: Seq<ElementRef>, wid: WindowId) -> bool {
    exists|i: int| 0 <= i < listed.len() && m.id(#[trigger] listed[i]) == Some(wid)
}

/// The known windows that no listed element belongs to.
pub open spec fn stale_windows(m: AppModel, listed: Seq<ElementRef>) -> Seq<WindowId> {
    m.window_order.filter(|w: WindowId| !listed_window(m, listed, w))
}

/// The members of a sequence that are known windows.
pub open spec fn known_windows(m: AppModel, wids: Seq<WindowId>) -> Seq<WindowId> {
    wids.filter(|w: WindowId| m.windows.contains_key(w))
}

impl State {
    /// Takes a read of the main window.
    pub fn main_window_read(
        &mut self,
        read: Result<ElementRef, AxError>,
        allow_register: bool,
    ) -> (r: MainWindowStep)
        requires
            old(self).wf(),
        ensures
            final(self).wf(),
            match read {
                Err(_) => r == MainWindowStep::Unreadable && final(self)@ == old(self)@,
                Ok(elem) => match old(self)@.id(elem) {
                    Some(wid) => r == MainWindowStep::Known(wid) && final(self)@ == old(self)@,
                    None => if allow_register {
                        r == MainWindowStep::Register && final(self)@ == old(self)@
                    } else {
                        &&& final(self)@ == (AppModel { main_window: None, ..old(self)@ })
                        &&& r == MainWindowStep::Cleared(
                            if old(self).main_window is Some {
                                Some(
                                    Event::ApplicationMainWindowChanged(
                                        old(self).pid,
                                        None,
                                        Quiet::No,
                                    ),
                                )
                            } else {
                                None
                            },
                        )
                    },
                },
            },
    {
        match read {
            Err(_) => MainWindowStep::Unreadable,
            Ok(elem) => match self.id(elem) {
                Some(wid) => MainWindowStep::Known(wid),
                None => {
                    if allow_register {
                        return MainWindowStep::Register;
                    }
                    if self.main_window.take().is_some() {
                        MainWindowStep::Cleared(
                            Some(
                                Event::ApplicationMainWindowChanged(self.pid, None, Quiet::No),
                            ),
                        )
                    } else {
                        MainWindowStep::Cleared(None)
                    }
                },
            },
        }
    }

    /// Records the main window; tells of it unless it is the one recorded,
    /// quietly if it is the window that the change was expected for.
    pub fn main_window_settled(&mut self, wid: WindowId, quiet_if: Option<WindowId>) -> (r: Option<
        Event,
    >)
        requires
            old(self).wf(),
        ensures
            final(self).wf(),
            final(self)@ == (AppModel { main_window: Some(wid), ..old(self)@ }),
            r == if old(self).main_window == Some(wid) {
                None
            } else {
                Some(
                    Event::ApplicationMainWindowChanged(
                        old(self).pid,
                        Some(wid),
                        if quiet_if == Some(wid) {
                            Quiet::Yes
                        } else {
                            Quiet::No
                        },
                    ),
                )
            },
    {
        if let Some(current) = self.main_window {
            if current == wid {
                return None;
            }
        }
        self.main_window = Some(wid);
        let quiet: Quiet = match quiet_if {
            Some(id) if id == wid => Quiet::Yes,
            _ => Quiet::No,
        };
        Some(Event::ApplicationMainWindowChanged(self.pid, Some(wid), quiet))
    }

    /// Takes a read of whether the application is frontmost.
    pub fn on_activation_changed(&mut self, is_frontmost: bool, now: u64) -> (r: ActivationOutcome)
        requires
            old(self).wf(),
        ensures
            final(self).wf(),
            (final(self)@, r) == activation_outcome(old(self)@, is_frontmost, now),
    {
        let ghost before = self@;
        let old_frontmost: bool = self.is_frontmost;
        self.is_frontmost = is_frontmost;
        proof {
            lemma_same_books(before, self@);
        }
        if !is_frontmost {
            let event = if old_frontmost != is_frontmost {
                Some(Event::ApplicationDeactivated(self.pid))
            } else {
                None
            };
            return ActivationOutcome {
                release: None,
                read_main_window: false,
                quiet_if: None,
                event,
            };
        }
        let last = self.last_activated.take();
        proof {
            lemma_same_books(before, self@);
        }
        let mut release: Option<u64> = None;
        let mut quiet: Quiet = Quiet::No;
        let mut window: Option<WindowId> = None;
        if let Some(a) = last {
            release = Some(a.waiter);
            if now.saturating_sub(a.at) < OWN_ACTIVATION_WINDOW {
                quiet = a.quiet;
                window = a.window;
            }
        }
        let event = if old_frontmost != is_frontmost {
            Some(Event::ApplicationActivated(self.pid, quiet))
        } else {
            None
        };
        ActivationOutcome { release, read_main_window: true, quiet_if: window, event }
    }

    /// Notes that the actor is about to activate its application; gives the
    /// waiter of an earlier activation, which is released.
    pub fn expect_activation(
        &mut self,
        now: u64,
        quiet: Quiet,
        window: Option<WindowId>,
        waiter: u64,
    ) -> (r: Option<u64>)
        requires
            old(self).wf(),
        ensures
            final(self).wf(),
            final(self)@ == (AppModel {
                last_activated: Some(LastActivation { at: now, quiet, window, waiter }),
                ..old(self)@
            }),
            r == match old(self).last_activated {
                Some(a) => Some(a.waiter),
                None => None,
            },
    {
        let previous = self.last_activated.take();
        self.last_activated = Some(LastActivation { at: now, quiet, window, waiter });
        match previous {
            Some(a) => Some(a.waiter),
            None => None,
        }
    }

    /// Drops the known windows among `wids`; gives the event for each and
    /// whether the enhanced user interface is to be switched on again.
    pub fn remove_tracked_windows(&mut self, wids: &Vec<WindowId>) -> (r: (Vec<Event>, bool))
        requires
            old(self).wf(),
            wids@.no_duplicates(),
        ensures
            final(self).wf(),
            final(self)@ == without_windows(old(self)@, wids@),
            r.0@ == destroyed_events(known_windows(old(self)@, wids@)),
            r.1 <==> old(self).active_animation_count > 0 && final(self).active_animation_count
                == 0,
            forall|w: WindowId| #[trigger]
                final(self)@.windows.contains_key(w) <==> old(self)@.windows.contains_key(w)
                    && !wids@.contains(w),
    {
        let ghost before = self@;
        let mut events: Vec<Event> = Vec::new();
        let mut restore: bool = false;
        let mut i: usize = 0;
        proof {
            reveal(Seq::filter);
            assert(wids@.take(0) =~= Seq::<WindowId>::empty());
            assert(events@ =~= destroyed_events(known_windows(before, wids@.take(0))));
        }
        while i < wids.len()
            invariant
                i <= wids@.len(),
                wids@.no_duplicates(),
                self.wf(),
                self@ == without_windows(before, wids@.take(i as int)),
                events@ == destroyed_events(known_windows(before, wids@.take(i as int))),
                self.active_animation_count <= before.active_animation_count,
                restore <==> before.active_animation_count > 0 && self.active_animation_count == 0,
                forall|w: WindowId| #[trigger]
                    self@.windows.contains_key(w) <==> before.windows.contains_key(w)
                        && !wids@.take(i as int).contains(w),
            decreases wids@.len() - i,
        {
            let ghost next = wids@.take(i + 1);
            let wid: WindowId = wids[i];
            proof {
                assert(next.drop_last() =~= wids@.take(i as int));
                assert(next.last() == wid);
                reveal(Seq::filter);
                assert(!wids@.take(i as int).contains(wid)) by {
                    if wids@.take(i as int).contains(wid) {
                        let k = choose|k: int| 0 <= k < i && wids@.take(i as int)[k] == wid;
                        assert(wids@[k] == wids@[i as int]);
                    }
                }
            }
            if let Some(removed) = self.remove_window(wid) {
                if removed.restore_enhanced_ui {
                    restore = true;
                }
                events.push(Event::WindowDestroyed(wid));
            }
            proof {
                assert(events@ =~= destroyed_events(known_windows(before, next)));
                assert forall|w: WindowId| #[trigger]
                    self@.windows.contains_key(w) <==> before.windows.contains_key(w)
                        && !next.contains(w) by {
                    if next.contains(w) && w != wid {
                        let k = choose|k: int| 0 <= k < next.len() && next[k] == w;
                        assert(wids@.take(i as int)[k] == w);
                    }
                    if wids@.take(i as int).contains(w) {
                        let k = choose|k: int| 0 <= k < i && wids@.take(i as int)[k] == w;
                        assert(next[k] == w);
                    }
                    if w == wid {
                        assert(next[i as int] == w);
                    }
                }
            }
            i += 1;
        }
        assert(wids@.take(i as int) =~= wids@);
        (events, restore)
    }

    /// Drops the windows that the application no longer lists.
    pub fn remove_stale_windows(&mut self, listed: &Vec<ElementRef>) -> (r: (Vec<Event>, bool))
        requires
            old(self).wf(),
        ensures
            final(self).wf(),
            final(self)@ == without_windows(old(self)@, stale_windows(old(self)@, listed@)),
            r.0@ == destroyed_events(stale_windows(old(self)@, listed@)),
            r.1 <==> old(self).active_animation_count > 0 && final(self).active_animation_count
                == 0,
            forall|w: WindowId| #[trigger]
                final(self)@.windows.contains_key(w) <==> old(self)@.windows.contains_key(w)
                    && listed_window(old(self)@, listed@, w),
    {
        let ghost before = self@;
        let wids: Vec<WindowId> = self.windows.keys();
        let mut stale: Vec<WindowId> = Vec::new();
        let mut i: usize = 0;
        proof {
            reveal(Seq::filter);
            assert(wids@.take(0) =~= Seq::<WindowId>::empty());
        }
        while i < wids.len()
            invariant
                i <= wids@.len(),
                self@ == before,
                stale@ == wids@.take(i as int).filter(
                    |w: WindowId| !listed_window(before, listed@, w),
                ),
            decreases wids@.len() - i,
        {
            proof {
                assert(wids@.take(i + 1).drop_last() =~= wids@.take(i as int));
                assert(wids@.take(i + 1).last() == wids@[i as int]);
                reveal(Seq::filter);
            }
            if !self.is_listed(listed, wids[i]) {
                stale.push(wids[i]);
            }
            i += 1;
        }
        proof {
            assert(wids@.take(i as int) =~= wids@);
            let missing = |w: WindowId| !listed_window(before, listed@, w);
            lemma_filter_members(wids@, missing);
            let known = |w: WindowId| before.windows.contains_key(w);
            assert forall|w: WindowId| #[trigger] stale@.contains(w) implies known(w) by {
                assert(wids@.contains(w));
            }
            lemma_filter_keeps_all(stale@, known);
            assert forall|w: WindowId| before.windows.contains_key(w) implies (
            #[trigger] stale@.contains(w) <==> !listed_window(before, listed@, w)) by {
                assert(wids@.contains(w));
            }
        }
        self.remove_tracked_windows(&stale)
    }

    fn is_listed(&self, listed: &Vec<ElementRef>, wid: WindowId) -> (r: bool)
        ensures
            r == listed_window(self@, listed@, wid),
    {
        let mut i: usize = 0;
        while i < listed.len()
            invariant
                i <= listed@.len(),
                forall|j: int| 0 <= j < i ==> self@.id(#[trigger] listed@[j]) != Some(wid),
            decreases listed@.len() - i,
        {
            if let Some(found) = self.id(listed[i]) {
                if found == wid {
                    return true;
                }
            }
            i += 1;
        }
        false
    }
}

/// An application that comes to the front says so once, quietly if the actor
/// asked for it within the last second, and lets whoever waited go on; one
/// that leaves the front says so once.
pub proof fn law_activation_is_reported_once(m: AppModel, a: LastActivation, now: u64)
    ensures
        ({
            let (next, r) = activation_outcome(m, true, now);
            let (left, s) = activation_outcome(m, false, now);
            &&& next.is_frontmost && !left.is_frontmost
            &&& m.is_frontmost ==> r.event is None && s.event == Some(
                Event::ApplicationDeactivated(m.pid),
            )
            &&& !m.is_frontmost ==> s.event is None
            &&& !m.is_frontmost && m.last_activated is None ==> r.event == Some(
                Event::ApplicationActivated(m.pid, Quiet::No),
            ) && r.release is None && r.quiet_if is None
            &&& !m.is_frontmost && m.last_activated == Some(a) && now < a.at + 1000 ==> r.event
                == Some(Event::ApplicationActivated(m.pid, a.quiet)) && r.quiet_if == a.window
            &&& !m.is_frontmost && m.last_activated == Some(a) && now >= a.at + 1000 ==> r.event
                == Some(Event::ApplicationActivated(m.pid, Quiet::No)) && r.quiet_if is None
            &&& m.last_activated == Some(a) ==> r.release == Some(a.waiter)
            &&& next.last_activated is None
            &&& r.read_main_window && !s.read_main_window
            &&& left.last_activated == m.last_activated
        }),
{
}

/// A known window is stale exactly if no listed element is its.
pub proof fn law_unlisted_windows_are_stale(m: AppModel, listed: Seq<ElementRef>, wid: WindowId)
    ensures
        stale_windows(m, listed).contains(wid) <==> m.window_order.contains(wid) && forall|i: int|
            0 <= i < listed.len() ==> m.id(#[trigger] listed[i]) != Some(wid),
        known_windows(m, m.window_order).contains(wid) <==> m.window_order.contains(wid)
            && m.windows.contains_key(wid),
{
    lemma_filter_members(m.window_order, |w: WindowId| !listed_window(m, listed, w));
    lemma_filter_members(m.window_order, |w: WindowId| m.windows.contains_key(w));
}

/// Each removed window is reported destroyed, in order.
pub proof fn law_removed_windows_are_reported(wids: Seq<WindowId>, i: int)
    requires
        0 <= i < wids.len(),
    ensures
        destroyed_events(wids).len() == wids.len(),
        destroyed_events(wids)[i] == Event::WindowDestroyed(wids[i]),
{
}

} // verus!
