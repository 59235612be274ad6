//! What kind of event an event is.

use vstd::prelude::*;

use crate::event::{Command, Event, LayoutCommand};
use crate::reactor::display_topology::{ManagerModel, QuarantineStats};
use crate::reactor::Reactor;

verus! {

/// Whether automatic workspace switches are held back from an event on
/// (`true`), allowed again (`false`), or left as they are: the system coming
/// back holds them back until the user does something.
pub open spec fn suppression_by(event: Event) -> Option<bool> {
    match event {
        Event::SystemWoke | Event::SessionDidBecomeActive => Some(true),
        Event::MouseDown(_, _)
        | Event::MouseUp
        | Event::MouseMoved(_)
        | Event::UserInput(_)
        | Event::Command(_) => Some(false),
        _ => None,
    }
}

pub fn lifecycle_activation_suppression(event: &Event) -> (r: Option<bool>)
    ensures
        r == suppression_by(*event),
{
    match event {
        Event::SystemWoke | Event::SessionDidBecomeActive => Some(true),
        Event::MouseDown(_, _)
        | Event::MouseUp
        | Event::MouseMoved(_)
        | Event::UserInput(_)
        | Event::Command(_) => Some(false),
        _ => None,
    }
}

/// A resize by keyboard, of which many can follow quickly.
pub open spec fn is_interactive_resize(event: Event) -> bool {
    event matches Event::Command(Command::Layout(command)) && (command
        == LayoutCommand::ResizeWindowGrow || command == LayoutCommand::ResizeWindowShrink
        || command is ResizeWindowBy || command is ResizeWindowDirectional)
}

/// A newly managed window must land in its tiled frame at once.
pub open spec fn shows_result_at_once(event: Event) -> bool {
    is_interactive_resize(event) || event is ApplicationLaunched || event is WindowsDiscovered
        || event is WindowCreated
}

/// An event after which other windows may be there.
pub open spec fn changes_windows(event: Event) -> bool {
    match event {
        Event::WindowCreated(..)
        | Event::WindowDestroyed(..)
        | Event::WindowServerDestroyed(..)
        | Event::WindowServerAppeared(..)
        | Event::WindowsDiscovered { .. }
        | Event::ApplicationLaunched { .. }
        | Event::ApplicationTerminated(..)
        | Event::ApplicationThreadTerminated(..)
        | Event::SpaceChanged(..)
        | Event::ScreenParametersChanged(..) => true,
        _ => false,
    }
}

/// An event that means something even while displays are being reconfigured.
pub open spec fn outlasts_churn(event: Event) -> bool {
    match event {
        Event::DisplayChurnBegin
        | Event::DisplayChurnEnd
        | Event::ScreenParametersChanged(..)
        | Event::SpaceChanged(..)
        | Event::SpaceCreated(..)
        | Event::SpaceDestroyed(..)
        | Event::MissionControlNativeEntered
        | Event::MissionControlNativeExited
        | Event::SystemWoke
        | Event::SessionDidBecomeActive
        | Event::ApplicationLaunched { .. }
        | Event::ApplicationTerminated(..)
        | Event::ApplicationThreadTerminated(..)
        | Event::ApplicationActivated(..)
        | Event::ApplicationDeactivated(..)
        | Event::ApplicationGloballyActivated(..)
        | Event::ApplicationGloballyDeactivated(..)
        | Event::ApplicationMainWindowChanged(..)
        | Event::RegisterWmSender
        | Event::ConfigUpdated(..)
        | Event::UserInput(..)
        | Event::Command(..)
        | Event::RaiseCompleted { .. }
        | Event::RaiseTimeout { .. }
        | Event::MenuOpened(..)
        | Event::MenuClosed(..) => true,
        _ => false,
    }
}

/// The window, as the window server numbers it, that an event shows to be
/// busy.
pub open spec fn busy_window(event: Event) -> Option<u32> {
    match event {
        Event::WindowFrameChanged(wid, _, _, _, _) => Some(wid.idx),
        Event::WindowCreated(wid, _, _, _) => Some(wid.idx),
        Event::WindowDestroyed(wid) => Some(wid.idx),
        Event::WindowMinimized(wid) => Some(wid.idx),
        Event::WindowDeminiaturized(wid) => Some(wid.idx),
        Event::MouseDown(Some(info), _) => Some(info.id.0),
        Event::ResyncAppForWindow(wsid) => Some(wsid.0),
        Event::WindowServerDestroyed(wsid, _) => Some(wsid.0),
        Event::WindowServerAppeared(wsid, _) => Some(wsid.0),
        _ => None,
    }
}

/// Whether one more dropped event can be counted.
pub open spec fn can_count(stats: QuarantineStats) -> bool {
    stats.resync_dropped < u64::MAX && stats.destroyed_dropped < u64::MAX && stats.appeared_dropped
        < u64::MAX
}

/// The counts of dropped events after one more.
pub open spec fn counting_dropped(stats: QuarantineStats, event: Event) -> QuarantineStats {
    match event {
        Event::ResyncAppForWindow(..) => QuarantineStats {
            resync_dropped: (stats.resync_dropped + 1) as u64,
            ..stats
        },
        Event::WindowServerDestroyed(..) => QuarantineStats {
            destroyed_dropped: (stats.destroyed_dropped + 1) as u64,
            ..stats
        },
        Event::WindowServerAppeared(..) => QuarantineStats {
            appeared_dropped: (stats.appeared_dropped + 1) as u64,
            ..stats
        },
        _ => stats,
    }
}

impl Reactor {
    /// The window that an event shows to be busy.
    pub fn note_windowserver_activity(event: &Event) -> (r: Option<u32>)
        ensures
            r == busy_window(*event),
    {
        match event {
            Event::WindowFrameChanged(wid, _, _, _, _) => Some(wid.idx),
            Event::WindowCreated(wid, _, _, _) => Some(wid.idx),
            Event::WindowDestroyed(wid) => Some(wid.idx),
            Event::WindowMinimized(wid) => Some(wid.idx),
            Event::WindowDeminiaturized(wid) => Some(wid.idx),
            Event::MouseDown(info, _) => match info {
                Some(info) => Some(info.id.0),
                None => None,
            },
            Event::ResyncAppForWindow(wsid) => Some(wsid.0),
            Event::WindowServerDestroyed(wsid, _) => Some(wsid.0),
            Event::WindowServerAppeared(wsid, _) => Some(wsid.0),
            _ => None,
        }
    }

    pub fn is_interactive_resize_event(event: &Event) -> (r: bool)
        ensures
            r == is_interactive_resize(*event),
    {
        match event {
            Event::Command(Command::Layout(command)) => match command {
                LayoutCommand::ResizeWindowGrow
                | LayoutCommand::ResizeWindowShrink
                | LayoutCommand::ResizeWindowBy { .. }
                | LayoutCommand::ResizeWindowDirectional(_) => true,
                _ => false,
            },
            _ => false,
        }
    }

    pub fn should_suppress_layout_animation(event: &Event) -> (r: bool)
        ensures
            r == shows_result_at_once(*event),
    {
        if Self::is_interactive_resize_event(event) {
            return true;
        }
        match event {
            Event::ApplicationLaunched { .. }
            | Event::WindowsDiscovered { .. }
            | Event::WindowCreated(..) => true,
            _ => false,
        }
    }

    pub fn should_update_notifications(event: &Event) -> (r: bool)
        ensures
            r == changes_windows(*event),
    {
        match event {
            Event::WindowCreated(..)
            | Event::WindowDestroyed(..)
            | Event::WindowServerDestroyed(..)
            | Event::WindowServerAppeared(..)
            | Event::WindowsDiscovered { .. }
            | Event::ApplicationLaunched { .. }
            | Event::ApplicationTerminated(..)
            | Event::ApplicationThreadTerminated(..)
            | Event::SpaceChanged(..)
            | Event::ScreenParametersChanged(..) => true,
            _ => false,
        }
    }

    pub fn should_process_during_churn(event: &Event) -> (r: bool)
        ensures
            r == outlasts_churn(*event),
    {
        match event {
            Event::DisplayChurnBegin
            | Event::DisplayChurnEnd
            | Event::ScreenParametersChanged(..)
            | Event::SpaceChanged(..)
            | Event::SpaceCreated(..)
            | Event::SpaceDestroyed(..)
            | Event::MissionControlNativeEntered
            | Event::MissionControlNativeExited
            | Event::SystemWoke
            | Event::SessionDidBecomeActive
            | Event::ApplicationLaunched { .. }
            | Event::ApplicationTerminated(..)
            | Event::ApplicationThreadTerminated(..)
            | Event::ApplicationActivated(..)
            | Event::ApplicationDeactivated(..)
            | Event::ApplicationGloballyActivated(..)
            | Event::ApplicationGloballyDeactivated(..)
            | Event::ApplicationMainWindowChanged(..)
            | Event::RegisterWmSender
            | Event::ConfigUpdated(..)
            | Event::UserInput(..)
            | Event::Command(..)
            | Event::RaiseCompleted { .. }
            | Event::RaiseTimeout { .. }
            | Event::MenuOpened(..)
            | Event::MenuClosed(..) => true,
            _ => false,
        }
    }

    /// Whether an event is dropped because displays are being reconfigured.
    pub open spec fn drops(&self, event: Event) -> bool {
        !(self.display_topology_manager@.state is Stable) && !outlasts_churn(event)
    }

    /// Drops and counts an event that means nothing while displays are being
    /// reconfigured.
    pub fn maybe_quarantine_during_churn(&mut self, event: &Event) -> (r: bool)
        requires
            can_count(old(self).display_topology_manager.quarantine_stats),
        ensures
            r == old(self).drops(*event),
            *final(self) == (Reactor {
                display_topology_manager: final(self).display_topology_manager,
                ..*old(self)
            }),
            final(self).display_topology_manager@ == if old(self).drops(*event) {
                ManagerModel {
                    stats: counting_dropped(old(self).display_topology_manager@.stats, *event),
                    ..old(self).display_topology_manager@
                }
            } else {
                old(self).display_topology_manager@
            },
    {
        if !self.display_topology_manager.is_churning_or_awaiting_commit() {
            return false;
        }
        if Self::should_process_during_churn(event) {
            return false;
        }
        match event {
            Event::ResyncAppForWindow(..) => self.display_topology_manager.quarantine_resync(),
            Event::WindowServerDestroyed(..) => {
                self.display_topology_manager.quarantine_destroyed()
            },
            Event::WindowServerAppeared(..) => self.display_topology_manager.quarantine_appeared(),
            _ => {},
        }
        true
    }
}

/// Commands, user input and the end of the reconfiguration itself are never
/// dropped; what the window server says of windows always is.
pub proof fn law_quarantine_keeps_commands_and_drops_window_noise(m: Reactor, event: Event)
    requires
        !(m.display_topology_manager@.state is Stable),
    ensures
        event is Command || event is UserInput || event is DisplayChurnEnd ==> !m.drops(event),
        event is WindowServerAppeared || event is WindowServerDestroyed || event
            is ResyncAppForWindow || event is WindowFrameChanged ==> m.drops(event),
{
}

/// Nothing is dropped while displays are stable.
pub proof fn law_stable_displays_drop_nothing(m: Reactor, event: Event)
    requires
        m.display_topology_manager@.state is Stable,
    ensures
        !m.drops(event),
{
}

/// Waking up and coming back to a session hold automatic switches back; what
/// the user does allows them again; nothing else matters.
pub proof fn law_only_the_user_allows_switches_again(event: Event)
    ensures
        suppression_by(event) == Some(true) <==> event is SystemWoke || event
            is SessionDidBecomeActive,
        suppression_by(event) == Some(false) <==> event is MouseDown || event is MouseUp || event
            is MouseMoved || event is UserInput || event is Command,
{
}

/// Results are shown at once for a resize by keyboard and for windows that
/// have just come.
pub proof fn law_results_shown_at_once(event: Event)
    ensures
        event is ApplicationLaunched || event is WindowsDiscovered || event is WindowCreated
            ==> shows_result_at_once(event),
        event matches Event::Command(Command::Layout(c)) ==> (shows_result_at_once(event) <==> c
            is ResizeWindowGrow || c is ResizeWindowShrink || c is ResizeWindowBy || c
            is ResizeWindowDirectional),
        shows_result_at_once(event) ==> event is Command || event is ApplicationLaunched || event
            is WindowsDiscovered || event is WindowCreated,
{
}

/// The windows to watch may be others after windows, applications, spaces or
/// screens have come or gone.
pub proof fn law_windows_change_with_what_comes_and_goes(event: Event)
    ensures
        changes_windows(event) <==> event is WindowCreated || event is WindowDestroyed || event
            is WindowServerDestroyed || event is WindowServerAppeared || event is WindowsDiscovered
            || event is ApplicationLaunched || event is ApplicationTerminated || event
            is ApplicationThreadTerminated || event is SpaceChanged || event
            is ScreenParametersChanged,
{
}

/// While displays are reconfigured, exactly what happens to windows and the
/// mouse is dropped.
pub proof fn law_churn_drops_windows_and_mouse_only(m: Reactor, event: Event)
    requires
        !(m.display_topology_manager@.state is Stable),
    ensures
        m.drops(event) <==> event is ResyncAppForWindow || event is WindowsDiscovered || event
            is WindowCreated || event is WindowDestroyed || event is WindowServerDestroyed || event
            is WindowServerAppeared || event is WindowMinimized || event is WindowDeminiaturized
            || event is WindowFrameChanged || event is WindowTitleChanged || event is MouseDown
            || event is MouseUp || event is MouseMoved,
{
}

/// A dropped event is counted by its kind, once, and no other count changes.
pub proof fn law_dropped_events_are_counted(stats: QuarantineStats, event: Event)
    requires
        can_count(stats),
    ensures
        ({
            let after = counting_dropped(stats, event);
            &&& after.resync_dropped - stats.resync_dropped == if event is ResyncAppForWindow {
                1int
            } else {
                0
            }
            &&& after.destroyed_dropped - stats.destroyed_dropped == if event
                is WindowServerDestroyed {
                1int
            } else {
                0
            }
            &&& after.appeared_dropped - stats.appeared_dropped == if event
                is WindowServerAppeared {
                1int
            } else {
                0
            }
        }),
{
}

} // verus!
