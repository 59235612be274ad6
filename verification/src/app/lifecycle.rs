//! How the app actor comes up, takes requests and goes down.

use vstd::prelude::*;

use crate::app::actor::{AppModel, AxCode, AxError, ElementRef, State};
use crate::app::register::{
    next_launch_pause, visible_cg_peer, LONGEST_LAUNCH_PAUSE,
};
use crate::app::{
    encode_notification_data, notification_word, window_animation_notifications,
    AxNotificationKind, WindowId,
};
use crate::collections::IdMap;
use crate::event::{AppInfo, Event, WindowInfo, WindowServerInfo};
use crate::ids::{pid_t, WindowServerId};

verus! {

/// What follows from an attempt to watch an application for a notification.
#[derive(Copy, Clone, Debug, PartialEq, Eq, Structural)]
pub enum WatchStep {
    /// It is watched.
    Watched,
    /// Sleep this long and try again, with the pause after that.
    Retry { sleep: u64, next_pause: u64 },
    /// The application does not answer.
    GiveUp,
}

/// What follows from a failure to watch an application.
pub open spec fn after_failure(pause: u64, now: u64, deadline: u64) -> WatchStep {
    if deadline < now {
        WatchStep::GiveUp
    } else {
        WatchStep::Retry {
            sleep: if pause <= deadline - now {
                pause
            } else {
                (deadline - now) as u64
            },
            next_pause: if pause * 2 <= LONGEST_LAUNCH_PAUSE {
                (pause * 2) as u64
            } else {
                LONGEST_LAUNCH_PAUSE
            },
        }
    }
}

/// Takes the outcome of an attempt to watch an application. What is watched
/// already needs no second watch; after any other failure the attempt is
/// made again until the deadline.
pub fn watch_step(outcome: Result<(), AxError>, pause: u64, now: u64, deadline: u64) -> (r:
    WatchStep)
    requires
        pause <= LONGEST_LAUNCH_PAUSE,
    ensures
        (r == WatchStep::Watched) == (outcome is Ok || outcome == Err::<(), AxError>(
            AxError::Ax(AxCode::NotificationAlreadyRegistered),
        )),
        r != WatchStep::Watched ==> r == after_failure(pause, now, deadline),
{
    match outcome {
        Ok(_) => WatchStep::Watched,
        Err(AxError::Ax(AxCode::NotificationAlreadyRegistered)) => WatchStep::Watched,
        Err(_) => match next_launch_pause(pause, now, deadline) {
            Some((sleep, next_pause)) => WatchStep::Retry { sleep, next_pause },
            None => WatchStep::GiveUp,
        },
    }
}

/// What follows from a request.
pub enum RequestOutcome {
    Continue,
    /// The actor comes to its end.
    Stop,
    /// The application is gone; the event says so, and the actor comes to its
    /// end.
    Gone(Event),
}

/// Takes the outcome of a request. One that the application could not
/// complete because it is gone ends the actor; any other failure is passed
/// over.
pub fn request_outcome(outcome: Result<bool, AxError>, is_terminated: bool, pid: pid_t) -> (r:
    RequestOutcome)
    ensures
        r == match outcome {
            Ok(true) => RequestOutcome::Stop,
            Ok(false) => RequestOutcome::Continue,
            Err(error) => if error == AxError::Ax(AxCode::CannotComplete) && is_terminated {
                RequestOutcome::Gone(Event::ApplicationThreadTerminated(pid))
            } else {
                RequestOutcome::Continue
            },
        },
{
    match outcome {
        Ok(true) => RequestOutcome::Stop,
        Ok(false) => RequestOutcome::Continue,
        Err(AxError::Ax(AxCode::CannotComplete)) => {
            if is_terminated {
                RequestOutcome::Gone(Event::ApplicationThreadTerminated(pid))
            } else {
                RequestOutcome::Continue
            }
        },
        Err(_) => RequestOutcome::Continue,
    }
}

/// What the window server says of windows, by their numbers. The last word
/// counts.
pub open spec fn info_map(infos: Seq<WindowServerInfo>) -> Map<WindowServerId, WindowServerInfo>
    decreases infos.len(),
{
    if infos.len() == 0 {
        Map::empty()
    } else {
        info_map(infos.drop_last()).insert(infos.last().id, infos.last())
    }
}

pub fn visible_window_server_info_map(infos: &Vec<WindowServerInfo>) -> (r: IdMap<
    WindowServerId,
    WindowServerInfo,
>)
    ensures
        r@ == info_map(infos@),
{
    let mut r: IdMap<WindowServerId, WindowServerInfo> = IdMap::new();
    let mut i: usize = 0;
    while i < infos.len()
        invariant
            i <= infos@.len(),
            r@ == info_map(infos@.take(i as int)),
        decreases infos@.len() - i,
    {
        assert(infos@.take(i + 1).drop_last() =~= infos@.take(i as int));
        r.insert(infos[i].id, infos[i]);
        i += 1;
    }
    assert(infos@.take(i as int) =~= infos@);
    r
}

/// The windows that an application has when the actor comes up.
pub struct Launch {
    pub visible_windows: Vec<(WindowId, WindowInfo)>,
    pub window_server_info: Vec<WindowServerInfo>,
}

impl Launch {
    pub fn new() -> (r: Launch)
        ensures
            r.visible_windows@ == Seq::<(WindowId, WindowInfo)>::empty(),
            r.window_server_info@ == Seq::<WindowServerInfo>::empty(),
    {
        Launch { visible_windows: Vec::new(), window_server_info: Vec::new() }
    }

    /// Takes up an element of the application. What the window server says of
    /// it is noted. The result says whether its window is to be registered:
    /// one that the window server does not show is not.
    pub fn visit(&mut self, elem: ElementRef, hint: Option<WindowServerInfo>) -> (r: bool)
        ensures
            r == visible_cg_peer(elem.server_id, hint is Some),
            final(self).visible_windows@ == old(self).visible_windows@,
            final(self).window_server_info@ == match hint {
                Some(info) => old(self).window_server_info@.push(info),
                None => old(self).window_server_info@,
            },
    {
        if let Some(info) = hint {
            self.window_server_info.push(info);
        }
        State::has_visible_cg_peer(elem.server_id, hint)
    }

    /// Notes a window that was registered.
    pub fn registered(&mut self, wid: WindowId, info: WindowInfo)
        ensures
            final(self).visible_windows@ == old(self).visible_windows@.push((wid, info)),
            final(self).window_server_info@ == old(self).window_server_info@,
    {
        self.visible_windows.push((wid, info));
    }
}

impl State {
    /// The actor is up: notes the main window and whether the application is
    /// in front, as far as they could be read, and gives the event that says
    /// so.
    pub fn launched(
        &mut self,
        info: AppInfo,
        launch: Launch,
        main: Result<ElementRef, AxError>,
        frontmost: Result<bool, AxError>,
    ) -> (r: Event)
        ensures
            final(self)@ == (AppModel {
                main_window: match main {
                    Ok(elem) => old(self)@.id(elem),
                    Err(_) => None,
                },
                is_frontmost: frontmost == Ok::<bool, AxError>(true),
                ..old(self)@
            }),
            r == (Event::ApplicationLaunched {
                pid: old(self).pid,
                info,
                is_frontmost: final(self).is_frontmost,
                main_window: final(self).main_window,
                visible_windows: launch.visible_windows,
                window_server_info: launch.window_server_info,
            }),
    {
        self.main_window = match main {
            Ok(elem) => self.id(elem),
            Err(_) => None,
        };
        self.is_frontmost = match frontmost {
            Ok(front) => front,
            Err(_) => false,
        };
        assert(self@ =~= (AppModel {
            main_window: self.main_window,
            is_frontmost: self.is_frontmost,
            ..old(self)@
        }));
        Event::ApplicationLaunched {
            pid: self.pid,
            info,
            is_frontmost: self.is_frontmost,
            main_window: self.main_window,
            visible_windows: launch.visible_windows,
            window_server_info: launch.window_server_info,
        }
    }

    /// The watches to set up again once a window is no longer animated: each
    /// carries the window, if the element belongs to one.
    pub fn restart_notifications_after_animation(&self, elem: ElementRef) -> (r: Vec<
        (AxNotificationKind, u64),
    >)
        ensures
            r@.len() == 2,
            r@[0].0 == AxNotificationKind::WindowMoved,
            r@[0].1 == notification_word(AxNotificationKind::WindowMoved, self@.id(elem)),
            r@[1].0 == AxNotificationKind::WindowResized,
            r@[1].1 == notification_word(AxNotificationKind::WindowResized, self@.id(elem)),
    {
        let wid: Option<WindowId> = self.id(elem);
        let kinds: Vec<AxNotificationKind> = window_animation_notifications();
        let mut r: Vec<(AxNotificationKind, u64)> = Vec::new();
        r.push((kinds[0], encode_notification_data(kinds[0], wid)));
        r.push((kinds[1], encode_notification_data(kinds[1], wid)));
        r
    }
}

/// However often an attempt fails, the pause stays within its bounds and does
/// not shrink.
pub proof fn law_pauses_grow_to_their_limit(pause: u64, now: u64, deadline: u64)
    requires
        pause <= LONGEST_LAUNCH_PAUSE,
    ensures
        after_failure(pause, now, deadline) matches WatchStep::Retry { sleep, next_pause } ==> sleep
            <= pause && now + sleep <= deadline && pause <= next_pause <= LONGEST_LAUNCH_PAUSE,
{
}

/// A failure to watch is tried again until the deadline has passed; the pause
/// doubles up to a second, and never sleeps past the deadline.
pub proof fn law_failed_watch_is_tried_again(pause: u64, now: u64, deadline: u64)
    requires
        pause <= 1000,
    ensures
        deadline < now <==> after_failure(pause, now, deadline) == WatchStep::GiveUp,
        deadline >= now + pause ==> (after_failure(pause, now, deadline) matches WatchStep::Retry {
            sleep,
            next_pause,
        } && sleep == pause),
        now <= deadline && pause <= 500 ==> (after_failure(
            pause,
            now,
            deadline,
        ) matches WatchStep::Retry { sleep, next_pause } && next_pause == 2 * pause),
        now <= deadline && pause > 500 ==> (after_failure(
            pause,
            now,
            deadline,
        ) matches WatchStep::Retry { sleep, next_pause } && next_pause == 1000),
{
}

/// What the window server says last of a window counts, and it says nothing
/// of a window that it does not name.
pub proof fn law_last_word_on_a_window_counts(
    infos: Seq<WindowServerInfo>,
    i: int,
    id: WindowServerId,
)
    ensures
        0 <= i < infos.len() && infos[i].id == id && (forall|j: int|
            i < j < infos.len() ==> (#[trigger] infos[j]).id != id) ==> info_map(infos).contains_key(
            id,
        ) && info_map(infos)[id] == infos[i],
        (forall|j: int| 0 <= j < infos.len() ==> (#[trigger] infos[j]).id != id) ==> !info_map(
            infos,
        ).contains_key(id),
    decreases infos.len(),
{
    if infos.len() > 0 {
        let rest = infos.drop_last();
        law_last_word_on_a_window_counts(rest, i, id);
        assert(infos[infos.len() - 1] == infos.last());
        if 0 <= i < rest.len() && (forall|j: int|
            i < j < infos.len() ==> (#[trigger] infos[j]).id != id) {
            assert(rest[i] == infos[i]);
            assert forall|j: int| i < j < rest.len() implies (#[trigger] rest[j]).id != id by {
                assert(rest[j] == infos[j]);
            }
        }
        if forall|j: int| 0 <= j < infos.len() ==> (#[trigger] infos[j]).id != id {
            assert forall|j: int| 0 <= j < rest.len() implies (#[trigger] rest[j]).id != id by {
                assert(rest[j] == infos[j]);
            }
        }
    }
}

} // verus!
