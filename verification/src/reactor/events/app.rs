//! Applications that come and go.

use vstd::prelude::*;

use crate::app::{Quiet, Request, WindowId};
use crate::event::{AppInfo, WindowInfo, WindowServerInfo};
use crate::ids::{pid_t, WindowServerId};
use crate::reactor::events::window_discovery::WindowDiscoveryHandler;
use crate::reactor::managers::{AppState, WindowManager};
use crate::reactor::server_info::{infos_in_range, only_descriptions_changed};
use crate::reactor::surroundings::Surroundings;
use crate::reactor::task::{no_tasks, one_task, LayoutEvent, Message, Question, Task, Work};
use crate::reactor::Reactor;

verus! {

pub struct AppEventHandler;

/// A known application is asked for its windows.
pub open spec fn ask_app(reactor: Reactor, pid: pid_t) -> Seq<Task> {
    if reactor.app_manager.apps@.contains_key(pid) {
        seq![Task::Tell(Message::App(pid, Request::GetVisibleWindows))]
    } else {
        Seq::empty()
    }
}

pub fn request_visible_windows(reactor: &Reactor, pid: pid_t) -> (r: Vec<Task>)
    ensures
        r@ == ask_app(*reactor, pid),
{
    if reactor.app_manager.apps.contains_key(pid) {
        one_task(Task::Tell(Message::App(pid, Request::GetVisibleWindows)))
    } else {
        no_tasks()
    }
}

impl AppEventHandler {
    /// An application was launched, or was running already.
    pub fn handle_application_launched(
        reactor: &mut Reactor,
        pid: pid_t,
        info: AppInfo,
        visible_windows: Vec<(WindowId, WindowInfo)>,
        window_server_info: &Vec<WindowServerInfo>,
    ) -> (r: Vec<Task>)
        requires
            old(reactor).wf(),
            infos_in_range(window_server_info@),
        ensures
            final(reactor).wf(),
            final(reactor).app_manager.apps@ == old(reactor).app_manager.apps@.insert(
                pid,
                AppState { info },
            ),
            final(reactor).window_manager.server_model()
                == old(reactor).window_manager.server_model().described_by(
                window_server_info@,
                old(reactor).window_manager.window_ids@,
            ),
            only_descriptions_changed(old(reactor).window_manager, final(reactor).window_manager),
            *final(reactor) == (Reactor {
                app_manager: final(reactor).app_manager,
                window_manager: final(reactor).window_manager,
                ..*old(reactor)
            }),
            r@.len() == 1,
            r@[0] matches Task::Ask(
                Question::Sightings,
                Work::Discovered { pid: p, new, known_visible },
            ) && p == pid && new == visible_windows && known_visible@.len() == 0,
    {
        let _ = reactor.app_manager.apps.insert(pid, AppState { info });
        reactor.window_manager.update_partial_window_server_info(window_server_info);
        WindowDiscoveryHandler::handle_discovery(pid, visible_windows, Vec::new())
    }

    /// An application was terminated: its thread is to end.
    pub fn handle_application_terminated(reactor: &Reactor, pid: pid_t) -> (r: Vec<Task>)
        ensures
            r@ == if reactor.app_manager.apps@.contains_key(pid) {
                seq![Task::Tell(Message::App(pid, Request::Terminate))]
            } else {
                Seq::empty()
            },
    {
        if reactor.app_manager.apps.contains_key(pid) {
            one_task(Task::Tell(Message::App(pid, Request::Terminate)))
        } else {
            no_tasks()
        }
    }

    /// An application's thread has ended: the application and all its windows
    /// are forgotten before windows are laid out.
    pub fn handle_application_thread_terminated(reactor: &mut Reactor, pid: pid_t) -> (r: Vec<Task>)
        requires
            old(reactor).wf(),
        ensures
            final(reactor).wf(),
            final(reactor).app_manager.apps@ == old(reactor).app_manager.apps@.remove(pid),
            *final(reactor) == (Reactor {
                app_manager: final(reactor).app_manager,
                window_manager: WindowManager {
                    windows: final(reactor).window_manager.windows,
                    details: final(reactor).window_manager.details,
                    ..old(reactor).window_manager
                },
                ..*old(reactor)
            }),
            forall|w: WindowId|
                #![trigger final(reactor).window_manager.windows@.contains_key(w)]
                (final(reactor).window_manager.windows@.contains_key(w)
                    <==> old(reactor).window_manager.windows@.contains_key(w) && w.pid != pid) && (
                final(reactor).window_manager.windows@.contains_key(w)
                    ==> final(reactor).window_manager.windows@[w]
                    == old(reactor).window_manager.windows@[w]),
            forall|w: WindowId|
                #![trigger final(reactor).window_manager.details@.contains_key(w)]
                (final(reactor).window_manager.details@.contains_key(w)
                    <==> old(reactor).window_manager.details@.contains_key(w) && !(w.pid == pid
                    && old(reactor).window_manager.windows@.contains_key(w))) && (
                final(reactor).window_manager.details@.contains_key(w)
                    ==> final(reactor).window_manager.details@[w]
                    == old(reactor).window_manager.details@[w]),
            r@ == seq![Task::Go(Work::LayoutEvent(LayoutEvent::Changed))],
    {
        let _ = reactor.app_manager.apps.remove(pid);
        let wids: Vec<WindowId> = reactor.window_manager.window_ids_for_pid(pid);
        let mut i: usize = 0;
        while i < wids.len()
            invariant
                i <= wids@.len(),
                reactor.wf(),
                reactor.app_manager.apps@ == old(reactor).app_manager.apps@.remove(pid),
                *reactor == (Reactor {
                    app_manager: reactor.app_manager,
                    window_manager: WindowManager {
                        windows: reactor.window_manager.windows,
                        details: reactor.window_manager.details,
                        ..old(reactor).window_manager
                    },
                    ..*old(reactor)
                }),
                forall|w: WindowId| #[trigger]
                    wids@.contains(w) <==> old(reactor).window_manager.windows@.contains_key(w)
                        && w.pid == pid,
                forall|w: WindowId|
                    #![trigger reactor.window_manager.windows@.contains_key(w)]
                    (reactor.window_manager.windows@.contains_key(w)
                        ==> old(reactor).window_manager.windows@.contains_key(w)
                        && reactor.window_manager.windows@[w]
                        == old(reactor).window_manager.windows@[w]) && (w.pid != pid
                        && old(reactor).window_manager.windows@.contains_key(w)
                        ==> reactor.window_manager.windows@.contains_key(w)),
                forall|j: int|
                    0 <= j < i ==> !reactor.window_manager.windows@.contains_key(
                        #[trigger] wids@[j],
                    ),
                forall|w: WindowId|
                    #![trigger reactor.window_manager.details@.contains_key(w)]
                    (reactor.window_manager.details@.contains_key(w)
                        <==> old(reactor).window_manager.details@.contains_key(w)
                        && !wids@.take(i as int).contains(w)) && (
                    reactor.window_manager.details@.contains_key(w)
                        ==> reactor.window_manager.details@[w]
                        == old(reactor).window_manager.details@[w]),
            decreases wids@.len() - i,
        {
            assert(wids@.contains(wids@[i as int]));
            proof {
                let shorter = wids@.take(i as int);
                let longer = wids@.take(i + 1);
                assert forall|w: WindowId| longer.contains(w) <==> shorter.contains(w) || w
                    == wids@[i as int] by {
                    if longer.contains(w) {
                        let j = choose|j: int| 0 <= j < longer.len() && longer[j] == w;
                        if j < i {
                            assert(shorter[j] == w);
                        }
                    }
                    if shorter.contains(w) {
                        let j = choose|j: int| 0 <= j < shorter.len() && shorter[j] == w;
                        assert(longer[j] == w);
                    }
                    assert(longer[i as int] == wids@[i as int]);
                }
            }
            reactor.window_manager.remove_window(wids[i]);
            i += 1;
        }
        proof {
            assert(wids@.take(i as int) =~= wids@);
            assert forall|w: WindowId| reactor.window_manager.windows@.contains_key(w) implies w.pid
                != pid by {
                if w.pid == pid {
                    assert(wids@.contains(w));
                    let j = choose|j: int| 0 <= j < wids@.len() && wids@[j] == w;
                    assert(!reactor.window_manager.windows@.contains_key(wids@[j]));
                }
            }
        }
        one_task(Task::Go(Work::LayoutEvent(LayoutEvent::Changed)))
    }

    /// A window server window is out of step: its application is asked for
    /// its windows.
    pub fn handle_resync_app_for_window(reactor: &Reactor, wsid: WindowServerId, sur: &Surroundings) -> (r:
        Vec<Task>)
        ensures
            r@ == match reactor.window_manager.tracked_spec(wsid) {
                Some(wid) => ask_app(*reactor, wid.pid),
                None => match reactor.untracked_info(wsid, *sur) {
                    Some(info) => ask_app(*reactor, info.pid),
                    None => Seq::empty(),
                },
            },
    {
        if let Some(wid) = reactor.window_manager.tracked_window_id(wsid) {
            return request_visible_windows(reactor, wid.pid);
        }
        let info: Option<WindowServerInfo> = match reactor.window_manager.get_window_server_info(
            wsid,
        ) {
            Some(info) => Some(info),
            None => sur.get_window(wsid),
        };
        match info {
            Some(info) => request_visible_windows(reactor, info.pid),
            None => no_tasks(),
        }
    }

    /// An application became active; one that the window manager itself
    /// activated is not followed.
    pub fn handle_application_activated(pid: pid_t, quiet: Quiet) -> (r: Vec<Task>)
        ensures
            r@ == if quiet == Quiet::Yes {
                Seq::empty()
            } else {
                seq![Task::Go(Work::Activation { pid, global: false })]
            },
    {
        if quiet == Quiet::Yes {
            no_tasks()
        } else {
            one_task(Task::Go(Work::Activation { pid, global: false }))
        }
    }

    /// An application has listed its windows.
    pub fn handle_windows_discovered(
        pid: pid_t,
        new: Vec<(WindowId, WindowInfo)>,
        known_visible: Vec<WindowId>,
    ) -> (r: Vec<Task>)
        ensures
            r@ == seq![
                Task::Ask(Question::Sightings, Work::Discovered { pid, new, known_visible }),
            ],
    {
        WindowDiscoveryHandler::handle_discovery(pid, new, known_visible)
    }
}

/// An application that is there is asked for its windows, and no other.
pub proof fn law_known_application_is_asked(m: Reactor, pid: pid_t)
    ensures
        m.app_manager.apps@.contains_key(pid) ==> ask_app(m, pid) == seq![
            Task::Tell(Message::App(pid, Request::GetVisibleWindows)),
        ],
        !m.app_manager.apps@.contains_key(pid) ==> ask_app(m, pid).len() == 0,
{
}

} // verus!
