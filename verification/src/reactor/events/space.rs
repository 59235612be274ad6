//! Windows that enter or leave spaces.

use vstd::prelude::*;

use crate::app::{Request, WindowId};
use crate::event::{Event, WindowServerInfo};
use crate::ids::{pid_t, SpaceId, WindowServerId};
use crate::reactor::managers::{FullscreenWindowTrack, SpaceManager, WindowManager};
use crate::reactor::registry::server_state_removed;
use crate::reactor::server_info::{only_descriptions_changed, ServerModel};
use crate::reactor::surroundings::Surroundings;
use crate::reactor::task::{no_tasks, one_task, Message, Task};
use crate::reactor::Reactor;

verus! {

pub struct SpaceEventHandler;

/// Smaller windows are tooltips and the like.
pub const MIN_MANAGEABLE_WINDOW_SIZE: i64 = 12800;

/// Whose window left a fullscreen space, as far as is known.
pub open spec fn owner_of(reactor: Reactor, wsid: WindowServerId) -> Option<
    (pid_t, Option<WindowId>),
> {
    match reactor.window_manager.tracked_spec(wsid) {
        Some(wid) => Some((wid.pid, Some(wid))),
        None => match reactor.window_manager.server_info(Some(wsid)) {
            Some(info) => Some((info.pid, None)),
            None => None,
        },
    }
}

fn find_owner(reactor: &Reactor, wsid: WindowServerId) -> (r: Option<(pid_t, Option<WindowId>)>)
    ensures
        r == owner_of(*reactor, wsid),
{
    match reactor.window_manager.tracked_window_id(wsid) {
        Some(wid) => Some((wid.pid, Some(wid))),
        None => match reactor.window_manager.server_info_of(Some(wsid)) {
            Some(info) => Some((info.pid, None)),
            None => None,
        },
    }
}

/// A known application is asked whether a window is gone.
pub open spec fn ask_if_gone(reactor: Reactor, wid: WindowId) -> Seq<Task> {
    if reactor.app_manager.apps@.contains_key(wid.pid) {
        seq![Task::Tell(Message::App(wid.pid, Request::WindowMaybeDestroyed(wid)))]
    } else {
        Seq::empty()
    }
}

fn ask_whether_gone(reactor: &Reactor, wid: WindowId) -> (r: Vec<Task>)
    ensures
        r@ == ask_if_gone(*reactor, wid),
{
    if reactor.app_manager.apps.contains_key(wid.pid) {
        one_task(Task::Tell(Message::App(wid.pid, Request::WindowMaybeDestroyed(wid))))
    } else {
        no_tasks()
    }
}

/// Nothing but the windows on one fullscreen space differs: one more is
/// there.
pub open spec fn fullscreen_recorded(
    before: Reactor,
    after: Reactor,
    space: SpaceId,
    track: FullscreenWindowTrack,
) -> bool {
    &&& after.fullscreen_windows(space) == before.fullscreen_windows(space).push(track)
    &&& after.space_manager.fullscreen_by_space@.remove(space.0)
        == before.space_manager.fullscreen_by_space@.remove(space.0)
    &&& after.space_manager.fullscreen_by_space@.contains_key(space.0)
    &&& after == (Reactor {
        space_manager: SpaceManager {
            fullscreen_by_space: after.space_manager.fullscreen_by_space,
            ..before.space_manager
        },
        ..before
    })
}

/// Whether a window in sight is one to look at.
pub open spec fn worth_a_look(info: WindowServerInfo) -> bool {
    info.layer == 0 && info.frame.size.width >= MIN_MANAGEABLE_WINDOW_SIZE
        && info.frame.size.height >= MIN_MANAGEABLE_WINDOW_SIZE
}

/// What an unknown window that appeared on a space leads to.
pub open spec fn window_appeared(
    before: Reactor,
    after: Reactor,
    tasks: Seq<Task>,
    wsid: WindowServerId,
    info: Option<WindowServerInfo>,
    space: SpaceId,
    sur: Surroundings,
) -> bool {
    if before.window_manager.knows(wsid)
        || before.window_manager.observed_window_server_ids@.contains(wsid) {
        tasks.len() == 0 && after == before
    } else {
        exists|seen: Reactor|
            {
                &&& #[trigger] is_observed(before, seen, wsid)
                &&& match info {
                    Some(i) => if !worth_a_look(i) {
                        tasks.len() == 0 && after == seen
                    } else {
                        let known = before.app_manager.apps@.contains_key(i.pid);
                        if sur.fullscreen_spaces@.contains(space) {
                            &&& fullscreen_recorded(
                                seen,
                                after,
                                space,
                                FullscreenWindowTrack {
                                    pid: i.pid,
                                    window_id: None,
                                    last_known_user_space: seen.last_user_space(None, sur),
                                },
                            )
                            &&& tasks == if known {
                                seq![Task::Tell(Message::App(i.pid, Request::GetVisibleWindows))]
                            } else {
                                Seq::empty()
                            }
                        } else {
                            &&& after.window_manager.server_model()
                                == seen.window_manager.server_model().described(
                                i,
                                seen.window_manager.window_ids@,
                            )
                            &&& only_descriptions_changed(
                                seen.window_manager,
                                after.window_manager,
                            )
                            &&& after == (Reactor { window_manager: after.window_manager, ..seen })
                            &&& tasks == if known {
                                seq![Task::Tell(Message::App(i.pid, Request::GetVisibleWindows))]
                            } else {
                                seq![Task::Tell(Message::LaunchIfRunning(i.pid))]
                            }
                        }
                    },
                    None => tasks.len() == 0 && after == seen,
                }
            }
    }
}

/// Nothing but that a window was observed differs.
pub open spec fn is_observed(before: Reactor, after: Reactor, wsid: WindowServerId) -> bool {
    &&& after.window_manager.observed_window_server_ids@
        == before.window_manager.observed_window_server_ids@.insert(wsid)
    &&& after == (Reactor {
        window_manager: WindowManager {
            observed_window_server_ids: after.window_manager.observed_window_server_ids,
            ..before.window_manager
        },
        ..before
    })
}

impl SpaceEventHandler {
    /// A window left a space. From a fullscreen space it comes back soon; on
    /// an ordinary one it is gone, unless it is on another by now.
    pub fn handle_window_server_destroyed(
        reactor: &mut Reactor,
        wsid: WindowServerId,
        sid: SpaceId,
        sur: &Surroundings,
    ) -> (r: Vec<Task>)
        requires
            old(reactor).wf(),
        ensures
            final(reactor).wf(),
            server_window_destroyed(
                *old(reactor),
                *final(reactor),
                r@,
                wsid,
                sid,
                *sur,
            ),
    {
        if sur.space_is_fullscreen(sid) {
            let (pid, window_id): (pid_t, Option<WindowId>) = match find_owner(reactor, wsid) {
                Some(owner) => owner,
                None => {
                    return no_tasks();
                },
            };
            let last: Option<SpaceId> = reactor.resolve_last_known_user_space(window_id, sur);
            reactor.record_fullscreen_window(sid, pid, window_id, last);
            return match window_id {
                Some(wid) => ask_whether_gone(reactor, wid),
                None => no_tasks(),
            };
        }
        if !sur.space_is_user(sid) {
            return no_tasks();
        }
        if let Some(current) = sur.window_space(wsid) {
            if current != sid {
                return no_tasks();
            }
        }
        match reactor.window_manager.remove_window_server_state(wsid) {
            Some(wid) => {
                let mut tasks: Vec<Task> = ask_whether_gone(reactor, wid);
                tasks.push(Task::Tell(Message::Requeue(Event::WindowDestroyed(wid))));
                tasks
            },
            None => no_tasks(),
        }
    }

    /// A window entered a space; what the window server says of it, if
    /// anything, is given.
    fn appeared(
        reactor: &mut Reactor,
        wsid: WindowServerId,
        info: Option<WindowServerInfo>,
        sid: SpaceId,
        sur: &Surroundings,
    ) -> (r: Vec<Task>)
        requires
            old(reactor).wf(),
            info matches Some(i) ==> i.frame.in_range(),
        ensures
            final(reactor).wf(),
            window_appeared(*old(reactor), *final(reactor), r@, wsid, info, sid, *sur),
    {
        if reactor.window_manager.knows_window_server_id(wsid)
            || reactor.window_manager.observed_window_server_ids.contains(wsid) {
            return no_tasks();
        }
        reactor.window_manager.mark_window_server_observed(wsid);
        let ghost seen = *reactor;
        assert(is_observed(*old(reactor), seen, wsid));
        let i: WindowServerInfo = match info {
            Some(i) => i,
            None => {
                return no_tasks();
            },
        };
        if i.layer != 0 || i.frame.size.width < MIN_MANAGEABLE_WINDOW_SIZE || i.frame.size.height
            < MIN_MANAGEABLE_WINDOW_SIZE {
            return no_tasks();
        }
        let known: bool = reactor.app_manager.apps.contains_key(i.pid);
        if sur.space_is_fullscreen(sid) {
            let last: Option<SpaceId> = reactor.resolve_last_known_user_space(None, sur);
            reactor.record_fullscreen_window(sid, i.pid, None, last);
            return if known {
                one_task(Task::Tell(Message::App(i.pid, Request::GetVisibleWindows)))
            } else {
                no_tasks()
            };
        }
        let mut list: Vec<WindowServerInfo> = Vec::new();
        list.push(i);
        assert(list@.drop_last() =~= Seq::<WindowServerInfo>::empty());
        proof {
            reveal_with_fuel(ServerModel::described_by, 2);
        }
        reactor.window_manager.update_partial_window_server_info(&list);
        if known {
            one_task(Task::Tell(Message::App(i.pid, Request::GetVisibleWindows)))
        } else {
            one_task(Task::Tell(Message::LaunchIfRunning(i.pid)))
        }
    }

    /// A window entered a space.
    pub fn handle_window_server_appeared(
        reactor: &mut Reactor,
        wsid: WindowServerId,
        sid: SpaceId,
        sur: &Surroundings,
    ) -> (r: Vec<Task>)
        requires
            old(reactor).wf(),
            sur.wf(),
        ensures
            final(reactor).wf(),
            window_appeared(
                *old(reactor),
                *final(reactor),
                r@,
                wsid,
                sur.server_window(wsid),
                sid,
                *sur,
            ),
    {
        Self::appeared(reactor, wsid, sur.get_window(wsid), sid, sur)
    }

    /// A window is found on a space after displays were reconfigured.
    pub fn handle_window_server_snapshot_appeared(
        reactor: &mut Reactor,
        info: WindowServerInfo,
        sid: SpaceId,
        sur: &Surroundings,
    ) -> (r: Vec<Task>)
        requires
            old(reactor).wf(),
            info.frame.in_range(),
        ensures
            final(reactor).wf(),
            window_appeared(
                *old(reactor),
                *final(reactor),
                r@,
                info.id,
                Some(info),
                sid,
                *sur,
            ),
    {
        Self::appeared(reactor, info.id, Some(info), sid, sur)
    }
}

/// A window that is known or was seen before does not appear again; an
/// unknown one that is off the ordinary layer or smaller than fifty points
/// either way is only noted as seen.
pub proof fn law_window_appears_once_and_only_if_real(
    before: Reactor,
    after: Reactor,
    tasks: Seq<Task>,
    wsid: WindowServerId,
    info: WindowServerInfo,
    space: SpaceId,
    sur: Surroundings,
)
    requires
        window_appeared(before, after, tasks, wsid, Some(info), space, sur),
    ensures
        before.window_manager.observed_window_server_ids@.contains(wsid)
            || before.window_manager.knows(wsid) ==> tasks.len() == 0 && after == before,
        info.layer != 0 || info.frame.size.width < 50 * 256 || info.frame.size.height < 50 * 256
            ==> tasks.len() == 0 && after.window_manager.window_server_info
            == before.window_manager.window_server_info && after.space_manager
            == before.space_manager,
        (info.layer != 0 || info.frame.size.width < 50 * 256 || info.frame.size.height < 50 * 256)
            && !before.window_manager.knows(wsid)
            ==> after.window_manager.observed_window_server_ids@.contains(wsid),
{
}

/// A real window that appears has its application asked for its windows, or,
/// if that is not known, looked for; on a fullscreen space it is recorded as
/// a fullscreen window instead of being described.
pub proof fn law_appearing_window_is_asked_for(
    before: Reactor,
    after: Reactor,
    tasks: Seq<Task>,
    wsid: WindowServerId,
    info: WindowServerInfo,
    space: SpaceId,
    sur: Surroundings,
)
    requires
        window_appeared(before, after, tasks, wsid, Some(info), space, sur),
        !before.window_manager.knows(wsid),
        !before.window_manager.observed_window_server_ids@.contains(wsid),
        info.layer == 0,
        info.frame.size.width >= 50 * 256,
        info.frame.size.height >= 50 * 256,
    ensures
        before.app_manager.apps@.contains_key(info.pid) ==> tasks == seq![
            Task::Tell(Message::App(info.pid, Request::GetVisibleWindows)),
        ],
        !before.app_manager.apps@.contains_key(info.pid) && !sur.fullscreen_spaces@.contains(space)
            ==> tasks == seq![Task::Tell(Message::LaunchIfRunning(info.pid))],
        sur.fullscreen_spaces@.contains(space)
            ==> after.space_manager.fullscreen_by_space@.contains_key(space.0)
            && after.fullscreen_windows(space).last().pid == info.pid && after.fullscreen_windows(
            space,
        ).last().window_id is None,
        !sur.fullscreen_spaces@.contains(space) ==> after.space_manager == before.space_manager,
{
}

/// Whose a window is: that of the window tracked under its number, or else of
/// the process that the window server names.
pub proof fn law_owner_of_a_window(m: Reactor, wsid: WindowServerId)
    ensures
        m.window_manager.window_ids@.contains_key(wsid) ==> owner_of(m, wsid) == Some(
            (
                m.window_manager.window_ids@[wsid].pid,
                Some(m.window_manager.window_ids@[wsid]),
            ),
        ),
        !m.window_manager.window_ids@.contains_key(wsid)
            && m.window_manager.window_server_info@.contains_key(wsid) ==> owner_of(m, wsid)
            == Some((m.window_manager.window_server_info@[wsid].pid, None::<WindowId>)),
        !m.window_manager.window_ids@.contains_key(wsid)
            && !m.window_manager.window_server_info@.contains_key(wsid) ==> owner_of(m, wsid)
            is None,
{
}

/// An application that is there is asked whether its window is gone.
pub proof fn law_application_is_asked_whether_a_window_is_gone(m: Reactor, wid: WindowId)
    ensures
        m.app_manager.apps@.contains_key(wid.pid) ==> ask_if_gone(m, wid) == seq![
            Task::Tell(Message::App(wid.pid, Request::WindowMaybeDestroyed(wid))),
        ],
        !m.app_manager.apps@.contains_key(wid.pid) ==> ask_if_gone(m, wid).len() == 0,
{
}

/// What the window server's end of a window on a space leads to and leaves.
pub open spec fn server_window_destroyed(
    before: Reactor,
    after: Reactor,
    tasks: Seq<Task>,
    wsid: WindowServerId,
    sid: SpaceId,
    sur: Surroundings,
) -> bool {
    if sur.fullscreen_spaces@.contains(sid) {
        match owner_of(before, wsid) {
            Some((pid, window_id)) => {
                &&& fullscreen_recorded(
                    before,
                    after,
                    sid,
                    FullscreenWindowTrack {
                        pid,
                        window_id,
                        last_known_user_space: before.last_user_space(window_id, sur),
                    },
                )
                &&& tasks == match window_id {
                    Some(wid) => ask_if_gone(before, wid),
                    None => Seq::empty(),
                }
            },
            None => tasks.len() == 0 && after == before,
        }
    } else if sur.user_spaces@.contains(sid) && !(sur.space_of(wsid) matches Some(s)
        && s != sid) {
        &&& server_state_removed(before.window_manager, after.window_manager, wsid)
        &&& after == (Reactor { window_manager: after.window_manager, ..before })
        &&& tasks == match before.window_manager.tracked_spec(wsid) {
            Some(wid) => ask_if_gone(before, wid).push(
                Task::Tell(Message::Requeue(Event::WindowDestroyed(wid))),
            ),
            None => Seq::empty(),
        }
    } else {
        tasks.len() == 0 && after == before
    }
}

/// A window that leaves a fullscreen space is recorded there; one that ends
/// on a space of the user's, and is not on another, is forgotten, and its
/// application is asked; one that merely went to another space is kept.
pub proof fn law_end_of_a_window_on_a_space(
    before: Reactor,
    after: Reactor,
    tasks: Seq<Task>,
    wsid: WindowServerId,
    sid: SpaceId,
    other: SpaceId,
    sur: Surroundings,
)
    requires
        server_window_destroyed(before, after, tasks, wsid, sid, sur),
    ensures
        sur.fullscreen_spaces@.contains(sid) && before.window_manager.window_ids@.contains_key(wsid)
            ==> after.space_manager.fullscreen_by_space@.contains_key(sid.0)
            && after.fullscreen_windows(sid).last().window_id == Some(
            before.window_manager.window_ids@[wsid],
        ) && after.window_manager == before.window_manager,
        !sur.fullscreen_spaces@.contains(sid) && sur.user_spaces@.contains(sid) && (
        !sur.window_spaces@.contains_key(wsid) || sur.window_spaces@[wsid] == sid) ==> {
            &&& !after.window_manager.window_ids@.contains_key(wsid)
            &&& !after.window_manager.window_server_info@.contains_key(wsid)
            &&& !after.window_manager.visible_windows@.contains(wsid)
            &&& before.window_manager.window_ids@.contains_key(wsid) ==> tasks.len() > 0
                && tasks.last() == Task::Tell(
                Message::Requeue(
                    Event::WindowDestroyed(before.window_manager.window_ids@[wsid]),
                ),
            )
        },
        !sur.fullscreen_spaces@.contains(sid) && sur.window_spaces@.contains_key(wsid)
            && sur.window_spaces@[wsid] == other && other != sid ==> tasks.len() == 0 && after
            == before,
        !sur.fullscreen_spaces@.contains(sid) && !sur.user_spaces@.contains(sid) ==> tasks.len()
            == 0 && after == before,
{
}

} // verus!
