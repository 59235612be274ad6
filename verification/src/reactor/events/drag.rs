//! The end of a drag.

use vstd::prelude::*;

use crate::app::WindowId;
use crate::model::{CoreError, Transition};
use crate::reactor::managers::{DragManager, DragState};
use crate::reactor::surroundings::Surroundings;
use crate::reactor::task::{no_tasks, one_task, then_task, CoreInput, Question, Task, Work};
use crate::reactor::transition::{core_after, reply_in_range};
use crate::reactor::Reactor;

verus! {

pub struct DragEventHandler;

/// Every window gets its frame, the dragged one in a second round.
pub open spec fn layout_rounds(skipped: bool) -> Seq<Task> {
    let round = Task::Go(Work::UpdateLayout { is_resize: false, is_workspace_switch: false });
    if skipped {
        seq![round, round]
    } else {
        seq![round]
    }
}

impl DragEventHandler {
    /// The mouse button was released: whatever was dragged is where it is to
    /// stay.
    pub fn handle_mouse_up(reactor: &Reactor) -> (r: Vec<Task>)
        ensures
            r@ == release_tasks(*reactor),
    {
        let pending: Option<(WindowId, WindowId)> = reactor.get_pending_drag_swap();
        match reactor.core.drag.window {
            Some(dragged) => one_task(
                Task::Ask(
                    Question::Core(CoreInput::DragCommitted(dragged)),
                    Work::DragCommitted { pending },
                ),
            ),
            None => one_task(Task::Go(Work::DragReleased { pending })),
        }
    }

    /// The workspace model has let the windows change places, or not.
    pub fn drag_committed(
        reactor: &mut Reactor,
        reply: Result<Transition, CoreError>,
        pending: Option<(WindowId, WindowId)>,
    ) -> (r: Vec<Task>)
        requires
            old(reactor).wf(),
            reply_in_range(reply),
        ensures
            final(reactor).wf(),
            *final(reactor) == (Reactor {
                core: core_after(old(reactor).core, reply),
                ..*old(reactor)
            }),
            r@ == seq![
                Task::Go(
                    Work::DragReleased {
                        pending: if reply is Ok {
                            pending
                        } else {
                            None
                        },
                    },
                ),
            ],
    {
        match reactor.core_replied(reply) {
            Some(_) => one_task(Task::Go(Work::DragReleased { pending })),
            None => one_task(Task::Go(Work::DragReleased { pending: None })),
        }
    }

    /// The dragged window is let go.
    pub fn drag_released(
        reactor: &mut Reactor,
        pending: Option<(WindowId, WindowId)>,
        sur: &Surroundings,
    ) -> (r: Vec<Task>)
        requires
            old(reactor).wf(),
        ensures
            final(reactor).wf(),
            drag_let_go(
                *old(reactor),
                *final(reactor),
                r@,
                pending,
                *sur,
            ),
    {
        let mut swapped: bool = false;
        if let Some((dragged, target)) = pending {
            reactor.drag_manager.skip_layout_for_window = Some(dragged);
            swapped = reactor.window_manager.windows.contains_key(dragged)
                && reactor.window_manager.windows.contains_key(target);
        }
        let (needs_layout, tasks): (bool, Vec<Task>) = reactor.finalize_active_drag(sur);
        then_task(tasks, Task::Go(Work::DragLayout { needed: swapped || needs_layout }))
    }

    /// Lays windows out after a drag, where that is needed.
    pub fn drag_layout(reactor: &mut Reactor, needed: bool) -> (r: Vec<Task>)
        requires
            old(reactor).wf(),
        ensures
            final(reactor).wf(),
            *final(reactor) == (Reactor {
                drag_manager: DragManager {
                    drag_state: DragState::Inactive,
                    ..old(reactor).drag_manager
                },
                ..*old(reactor)
            }),
            ({
                let skipped = old(reactor).drag_manager.skip_layout_for_window is Some;
                r@ == (if needed || skipped {
                    layout_rounds(skipped)
                } else {
                    Seq::empty()
                }).push(Task::Go(Work::ClearSkippedWindow))
            }),
    {
        reactor.drag_manager.drag_state = DragState::Inactive;
        let skipped: bool = reactor.drag_manager.skip_layout_for_window.is_some();
        let mut tasks: Vec<Task> = no_tasks();
        if needed || skipped {
            tasks.push(
                Task::Go(Work::UpdateLayout { is_resize: false, is_workspace_switch: false }),
            );
            if skipped {
                tasks.push(
                    Task::Go(Work::UpdateLayout { is_resize: false, is_workspace_switch: false }),
                );
            }
            assert(tasks@ =~= layout_rounds(skipped));
        }
        then_task(tasks, Task::Go(Work::ClearSkippedWindow))
    }

    /// No window is left out of the layout any more.
    pub fn clear_skipped_window(reactor: &mut Reactor)
        ensures
            *final(reactor) == (Reactor {
                drag_manager: DragManager {
                    skip_layout_for_window: None,
                    ..old(reactor).drag_manager
                },
                ..*old(reactor)
            }),
            old(reactor).wf() ==> final(reactor).wf(),
    {
        reactor.drag_manager.skip_layout_for_window = None;
    }
}

/// After a drag in which a window was left out of the layout, windows are laid
/// out twice, so that it gets its frame as well.
pub proof fn law_skipped_window_is_laid_out_in_a_second_round(skipped: bool, i: int)
    requires
        0 <= i < layout_rounds(skipped).len(),
    ensures
        layout_rounds(skipped).len() == if skipped {
            2int
        } else {
            1
        },
        layout_rounds(skipped)[i] == Task::Go(
            Work::UpdateLayout { is_resize: false, is_workspace_switch: false },
        ),
{
}

/// What the release of a dragged window leads to and leaves.
pub open spec fn drag_let_go(
    before: Reactor,
    after: Reactor,
    tasks: Seq<Task>,
    pending: Option<(WindowId, WindowId)>,
    sur: Surroundings,
) -> bool {
    let swapped = match pending {
        Some((dragged, target)) => before.window_manager.windows@.contains_key(dragged)
            && before.window_manager.windows@.contains_key(target),
        None => false,
    };
    let skip = match pending {
        Some((dragged, _)) => Some(dragged),
        None => before.drag_manager.skip_layout_for_window,
    };
    &&& tasks == before.drag_end_tasks(sur).push(
        Task::Go(
            Work::DragLayout { needed: swapped || before.drag_needs_layout(sur) },
        ),
    )
    &&& after == (Reactor {
        drag_manager: DragManager {
            drag_state: DragState::Inactive,
            skip_layout_for_window: match before.drag_session() {
                Some(session) => if before.drag_needs_layout(sur) {
                    Some(session.window)
                } else {
                    skip
                },
                None => skip,
            },
        },
        ..before
    })
}

/// The release of a dragged window ends the drag; windows are laid out if two
/// that are still there changed places or the drag has changed anything, and
/// the dragged window is left out of the first round.
pub proof fn law_released_drag_is_over(
    before: Reactor,
    after: Reactor,
    tasks: Seq<Task>,
    dragged: WindowId,
    target: WindowId,
    pending: Option<(WindowId, WindowId)>,
    sur: Surroundings,
)
    requires
        drag_let_go(before, after, tasks, pending, sur),
    ensures
        after.drag_manager.drag_state == DragState::Inactive,
        after.window_manager == before.window_manager,
        pending == Some((dragged, target)) && before.window_manager.windows@.contains_key(dragged)
            && before.window_manager.windows@.contains_key(target) ==> tasks.last() == Task::Go(
            Work::DragLayout { needed: true },
        ),
        pending == Some((dragged, target)) && before.drag_manager.drag_state == DragState::Inactive
            ==> after.drag_manager.skip_layout_for_window == Some(dragged),
        pending is None && before.drag_manager.drag_state == DragState::Inactive ==> tasks == seq![
            Task::Go(Work::DragLayout { needed: false }),
        ],
{
}

/// What the release of the button leads to.
pub open spec fn release_tasks(m: Reactor) -> Seq<Task> {
    match m.core.drag.window {
        Some(dragged) => seq![
            Task::Ask(
                Question::Core(CoreInput::DragCommitted(dragged)),
                Work::DragCommitted { pending: m.pending_swap() },
            ),
        ],
        None => seq![Task::Go(Work::DragReleased { pending: m.pending_swap() })],
    }
}

/// A release commits the drag that the model knows of, and the swap that was
/// pending goes with it.
pub proof fn law_release_commits_the_drag(m: Reactor, dragged: WindowId, target: WindowId)
    ensures
        m.core.drag.window == Some(dragged) && m.core.drag.target == Some(target) ==> release_tasks(
            m,
        ) == seq![
            Task::Ask(
                Question::Core(CoreInput::DragCommitted(dragged)),
                Work::DragCommitted { pending: Some((dragged, target)) },
            ),
        ],
        m.core.drag.window == Some(dragged) && m.core.drag.target is None ==> release_tasks(m)
            == seq![
            Task::Ask(
                Question::Core(CoreInput::DragCommitted(dragged)),
                Work::DragCommitted { pending: None },
            ),
        ],
        m.core.drag.window is None ==> release_tasks(m) == seq![
            Task::Go(Work::DragReleased { pending: None }),
        ],
{
}

} // verus!
