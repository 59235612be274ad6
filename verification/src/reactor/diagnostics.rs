//! What the diagnostic log is told.

use vstd::prelude::*;

use crate::app::WindowId;
use crate::collections::{first_match, lemma_first_index, lemma_no_match};
use crate::event::{Command, UserInputTrace};
use crate::ids::SpaceId;
use crate::model::{CoreError, CoreWorkspace, WorkspaceId, WorkspaceNumber};
use crate::reactor::surroundings::Surroundings;
use crate::reactor::task::{one_task, Message, Task};
use crate::reactor::Reactor;

verus! {

/// The workspace that a window is to be moved to.
pub struct MoveTarget {
    pub id: WorkspaceId,
    pub number: u8,
    pub display: String,
}

/// What is known when the window in use is to be moved to a workspace.
pub struct MoveResolution {
    pub requested_slot_zero_based: usize,
    pub requested_workspace_number: Option<u8>,
    pub command_space: Option<SpaceId>,
    pub focus_follows_mouse: bool,
    pub main_window: Option<WindowId>,
    pub window_under_cursor: Option<WindowId>,
    pub layout_focus: Option<WindowId>,
    pub resolved_window: Option<WindowId>,
    pub layout_focus_workspace: Option<WorkspaceId>,
    pub resolved_window_workspace: Option<WorkspaceId>,
    pub target_workspace: Option<MoveTarget>,
}

/// What came of moving the window in use to a workspace.
pub enum MoveResult {
    /// The window is sent there once it is assigned to any workspace.
    DeferredUntilWindowAssignment(WindowId),
    /// No workspace goes by the slot.
    NoSuchSlot(usize),
    /// The workspace model refused.
    Rejected(CoreError),
    Accepted { window: WindowId, actual_workspace: Option<WorkspaceId> },
    IgnoredWithoutCurrentWindow,
}

/// An entry of the diagnostic log.
pub enum DiagnosticNote {
    Input(UserInputTrace),
    /// A command is about to be dealt with. The log takes down how the
    /// workspaces are.
    OperationBegun(Command),
    /// The command in hand has been dealt with. The log takes down how the
    /// workspaces are.
    OperationFinished,
    /// Readers get a new snapshot.
    Snapshot,
    MoveWindowResolution(MoveResolution),
    MoveWindowResult(MoveResult),
    /// The settings of the log may have changed.
    Reconfigured,
}

pub open spec fn note_task(entry: DiagnosticNote) -> Task {
    Task::Tell(Message::Diagnostics(entry))
}

pub open spec fn result_task(result: MoveResult) -> Task {
    note_task(DiagnosticNote::MoveWindowResult(result))
}

/// The number that a slot stands for in the log.
pub open spec fn logged_number(slot: usize) -> Option<u8> {
    if slot < 255 {
        Some((slot + 1) as u8)
    } else {
        None
    }
}

pub open spec fn has_number(number: u8) -> spec_fn(CoreWorkspace) -> bool {
    |w: CoreWorkspace| w.number == Some(WorkspaceNumber(number))
}

/// The first workspace that goes by the number of a slot.
pub open spec fn move_target(workspaces: Seq<CoreWorkspace>, slot: usize) -> Option<MoveTarget> {
    match logged_number(slot) {
        Some(number) => match first_match(workspaces, has_number(number)) {
            Some(w) => Some(MoveTarget { id: w.id, number, display: w.display }),
            None => None,
        },
        None => None,
    }
}

fn find_move_target(workspaces: &Vec<CoreWorkspace>, slot: usize) -> (r: Option<MoveTarget>)
    ensures
        r == move_target(workspaces@, slot),
{
    if slot >= 255 {
        return None;
    }
    let number: u8 = (slot + 1) as u8;
    let mut i: usize = 0;
    while i < workspaces.len()
        invariant
            i <= workspaces@.len(),
            slot < 255,
            number == slot + 1,
            forall|j: int| 0 <= j < i ==> !has_number(number)(#[trigger] workspaces@[j]),
        decreases workspaces@.len() - i,
    {
        let found: bool = match workspaces[i].number {
            Some(n) => n.0 == number,
            None => false,
        };
        if found {
            proof {
                lemma_first_index(workspaces@, has_number(number), i as int);
            }
            return Some(
                MoveTarget {
                    id: workspaces[i].id,
                    number,
                    display: workspaces[i].display.clone(),
                },
            );
        }
        i += 1;
    }
    proof {
        lemma_no_match(workspaces@, has_number(number));
    }
    None
}

impl Reactor {
    /// The workspace of a window, if there is one.
    pub open spec fn workspace_of_any(&self, window: Option<WindowId>) -> Option<WorkspaceId> {
        match window {
            Some(w) => self.assigned_workspace(w),
            None => None,
        }
    }

    fn find_workspace_of_any(&self, window: Option<WindowId>) -> (r: Option<WorkspaceId>)
        ensures
            r == self.workspace_of_any(window),
    {
        match window {
            Some(w) => self.workspace_for_window(w),
            None => None,
        }
    }

    /// What is known when a window is to be moved to the workspace of a slot.
    pub open spec fn resolution_of_move(
        &self,
        slot: usize,
        resolved: Option<WindowId>,
        sur: Surroundings,
    ) -> MoveResolution {
        MoveResolution {
            requested_slot_zero_based: slot,
            requested_workspace_number: logged_number(slot),
            command_space: self.command_space(sur),
            focus_follows_mouse: self.config.settings.focus_follows_mouse,
            main_window: self.main_wid(),
            window_under_cursor: self.under_cursor(sur),
            layout_focus: self.core.focused_window,
            resolved_window: resolved,
            layout_focus_workspace: self.workspace_of_any(self.core.focused_window),
            resolved_window_workspace: self.workspace_of_any(resolved),
            target_workspace: move_target(self.core.workspaces@, slot),
        }
    }

    pub fn describe_move(
        &self,
        slot: usize,
        resolved: Option<WindowId>,
        sur: &Surroundings,
    ) -> (r: MoveResolution)
        requires
            self.wf(),
            sur.wf(),
        ensures
            r == self.resolution_of_move(slot, resolved, *sur),
    {
        let number: Option<u8> = if slot < 255 {
            Some((slot + 1) as u8)
        } else {
            None
        };
        let layout_focus: Option<WindowId> = self.focused_window_for_command();
        MoveResolution {
            requested_slot_zero_based: slot,
            requested_workspace_number: number,
            command_space: self.workspace_command_space(sur),
            focus_follows_mouse: self.config.settings.focus_follows_mouse,
            main_window: self.main_window(),
            window_under_cursor: self.window_id_under_cursor(sur),
            layout_focus,
            resolved_window: resolved,
            layout_focus_workspace: self.find_workspace_of_any(layout_focus),
            resolved_window_workspace: self.find_workspace_of_any(resolved),
            target_workspace: find_move_target(&self.core.workspaces, slot),
        }
    }

    /// Tells the log where a window was moved to.
    pub fn note_move_accepted(&self, window: WindowId) -> (r: Vec<Task>)
        ensures
            r@ == seq![
                result_task(
                    MoveResult::Accepted {
                        window,
                        actual_workspace: self.assigned_workspace(window),
                    },
                ),
            ],
    {
        one_task(
            note_result(
                MoveResult::Accepted {
                    window,
                    actual_workspace: self.workspace_for_window(window),
                },
            ),
        )
    }
}

pub fn note(entry: DiagnosticNote) -> (r: Task)
    ensures
        r == note_task(entry),
{
    Task::Tell(Message::Diagnostics(entry))
}

pub fn note_result(result: MoveResult) -> (r: Task)
    ensures
        r == result_task(result),
{
    note(DiagnosticNote::MoveWindowResult(result))
}

/// The target of a move in the log is the first workspace whose number is one
/// more than the slot; a slot past the last number has none.
pub proof fn law_logged_target_of_a_slot(workspaces: Seq<CoreWorkspace>, slot: usize, i: int)
    ensures
        slot >= 255 ==> move_target(workspaces, slot) is None,
        slot < 255 && 0 <= i < workspaces.len() && workspaces[i].number == Some(
            WorkspaceNumber((slot + 1) as u8),
        ) && (forall|j: int|
            0 <= j < i ==> (#[trigger] workspaces[j]).number != Some(
                WorkspaceNumber((slot + 1) as u8),
            )) ==> (move_target(workspaces, slot) matches Some(t) && t.id == workspaces[i].id
            && t.number == slot + 1 && t.display == workspaces[i].display),
{
    if slot < 255 && 0 <= i < workspaces.len() && workspaces[i].number == Some(
        WorkspaceNumber((slot + 1) as u8),
    ) && (forall|j: int|
        0 <= j < i ==> (#[trigger] workspaces[j]).number != Some(
            WorkspaceNumber((slot + 1) as u8),
        )) {
        let pred = has_number((slot + 1) as u8);
        assert forall|j: int| 0 <= j < i implies !pred(#[trigger] workspaces[j]) by {}
        crate::collections::lemma_first_index(workspaces, pred, i);
    }
}

/// What is known of a move is what the reactor has: the space that commands
/// are about, the focus, the window under the cursor and the one that moves.
pub proof fn law_move_is_described_as_it_is(
    m: Reactor,
    slot: usize,
    window: WindowId,
    sur: Surroundings,
)
    ensures
        ({
            let r = m.resolution_of_move(slot, Some(window), sur);
            &&& r.requested_slot_zero_based == slot
            &&& r.command_space == m.command_space(sur)
            &&& r.main_window == m.main_window_tracker@.main_window()
            &&& r.layout_focus == m.core.focused_window
            &&& r.resolved_window == Some(window)
            &&& r.resolved_window_workspace == m.assigned_workspace(window)
            &&& r.focus_follows_mouse == m.config.settings.focus_follows_mouse
        }),
{
}

} // verus!
