//! What layout commands do.

use vstd::prelude::*;

use crate::app::WindowId;
use crate::event::{Command, Direction, LayoutCommand, MetricsCommand};
use crate::ids::SpaceId;
use crate::model::{CoreError, CoreWorkspace, WindowCommand, WorkspaceCommand, WorkspaceNumber};
use crate::reactor::events::error_text::{
    debug_text, display_index_error_text, index_error, slot_error, slot_error_text, space_error,
    space_error_text, unsupported_error, unsupported_error_text,
};
use crate::reactor::managers::SwitchModel;
use crate::reactor::spaces::{number_for_slot, slot_number};
use crate::reactor::task::{no_tasks, one_task, Message, Question, Task, Work};
use crate::reactor::Reactor;
use crate::sorting::{ascending, lemma_ascending, sort_ascending};

verus! {

pub struct CommandEventHandler;

/// The numbers of a display's workspaces, as the model lists them.
pub open spec fn display_numbers(workspaces: Seq<CoreWorkspace>, display: Seq<char>) -> Seq<u32>
    decreases workspaces.len(),
{
    if workspaces.len() == 0 {
        Seq::empty()
    } else {
        let rest = display_numbers(workspaces.drop_last(), display);
        match workspaces.last().number {
            Some(number) => if workspaces.last().display@ == display {
                rest.push(number.0 as u32)
            } else {
                rest
            },
            None => rest,
        }
    }
}

fn numbers_on_display(workspaces: &Vec<CoreWorkspace>, display: &String) -> (r: Vec<u32>)
    ensures
        r@ == display_numbers(workspaces@, display@),
        forall|x: u32| #[trigger] r@.contains(x) ==> x <= 255,
{
    let mut r: Vec<u32> = Vec::new();
    let mut i: usize = 0;
    while i < workspaces.len()
        invariant
            i <= workspaces@.len(),
            r@ == display_numbers(workspaces@.take(i as int), display@),
            forall|k: int| 0 <= k < r@.len() ==> #[trigger] r@[k] <= 255,
        decreases workspaces@.len() - i,
    {
        assert(workspaces@.take(i + 1).drop_last() =~= workspaces@.take(i as int));
        if let Some(number) = workspaces[i].number {
            if workspaces[i].display == *display {
                r.push(number.0 as u32);
            }
        }
        i += 1;
    }
    assert(workspaces@.take(i as int) =~= workspaces@);
    r
}

/// The commands that are about the workspaces of a display.
pub open spec fn is_workspace_command(command: LayoutCommand) -> bool {
    match command {
        LayoutCommand::NextWorkspace(_)
        | LayoutCommand::PrevWorkspace(_)
        | LayoutCommand::SwitchToWorkspace(_)
        | LayoutCommand::CreateWorkspace
        | LayoutCommand::SwitchToLastWorkspace
        | LayoutCommand::ToggleHiddenWorkspace => true,
        _ => false,
    }
}

/// The commands that bring another workspace into view.
pub open spec fn is_workspace_switch(command: LayoutCommand) -> bool {
    is_workspace_command(command) && command != LayoutCommand::CreateWorkspace
}

fn about_workspaces(command: LayoutCommand) -> (r: bool)
    ensures
        r == is_workspace_command(command),
{
    match command {
        LayoutCommand::NextWorkspace(_)
        | LayoutCommand::PrevWorkspace(_)
        | LayoutCommand::SwitchToWorkspace(_)
        | LayoutCommand::CreateWorkspace
        | LayoutCommand::SwitchToLastWorkspace
        | LayoutCommand::ToggleHiddenWorkspace => true,
        _ => false,
    }
}

/// Whether a command of the workspace model is what a layout command means
/// on a display.
pub open spec fn means_on_display(
    workspaces: Seq<CoreWorkspace>,
    display: Seq<char>,
    command: LayoutCommand,
    core: WorkspaceCommand,
) -> bool {
    match command {
        LayoutCommand::NextWorkspace(skip) => match core {
            WorkspaceCommand::Next { display: d, skip_empty } => d@ == display && skip_empty == (
            skip == Some(true)),
            _ => false,
        },
        LayoutCommand::PrevWorkspace(skip) => match core {
            WorkspaceCommand::Previous { display: d, skip_empty } => d@ == display && skip_empty
                == (skip == Some(true)),
            _ => false,
        },
        LayoutCommand::SwitchToWorkspace(index) => {
            let numbers = ascending(display_numbers(workspaces, display));
            index < numbers.len() && core == WorkspaceCommand::Activate(
                WorkspaceNumber(numbers[index as int] as u8),
            )
        },
        LayoutCommand::CreateWorkspace => core matches WorkspaceCommand::Create { display: d }
            && d@ == display,
        LayoutCommand::SwitchToLastWorkspace => core matches WorkspaceCommand::Last { display: d }
            && d@ == display,
        LayoutCommand::ToggleHiddenWorkspace => core matches WorkspaceCommand::ToggleHidden {
            display: d,
        } && d@ == display,
        _ => false,
    }
}

/// The display that a workspace command on a space is about.
pub open spec fn command_display(reactor: Reactor, space: Option<SpaceId>) -> Option<Seq<char>> {
    match space {
        Some(s) => reactor.display_of_space(s),
        None => None,
    }
}

/// The command of the workspace model that a layout command on a single
/// window means; resizing steps are a twentieth.
pub open spec fn window_command_for(
    command: LayoutCommand,
    window: Option<WindowId>,
) -> Option<WindowCommand> {
    match command {
        LayoutCommand::NextWindow => Some(WindowCommand::Next { window }),
        LayoutCommand::PrevWindow => Some(WindowCommand::Previous { window }),
        LayoutCommand::MoveFocus(direction) => Some(WindowCommand::Focus { direction, window }),
        LayoutCommand::MoveNode(direction) => Some(WindowCommand::Move { direction, window }),
        LayoutCommand::ResizeWindowGrow => Some(WindowCommand::Resize { amount: 500, window }),
        LayoutCommand::ResizeWindowShrink => Some(WindowCommand::Resize { amount: (-500) as i32, window }),
        LayoutCommand::ResizeWindowBy { amount } => Some(WindowCommand::Resize { amount, window }),
        LayoutCommand::ResizeWindowDirectional(direction) => Some(
            WindowCommand::ResizeDirectional { direction, window },
        ),
        LayoutCommand::ToggleFocusFloating => Some(WindowCommand::ToggleFocusLayer { window }),
        LayoutCommand::ToggleFullscreen => Some(
            WindowCommand::ToggleFullscreen { window, within_gaps: false },
        ),
        LayoutCommand::ToggleFullscreenWithinGaps => Some(
            WindowCommand::ToggleFullscreen { window, within_gaps: true },
        ),
        LayoutCommand::JoinWindow(direction) => Some(WindowCommand::Join { direction, window }),
        LayoutCommand::UnjoinWindows => Some(WindowCommand::Unjoin { window }),
        LayoutCommand::ToggleOrientation => Some(WindowCommand::ToggleOrientation { window }),
        LayoutCommand::SwapWindows(first, second) => Some(WindowCommand::Swap { first, second }),
        _ => None,
    }
}

/// The edge that a refused command may have run into.
pub open spec fn boundary_for(command: LayoutCommand) -> Option<Direction> {
    match command {
        LayoutCommand::MoveFocus(direction) | LayoutCommand::MoveNode(direction) => Some(direction),
        _ => None,
    }
}

/// Shows the workspace model where floating windows are before another
/// workspace comes into view.
pub open spec fn store_tasks(reactor: Reactor, space: Option<SpaceId>) -> Seq<Task> {
    match space {
        Some(s) => if reactor.shown_workspace(s) is Some {
            seq![Task::Ask(Question::Observe, Work::Done)]
        } else {
            Seq::empty()
        },
        None => Seq::empty(),
    }
}

impl Reactor {
    pub fn store_current_floating_positions(&self, space: Option<SpaceId>) -> (r: Vec<Task>)
        ensures
            r@ == store_tasks(*self, space),
    {
        match space {
            Some(s) => match self.active_workspace_for_space(s) {
                Some(_) => one_task(Task::Ask(Question::Observe, Work::Done)),
                None => no_tasks(),
            },
            None => no_tasks(),
        }
    }
}

/// A switch that is over: it neither is in progress nor still settles.
pub open spec fn settled(m: SwitchModel) -> SwitchModel {
    SwitchModel { active: None, ..m.inactive() }
}

/// What a workspace command is answered that is about no display.
pub open spec fn display_error(space: Option<SpaceId>) -> Seq<char> {
    match space {
        Some(s) => space_error(s),
        None => "workspace command has no active native Space"@,
    }
}

impl CommandEventHandler {
    pub fn core_workspace_number(slot: usize) -> (r: Result<WorkspaceNumber, CoreError>)
        ensures
            match slot_number(slot) {
                Some(number) => r == Ok::<WorkspaceNumber, CoreError>(number),
                None => r matches Err(CoreError::InvalidCommand(text)) && text@ == slot_error(slot),
            },
    {
        match number_for_slot(slot) {
            Some(number) => Ok(number),
            None => Err(CoreError::InvalidCommand(slot_error_text(slot))),
        }
    }

    fn command_display_uuid(reactor: &Reactor, space: Option<SpaceId>) -> (r: Result<
        String,
        CoreError,
    >)
        ensures
            match r {
                Ok(display) => command_display(*reactor, space) == Some(display@),
                Err(error) => command_display(*reactor, space) is None && (error matches
                    CoreError::IncompleteObservation(text) && text@ == display_error(space)),
            },
    {
        match space {
            Some(s) => match reactor.display_uuid_for_space(s) {
                Some(display) => Ok(display),
                None => Err(CoreError::IncompleteObservation(space_error_text(s))),
            },
            None => Err(
                CoreError::IncompleteObservation(
                    "workspace command has no active native Space".to_string(),
                ),
            ),
        }
    }

    /// What a command on workspaces means to the workspace model.
    pub fn workspace_command(
        reactor: &Reactor,
        space: Option<SpaceId>,
        command: LayoutCommand,
    ) -> (r: Result<WorkspaceCommand, CoreError>)
        ensures
            match r {
                Ok(core) => command_display(*reactor, space) matches Some(display)
                    && means_on_display(reactor.core.workspaces@, display, command, core),
                Err(CoreError::UnsupportedCommand(text)) => !is_workspace_command(command) && text@
                    == unsupported_error(command),
                Err(CoreError::IncompleteObservation(text)) => is_workspace_command(command)
                    && command_display(*reactor, space) is None && text@ == display_error(space),
                Err(CoreError::InvalidCommand(text)) => match command {
                    LayoutCommand::SwitchToWorkspace(index) => command_display(
                        *reactor,
                        space,
                    ) matches Some(display) && index >= display_numbers(
                        reactor.core.workspaces@,
                        display,
                    ).len() && text@ == index_error(debug_text(display), index),
                    _ => false,
                },
                Err(_) => false,
            },
    {
        if !about_workspaces(command) {
            return Err(CoreError::UnsupportedCommand(unsupported_error_text(command)));
        }
        let display: String = match Self::command_display_uuid(reactor, space) {
            Ok(display) => display,
            Err(error) => {
                return Err(error);
            },
        };
        match command {
            LayoutCommand::NextWorkspace(skip_empty) => Ok(
                WorkspaceCommand::Next {
                    display,
                    skip_empty: match skip_empty {
                        Some(skip) => skip,
                        None => false,
                    },
                },
            ),
            LayoutCommand::PrevWorkspace(skip_empty) => Ok(
                WorkspaceCommand::Previous {
                    display,
                    skip_empty: match skip_empty {
                        Some(skip) => skip,
                        None => false,
                    },
                },
            ),
            LayoutCommand::SwitchToWorkspace(index) => {
                let numbers: Vec<u32> = numbers_on_display(&reactor.core.workspaces, &display);
                let sorted: Vec<u32> = sort_ascending(&numbers);
                if index < sorted.len() {
                    proof {
                        assert(sorted@.contains(sorted@[index as int]));
                        assert(numbers@.contains(sorted@[index as int]));
                    }
                    Ok(WorkspaceCommand::Activate(WorkspaceNumber(sorted[index] as u8)))
                } else {
                    Err(
                        CoreError::InvalidCommand(
                            display_index_error_text(display.as_str(), index),
                        ),
                    )
                }
            },
            LayoutCommand::CreateWorkspace => Ok(WorkspaceCommand::Create { display }),
            LayoutCommand::SwitchToLastWorkspace => Ok(WorkspaceCommand::Last { display }),
            _ => Ok(WorkspaceCommand::ToggleHidden { display }),
        }
    }

    /// What a command on a single window means to the workspace model.
    pub fn window_command(command: LayoutCommand, window: Option<WindowId>) -> (r: Option<
        WindowCommand,
    >)
        ensures
            r == window_command_for(command, window),
    {
        match command {
            LayoutCommand::NextWindow => Some(WindowCommand::Next { window }),
            LayoutCommand::PrevWindow => Some(WindowCommand::Previous { window }),
            LayoutCommand::MoveFocus(direction) => Some(
                WindowCommand::Focus { direction, window },
            ),
            LayoutCommand::MoveNode(direction) => Some(WindowCommand::Move { direction, window }),
            LayoutCommand::ResizeWindowGrow => Some(
                WindowCommand::Resize { amount: 500, window },
            ),
            LayoutCommand::ResizeWindowShrink => Some(
                WindowCommand::Resize { amount: -500, window },
            ),
            LayoutCommand::ResizeWindowBy { amount } => Some(
                WindowCommand::Resize { amount, window },
            ),
            LayoutCommand::ResizeWindowDirectional(direction) => Some(
                WindowCommand::ResizeDirectional { direction, window },
            ),
            LayoutCommand::ToggleFocusFloating => Some(WindowCommand::ToggleFocusLayer { window }),
            LayoutCommand::ToggleFullscreen => Some(
                WindowCommand::ToggleFullscreen { window, within_gaps: false },
            ),
            LayoutCommand::ToggleFullscreenWithinGaps => Some(
                WindowCommand::ToggleFullscreen { window, within_gaps: true },
            ),
            LayoutCommand::JoinWindow(direction) => Some(
                WindowCommand::Join { direction, window },
            ),
            LayoutCommand::UnjoinWindows => Some(WindowCommand::Unjoin { window }),
            LayoutCommand::ToggleOrientation => Some(WindowCommand::ToggleOrientation { window }),
            LayoutCommand::SwapWindows(first, second) => Some(
                WindowCommand::Swap { first, second },
            ),
            _ => None,
        }
    }

    pub fn handle_command(cmd: Command) -> (r: Vec<Task>)
        ensures
            r@ == match cmd {
                Command::Layout(command) => seq![Task::Go(Work::LayoutCommand(command))],
                Command::Metrics(command) => seq![Task::Tell(Message::Metrics(command))],
                Command::Reactor(command) => seq![Task::Go(Work::ReactorCommand(command))],
            },
    {
        match cmd {
            Command::Layout(command) => one_task(Task::Go(Work::LayoutCommand(command))),
            Command::Metrics(command) => Self::handle_command_metrics(command),
            Command::Reactor(command) => one_task(Task::Go(Work::ReactorCommand(command))),
        }
    }

    pub fn handle_command_metrics(cmd: MetricsCommand) -> (r: Vec<Task>)
        ensures
            r@ == seq![Task::Tell(Message::Metrics(cmd))],
    {
        one_task(Task::Tell(Message::Metrics(cmd)))
    }
}

/// The numbers of a display are those of its numbered workspaces.
pub proof fn law_display_numbers_are_its_workspaces(
    workspaces: Seq<CoreWorkspace>,
    display: Seq<char>,
    n: u32,
)
    ensures
        display_numbers(workspaces, display).contains(n) <==> exists|i: int|
            0 <= i < workspaces.len() && (#[trigger] workspaces[i]).display@ == display && (
            workspaces[i].number matches Some(number) && number.0 == n),
    decreases workspaces.len(),
{
    if workspaces.len() > 0 {
        let rest = workspaces.drop_last();
        law_display_numbers_are_its_workspaces(rest, display, n);
        let a = display_numbers(rest, display);
        let b = display_numbers(workspaces, display);
        if a.contains(n) {
            let k = a.index_of(n);
            assert(b[k] == n);
            let i = choose|i: int|
                0 <= i < rest.len() && (#[trigger] rest[i]).display@ == display && (
                rest[i].number matches Some(number) && number.0 == n);
            assert(workspaces[i] == rest[i]);
        }
        if b.contains(n) && !a.contains(n) {
            let k = b.index_of(n);
            if k < a.len() {
                assert(a[k] == n);
            }
            assert(workspaces[workspaces.len() - 1].display@ == display);
        }
        if exists|i: int|
            0 <= i < workspaces.len() && (#[trigger] workspaces[i]).display@ == display && (
            workspaces[i].number matches Some(number) && number.0 == n) {
            let i = choose|i: int|
                0 <= i < workspaces.len() && (#[trigger] workspaces[i]).display@ == display && (
                workspaces[i].number matches Some(number) && number.0 == n);
            if i < rest.len() {
                assert(rest[i] == workspaces[i]);
            } else {
                assert(b.last() == n);
            }
        }
    }
}

/// A switch to the workspace at a position activates a workspace of that very
/// display, and a later position never one with a lower number.
pub proof fn law_switch_by_position_counts_the_displays_own_workspaces(
    workspaces: Seq<CoreWorkspace>,
    display: Seq<char>,
    a: usize,
    b: usize,
    first: WorkspaceCommand,
    second: WorkspaceCommand,
)
    requires
        a <= b,
        means_on_display(workspaces, display, LayoutCommand::SwitchToWorkspace(a), first),
        means_on_display(workspaces, display, LayoutCommand::SwitchToWorkspace(b), second),
    ensures
        first matches WorkspaceCommand::Activate(n) && second matches WorkspaceCommand::Activate(m)
            && n.0 <= m.0 && exists|i: int|
            0 <= i < workspaces.len() && (#[trigger] workspaces[i]).display@ == display
                && workspaces[i].number == Some(n),
{
    let numbers = display_numbers(workspaces, display);
    lemma_ascending(numbers);
    let sorted = ascending(numbers);
    assert(sorted.contains(sorted[a as int]));
    assert(sorted.contains(sorted[b as int]));
    law_display_numbers_are_its_workspaces(workspaces, display, sorted[a as int]);
    law_display_numbers_are_its_workspaces(workspaces, display, sorted[b as int]);
    let i = choose|i: int|
        0 <= i < workspaces.len() && (#[trigger] workspaces[i]).display@ == display && (
        workspaces[i].number matches Some(number) && number.0 == sorted[a as int]);
    assert(workspaces[i].number matches Some(number) && number.0 == sorted[a as int]);
}

/// A workspace command stays on its display: whichever it is, the command
/// that it means names that display, or activates a workspace on it.
pub proof fn law_workspace_command_stays_on_its_display(
    workspaces: Seq<CoreWorkspace>,
    display: Seq<char>,
    command: LayoutCommand,
    core: WorkspaceCommand,
)
    requires
        means_on_display(workspaces, display, command, core),
    ensures
        match core {
            WorkspaceCommand::Next { display: d, skip_empty } => d@ == display && command
                is NextWorkspace && (skip_empty <==> command == LayoutCommand::NextWorkspace(
                Some(true),
            )),
            WorkspaceCommand::Previous { display: d, skip_empty } => d@ == display && command
                is PrevWorkspace && (skip_empty <==> command == LayoutCommand::PrevWorkspace(
                Some(true),
            )),
            WorkspaceCommand::Last { display: d } => d@ == display && command
                is SwitchToLastWorkspace,
            WorkspaceCommand::Create { display: d } => d@ == display && command is CreateWorkspace,
            WorkspaceCommand::ToggleHidden { display: d } => d@ == display && command
                is ToggleHiddenWorkspace,
            WorkspaceCommand::Activate(n) => command is SwitchToWorkspace && exists|i: int|
                0 <= i < workspaces.len() && (#[trigger] workspaces[i]).display@ == display
                    && workspaces[i].number == Some(n),
            _ => false,
        },
{
    if let LayoutCommand::SwitchToWorkspace(index) = command {
        law_switch_by_position_counts_the_displays_own_workspaces(
            workspaces,
            display,
            index,
            index,
            core,
            core,
        );
    }
}

/// Every command about workspaces but the one that makes a workspace brings
/// one into view, and no command on windows does.
pub proof fn law_workspace_switches(command: LayoutCommand, window: Option<WindowId>)
    ensures
        is_workspace_switch(command) ==> is_workspace_command(command),
        is_workspace_command(command) && !is_workspace_switch(command) <==> command
            is CreateWorkspace,
        window_command_for(command, window) is Some ==> !is_workspace_command(command),
        is_workspace_switch(command) <==> command is NextWorkspace || command is PrevWorkspace
            || command is SwitchToWorkspace || command is SwitchToLastWorkspace || command
            is ToggleHiddenWorkspace,
{
}

/// A command on a single window is about the window that it is given, and
/// keeps its direction and amount. Growing and shrinking are opposite steps
/// of a twentieth, that is 500 of 10000.
pub proof fn law_window_command_keeps_window_and_direction(
    window: Option<WindowId>,
    direction: Direction,
    amount: i32,
)
    ensures
        window_command_for(LayoutCommand::MoveFocus(direction), window) == Some(
            WindowCommand::Focus { direction, window },
        ),
        window_command_for(LayoutCommand::MoveNode(direction), window) == Some(
            WindowCommand::Move { direction, window },
        ),
        window_command_for(LayoutCommand::JoinWindow(direction), window) == Some(
            WindowCommand::Join { direction, window },
        ),
        window_command_for(LayoutCommand::ResizeWindowDirectional(direction), window) == Some(
            WindowCommand::ResizeDirectional { direction, window },
        ),
        window_command_for(LayoutCommand::ResizeWindowBy { amount }, window) == Some(
            WindowCommand::Resize { amount, window },
        ),
        amount == 500 ==> window_command_for(LayoutCommand::ResizeWindowGrow, window)
            == window_command_for(LayoutCommand::ResizeWindowBy { amount }, window),
        amount == -500 ==> window_command_for(LayoutCommand::ResizeWindowShrink, window)
            == window_command_for(LayoutCommand::ResizeWindowBy { amount }, window),
        window_command_for(LayoutCommand::NextWindow, window) == Some(
            WindowCommand::Next { window },
        ),
        window_command_for(LayoutCommand::PrevWindow, window) == Some(
            WindowCommand::Previous { window },
        ),
        boundary_for(LayoutCommand::MoveFocus(direction)) == Some(direction),
        boundary_for(LayoutCommand::MoveNode(direction)) == Some(direction),
{
}

/// Different commands on a window mean different things, but for a resize by
/// just the step of growing or shrinking.
pub proof fn law_window_commands_are_told_apart(
    a: LayoutCommand,
    b: LayoutCommand,
    window: Option<WindowId>,
)
    requires
        window_command_for(a, window) is Some,
        window_command_for(a, window) == window_command_for(b, window),
    ensures
        a == b || (a is ResizeWindowBy || b is ResizeWindowBy) && (a is ResizeWindowGrow || a
            is ResizeWindowShrink || b is ResizeWindowGrow || b is ResizeWindowShrink),
{
}

/// Where floating windows are is looked at before a switch exactly if a
/// workspace is in view on the space.
pub proof fn law_positions_are_stored_before_a_switch(m: Reactor, space: SpaceId)
    ensures
        m.shown_workspace(space) is Some ==> store_tasks(m, Some(space)) == seq![
            Task::Ask(Question::Observe, Work::Done),
        ],
        m.shown_workspace(space) is None ==> store_tasks(m, Some(space)).len() == 0,
        store_tasks(m, None).len() == 0,
{
}

} // verus!
