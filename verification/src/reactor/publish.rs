//! Showing readers and subscribers how things are.

use vstd::prelude::*;

use crate::app::WindowId;
use crate::broadcast::{BroadcastEvent, LayoutState};
use crate::collections::{
    copy_list, first_at, first_index, first_match, lemma_first_index, lemma_no_match, same_list,
};
use crate::event::Event;
use crate::ids::{pid_t, SpaceId};
use crate::model::{
    ApplicationSnapshot, CoreDisplay, CoreSnapshot, CoreWorkspace, WorkspaceId, WorkspaceNumber,
};
use crate::reactor::classify::{busy_window, can_count, counting_dropped};
use crate::reactor::diagnostics::{note, note_task, DiagnosticNote};
use crate::reactor::dispatch::Reconfiguration;
use crate::reactor::display_topology::ManagerModel;
use crate::reactor::observation::copy_text;
use crate::reactor::query::{display_by_id, find_display};
use crate::reactor::task::{no_tasks, Message, Question, Task, Work};
use crate::reactor::transition::{windows_of_workspace, workspace_windows};
use crate::reactor::Reactor;
use crate::stack_line::{find_workspace, workspace_by_id};
use crate::text::{chars_of, comes_before, lemma_text_order, text_before};

verus! {

/// The windows that a display has on a workspace. Where two workspaces go by
/// one id, the later counts.
pub open spec fn windows_on(
    workspaces: Seq<CoreWorkspace>,
    display: Seq<char>,
    id: WorkspaceId,
) -> Option<Seq<WindowId>>
    decreases workspaces.len(),
{
    if workspaces.len() == 0 {
        None
    } else if workspaces.last().display@ == display && workspaces.last().id == id {
        Some(windows_of_workspace(workspaces.last()))
    } else {
        windows_on(workspaces.drop_last(), display, id)
    }
}

/// Whether two snapshots have the same windows on a workspace of a display.
pub open spec fn agree_on(
    previous: CoreSnapshot,
    current: CoreSnapshot,
    display: Seq<char>,
    id: WorkspaceId,
) -> bool {
    windows_on(previous.workspaces@, display, id) == windows_on(
        current.workspaces@,
        display,
        id,
    )
}

/// Whether two snapshots have the same windows on every workspace of a
/// display.
pub open spec fn same_windows(
    previous: CoreSnapshot,
    current: CoreSnapshot,
    display: Seq<char>,
) -> bool {
    forall|id: WorkspaceId| #[trigger] agree_on(previous, current, display, id)
}

/// Whether a workspace belongs to a display.
pub open spec fn has_display(workspaces: Seq<CoreWorkspace>, display: Seq<char>) -> bool {
    exists|i: int| 0 <= i < workspaces.len() && (#[trigger] workspaces[i]).display@ == display
}

/// Whether names are in strict order.
pub open spec fn in_order(names: Seq<String>) -> bool {
    forall|i: int, j: int|
        0 <= i < j < names.len() ==> text_before((#[trigger] names[i])@, (#[trigger] names[j])@)
}

pub open spec fn has_name(names: Seq<String>, name: Seq<char>) -> bool {
    exists|i: int| 0 <= i < names.len() && (#[trigger] names[i])@ == name
}

/// Whether names are those of the displays that have workspaces in one of two
/// snapshots, in order.
pub open spec fn names_displays(
    names: Seq<String>,
    previous: CoreSnapshot,
    current: CoreSnapshot,
) -> bool {
    &&& in_order(names)
    &&& forall|name: Seq<char>| #[trigger]
        has_name(names, name) <==> has_display(previous.workspaces@, name) || has_display(
            current.workspaces@,
            name,
        )
}

/// The workspace that a display shows on a space.
pub open spec fn shown_on(s: CoreSnapshot, display: CoreDisplay) -> Option<
    (SpaceId, CoreWorkspace),
> {
    match (display.space, display.active_workspace) {
        (Some(space), Some(id)) => match workspace_by_id(s, id) {
            Some(workspace) => Some((space, workspace)),
            None => None,
        },
        _ => None,
    }
}

/// What a display shows, by its identity.
pub open spec fn shown_by(s: CoreSnapshot, display: Seq<char>) -> Option<
    (SpaceId, CoreWorkspace),
> {
    match display_by_id(s, display) {
        Some(d) => shown_on(s, d),
        None => None,
    }
}

/// Whether texts are the debug strings of windows.
pub open spec fn names_windows(texts: Seq<String>, windows: Seq<WindowId>) -> bool {
    &&& texts.len() == windows.len()
    &&& forall|i: int| 0 <= i < texts.len() ==> (#[trigger] texts[i])@ == windows[i].debug_text()
}

/// Whether a task tells subscribers of the windows on a display.
pub open spec fn tells_windows(task: Task, current: CoreSnapshot, display: Seq<char>) -> bool {
    shown_by(current, display) matches Some((space, workspace)) && (task matches Task::Tell(
        Message::Broadcast(
            BroadcastEvent::WindowsChanged {
                workspace_id,
                workspace_name,
                windows,
                space_id,
                display_uuid,
            },
        ),
    ) && workspace_id == workspace.id && workspace_name@ == workspace.name@ && space_id == space
        && names_windows(
        windows@,
        match windows_on(current.workspaces@, display, workspace.id) {
            Some(w) => w,
            None => Seq::empty(),
        },
    ) && (display_uuid matches Some(uuid) && uuid@ == display))
}

/// Whether tasks tell subscribers of the displays among some whose windows
/// changed, in order.
pub open spec fn tells_all_windows(
    tasks: Seq<Task>,
    previous: CoreSnapshot,
    current: CoreSnapshot,
    names: Seq<String>,
) -> bool
    decreases names.len(),
{
    if names.len() == 0 {
        tasks.len() == 0
    } else if !same_windows(previous, current, names.last()@) && shown_by(
        current,
        names.last()@,
    ) is Some {
        &&& tasks.len() > 0
        &&& tells_windows(tasks.last(), current, names.last()@)
        &&& tells_all_windows(tasks.drop_last(), previous, current, names.drop_last())
    } else {
        tells_all_windows(tasks, previous, current, names.drop_last())
    }
}

/// Whether two layouts look the same to subscribers.
pub open spec fn same_state(a: LayoutState, b: LayoutState) -> bool {
    a.mode@ == b.mode@ && a.tiled_windows@ == b.tiled_windows@ && a.floating_windows@
        == b.floating_windows@ && a.focused_window == b.focused_window
}

/// The place of a display, by its identity.
pub open spec fn display_place(s: CoreSnapshot, id: Seq<char>) -> Option<int> {
    first_index(s.displays@, |d: CoreDisplay| d.id@ == id)
}

/// Whether a display had the workspace and the layout that it has now.
/// `previous_layouts` and `layouts` hold a layout for each display.
pub open spec fn same_layout(
    previous: CoreSnapshot,
    current: CoreSnapshot,
    previous_layouts: Seq<LayoutState>,
    layouts: Seq<LayoutState>,
    i: int,
) -> bool {
    display_place(previous, current.displays@[i].id@) matches Some(k) && (shown_on(
        previous,
        previous.displays@[k],
    ) is Some && previous.displays@[k].active_workspace
        == current.displays@[i].active_workspace && same_state(previous_layouts[k], layouts[i]))
}

/// The number of a workspace, where it has one.
pub open spec fn index_of(number: Option<WorkspaceNumber>) -> Option<u64> {
    match number {
        Some(n) => Some(n.0 as u64),
        None => None,
    }
}

/// Whether a task tells subscribers of the layout on a display.
pub open spec fn tells_layout(
    task: Task,
    current: CoreSnapshot,
    layout_now: LayoutState,
    display: CoreDisplay,
) -> bool {
    shown_on(current, display) matches Some((space, workspace)) && (task matches Task::Tell(
        Message::Broadcast(
            BroadcastEvent::LayoutChanged {
                workspace_id,
                workspace_index,
                workspace_name,
                layout,
                space_id,
                display_uuid,
            },
        ),
    ) && workspace_id == workspace.id && workspace_index == index_of(workspace.number)
        && workspace_name@ == workspace.name@ && same_state(layout, layout_now) && space_id
        == space && (display_uuid matches Some(uuid) && uuid@ == display.id@))
}

/// Whether tasks tell subscribers of the layouts that changed on the first
/// `n` displays.
pub open spec fn tells_all_layouts(
    tasks: Seq<Task>,
    previous: CoreSnapshot,
    current: CoreSnapshot,
    previous_layouts: Seq<LayoutState>,
    layouts: Seq<LayoutState>,
    n: int,
) -> bool
    decreases n,
{
    if n <= 0 {
        tasks.len() == 0
    } else if shown_on(current, current.displays@[n - 1]) is Some && !same_layout(
        previous,
        current,
        previous_layouts,
        layouts,
        n - 1,
    ) {
        &&& tasks.len() > 0
        &&& tells_layout(tasks.last(), current, layouts[n - 1], current.displays@[n - 1])
        &&& tells_all_layouts(
            tasks.drop_last(),
            previous,
            current,
            previous_layouts,
            layouts,
            n - 1,
        )
    } else {
        tells_all_layouts(tasks, previous, current, previous_layouts, layouts, n - 1)
    }
}

fn find_windows_on(workspaces: &Vec<CoreWorkspace>, display: &String, id: WorkspaceId) -> (r: Option<
    Vec<WindowId>,
>)
    ensures
        match r {
            Some(w) => windows_on(workspaces@, display@, id) == Some(w@),
            None => windows_on(workspaces@, display@, id) is None,
        },
{
    let mut n: usize = workspaces.len();
    assert(workspaces@.take(n as int) =~= workspaces@);
    while n > 0
        invariant
            n <= workspaces@.len(),
            windows_on(workspaces@, display@, id) == windows_on(
                workspaces@.take(n as int),
                display@,
                id,
            ),
        decreases n,
    {
        assert(workspaces@.take(n as int).drop_last() =~= workspaces@.take(n - 1));
        assert(workspaces@.take(n as int).last() == workspaces@[n - 1]);
        if workspaces[n - 1].display == *display && workspaces[n - 1].id == id {
            return Some(workspace_windows(&workspaces[n - 1]));
        }
        n -= 1;
    }
    None
}

fn agrees_on(
    previous: &CoreSnapshot,
    current: &CoreSnapshot,
    display: &String,
    id: WorkspaceId,
) -> (r: bool)
    ensures
        r == agree_on(*previous, *current, display@, id),
{
    match (
        find_windows_on(&previous.workspaces, display, id),
        find_windows_on(&current.workspaces, display, id),
    ) {
        (Some(a), Some(b)) => same_list(&a, &b),
        (None, None) => true,
        _ => false,
    }
}

/// Only the workspaces there are can make a difference.
proof fn lemma_unknown_workspace(workspaces: Seq<CoreWorkspace>, display: Seq<char>, id: WorkspaceId)
    requires
        forall|i: int| 0 <= i < workspaces.len() ==> (#[trigger] workspaces[i]).id != id,
    ensures
        windows_on(workspaces, display, id) is None,
    decreases workspaces.len(),
{
    if workspaces.len() > 0 {
        lemma_unknown_workspace(workspaces.drop_last(), display, id);
    }
}

fn agrees_on_all(
    previous: &CoreSnapshot,
    current: &CoreSnapshot,
    workspaces: &Vec<CoreWorkspace>,
    display: &String,
) -> (r: bool)
    ensures
        r == forall|i: int|
            0 <= i < workspaces@.len() ==> agree_on(
                *previous,
                *current,
                display@,
                (#[trigger] workspaces@[i]).id,
            ),
{
    let mut i: usize = 0;
    while i < workspaces.len()
        invariant
            i <= workspaces@.len(),
            forall|j: int|
                0 <= j < i ==> agree_on(
                    *previous,
                    *current,
                    display@,
                    (#[trigger] workspaces@[j]).id,
                ),
        decreases workspaces@.len() - i,
    {
        if !agrees_on(previous, current, display, workspaces[i].id) {
            return false;
        }
        i += 1;
    }
    true
}

fn has_same_windows(previous: &CoreSnapshot, current: &CoreSnapshot, display: &String) -> (r: bool)
    ensures
        r == same_windows(*previous, *current, display@),
{
    let r: bool = agrees_on_all(previous, current, &previous.workspaces, display)
        && agrees_on_all(previous, current, &current.workspaces, display);
    proof {
        if r {
            assert forall|id: WorkspaceId| #[trigger]
                agree_on(*previous, *current, display@, id) by {
                if forall|i: int|
                    0 <= i < previous.workspaces@.len()
                        ==> (#[trigger] previous.workspaces@[i]).id != id {
                    if forall|i: int|
                        0 <= i < current.workspaces@.len()
                            ==> (#[trigger] current.workspaces@[i]).id != id {
                        lemma_unknown_workspace(previous.workspaces@, display@, id);
                        lemma_unknown_workspace(current.workspaces@, display@, id);
                    }
                }
            }
        }
    }
    r
}

/// Puts a name in its place.
fn insert_name(names: &mut Vec<String>, name: &String)
    requires
        in_order(old(names)@),
    ensures
        in_order(final(names)@),
        forall|x: Seq<char>| #[trigger]
            has_name(final(names)@, x) <==> has_name(old(names)@, x) || x == name@,
{
    let mut k: usize = 0;
    while k < names.len() && comes_before(
        &chars_of(names[k].as_str()),
        &chars_of(name.as_str()),
    )
        invariant
            k <= names@.len(),
            names@ == old(names)@,
            forall|i: int| 0 <= i < k ==> text_before((#[trigger] names@[i])@, name@),
        decreases names@.len() - k,
    {
        k += 1;
    }
    let ghost before = names@;
    if k < names.len() && names[k] == *name {
        assert(before[k as int]@ == name@);
        return;
    }
    names.insert(k, name.clone());
    proof {
        let after = names@;
        assert(after == before.insert(k as int, after[k as int]));
        assert(after[k as int]@ == name@);
        if k < before.len() {
            lemma_text_order(before[k as int]@, name@, name@);
            assert(text_before(name@, before[k as int]@));
        }
        assert forall|i: int, j: int| 0 <= i < j < after.len() implies text_before(
            (#[trigger] after[i])@,
            (#[trigger] after[j])@,
        ) by {
            if i == k {
                assert(after[j] == before[j - 1]);
                if j - 1 > k {
                    lemma_text_order(name@, before[k as int]@, before[j - 1]@);
                }
            } else if j == k {
                assert(after[i] == before[i]);
            } else {
                let a = if i < k {
                    i
                } else {
                    i - 1
                };
                let b = if j < k {
                    j
                } else {
                    j - 1
                };
                assert(after[i] == before[a] && after[j] == before[b]);
            }
        }
        assert forall|x: Seq<char>| #[trigger]
            has_name(after, x) <==> has_name(before, x) || x == name@ by {
            if has_name(before, x) {
                let i = choose|i: int| 0 <= i < before.len() && (#[trigger] before[i])@ == x;
                if i < k {
                    assert(after[i]@ == x);
                } else {
                    assert(after[i + 1]@ == x);
                }
            }
            if x == name@ {
                assert(after[k as int]@ == x);
            }
            if has_name(after, x) {
                let i = choose|i: int| 0 <= i < after.len() && (#[trigger] after[i])@ == x;
                if i < k {
                    assert(before[i]@ == x);
                } else if i > k {
                    assert(before[i - 1]@ == x);
                }
            }
        }
    }
}

fn insert_displays(names: &mut Vec<String>, workspaces: &Vec<CoreWorkspace>)
    requires
        in_order(old(names)@),
    ensures
        in_order(final(names)@),
        forall|x: Seq<char>| #[trigger]
            has_name(final(names)@, x) <==> has_name(old(names)@, x) || has_display(
                workspaces@,
                x,
            ),
{
    let mut i: usize = 0;
    while i < workspaces.len()
        invariant
            i <= workspaces@.len(),
            in_order(names@),
            forall|x: Seq<char>| #[trigger]
                has_name(names@, x) <==> has_name(old(names)@, x) || has_display(
                    workspaces@.take(i as int),
                    x,
                ),
        decreases workspaces@.len() - i,
    {
        insert_name(names, &workspaces[i].display);
        proof {
            let d = workspaces@[i as int].display@;
            assert forall|x: Seq<char>| #[trigger]
                has_name(names@, x) <==> has_name(old(names)@, x) || has_display(
                    workspaces@.take(i + 1),
                    x,
                ) by {
                let shorter = workspaces@.take(i as int);
                let longer = workspaces@.take(i + 1);
                if has_display(shorter, x) {
                    let j = choose|j: int|
                        0 <= j < shorter.len() && (#[trigger] shorter[j]).display@ == x;
                    assert(longer[j].display@ == x);
                }
                if x == d {
                    assert(longer[i as int].display@ == x);
                }
                if has_display(longer, x) && x != d {
                    let j = choose|j: int|
                        0 <= j < longer.len() && (#[trigger] longer[j]).display@ == x;
                    assert(shorter[j].display@ == x);
                }
            }
        }
        i += 1;
    }
    assert(workspaces@.take(i as int) =~= workspaces@);
}

fn window_texts(windows: &Vec<WindowId>) -> (r: Vec<String>)
    ensures
        names_windows(r@, windows@),
{
    let mut r: Vec<String> = Vec::new();
    let mut i: usize = 0;
    while i < windows.len()
        invariant
            i <= windows@.len(),
            r@.len() == i,
            forall|j: int| 0 <= j < i ==> (#[trigger] r@[j])@ == windows@[j].debug_text(),
        decreases windows@.len() - i,
    {
        r.push(windows[i].to_debug_string());
        i += 1;
    }
    r
}

/// The space and the place of the workspace that a display shows.
fn find_shown(s: &CoreSnapshot, display: &CoreDisplay) -> (r: Option<(SpaceId, usize)>)
    ensures
        match r {
            Some((space, k)) => k < s.workspaces@.len() && shown_on(*s, *display) == Some(
                (space, s.workspaces@[k as int]),
            ) && display.active_workspace == Some(s.workspaces@[k as int].id),
            None => shown_on(*s, *display) is None,
        },
{
    let space: SpaceId = match display.space {
        Some(space) => space,
        None => {
            return None;
        },
    };
    let id: WorkspaceId = match display.active_workspace {
        Some(id) => id,
        None => {
            return None;
        },
    };
    match find_workspace(s, id) {
        Some(k) => {
            proof {
                lemma_found_workspace(*s, id);
            }
            Some((space, k))
        },
        None => None,
    }
}

proof fn lemma_found_workspace(s: CoreSnapshot, id: WorkspaceId)
    ensures
        workspace_by_id(s, id) matches Some(w) ==> w.id == id,
{
    let pred = |w: CoreWorkspace| w.id == id;
    if workspace_by_id(s, id) is Some {
        let i = first_index(s.workspaces@, pred).unwrap();
        assert(first_at(s.workspaces@, pred, i));
    }
}

/// The news of the windows on a display.
fn windows_news(current: &CoreSnapshot, display: &String) -> (r: Option<Task>)
    ensures
        match r {
            Some(task) => tells_windows(task, *current, display@),
            None => shown_by(*current, display@) is None,
        },
{
    let at: usize = match find_display(current, display) {
        Some(at) => at,
        None => {
            return None;
        },
    };
    let (space, k): (SpaceId, usize) = match find_shown(current, &current.displays[at]) {
        Some(found) => found,
        None => {
            return None;
        },
    };
    let id: WorkspaceId = current.workspaces[k].id;
    let windows: Vec<WindowId> = match find_windows_on(&current.workspaces, display, id) {
        Some(w) => w,
        None => {
            let none: Vec<WindowId> = Vec::new();
            assert(none@ =~= Seq::<WindowId>::empty());
            none
        },
    };
    Some(
        Task::Tell(
            Message::Broadcast(
                BroadcastEvent::WindowsChanged {
                    workspace_id: id,
                    workspace_name: current.workspaces[k].name.clone(),
                    windows: window_texts(&windows),
                    space_id: space,
                    display_uuid: Some(display.clone()),
                },
            ),
        ),
    )
}

impl LayoutState {
    pub fn same(&self, other: &LayoutState) -> (r: bool)
        ensures
            r == same_state(*self, *other),
    {
        let same_focus: bool = match (self.focused_window, other.focused_window) {
            (Some(a), Some(b)) => a == b,
            (None, None) => true,
            _ => false,
        };
        same_focus && self.mode == other.mode && same_list(
            &self.tiled_windows,
            &other.tiled_windows,
        ) && same_list(&self.floating_windows, &other.floating_windows)
    }

    pub fn copy(&self) -> (r: LayoutState)
        ensures
            same_state(r, *self),
    {
        LayoutState {
            mode: self.mode.clone(),
            tiled_windows: copy_list(&self.tiled_windows),
            floating_windows: copy_list(&self.floating_windows),
            focused_window: self.focused_window,
        }
    }
}

fn find_display_place(s: &CoreSnapshot, id: &String) -> (r: Option<usize>)
    ensures
        match r {
            Some(i) => i < s.displays@.len() && display_place(*s, id@) == Some(i as int),
            None => display_place(*s, id@) is None,
        },
{
    let ghost pred = |d: CoreDisplay| d.id@ == id@;
    let mut i: usize = 0;
    while i < s.displays.len()
        invariant
            i <= s.displays@.len(),
            pred == (|d: CoreDisplay| d.id@ == id@),
            forall|j: int| 0 <= j < i ==> !pred(#[trigger] s.displays@[j]),
        decreases s.displays@.len() - i,
    {
        if s.displays[i].id == *id {
            proof {
                lemma_first_index(s.displays@, pred, i as int);
            }
            return Some(i);
        }
        i += 1;
    }
    proof {
        lemma_no_match(s.displays@, pred);
    }
    None
}

fn has_same_layout(
    previous: &CoreSnapshot,
    current: &CoreSnapshot,
    previous_layouts: &Vec<LayoutState>,
    layouts: &Vec<LayoutState>,
    i: usize,
) -> (r: bool)
    requires
        i < current.displays@.len(),
        layouts@.len() == current.displays@.len(),
        previous_layouts@.len() == previous.displays@.len(),
    ensures
        r == same_layout(*previous, *current, previous_layouts@, layouts@, i as int),
{
    match find_display_place(previous, &current.displays[i].id) {
        Some(k) => {
            let same_workspace: bool = match (
                previous.displays[k].active_workspace,
                current.displays[i].active_workspace,
            ) {
                (Some(a), Some(b)) => a == b,
                (None, None) => true,
                _ => false,
            };
            find_shown(previous, &previous.displays[k]).is_some() && same_workspace
                && previous_layouts[k].same(&layouts[i])
        },
        None => false,
    }
}

/// The news of the layout on a display.
fn layout_news(current: &CoreSnapshot, layouts: &Vec<LayoutState>, i: usize) -> (r: Option<Task>)
    requires
        i < current.displays@.len(),
        layouts@.len() == current.displays@.len(),
    ensures
        match r {
            Some(task) => tells_layout(
                task,
                *current,
                layouts@[i as int],
                current.displays@[i as int],
            ),
            None => shown_on(*current, current.displays@[i as int]) is None,
        },
{
    let (space, k): (SpaceId, usize) = match find_shown(current, &current.displays[i]) {
        Some(found) => found,
        None => {
            return None;
        },
    };
    let workspace_index: Option<u64> = match current.workspaces[k].number {
        Some(n) => Some(n.0 as u64),
        None => None,
    };
    Some(
        Task::Tell(
            Message::Broadcast(
                BroadcastEvent::LayoutChanged {
                    workspace_id: current.workspaces[k].id,
                    workspace_index,
                    workspace_name: current.workspaces[k].name.clone(),
                    layout: layouts[i].copy(),
                    space_id: space,
                    display_uuid: Some(current.displays[i].id.clone()),
                },
            ),
        ),
    )
}

impl Reactor {
    /// Tells subscribers of every display whose windows are not the ones that
    /// it had, in the order of their names.
    pub fn broadcast_windows_changed(previous: &CoreSnapshot, current: &CoreSnapshot) -> (r: Vec<
        Task,
    >)
        ensures
            exists|names: Seq<String>|
                {
                    &&& #[trigger] names_displays(names, *previous, *current)
                    &&& tells_all_windows(r@, *previous, *current, names)
                },
    {
        let mut names: Vec<String> = Vec::new();
        insert_displays(&mut names, &previous.workspaces);
        insert_displays(&mut names, &current.workspaces);
        let mut tasks: Vec<Task> = no_tasks();
        let mut i: usize = 0;
        while i < names.len()
            invariant
                i <= names@.len(),
                tells_all_windows(tasks@, *previous, *current, names@.take(i as int)),
            decreases names@.len() - i,
        {
            assert(names@.take(i + 1).drop_last() =~= names@.take(i as int));
            assert(names@.take(i + 1).last() == names@[i as int]);
            if !has_same_windows(previous, current, &names[i]) {
                if let Some(task) = windows_news(current, &names[i]) {
                    let ghost before = tasks@;
                    tasks.push(task);
                    assert(tasks@.drop_last() =~= before);
                }
            }
            i += 1;
        }
        assert(names@.take(i as int) =~= names@);
        assert(names_displays(names@, *previous, *current));
        tasks
    }

    /// Tells subscribers of every display that shows another workspace or
    /// another layout than it did.
    pub fn broadcast_layout_changed(
        previous: &CoreSnapshot,
        current: &CoreSnapshot,
        previous_layouts: &Vec<LayoutState>,
        layouts: &Vec<LayoutState>,
    ) -> (r: Vec<Task>)
        requires
            layouts@.len() == current.displays@.len(),
            previous_layouts@.len() == previous.displays@.len(),
        ensures
            tells_all_layouts(
                r@,
                *previous,
                *current,
                previous_layouts@,
                layouts@,
                current.displays@.len() as int,
            ),
    {
        let mut tasks: Vec<Task> = no_tasks();
        let mut i: usize = 0;
        while i < current.displays.len()
            invariant
                i <= current.displays@.len(),
                layouts@.len() == current.displays@.len(),
                previous_layouts@.len() == previous.displays@.len(),
                tells_all_layouts(
                    tasks@,
                    *previous,
                    *current,
                    previous_layouts@,
                    layouts@,
                    i as int,
                ),
            decreases current.displays@.len() - i,
        {
            if !has_same_layout(previous, current, previous_layouts, layouts, i) {
                if let Some(task) = layout_news(current, layouts, i) {
                    let ghost before = tasks@;
                    tasks.push(task);
                    assert(tasks@.drop_last() =~= before);
                }
            }
            i += 1;
        }
        tasks
    }

    /// Whether a record describes a running application.
    pub open spec fn describes_app(&self, a: ApplicationSnapshot) -> bool {
        &&& self.app_manager.apps@.contains_key(a.id)
        &&& a.bundle_id == self.app_manager.apps@[a.id].info.bundle_id
        &&& a.name@ == match self.app_manager.apps@[a.id].info.localized_name {
            Some(name) => name@,
            None => "Unknown"@,
        }
        &&& a.frontmost == (self.main_wid() matches Some(w) && w.pid == a.id)
        &&& a.window_count == self.window_manager.windows.order().filter(
            |w: WindowId| w.pid == a.id,
        ).len()
    }

    /// Whether records describe all running applications, in the order of
    /// their ids.
    pub open spec fn lists_apps(&self, list: Seq<ApplicationSnapshot>) -> bool {
        &&& forall|i: int| 0 <= i < list.len() ==> self.describes_app(#[trigger] list[i])
        &&& forall|i: int, j: int|
            0 <= i < j < list.len() ==> (#[trigger] list[i]).id < (#[trigger] list[j]).id
        &&& forall|pid: pid_t| #[trigger]
            self.app_manager.apps@.contains_key(pid) ==> exists|i: int|
                0 <= i < list.len() && (#[trigger] list[i]).id == pid
    }

    fn describe_app(&self, pid: pid_t) -> (r: Option<ApplicationSnapshot>)
        ensures
            match r {
                Some(a) => a.id == pid && self.describes_app(a),
                None => !self.app_manager.apps@.contains_key(pid),
            },
    {
        let app = match self.app_manager.apps.get(pid) {
            Some(app) => app,
            None => {
                return None;
            },
        };
        let name: String = match &app.info.localized_name {
            Some(name) => name.clone(),
            None => {
                let mut unknown: String = String::new();
                unknown.append("Unknown");
                assert(unknown@ =~= "Unknown"@);
                unknown
            },
        };
        let frontmost: bool = match self.main_window() {
            Some(w) => w.pid == pid,
            None => false,
        };
        Some(
            ApplicationSnapshot {
                id: pid,
                bundle_id: copy_text(&app.info.bundle_id),
                name,
                frontmost,
                window_count: self.window_manager.window_ids_for_pid(pid).len(),
            },
        )
    }

    /// All running applications, in the order of their ids.
    pub fn application_snapshots(&self) -> (r: Vec<ApplicationSnapshot>)
        ensures
            self.lists_apps(r@),
    {
        let pids: Vec<pid_t> = self.app_manager.apps.keys();
        let mut list: Vec<ApplicationSnapshot> = Vec::new();
        let mut i: usize = 0;
        while i < pids.len()
            invariant
                i <= pids@.len(),
                pids@.no_duplicates(),
                forall|k: pid_t| #[trigger]
                    pids@.contains(k) <==> self.app_manager.apps@.contains_key(k),
                forall|j: int| 0 <= j < list@.len() ==> self.describes_app(#[trigger] list@[j]),
                ids_ascend(list@),
                forall|pid: pid_t| #[trigger]
                    lists_id(list@, pid) <==> pids@.take(i as int).contains(pid),
            decreases pids@.len() - i,
        {
            let pid: pid_t = pids[i];
            proof {
                assert(pids@.contains(pids@[i as int]));
                if lists_id(list@, pid) {
                    let j = choose|j: int|
                        0 <= j < pids@.take(i as int).len() && pids@.take(i as int)[j] == pid;
                    assert(pids@[j] == pids@[i as int]);
                }
                assert forall|p: pid_t|
                    pids@.take(i + 1).contains(p) <==> pids@.take(i as int).contains(p) || p
                        == pid by {
                    let shorter = pids@.take(i as int);
                    let longer = pids@.take(i + 1);
                    if shorter.contains(p) {
                        let j = choose|j: int| 0 <= j < shorter.len() && shorter[j] == p;
                        assert(longer[j] == p);
                    }
                    if p == pid {
                        assert(longer[i as int] == p);
                    }
                    if longer.contains(p) && p != pid {
                        let j = choose|j: int| 0 <= j < longer.len() && longer[j] == p;
                        assert(shorter[j] == p);
                    }
                }
            }
            if let Some(app) = self.describe_app(pid) {
                let ghost before = list@;
                insert_app(&mut list, app);
                assert forall|j: int| 0 <= j < list@.len() implies self.describes_app(
                    #[trigger] list@[j],
                ) by {
                    assert(list@[j] == app || before.contains(list@[j]));
                }
            }
            i += 1;
        }
        proof {
            assert(pids@.take(i as int) =~= pids@);
            assert forall|pid: pid_t| #[trigger]
                self.app_manager.apps@.contains_key(pid) implies exists|i: int|
                0 <= i < list@.len() && (#[trigger] list@[i]).id == pid by {
                assert(pids@.contains(pid));
                assert(lists_id(list@, pid));
            }
        }
        list
    }

    /// What an event at the head of the queue sets off. One that is dropped
    /// still shows that its window is busy; after any other, readers see how
    /// things are.
    pub open spec fn loop_tasks(event: Event, dropped: bool, handled: Seq<Task>) -> Seq<Task> {
        let busy = match busy_window(event) {
            Some(id) => seq![Task::Tell(Message::WindowActivity(id))],
            None => Seq::empty(),
        };
        if dropped {
            busy
        } else {
            (busy + handled).push(Task::Ask(Question::Observe, Work::Publish))
        }
    }

    /// Takes an event from the head of the queue.
    pub fn handle_loop_event(&mut self, event: Event, c: Reconfiguration, now: u64) -> (r: Vec<
        Task,
    >)
        requires
            can_count(old(self).display_topology_manager.quarantine_stats),
        ensures
            old(self).wf() ==> final(self).wf(),
            if old(self).drops(event) {
                &&& r@ == Self::loop_tasks(event, true, Seq::empty())
                &&& final(self).display_topology_manager@ == (ManagerModel {
                    stats: counting_dropped(old(self).display_topology_manager@.stats, event),
                    ..old(self).display_topology_manager@
                })
                &&& *final(self) == (Reactor {
                    display_topology_manager: final(self).display_topology_manager,
                    ..*old(self)
                })
            } else {
                exists|handled: Seq<Task>|
                    {
                        &&& #[trigger] Self::has_begun(
                            *old(self),
                            event,
                            c,
                            now,
                            *final(self),
                            handled,
                        )
                        &&& r@ == Self::loop_tasks(event, false, handled)
                    }
            },
    {
        let mut tasks: Vec<Task> = no_tasks();
        if let Some(id) = Self::note_windowserver_activity(&event) {
            tasks.push(Task::Tell(Message::WindowActivity(id)));
        }
        let ghost busy = tasks@;
        assert(busy =~= Self::loop_tasks(event, true, Seq::empty()));
        if self.display_topology_manager.is_churning_or_awaiting_commit()
            && !Self::should_process_during_churn(&event) {
            let dropped: bool = self.maybe_quarantine_during_churn(&event);
            return tasks;
        }
        let ghost dispatched = event;
        let mut handled: Vec<Task> = self.handle_event(event, c, now);
        let ghost all = handled@;
        assert(Self::has_begun(*old(self), dispatched, c, now, *self, all));
        tasks.append(&mut handled);
        assert(tasks@ =~= busy + all);
        tasks.push(Task::Ask(Question::Observe, Work::Publish));
        tasks
    }

    /// The snapshot that readers get: its number is one higher than the one
    /// before, and it lists the running applications. Subscribers are told of
    /// the windows and the layouts that changed, and the log of the snapshot.
    pub fn publish_core_snapshot(
        &self,
        previous: &CoreSnapshot,
        snapshot: CoreSnapshot,
        previous_layouts: &Vec<LayoutState>,
        layouts: &Vec<LayoutState>,
    ) -> (r: (CoreSnapshot, Vec<Task>))
        requires
            layouts@.len() == snapshot.displays@.len(),
            previous_layouts@.len() == previous.displays@.len(),
        ensures
            r.0 == (CoreSnapshot {
                revision: r.0.revision,
                applications: r.0.applications,
                ..snapshot
            }),
            r.0.revision == if previous.revision == u64::MAX {
                u64::MAX
            } else {
                (previous.revision + 1) as u64
            },
            self.lists_apps(r.0.applications@),
            exists|names: Seq<String>, windows: Seq<Task>, placed: Seq<Task>|
                {
                    &&& #[trigger] names_displays(names, *previous, r.0)
                    &&& #[trigger] tells_all_windows(windows, *previous, r.0, names)
                    &&& #[trigger] tells_all_layouts(
                        placed,
                        *previous,
                        r.0,
                        previous_layouts@,
                        layouts@,
                        r.0.displays@.len() as int,
                    )
                    &&& r.1@ == (windows + placed).push(note_task(DiagnosticNote::Snapshot)).push(
                        Task::Tell(Message::SnapshotPublished),
                    )
                },
    {
        let mut current: CoreSnapshot = snapshot;
        current.revision =
        if previous.revision == u64::MAX {
            u64::MAX
        } else {
            previous.revision + 1
        };
        current.applications = self.application_snapshots();
        let mut tasks: Vec<Task> = Self::broadcast_windows_changed(previous, &current);
        let ghost windows = tasks@;
        let mut more: Vec<Task> = Self::broadcast_layout_changed(
            previous,
            &current,
            previous_layouts,
            layouts,
        );
        let ghost placed = more@;
        tasks.append(&mut more);
        assert(tasks@ =~= windows + placed);
        tasks.push(note(DiagnosticNote::Snapshot));
        tasks.push(Task::Tell(Message::SnapshotPublished));
        (current, tasks)
    }
}

pub open spec fn ids_ascend(list: Seq<ApplicationSnapshot>) -> bool {
    forall|i: int, j: int|
        0 <= i < j < list.len() ==> (#[trigger] list[i]).id < (#[trigger] list[j]).id
}

pub open spec fn lists_id(list: Seq<ApplicationSnapshot>, pid: pid_t) -> bool {
    exists|i: int| 0 <= i < list.len() && (#[trigger] list[i]).id == pid
}

/// Puts an application in its place.
fn insert_app(list: &mut Vec<ApplicationSnapshot>, app: ApplicationSnapshot)
    requires
        ids_ascend(old(list)@),
        !lists_id(old(list)@, app.id),
    ensures
        ids_ascend(final(list)@),
        forall|i: int|
            0 <= i < final(list)@.len() ==> #[trigger] final(list)@[i] == app || old(
                list,
            )@.contains(final(list)@[i]),
        forall|pid: pid_t| #[trigger]
            lists_id(final(list)@, pid) <==> lists_id(old(list)@, pid) || pid == app.id,
{
    let mut k: usize = 0;
    while k < list.len() && list[k].id < app.id
        invariant
            k <= list@.len(),
            list@ == old(list)@,
            forall|i: int| 0 <= i < k ==> (#[trigger] list@[i]).id < app.id,
        decreases list@.len() - k,
    {
        k += 1;
    }
    let ghost before = list@;
    let ghost new = app;
    list.insert(k, app);
    proof {
        let after = list@;
        assert(after == before.insert(k as int, new));
        if k < before.len() {
            assert(before[k as int].id != new.id);
        }
        assert forall|i: int, j: int| 0 <= i < j < after.len() implies (#[trigger] after[i]).id
            < (#[trigger] after[j]).id by {
            let a = if i < k {
                i
            } else {
                i - 1
            };
            let b = if j < k {
                j
            } else {
                j - 1
            };
            assert(i != k ==> after[i] == before[a]);
            assert(j != k ==> after[j] == before[b]);
            if i == k && b > k {
                assert(before[k as int].id < before[b].id);
            }
        }
        assert forall|i: int| 0 <= i < after.len() implies #[trigger] after[i] == new
            || before.contains(after[i]) by {
            if i < k {
                assert(before[i] == after[i]);
            } else if i > k {
                assert(before[i - 1] == after[i]);
            }
        }
        assert forall|pid: pid_t| #[trigger]
            lists_id(after, pid) <==> lists_id(before, pid) || pid == new.id by {
            if lists_id(before, pid) {
                let i = choose|i: int| 0 <= i < before.len() && (#[trigger] before[i]).id == pid;
                if i < k {
                    assert(after[i].id == pid);
                } else {
                    assert(after[i + 1].id == pid);
                }
            }
            if pid == new.id {
                assert(after[k as int].id == pid);
            }
            if lists_id(after, pid) {
                let i = choose|i: int| 0 <= i < after.len() && (#[trigger] after[i]).id == pid;
                if i < k {
                    assert(before[i].id == pid);
                } else if i > k {
                    assert(before[i - 1].id == pid);
                }
            }
        }
    }
}

/// A snapshot like the one before it is no news: no windows and no layout
/// changed.
pub proof fn law_unchanged_snapshot_is_no_news(
    previous: CoreSnapshot,
    current: CoreSnapshot,
    layouts: Seq<LayoutState>,
    names: Seq<String>,
    windows: Seq<Task>,
    placed: Seq<Task>,
)
    requires
        current.workspaces@ == previous.workspaces@,
        current.displays@ == previous.displays@,
        layouts.len() == current.displays@.len(),
        forall|i: int, j: int|
            0 <= i < j < current.displays@.len() ==> (#[trigger] current.displays@[i]).id@
                != (#[trigger] current.displays@[j]).id@,
        names_displays(names, previous, current),
        tells_all_windows(windows, previous, current, names),
        tells_all_layouts(
            placed,
            previous,
            current,
            layouts,
            layouts,
            current.displays@.len() as int,
        ),
    ensures
        windows.len() == 0,
        placed.len() == 0,
{
    lemma_no_window_news(previous, current, names, windows);
    lemma_no_layout_news(previous, current, layouts, placed, current.displays@.len() as int);
}

proof fn lemma_no_window_news(
    previous: CoreSnapshot,
    current: CoreSnapshot,
    names: Seq<String>,
    windows: Seq<Task>,
)
    requires
        current.workspaces@ == previous.workspaces@,
        tells_all_windows(windows, previous, current, names),
    ensures
        windows.len() == 0,
    decreases names.len(),
{
    if names.len() > 0 {
        assert(same_windows(previous, current, names.last()@));
        lemma_no_window_news(previous, current, names.drop_last(), windows);
    }
}

proof fn lemma_no_layout_news(
    previous: CoreSnapshot,
    current: CoreSnapshot,
    layouts: Seq<LayoutState>,
    placed: Seq<Task>,
    n: int,
)
    requires
        current.workspaces@ == previous.workspaces@,
        current.displays@ == previous.displays@,
        layouts.len() == current.displays@.len(),
        0 <= n <= current.displays@.len(),
        forall|i: int, j: int|
            0 <= i < j < current.displays@.len() ==> (#[trigger] current.displays@[i]).id@
                != (#[trigger] current.displays@[j]).id@,
        tells_all_layouts(placed, previous, current, layouts, layouts, n),
    ensures
        placed.len() == 0,
    decreases n,
{
    if n > 0 {
        let d = current.displays@[n - 1];
        let pred = |x: CoreDisplay| x.id@ == d.id@;
        lemma_first_index(previous.displays@, pred, n - 1);
        if let (Some(space), Some(id)) = (d.space, d.active_workspace) {
            let with = |w: CoreWorkspace| w.id == id;
            assert(workspace_by_id(previous, id) == first_match(previous.workspaces@, with));
            assert(workspace_by_id(current, id) == first_match(current.workspaces@, with));
        }
        lemma_no_layout_news(previous, current, layouts, placed, n - 1);
    }
}

/// Every display whose windows differ from before, on some workspace, and
/// that shows a workspace, is told of; none that agrees on every workspace.
pub proof fn law_changed_windows_are_told(
    tasks: Seq<Task>,
    previous: CoreSnapshot,
    current: CoreSnapshot,
    names: Seq<String>,
    k: int,
    id: WorkspaceId,
)
    requires
        tells_all_windows(tasks, previous, current, names),
        0 <= k < names.len(),
        windows_on(previous.workspaces@, names[k]@, id) != windows_on(
            current.workspaces@,
            names[k]@,
            id,
        ),
        shown_by(current, names[k]@) is Some,
    ensures
        exists|i: int|
            0 <= i < tasks.len() && tells_windows(#[trigger] tasks[i], current, names[k]@),
    decreases names.len(),
{
    let rest = names.drop_last();
    assert(!agree_on(previous, current, names[k]@, id));
    let told = !same_windows(previous, current, names.last()@) && shown_by(
        current,
        names.last()@,
    ) is Some;
    if k == names.len() - 1 {
        assert(tells_windows(tasks[tasks.len() - 1], current, names[k]@));
    } else {
        assert(rest[k] == names[k]);
        let less = if told {
            tasks.drop_last()
        } else {
            tasks
        };
        law_changed_windows_are_told(less, previous, current, rest, k, id);
        let i = choose|i: int|
            0 <= i < less.len() && tells_windows(#[trigger] less[i], current, names[k]@);
        assert(tasks[i] == less[i]);
    }
}

/// What is told of a display's windows is the workspace that it shows, with
/// just the windows on it.
pub proof fn law_told_windows_are_those_of_the_shown_workspace(
    task: Task,
    current: CoreSnapshot,
    display: Seq<char>,
    space: SpaceId,
    workspace: CoreWorkspace,
)
    requires
        tells_windows(task, current, display),
        shown_by(current, display) == Some((space, workspace)),
    ensures
        task matches Task::Tell(
            Message::Broadcast(
                BroadcastEvent::WindowsChanged {
                    workspace_id,
                    workspace_name,
                    windows,
                    space_id,
                    display_uuid,
                },
            ),
        ) && workspace_id == workspace.id && workspace_name@ == workspace.name@ && space_id == space
            && (display_uuid matches Some(uuid) && uuid@ == display) && (windows_on(
            current.workspaces@,
            display,
            workspace.id,
        ) matches Some(w) ==> windows@.len() == w.len() && forall|i: int|
            0 <= i < windows@.len() ==> (#[trigger] windows@[i])@ == w[i].debug_text()),
{
}

/// The windows that a display has on a workspace are those of the last
/// workspace of that display and id.
pub proof fn law_windows_of_a_displays_workspace(
    workspaces: Seq<CoreWorkspace>,
    display: Seq<char>,
    id: WorkspaceId,
    i: int,
)
    ensures
        0 <= i < workspaces.len() && workspaces[i].display@ == display && workspaces[i].id == id && (
        forall|j: int|
            i < j < workspaces.len() ==> !((#[trigger] workspaces[j]).display@ == display
                && workspaces[j].id == id)) ==> windows_on(workspaces, display, id) == Some(
            windows_of_workspace(workspaces[i]),
        ),
        (forall|j: int|
            0 <= j < workspaces.len() ==> !((#[trigger] workspaces[j]).display@ == display
                && workspaces[j].id == id)) ==> windows_on(workspaces, display, id) is None,
    decreases workspaces.len(),
{
    if workspaces.len() > 0 {
        let rest = workspaces.drop_last();
        law_windows_of_a_displays_workspace(rest, display, id, i);
        assert(workspaces[workspaces.len() - 1] == workspaces.last());
        if 0 <= i < rest.len() {
            assert(rest[i] == workspaces[i]);
        }
        if 0 <= i && forall|j: int|
            i < j < workspaces.len() ==> !((#[trigger] workspaces[j]).display@ == display
                && workspaces[j].id == id) {
            assert forall|j: int| i < j < rest.len() implies !((#[trigger] rest[j]).display@
                == display && rest[j].id == id) by {
                assert(rest[j] == workspaces[j]);
            }
        }
        if forall|j: int|
            0 <= j < workspaces.len() ==> !((#[trigger] workspaces[j]).display@ == display
                && workspaces[j].id == id) {
            assert forall|j: int| 0 <= j < rest.len() implies !((#[trigger] rest[j]).display@
                == display && rest[j].id == id) by {
                assert(rest[j] == workspaces[j]);
            }
        }
    }
}

/// A display shows a workspace if it has a space and an active workspace that
/// the snapshot knows.
pub proof fn law_display_shows_its_active_workspace(
    s: CoreSnapshot,
    display: CoreDisplay,
    space: SpaceId,
    id: WorkspaceId,
)
    ensures
        display.space is None || display.active_workspace is None ==> shown_on(s, display) is None,
        display.space == Some(space) && display.active_workspace == Some(id) ==> shown_on(s, display)
            == match workspace_by_id(s, id) {
            Some(w) => Some((space, w)),
            None => None,
        },
{
}

/// A display's layout is told exactly if it shows a workspace and had another
/// workspace, another layout, or none before.
pub proof fn law_changed_layout_is_told(
    tasks: Seq<Task>,
    previous: CoreSnapshot,
    current: CoreSnapshot,
    previous_layouts: Seq<LayoutState>,
    layouts: Seq<LayoutState>,
    n: int,
    i: int,
)
    requires
        tells_all_layouts(tasks, previous, current, previous_layouts, layouts, n),
        0 <= i < n <= current.displays@.len(),
        shown_on(current, current.displays@[i]) is Some,
        !same_layout(previous, current, previous_layouts, layouts, i),
    ensures
        exists|k: int|
            0 <= k < tasks.len() && tells_layout(
                #[trigger] tasks[k],
                current,
                layouts[i],
                current.displays@[i],
            ),
    decreases n,
{
    if i == n - 1 {
        assert(tells_layout(tasks[tasks.len() - 1], current, layouts[i], current.displays@[i]));
    } else {
        let told = shown_on(current, current.displays@[n - 1]) is Some && !same_layout(
            previous,
            current,
            previous_layouts,
            layouts,
            n - 1,
        );
        let less = if told {
            tasks.drop_last()
        } else {
            tasks
        };
        law_changed_layout_is_told(
            less,
            previous,
            current,
            previous_layouts,
            layouts,
            n - 1,
            i,
        );
        let k = choose|k: int|
            0 <= k < less.len() && tells_layout(
                #[trigger] less[k],
                current,
                layouts[i],
                current.displays@[i],
            );
        assert(tasks[k] == less[k]);
    }
}

/// A layout counts as another if its mode, its tiled or floating windows or
/// its focus differ.
pub proof fn law_layouts_differ(a: LayoutState, b: LayoutState)
    ensures
        a.mode@ != b.mode@ ==> !same_state(a, b),
        a.tiled_windows@ != b.tiled_windows@ ==> !same_state(a, b),
        a.floating_windows@ != b.floating_windows@ ==> !same_state(a, b),
        a.focused_window != b.focused_window ==> !same_state(a, b),
        same_state(a, a),
{
}

/// An application is described by its own name, its windows are counted, and
/// it is frontmost exactly if the main window is its.
pub proof fn law_applications_are_described(m: Reactor, a: ApplicationSnapshot)
    requires
        m.describes_app(a),
    ensures
        m.app_manager.apps@.contains_key(a.id),
        a.bundle_id == m.app_manager.apps@[a.id].info.bundle_id,
        m.app_manager.apps@[a.id].info.localized_name matches Some(name) ==> a.name@ == name@,
        m.app_manager.apps@[a.id].info.localized_name is None ==> a.name@ == "Unknown"@,
        a.frontmost <==> (m.main_window_tracker@.main_window() matches Some(w) && w.pid == a.id),
{
}

/// An event that is dropped still shows its window to be busy; any other is
/// dealt with, and then the state is published.
pub proof fn law_every_event_shows_activity(event: Event, handled: Seq<Task>, id: u32)
    ensures
        busy_window(event) == Some(id) ==> Reactor::loop_tasks(event, true, handled) == seq![
            Task::Tell(Message::WindowActivity(id)),
        ],
        busy_window(event) is None ==> Reactor::loop_tasks(event, true, handled).len() == 0,
        Reactor::loop_tasks(event, false, handled).last() == Task::Ask(
            Question::Observe,
            Work::Publish,
        ),
        busy_window(event) is None ==> Reactor::loop_tasks(event, false, handled).drop_last()
            == handled,
{
    let empty = Seq::<Task>::empty();
    assert(empty + handled =~= handled);
    assert(handled.push(Task::Ask(Question::Observe, Work::Publish)).drop_last() =~= handled);
}

} // verus!
