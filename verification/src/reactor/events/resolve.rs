//! Which window a command means.

use vstd::prelude::*;

use crate::app::WindowId;
use crate::ids::{pid_t, SpaceId, WindowServerId};
use crate::model::{CoreWindow, WorkspaceId};
use crate::reactor::surroundings::Surroundings;
use crate::reactor::Reactor;

verus! {

impl Reactor {
    /// The window in use. The main window can lag behind the layout's own
    /// focus within one application; the layout's is preferred once both are
    /// assigned to workspaces. A main window that is not is commonly a new one
    /// and keeps its priority.
    pub open spec fn app_focus(&self, layout_focus: Option<WindowId>) -> Option<WindowId> {
        match (self.main_wid(), layout_focus) {
            (Some(main), Some(layout)) => if main.pid == layout.pid && self.assigned_workspace(
                main,
            ) is Some && self.assigned_workspace(layout) is Some {
                Some(layout)
            } else {
                Some(main)
            },
            (Some(main), None) => Some(main),
            (None, focus) => focus,
        }
    }

    /// The first window shown on the first of some spaces that shows any.
    pub open spec fn first_shown(&self, spaces: Seq<SpaceId>) -> Option<WindowId>
        decreases spaces.len(),
    {
        if spaces.len() == 0 {
            None
        } else if self.shown_windows(spaces[0]).len() > 0 {
            Some(self.shown_windows(spaces[0])[0])
        } else {
            self.first_shown(spaces.drop_first())
        }
    }

    /// The window that a command without a window is about.
    pub open spec fn current_window(
        &self,
        command_space: Option<SpaceId>,
        prefer_cursor: bool,
        layout_focus: Option<WindowId>,
        sur: Surroundings,
    ) -> Option<WindowId> {
        let focus = self.app_focus(layout_focus);
        let cursor = self.under_cursor(sur);
        let preferred = if prefer_cursor {
            match cursor {
                Some(w) => Some(w),
                None => focus,
            }
        } else {
            match focus {
                Some(w) => Some(w),
                None => cursor,
            }
        };
        match preferred {
            Some(w) => Some(w),
            None => {
                let here = match command_space {
                    Some(space) => self.first_shown(seq![space]),
                    None => None,
                };
                match here {
                    Some(w) => Some(w),
                    None => self.first_shown(self.active_spaces.order()),
                }
            },
        }
    }

    fn first_window_on(&self, spaces: &Vec<SpaceId>) -> (r: Option<WindowId>)
        ensures
            r == self.first_shown(spaces@),
    {
        let mut i: usize = 0;
        assert(spaces@.skip(0) =~= spaces@);
        while i < spaces.len()
            invariant
                i <= spaces@.len(),
                self.first_shown(spaces@) == self.first_shown(spaces@.skip(i as int)),
            decreases spaces@.len() - i,
        {
            assert(spaces@.skip(i as int).drop_first() =~= spaces@.skip(i + 1));
            let windows: Vec<WindowId> = self.windows_in_active_workspace(spaces[i]);
            if windows.len() > 0 {
                return Some(windows[0]);
            }
            i += 1;
        }
        None
    }

    pub fn resolve_current_window_for_command(
        &self,
        command_space: Option<SpaceId>,
        prefer_window_under_cursor: bool,
        layout_focus: Option<WindowId>,
        sur: &Surroundings,
    ) -> (r: Option<WindowId>)
        ensures
            r == self.current_window(command_space, prefer_window_under_cursor, layout_focus, *sur),
    {
        let focus: Option<WindowId> = match (self.main_window(), layout_focus) {
            (Some(main), Some(layout)) => {
                if main.pid == layout.pid && self.workspace_for_window(main).is_some()
                    && self.workspace_for_window(layout).is_some() {
                    Some(layout)
                } else {
                    Some(main)
                }
            },
            (Some(main), None) => Some(main),
            (None, other) => other,
        };
        let cursor: Option<WindowId> = self.window_id_under_cursor(sur);
        let preferred: Option<WindowId> = if prefer_window_under_cursor {
            match cursor {
                Some(w) => Some(w),
                None => focus,
            }
        } else {
            match focus {
                Some(w) => Some(w),
                None => cursor,
            }
        };
        if let Some(w) = preferred {
            return Some(w);
        }
        if let Some(space) = command_space {
            let mut here: Vec<SpaceId> = Vec::new();
            here.push(space);
            assert(here@ =~= seq![space]);
            if let Some(w) = self.first_window_on(&here) {
                return Some(w);
            }
        }
        let spaces: Vec<SpaceId> = self.active_spaces.items();
        self.first_window_on(&spaces)
    }

    /// The application in use.
    pub open spec fn current_pid(&self, sur: Surroundings) -> Option<pid_t> {
        match self.current_window(
            self.command_space(sur),
            self.config.settings.focus_follows_mouse,
            self.core.focused_window,
            sur,
        ) {
            Some(w) => Some(w.pid),
            None => None,
        }
    }

    pub fn current_instance_pid_hint(&self, sur: &Surroundings) -> (r: Option<pid_t>)
        requires
            self.wf(),
            sur.wf(),
        ensures
            r == self.current_pid(*sur),
    {
        match self.resolve_current_window_for_command(
            self.workspace_command_space(sur),
            self.config.settings.focus_follows_mouse,
            self.focused_window_for_command(),
            sur,
        ) {
            Some(w) => Some(w.pid),
            None => None,
        }
    }
}

/// Whether one window with an index is a better guess than another: it is on
/// the workspace in view, then of the application in use, then of a lower
/// process id.
pub open spec fn better_guess(
    a: CoreWindow,
    b: CoreWindow,
    workspace: Option<WorkspaceId>,
    pid: Option<pid_t>,
) -> bool {
    let a_here = a.workspace == workspace;
    let b_here = b.workspace == workspace;
    let a_in_use = pid == Some(a.id.pid);
    let b_in_use = pid == Some(b.id.pid);
    if a_here != b_here {
        a_here
    } else if a_in_use != b_in_use {
        a_in_use
    } else {
        a.id.pid < b.id.pid
    }
}

/// Whether a window is the first of the best guesses for an index.
pub open spec fn is_best_guess(
    windows: Seq<CoreWindow>,
    index: u32,
    workspace: Option<WorkspaceId>,
    pid: Option<pid_t>,
    i: int,
) -> bool {
    &&& 0 <= i < windows.len()
    &&& windows[i].id.idx == index
    &&& forall|j: int|
        0 <= j < windows.len() && (#[trigger] windows[j]).id.idx == index ==> !better_guess(
            windows[j],
            windows[i],
            workspace,
            pid,
        )
    &&& forall|j: int|
        0 <= j < i && (#[trigger] windows[j]).id.idx == index ==> better_guess(
            windows[i],
            windows[j],
            workspace,
            pid,
        )
}

/// The window that an index means.
pub open spec fn best_guess(
    windows: Seq<CoreWindow>,
    index: u32,
    workspace: Option<WorkspaceId>,
    pid: Option<pid_t>,
) -> Option<WindowId> {
    if exists|i: int| is_best_guess(windows, index, workspace, pid, i) {
        Some(windows[choose|i: int| is_best_guess(windows, index, workspace, pid, i)].id)
    } else {
        None
    }
}

proof fn lemma_best_guess_is_unique(
    windows: Seq<CoreWindow>,
    index: u32,
    workspace: Option<WorkspaceId>,
    pid: Option<pid_t>,
    i: int,
)
    requires
        is_best_guess(windows, index, workspace, pid, i),
    ensures
        best_guess(windows, index, workspace, pid) == Some(windows[i].id),
{
    let k = choose|k: int| is_best_guess(windows, index, workspace, pid, k);
    assert(is_best_guess(windows, index, workspace, pid, k));
    if k < i {
        assert(better_guess(windows[i], windows[k], workspace, pid));
        assert(!better_guess(windows[i], windows[k], workspace, pid));
    } else if i < k {
        assert(better_guess(windows[k], windows[i], workspace, pid));
        assert(!better_guess(windows[k], windows[i], workspace, pid));
    }
}

fn same_workspace(a: Option<WorkspaceId>, b: Option<WorkspaceId>) -> (r: bool)
    ensures
        r == (a == b),
{
    match (a, b) {
        (Some(x), Some(y)) => x == y,
        (None, None) => true,
        _ => false,
    }
}

fn is_better_guess(
    a: &CoreWindow,
    b: &CoreWindow,
    workspace: Option<WorkspaceId>,
    pid: Option<pid_t>,
) -> (r: bool)
    ensures
        r == better_guess(*a, *b, workspace, pid),
{
    let a_here: bool = same_workspace(a.workspace, workspace);
    let b_here: bool = same_workspace(b.workspace, workspace);
    let a_in_use: bool = match pid {
        Some(p) => p == a.id.pid,
        None => false,
    };
    let b_in_use: bool = match pid {
        Some(p) => p == b.id.pid,
        None => false,
    };
    if a_here != b_here {
        a_here
    } else if a_in_use != b_in_use {
        a_in_use
    } else {
        a.id.pid < b.id.pid
    }
}

fn find_best_guess(
    windows: &Vec<CoreWindow>,
    index: u32,
    workspace: Option<WorkspaceId>,
    pid: Option<pid_t>,
) -> (r: Option<WindowId>)
    ensures
        r == best_guess(windows@, index, workspace, pid),
{
    let mut best: Option<usize> = None;
    let mut i: usize = 0;
    while i < windows.len()
        invariant
            i <= windows@.len(),
            match best {
                Some(b) => {
                    &&& b < i
                    &&& windows@[b as int].id.idx == index
                    &&& forall|j: int|
                        0 <= j < i && (#[trigger] windows@[j]).id.idx == index ==> !better_guess(
                            windows@[j],
                            windows@[b as int],
                            workspace,
                            pid,
                        )
                    &&& forall|j: int|
                        0 <= j < b && (#[trigger] windows@[j]).id.idx == index ==> better_guess(
                            windows@[b as int],
                            windows@[j],
                            workspace,
                            pid,
                        )
                },
                None => forall|j: int|
                    0 <= j < i ==> (#[trigger] windows@[j]).id.idx != index,
            },
        decreases windows@.len() - i,
    {
        if windows[i].id.idx == index {
            let better: bool = match best {
                Some(b) => is_better_guess(&windows[i], &windows[b], workspace, pid),
                None => true,
            };
            if better {
                best = Some(i);
            }
        }
        i += 1;
    }
    match best {
        Some(b) => {
            proof {
                assert(is_best_guess(windows@, index, workspace, pid, b as int));
                lemma_best_guess_is_unique(windows@, index, workspace, pid, b as int);
            }
            Some(windows[b].id)
        },
        None => {
            proof {
                assert forall|k: int| !is_best_guess(windows@, index, workspace, pid, k) by {
                    if 0 <= k < windows@.len() {
                        assert(windows@[k].id.idx != index);
                    }
                }
            }
            None
        },
    }
}

impl Reactor {
    pub open spec fn window_with_index(
        &self,
        index: u32,
        command_space: Option<SpaceId>,
        sur: Surroundings,
    ) -> Option<WindowId> {
        let workspace = match command_space {
            Some(space) => self.shown_workspace(space),
            None => None,
        };
        best_guess(self.core.windows@, index, workspace, self.current_pid(sur))
    }

    pub fn resolve_window_index(
        &self,
        index: u32,
        command_space: Option<SpaceId>,
        sur: &Surroundings,
    ) -> (r: Option<WindowId>)
        requires
            self.wf(),
            sur.wf(),
        ensures
            r == self.window_with_index(index, command_space, *sur),
    {
        let workspace: Option<WorkspaceId> = match command_space {
            Some(space) => self.active_workspace_for_space(space),
            None => None,
        };
        find_best_guess(&self.core.windows, index, workspace, self.current_instance_pid_hint(sur))
    }
}

/// A command on a window by its index finds one exactly if some window has
/// that index, and then one that has it.
pub proof fn law_index_finds_a_window_that_has_it(
    windows: Seq<CoreWindow>,
    index: u32,
    workspace: Option<WorkspaceId>,
    pid: Option<pid_t>,
)
    ensures
        match best_guess(windows, index, workspace, pid) {
            Some(w) => w.idx == index && exists|i: int|
                0 <= i < windows.len() && (#[trigger] windows[i]).id == w,
            None => forall|i: int| 0 <= i < windows.len() ==> (#[trigger] windows[i]).id.idx
                != index,
        },
{
    if exists|i: int| 0 <= i < windows.len() && (#[trigger] windows[i]).id.idx == index {
        let i = choose|i: int| 0 <= i < windows.len() && (#[trigger] windows[i]).id.idx == index;
        lemma_some_best_guess(windows, index, workspace, pid, windows.len() as int, i);
    }
}

/// Among the first `n` windows, if one has the index, one is the best guess.
proof fn lemma_some_best_guess(
    windows: Seq<CoreWindow>,
    index: u32,
    workspace: Option<WorkspaceId>,
    pid: Option<pid_t>,
    n: int,
    i: int,
)
    requires
        0 <= i < n <= windows.len(),
        windows[i].id.idx == index,
    ensures
        exists|k: int| is_best_guess(windows.take(n), index, workspace, pid, k),
        n == windows.len() ==> exists|k: int| is_best_guess(windows, index, workspace, pid, k),
    decreases n,
{
    let now = windows.take(n);
    if exists|j: int| 0 <= j < n - 1 && (#[trigger] windows[j]).id.idx == index {
        let j = choose|j: int| 0 <= j < n - 1 && (#[trigger] windows[j]).id.idx == index;
        lemma_some_best_guess(windows, index, workspace, pid, n - 1, j);
        let before = windows.take(n - 1);
        let k = choose|k: int| is_best_guess(before, index, workspace, pid, k);
        assert(now[k] == before[k]);
        assert forall|m: int| 0 <= m < n - 1 implies #[trigger] now[m] == before[m] by {}
        let last = now[n - 1];
        if last.id.idx == index && better_guess(last, now[k], workspace, pid) {
            assert forall|m: int| 0 <= m < n - 1 && (#[trigger] now[m]).id.idx == index implies
                better_guess(last, now[m], workspace, pid) by {
                assert(!better_guess(before[m], before[k], workspace, pid));
            }
            assert(is_best_guess(now, index, workspace, pid, n - 1));
        } else {
            assert(is_best_guess(now, index, workspace, pid, k));
        }
    } else {
        assert(i == n - 1);
        assert(now[i] == windows[i]);
        assert forall|m: int| 0 <= m < i implies (#[trigger] now[m]).id.idx != index by {
            assert(now[m] == windows[m]);
        }
        assert(is_best_guess(now, index, workspace, pid, i));
    }
    if n == windows.len() {
        assert(now =~= windows);
    }
}

/// Within an application, the layout's own focus comes before a main window
/// that lags behind it, once both are assigned to workspaces. A main window
/// that is not yet assigned keeps its priority.
pub proof fn law_layout_focus_comes_before_a_late_main_window(
    m: Reactor,
    command_space: Option<SpaceId>,
    main: WindowId,
    layout: WindowId,
    sur: Surroundings,
)
    requires
        m.main_wid() == Some(main),
        main.pid == layout.pid,
        m.assigned_workspace(layout) is Some,
    ensures
        m.current_window(command_space, false, Some(layout), sur) == Some(
            if m.assigned_workspace(main) is Some {
                layout
            } else {
                main
            },
        ),
{
}

/// With focus following the mouse, a command without a window is about the
/// tracked window under the cursor, whatever has the focus; otherwise about
/// the focused one, and about the window under the cursor only where nothing
/// is focused.
pub proof fn law_window_in_use_follows_the_mouse_or_the_focus(
    m: Reactor,
    command_space: Option<SpaceId>,
    layout_focus: Option<WindowId>,
    wsid: WindowServerId,
    main: WindowId,
    layout: WindowId,
    sur: Surroundings,
)
    ensures
        sur.window_under_cursor == Some(wsid) && m.window_manager.window_ids@.contains_key(wsid)
            ==> m.current_window(command_space, true, layout_focus, sur) == Some(
            m.window_manager.window_ids@[wsid],
        ),
        m.main_window_tracker@.main_window() == Some(main) && layout_focus is None
            ==> m.current_window(command_space, false, layout_focus, sur) == Some(main),
        m.main_window_tracker@.main_window() == Some(main) && layout_focus == Some(layout)
            && layout.pid != main.pid ==> m.current_window(command_space, false, layout_focus, sur)
            == Some(main),
        m.main_window_tracker@.main_window() is None && layout_focus == Some(layout)
            ==> m.current_window(command_space, false, layout_focus, sur) == Some(layout),
        m.main_window_tracker@.main_window() is None && layout_focus is None
            && sur.window_under_cursor == Some(wsid) && m.window_manager.window_ids@.contains_key(
            wsid,
        ) ==> m.current_window(command_space, false, layout_focus, sur) == Some(
            m.window_manager.window_ids@[wsid],
        ),
        sur.window_under_cursor is None ==> m.current_window(command_space, true, layout_focus, sur)
            == m.current_window(command_space, false, layout_focus, sur),
{
}

/// Where nothing is focused or under the cursor, a command without a window
/// is about the first window shown on the command's space; only where that
/// shows none is another managed space looked at.
pub proof fn law_command_without_focus_is_about_the_first_shown_window(
    m: Reactor,
    space: SpaceId,
    prefer_cursor: bool,
    sur: Surroundings,
)
    requires
        m.main_window_tracker@.main_window() is None,
        sur.window_under_cursor is None,
    ensures
        m.shown_windows(space).len() > 0 ==> m.current_window(Some(space), prefer_cursor, None, sur)
            == Some(m.shown_windows(space)[0]),
        m.shown_windows(space).len() == 0 ==> m.current_window(
            Some(space),
            prefer_cursor,
            None,
            sur,
        ) == m.current_window(None, prefer_cursor, None, sur),
        m.current_window(None, prefer_cursor, None, sur) matches Some(w) ==> exists|i: int|
            0 <= i < m.active_spaces.order().len() && m.shown_windows(
                #[trigger] m.active_spaces.order()[i],
            ).contains(w),
{
    reveal_with_fuel(Reactor::first_shown, 3);
    assert(seq![space].drop_first() =~= Seq::<SpaceId>::empty());
    lemma_first_shown(m, m.active_spaces.order());
}

proof fn lemma_first_shown(m: Reactor, spaces: Seq<SpaceId>)
    ensures
        m.first_shown(spaces) matches Some(w) ==> exists|i: int|
            0 <= i < spaces.len() && m.shown_windows(#[trigger] spaces[i]).contains(w),
    decreases spaces.len(),
{
    if spaces.len() > 0 {
        let rest = spaces.drop_first();
        if m.shown_windows(spaces[0]).len() > 0 {
            assert(m.shown_windows(spaces[0]).contains(m.shown_windows(spaces[0])[0]));
        } else {
            lemma_first_shown(m, rest);
            if let Some(w) = m.first_shown(rest) {
                let i = choose|i: int|
                    0 <= i < rest.len() && m.shown_windows(#[trigger] rest[i]).contains(w);
                assert(spaces[i + 1] == rest[i]);
            }
        }
    }
}

/// Of the windows with an index, one on the workspace in view is found before
/// any that is not; among those alike in that, one of the application in use
/// before any other; and then the one of the lowest process id.
pub proof fn law_index_prefers_the_workspace_in_view(
    windows: Seq<CoreWindow>,
    index: u32,
    workspace: Option<WorkspaceId>,
    pid: Option<pid_t>,
    j: int,
)
    requires
        0 <= j < windows.len(),
        windows[j].id.idx == index,
    ensures
        best_guess(windows, index, workspace, pid) matches Some(w) && exists|i: int|
            {
                &&& 0 <= i < windows.len()
                &&& (#[trigger] windows[i]).id == w
                &&& windows[j].workspace == workspace ==> windows[i].workspace == workspace
                &&& (windows[i].workspace == workspace) == (windows[j].workspace == workspace)
                    && pid == Some(windows[j].id.pid) ==> pid == Some(w.pid)
                &&& (windows[i].workspace == workspace) == (windows[j].workspace == workspace) && (
                pid == Some(w.pid)) == (pid == Some(windows[j].id.pid)) ==> w.pid
                    <= windows[j].id.pid
            },
{
    lemma_some_best_guess(windows, index, workspace, pid, windows.len() as int, j);
    let i = choose|i: int| is_best_guess(windows, index, workspace, pid, i);
    assert(is_best_guess(windows, index, workspace, pid, i));
    lemma_best_guess_is_unique(windows, index, workspace, pid, i);
    assert(!better_guess(windows[j], windows[i], workspace, pid));
}

} // verus!
