//! Applying the user's rules to windows.

use vstd::prelude::*;

use crate::app::WindowId;
use crate::collections::copy_list;
use crate::model::{CoreCommand, WorkspaceCommand};
use crate::reactor::managers::{WindowFilter, WindowManager, WindowState};
use crate::reactor::task::{
    ask_core, core_task, no_tasks, one_task, Question, RuleDecision, Task, Work,
};
use crate::reactor::Reactor;

verus! {

/// What rules look at.
pub struct WindowIdentity<'a> {
    pub app_id: Option<&'a String>,
    pub app_name: Option<&'a String>,
    pub title: Option<&'a String>,
    pub ax_role: Option<&'a String>,
    pub ax_subrole: Option<&'a String>,
}

fn opt_ref(s: &Option<String>) -> (r: Option<&String>)
    ensures
        match (r, *s) {
            (Some(a), Some(b)) => *a == b,
            (None, None) => true,
            _ => false,
        },
{
    match s {
        Some(x) => Some(x),
        None => None,
    }
}

pub open spec fn same_text(a: Option<&String>, b: Option<String>) -> bool {
    match (a, b) {
        (Some(x), Some(y)) => *x == y,
        (None, None) => true,
        _ => false,
    }
}

/// The windows on which rules are to be decided, all at once.
pub open spec fn asks_rules(task: Task, windows: Seq<WindowId>) -> bool {
    task matches Task::Ask(Question::Rules(asked), Work::RulesDecided(meant)) && asked@ == windows
        && meant@ == windows
}

/// The windows that are new to every workspace and that rules want focused.
pub open spec fn to_focus(
    reactor: Reactor,
    windows: Seq<WindowId>,
    decisions: Seq<RuleDecision>,
) -> Seq<WindowId>
    decreases windows.len(),
{
    if windows.len() == 0 || windows.len() != decisions.len() {
        Seq::empty()
    } else {
        let rest = to_focus(reactor, windows.drop_last(), decisions.drop_last());
        if reactor.assigned_workspace(windows.last()) is None && decisions.last() == (
        RuleDecision::Managed { focus: true }) {
            rest.push(windows.last())
        } else {
            rest
        }
    }
}

/// The windows' states after decisions: rules may leave a window alone.
pub open spec fn after_decisions(
    states: Map<WindowId, WindowState>,
    windows: Seq<WindowId>,
    decisions: Seq<RuleDecision>,
) -> Map<WindowId, WindowState>
    decreases windows.len(),
{
    if windows.len() == 0 || windows.len() != decisions.len() {
        states
    } else {
        let rest = after_decisions(states, windows.drop_last(), decisions.drop_last());
        let wid = windows.last();
        if rest.contains_key(wid) {
            rest.insert(
                wid,
                WindowState {
                    ignore_app_rule: decisions.last() == RuleDecision::Unmanaged,
                    ..rest[wid]
                },
            )
        } else {
            rest
        }
    }
}

/// Tasks to send windows to where they were meant to go, then to focus some.
pub open spec fn rule_tasks(windows: Seq<WindowId>, focus: Seq<WindowId>) -> Seq<Task> {
    windows.map_values(|w: WindowId| Task::Go(Work::RuleTarget(w))) + focus.map_values(
        |w: WindowId| Task::Go(Work::FocusRuleWindow(w)),
    )
}

impl Reactor {
    /// What rules look at of a window.
    pub fn window_identity(&self, wid: WindowId) -> (r: WindowIdentity)
        ensures
            match self.window_manager.details@.contains_key(wid) {
                true => {
                    let details = self.window_manager.details@[wid];
                    &&& r.title matches Some(title) && *title == details.title
                    &&& same_text(r.ax_role, details.ax_role)
                    &&& same_text(r.ax_subrole, details.ax_subrole)
                },
                false => r.title is None && r.ax_role is None && r.ax_subrole is None,
            },
            match self.app_manager.apps@.contains_key(wid.pid) {
                true => {
                    let info = self.app_manager.apps@[wid.pid].info;
                    &&& same_text(r.app_id, info.bundle_id)
                    &&& same_text(r.app_name, info.localized_name)
                },
                false => r.app_id is None && r.app_name is None,
            },
    {
        let (app_id, app_name): (Option<&String>, Option<&String>) = match self.app_manager.apps.get(
            wid.pid,
        ) {
            Some(app) => (opt_ref(&app.info.bundle_id), opt_ref(&app.info.localized_name)),
            None => (None, None),
        };
        match self.window_manager.details.get(wid) {
            Some(details) => WindowIdentity {
                app_id,
                app_name,
                title: Some(&details.title),
                ax_role: opt_ref(&details.ax_role),
                ax_subrole: opt_ref(&details.ax_subrole),
            },
            None => WindowIdentity { app_id, app_name, title: None, ax_role: None, ax_subrole: None },
        }
    }

    /// Has rules decided for windows.
    pub fn process_windows_for_app_rules(windows: Vec<WindowId>) -> (r: Task)
        ensures
            asks_rules(r, windows@),
    {
        let asked: Vec<WindowId> = copy_list(&windows);
        Task::Ask(Question::Rules(asked), Work::RulesDecided(windows))
    }

    /// Takes the decisions over and shows the workspace model the outcome.
    pub fn rules_decided(&mut self, windows: Vec<WindowId>, decisions: Vec<RuleDecision>) -> (r:
        Vec<Task>)
        requires
            old(self).wf(),
            windows@.len() == decisions@.len(),
        ensures
            final(self).wf(),
            *final(self) == (Reactor {
                window_manager: WindowManager {
                    windows: final(self).window_manager.windows,
                    ..old(self).window_manager
                },
                ..*old(self)
            }),
            final(self).window_manager.windows@ == after_decisions(
                old(self).window_manager.windows@,
                windows@,
                decisions@,
            ),
            final(self).window_manager.windows.order() == old(self).window_manager.windows.order(),
            r@.len() == 1,
            r@[0] matches Task::Ask(
                Question::Observe,
                Work::RulesObserved { windows: seen, focus },
            ) && seen@ == windows@ && focus@ == to_focus(*old(self), windows@, decisions@),
    {
        let mut focus: Vec<WindowId> = Vec::new();
        let mut i: usize = 0;
        while i < windows.len()
            invariant
                i <= windows@.len(),
                windows@.len() == decisions@.len(),
                self.wf(),
                *self == (Reactor {
                    window_manager: WindowManager {
                        windows: self.window_manager.windows,
                        ..old(self).window_manager
                    },
                    ..*old(self)
                }),
                self.window_manager.windows@ == after_decisions(
                    old(self).window_manager.windows@,
                    windows@.take(i as int),
                    decisions@.take(i as int),
                ),
                self.window_manager.windows.order() == old(self).window_manager.windows.order(),
                focus@ == to_focus(
                    *old(self),
                    windows@.take(i as int),
                    decisions@.take(i as int),
                ),
            decreases windows@.len() - i,
        {
            proof {
                assert(windows@.take(i + 1).drop_last() =~= windows@.take(i as int));
                assert(decisions@.take(i + 1).drop_last() =~= decisions@.take(i as int));
            }
            let wid: WindowId = windows[i];
            let decision: RuleDecision = decisions[i];
            assert(self.core == old(self).core);
            if self.workspace_for_window(wid).is_none() && decision == (RuleDecision::Managed {
                focus: true,
            }) {
                focus.push(wid);
            }
            if let Some(w) = self.window_manager.window(wid) {
                self.window_manager.set_window(
                    wid,
                    WindowState {
                        ignore_app_rule: decision == RuleDecision::Unmanaged,
                        ..w
                    },
                );
            }
            i += 1;
        }
        proof {
            assert(windows@.take(i as int) =~= windows@);
            assert(decisions@.take(i as int) =~= decisions@);
        }
        one_task(Task::Ask(Question::Observe, Work::RulesObserved { windows, focus }))
    }

    /// The workspace model has seen what rules decided, or could not.
    pub fn rules_observed(accepted: bool, windows: Vec<WindowId>, focus: Vec<WindowId>) -> (r: Vec<
        Task,
    >)
        ensures
            r@ == if accepted {
                rule_tasks(windows@, focus@)
            } else {
                Seq::empty()
            },
    {
        let mut tasks: Vec<Task> = no_tasks();
        if !accepted {
            return tasks;
        }
        let ghost target = |w: WindowId| Task::Go(Work::RuleTarget(w));
        let ghost led = |w: WindowId| Task::Go(Work::FocusRuleWindow(w));
        let mut i: usize = 0;
        assert(tasks@ =~= windows@.take(0).map_values(target));
        while i < windows.len()
            invariant
                i <= windows@.len(),
                target == (|w: WindowId| Task::Go(Work::RuleTarget(w))),
                tasks@ == windows@.take(i as int).map_values(target),
            decreases windows@.len() - i,
        {
            tasks.push(Task::Go(Work::RuleTarget(windows[i])));
            assert(tasks@ =~= windows@.take(i + 1).map_values(target));
            i += 1;
        }
        assert(windows@.take(i as int) =~= windows@);
        let ghost targets = windows@.map_values(target);
        let mut k: usize = 0;
        assert(tasks@ =~= targets + focus@.take(0).map_values(led));
        while k < focus.len()
            invariant
                k <= focus@.len(),
                led == (|w: WindowId| Task::Go(Work::FocusRuleWindow(w))),
                tasks@ == targets + focus@.take(k as int).map_values(led),
            decreases focus@.len() - k,
        {
            tasks.push(Task::Go(Work::FocusRuleWindow(focus[k])));
            assert(tasks@ =~= targets + focus@.take(k + 1).map_values(led));
            k += 1;
        }
        assert(focus@.take(k as int) =~= focus@);
        tasks
    }

    /// Sends a window to where it was meant to go before it was assigned.
    pub fn apply_rule_target(&self, window: WindowId, now: u64) -> (r: Vec<Task>)
        ensures
            r@ == match self.recent_target(window, now) {
                Some(target) => match self.number_of(target.workspace_id) {
                    Some(workspace) => seq![
                        core_task(
                            CoreCommand::Workspace(
                                WorkspaceCommand::MoveWindow { workspace, window: Some(window) },
                            ),
                            Work::Done,
                        ),
                    ],
                    None => Seq::empty(),
                },
                None => Seq::empty(),
            },
    {
        match self.recent_workspace_target_for(window, now) {
            Some(target) => match self.workspace_number(target.workspace_id) {
                Some(workspace) => one_task(
                    ask_core(
                        CoreCommand::Workspace(
                            WorkspaceCommand::MoveWindow { workspace, window: Some(window) },
                        ),
                        Work::Done,
                    ),
                ),
                None => no_tasks(),
            },
            None => no_tasks(),
        }
    }
}

/// A window that rules leave alone is one that the layout may not hold.
pub proof fn law_unmanaged_window_is_left_alone(
    states: Map<WindowId, WindowState>,
    windows: Seq<WindowId>,
    decisions: Seq<RuleDecision>,
    wid: WindowId,
)
    requires
        windows.len() == decisions.len(),
        windows.len() > 0,
        windows.last() == wid,
        decisions.last() == RuleDecision::Unmanaged,
        states.contains_key(wid),
    ensures
        after_decisions(states, windows, decisions).contains_key(wid),
        !after_decisions(states, windows, decisions)[wid].passes(
            WindowFilter::EffectivelyManageable,
        ),
{
    lemma_decisions_keep_windows(states, windows.drop_last(), decisions.drop_last());
}

/// Rules neither add nor remove a window.
pub proof fn lemma_decisions_keep_windows(
    states: Map<WindowId, WindowState>,
    windows: Seq<WindowId>,
    decisions: Seq<RuleDecision>,
)
    ensures
        after_decisions(states, windows, decisions).dom() =~= states.dom(),
    decreases windows.len(),
{
    if windows.len() > 0 && windows.len() == decisions.len() {
        lemma_decisions_keep_windows(states, windows.drop_last(), decisions.drop_last());
    }
}

/// Rules decide for each window by its last decision: one that they leave
/// unmanaged is taken out of the layout, any other is put back. Nothing else
/// of a window changes, and no other window does.
pub proof fn law_rules_decide_for_each_window(
    states: Map<WindowId, WindowState>,
    windows: Seq<WindowId>,
    decisions: Seq<RuleDecision>,
    i: int,
    other: WindowId,
)
    requires
        windows.len() == decisions.len(),
    ensures
        0 <= i < windows.len() && states.contains_key(windows[i]) && (forall|j: int|
            i < j < windows.len() ==> #[trigger] windows[j] != windows[i]) ==> after_decisions(
            states,
            windows,
            decisions,
        )[windows[i]] == (WindowState {
            ignore_app_rule: decisions[i] == RuleDecision::Unmanaged,
            ..states[windows[i]]
        }),
        !windows.contains(other) && states.contains_key(other) ==> after_decisions(
            states,
            windows,
            decisions,
        )[other] == states[other],
    decreases windows.len(),
{
    lemma_decisions_keep_windows(states, windows, decisions);
    if windows.len() > 0 {
        let rest = windows.drop_last();
        law_rules_decide_for_each_window(states, rest, decisions.drop_last(), i, other);
        lemma_decisions_keep_windows(states, rest, decisions.drop_last());
        lemma_decisions_keep_all_else(states, rest, decisions.drop_last());
        if !windows.contains(other) {
            assert(windows[windows.len() - 1] != other);
            assert(!rest.contains(other)) by {
                if rest.contains(other) {
                    let k = rest.index_of(other);
                    assert(windows[k] == other);
                }
            }
        }
        if 0 <= i < rest.len() && (forall|j: int|
            i < j < windows.len() ==> #[trigger] windows[j] != windows[i]) {
            assert(rest[i] == windows[i]);
            assert(windows[windows.len() - 1] != windows[i]);
            assert forall|j: int| i < j < rest.len() implies #[trigger] rest[j] != rest[i] by {
                assert(rest[j] == windows[j]);
            }
            assert(decisions.drop_last()[i] == decisions[i]);
        }
        if i == rest.len() {
            assert(windows.last() == windows[i]);
            assert(decisions.last() == decisions[i]);
        }
    }
}

proof fn lemma_decisions_keep_all_else(
    states: Map<WindowId, WindowState>,
    windows: Seq<WindowId>,
    decisions: Seq<RuleDecision>,
)
    ensures
        forall|w: WindowId| #[trigger]
            states.contains_key(w) ==> after_decisions(states, windows, decisions)[w] == (
            WindowState {
                ignore_app_rule: after_decisions(states, windows, decisions)[w].ignore_app_rule,
                ..states[w]
            }),
    decreases windows.len(),
{
    if windows.len() > 0 && windows.len() == decisions.len() {
        lemma_decisions_keep_all_else(states, windows.drop_last(), decisions.drop_last());
        lemma_decisions_keep_windows(states, windows.drop_last(), decisions.drop_last());
    }
}

/// A window is focused by rules exactly if they want it focused and it was
/// not assigned to any workspace before.
pub proof fn law_rules_focus_new_windows_only(
    m: Reactor,
    windows: Seq<WindowId>,
    decisions: Seq<RuleDecision>,
    window: WindowId,
)
    requires
        windows.len() == decisions.len(),
    ensures
        to_focus(m, windows, decisions).contains(window) <==> m.assigned_workspace(window) is None
            && exists|i: int|
            0 <= i < windows.len() && #[trigger] windows[i] == window && decisions[i] == (
            RuleDecision::Managed { focus: true }),
    decreases windows.len(),
{
    if windows.len() > 0 {
        let rest = windows.drop_last();
        let less = decisions.drop_last();
        law_rules_focus_new_windows_only(m, rest, less, window);
        let a = to_focus(m, rest, less);
        let b = to_focus(m, windows, decisions);
        if a.contains(window) {
            let k = a.index_of(window);
            assert(b[k] == window);
            let i = choose|i: int|
                0 <= i < rest.len() && #[trigger] rest[i] == window && less[i] == (
                RuleDecision::Managed { focus: true });
            assert(windows[i] == window && decisions[i] == less[i]);
        }
        if b.contains(window) && !a.contains(window) {
            let k = b.index_of(window);
            if k < a.len() {
                assert(a[k] == window);
            }
            assert(windows[windows.len() - 1] == window);
        }
        if m.assigned_workspace(window) is None && exists|i: int|
            0 <= i < windows.len() && #[trigger] windows[i] == window && decisions[i] == (
            RuleDecision::Managed { focus: true }) {
            let i = choose|i: int|
                0 <= i < windows.len() && #[trigger] windows[i] == window && decisions[i] == (
                RuleDecision::Managed { focus: true });
            if i < rest.len() {
                assert(rest[i] == window && less[i] == decisions[i]);
            } else {
                assert(b.last() == window);
            }
        }
    }
}

/// Every ruled window is sent to where it was meant to go before any is
/// focused.
pub proof fn law_rule_targets_come_before_focus(
    windows: Seq<WindowId>,
    focus: Seq<WindowId>,
    i: int,
    j: int,
)
    requires
        0 <= i < windows.len(),
        0 <= j < focus.len(),
    ensures
        rule_tasks(windows, focus)[i] == Task::Go(Work::RuleTarget(windows[i])),
        rule_tasks(windows, focus)[windows.len() + j] == Task::Go(Work::FocusRuleWindow(focus[j])),
        rule_tasks(windows, focus).len() == windows.len() + focus.len(),
{
}

} // verus!
