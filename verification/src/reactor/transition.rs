//! What the workspace model's answers mean for the reactor.

use vstd::prelude::*;

use crate::app::WindowId;
use crate::event::Direction;
use crate::model::{
    CoreError, CoreGroup, CoreSnapshot, CoreWorkspace, DomainEvent, Effect, EventResponse,
    Transition,
};
use crate::reactor::Reactor;
use crate::stack_line::{find_workspace, workspace_by_id};

verus! {

/// What the layout wants raised and focused, and the edge that it ran into.
#[verifier::ext_equal]
pub struct ResponseModel {
    pub raises: Seq<WindowId>,
    pub focus: Option<WindowId>,
    pub boundary: Option<Direction>,
}

impl View for EventResponse {
    type V = ResponseModel;

    open spec fn view(&self) -> ResponseModel {
        ResponseModel {
            raises: self.raise_windows@,
            focus: self.focus_window,
            boundary: self.boundary_hit,
        }
    }
}

pub open spec fn nothing_wanted() -> ResponseModel {
    ResponseModel { raises: Seq::empty(), focus: None, boundary: None }
}

/// The last window to be focused and all windows to be raised, each once.
pub open spec fn wanted_by_effects(effects: Seq<Effect>) -> ResponseModel
    decreases effects.len(),
{
    if effects.len() == 0 {
        nothing_wanted()
    } else {
        let rest = wanted_by_effects(effects.drop_last());
        match effects.last() {
            Effect::FocusWindow(window) => ResponseModel { focus: Some(window), ..rest },
            Effect::RaiseWindow(window) => if rest.raises.contains(window) {
                rest
            } else {
                ResponseModel { raises: rest.raises.push(window), ..rest }
            },
            _ => rest,
        }
    }
}

pub open spec fn windows_of_groups(groups: Seq<CoreGroup>) -> Seq<WindowId>
    decreases groups.len(),
{
    if groups.len() == 0 {
        Seq::empty()
    } else {
        windows_of_groups(groups.drop_last()) + groups.last().windows@
    }
}

/// The windows of a workspace: those in its groups, then the floating ones.
pub open spec fn windows_of_workspace(workspace: CoreWorkspace) -> Seq<WindowId> {
    windows_of_groups(workspace.groups@) + workspace.floating_windows@
}

/// A list without what repeats the element before it.
pub open spec fn without_repeats(windows: Seq<WindowId>) -> Seq<WindowId>
    decreases windows.len(),
{
    if windows.len() == 0 {
        windows
    } else {
        let rest = without_repeats(windows.drop_last());
        if windows.len() > 1 && windows[windows.len() - 2] == windows.last() {
            rest
        } else {
            rest.push(windows.last())
        }
    }
}

/// The selected window of the first group that has one.
pub open spec fn first_selected(groups: Seq<CoreGroup>) -> Option<WindowId>
    decreases groups.len(),
{
    if groups.len() == 0 {
        None
    } else {
        let first = groups[0];
        if first.selected < first.windows@.len() {
            Some(first.windows@[first.selected as int])
        } else {
            first_selected(groups.drop_first())
        }
    }
}

/// The window to focus on a workspace that comes into view.
pub open spec fn focus_of_workspace(workspace: CoreWorkspace) -> Option<WindowId> {
    match workspace.last_tiled_window {
        Some(w) => Some(w),
        None => match workspace.last_floating_window {
            Some(w) => Some(w),
            None => match first_selected(workspace.groups@) {
                Some(w) => Some(w),
                None => if workspace.floating_windows@.len() > 0 {
                    Some(workspace.floating_windows@[0])
                } else {
                    None
                },
            },
        },
    }
}

/// What a workspace that comes into view wants.
pub open spec fn wanted_by_workspace(workspace: CoreWorkspace) -> ResponseModel {
    ResponseModel {
        raises: without_repeats(windows_of_workspace(workspace)),
        focus: focus_of_workspace(workspace),
        boundary: None,
    }
}

/// What the last workspace to come into view wants, or else what was wanted.
pub open spec fn wanted_by_events(
    events: Seq<DomainEvent>,
    snapshot: CoreSnapshot,
    base: ResponseModel,
) -> ResponseModel
    decreases events.len(),
{
    if events.len() == 0 {
        base
    } else {
        let rest = wanted_by_events(events.drop_last(), snapshot, base);
        match events.last() {
            DomainEvent::WorkspaceChanged { workspace } => match workspace_by_id(
                snapshot,
                workspace,
            ) {
                Some(found) => wanted_by_workspace(found),
                None => rest,
            },
            _ => rest,
        }
    }
}

/// What a transition wants raised and focused.
pub open spec fn wanted_by(transition: Transition) -> ResponseModel {
    wanted_by_events(
        transition.events@,
        transition.snapshot,
        wanted_by_effects(transition.effects@),
    )
}

pub fn contains_window(windows: &Vec<WindowId>, window: WindowId) -> (r: bool)
    ensures
        r == windows@.contains(window),
{
    let mut i: usize = 0;
    while i < windows.len()
        invariant
            i <= windows@.len(),
            forall|j: int| 0 <= j < i ==> #[trigger] windows@[j] != window,
        decreases windows@.len() - i,
    {
        if windows[i] == window {
            return true;
        }
        i += 1;
    }
    false
}

/// What the effects of a transition want raised and focused.
pub fn response_for_effects(effects: &Vec<Effect>) -> (r: EventResponse)
    ensures
        r@ == wanted_by_effects(effects@),
        r.boundary_hit is None,
{
    let mut response: EventResponse = EventResponse::default();
    let mut i: usize = 0;
    assert(response@ =~= wanted_by_effects(effects@.take(0)));
    while i < effects.len()
        invariant
            i <= effects@.len(),
            response.boundary_hit is None,
            response@ == wanted_by_effects(effects@.take(i as int)),
        decreases effects@.len() - i,
    {
        assert(effects@.take(i + 1).drop_last() =~= effects@.take(i as int));
        match effects[i] {
            Effect::FocusWindow(window) => {
                response.focus_window = Some(window);
            },
            Effect::RaiseWindow(window) => {
                if !contains_window(&response.raise_windows, window) {
                    response.raise_windows.push(window);
                }
            },
            _ => {},
        }
        assert(response@ =~= wanted_by_effects(effects@.take(i + 1)));
        i += 1;
    }
    assert(effects@.take(i as int) =~= effects@);
    response
}

fn append_windows(list: &mut Vec<WindowId>, more: &Vec<WindowId>)
    ensures
        final(list)@ == old(list)@ + more@,
{
    let mut i: usize = 0;
    assert(list@ =~= old(list)@ + more@.take(0));
    while i < more.len()
        invariant
            i <= more@.len(),
            list@ == old(list)@ + more@.take(i as int),
        decreases more@.len() - i,
    {
        list.push(more[i]);
        assert(list@ =~= old(list)@ + more@.take(i + 1));
        i += 1;
    }
    assert(more@.take(i as int) =~= more@);
}

/// The windows of a workspace: those in its groups, then the floating ones.
pub fn workspace_windows(workspace: &CoreWorkspace) -> (r: Vec<WindowId>)
    ensures
        r@ == windows_of_workspace(*workspace),
{
    let mut windows: Vec<WindowId> = Vec::new();
    let mut i: usize = 0;
    while i < workspace.groups.len()
        invariant
            i <= workspace.groups@.len(),
            windows@ == windows_of_groups(workspace.groups@.take(i as int)),
        decreases workspace.groups@.len() - i,
    {
        assert(workspace.groups@.take(i + 1).drop_last() =~= workspace.groups@.take(i as int));
        append_windows(&mut windows, &workspace.groups[i].windows);
        i += 1;
    }
    assert(workspace.groups@.take(i as int) =~= workspace.groups@);
    append_windows(&mut windows, &workspace.floating_windows);
    windows
}

fn drop_repeats(windows: &Vec<WindowId>) -> (r: Vec<WindowId>)
    ensures
        r@ == without_repeats(windows@),
{
    let mut r: Vec<WindowId> = Vec::new();
    let mut i: usize = 0;
    assert(r@ =~= without_repeats(windows@.take(0)));
    while i < windows.len()
        invariant
            i <= windows@.len(),
            r@ == without_repeats(windows@.take(i as int)),
        decreases windows@.len() - i,
    {
        assert(windows@.take(i + 1).drop_last() =~= windows@.take(i as int));
        let repeats: bool = i > 0 && windows[i - 1] == windows[i];
        if !repeats {
            r.push(windows[i]);
        }
        i += 1;
    }
    assert(windows@.take(i as int) =~= windows@);
    r
}

fn selected_in_groups(groups: &Vec<CoreGroup>) -> (r: Option<WindowId>)
    ensures
        r == first_selected(groups@),
{
    let mut i: usize = 0;
    assert(groups@.skip(0) =~= groups@);
    while i < groups.len()
        invariant
            i <= groups@.len(),
            first_selected(groups@) == first_selected(groups@.skip(i as int)),
        decreases groups@.len() - i,
    {
        assert(groups@.skip(i as int).drop_first() =~= groups@.skip(i + 1));
        let group: &CoreGroup = &groups[i];
        if group.selected < group.windows.len() {
            return Some(group.windows[group.selected]);
        }
        i += 1;
    }
    None
}

/// What a workspace that comes into view wants raised and focused.
pub fn response_for_workspace(workspace: &CoreWorkspace) -> (r: EventResponse)
    ensures
        r@ == wanted_by_workspace(*workspace),
        r.boundary_hit is None,
{
    let windows: Vec<WindowId> = workspace_windows(workspace);
    let focus_window: Option<WindowId> = match workspace.last_tiled_window {
        Some(w) => Some(w),
        None => match workspace.last_floating_window {
            Some(w) => Some(w),
            None => match selected_in_groups(&workspace.groups) {
                Some(w) => Some(w),
                None => if workspace.floating_windows.len() > 0 {
                    Some(workspace.floating_windows[0])
                } else {
                    None
                },
            },
        },
    };
    EventResponse { raise_windows: drop_repeats(&windows), focus_window, boundary_hit: None }
}

/// What a transition of the workspace model wants raised and focused.
pub fn layout_response_for_transition(transition: &Transition) -> (r: EventResponse)
    ensures
        r@ == wanted_by(*transition),
        r.boundary_hit is None,
{
    let mut response: EventResponse = response_for_effects(&transition.effects);
    let ghost base = response@;
    let events = &transition.events;
    let mut i: usize = 0;
    while i < events.len()
        invariant
            i <= events@.len(),
            *events == transition.events,
            response.boundary_hit is None,
            response@ == wanted_by_events(
                events@.take(i as int),
                transition.snapshot,
                base,
            ),
        decreases events@.len() - i,
    {
        assert(events@.take(i + 1).drop_last() =~= events@.take(i as int));
        if let DomainEvent::WorkspaceChanged { workspace } = events[i] {
            if let Some(k) = find_workspace(&transition.snapshot, workspace) {
                response = response_for_workspace(&transition.snapshot.workspaces[k]);
            }
        }
        i += 1;
    }
    assert(events@.take(i as int) =~= events@);
    response
}

/// The frames that a snapshot hands to the reactor are in range.
pub open spec fn snapshot_in_range(s: CoreSnapshot) -> bool {
    s.drag.origin_frame matches Some(f) ==> f.in_range()
}

pub open spec fn reply_in_range(reply: Result<Transition, CoreError>) -> bool {
    reply matches Ok(transition) ==> snapshot_in_range(transition.snapshot)
}

/// Whether what the workspace model answered can be taken up.
pub fn is_reply_in_range(reply: &Result<Transition, CoreError>) -> (r: bool)
    ensures
        r == reply_in_range(*reply),
{
    match reply {
        Ok(transition) => match transition.snapshot.drag.origin_frame {
            Some(frame) => frame.is_in_range(),
            None => true,
        },
        Err(_) => true,
    }
}

/// The workspace model's state after an answer: a refusal changes nothing.
pub open spec fn core_after(before: CoreSnapshot, reply: Result<Transition, CoreError>) -> CoreSnapshot {
    match reply {
        Ok(transition) => transition.snapshot,
        Err(_) => before,
    }
}

impl Reactor {
    /// Takes the workspace model's new state over; gives what it wants, or
    /// nothing if it refused.
    pub fn core_replied(&mut self, reply: Result<Transition, CoreError>) -> (r: Option<
        EventResponse,
    >)
        requires
            reply_in_range(reply),
        ensures
            *final(self) == (Reactor { core: core_after(old(self).core, reply), ..*old(self) }),
            old(self).wf() ==> final(self).wf(),
            match reply {
                Ok(transition) => r matches Some(response) && response@ == wanted_by(transition)
                    && response.boundary_hit is None,
                Err(_) => r is None,
            },
    {
        match reply {
            Ok(transition) => {
                let response: EventResponse = layout_response_for_transition(&transition);
                self.core = transition.snapshot;
                Some(response)
            },
            Err(_) => None,
        }
    }
}

/// When a workspace comes into view, the window that gets the focus is one
/// that it remembers or holds, whatever single effects asked for.
pub proof fn law_workspace_change_overrides_effects(
    transition: Transition,
    workspace: CoreWorkspace,
)
    requires
        transition.events@.len() > 0,
        transition.events@.last() == (DomainEvent::WorkspaceChanged { workspace: workspace.id }),
        workspace_by_id(transition.snapshot, workspace.id) == Some(workspace),
    ensures
        wanted_by(transition) == wanted_by_workspace(workspace),
{
}

/// No window is asked to be raised twice by the effects of a transition.
pub proof fn law_effects_raise_each_window_once(effects: Seq<Effect>)
    ensures
        wanted_by_effects(effects).raises.no_duplicates(),
    decreases effects.len(),
{
    if effects.len() > 0 {
        law_effects_raise_each_window_once(effects.drop_last());
    }
}

/// The last window that the effects focus is the one to focus, and every
/// window that they raise is raised.
pub proof fn law_effects_focus_the_last_and_raise_all(effects: Seq<Effect>, i: int, window: WindowId)
    requires
        0 <= i < effects.len(),
    ensures
        effects[i] == Effect::FocusWindow(window) && (forall|j: int|
            i < j < effects.len() ==> !(#[trigger] effects[j] is FocusWindow))
            ==> wanted_by_effects(effects).focus == Some(window),
        effects[i] == Effect::RaiseWindow(window) ==> wanted_by_effects(effects).raises.contains(
            window,
        ),
        wanted_by_effects(effects).boundary is None,
    decreases effects.len(),
{
    let rest = effects.drop_last();
    if i < rest.len() {
        law_effects_focus_the_last_and_raise_all(rest, i, window);
        assert(rest[i] == effects[i]);
        let a = wanted_by_effects(rest).raises;
        let b = wanted_by_effects(effects).raises;
        if a.contains(window) {
            let k = a.index_of(window);
            assert(b[k] == window);
        }
        if forall|j: int| i < j < effects.len() ==> !(#[trigger] effects[j] is FocusWindow) {
            assert forall|j: int| i < j < rest.len() implies !(#[trigger] rest[j]
                is FocusWindow) by {
                assert(rest[j] == effects[j]);
            }
            assert(!(effects[effects.len() - 1] is FocusWindow));
        }
    } else {
        let a = wanted_by_effects(rest).raises;
        let b = wanted_by_effects(effects).raises;
        if effects[i] == Effect::RaiseWindow(window) && !a.contains(window) {
            assert(b.last() == window);
        }
        lemma_no_boundary(rest);
    }
}

proof fn lemma_no_boundary(effects: Seq<Effect>)
    ensures
        wanted_by_effects(effects).boundary is None,
    decreases effects.len(),
{
    if effects.len() > 0 {
        lemma_no_boundary(effects.drop_last());
    }
}

/// Effects raise only what they name, and focus nothing unless they name it.
pub proof fn law_effects_want_only_what_they_name(effects: Seq<Effect>, window: WindowId)
    ensures
        wanted_by_effects(effects).raises.contains(window) ==> effects.contains(
            Effect::RaiseWindow(window),
        ),
        wanted_by_effects(effects).focus == Some(window) ==> effects.contains(
            Effect::FocusWindow(window),
        ),
    decreases effects.len(),
{
    if effects.len() > 0 {
        let rest = effects.drop_last();
        law_effects_want_only_what_they_name(rest, window);
        let raise = Effect::RaiseWindow(window);
        let focus = Effect::FocusWindow(window);
        if rest.contains(raise) {
            let k = rest.index_of(raise);
            assert(effects[k] == raise);
        }
        if rest.contains(focus) {
            let k = rest.index_of(focus);
            assert(effects[k] == focus);
        }
        assert(effects[effects.len() - 1] == effects.last());
        let a = wanted_by_effects(rest).raises;
        let b = wanted_by_effects(effects).raises;
        if b.contains(window) && !a.contains(window) {
            let k = b.index_of(window);
            if k < a.len() {
                assert(a[k] == window);
            }
        }
    }
}

/// The windows of a workspace are those of its groups and those that float on
/// it.
pub proof fn law_windows_of_a_workspace(workspace: CoreWorkspace, window: WindowId)
    ensures
        windows_of_workspace(workspace).contains(window) <==> workspace.floating_windows@.contains(
            window,
        ) || exists|g: int|
            0 <= g < workspace.groups@.len() && (
            #[trigger] workspace.groups@[g]).windows@.contains(window),
{
    lemma_windows_of_groups(workspace.groups@, window);
    let a = windows_of_groups(workspace.groups@);
    let b = workspace.floating_windows@;
    lemma_sum_contains(a, b, window);
}

proof fn lemma_sum_contains(a: Seq<WindowId>, b: Seq<WindowId>, window: WindowId)
    ensures
        (a + b).contains(window) <==> a.contains(window) || b.contains(window),
{
    let c = a + b;
    if a.contains(window) {
        let k = a.index_of(window);
        assert(c[k] == window);
    }
    if b.contains(window) {
        let k = b.index_of(window);
        assert(c[a.len() + k] == window);
    }
    if c.contains(window) {
        let k = c.index_of(window);
        if k < a.len() {
            assert(a[k] == window);
        } else {
            assert(b[k - a.len()] == window);
        }
    }
}

proof fn lemma_windows_of_groups(groups: Seq<CoreGroup>, window: WindowId)
    ensures
        windows_of_groups(groups).contains(window) <==> exists|g: int|
            0 <= g < groups.len() && (#[trigger] groups[g]).windows@.contains(window),
    decreases groups.len(),
{
    if groups.len() > 0 {
        let rest = groups.drop_last();
        lemma_windows_of_groups(rest, window);
        lemma_sum_contains(windows_of_groups(rest), groups.last().windows@, window);
        if exists|g: int| 0 <= g < rest.len() && (#[trigger] rest[g]).windows@.contains(window) {
            let g = choose|g: int|
                0 <= g < rest.len() && (#[trigger] rest[g]).windows@.contains(window);
            assert(groups[g] == rest[g]);
        }
        if exists|g: int| 0 <= g < groups.len() && (#[trigger] groups[g]).windows@.contains(
            window,
        ) {
            let g = choose|g: int|
                0 <= g < groups.len() && (#[trigger] groups[g]).windows@.contains(window);
            if g < rest.len() {
                assert(rest[g] == groups[g]);
            }
        }
        assert(groups[groups.len() - 1] == groups.last());
    }
}

/// A workspace that comes into view raises every one of its windows and no
/// other.
pub proof fn law_workspace_raises_its_windows(workspace: CoreWorkspace, window: WindowId)
    ensures
        wanted_by_workspace(workspace).raises.contains(window) <==> windows_of_workspace(
            workspace,
        ).contains(window),
        wanted_by_workspace(workspace).boundary is None,
{
    lemma_without_repeats(windows_of_workspace(workspace), window);
}

proof fn lemma_without_repeats(windows: Seq<WindowId>, window: WindowId)
    ensures
        without_repeats(windows).contains(window) <==> windows.contains(window),
    decreases windows.len(),
{
    if windows.len() > 0 {
        let rest = windows.drop_last();
        lemma_without_repeats(rest, window);
        let a = without_repeats(rest);
        let b = without_repeats(windows);
        if a.contains(window) {
            let k = a.index_of(window);
            assert(b[k] == window);
            let j = rest.index_of(window);
            assert(windows[j] == window);
        }
        if windows.contains(window) && !rest.contains(window) {
            let k = windows.index_of(window);
            if k < rest.len() {
                assert(rest[k] == window);
            }
            if windows.len() > 1 && windows[windows.len() - 2] == window {
                assert(rest[rest.len() - 1] == window);
            }
            assert(b.last() == window);
        }
        if b.contains(window) && !a.contains(window) {
            let k = b.index_of(window);
            if k < a.len() {
                assert(a[k] == window);
            }
            assert(windows[windows.len() - 1] == window);
        }
    }
}

/// A workspace that comes into view focuses the window last tiled on it,
/// before the one that last floated, before any window selected in a group,
/// before any that floats.
pub proof fn law_workspace_focuses_its_last_window(
    workspace: CoreWorkspace,
    window: WindowId,
    g: int,
)
    ensures
        workspace.last_tiled_window == Some(window) ==> wanted_by_workspace(workspace).focus
            == Some(window),
        workspace.last_tiled_window is None && workspace.last_floating_window == Some(window)
            ==> wanted_by_workspace(workspace).focus == Some(window),
        workspace.last_tiled_window is None && workspace.last_floating_window is None && 0 <= g
            < workspace.groups@.len() && workspace.groups@[g].selected
            < workspace.groups@[g].windows@.len() && (forall|j: int|
            0 <= j < g ==> (#[trigger] workspace.groups@[j]).selected
                >= workspace.groups@[j].windows@.len()) ==> wanted_by_workspace(workspace).focus
            == Some(workspace.groups@[g].windows@[workspace.groups@[g].selected as int]),
        workspace.last_tiled_window is None && workspace.last_floating_window is None
            && workspace.groups@.len() == 0 && workspace.floating_windows@.len() > 0
            ==> wanted_by_workspace(workspace).focus == Some(workspace.floating_windows@[0]),
        workspace.last_tiled_window is None && workspace.last_floating_window is None
            && workspace.groups@.len() == 0 && workspace.floating_windows@.len() == 0
            ==> wanted_by_workspace(workspace).focus is None,
{
    lemma_first_selected(workspace.groups@, g);
}

proof fn lemma_first_selected(groups: Seq<CoreGroup>, g: int)
    ensures
        0 <= g < groups.len() && groups[g].selected < groups[g].windows@.len() && (forall|j: int|
            0 <= j < g ==> (#[trigger] groups[j]).selected >= groups[j].windows@.len())
            ==> first_selected(groups) == Some(groups[g].windows@[groups[g].selected as int]),
    decreases groups.len(),
{
    if 0 < g < groups.len() {
        let rest = groups.drop_first();
        lemma_first_selected(rest, g - 1);
        assert(rest[g - 1] == groups[g]);
        if forall|j: int|
            0 <= j < g ==> (#[trigger] groups[j]).selected >= groups[j].windows@.len() {
            assert(groups[0].selected >= groups[0].windows@.len());
            assert forall|j: int| 0 <= j < g - 1 implies (#[trigger] rest[j]).selected
                >= rest[j].windows@.len() by {
                assert(rest[j] == groups[j + 1]);
            }
        }
    }
}

/// Without a workspace that comes into view, a transition wants what its
/// effects do.
pub proof fn law_transition_without_a_workspace_change_wants_its_effects(transition: Transition)
    requires
        forall|i: int|
            0 <= i < transition.events@.len() ==> !(#[trigger] transition.events@[i]
                is WorkspaceChanged),
    ensures
        wanted_by(transition) == wanted_by_effects(transition.effects@),
{
    lemma_no_workspace_change(
        transition.events@,
        transition.snapshot,
        wanted_by_effects(transition.effects@),
    );
}

proof fn lemma_no_workspace_change(
    events: Seq<DomainEvent>,
    snapshot: CoreSnapshot,
    base: ResponseModel,
)
    requires
        forall|i: int| 0 <= i < events.len() ==> !(#[trigger] events[i] is WorkspaceChanged),
    ensures
        wanted_by_events(events, snapshot, base) == base,
    decreases events.len(),
{
    if events.len() > 0 {
        let rest = events.drop_last();
        assert forall|i: int| 0 <= i < rest.len() implies !(#[trigger] rest[i]
            is WorkspaceChanged) by {
            assert(rest[i] == events[i]);
        }
        lemma_no_workspace_change(rest, snapshot, base);
        assert(!(events[events.len() - 1] is WorkspaceChanged));
    }
}

/// The model's state is replaced by an answer and kept by a refusal.
pub proof fn law_refusal_keeps_the_models_state(
    before: CoreSnapshot,
    transition: Transition,
    error: CoreError,
)
    ensures
        core_after(before, Ok(transition)) == transition.snapshot,
        core_after(before, Err(error)) == before,
{
}

} // verus!
