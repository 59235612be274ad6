//! The stack-line indicators: which stacks are shown, and where.

use vstd::prelude::*;

use crate::app::WindowId;
use crate::collections::{copy_list, first_match, lemma_first_index, lemma_no_match, IdMap};
use crate::event::{Command, Event as ReactorEvent, ReactorCommand};
use crate::geometry::{Point, Rect, Size, LIMIT};
use crate::ids::SpaceId;
use crate::model::{
    Axis, CoreDisplay, CoreGroup, CoreSnapshot, CoreWindow, CoreWorkspace, GroupId, LayoutKind,
    WorkspaceId,
};

verus! {

/// A stack of windows to be indicated.
pub struct GroupInfo {
    pub group_id: GroupId,
    pub space_id: SpaceId,
    pub container_kind: LayoutKind,
    pub frame: Rect,
    pub total_count: usize,
    pub selected_index: usize,
    pub window_ids: Vec<WindowId>,
}

#[derive(Copy, Clone, Debug, PartialEq, Eq, Structural)]
pub enum GroupKind {
    Horizontal,
    Vertical,
}

pub open spec fn workspace_by_id(s: CoreSnapshot, id: WorkspaceId) -> Option<CoreWorkspace> {
    first_match(s.workspaces@, |w: CoreWorkspace| w.id == id)
}

pub open spec fn window_by_id(s: CoreSnapshot, id: WindowId) -> Option<CoreWindow> {
    first_match(s.windows@, |w: CoreWindow| w.id == id)
}

/// The first workspace with an id, by its position.
pub fn find_workspace(s: &CoreSnapshot, id: WorkspaceId) -> (r: Option<usize>)
    ensures
        match r {
            Some(i) => i < s.workspaces@.len() && workspace_by_id(*s, id) == Some(
                s.workspaces@[i as int],
            ),
            None => workspace_by_id(*s, id) is None,
        },
{
    let ghost pred = |w: CoreWorkspace| w.id == id;
    let mut i: usize = 0;
    while i < s.workspaces.len()
        invariant
            i <= s.workspaces@.len(),
            pred == (|w: CoreWorkspace| w.id == id),
            forall|j: int| 0 <= j < i ==> !pred(#[trigger] s.workspaces@[j]),
        decreases s.workspaces@.len() - i,
    {
        if s.workspaces[i].id == id {
            proof {
                lemma_first_index(s.workspaces@, pred, i as int);
            }
            return Some(i);
        }
        i += 1;
    }
    proof {
        lemma_no_match(s.workspaces@, pred);
    }
    None
}

/// The first window with an id, by its position.
pub fn find_window(s: &CoreSnapshot, id: WindowId) -> (r: Option<usize>)
    ensures
        match r {
            Some(i) => i < s.windows@.len() && window_by_id(*s, id) == Some(s.windows@[i as int]),
            None => window_by_id(*s, id) is None,
        },
{
    let ghost pred = |w: CoreWindow| w.id == id;
    let mut i: usize = 0;
    while i < s.windows.len()
        invariant
            i <= s.windows@.len(),
            pred == (|w: CoreWindow| w.id == id),
            forall|j: int| 0 <= j < i ==> !pred(#[trigger] s.windows@[j]),
        decreases s.windows@.len() - i,
    {
        if s.windows[i].id == id {
            proof {
                lemma_first_index(s.windows@, pred, i as int);
            }
            return Some(i);
        }
        i += 1;
    }
    proof {
        lemma_no_match(s.windows@, pred);
    }
    None
}

/// Whether a window is known to be fullscreen.
pub open spec fn window_is_fullscreen(s: CoreSnapshot, id: WindowId) -> bool {
    window_by_id(s, id) matches Some(w) && w.fullscreen
}

/// Whether a workspace holds a window that passes, in a stack or floating.
pub open spec fn workspace_has(ws: CoreWorkspace, pred: spec_fn(WindowId) -> bool) -> bool {
    (exists|g: int, i: int| #![trigger ws.groups@[g].windows@[i]]
        0 <= g < ws.groups@.len() && 0 <= i < ws.groups@[g].windows@.len() && pred(
            ws.groups@[g].windows@[i],
        )) || (exists|i: int|
        0 <= i < ws.floating_windows@.len() && pred(#[trigger] ws.floating_windows@[i]))
}

/// The frame that an indicator of a stack goes by: that of the selected
/// window in the planned layout, else where the window is.
pub open spec fn group_frame(s: CoreSnapshot, ws: CoreWorkspace, g: CoreGroup) -> Option<Rect> {
    if g.selected < g.windows@.len() {
        let selected = g.windows@[g.selected as int];
        if ws.layout_frames@.contains_key(selected) {
            Some(ws.layout_frames@[selected])
        } else {
            match window_by_id(s, selected) {
                Some(w) => Some(w.frame),
                None => None,
            }
        }
    } else {
        None
    }
}

/// Whether a stack is indicated: it has several windows and a frame.
pub open spec fn indicated(s: CoreSnapshot, ws: CoreWorkspace, g: CoreGroup) -> bool {
    g.windows@.len() > 1 && group_frame(s, ws, g) is Some
}

/// The positions of the indicated stacks among the first `n`.
pub open spec fn indicated_groups(s: CoreSnapshot, ws: CoreWorkspace, n: int) -> Seq<int>
    decreases n,
{
    if n <= 0 {
        Seq::empty()
    } else {
        let rest = indicated_groups(s, ws, n - 1);
        if indicated(s, ws, ws.groups@[n - 1]) {
            rest.push(n - 1)
        } else {
            rest
        }
    }
}

/// Whether an indicator describes a stack.
pub open spec fn describes(
    s: CoreSnapshot,
    ws: CoreWorkspace,
    space: SpaceId,
    g: CoreGroup,
    info: GroupInfo,
) -> bool {
    &&& info.group_id == g.id
    &&& info.space_id == space
    &&& info.container_kind == match g.axis {
        Axis::Horizontal => LayoutKind::HorizontalStack,
        Axis::Vertical => LayoutKind::VerticalStack,
    }
    &&& group_frame(s, ws, g) == Some(info.frame)
    &&& info.total_count == g.windows@.len()
    &&& info.selected_index == g.selected
    &&& info.window_ids@ == g.windows@
}

/// Whether groups are the indicators of a display, shown with or without
/// its fullscreen windows in the way.
pub open spec fn projects(
    s: CoreSnapshot,
    display: CoreDisplay,
    space: SpaceId,
    groups: Seq<GroupInfo>,
    fullscreen: bool,
) -> bool {
    &&& display.space == Some(space)
    &&& display.active_workspace matches Some(id) && workspace_by_id(s, id) matches Some(ws) && {
        let at = indicated_groups(s, ws, ws.groups@.len() as int);
        &&& groups.len() == at.len()
        &&& forall|i: int|
            0 <= i < at.len() ==> describes(
                s,
                ws,
                space,
                ws.groups@[at[i]],
                #[trigger] groups[i],
            )
        &&& fullscreen == workspace_has(ws, |w: WindowId| window_is_fullscreen(s, w))
    }
}

/// The indicators of a display: the stacks of its active workspace, and
/// whether a window there is fullscreen.
pub fn project_display_groups(snapshot: &CoreSnapshot, display: &CoreDisplay) -> (r: Option<
    (SpaceId, Vec<GroupInfo>, bool),
>)
    ensures
        match r {
            Some((space, groups, fullscreen)) => projects(
                *snapshot,
                *display,
                space,
                groups@,
                fullscreen,
            ),
            None => display.space is None || match display.active_workspace {
                Some(id) => workspace_by_id(*snapshot, id) is None,
                None => true,
            },
        },
{
    let space: SpaceId = match display.space {
        Some(s) => s,
        None => {
            return None;
        },
    };
    let workspace_id: WorkspaceId = match display.active_workspace {
        Some(id) => id,
        None => {
            return None;
        },
    };
    let at: usize = match find_workspace(snapshot, workspace_id) {
        Some(i) => i,
        None => {
            return None;
        },
    };
    let workspace: &CoreWorkspace = &snapshot.workspaces[at];
    let fullscreen: bool = workspace_has_fullscreen(snapshot, workspace);
    let groups: Vec<GroupInfo> = collect_groups(snapshot, workspace, space);
    Some((space, groups, fullscreen))
}

fn is_fullscreen(s: &CoreSnapshot, id: WindowId) -> (r: bool)
    ensures
        r == window_is_fullscreen(*s, id),
{
    match find_window(s, id) {
        Some(i) => s.windows[i].fullscreen,
        None => false,
    }
}

fn any_fullscreen(s: &CoreSnapshot, windows: &Vec<WindowId>) -> (r: bool)
    ensures
        r <==> exists|i: int|
            0 <= i < windows@.len() && window_is_fullscreen(*s, #[trigger] windows@[i]),
{
    let mut i: usize = 0;
    while i < windows.len()
        invariant
            i <= windows@.len(),
            forall|j: int| 0 <= j < i ==> !window_is_fullscreen(*s, #[trigger] windows@[j]),
        decreases windows@.len() - i,
    {
        if is_fullscreen(s, windows[i]) {
            assert(window_is_fullscreen(*s, windows@[i as int]));
            return true;
        }
        i += 1;
    }
    false
}

fn workspace_has_fullscreen(s: &CoreSnapshot, ws: &CoreWorkspace) -> (r: bool)
    ensures
        r == workspace_has(*ws, |w: WindowId| window_is_fullscreen(*s, w)),
{
    let mut g: usize = 0;
    while g < ws.groups.len()
        invariant
            g <= ws.groups@.len(),
            forall|h: int, i: int| #![trigger ws.groups@[h].windows@[i]]
                0 <= h < g && 0 <= i < ws.groups@[h].windows@.len() ==> !window_is_fullscreen(
                    *s,
                    ws.groups@[h].windows@[i],
                ),
        decreases ws.groups@.len() - g,
    {
        if any_fullscreen(s, &ws.groups[g].windows) {
            proof {
                let i = choose|i: int|
                    0 <= i < ws.groups@[g as int].windows@.len() && window_is_fullscreen(
                        *s,
                        #[trigger] ws.groups@[g as int].windows@[i],
                    );
                assert(window_is_fullscreen(*s, ws.groups@[g as int].windows@[i]));
            }
            return true;
        }
        g += 1;
    }
    any_fullscreen(s, &ws.floating_windows)
}

fn frame_of_group(s: &CoreSnapshot, ws: &CoreWorkspace, g: &CoreGroup) -> (r: Option<Rect>)
    ensures
        r == group_frame(*s, *ws, *g),
{
    if g.selected >= g.windows.len() {
        return None;
    }
    let selected: WindowId = g.windows[g.selected];
    match ws.layout_frames.get(selected) {
        Some(frame) => Some(*frame),
        None => match find_window(s, selected) {
            Some(i) => Some(s.windows[i].frame),
            None => None,
        },
    }
}

fn collect_groups(s: &CoreSnapshot, ws: &CoreWorkspace, space: SpaceId) -> (r: Vec<GroupInfo>)
    ensures
        ({
            let at = indicated_groups(*s, *ws, ws.groups@.len() as int);
            &&& r@.len() == at.len()
            &&& forall|i: int|
                0 <= i < at.len() ==> describes(
                    *s,
                    *ws,
                    space,
                    ws.groups@[at[i]],
                    #[trigger] r@[i],
                )
        }),
{
    let mut r: Vec<GroupInfo> = Vec::new();
    let mut n: usize = 0;
    while n < ws.groups.len()
        invariant
            n <= ws.groups@.len(),
            r@.len() == indicated_groups(*s, *ws, n as int).len(),
            forall|i: int|
                0 <= i < r@.len() ==> describes(
                    *s,
                    *ws,
                    space,
                    ws.groups@[indicated_groups(*s, *ws, n as int)[i]],
                    #[trigger] r@[i],
                ),
        decreases ws.groups@.len() - n,
    {
        let g: &CoreGroup = &ws.groups[n];
        let ghost before = indicated_groups(*s, *ws, n as int);
        let ghost after = indicated_groups(*s, *ws, n + 1);
        let ghost old_r = r@;
        if g.windows.len() > 1 {
            if let Some(frame) = frame_of_group(s, ws, g) {
                let container_kind = match g.axis {
                    Axis::Horizontal => LayoutKind::HorizontalStack,
                    Axis::Vertical => LayoutKind::VerticalStack,
                };
                r.push(
                    GroupInfo {
                        group_id: g.id,
                        space_id: space,
                        container_kind,
                        frame,
                        total_count: g.windows.len(),
                        selected_index: g.selected,
                        window_ids: copy_list(&g.windows),
                    },
                );
            }
        }
        proof {
            assert forall|i: int| 0 <= i < r@.len() implies describes(
                *s,
                *ws,
                space,
                ws.groups@[after[i]],
                #[trigger] r@[i],
            ) by {
                if i < old_r.len() {
                    assert(r@[i] == old_r[i]);
                    assert(after[i] == before[i]);
                }
            }
        }
        n += 1;
    }
    r
}

impl StackLine {
    /// The frame of an indicator: along the top edge of a horizontal stack or the
    /// left edge of a vertical one, at least twice as long as it is thick.
    pub fn calculate_indicator_frame(
        group_frame: Rect,
        group_kind: GroupKind,
        thickness: i64,
        spacing: i64,
    ) -> (r: Rect)
        requires
            group_frame.in_range(),
            0 <= thickness <= LIMIT,
            -LIMIT <= spacing <= LIMIT,
        ensures
            ({
                let width = if group_frame.size.width < thickness * 2 {
                    thickness * 2
                } else {
                    group_frame.size.width as int
                };
                let height = if group_frame.size.height < thickness * 2 {
                    thickness * 2
                } else {
                    group_frame.size.height as int
                };
                match group_kind {
                    GroupKind::Horizontal => r == (Rect {
                        origin: Point {
                            x: group_frame.origin.x,
                            y: (group_frame.origin.y - spacing) as i64,
                        },
                        size: Size { width: width as i64, height: thickness },
                    }),
                    GroupKind::Vertical => r == (Rect {
                        origin: Point {
                            x: (group_frame.origin.x - spacing) as i64,
                            y: group_frame.origin.y,
                        },
                        size: Size { width: thickness, height: height as i64 },
                    }),
                }
            }),
    {
        let min_size: i64 = thickness * 2;
        let adjusted_width: i64 = if group_frame.size.width < min_size {
            min_size
        } else {
            group_frame.size.width
        };
        let adjusted_height: i64 = if group_frame.size.height < min_size {
            min_size
        } else {
            group_frame.size.height
        };
        match group_kind {
            GroupKind::Horizontal => Rect {
                origin: Point { x: group_frame.origin.x, y: group_frame.origin.y - spacing },
                size: Size { width: adjusted_width, height: thickness },
            },
            GroupKind::Vertical => Rect {
                origin: Point { x: group_frame.origin.x - spacing, y: group_frame.origin.y },
                size: Size { width: thickness, height: adjusted_height },
            },
        }
    }
}

/// What an indicator depends on, with its frame rounded to half points.
pub struct GroupSig {
    pub group_id: GroupId,
    pub kind: LayoutKind,
    pub x_q2: i64,
    pub y_q2: i64,
    pub w_q2: i64,
    pub h_q2: i64,
    pub total: usize,
    pub selected_index: usize,
    pub window_ids: Vec<WindowId>,
}

/// A coordinate in half points, rounded half away from zero.
pub open spec fn quantized(v: i64) -> int {
    if v >= 0 {
        (v + 64) / 128
    } else {
        -((64 - v) / 128)
    }
}

fn quant(v: i64) -> (r: i64)
    ensures
        r == quantized(v),
{
    let w: i128 = v as i128;
    if v >= 0 {
        ((w + 64) / 128) as i64
    } else {
        (0 - (64 - w) / 128) as i64
    }
}

/// Two signatures with the same content.
pub open spec fn same_sig(a: GroupSig, b: GroupSig) -> bool {
    &&& a.group_id == b.group_id
    &&& a.kind == b.kind
    &&& a.x_q2 == b.x_q2
    &&& a.y_q2 == b.y_q2
    &&& a.w_q2 == b.w_q2
    &&& a.h_q2 == b.h_q2
    &&& a.total == b.total
    &&& a.selected_index == b.selected_index
    &&& a.window_ids@ == b.window_ids@
}

/// Whether a signature is that of a stack.
pub open spec fn sig_of(g: GroupInfo, sig: GroupSig) -> bool {
    &&& sig.group_id == g.group_id
    &&& sig.kind == g.container_kind
    &&& sig.x_q2 == quantized(g.frame.origin.x)
    &&& sig.y_q2 == quantized(g.frame.origin.y)
    &&& sig.w_q2 == quantized(g.frame.size.width)
    &&& sig.h_q2 == quantized(g.frame.size.height)
    &&& sig.total == g.total_count
    &&& sig.selected_index == g.selected_index
    &&& sig.window_ids@ == g.window_ids@
}

pub open spec fn sigs_of(groups: Seq<GroupInfo>, sigs: Seq<GroupSig>) -> bool {
    &&& sigs.len() == groups.len()
    &&& forall|i: int| 0 <= i < groups.len() ==> sig_of(groups[i], #[trigger] sigs[i])
}

pub open spec fn same_sigs(a: Seq<GroupSig>, b: Seq<GroupSig>) -> bool {
    &&& a.len() == b.len()
    &&& forall|i: int| 0 <= i < a.len() ==> same_sig(#[trigger] a[i], b[i])
}

impl GroupSig {
    pub fn from_group_info(g: &GroupInfo) -> (r: GroupSig)
        ensures
            sig_of(*g, r),
    {
        GroupSig {
            group_id: g.group_id,
            kind: g.container_kind,
            x_q2: quant(g.frame.origin.x),
            y_q2: quant(g.frame.origin.y),
            w_q2: quant(g.frame.size.width),
            h_q2: quant(g.frame.size.height),
            total: g.total_count,
            selected_index: g.selected_index,
            window_ids: copy_list(&g.window_ids),
        }
    }

    pub fn same(&self, other: &GroupSig) -> (r: bool)
        ensures
            r == same_sig(*self, *other),
    {
        if self.group_id != other.group_id || self.kind != other.kind || self.x_q2 != other.x_q2
            || self.y_q2 != other.y_q2 || self.w_q2 != other.w_q2 || self.h_q2 != other.h_q2
            || self.total != other.total || self.selected_index != other.selected_index
            || self.window_ids.len() != other.window_ids.len() {
            return false;
        }
        let mut i: usize = 0;
        while i < self.window_ids.len()
            invariant
                i <= self.window_ids@.len(),
                self.window_ids@.len() == other.window_ids@.len(),
                forall|j: int|
                    0 <= j < i ==> #[trigger] self.window_ids@[j] == other.window_ids@[j],
            decreases self.window_ids@.len() - i,
        {
            if self.window_ids[i] != other.window_ids[i] {
                assert(self.window_ids@[i as int] != other.window_ids@[i as int]);
                return false;
            }
            i += 1;
        }
        assert(self.window_ids@ =~= other.window_ids@);
        true
    }
}

fn same_sig_lists(a: &Vec<GroupSig>, b: &Vec<GroupSig>) -> (r: bool)
    ensures
        r == same_sigs(a@, b@),
{
    if a.len() != b.len() {
        return false;
    }
    let mut i: usize = 0;
    while i < a.len()
        invariant
            i <= a@.len(),
            a@.len() == b@.len(),
            forall|j: int| 0 <= j < i ==> same_sig(#[trigger] a@[j], b@[j]),
        decreases a@.len() - i,
    {
        if !a[i].same(&b[i]) {
            assert(!same_sig(a@[i as int], b@[i as int]));
            return false;
        }
        i += 1;
    }
    true
}

/// An indicator on screen: the space it belongs to and its windows.
pub struct Indicator {
    pub space: Option<SpaceId>,
    pub window_ids: Vec<WindowId>,
}

/// The state of the stack-line actor.
pub struct StackLine {
    pub enabled: bool,
    pub indicators: IdMap<GroupId, Indicator>,
    pub group_sigs_by_space: IdMap<SpaceId, Vec<GroupSig>>,
    pub cursor_over_indicator: bool,
}

/// What an update of a space's stacks asks for: the dropped indicators are
/// cleared, then, if the stacks changed, each is shown or updated.
pub struct GroupsUpdate {
    pub cleared: Vec<GroupId>,
    pub changed: bool,
}

pub open spec fn has_group(groups: Seq<GroupInfo>, id: GroupId) -> bool {
    exists|i: int| 0 <= i < groups.len() && (#[trigger] groups[i]).group_id == id
}

/// Whether an indicator stays when the stacks of a space are updated: its
/// space is still shown, and if it is the updated one, its stack is still there.
pub open spec fn indicator_stays(
    indicator: Indicator,
    id: GroupId,
    active: Seq<SpaceId>,
    space: SpaceId,
    groups: Seq<GroupInfo>,
    changed: bool,
) -> bool {
    match indicator.space {
        None => true,
        Some(s) => active.contains(s) && (s == space && changed ==> has_group(groups, id)),
    }
}

/// Whether the stacks of a space differ from those last seen there. Spaces
/// that are no longer shown are forgotten.
pub open spec fn stacks_changed(
    line: StackLine,
    active: Seq<SpaceId>,
    space: SpaceId,
    sigs: Seq<GroupSig>,
) -> bool {
    !(line.group_sigs_by_space@.contains_key(space) && active.contains(space) && same_sigs(
        line.group_sigs_by_space@[space]@,
        sigs,
    ))
}

fn space_in(s: &Vec<SpaceId>, space: SpaceId) -> (r: bool)
    ensures
        r == s@.contains(space),
{
    let mut i: usize = 0;
    while i < s.len()
        invariant
            i <= s@.len(),
            forall|j: int| 0 <= j < i ==> #[trigger] s@[j] != space,
        decreases s@.len() - i,
    {
        if s[i] == space {
            assert(s@[i as int] == space);
            return true;
        }
        i += 1;
    }
    false
}

fn group_in(groups: &Vec<GroupInfo>, id: GroupId) -> (r: bool)
    ensures
        r == has_group(groups@, id),
{
    let mut i: usize = 0;
    while i < groups.len()
        invariant
            i <= groups@.len(),
            forall|j: int| 0 <= j < i ==> (#[trigger] groups@[j]).group_id != id,
        decreases groups@.len() - i,
    {
        if groups[i].group_id == id {
            assert(groups@[i as int].group_id == id);
            return true;
        }
        i += 1;
    }
    false
}

/// What the stack line is told.
pub enum Event {
    GroupsUpdated {
        active_space_ids: Vec<SpaceId>,
        space_id: SpaceId,
        groups: Vec<GroupInfo>,
        active_workspace_for_space_has_fullscreen: bool,
    },
    ScreenParametersChanged,
    ConfigUpdated { enabled: bool },
    SnapshotUpdated(CoreSnapshot),
    /// A click that landed on an indicator in sight.
    MouseDown(Point),
    MouseMoved { point: Point, hits_indicator: bool },
}

/// The stacks of a space, for `handle_groups_updated`.
pub struct SpaceGroups {
    pub space_id: SpaceId,
    pub groups: Vec<GroupInfo>,
    pub has_fullscreen: bool,
}

/// What a snapshot asks for: indicators to clear, or the spaces that are
/// shown and the stacks of each.
pub struct SnapshotUpdate {
    pub cleared: Vec<GroupId>,
    pub active_space_ids: Vec<SpaceId>,
    pub spaces: Vec<SpaceGroups>,
}

/// An indicator under a click: whether it is in sight and hit, and the
/// segment that was hit.
#[derive(Copy, Clone, Debug, PartialEq, Eq, Structural)]
pub struct IndicatorHit {
    pub group_id: GroupId,
    pub is_visible: bool,
    pub is_hit: bool,
    pub segment: Option<usize>,
}

/// The spaces that displays show.
pub open spec fn spaces_shown(displays: Seq<CoreDisplay>) -> Seq<SpaceId>
    decreases displays.len(),
{
    if displays.len() == 0 {
        Seq::empty()
    } else {
        match displays.last().space {
            Some(space) => spaces_shown(displays.drop_last()).push(space),
            None => spaces_shown(displays.drop_last()),
        }
    }
}

/// Whether a display shows a workspace on a space.
pub open spec fn shows_workspace(s: CoreSnapshot, display: CoreDisplay) -> bool {
    display.space is Some && (display.active_workspace matches Some(id) && workspace_by_id(
        s,
        id,
    ) is Some)
}

/// Whether lists hold the stacks of each of the first `n` displays that shows
/// a workspace.
pub open spec fn projects_all(s: CoreSnapshot, spaces: Seq<SpaceGroups>, n: int) -> bool
    decreases n,
{
    if n <= 0 {
        spaces.len() == 0
    } else if shows_workspace(s, s.displays@[n - 1]) {
        &&& spaces.len() > 0
        &&& projects(
            s,
            s.displays@[n - 1],
            spaces.last().space_id,
            spaces.last().groups@,
            spaces.last().has_fullscreen,
        )
        &&& projects_all(s, spaces.drop_last(), n - 1)
    } else {
        projects_all(s, spaces, n - 1)
    }
}

/// The indicator and the segment that a click means.
pub open spec fn clicked_segment(hits: Seq<IndicatorHit>) -> Option<(GroupId, usize)>
    decreases hits.len(),
{
    if hits.len() == 0 {
        None
    } else if hits[0].is_visible && hits[0].is_hit && hits[0].segment is Some {
        Some((hits[0].group_id, hits[0].segment.unwrap()))
    } else {
        clicked_segment(hits.drop_first())
    }
}

fn find_clicked_segment(hits: &Vec<IndicatorHit>) -> (r: Option<(GroupId, usize)>)
    ensures
        r == clicked_segment(hits@),
{
    let mut i: usize = 0;
    assert(hits@.skip(0) =~= hits@);
    while i < hits.len()
        invariant
            i <= hits@.len(),
            clicked_segment(hits@) == clicked_segment(hits@.skip(i as int)),
        decreases hits@.len() - i,
    {
        assert(hits@.skip(i as int).drop_first() =~= hits@.skip(i + 1));
        if hits[i].is_visible && hits[i].is_hit {
            if let Some(segment) = hits[i].segment {
                return Some((hits[i].group_id, segment));
            }
        }
        i += 1;
    }
    None
}

impl StackLine {
    /// Whether an event is heeded: while the feature is off, the stacks of a
    /// space are not.
    pub fn heeds(&self, event: &Event) -> (r: bool)
        ensures
            r == (self.enabled || !(event is GroupsUpdated)),
    {
        match event {
            Event::GroupsUpdated { .. } => self.enabled,
            _ => true,
        }
    }

    /// Takes a snapshot. Where no display shows a space, all indicators are
    /// forgotten; else the stacks of each space are to be taken up in turn.
    pub fn handle_snapshot_updated(&mut self, snapshot: &CoreSnapshot) -> (r: SnapshotUpdate)
        ensures
            r.active_space_ids@ == spaces_shown(snapshot.displays@),
            if r.active_space_ids@.len() == 0 {
                &&& r.cleared@ == old(self).indicators.order()
                &&& r.spaces@.len() == 0
                &&& final(self).indicators@ == Map::<GroupId, Indicator>::empty()
                &&& final(self).group_sigs_by_space@ == Map::<SpaceId, Vec<GroupSig>>::empty()
                &&& final(self).enabled == old(self).enabled
                &&& final(self).cursor_over_indicator == old(self).cursor_over_indicator
            } else {
                &&& r.cleared@.len() == 0
                &&& projects_all(*snapshot, r.spaces@, snapshot.displays@.len() as int)
                &&& *final(self) == *old(self)
            },
    {
        let mut active: Vec<SpaceId> = Vec::new();
        let mut spaces: Vec<SpaceGroups> = Vec::new();
        let mut i: usize = 0;
        while i < snapshot.displays.len()
            invariant
                i <= snapshot.displays@.len(),
                active@ == spaces_shown(snapshot.displays@.take(i as int)),
                projects_all(*snapshot, spaces@, i as int),
            decreases snapshot.displays@.len() - i,
        {
            let display: &CoreDisplay = &snapshot.displays[i];
            assert(snapshot.displays@.take(i + 1).drop_last() =~= snapshot.displays@.take(
                i as int,
            ));
            if let Some(space) = display.space {
                active.push(space);
            }
            if let Some((space_id, groups, has_fullscreen)) = project_display_groups(
                snapshot,
                display,
            ) {
                let ghost before = spaces@;
                spaces.push(SpaceGroups { space_id, groups, has_fullscreen });
                assert(spaces@.drop_last() =~= before);
            }
            i += 1;
        }
        assert(snapshot.displays@.take(i as int) =~= snapshot.displays@);
        if active.len() == 0 {
            let cleared: Vec<GroupId> = self.clear_all();
            return SnapshotUpdate { cleared, active_space_ids: active, spaces: Vec::new() };
        }
        SnapshotUpdate { cleared: Vec::new(), active_space_ids: active, spaces }
    }

    /// The event for a click: the window of the first segment that it hit is
    /// focused.
    pub fn handle_mouse_down(&self, hits: &Vec<IndicatorHit>) -> (r: Option<ReactorEvent>)
        ensures
            r == match clicked_segment(hits@) {
                Some((group, segment)) if self.enabled => self.click_event(group, segment),
                _ => None,
            },
    {
        if !self.enabled {
            return None;
        }
        match find_clicked_segment(hits) {
            Some((group_id, segment)) => self.handle_indicator_clicked(group_id, segment),
            None => None,
        }
    }

    pub fn new(enabled: bool) -> (r: StackLine)
        ensures
            r.enabled == enabled,
            r.indicators@ == Map::<GroupId, Indicator>::empty(),
            r.group_sigs_by_space@ == Map::<SpaceId, Vec<GroupSig>>::empty(),
            !r.cursor_over_indicator,
    {
        StackLine {
            enabled,
            indicators: IdMap::new(),
            group_sigs_by_space: IdMap::new(),
            cursor_over_indicator: false,
        }
    }

    /// Takes the stacks that a space shows. The caller clears the dropped
    /// indicators, calls `show_group` for each stack if they changed, and
    /// then sets the visibility of the space's indicators.
    pub fn handle_groups_updated(
        &mut self,
        active_space_ids: &Vec<SpaceId>,
        space_id: SpaceId,
        groups: &Vec<GroupInfo>,
    ) -> (r: GroupsUpdate)
        ensures
            exists|sigs: Seq<GroupSig>|
                {
                    &&& #[trigger] sigs_of(groups@, sigs)
                    &&& r.changed == stacks_changed(*old(self), active_space_ids@, space_id, sigs)
                    &&& final(self).group_sigs_by_space@.contains_key(space_id)
                    &&& final(self).group_sigs_by_space@[space_id]@ == sigs
                },
            forall|s: SpaceId|
                s != space_id ==> (#[trigger] final(self).group_sigs_by_space@.contains_key(s)
                    <==> old(self).group_sigs_by_space@.contains_key(s)
                    && active_space_ids@.contains(s)),
            forall|s: SpaceId|
                s != space_id && #[trigger] final(self).group_sigs_by_space@.contains_key(s)
                    ==> final(self).group_sigs_by_space@[s] == old(self).group_sigs_by_space@[s],
            forall|g: GroupId| #[trigger]
                final(self).indicators@.contains_key(g) <==> old(self).indicators@.contains_key(g)
                    && indicator_stays(
                    old(self).indicators@[g],
                    g,
                    active_space_ids@,
                    space_id,
                    groups@,
                    r.changed,
                ),
            forall|g: GroupId| #[trigger]
                final(self).indicators@.contains_key(g) ==> final(self).indicators@[g] == old(
                    self,
                ).indicators@[g],
            forall|g: GroupId| #[trigger]
                r.cleared@.contains(g) <==> old(self).indicators@.contains_key(g)
                    && !final(self).indicators@.contains_key(g),
            final(self).enabled == old(self).enabled,
            final(self).cursor_over_indicator == old(self).cursor_over_indicator,
    {
        let ghost before = *self;
        self.forget_spaces(active_space_ids);
        let mut sigs: Vec<GroupSig> = Vec::new();
        let mut i: usize = 0;
        while i < groups.len()
            invariant
                i <= groups@.len(),
                sigs@.len() == i,
                forall|j: int| 0 <= j < i ==> sig_of(groups@[j], #[trigger] sigs@[j]),
            decreases groups@.len() - i,
        {
            sigs.push(GroupSig::from_group_info(&groups[i]));
            i += 1;
        }
        let unchanged: bool = match self.group_sigs_by_space.get(space_id) {
            Some(previous) => same_sig_lists(previous, &sigs),
            None => false,
        };
        let ghost sig_view = sigs@;
        let _ = self.group_sigs_by_space.insert(space_id, sigs);
        assert(sigs_of(groups@, sig_view));
        let cleared: Vec<GroupId> = self.drop_indicators(
            active_space_ids,
            space_id,
            groups,
            !unchanged,
        );
        GroupsUpdate { cleared, changed: !unchanged }
    }

    fn forget_spaces(&mut self, active: &Vec<SpaceId>)
        ensures
            *final(self) == (StackLine {
                group_sigs_by_space: final(self).group_sigs_by_space,
                ..*old(self)
            }),
            forall|s: SpaceId| #[trigger]
                final(self).group_sigs_by_space@.contains_key(s) <==> old(
                    self,
                ).group_sigs_by_space@.contains_key(s) && active@.contains(s),
            forall|s: SpaceId| #[trigger]
                final(self).group_sigs_by_space@.contains_key(s)
                    ==> final(self).group_sigs_by_space@[s] == old(self).group_sigs_by_space@[s],
    {
        let ghost before = self.group_sigs_by_space@;
        let keys: Vec<SpaceId> = self.group_sigs_by_space.keys();
        let mut i: usize = 0;
        while i < keys.len()
            invariant
                i <= keys@.len(),
                forall|s: SpaceId| #[trigger] keys@.contains(s) <==> before.contains_key(s),
                *self == (StackLine {
                    group_sigs_by_space: self.group_sigs_by_space,
                    ..*old(self)
                }),
                forall|s: SpaceId| #[trigger]
                    self.group_sigs_by_space@.contains_key(s) <==> before.contains_key(s) && (
                    active@.contains(s) || !keys@.take(i as int).contains(s)),
                forall|s: SpaceId| #[trigger]
                    self.group_sigs_by_space@.contains_key(s) ==> self.group_sigs_by_space@[s]
                        == before[s],
            decreases keys@.len() - i,
        {
            let key: SpaceId = keys[i];
            proof {
                lemma_take_contains(keys@, i as int);
            }
            if !space_in(active, key) {
                let _ = self.group_sigs_by_space.remove(key);
            }
            i += 1;
        }
        assert(keys@.take(i as int) =~= keys@);
    }

    fn drop_indicators(
        &mut self,
        active: &Vec<SpaceId>,
        space: SpaceId,
        groups: &Vec<GroupInfo>,
        changed: bool,
    ) -> (r: Vec<GroupId>)
        ensures
            *final(self) == (StackLine { indicators: final(self).indicators, ..*old(self) }),
            forall|g: GroupId| #[trigger]
                final(self).indicators@.contains_key(g) <==> old(self).indicators@.contains_key(g)
                    && indicator_stays(
                    old(self).indicators@[g],
                    g,
                    active@,
                    space,
                    groups@,
                    changed,
                ),
            forall|g: GroupId| #[trigger]
                final(self).indicators@.contains_key(g) ==> final(self).indicators@[g] == old(
                    self,
                ).indicators@[g],
            forall|g: GroupId| #[trigger]
                r@.contains(g) <==> old(self).indicators@.contains_key(g)
                    && !final(self).indicators@.contains_key(g),
    {
        let ghost before = self.indicators@;
        let keys: Vec<GroupId> = self.indicators.keys();
        let mut cleared: Vec<GroupId> = Vec::new();
        let mut i: usize = 0;
        while i < keys.len()
            invariant
                i <= keys@.len(),
                keys@.no_duplicates(),
                forall|g: GroupId| #[trigger] keys@.contains(g) <==> before.contains_key(g),
                *self == (StackLine { indicators: self.indicators, ..*old(self) }),
                forall|g: GroupId| #[trigger]
                    self.indicators@.contains_key(g) <==> before.contains_key(g) && (
                    indicator_stays(before[g], g, active@, space, groups@, changed)
                        || !keys@.take(i as int).contains(g)),
                forall|g: GroupId| #[trigger]
                    self.indicators@.contains_key(g) ==> self.indicators@[g] == before[g],
                forall|g: GroupId| #[trigger]
                    cleared@.contains(g) <==> before.contains_key(g)
                        && !self.indicators@.contains_key(g),
            decreases keys@.len() - i,
        {
            let key: GroupId = keys[i];
            proof {
                lemma_take_contains(keys@, i as int);
                assert(keys@.contains(key));
            }
            let stays: bool = match self.indicators.get(key) {
                Some(indicator) => match indicator.space {
                    None => true,
                    Some(s) => space_in(active, s) && (!(s == space && changed) || group_in(
                        groups,
                        key,
                    )),
                },
                None => true,
            };
            let ghost cleared_before = cleared@;
            if !stays {
                let _ = self.indicators.remove(key);
                cleared.push(key);
                assert forall|g: GroupId| #[trigger] cleared@.contains(g) <==> (
                cleared_before.contains(g) || g == key) by {
                    if cleared_before.contains(g) {
                        let k = choose|k: int|
                            0 <= k < cleared_before.len() && cleared_before[k] == g;
                        assert(cleared@[k] == g);
                    }
                    assert(cleared@[cleared_before.len() as int] == key);
                }
            }
            i += 1;
        }
        assert(keys@.take(i as int) =~= keys@);
        cleared
    }

    /// Takes up a stack that is shown: gives the kind of its indicator and
    /// whether there is one to update. A container that is no stack gets none.
    pub fn show_group(&self, group: &GroupInfo) -> (r: Option<(GroupKind, bool)>)
        ensures
            r == match group.container_kind {
                LayoutKind::HorizontalStack => Some(
                    (GroupKind::Horizontal, self.indicators@.contains_key(group.group_id)),
                ),
                LayoutKind::VerticalStack => Some(
                    (GroupKind::Vertical, self.indicators@.contains_key(group.group_id)),
                ),
                _ => None,
            },
    {
        let kind: GroupKind = match group.container_kind {
            LayoutKind::HorizontalStack => GroupKind::Horizontal,
            LayoutKind::VerticalStack => GroupKind::Vertical,
            _ => {
                return None;
            },
        };
        Some((kind, self.indicators.contains_key(group.group_id)))
    }

    /// Notes an indicator that was created or updated.
    pub fn indicator_shown(&mut self, group: &GroupInfo)
        ensures
            *final(self) == (StackLine { indicators: final(self).indicators, ..*old(self) }),
            final(self).indicators@.contains_key(group.group_id),
            final(self).indicators@[group.group_id].space == Some(group.space_id),
            final(self).indicators@[group.group_id].window_ids@ == group.window_ids@,
            final(self).indicators@.remove(group.group_id) == old(self).indicators@.remove(
                group.group_id,
            ),
    {
        let indicator = Indicator {
            space: Some(group.space_id),
            window_ids: copy_list(&group.window_ids),
        };
        let _ = self.indicators.insert(group.group_id, indicator);
        assert(self.indicators@.remove(group.group_id) =~= old(self).indicators@.remove(
            group.group_id,
        ));
    }

    /// Takes a new setting: gives the indicators to clear if the feature was
    /// switched off, and whether the others are to be redrawn.
    pub fn handle_config_updated(&mut self, enabled: bool) -> (r: (Vec<GroupId>, bool))
        ensures
            final(self).enabled == enabled,
            final(self).cursor_over_indicator == old(self).cursor_over_indicator,
            r.1 == enabled,
            if old(self).enabled && !enabled {
                &&& r.0@ == old(self).indicators.order()
                &&& final(self).indicators@ == Map::<GroupId, Indicator>::empty()
                &&& final(self).group_sigs_by_space@ == Map::<SpaceId, Vec<GroupSig>>::empty()
            } else {
                &&& r.0@ == Seq::<GroupId>::empty()
                &&& final(self).indicators == old(self).indicators
                &&& final(self).group_sigs_by_space == old(self).group_sigs_by_space
            },
    {
        let old_enabled: bool = self.enabled;
        self.enabled = enabled;
        if old_enabled && !enabled {
            let cleared: Vec<GroupId> = self.clear_all();
            return (cleared, false);
        }
        (Vec::new(), enabled)
    }

    /// Forgets all indicators; gives those to clear. This is also what a
    /// snapshot without a shown space leads to.
    pub fn clear_all(&mut self) -> (r: Vec<GroupId>)
        ensures
            r@ == old(self).indicators.order(),
            final(self).indicators@ == Map::<GroupId, Indicator>::empty(),
            final(self).group_sigs_by_space@ == Map::<SpaceId, Vec<GroupSig>>::empty(),
            final(self).enabled == old(self).enabled,
            final(self).cursor_over_indicator == old(self).cursor_over_indicator,
    {
        let cleared: Vec<GroupId> = self.indicators.keys();
        self.indicators.clear();
        self.group_sigs_by_space.clear();
        cleared
    }

    /// The cursor to show, if it changes: a pointing hand over an indicator.
    pub fn handle_mouse_moved(&mut self, hits_indicator: bool) -> (r: Option<bool>)
        ensures
            *final(self) == (StackLine {
                cursor_over_indicator: old(self).enabled && hits_indicator,
                ..*old(self)
            }),
            r == if (old(self).enabled && hits_indicator) != old(self).cursor_over_indicator {
                Some(old(self).enabled && hits_indicator)
            } else {
                None
            },
    {
        let over_indicator: bool = self.enabled && hits_indicator;
        if over_indicator != self.cursor_over_indicator {
            self.cursor_over_indicator = over_indicator;
            return Some(over_indicator);
        }
        None
    }

    /// What a click on a segment of an indicator means: its window is focused.
    pub open spec fn click_event(&self, group_id: GroupId, segment_index: usize) -> Option<
        ReactorEvent,
    > {
        if self.indicators@.contains_key(group_id) && segment_index
            < self.indicators@[group_id].window_ids@.len() {
            Some(
                ReactorEvent::Command(
                    Command::Reactor(
                        ReactorCommand::FocusWindow {
                            window_id: self.indicators@[group_id].window_ids@[segment_index as int],
                            window_server_id: None,
                        },
                    ),
                ),
            )
        } else {
            None
        }
    }

    /// The event for a click on a segment of an indicator.
    pub fn handle_indicator_clicked(&self, group_id: GroupId, segment_index: usize) -> (r: Option<
        ReactorEvent,
    >)
        ensures
            r == self.click_event(group_id, segment_index),
    {
        match self.indicators.get(group_id) {
            Some(indicator) => {
                if segment_index < indicator.window_ids.len() {
                    Some(
                        ReactorEvent::Command(
                            Command::Reactor(
                                ReactorCommand::FocusWindow {
                                    window_id: indicator.window_ids[segment_index],
                                    window_server_id: None,
                                },
                            ),
                        ),
                    )
                } else {
                    None
                }
            },
            None => None,
        }
    }
}

proof fn lemma_take_contains<A>(s: Seq<A>, i: int)
    requires
        0 <= i < s.len(),
    ensures
        forall|x: A| #[trigger] s.take(i + 1).contains(x) <==> s.take(i).contains(x) || x == s[i],
{
    assert forall|x: A| #[trigger] s.take(i + 1).contains(x) <==> s.take(i).contains(x) || x
        == s[i] by {
        if s.take(i + 1).contains(x) {
            let longer = s.take(i + 1);
            let k = choose|k: int| 0 <= k < longer.len() && longer[k] == x;
            if k < i {
                assert(s.take(i)[k] == x);
            }
        }
        if s.take(i).contains(x) {
            let k = choose|k: int| 0 <= k < i && s.take(i)[k] == x;
            assert(s.take(i + 1)[k] == x);
        }
        assert(s.take(i + 1)[i] == s[i]);
    }
}

/// The same stacks twice in a row change nothing, so no indicator is redrawn.
pub proof fn law_unchanged_stacks_are_not_redrawn(
    line: StackLine,
    active: Seq<SpaceId>,
    space: SpaceId,
    groups: Seq<GroupInfo>,
    seen: Seq<GroupSig>,
    again: Seq<GroupSig>,
)
    requires
        active.contains(space),
        line.group_sigs_by_space@.contains_key(space),
        line.group_sigs_by_space@[space]@ == seen,
        sigs_of(groups, seen),
        sigs_of(groups, again),
    ensures
        !stacks_changed(line, active, space, again),
{
    assert forall|i: int| 0 <= i < seen.len() implies same_sig(#[trigger] seen[i], again[i]) by {
        assert(sig_of(groups[i], again[i]));
    }
}

/// A stack is indicated if it has several windows and its selected one has a
/// frame: in the planned layout, or else where the window is.
pub proof fn law_indicated_stacks(s: CoreSnapshot, ws: CoreWorkspace, g: CoreGroup, i: int)
    requires
        g.selected < g.windows@.len(),
    ensures
        g.windows@.len() <= 1 ==> !indicated(s, ws, g),
        ws.layout_frames@.contains_key(g.windows@[g.selected as int]) ==> group_frame(s, ws, g)
            == Some(ws.layout_frames@[g.windows@[g.selected as int]]),
        g.windows@.len() > 1 && ws.layout_frames@.contains_key(g.windows@[g.selected as int])
            ==> indicated(s, ws, g),
        !ws.layout_frames@.contains_key(g.windows@[g.selected as int]) && 0 <= i < s.windows@.len()
            && s.windows@[i].id == g.windows@[g.selected as int] && (forall|j: int|
            0 <= j < i ==> (#[trigger] s.windows@[j]).id != g.windows@[g.selected as int])
            ==> group_frame(s, ws, g) == Some(s.windows@[i].frame),
{
    let id = g.windows@[g.selected as int];
    let pred = |w: CoreWindow| w.id == id;
    if 0 <= i < s.windows@.len() && s.windows@[i].id == id && (forall|j: int|
        0 <= j < i ==> (#[trigger] s.windows@[j]).id != id) {
        assert forall|j: int| 0 <= j < i implies !pred(#[trigger] s.windows@[j]) by {}
        lemma_first_index(s.windows@, pred, i);
        assert(window_by_id(s, id) == first_match(s.windows@, pred));
    }
}

/// Each indicated stack of a workspace is projected, once and in order.
pub proof fn law_every_indicated_stack_is_projected(
    s: CoreSnapshot,
    ws: CoreWorkspace,
    n: int,
    k: int,
)
    ensures
        indicated_groups(s, ws, n).contains(k) <==> 0 <= k < n && indicated(s, ws, ws.groups@[k]),
        forall|a: int, b: int|
            0 <= a < b < indicated_groups(s, ws, n).len() ==> #[trigger] indicated_groups(s, ws, n)[a]
                < #[trigger] indicated_groups(s, ws, n)[b],
    decreases n,
{
    if n > 0 {
        law_every_indicated_stack_is_projected(s, ws, n - 1, k);
        let rest = indicated_groups(s, ws, n - 1);
        let all = indicated_groups(s, ws, n);
        lemma_indicated_below(s, ws, n - 1);
        if rest.contains(k) {
            let j = rest.index_of(k);
            assert(all[j] == k);
        }
        if all.contains(k) && !rest.contains(k) {
            let j = all.index_of(k);
            if j < rest.len() {
                assert(rest[j] == k);
            }
        }
        if k == n - 1 && indicated(s, ws, ws.groups@[k]) {
            assert(all.last() == k);
        }
        assert forall|a: int, b: int| 0 <= a < b < all.len() implies #[trigger] all[a]
            < #[trigger] all[b] by {
            assert(all[a] == rest[a]);
            if b < rest.len() {
                assert(all[b] == rest[b]);
            }
        }
    }
}

proof fn lemma_indicated_below(s: CoreSnapshot, ws: CoreWorkspace, n: int)
    ensures
        forall|a: int|
            0 <= a < indicated_groups(s, ws, n).len() ==> 0 <= #[trigger] indicated_groups(
                s,
                ws,
                n,
            )[a] < n,
    decreases n,
{
    if n > 0 {
        lemma_indicated_below(s, ws, n - 1);
        let rest = indicated_groups(s, ws, n - 1);
        let all = indicated_groups(s, ws, n);
        assert forall|a: int| 0 <= a < all.len() implies 0 <= #[trigger] all[a] < n by {
            if a < rest.len() {
                assert(all[a] == rest[a]);
            }
        }
    }
}

/// An indicator shows its stack: which way it runs, how many windows it has,
/// which one is selected, and where it is.
pub proof fn law_indicator_shows_its_stack(
    s: CoreSnapshot,
    ws: CoreWorkspace,
    space: SpaceId,
    g: CoreGroup,
    info: GroupInfo,
)
    requires
        describes(s, ws, space, g, info),
    ensures
        info.group_id == g.id,
        info.space_id == space,
        g.axis is Horizontal <==> info.container_kind == LayoutKind::HorizontalStack,
        g.axis is Vertical <==> info.container_kind == LayoutKind::VerticalStack,
        info.total_count == g.windows@.len(),
        info.selected_index == g.selected,
        info.window_ids@ == g.windows@,
{
}

/// An indicator goes when its space is not shown any more, or when the stacks
/// of its own space have changed and its stack is not among them.
pub proof fn law_indicators_go_with_their_stack(
    indicator: Indicator,
    id: GroupId,
    active: Seq<SpaceId>,
    space: SpaceId,
    own: SpaceId,
    groups: Seq<GroupInfo>,
    changed: bool,
)
    requires
        indicator.space == Some(own),
    ensures
        !active.contains(own) ==> !indicator_stays(indicator, id, active, space, groups, changed),
        active.contains(own) && own != space ==> indicator_stays(
            indicator,
            id,
            active,
            space,
            groups,
            changed,
        ),
        active.contains(own) && !changed ==> indicator_stays(
            indicator,
            id,
            active,
            space,
            groups,
            changed,
        ),
        active.contains(own) && own == space && changed ==> (indicator_stays(
            indicator,
            id,
            active,
            space,
            groups,
            changed,
        ) <==> exists|i: int| 0 <= i < groups.len() && (#[trigger] groups[i]).group_id == id),
{
}

/// A click means the segment of the first visible indicator that it hits.
pub proof fn law_click_means_the_first_visible_segment(
    hits: Seq<IndicatorHit>,
    i: int,
    segment: usize,
)
    ensures
        0 <= i < hits.len() && hits[i].is_visible && hits[i].is_hit && hits[i].segment == Some(
            segment,
        ) && (forall|j: int|
            0 <= j < i ==> !(#[trigger] hits[j]).is_visible || !hits[j].is_hit || hits[j].segment
                is None) ==> clicked_segment(hits) == Some((hits[i].group_id, segment)),
        (forall|j: int|
            0 <= j < hits.len() ==> !(#[trigger] hits[j]).is_visible || !hits[j].is_hit
                || hits[j].segment is None) ==> clicked_segment(hits) is None,
    decreases hits.len(),
{
    if hits.len() > 0 {
        let rest = hits.drop_first();
        law_click_means_the_first_visible_segment(rest, i - 1, segment);
        if 0 < i < hits.len() {
            assert(rest[i - 1] == hits[i]);
            if forall|j: int|
                0 <= j < i ==> !(#[trigger] hits[j]).is_visible || !hits[j].is_hit
                    || hits[j].segment is None {
                assert(!hits[0].is_visible || !hits[0].is_hit || hits[0].segment is None);
                assert forall|j: int| 0 <= j < i - 1 implies !(#[trigger] rest[j]).is_visible
                    || !rest[j].is_hit || rest[j].segment is None by {
                    assert(rest[j] == hits[j + 1]);
                }
            }
        }
        if forall|j: int|
            0 <= j < hits.len() ==> !(#[trigger] hits[j]).is_visible || !hits[j].is_hit
                || hits[j].segment is None {
            assert(!hits[0].is_visible || !hits[0].is_hit || hits[0].segment is None);
            assert forall|j: int| 0 <= j < rest.len() implies !(#[trigger] rest[j]).is_visible
                || !rest[j].is_hit || rest[j].segment is None by {
                assert(rest[j] == hits[j + 1]);
            }
        }
    }
}

/// A click on a segment focuses the window that the segment stands for.
pub proof fn law_click_focuses_the_segments_window(line: StackLine, group: GroupId, segment: usize)
    ensures
        line.indicators@.contains_key(group) && segment < line.indicators@[group].window_ids@.len()
            ==> line.click_event(group, segment) == Some(
            ReactorEvent::Command(
                Command::Reactor(
                    ReactorCommand::FocusWindow {
                        window_id: line.indicators@[group].window_ids@[segment as int],
                        window_server_id: None,
                    },
                ),
            ),
        ),
        !line.indicators@.contains_key(group) || segment
            >= line.indicators@[group].window_ids@.len() ==> line.click_event(group, segment)
            is None,
{
}

/// Stacks are drawn again once one of them differs in anything that shows, by
/// half a point at least.
pub proof fn law_changed_stacks_are_redrawn(
    line: StackLine,
    active: Seq<SpaceId>,
    space: SpaceId,
    groups: Seq<GroupInfo>,
    sigs: Seq<GroupSig>,
    i: int,
)
    requires
        sigs_of(groups, sigs),
    ensures
        !active.contains(space) || !line.group_sigs_by_space@.contains_key(space) ==> stacks_changed(
            line,
            active,
            space,
            sigs,
        ),
        line.group_sigs_by_space@.contains_key(space) && line.group_sigs_by_space@[space]@.len()
            != groups.len() ==> stacks_changed(line, active, space, sigs),
        line.group_sigs_by_space@.contains_key(space) && 0 <= i < groups.len() && i
            < line.group_sigs_by_space@[space]@.len() && (
        line.group_sigs_by_space@[space]@[i].selected_index != groups[i].selected_index
            || line.group_sigs_by_space@[space]@[i].group_id != groups[i].group_id
            || line.group_sigs_by_space@[space]@[i].total != groups[i].total_count
            || line.group_sigs_by_space@[space]@[i].window_ids@ != groups[i].window_ids@
            || line.group_sigs_by_space@[space]@[i].x_q2 != quantized(groups[i].frame.origin.x))
            ==> stacks_changed(line, active, space, sigs),
{
    if 0 <= i < groups.len() {
        assert(sig_of(groups[i], sigs[i]));
        if line.group_sigs_by_space@.contains_key(space) && i
            < line.group_sigs_by_space@[space]@.len() && same_sigs(
            line.group_sigs_by_space@[space]@,
            sigs,
        ) {
            assert(same_sig(line.group_sigs_by_space@[space]@[i], sigs[i]));
        }
    }
}

/// A coordinate in half points is the nearest one.
pub proof fn law_half_points_are_nearest(v: i64)
    ensures
        -64 <= quantized(v) * 128 - v <= 64,
{
}

/// The spaces shown are those that displays have.
pub proof fn law_shown_spaces_are_those_of_displays(displays: Seq<CoreDisplay>, space: SpaceId)
    ensures
        spaces_shown(displays).contains(space) <==> exists|i: int|
            0 <= i < displays.len() && (#[trigger] displays[i]).space == Some(space),
    decreases displays.len(),
{
    if displays.len() > 0 {
        let rest = displays.drop_last();
        law_shown_spaces_are_those_of_displays(rest, space);
        let a = spaces_shown(rest);
        let b = spaces_shown(displays);
        if a.contains(space) {
            let k = a.index_of(space);
            assert(b[k] == space);
            let i = choose|i: int| 0 <= i < rest.len() && (#[trigger] rest[i]).space == Some(space);
            assert(displays[i] == rest[i]);
        }
        if b.contains(space) && !a.contains(space) {
            let k = b.index_of(space);
            if k < a.len() {
                assert(a[k] == space);
            }
            assert(displays[displays.len() - 1].space == Some(space));
        }
        if exists|i: int| 0 <= i < displays.len() && (#[trigger] displays[i]).space == Some(space) {
            let i = choose|i: int|
                0 <= i < displays.len() && (#[trigger] displays[i]).space == Some(space);
            if i < rest.len() {
                assert(rest[i] == displays[i]);
            } else {
                assert(b.last() == space);
            }
        }
    }
}

/// The windows and workspaces of a snapshot are found by their ids, each by
/// its first entry.
pub proof fn law_entries_are_found_by_id(s: CoreSnapshot, i: int)
    ensures
        0 <= i < s.windows@.len() && (forall|j: int|
            0 <= j < i ==> (#[trigger] s.windows@[j]).id != s.windows@[i].id) ==> window_by_id(
            s,
            s.windows@[i].id,
        ) == Some(s.windows@[i]),
        0 <= i < s.workspaces@.len() && (forall|j: int|
            0 <= j < i ==> (#[trigger] s.workspaces@[j]).id != s.workspaces@[i].id)
            ==> workspace_by_id(s, s.workspaces@[i].id) == Some(s.workspaces@[i]),
{
    if 0 <= i < s.windows@.len() && (forall|j: int|
        0 <= j < i ==> (#[trigger] s.windows@[j]).id != s.windows@[i].id) {
        let pred = |w: CoreWindow| w.id == s.windows@[i].id;
        assert forall|j: int| 0 <= j < i implies !pred(#[trigger] s.windows@[j]) by {}
        lemma_first_index(s.windows@, pred, i);
    }
    if 0 <= i < s.workspaces@.len() && (forall|j: int|
        0 <= j < i ==> (#[trigger] s.workspaces@[j]).id != s.workspaces@[i].id) {
        let pred = |w: CoreWorkspace| w.id == s.workspaces@[i].id;
        assert forall|j: int| 0 <= j < i implies !pred(#[trigger] s.workspaces@[j]) by {}
        lemma_first_index(s.workspaces@, pred, i);
    }
}

} // verus!
