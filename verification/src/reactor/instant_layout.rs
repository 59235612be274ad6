//! Giving windows their frames at once, and going through a whole layout.

use vstd::prelude::*;

use crate::app::{Request, WindowId};
use crate::collections::copy_list;
use crate::geometry::Rect;
use crate::ids::{pid_t, SpaceId, TransactionId, WindowServerId};
use crate::model::{CoreError, Transition};
use crate::reactor::layout::{
    frames_in_range, is_settled, number_after, only_frames_changed, record_in, DisplayLayout,
    SpaceLayout,
};
use crate::reactor::managers::{DragManager, WindowState};
use crate::reactor::task::{no_tasks, one_task, Message, Question, Task, Work};
use crate::reactor::transactions::{TransactionManager, WriteRecord};
use crate::reactor::transition::{core_after, reply_in_range};
use crate::reactor::{Reactor, Turn};

verus! {

/// The windows that a layout moves, and where to.
#[verifier::ext_equal]
pub struct MoveModel {
    pub windows: Map<WindowId, WindowState>,
    pub moved: Seq<(WindowId, Rect)>,
}

/// One window of a layout: it gets its frame, unless it is dragged, gone,
/// there already or on its way.
pub open spec fn move_step(
    m: MoveModel,
    records: Map<WindowServerId, WriteRecord>,
    wid: WindowId,
    frame: Rect,
    skip: Option<WindowId>,
) -> MoveModel {
    let target = frame.rounded();
    if skip == Some(wid) || !m.windows.contains_key(wid) || is_settled(
        m.windows[wid],
        target,
        records,
    ) {
        m
    } else {
        MoveModel {
            windows: m.windows.insert(
                wid,
                WindowState { frame_monotonic: target, ..m.windows[wid] },
            ),
            moved: m.moved.push((wid, target)),
        }
    }
}

pub open spec fn move_pass(
    m: MoveModel,
    records: Map<WindowServerId, WriteRecord>,
    frames: Seq<(WindowId, Rect)>,
    skip: Option<WindowId>,
) -> MoveModel
    decreases frames.len(),
{
    if frames.len() == 0 {
        m
    } else {
        move_step(
            move_pass(m, records, frames.drop_last(), skip),
            records,
            frames.last().0,
            frames.last().1,
            skip,
        )
    }
}

/// The applications of moved windows, in the order in which they come.
pub open spec fn apps_moved(moved: Seq<(WindowId, Rect)>) -> Seq<pid_t>
    decreases moved.len(),
{
    if moved.len() == 0 {
        Seq::empty()
    } else {
        let rest = apps_moved(moved.drop_last());
        if rest.contains(moved.last().0.pid) {
            rest
        } else {
            rest.push(moved.last().0.pid)
        }
    }
}

/// The moved windows of an application.
pub open spec fn batch_of(moved: Seq<(WindowId, Rect)>, pid: pid_t) -> Seq<(WindowId, Rect)>
    decreases moved.len(),
{
    if moved.len() == 0 {
        Seq::empty()
    } else {
        let rest = batch_of(moved.drop_last(), pid);
        if moved.last().0.pid == pid {
            rest.push(moved.last())
        } else {
            rest
        }
    }
}

/// The number under which a window stands with the window server.
pub open spec fn number_of(windows: Map<WindowId, WindowState>, wid: WindowId) -> Option<
    WindowServerId,
> {
    if windows.contains_key(wid) {
        windows[wid].sys_id
    } else {
        None
    }
}

/// The writes under way once a batch has been written with one number.
pub open spec fn stamped(
    records: Map<WindowServerId, WriteRecord>,
    windows: Map<WindowId, WindowState>,
    batch: Seq<(WindowId, Rect)>,
    txid: TransactionId,
) -> Map<WindowServerId, WriteRecord>
    decreases batch.len(),
{
    if batch.len() == 0 {
        records
    } else {
        let rest = stamped(records, windows, batch.drop_last(), txid);
        match number_of(windows, batch.last().0) {
            Some(wsid) => rest.insert(
                wsid,
                WriteRecord { last_sent: txid, target: Some(batch.last().1) },
            ),
            None => rest,
        }
    }
}

/// The number of a batch: the next one of its first window.
pub open spec fn batch_number(
    records: Map<WindowServerId, WriteRecord>,
    windows: Map<WindowId, WindowState>,
    batch: Seq<(WindowId, Rect)>,
) -> Option<TransactionId> {
    if batch.len() == 0 {
        None
    } else {
        match number_of(windows, batch[0].0) {
            Some(wsid) => Some(number_after(record_in(records, wsid).last_sent)),
            None => None,
        }
    }
}

/// The writes under way once the batches of some applications were written.
pub open spec fn batches_written(
    reactor: Reactor,
    records: Map<WindowServerId, WriteRecord>,
    windows: Map<WindowId, WindowState>,
    moved: Seq<(WindowId, Rect)>,
    pids: Seq<pid_t>,
) -> Map<WindowServerId, WriteRecord>
    decreases pids.len(),
{
    if pids.len() == 0 {
        records
    } else {
        let rest = batches_written(reactor, records, windows, moved, pids.drop_last());
        let batch = batch_of(moved, pids.last());
        if reactor.app_manager.apps@.contains_key(pids.last()) {
            match batch_number(rest, windows, batch) {
                Some(txid) => stamped(rest, windows, batch, txid),
                None => rest,
            }
        } else {
            rest
        }
    }
}

/// The number that a batch is sent with: none is zero.
pub open spec fn sent_number(number: Option<TransactionId>) -> TransactionId {
    match number {
        Some(txid) => txid,
        None => TransactionId(0),
    }
}

/// Whether a task sends a batch to an application.
pub open spec fn sends_batch(
    task: Task,
    pid: pid_t,
    batch: Seq<(WindowId, Rect)>,
    txid: TransactionId,
) -> bool {
    task matches Task::Tell(Message::App(p, Request::SetBatchWindowFrame(frames, t, eui))) && p
        == pid && frames@ == batch && t == txid && eui
}

/// Whether tasks send the batches of some applications, one each for those
/// that are known.
pub open spec fn sends_batches(
    tasks: Seq<Task>,
    reactor: Reactor,
    records: Map<WindowServerId, WriteRecord>,
    windows: Map<WindowId, WindowState>,
    moved: Seq<(WindowId, Rect)>,
    pids: Seq<pid_t>,
) -> bool
    decreases pids.len(),
{
    if pids.len() == 0 {
        tasks.len() == 0
    } else if reactor.app_manager.apps@.contains_key(pids.last()) {
        let batch = batch_of(moved, pids.last());
        let before = batches_written(reactor, records, windows, moved, pids.drop_last());
        &&& tasks.len() > 0
        &&& sends_batch(
            tasks.last(),
            pids.last(),
            batch,
            sent_number(batch_number(before, windows, batch)),
        )
        &&& sends_batches(
            tasks.drop_last(),
            reactor,
            records,
            windows,
            moved,
            pids.drop_last(),
        )
    } else {
        sends_batches(tasks, reactor, records, windows, moved, pids.drop_last())
    }
}

fn find_apps_moved(moved: &Vec<(WindowId, Rect)>) -> (r: Vec<pid_t>)
    ensures
        r@ == apps_moved(moved@),
{
    let mut r: Vec<pid_t> = Vec::new();
    let mut i: usize = 0;
    while i < moved.len()
        invariant
            i <= moved@.len(),
            r@ == apps_moved(moved@.take(i as int)),
        decreases moved@.len() - i,
    {
        assert(moved@.take(i + 1).drop_last() =~= moved@.take(i as int));
        let pid: pid_t = moved[i].0.pid;
        if !contains_pid(&r, pid) {
            r.push(pid);
        }
        i += 1;
    }
    assert(moved@.take(i as int) =~= moved@);
    r
}

fn contains_pid(pids: &Vec<pid_t>, pid: pid_t) -> (r: bool)
    ensures
        r == pids@.contains(pid),
{
    let mut i: usize = 0;
    while i < pids.len()
        invariant
            i <= pids@.len(),
            forall|j: int| 0 <= j < i ==> #[trigger] pids@[j] != pid,
        decreases pids@.len() - i,
    {
        if pids[i] == pid {
            return true;
        }
        i += 1;
    }
    false
}

fn find_batch(moved: &Vec<(WindowId, Rect)>, pid: pid_t) -> (r: Vec<(WindowId, Rect)>)
    requires
        targets_in_range(moved@),
    ensures
        r@ == batch_of(moved@, pid),
        targets_in_range(r@),
{
    let mut r: Vec<(WindowId, Rect)> = Vec::new();
    let mut i: usize = 0;
    while i < moved.len()
        invariant
            i <= moved@.len(),
            targets_in_range(moved@),
            targets_in_range(r@),
            r@ == batch_of(moved@.take(i as int), pid),
        decreases moved@.len() - i,
    {
        assert(moved@.take(i + 1).drop_last() =~= moved@.take(i as int));
        if moved[i].0.pid == pid {
            r.push(moved[i]);
        }
        i += 1;
    }
    assert(moved@.take(i as int) =~= moved@);
    r
}

impl Reactor {
    fn move_one(
        &mut self,
        moved: &mut Vec<(WindowId, Rect)>,
        wid: WindowId,
        frame: Rect,
        skip: Option<WindowId>,
    )
        requires
            old(self).wf(),
            frame.can_round(),
            targets_in_range(old(moved)@),
        ensures
            final(self).wf(),
            targets_in_range(final(moved)@),
            only_frames_changed(*old(self), *final(self)),
            final(self).transaction_manager == old(self).transaction_manager,
            (MoveModel {
                windows: final(self).window_manager.windows@,
                moved: final(moved)@,
            }) == move_step(
                MoveModel { windows: old(self).window_manager.windows@, moved: old(moved)@ },
                old(self).transaction_manager.records@,
                wid,
                frame,
                skip,
            ),
    {
        if let Some(skipped) = skip {
            if skipped == wid {
                return;
            }
        }
        let w: WindowState = match self.window_manager.window(wid) {
            Some(w) => w,
            None => {
                return;
            },
        };
        let target: Rect = frame.round();
        if target.same_as(&w.frame_monotonic) {
            return;
        }
        if let Some(wsid) = w.sys_id {
            if let Some(pending) = self.transaction_manager.get_target_frame(wsid) {
                if pending.same_as(&target) {
                    return;
                }
            }
        }
        moved.push((wid, target));
        self.window_manager.set_window(wid, WindowState { frame_monotonic: target, ..w });
    }

    /// Numbers the write of a batch.
    fn stamp_batch(&mut self, batch: &Vec<(WindowId, Rect)>) -> (r: TransactionId)
        requires
            old(self).wf(),
            targets_in_range(batch@),
        ensures
            final(self).wf(),
            *final(self) == (Reactor {
                transaction_manager: final(self).transaction_manager,
                ..*old(self)
            }),
            ({
                let records = old(self).transaction_manager.records@;
                let windows = old(self).window_manager.windows@;
                let number = batch_number(records, windows, batch@);
                &&& r == sent_number(number)
                &&& final(self).transaction_manager.records@ == match number {
                    Some(txid) => stamped(records, windows, batch@, txid),
                    None => records,
                }
            }),
    {
        if batch.len() == 0 {
            return TransactionId(0);
        }
        let first: WindowServerId = match self.window_server_id(batch[0].0) {
            Some(wsid) => wsid,
            None => {
                return TransactionId(0);
            },
        };
        let ghost records = self.transaction_manager.records@;
        let ghost windows = self.window_manager.windows@;
        let txid: TransactionId = self.next_txid_of(first);
        let mut i: usize = 0;
        while i < batch.len()
            invariant
                i <= batch@.len(),
                self.wf(),
                targets_in_range(batch@),
                windows == self.window_manager.windows@,
                *self == (Reactor {
                    transaction_manager: self.transaction_manager,
                    ..*old(self)
                }),
                self.transaction_manager.records@ == stamped(
                    records,
                    windows,
                    batch@.take(i as int),
                    txid,
                ),
            decreases batch@.len() - i,
        {
            assert(batch@.take(i + 1).drop_last() =~= batch@.take(i as int));
            let (wid, frame): (WindowId, Rect) = batch[i];
            assert(frame == batch@[i as int].1);
            if let Some(wsid) = self.window_server_id(wid) {
                let ghost before = self.transaction_manager;
                self.transaction_manager.store_txid(wsid, txid, frame);
                proof {
                    lemma_store(before, self.transaction_manager, wsid, txid, frame);
                }
            }
            i += 1;
        }
        assert(batch@.take(i as int) =~= batch@);
        txid
    }

    /// The number of the next write to a window.
    fn next_txid_of(&self, wsid: WindowServerId) -> (r: TransactionId)
        ensures
            r == number_after(record_in(self.transaction_manager.records@, wsid).last_sent),
    {
        let last: TransactionId = self.transaction_manager.get_last_sent_txid(wsid);
        if last.0 == u32::MAX {
            TransactionId(1)
        } else {
            TransactionId(last.0 + 1)
        }
    }

    /// Gives the windows of a layout their frames at once, in one request per
    /// application.
    pub fn instant_layout(
        &mut self,
        frames: &Vec<(WindowId, Rect)>,
        skip_wid: Option<WindowId>,
    ) -> (r: (bool, Vec<Task>))
        requires
            old(self).wf(),
            frames_in_range(frames@),
        ensures
            final(self).wf(),
            only_frames_changed(*old(self), *final(self)),
            ({
                let records = old(self).transaction_manager.records@;
                let m = move_pass(
                    MoveModel {
                        windows: old(self).window_manager.windows@,
                        moved: Seq::empty(),
                    },
                    records,
                    frames@,
                    skip_wid,
                );
                let pids = apps_moved(m.moved);
                &&& final(self).window_manager.windows@ == m.windows
                &&& final(self).transaction_manager.records@ == batches_written(
                    *old(self),
                    records,
                    m.windows,
                    m.moved,
                    pids,
                )
                &&& r.0 == (m.moved.len() > 0)
                &&& sends_batches(r.1@, *old(self), records, m.windows, m.moved, pids)
            }),
    {
        let ghost start = MoveModel {
            windows: self.window_manager.windows@,
            moved: Seq::empty(),
        };
        let ghost records = self.transaction_manager.records@;
        let mut moved: Vec<(WindowId, Rect)> = Vec::new();
        let mut i: usize = 0;
        assert((MoveModel { windows: self.window_manager.windows@, moved: moved@ }) =~= start);
        while i < frames.len()
            invariant
                i <= frames@.len(),
                self.wf(),
                frames_in_range(frames@),
                targets_in_range(moved@),
                only_frames_changed(*old(self), *self),
                self.transaction_manager == old(self).transaction_manager,
                records == old(self).transaction_manager.records@,
                (MoveModel { windows: self.window_manager.windows@, moved: moved@ }) == move_pass(
                    start,
                    records,
                    frames@.take(i as int),
                    skip_wid,
                ),
            decreases frames@.len() - i,
        {
            assert(frames@.take(i + 1).drop_last() =~= frames@.take(i as int));
            let (wid, frame): (WindowId, Rect) = frames[i];
            assert(frame == frames@[i as int].1);
            self.move_one(&mut moved, wid, frame, skip_wid);
            i += 1;
        }
        assert(frames@.take(i as int) =~= frames@);
        let ghost m = move_pass(start, records, frames@, skip_wid);
        let pids: Vec<pid_t> = find_apps_moved(&moved);
        let mut tasks: Vec<Task> = no_tasks();
        let mut k: usize = 0;
        while k < pids.len()
            invariant
                k <= pids@.len(),
                self.wf(),
                targets_in_range(moved@),
                moved@ == m.moved,
                only_frames_changed(*old(self), *self),
                self.window_manager.windows@ == m.windows,
                self.transaction_manager.records@ == batches_written(
                    *old(self),
                    records,
                    m.windows,
                    m.moved,
                    pids@.take(k as int),
                ),
                sends_batches(
                    tasks@,
                    *old(self),
                    records,
                    m.windows,
                    m.moved,
                    pids@.take(k as int),
                ),
            decreases pids@.len() - k,
        {
            assert(pids@.take(k + 1).drop_last() =~= pids@.take(k as int));
            let pid: pid_t = pids[k];
            if self.app_manager.apps.contains_key(pid) {
                let batch: Vec<(WindowId, Rect)> = find_batch(&moved, pid);
                let txid: TransactionId = self.stamp_batch(&batch);
                let ghost before = tasks@;
                tasks.push(
                    Task::Tell(Message::App(pid, Request::SetBatchWindowFrame(batch, txid, true))),
                );
                assert(tasks@.drop_last() =~= before);
            }
            k += 1;
        }
        assert(pids@.take(k as int) =~= pids@);
        (moved.len() > 0, tasks)
    }

    /// The layout of a display.
    pub open spec fn frames_on(displays: Seq<DisplayLayout>, uuid: Seq<char>) -> Seq<
        (WindowId, Rect),
    >
        decreases displays.len(),
    {
        if displays.len() == 0 {
            Seq::empty()
        } else if displays[0].display@ == uuid {
            displays[0].frames@
        } else {
            Self::frames_on(displays.drop_first(), uuid)
        }
    }

    /// Whether layouts are those of the managed spaces that screens show.
    pub open spec fn is_layout_of(
        &self,
        layouts: Seq<SpaceLayout>,
        displays: Seq<DisplayLayout>,
        n: int,
    ) -> bool
        decreases n,
    {
        if n <= 0 {
            layouts.len() == 0
        } else {
            let screen = self.space_manager.screens@[n - 1];
            match self.only_active(screen.space) {
                Some(space) => {
                    &&& layouts.len() > 0
                    &&& layouts.last().space == space
                    &&& layouts.last().frames@ == Self::frames_on(displays, screen.display_uuid@)
                    &&& self.is_layout_of(layouts.drop_last(), displays, n - 1)
                },
                None => self.is_layout_of(layouts, displays, n - 1),
            }
        }
    }

    fn copy_frames_on(displays: &Vec<DisplayLayout>, uuid: &String) -> (r: Vec<(WindowId, Rect)>)
        requires
            displays_in_range(displays@),
        ensures
            r@ == Self::frames_on(displays@, uuid@),
            frames_in_range(r@),
    {
        let mut i: usize = 0;
        assert(displays@.skip(0) =~= displays@);
        while i < displays.len()
            invariant
                i <= displays@.len(),
                displays_in_range(displays@),
                Self::frames_on(displays@, uuid@) == Self::frames_on(
                    displays@.skip(i as int),
                    uuid@,
                ),
            decreases displays@.len() - i,
        {
            assert(displays@.skip(i as int).drop_first() =~= displays@.skip(i + 1));
            if displays[i].display == *uuid {
                assert(displays@[i as int] == displays@.skip(i as int)[0]);
                return copy_list(&displays[i].frames);
            }
            i += 1;
        }
        Vec::new()
    }

    /// The layout of every managed space that a screen shows, once the
    /// workspace model has seen how the system looks. Without windows there is
    /// none; where the model refused to look, no window is laid out.
    pub fn calculate_layout(
        &mut self,
        reply: Result<Transition, CoreError>,
        displays: &Vec<DisplayLayout>,
    ) -> (r: Vec<SpaceLayout>)
        requires
            displays_in_range(displays@),
            reply_in_range(reply),
        ensures
            *final(self) == (Reactor { core: core_after(old(self).core, reply), ..*old(self) }),
            old(self).wf() ==> final(self).wf(),
            layouts_in_range(r@),
            if old(self).window_manager.windows@.dom().len() == 0 {
                r@.len() == 0
            } else {
                old(self).is_layout_of(
                    r@,
                    if reply is Ok {
                        displays@
                    } else {
                        Seq::empty()
                    },
                    old(self).space_manager.screens@.len() as int,
                )
            },
            reply is Err ==> forall|i: int|
                0 <= i < r@.len() ==> (#[trigger] r@[i]).frames@.len() == 0,
    {
        let observed: bool = reply.is_ok();
        let _ = self.core_replied(reply);
        if observed {
            let r: Vec<SpaceLayout> = self.layouts_of(displays);
            proof {
                lemma_same_layouts(
                    *old(self),
                    *self,
                    r@,
                    displays@,
                    self.space_manager.screens@.len() as int,
                );
            }
            r
        } else {
            let nothing: Vec<DisplayLayout> = Vec::new();
            let r: Vec<SpaceLayout> = self.layouts_of(&nothing);
            assert(nothing@ =~= Seq::empty());
            proof {
                lemma_same_layouts(
                    *old(self),
                    *self,
                    r@,
                    nothing@,
                    self.space_manager.screens@.len() as int,
                );
                if self.window_manager.windows@.dom().len() != 0 {
                    lemma_no_frames(*self, r@, self.space_manager.screens@.len() as int);
                }
            }
            r
        }
    }

    fn layouts_of(&self, displays: &Vec<DisplayLayout>) -> (r: Vec<SpaceLayout>)
        requires
            displays_in_range(displays@),
        ensures
            layouts_in_range(r@),
            if self.window_manager.windows@.dom().len() == 0 {
                r@.len() == 0
            } else {
                self.is_layout_of(r@, displays@, self.space_manager.screens@.len() as int)
            },
    {
        let mut r: Vec<SpaceLayout> = Vec::new();
        if self.window_manager.tracked_window_count() == 0 {
            return r;
        }
        let screens = &self.space_manager.screens;
        let mut i: usize = 0;
        while i < screens.len()
            invariant
                i <= screens@.len(),
                *screens == self.space_manager.screens,
                displays_in_range(displays@),
                layouts_in_range(r@),
                self.is_layout_of(r@, displays@, i as int),
            decreases screens@.len() - i,
        {
            let ghost before = r@;
            if let Some(space) = screens[i].space {
                if self.is_space_active(space) {
                    let frames: Vec<(WindowId, Rect)> = Self::copy_frames_on(
                        displays,
                        &screens[i].display_uuid,
                    );
                    r.push(SpaceLayout { space, frames });
                    assert(r@.drop_last() =~= before);
                }
            }
            i += 1;
        }
        r
    }

    /// The window that a layout leaves alone.
    pub open spec fn skipped_window(&self) -> Option<WindowId> {
        match self.drag_manager.skip_layout_for_window {
            Some(w) => Some(w),
            None => self.core.drag.window,
        }
    }

    /// Goes through the layouts of all spaces. During a switch of workspaces,
    /// or while one settles, windows go to their places at once.
    pub fn apply_layout(
        &mut self,
        layouts: Vec<SpaceLayout>,
        is_resize: bool,
        is_workspace_switch: bool,
    ) -> (r: Vec<Task>)
        ensures
            old(self).wf() ==> final(self).wf(),
            *final(self) == (Reactor {
                drag_manager: DragManager {
                    skip_layout_for_window: None,
                    ..old(self).drag_manager
                },
                turn: Turn { layout_changed: false, ..old(self).turn },
                ..*old(self)
            }),
            r@.len() == layouts@.len() + 1,
            r@.last() == Task::Tell(Message::MenuUpdate),
            forall|i: int|
                0 <= i < layouts@.len() ==> #[trigger] r@[i] == Task::Go(
                    Work::LayoutSpace {
                        space: layouts@[i].space,
                        frames: layouts@[i].frames,
                        is_resize,
                        instant: is_workspace_switch
                            || old(self).workspace_switch_manager.active_workspace_switch is Some,
                        skip: old(self).skipped_window(),
                    },
                ),
    {
        let skip: Option<WindowId> = match self.drag_manager.skip_layout_for_window {
            Some(w) => Some(w),
            None => self.core.drag.window,
        };
        self.drag_manager.skip_layout_for_window = None;
        self.turn.layout_changed = false;
        let instant: bool = is_workspace_switch
            || self.workspace_switch_manager.active_workspace_switch.is_some();
        let mut rest: Vec<SpaceLayout> = layouts;
        let mut backwards: Vec<Task> = one_task(Task::Tell(Message::MenuUpdate));
        while rest.len() > 0
            invariant
                rest@.len() <= layouts@.len(),
                rest@ == layouts@.take(rest@.len() as int),
                backwards@.len() == layouts@.len() - rest@.len() + 1,
                backwards@[0] == Task::Tell(Message::MenuUpdate),
                forall|j: int|
                    1 <= j < backwards@.len() ==> #[trigger] backwards@[j] == Task::Go(
                        Work::LayoutSpace {
                            space: layouts@[layouts@.len() - j].space,
                            frames: layouts@[layouts@.len() - j].frames,
                            is_resize,
                            instant,
                            skip,
                        },
                    ),
            decreases rest@.len(),
        {
            let ghost n = rest@.len() as int;
            if let Some(layout) = rest.pop() {
                assert(layout == layouts@[n - 1]);
                backwards.push(
                    Task::Go(
                        Work::LayoutSpace {
                            space: layout.space,
                            frames: layout.frames,
                            is_resize,
                            instant,
                            skip,
                        },
                    ),
                );
                assert(rest@ =~= layouts@.take(n - 1));
            }
        }
        reverse_tasks(backwards)
    }

    /// Gives the windows of a space their frames.
    pub fn layout_space(
        &mut self,
        space: SpaceId,
        frames: &Vec<(WindowId, Rect)>,
        is_resize: bool,
        instant: bool,
        skip: Option<WindowId>,
        low_power: bool,
    ) -> (r: Vec<Task>)
        requires
            old(self).wf(),
            frames_in_range(frames@),
        ensures
            final(self).wf(),
            exists|laid_out: Reactor, changed: bool|
                {
                    &&& #[trigger] is_laid_out(
                        *old(self),
                        laid_out,
                        space,
                        frames@,
                        is_resize,
                        instant,
                        skip,
                        low_power,
                        changed,
                        r@,
                    )
                    &&& *final(self) == (Reactor {
                        turn: Turn {
                            layout_changed: old(self).turn.layout_changed || changed,
                            ..old(self).turn
                        },
                        ..laid_out
                    })
                },
    {
        let (changed, tasks): (bool, Vec<Task>) = if instant {
            self.instant_layout(frames, skip)
        } else {
            self.animate_layout(space, frames, is_resize, skip, low_power)
        };
        let ghost laid_out = *self;
        assert(is_laid_out(
            *old(self),
            laid_out,
            space,
            frames@,
            is_resize,
            instant,
            skip,
            low_power,
            changed,
            tasks@,
        ));
        self.turn.layout_changed = self.turn.layout_changed || changed;
        tasks
    }
}

/// Whether the windows of a space got their frames, at once or on their way.
pub open spec fn is_laid_out(
    before: Reactor,
    after: Reactor,
    space: SpaceId,
    frames: Seq<(WindowId, Rect)>,
    is_resize: bool,
    instant: bool,
    skip: Option<WindowId>,
    low_power: bool,
    changed: bool,
    tasks: Seq<Task>,
) -> bool {
    &&& only_frames_changed(before, after)
    &&& if instant {
        let records = before.transaction_manager.records@;
        let m = move_pass(
            MoveModel { windows: before.window_manager.windows@, moved: Seq::empty() },
            records,
            frames,
            skip,
        );
        let pids = apps_moved(m.moved);
        &&& after.window_manager.windows@ == m.windows
        &&& after.transaction_manager.records@ == batches_written(
            before,
            records,
            m.windows,
            m.moved,
            pids,
        )
        &&& changed == (m.moved.len() > 0)
        &&& sends_batches(tasks, before, records, m.windows, m.moved, pids)
    } else {
        match before.shown_workspace(space) {
            Some(shown) => {
                let m = before.animate_pass(before.pass_start(), shown, frames, skip);
                &&& after.window_manager.windows@ == m.windows
                &&& after.transaction_manager.records@ == m.records
                &&& changed == m.changed
                &&& if m.animation.windows.len() > 0 {
                    &&& tasks.len() == m.sent.len() + 1
                    &&& tasks.drop_last() == m.sent
                    &&& tasks.last() matches Task::Tell(Message::Animate { animation, at_once })
                        && animation@ == m.animation && at_once == before.goes_at_once(
                        is_resize,
                        low_power,
                    )
                } else {
                    tasks == m.sent
                }
            },
            None => !changed && tasks.len() == 0 && after == before,
        }
    }
}

/// Lays windows out: the workspace model says where they go.
pub fn update_layout(is_resize: bool, is_workspace_switch: bool) -> (r: Vec<Task>)
    ensures
        r@ == seq![
            Task::Ask(Question::Layout, Work::ApplyLayout { is_resize, is_workspace_switch }),
        ],
{
    one_task(Task::Ask(Question::Layout, Work::ApplyLayout { is_resize, is_workspace_switch }))
}

/// What the workspace model says does not change which spaces are laid out.
proof fn lemma_same_layouts(
    before: Reactor,
    after: Reactor,
    layouts: Seq<SpaceLayout>,
    displays: Seq<DisplayLayout>,
    n: int,
)
    requires
        after == (Reactor { core: after.core, ..before }),
    ensures
        after.is_layout_of(layouts, displays, n) == before.is_layout_of(layouts, displays, n),
    decreases n,
{
    if n > 0 {
        lemma_same_layouts(before, after, layouts.drop_last(), displays, n - 1);
        lemma_same_layouts(before, after, layouts, displays, n - 1);
    }
}

/// Without layouts of displays no window is laid out.
proof fn lemma_no_frames(m: Reactor, layouts: Seq<SpaceLayout>, n: int)
    requires
        m.is_layout_of(layouts, Seq::empty(), n),
    ensures
        forall|i: int| 0 <= i < layouts.len() ==> (#[trigger] layouts[i]).frames@.len() == 0,
    decreases n,
{
    if n > 0 {
        if m.only_active(m.space_manager.screens@[n - 1].space) is Some {
            lemma_no_frames(m, layouts.drop_last(), n - 1);
            assert forall|i: int| 0 <= i < layouts.len() implies (
            #[trigger] layouts[i]).frames@.len() == 0 by {
                if i < layouts.len() - 1 {
                    assert(layouts.drop_last()[i] == layouts[i]);
                }
            }
        } else {
            lemma_no_frames(m, layouts, n - 1);
        }
    }
}

/// Frames that windows are given.
pub open spec fn targets_in_range(frames: Seq<(WindowId, Rect)>) -> bool {
    forall|i: int| 0 <= i < frames.len() ==> (#[trigger] frames[i]).1.in_range()
}

pub open spec fn displays_in_range(displays: Seq<DisplayLayout>) -> bool {
    forall|i: int| 0 <= i < displays.len() ==> frames_in_range((#[trigger] displays[i]).frames@)
}

pub open spec fn layouts_in_range(layouts: Seq<SpaceLayout>) -> bool {
    forall|i: int| 0 <= i < layouts.len() ==> frames_in_range((#[trigger] layouts[i]).frames@)
}

fn reverse_tasks(tasks: Vec<Task>) -> (r: Vec<Task>)
    ensures
        r@.len() == tasks@.len(),
        forall|i: int| 0 <= i < r@.len() ==> #[trigger] r@[i] == tasks@[tasks@.len() - 1 - i],
{
    let mut rest: Vec<Task> = tasks;
    let mut r: Vec<Task> = Vec::new();
    while rest.len() > 0
        invariant
            rest@.len() + r@.len() == tasks@.len(),
            rest@ == tasks@.take(rest@.len() as int),
            forall|i: int| 0 <= i < r@.len() ==> #[trigger] r@[i] == tasks@[tasks@.len() - 1 - i],
        decreases rest@.len(),
    {
        let ghost n = rest@.len() as int;
        if let Some(task) = rest.pop() {
            assert(task == tasks@[n - 1]);
            r.push(task);
            assert(rest@ =~= tasks@.take(n - 1));
        }
    }
    r
}

proof fn lemma_store(
    before: TransactionManager,
    after: TransactionManager,
    wsid: WindowServerId,
    txid: TransactionId,
    target: Rect,
)
    requires
        before.wf(),
        target.in_range(),
        after.records@ == before.records@.insert(
            wsid,
            WriteRecord { last_sent: txid, target: Some(target) },
        ),
    ensures
        after.wf(),
{
    assert forall|w: WindowServerId| true implies ((#[trigger] after.record(
        w,
    )).target matches Some(f) ==> f.in_range()) by {
        assert(before.record(w).target matches Some(f) ==> f.in_range());
    }
}

/// The window being dragged is left where it is by every layout.
pub proof fn law_dragged_window_is_left_alone(
    m: MoveModel,
    records: Map<WindowServerId, WriteRecord>,
    frames: Seq<(WindowId, Rect)>,
    wid: WindowId,
)
    requires
        m.windows.contains_key(wid),
    ensures
        move_pass(m, records, frames, Some(wid)).windows.contains_key(wid),
        move_pass(m, records, frames, Some(wid)).windows[wid] == m.windows[wid],
    decreases frames.len(),
{
    if frames.len() > 0 {
        law_dragged_window_is_left_alone(m, records, frames.drop_last(), wid);
    }
}

/// Whether no window is named twice.
pub open spec fn names_each_once(frames: Seq<(WindowId, Rect)>) -> bool {
    forall|i: int, j: int|
        0 <= i < j < frames.len() ==> (#[trigger] frames[i]).0 != (#[trigger] frames[j]).0
}

/// Whether a layout leaves a window as it is.
pub open spec fn left_as_it_is(
    windows: Map<WindowId, WindowState>,
    records: Map<WindowServerId, WriteRecord>,
    wid: WindowId,
    frame: Rect,
    skip: Option<WindowId>,
) -> bool {
    skip == Some(wid) || !windows.contains_key(wid) || is_settled(
        windows[wid],
        frame.rounded(),
        records,
    )
}

proof fn lemma_pass_settles(
    m: MoveModel,
    records: Map<WindowServerId, WriteRecord>,
    frames: Seq<(WindowId, Rect)>,
    skip: Option<WindowId>,
    i: int,
)
    requires
        names_each_once(frames),
        0 <= i < frames.len(),
    ensures
        left_as_it_is(
            move_pass(m, records, frames, skip).windows,
            records,
            frames[i].0,
            frames[i].1,
            skip,
        ),
    decreases frames.len(),
{
    let shorter = frames.drop_last();
    let before = move_pass(m, records, shorter, skip);
    if i < shorter.len() {
        lemma_pass_settles(m, records, shorter, skip, i);
        assert(shorter[i] == frames[i]);
        assert(frames[i].0 != frames[frames.len() - 1].0);
    } else {
        let target = frames[i].1.rounded();
        assert(target.near(target));
    }
}

/// A layout that was gone through moves nothing when it is gone through
/// again.
pub proof fn law_layout_settles(
    m: MoveModel,
    records: Map<WindowServerId, WriteRecord>,
    frames: Seq<(WindowId, Rect)>,
    skip: Option<WindowId>,
)
    requires
        names_each_once(frames),
    ensures
        ({
            let after = MoveModel {
                windows: move_pass(m, records, frames, skip).windows,
                moved: Seq::empty(),
            };
            move_pass(after, records, frames, skip) == after
        }),
{
    let after = MoveModel {
        windows: move_pass(m, records, frames, skip).windows,
        moved: Seq::empty(),
    };
    assert forall|i: int| 0 <= i < frames.len() implies left_as_it_is(
        after.windows,
        records,
        (#[trigger] frames[i]).0,
        frames[i].1,
        skip,
    ) by {
        lemma_pass_settles(m, records, frames, skip, i);
    }
    lemma_nothing_moves(after, records, frames, skip);
}

proof fn lemma_nothing_moves(
    m: MoveModel,
    records: Map<WindowServerId, WriteRecord>,
    frames: Seq<(WindowId, Rect)>,
    skip: Option<WindowId>,
)
    requires
        forall|i: int|
            0 <= i < frames.len() ==> left_as_it_is(
                m.windows,
                records,
                (#[trigger] frames[i]).0,
                frames[i].1,
                skip,
            ),
    ensures
        move_pass(m, records, frames, skip) == m,
    decreases frames.len(),
{
    if frames.len() > 0 {
        let shorter = frames.drop_last();
        assert forall|i: int| 0 <= i < shorter.len() implies left_as_it_is(
            m.windows,
            records,
            (#[trigger] shorter[i]).0,
            shorter[i].1,
            skip,
        ) by {
            assert(shorter[i] == frames[i]);
        }
        lemma_nothing_moves(m, records, shorter, skip);
        assert(frames.last() == frames[frames.len() - 1]);
    }
}

/// One window of a layout gets its frame on whole points and is moved, once,
/// unless it is dragged, not tracked, there already or on its way.
pub proof fn law_move_puts_a_window_in_its_place(
    m: MoveModel,
    records: Map<WindowServerId, WriteRecord>,
    wid: WindowId,
    wsid: WindowServerId,
    other: WindowId,
    frame: Rect,
    skip: Option<WindowId>,
)
    requires
        other != wid,
        m.windows.contains_key(wid) ==> m.windows[wid].sys_id == Some(wsid),
    ensures
        ({
            let target = frame.rounded();
            let r = move_step(m, records, wid, frame, skip);
            let due = skip != Some(wid) && m.windows.contains_key(wid) && !target.near(
                m.windows[wid].frame_monotonic,
            ) && !(records.contains_key(wsid) && (records[wsid].target matches Some(t) && t.near(
                target,
            )));
            &&& due ==> r.moved == m.moved.push((wid, target)) && r.windows[wid].frame_monotonic
                == target
            &&& !due ==> r == m
            &&& r.windows.contains_key(other) == m.windows.contains_key(other)
            &&& m.windows.contains_key(other) ==> r.windows[other] == m.windows[other]
        }),
{
}

/// A layout goes through its windows in order.
pub proof fn law_moves_follow_the_layout(
    m: MoveModel,
    records: Map<WindowServerId, WriteRecord>,
    frames: Seq<(WindowId, Rect)>,
    wid: WindowId,
    frame: Rect,
    skip: Option<WindowId>,
)
    ensures
        move_pass(m, records, Seq::empty(), skip) == m,
        move_pass(m, records, frames.push((wid, frame)), skip) == move_step(
            move_pass(m, records, frames, skip),
            records,
            wid,
            frame,
            skip,
        ),
{
    assert(frames.push((wid, frame)).drop_last() =~= frames);
}

/// Moved windows are written application by application: each application
/// once, with just its own windows, and none is left out.
pub proof fn law_moves_are_batched_by_application(
    moved: Seq<(WindowId, Rect)>,
    pid: pid_t,
    wid: WindowId,
    frame: Rect,
)
    ensures
        apps_moved(moved).no_duplicates(),
        moved.contains((wid, frame)) ==> apps_moved(moved).contains(wid.pid),
        apps_moved(moved).contains(pid) ==> batch_of(moved, pid).len() > 0,
        batch_of(moved, pid).contains((wid, frame)) <==> moved.contains((wid, frame)) && wid.pid
            == pid,
    decreases moved.len(),
{
    if moved.len() > 0 {
        let rest = moved.drop_last();
        law_moves_are_batched_by_application(rest, pid, wid, frame);
        let a = apps_moved(rest);
        let b = apps_moved(moved);
        let c = batch_of(rest, pid);
        let d = batch_of(moved, pid);
        let e = (wid, frame);
        if a.contains(wid.pid) {
            let k = a.index_of(wid.pid);
            assert(b[k] == wid.pid);
        }
        if moved.last() == e && !a.contains(wid.pid) {
            assert(b.last() == wid.pid);
        }
        if b.contains(pid) && !a.contains(pid) {
            let k = b.index_of(pid);
            if k < a.len() {
                assert(a[k] == pid);
            }
        }
        if rest.contains(e) {
            let k = rest.index_of(e);
            assert(moved[k] == e);
        }
        if moved.contains(e) && !rest.contains(e) {
            let k = moved.index_of(e);
            if k < rest.len() {
                assert(rest[k] == e);
            }
        }
        if c.contains(e) {
            let k = c.index_of(e);
            assert(d[k] == e);
        }
        if d.contains(e) && !c.contains(e) {
            let k = d.index_of(e);
            if k < c.len() {
                assert(c[k] == e);
            }
            assert(moved[moved.len() - 1] == e);
        }
        if moved.last() == e && wid.pid == pid {
            assert(d.last() == e);
        }
    }
}

/// A batch is numbered after the last write to its first window, and every
/// window of it awaits its own frame under that number.
pub proof fn law_batch_is_stamped(
    records: Map<WindowServerId, WriteRecord>,
    windows: Map<WindowId, WindowState>,
    batch: Seq<(WindowId, Rect)>,
    txid: TransactionId,
    i: int,
    wsid: WindowServerId,
)
    ensures
        0 <= i < batch.len() && windows.contains_key(batch[i].0) && windows[batch[i].0].sys_id
            == Some(wsid) && (forall|j: int|
            i < j < batch.len() && windows.contains_key((#[trigger] batch[j]).0)
                ==> windows[batch[j].0].sys_id != Some(wsid)) ==> stamped(
            records,
            windows,
            batch,
            txid,
        ).contains_key(wsid) && stamped(records, windows, batch, txid)[wsid] == (WriteRecord {
            last_sent: txid,
            target: Some(batch[i].1),
        }),
        (forall|j: int|
            0 <= j < batch.len() && windows.contains_key((#[trigger] batch[j]).0)
                ==> windows[batch[j].0].sys_id != Some(wsid)) ==> stamped(
            records,
            windows,
            batch,
            txid,
        ).contains_key(wsid) == records.contains_key(wsid) && (records.contains_key(wsid)
            ==> stamped(records, windows, batch, txid)[wsid] == records[wsid]),
        batch.len() > 0 && windows.contains_key(batch[0].0) && windows[batch[0].0].sys_id == Some(
            wsid,
        ) && records.contains_key(wsid) ==> (batch_number(records, windows, batch) matches Some(n)
            && n != records[wsid].last_sent && n.0 != 0),
    decreases batch.len(),
{
    if batch.len() > 0 {
        let rest = batch.drop_last();
        law_batch_is_stamped(records, windows, rest, txid, i, wsid);
        assert(batch[batch.len() - 1] == batch.last());
        if 0 <= i < rest.len() {
            assert(rest[i] == batch[i]);
            if forall|j: int|
                i < j < batch.len() && windows.contains_key((#[trigger] batch[j]).0)
                    ==> windows[batch[j].0].sys_id != Some(wsid) {
                assert forall|j: int|
                    i < j < rest.len() && windows.contains_key(
                        (#[trigger] rest[j]).0,
                    ) implies windows[rest[j].0].sys_id != Some(wsid) by {
                    assert(rest[j] == batch[j]);
                }
            }
        }
        if forall|j: int|
            0 <= j < batch.len() && windows.contains_key((#[trigger] batch[j]).0)
                ==> windows[batch[j].0].sys_id != Some(wsid) {
            assert forall|j: int|
                0 <= j < rest.len() && windows.contains_key((#[trigger] rest[j]).0) implies
                windows[rest[j].0].sys_id != Some(wsid) by {
                assert(rest[j] == batch[j]);
            }
        }
    }
}

/// The layout of a display is the first that names it.
pub proof fn law_layout_of_a_display(displays: Seq<DisplayLayout>, uuid: Seq<char>, i: int)
    ensures
        0 <= i < displays.len() && displays[i].display@ == uuid && (forall|j: int|
            0 <= j < i ==> (#[trigger] displays[j]).display@ != uuid) ==> Reactor::frames_on(
            displays,
            uuid,
        ) == displays[i].frames@,
        (forall|j: int| 0 <= j < displays.len() ==> (#[trigger] displays[j]).display@ != uuid)
            ==> Reactor::frames_on(displays, uuid).len() == 0,
    decreases displays.len(),
{
    if displays.len() > 0 {
        let rest = displays.drop_first();
        law_layout_of_a_display(rest, uuid, i - 1);
        if 0 < i < displays.len() {
            assert(rest[i - 1] == displays[i]);
        }
        if forall|j: int| 0 <= j < i ==> (#[trigger] displays[j]).display@ != uuid {
            assert(i > 0 ==> displays[0].display@ != uuid);
            assert forall|j: int| 0 <= j < i - 1 && j < rest.len() implies (
            #[trigger] rest[j]).display@ != uuid by {
                assert(rest[j] == displays[j + 1]);
            }
        }
        if forall|j: int| 0 <= j < displays.len() ==> (#[trigger] displays[j]).display@ != uuid {
            assert(displays[0].display@ != uuid);
            assert forall|j: int| 0 <= j < rest.len() implies (#[trigger] rest[j]).display@
                != uuid by {
                assert(rest[j] == displays[j + 1]);
            }
        }
    }
}

/// The layouts are those of the managed spaces that screens show, each with
/// the frames of its own display.
pub proof fn law_layouts_are_of_managed_spaces(
    m: Reactor,
    layouts: Seq<SpaceLayout>,
    displays: Seq<DisplayLayout>,
    n: int,
    i: int,
)
    requires
        n <= m.space_manager.screens@.len(),
        m.is_layout_of(layouts, displays, n),
        0 <= i < layouts.len(),
    ensures
        m.active_spaces@.contains(layouts[i].space),
        exists|k: int|
            0 <= k < n && (#[trigger] m.space_manager.screens@[k]).space == Some(layouts[i].space)
                && layouts[i].frames@ == Reactor::frames_on(
                displays,
                m.space_manager.screens@[k].display_uuid@,
            ),
    decreases n,
{
    if n > 0 {
        let screen = m.space_manager.screens@[n - 1];
        match m.only_active(screen.space) {
            Some(space) => {
                if i < layouts.len() - 1 {
                    law_layouts_are_of_managed_spaces(m, layouts.drop_last(), displays, n - 1, i);
                    assert(layouts.drop_last()[i] == layouts[i]);
                }
            },
            None => {
                law_layouts_are_of_managed_spaces(m, layouts, displays, n - 1, i);
            },
        }
    }
}

/// Every managed space that a screen shows has a layout.
pub proof fn law_every_managed_space_is_laid_out(
    m: Reactor,
    layouts: Seq<SpaceLayout>,
    displays: Seq<DisplayLayout>,
    n: int,
    k: int,
    space: SpaceId,
)
    requires
        m.is_layout_of(layouts, displays, n),
        0 <= k < n <= m.space_manager.screens@.len(),
        m.space_manager.screens@[k].space == Some(space),
        m.active_spaces@.contains(space),
    ensures
        exists|i: int| 0 <= i < layouts.len() && (#[trigger] layouts[i]).space == space,
    decreases n,
{
    if k == n - 1 {
        assert(layouts[layouts.len() - 1].space == space);
    } else {
        let screen = m.space_manager.screens@[n - 1];
        let less = match m.only_active(screen.space) {
            Some(s) => layouts.drop_last(),
            None => layouts,
        };
        law_every_managed_space_is_laid_out(m, less, displays, n - 1, k, space);
        let i = choose|i: int| 0 <= i < less.len() && (#[trigger] less[i]).space == space;
        assert(layouts[i].space == space);
    }
}

/// A layout leaves alone the window that a drag has set apart, or else the
/// one that the model knows to be dragged.
pub proof fn law_layout_skips_the_dragged_window(m: Reactor, window: WindowId)
    ensures
        m.drag_manager.skip_layout_for_window == Some(window) ==> m.skipped_window() == Some(window),
        m.drag_manager.skip_layout_for_window is None ==> m.skipped_window() == m.core.drag.window,
{
}

} // verus!
