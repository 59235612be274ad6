//! Giving windows the frames that the layout has for them.

use vstd::prelude::*;

use crate::app::{Request, WindowId};
use crate::geometry::Rect;
use crate::ids::{SpaceId, TransactionId, WindowServerId};
use crate::model::WorkspaceId;
use crate::reactor::animation::{
    frame_count, frame_interval, AnimatedWindow, Animation, AnimationModel,
};
use crate::reactor::managers::{WindowManager, WindowState};
use crate::reactor::task::{no_tasks, Message, Task};
use crate::reactor::transactions::{TransactionManager, WriteRecord};
use crate::reactor::Reactor;

verus! {

/// Where the layout puts windows on a display.
pub struct DisplayLayout {
    pub display: String,
    pub frames: Vec<(WindowId, Rect)>,
}

/// Where the layout puts windows on a space.
pub struct SpaceLayout {
    pub space: SpaceId,
    pub frames: Vec<(WindowId, Rect)>,
}

pub open spec fn frames_in_range(frames: Seq<(WindowId, Rect)>) -> bool {
    forall|i: int| 0 <= i < frames.len() ==> (#[trigger] frames[i]).1.can_round()
}

/// What a layout changes while it is gone through.
#[verifier::ext_equal]
pub struct PassModel {
    pub windows: Map<WindowId, WindowState>,
    pub records: Map<WindowServerId, WriteRecord>,
    pub animation: AnimationModel,
    pub sent: Seq<Task>,
    pub changed: bool,
}

pub open spec fn record_in(records: Map<WindowServerId, WriteRecord>, wsid: WindowServerId) -> WriteRecord {
    if records.contains_key(wsid) {
        records[wsid]
    } else {
        WriteRecord { last_sent: TransactionId(0), target: None }
    }
}

/// The number after a write.
pub open spec fn number_after(last: TransactionId) -> TransactionId {
    if last.0 == u32::MAX {
        TransactionId(1)
    } else {
        TransactionId((last.0 + 1) as u32)
    }
}

/// Whether a window is where it is to be, or on its way there.
pub open spec fn is_settled(
    w: WindowState,
    target: Rect,
    records: Map<WindowServerId, WriteRecord>,
) -> bool {
    target.near(w.frame_monotonic) || (w.sys_id matches Some(wsid) && (record_in(
        records,
        wsid,
    ).target matches Some(pending) && pending.near(target)))
}

/// The number of the next write to a window.
pub open spec fn next_number(w: WindowState, records: Map<WindowServerId, WriteRecord>) -> TransactionId {
    match w.sys_id {
        Some(wsid) => number_after(record_in(records, wsid).last_sent),
        None => TransactionId(0),
    }
}

/// The writes under way after one to a window.
pub open spec fn written(
    w: WindowState,
    records: Map<WindowServerId, WriteRecord>,
    record: WriteRecord,
) -> Map<WindowServerId, WriteRecord> {
    match w.sys_id {
        Some(wsid) => records.insert(wsid, record),
        None => records,
    }
}

/// The target that a window's writes have, before another.
pub open spec fn target_of(w: WindowState, records: Map<WindowServerId, WriteRecord>) -> Option<Rect> {
    match w.sys_id {
        Some(wsid) => record_in(records, wsid).target,
        None => None,
    }
}

impl Reactor {
    /// One window of a layout. One on the workspace in view sets out; any
    /// other goes to its place at once; the one being dragged is left alone.
    pub open spec fn animate_step(
        &self,
        m: PassModel,
        shown: WorkspaceId,
        wid: WindowId,
        frame: Rect,
        skip: Option<WindowId>,
    ) -> PassModel {
        if skip == Some(wid) {
            PassModel { animation: m.animation.marked(wid), ..m }
        } else if !m.windows.contains_key(wid) {
            m
        } else {
            let w = m.windows[wid];
            let target = frame.rounded();
            if is_settled(w, target, m.records) {
                m
            } else {
                let txid = next_number(w, m.records);
                if !self.app_manager.apps@.contains_key(wid.pid) {
                    PassModel {
                        records: written(
                            w,
                            m.records,
                            WriteRecord { last_sent: txid, target: target_of(w, m.records) },
                        ),
                        changed: true,
                        ..m
                    }
                } else {
                    PassModel {
                        windows: m.windows.insert(
                            wid,
                            WindowState { frame_monotonic: target, ..w },
                        ),
                        records: written(
                            w,
                            m.records,
                            WriteRecord { last_sent: txid, target: Some(target) },
                        ),
                        animation: if self.assigned_workspace(wid) == Some(shown) {
                            m.animation.with_window(
                                AnimatedWindow {
                                    wid,
                                    start: w.frame_monotonic,
                                    finish: target,
                                    is_focus: false,
                                    resizes: !w.frame_monotonic.size.near(target.size),
                                    window_server_id: w.sys_id,
                                    proxy: None,
                                    txid,
                                },
                            )
                        } else {
                            m.animation.marked(wid)
                        },
                        sent: if self.assigned_workspace(wid) == Some(shown) {
                            m.sent
                        } else {
                            m.sent.push(
                                Task::Tell(
                                    Message::App(
                                        wid.pid,
                                        Request::SetWindowFrame(wid, target, txid, true),
                                    ),
                                ),
                            )
                        },
                        changed: true,
                    }
                }
            }
        }
    }

    /// A whole layout, window by window.
    pub open spec fn animate_pass(
        &self,
        m: PassModel,
        shown: WorkspaceId,
        frames: Seq<(WindowId, Rect)>,
        skip: Option<WindowId>,
    ) -> PassModel
        decreases frames.len(),
    {
        if frames.len() == 0 {
            m
        } else {
            self.animate_step(
                self.animate_pass(m, shown, frames.drop_last(), skip),
                shown,
                frames.last().0,
                frames.last().1,
                skip,
            )
        }
    }

    /// Before a layout is gone through.
    pub open spec fn pass_start(&self) -> PassModel {
        PassModel {
            windows: self.window_manager.windows@,
            records: self.transaction_manager.records@,
            animation: AnimationModel {
                interval: frame_interval(self.config.settings.animation_fps) as u64,
                frames: frame_count(
                    self.config.settings.animation_duration,
                    self.config.settings.animation_fps,
                ) as u32,
                windows: Seq::empty(),
                handled: Seq::empty(),
            },
            sent: Seq::empty(),
            changed: false,
        }
    }

    /// Whether windows go to their places at once.
    pub open spec fn goes_at_once(&self, is_resize: bool, low_power: bool) -> bool {
        is_resize || !self.config.settings.animate || self.config.settings.animation_duration == 0
            || low_power
    }

    fn animate_one(
        &mut self,
        animation: &mut Animation,
        tasks: &mut Vec<Task>,
        changed: &mut bool,
        shown: WorkspaceId,
        wid: WindowId,
        frame: Rect,
        skip: Option<WindowId>,
    )
        requires
            old(self).wf(),
            frame.can_round(),
        ensures
            final(self).wf(),
            only_frames_changed(*old(self), *final(self)),
            ({
                let before = PassModel {
                    windows: old(self).window_manager.windows@,
                    records: old(self).transaction_manager.records@,
                    animation: old(animation)@,
                    sent: old(tasks)@,
                    changed: *old(changed),
                };
                let after = PassModel {
                    windows: final(self).window_manager.windows@,
                    records: final(self).transaction_manager.records@,
                    animation: final(animation)@,
                    sent: final(tasks)@,
                    changed: *final(changed),
                };
                after == old(self).animate_step(before, shown, wid, frame, skip)
            }),
    {
        if let Some(skipped) = skip {
            if skipped == wid {
                animation.mark_handled(wid);
                return;
            }
        }
        let target: Rect = frame.round();
        let w: WindowState = match self.window_manager.window(wid) {
            Some(w) => w,
            None => {
                return;
            },
        };
        if target.same_as(&w.frame_monotonic) {
            return;
        }
        if let Some(wsid) = w.sys_id {
            if let Some(pending) = self.transaction_manager.get_target_frame(wsid) {
                if pending.same_as(&target) {
                    return;
                }
            }
        }
        *changed = true;
        let txid: TransactionId = match w.sys_id {
            Some(wsid) => self.transaction_manager.generate_next_txid(wsid),
            None => TransactionId(0),
        };
        proof {
            lemma_same_targets(old(self).transaction_manager, self.transaction_manager);
        }
        if !self.app_manager.apps.contains_key(wid.pid) {
            return;
        }
        let active: bool = match self.workspace_for_window(wid) {
            Some(workspace) => workspace == shown,
            None => false,
        };
        if active {
            animation.add_window_with_server_id(
                wid,
                w.frame_monotonic,
                target,
                false,
                w.sys_id,
                txid,
            );
        } else {
            animation.mark_handled(wid);
            tasks.push(
                Task::Tell(
                    Message::App(wid.pid, Request::SetWindowFrame(wid, target, txid, true)),
                ),
            );
        }
        let ghost numbered = self.transaction_manager;
        if let Some(wsid) = w.sys_id {
            self.transaction_manager.store_txid(wsid, txid, target);
            proof {
                lemma_stored_target(numbered, self.transaction_manager, wsid, txid, target);
                assert(self.transaction_manager.records@
                    =~= old(self).transaction_manager.records@.insert(
                    wsid,
                    WriteRecord { last_sent: txid, target: Some(target) },
                ));
            }
        }
        self.window_manager.set_window(wid, WindowState { frame_monotonic: target, ..w });
    }

    /// Sends the windows of a space on their way to where the layout puts
    /// them.
    pub fn animate_layout(
        &mut self,
        space: SpaceId,
        frames: &Vec<(WindowId, Rect)>,
        is_resize: bool,
        skip_wid: Option<WindowId>,
        low_power: bool,
    ) -> (r: (bool, Vec<Task>))
        requires
            old(self).wf(),
            frames_in_range(frames@),
        ensures
            final(self).wf(),
            only_frames_changed(*old(self), *final(self)),
            match old(self).shown_workspace(space) {
                Some(shown) => {
                    let m = old(self).animate_pass(
                        old(self).pass_start(),
                        shown,
                        frames@,
                        skip_wid,
                    );
                    &&& final(self).window_manager.windows@ == m.windows
                    &&& final(self).transaction_manager.records@ == m.records
                    &&& r.0 == m.changed
                    &&& if m.animation.windows.len() > 0 {
                        &&& r.1@.len() == m.sent.len() + 1
                        &&& r.1@.drop_last() == m.sent
                        &&& r.1@.last() matches Task::Tell(
                            Message::Animate { animation, at_once },
                        ) && animation@ == m.animation && at_once == old(self).goes_at_once(
                            is_resize,
                            low_power,
                        )
                    } else {
                        r.1@ == m.sent
                    }
                },
                None => !r.0 && r.1@.len() == 0 && *final(self) == *old(self),
            },
    {
        let shown: WorkspaceId = match self.active_workspace_for_space(space) {
            Some(shown) => shown,
            None => {
                return (false, no_tasks());
            },
        };
        let mut animation: Animation = Animation::new(
            self.config.settings.animation_duration,
            self.config.settings.animation_fps,
        );
        let mut tasks: Vec<Task> = no_tasks();
        let mut changed: bool = false;
        let ghost start = self.pass_start();
        let mut i: usize = 0;
        while i < frames.len()
            invariant
                i <= frames@.len(),
                self.wf(),
                frames_in_range(frames@),
                only_frames_changed(*old(self), *self),
                start == old(self).pass_start(),
                (PassModel {
                    windows: self.window_manager.windows@,
                    records: self.transaction_manager.records@,
                    animation: animation@,
                    sent: tasks@,
                    changed,
                }) == old(self).animate_pass(start, shown, frames@.take(i as int), skip_wid),
            decreases frames@.len() - i,
        {
            assert(frames@.take(i + 1).drop_last() =~= frames@.take(i as int));
            let (wid, frame): (WindowId, Rect) = frames[i];
            assert(frame == frames@[i as int].1);
            proof {
                lemma_same_step(*old(self), *self, shown, wid, frame, skip_wid);
            }
            self.animate_one(
                &mut animation,
                &mut tasks,
                &mut changed,
                shown,
                wid,
                frame,
                skip_wid,
            );
            i += 1;
        }
        assert(frames@.take(i as int) =~= frames@);
        if !animation.is_empty() {
            let at_once: bool = is_resize || !self.config.settings.animate
                || self.config.settings.animation_duration == 0 || low_power;
            let ghost sent = tasks@;
            tasks.push(Task::Tell(Message::Animate { animation, at_once }));
            assert(tasks@.drop_last() =~= sent);
        }
        (changed, tasks)
    }
}

/// Nothing but frames and writes differs.
pub open spec fn only_frames_changed(before: Reactor, after: Reactor) -> bool {
    &&& after == (Reactor {
        window_manager: WindowManager {
            windows: after.window_manager.windows,
            ..before.window_manager
        },
        transaction_manager: after.transaction_manager,
        ..before
    })
    &&& after.window_manager.windows.order() == before.window_manager.windows.order()
}

/// A step reads only what a layout leaves as it is.
proof fn lemma_same_step(
    before: Reactor,
    after: Reactor,
    shown: WorkspaceId,
    wid: WindowId,
    frame: Rect,
    skip: Option<WindowId>,
)
    requires
        only_frames_changed(before, after),
    ensures
        forall|m: PassModel|
            before.animate_step(m, shown, wid, frame, skip) == after.animate_step(
                m,
                shown,
                wid,
                frame,
                skip,
            ),
{
}

proof fn lemma_same_targets(before: TransactionManager, after: TransactionManager)
    requires
        before.wf(),
        forall|w: WindowServerId|
            (#[trigger] after.record(w)).target == before.record(w).target,
    ensures
        after.wf(),
{
    assert forall|w: WindowServerId| true implies ((#[trigger] after.record(
        w,
    )).target matches Some(f) ==> f.in_range()) by {
        assert(before.record(w).target == after.record(w).target);
    }
}

proof fn lemma_stored_target(
    before: TransactionManager,
    after: TransactionManager,
    wsid: WindowServerId,
    txid: TransactionId,
    target: Rect,
)
    requires
        before.wf(),
        target.in_range(),
        after.records@ == before.records@.insert(
            wsid,
            WriteRecord { last_sent: txid, target: Some(target) },
        ),
    ensures
        after.wf(),
{
    assert forall|w: WindowServerId| true implies ((#[trigger] after.record(
        w,
    )).target matches Some(f) ==> f.in_range()) by {
        assert(before.record(w).target matches Some(f) ==> f.in_range());
    }
}

/// Laying out one window leaves every other as it is, and the one being
/// dragged and any that is not tracked too.
pub proof fn law_layout_of_a_window_leaves_others(
    m: Reactor,
    p: PassModel,
    shown: WorkspaceId,
    wid: WindowId,
    other: WindowId,
    frame: Rect,
    skip: Option<WindowId>,
)
    requires
        other != wid,
    ensures
        ({
            let r = m.animate_step(p, shown, wid, frame, skip);
            &&& r.windows.contains_key(other) == p.windows.contains_key(other)
            &&& p.windows.contains_key(other) ==> r.windows[other] == p.windows[other]
            &&& skip == Some(wid) || !p.windows.contains_key(wid) ==> r.windows == p.windows
                && r.records == p.records && r.sent == p.sent && r.changed == p.changed
                && r.animation.windows == p.animation.windows
        }),
{
}

/// A window that is where it is to be, to a tenth of a point, or on its way
/// there, is not written to again.
pub proof fn law_settled_window_is_not_written_to(
    m: Reactor,
    p: PassModel,
    shown: WorkspaceId,
    wid: WindowId,
    wsid: WindowServerId,
    frame: Rect,
    skip: Option<WindowId>,
)
    requires
        skip != Some(wid),
        p.windows.contains_key(wid),
        frame.rounded().near(p.windows[wid].frame_monotonic) || (p.windows[wid].sys_id == Some(wsid)
            && p.records.contains_key(wsid) && (p.records[wsid].target matches Some(t) && t.near(
            frame.rounded(),
        ))),
    ensures
        m.animate_step(p, shown, wid, frame, skip) == p,
{
}

/// A window of a known application that is not yet in its place gets the
/// frame of the layout on whole points, under a new number that its echo will
/// be known by. On the workspace in view it sets out from where it is; on
/// any other its application is told at once.
pub proof fn law_window_goes_to_its_place(
    m: Reactor,
    p: PassModel,
    shown: WorkspaceId,
    wid: WindowId,
    wsid: WindowServerId,
    frame: Rect,
    skip: Option<WindowId>,
)
    requires
        skip != Some(wid),
        p.windows.contains_key(wid),
        p.windows[wid].sys_id == Some(wsid),
        !frame.rounded().near(p.windows[wid].frame_monotonic),
        !(p.records.contains_key(wsid) && (p.records[wsid].target matches Some(t) && t.near(
            frame.rounded(),
        ))),
        m.app_manager.apps@.contains_key(wid.pid),
    ensures
        ({
            let r = m.animate_step(p, shown, wid, frame, skip);
            let target = frame.rounded();
            &&& r.changed
            &&& r.windows[wid] == (WindowState { frame_monotonic: target, ..p.windows[wid] })
            &&& r.records[wsid].target == Some(target)
            &&& p.records.contains_key(wsid) ==> r.records[wsid].last_sent
                != p.records[wsid].last_sent
            &&& m.assigned_workspace(wid) == Some(shown) ==> r.sent == p.sent
                && r.animation.windows.len() == p.animation.windows.len() + 1
                && r.animation.windows.last().wid == wid && r.animation.windows.last().start
                == p.windows[wid].frame_monotonic && r.animation.windows.last().finish == target
                && r.animation.windows.last().txid == r.records[wsid].last_sent
            &&& m.assigned_workspace(wid) != Some(shown) ==> r.sent == p.sent.push(
                Task::Tell(
                    Message::App(
                        wid.pid,
                        Request::SetWindowFrame(wid, target, r.records[wsid].last_sent, true),
                    ),
                ),
            ) && r.animation.windows == p.animation.windows
        }),
{
}

/// A window whose application is not known is not moved, though its write is
/// numbered and counts as a change.
pub proof fn law_window_without_an_application_stays(
    m: Reactor,
    p: PassModel,
    shown: WorkspaceId,
    wid: WindowId,
    frame: Rect,
    skip: Option<WindowId>,
)
    requires
        !m.app_manager.apps@.contains_key(wid.pid),
    ensures
        m.animate_step(p, shown, wid, frame, skip).windows == p.windows,
        m.animate_step(p, shown, wid, frame, skip).sent == p.sent,
        m.animate_step(p, shown, wid, frame, skip).animation.windows == p.animation.windows,
{
}

/// A whole layout goes through its windows in order, and what it has sent
/// stays sent.
pub proof fn law_layout_goes_through_all_windows(
    m: Reactor,
    p: PassModel,
    shown: WorkspaceId,
    frames: Seq<(WindowId, Rect)>,
    wid: WindowId,
    frame: Rect,
    skip: Option<WindowId>,
)
    ensures
        m.animate_pass(p, shown, Seq::empty(), skip) == p,
        m.animate_pass(p, shown, frames.push((wid, frame)), skip) == m.animate_step(
            m.animate_pass(p, shown, frames, skip),
            shown,
            wid,
            frame,
            skip,
        ),
        p.sent.is_prefix_of(m.animate_pass(p, shown, frames, skip).sent),
        p.changed ==> m.animate_pass(p, shown, frames, skip).changed,
    decreases frames.len(),
{
    assert(frames.push((wid, frame)).drop_last() =~= frames);
    if frames.len() > 0 {
        law_layout_goes_through_all_windows(m, p, shown, frames.drop_last(), wid, frame, skip);
    }
}

/// Windows go to their places at once for a resize, without animations, or to
/// save power, and only then.
pub proof fn law_windows_are_animated_when_wanted(m: Reactor, is_resize: bool, low_power: bool)
    ensures
        m.goes_at_once(true, low_power),
        m.goes_at_once(is_resize, true),
        !m.config.settings.animate ==> m.goes_at_once(is_resize, low_power),
        m.config.settings.animate && m.config.settings.animation_duration != 0
            ==> !m.goes_at_once(false, false),
{
}

/// The number after a write is another one, and never the one that stands for
/// no write.
pub proof fn law_write_numbers_differ(last: TransactionId)
    ensures
        number_after(last) != last,
        number_after(last).0 != 0,
        last.0 < u32::MAX ==> number_after(last).0 == last.0 + 1,
{
}

} // verus!
