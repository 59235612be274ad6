//! Taking over what the window server says of its windows.

use vstd::prelude::*;

use crate::app::WindowId;
use crate::event::WindowServerInfo;
use crate::ids::WindowServerId;
use crate::reactor::managers::{WindowManager, WindowState};
use crate::reactor::registry::{compute_window_manageability, manageable};

verus! {

/// What the window server's descriptions bear on.
#[verifier::ext_equal]
pub struct ServerModel {
    pub visible: Set<WindowServerId>,
    pub observed: Set<WindowServerId>,
    pub infos: Map<WindowServerId, WindowServerInfo>,
    pub windows: Map<WindowId, WindowState>,
}

/// A window's state after the window server described it.
pub open spec fn redescribed(
    w: WindowState,
    info: WindowServerInfo,
    infos: Map<WindowServerId, WindowServerInfo>,
) -> WindowState {
    WindowState {
        frame_monotonic: if info.layer == 0 {
            info.frame
        } else {
            w.frame_monotonic
        },
        is_manageable: manageable(
            w.is_minimized,
            w.is_standard,
            w.is_root,
            match w.sys_id {
                Some(wsid) => if infos.contains_key(wsid) {
                    Some(infos[wsid])
                } else {
                    None
                },
                None => None,
            },
        ),
        ..w
    }
}

impl ServerModel {
    /// After one description: the window is visible, no longer merely
    /// observed, and where the description says.
    pub open spec fn described(
        self,
        info: WindowServerInfo,
        ids: Map<WindowServerId, WindowId>,
    ) -> ServerModel {
        let infos = self.infos.insert(info.id, info);
        ServerModel {
            visible: self.visible.insert(info.id),
            observed: self.observed.remove(info.id),
            infos,
            windows: if ids.contains_key(info.id) && self.windows.contains_key(ids[info.id]) {
                self.windows.insert(
                    ids[info.id],
                    redescribed(self.windows[ids[info.id]], info, infos),
                )
            } else {
                self.windows
            },
        }
    }

    /// After some descriptions, one by one.
    pub open spec fn described_by(
        self,
        list: Seq<WindowServerInfo>,
        ids: Map<WindowServerId, WindowId>,
    ) -> ServerModel
        decreases list.len(),
    {
        if list.len() == 0 {
            self
        } else {
            self.described_by(list.drop_last(), ids).described(list.last(), ids)
        }
    }
}

pub open spec fn infos_in_range(list: Seq<WindowServerInfo>) -> bool {
    forall|i: int| 0 <= i < list.len() ==> (#[trigger] list[i]).frame.in_range()
}

impl WindowManager {
    pub open spec fn server_model(&self) -> ServerModel {
        ServerModel {
            visible: self.visible_windows@,
            observed: self.observed_window_server_ids@,
            infos: self.window_server_info@,
            windows: self.windows@,
        }
    }

    fn describe(&mut self, info: WindowServerInfo)
        requires
            old(self).wf(),
            info.frame.in_range(),
        ensures
            final(self).wf(),
            final(self).server_model() == old(self).server_model().described(
                info,
                old(self).window_ids@,
            ),
            final(self).windows.order() == old(self).windows.order(),
            only_descriptions_changed(*old(self), *final(self)),
    {
        let _ = self.visible_windows.insert(info.id);
        self.clear_window_server_observed(info.id);
        self.track_window_server_info(info);
        if let Some(wid) = self.tracked_window_id(info.id) {
            if let Some(w) = self.window(wid) {
                let state: WindowState = WindowState {
                    frame_monotonic: if info.layer == 0 {
                        info.frame
                    } else {
                        w.frame_monotonic
                    },
                    is_manageable: compute_window_manageability(
                        w.is_minimized,
                        w.is_standard,
                        w.is_root,
                        self.server_info_of(w.sys_id),
                    ),
                    ..w
                };
                self.set_window(wid, state);
            }
        }
        assert(self.server_model() =~= old(self).server_model().described(
            info,
            old(self).window_ids@,
        ));
    }

    /// Takes over what the window server says of some windows.
    pub fn update_partial_window_server_info(&mut self, ws_info: &Vec<WindowServerInfo>)
        requires
            old(self).wf(),
            infos_in_range(ws_info@),
        ensures
            final(self).wf(),
            final(self).server_model() == old(self).server_model().described_by(
                ws_info@,
                old(self).window_ids@,
            ),
            final(self).windows.order() == old(self).windows.order(),
            only_descriptions_changed(*old(self), *final(self)),
    {
        let mut i: usize = 0;
        while i < ws_info.len()
            invariant
                i <= ws_info@.len(),
                infos_in_range(ws_info@),
                self.wf(),
                self.server_model() == old(self).server_model().described_by(
                    ws_info@.take(i as int),
                    old(self).window_ids@,
                ),
                self.windows.order() == old(self).windows.order(),
                only_descriptions_changed(*old(self), *self),
            decreases ws_info@.len() - i,
        {
            assert(ws_info@.take(i + 1).drop_last() =~= ws_info@.take(i as int));
            self.describe(ws_info[i]);
            i += 1;
        }
        assert(ws_info@.take(i as int) =~= ws_info@);
    }

    /// Takes over what the window server says of all windows in sight.
    pub fn update_complete_window_server_info(&mut self, ws_info: &Vec<WindowServerInfo>)
        requires
            old(self).wf(),
            infos_in_range(ws_info@),
        ensures
            final(self).wf(),
            final(self).server_model() == (ServerModel {
                visible: Set::empty(),
                ..old(self).server_model()
            }).described_by(ws_info@, old(self).window_ids@),
            final(self).windows.order() == old(self).windows.order(),
            only_descriptions_changed(*old(self), *final(self)),
    {
        self.clear_visible_windows();
        self.update_partial_window_server_info(ws_info);
    }
}

/// Nothing but what the window server's descriptions bear on differs.
pub open spec fn only_descriptions_changed(before: WindowManager, after: WindowManager) -> bool {
    after == (WindowManager {
        visible_windows: after.visible_windows,
        observed_window_server_ids: after.observed_window_server_ids,
        window_server_info: after.window_server_info,
        windows: after.windows,
        ..before
    })
}

/// After all windows in sight were described, exactly those are visible.
pub proof fn law_described_windows_are_visible(
    m: ServerModel,
    list: Seq<WindowServerInfo>,
    ids: Map<WindowServerId, WindowId>,
    wsid: WindowServerId,
)
    ensures
        m.described_by(list, ids).visible.contains(wsid) <==> m.visible.contains(wsid) || exists|
            i: int,
        |
            0 <= i < list.len() && (#[trigger] list[i]).id == wsid,
    decreases list.len(),
{
    if list.len() > 0 {
        law_described_windows_are_visible(m, list.drop_last(), ids, wsid);
        if exists|i: int| 0 <= i < list.len() && (#[trigger] list[i]).id == wsid {
            let i = choose|i: int| 0 <= i < list.len() && (#[trigger] list[i]).id == wsid;
            if i < list.len() - 1 {
                assert(list.drop_last()[i].id == wsid);
            }
        }
        if exists|i: int|
            0 <= i < list.drop_last().len() && (#[trigger] list.drop_last()[i]).id == wsid {
            let i = choose|i: int|
                0 <= i < list.drop_last().len() && (#[trigger] list.drop_last()[i]).id == wsid;
            assert(list[i].id == wsid);
        }
    }
}

/// A window that the window server describes is visible, not merely seen, and
/// known by that description. A tracked one on the ordinary layer is where it
/// says; one off that layer stays where it was and cannot be managed.
pub proof fn law_description_is_taken_over(
    m: ServerModel,
    info: WindowServerInfo,
    ids: Map<WindowServerId, WindowId>,
    wid: WindowId,
    other: WindowId,
)
    requires
        ids.contains_key(info.id),
        ids[info.id] == wid,
        m.windows.contains_key(wid),
        m.windows[wid].sys_id == Some(info.id),
        other != wid,
    ensures
        ({
            let r = m.described(info, ids);
            let w = m.windows[wid];
            &&& r.visible.contains(info.id)
            &&& !r.observed.contains(info.id)
            &&& r.infos.contains_key(info.id) && r.infos[info.id] == info
            &&& info.layer == 0 ==> r.windows[wid].frame_monotonic == info.frame
            &&& info.layer != 0 ==> r.windows[wid].frame_monotonic == w.frame_monotonic
            &&& r.windows[wid].is_manageable <==> !w.is_minimized && w.is_standard && w.is_root
                && info.layer == 0
            &&& r.windows[wid].ignore_app_rule == w.ignore_app_rule
            &&& r.windows.contains_key(other) == m.windows.contains_key(other)
            &&& m.windows.contains_key(other) ==> r.windows[other] == m.windows[other]
        }),
{
}

/// Descriptions of windows that are not tracked track none.
pub proof fn law_description_tracks_nothing(
    m: ServerModel,
    list: Seq<WindowServerInfo>,
    ids: Map<WindowServerId, WindowId>,
    wid: WindowId,
)
    ensures
        m.described_by(list, ids).windows.contains_key(wid) <==> m.windows.contains_key(wid),
        (forall|i: int|
            0 <= i < list.len() ==> !(ids.contains_key((#[trigger] list[i]).id) && ids[list[i].id]
                == wid)) && m.windows.contains_key(wid) ==> m.described_by(list, ids).windows[wid]
            == m.windows[wid],
    decreases list.len(),
{
    if list.len() > 0 {
        let rest = list.drop_last();
        law_description_tracks_nothing(m, rest, ids, wid);
        if forall|i: int|
            0 <= i < list.len() ==> !(ids.contains_key((#[trigger] list[i]).id) && ids[list[i].id]
                == wid) {
            assert forall|i: int| 0 <= i < rest.len() implies !(ids.contains_key(
                (#[trigger] rest[i]).id,
            ) && ids[rest[i].id] == wid) by {
                assert(rest[i] == list[i]);
            }
            assert(list[list.len() - 1] == list.last());
        }
    }
}

} // verus!
