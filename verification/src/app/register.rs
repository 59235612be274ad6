//! How the app actor takes up windows that it finds.

use vstd::prelude::*;

use crate::app::actor::{
    animating, lemma_animating_insert, text_of, AppModel, AppWindowState, AxCode, AxError,
    ElementRef, State,
};
use crate::app::WindowId;
use crate::event::{Event, WindowInfo, WindowServerInfo};
use crate::ids::{TransactionId, WindowServerId};
use crate::text::{
    ascii_lower_seq, begins_with, chars_of, contains, ends_with, finishes_with, lower_chars, occurs,
    starts_with, text_eq,
};

verus! {

/// Whether an element without a window server id is acceptable, or one with
/// an id is visible to the window server.
pub open spec fn visible_cg_peer(wsid: Option<WindowServerId>, has_hint: bool) -> bool {
    wsid is None || has_hint
}

/// Whether a bundle id names a widget.
pub open spec fn widget_bundle(id: Seq<char>) -> bool {
    let lower = ascii_lower_seq(id);
    finishes_with(lower, ".widget"@) || occurs(lower, ".widget."@)
}

/// Whether a path leads into an app extension.
pub open spec fn extension_path(path: Seq<char>) -> bool {
    let lower = ascii_lower_seq(path);
    occurs(lower, ".appex/"@) || finishes_with(lower, ".appex"@)
}

/// Roles of windows that are never managed.
pub open spec fn transient_role(role: Seq<char>) -> bool {
    role == "AXPopover"@ || role == "AXMenu"@
}

/// Applications whose windows are standard only if they have a title element.
pub open spec fn needs_title_element(bundle_id: Seq<char>) -> bool {
    bundle_id == "com.googlecode.iterm2"@ || bundle_id
        == "com.apple.TextInputUI.xpc.CursorUIViewService"@
}

/// Everything that was read about a window that may be registered.
pub struct WindowReport {
    pub elem: u64,
    pub info: WindowInfo,
    pub server_info: Option<WindowServerInfo>,
    /// Whether the element has a title element.
    pub has_title_element: bool,
    /// Whether the window server knows a parent of the window.
    pub has_parent: bool,
    /// The window server id of the element itself.
    pub fallback_server_id: Option<WindowServerId>,
}

/// A window that is about to be registered, once it is watched.
pub struct Prepared {
    pub wid: WindowId,
    pub elem: u64,
    pub info: WindowInfo,
    pub server_info: Option<WindowServerInfo>,
    pub window_server_id: Option<WindowServerId>,
}

/// Whether a window is one to manage, going by what it says of itself.
pub open spec fn manageable_report(report: WindowReport) -> bool {
    let info = report.info;
    &&& visible_cg_peer(info.sys_id, report.server_info is Some) || info.is_minimized
    &&& !(text_of(info.bundle_id) matches Some(id) && widget_bundle(id))
    &&& !(text_of(info.path) matches Some(path) && extension_path(path))
    &&& !(text_of(info.ax_role) matches Some(role) && transient_role(role))
}

/// A server id that numbers a window.
pub open spec fn nonzero(id: Option<WindowServerId>) -> Option<WindowServerId> {
    match id {
        Some(s) if s.0 != 0 => Some(s),
        _ => None,
    }
}

/// The server id of a window: the one it reports, else its element's.
pub open spec fn report_server_id(report: WindowReport) -> Option<WindowServerId> {
    match nonzero(report.info.sys_id) {
        Some(s) => Some(s),
        None => report.fallback_server_id,
    }
}

/// The window's description, corrected for what its own report gets wrong.
pub open spec fn corrected_info(m: AppModel, report: WindowReport) -> WindowInfo {
    WindowInfo {
        is_standard: report.info.is_standard && !(m.bundle_id matches Some(id)
            && needs_title_element(id) && !report.has_title_element),
        is_root: report.info.sys_id is None || !report.has_parent,
        ..report.info
    }
}

/// The id that a window gets: its server id, else the next free number.
pub open spec fn report_wid(m: AppModel, report: WindowReport) -> WindowId {
    match nonzero(report_server_id(report)) {
        Some(s) => WindowId { pid: m.pid, idx: s.0 },
        None => WindowId { pid: m.pid, idx: (m.last_window_idx + 1) as u32 },
    }
}

/// The books after a window was prepared for registration: a number may
/// have been used up.
pub open spec fn after_prepare(m: AppModel, report: WindowReport) -> AppModel {
    if manageable_report(report) && nonzero(report_server_id(report)) is None {
        AppModel { last_window_idx: (m.last_window_idx + 1) as u32, ..m }
    } else {
        m
    }
}

/// Whether watching a window succeeded: each notification was registered
/// now or before.
pub open spec fn watched(role_is_window: bool, watches: Seq<Result<(), AxError>>) -> bool {
    role_is_window && forall|i: int|
        0 <= i < watches.len() ==> match #[trigger] watches[i] {
            Ok(_) => true,
            Err(e) => e == AxError::Ax(AxCode::NotificationAlreadyRegistered),
        }
}

/// The books after a prepared window was registered.
pub open spec fn after_register(
    m: AppModel,
    prepared: Prepared,
    stored: Option<TransactionId>,
) -> AppModel {
    let with = m.with_window(
        prepared.wid,
        AppWindowState {
            elem: prepared.elem,
            last_seen_txid: match stored {
                Some(t) => t,
                None => TransactionId(0),
            },
            hidden_by_app: m.is_hidden,
            window_server_id: prepared.window_server_id,
            is_animating: false,
            last_animation_frame: None,
        },
    );
    AppModel { elem_to_wid: m.elem_to_wid.insert(prepared.elem, prepared.wid), ..with }
}

impl State {
    pub fn has_visible_cg_peer(wsid: Option<WindowServerId>, hint: Option<WindowServerInfo>) -> (r:
        bool)
        ensures
            r == visible_cg_peer(wsid, hint is Some),
    {
        wsid.is_none() || hint.is_some()
    }

    /// Whether a window is one to manage.
    fn is_manageable(report: &WindowReport) -> (r: bool)
        ensures
            r == manageable_report(*report),
    {
        if !State::has_visible_cg_peer(report.info.sys_id, report.server_info)
            && !report.info.is_minimized {
            return false;
        }
        if let Some(id) = &report.info.bundle_id {
            let lower: Vec<char> = lower_chars(id.as_str());
            if ends_with(&lower, ".widget") || contains(&lower, ".widget.") {
                return false;
            }
        }
        if let Some(path) = &report.info.path {
            let lower: Vec<char> = lower_chars(path.as_str());
            if contains(&lower, ".appex/") || ends_with(&lower, ".appex") {
                return false;
            }
        }
        if let Some(role) = &report.info.ax_role {
            if text_eq(role.as_str(), "AXPopover") || text_eq(role.as_str(), "AXMenu") {
                return false;
            }
        }
        true
    }

    /// Decides whether a window is registered, and under which id. The
    /// caller then watches its notifications and calls `register_window`.
    pub fn prepare_window(&mut self, report: WindowReport) -> (r: Option<Prepared>)
        requires
            old(self).wf(),
            old(self).last_window_idx < u32::MAX,
        ensures
            final(self).wf(),
            final(self)@ == after_prepare(old(self)@, report),
            r is Some <==> manageable_report(report) && !old(self)@.windows.contains_key(
                report_wid(old(self)@, report),
            ),
            r matches Some(p) ==> p == (Prepared {
                wid: report_wid(old(self)@, report),
                elem: report.elem,
                info: corrected_info(old(self)@, report),
                server_info: report.server_info,
                window_server_id: report_server_id(report),
            }),
    {
        if !State::is_manageable(&report) {
            return None;
        }
        let mut info = report.info;
        if let Some(id) = &self.bundle_id {
            if (text_eq(id.as_str(), "com.googlecode.iterm2") || text_eq(
                id.as_str(),
                "com.apple.TextInputUI.xpc.CursorUIViewService",
            )) && !report.has_title_element {
                info.is_standard = false;
            }
        }
        info.is_root = match info.sys_id {
            Some(_) => !report.has_parent,
            None => true,
        };
        let window_server_id: Option<WindowServerId> = match info.sys_id {
            Some(s) if s.0 != 0 => Some(s),
            _ => report.fallback_server_id,
        };
        let idx: u32 = match window_server_id {
            Some(s) if s.0 != 0 => s.0,
            _ => {
                self.last_window_idx = self.last_window_idx + 1;
                self.last_window_idx
            },
        };
        let wid = WindowId { pid: self.pid, idx };
        if self.windows.contains_key(wid) {
            return None;
        }
        Some(
            Prepared {
                wid,
                elem: report.elem,
                info,
                server_info: report.server_info,
                window_server_id,
            },
        )
    }

    /// Whether a window's notifications are all watched.
    pub fn watches_succeeded(role_is_window: bool, watches: &Vec<Result<(), AxError>>) -> (r: bool)
        ensures
            r == watched(role_is_window, watches@),
    {
        if !role_is_window {
            return false;
        }
        let mut i: usize = 0;
        while i < watches.len()
            invariant
                i <= watches@.len(),
                watched(true, watches@.take(i as int)),
            decreases watches@.len() - i,
        {
            let ghost next = watches@.take(i + 1);
            if let Err(e) = &watches[i] {
                if *e != AxError::Ax(AxCode::NotificationAlreadyRegistered) {
                    assert(watches@[i as int] matches Err(e) && e != AxError::Ax(
                        AxCode::NotificationAlreadyRegistered,
                    ));
                    return false;
                }
            }
            proof {
                assert forall|j: int| 0 <= j < next.len() implies match #[trigger] next[j] {
                    Ok(_) => true,
                    Err(e) => e == AxError::Ax(AxCode::NotificationAlreadyRegistered),
                } by {
                    if j < i {
                        assert(watches@.take(i as int)[j] == next[j]);
                    }
                }
            }
            i += 1;
        }
        assert(watches@.take(i as int) =~= watches@);
        true
    }

    /// Enters a prepared window into the books if it could be watched.
    /// `stored` is the number that the transaction store holds for it. Gives
    /// the event of a window of a hidden application.
    pub fn register_window(
        &mut self,
        prepared: &Prepared,
        role_is_window: bool,
        watches: &Vec<Result<(), AxError>>,
        stored: Option<TransactionId>,
    ) -> (r: (bool, Option<Event>))
        requires
            old(self).wf(),
            prepared.wid.valid(),
            prepared.wid.pid == old(self).pid,
            !old(self)@.windows.contains_key(prepared.wid),
        ensures
            final(self).wf(),
            r.0 == watched(role_is_window, watches@),
            final(self)@ == if r.0 {
                after_register(old(self)@, *prepared, stored)
            } else {
                old(self)@
            },
            r.1 == if r.0 && old(self).is_hidden {
                Some(Event::WindowMinimized(prepared.wid))
            } else {
                None
            },
    {
        let ghost before = self@;
        if !State::watches_succeeded(role_is_window, watches) {
            return (false, None);
        }
        let last_seen_txid = match stored {
            Some(t) => t,
            None => TransactionId(0),
        };
        let window = AppWindowState {
            elem: prepared.elem,
            last_seen_txid,
            hidden_by_app: self.is_hidden,
            window_server_id: prepared.window_server_id,
            is_animating: false,
            last_animation_frame: None,
        };
        proof {
            lemma_animating_insert(before.windows, prepared.wid, window);
            assert(animating(before.windows).remove(prepared.wid) =~= animating(before.windows));
        }
        let _ = self.windows.insert(prepared.wid, window);
        let _ = self.elem_to_wid.insert(prepared.elem, prepared.wid);
        assert(self@ =~= after_register(before, *prepared, stored));
        let event = if self.is_hidden {
            Some(Event::WindowMinimized(prepared.wid))
        } else {
            None
        };
        (true, event)
    }
}

/// A window that was registered is found again by its element.
pub proof fn law_registered_window_is_found(
    m: AppModel,
    prepared: Prepared,
    stored: Option<TransactionId>,
)
    requires
        m.wf(),
        prepared.wid.valid(),
        prepared.wid.pid == m.pid,
    ensures
        after_register(m, prepared, stored).id(
            ElementRef { token: prepared.elem, server_id: None },
        ) == Some(prepared.wid),
        after_register(m, prepared, stored).id(
            ElementRef { token: prepared.elem, server_id: Some(WindowServerId(prepared.wid.idx)) },
        ) == Some(prepared.wid),
{
}

/// How long the actor keeps trying to watch an application that does not
/// answer yet, in milliseconds.
pub open spec fn launch_patience(bundle_id: Option<Seq<char>>) -> u64 {
    match bundle_id {
        Some(id) => if begins_with(id, "com.jetbrains."@) || begins_with(id, "org.gnu.Emacs"@) {
            60_000
        } else {
            0
        },
        None => 0,
    }
}

pub fn launch_patience_ms(bundle_id: &Option<String>) -> (r: u64)
    ensures
        r == launch_patience(text_of(*bundle_id)),
{
    match bundle_id {
        Some(id) => {
            let chars: Vec<char> = chars_of(id.as_str());
            if starts_with(&chars, "com.jetbrains.") || starts_with(&chars, "org.gnu.Emacs") {
                60_000
            } else {
                0
            }
        },
        None => 0,
    }
}

/// The first pause between two attempts to watch an application, in milliseconds.
pub const FIRST_LAUNCH_PAUSE: u64 = 20;

/// The longest such pause.
pub const LONGEST_LAUNCH_PAUSE: u64 = 1000;

/// The pause before the next attempt and the one after it, or `None` once
/// the deadline has passed.
pub fn next_launch_pause(pause: u64, now: u64, deadline: u64) -> (r: Option<(u64, u64)>)
    requires
        pause <= LONGEST_LAUNCH_PAUSE,
    ensures
        match r {
            Some((sleep, next)) => {
                &&& now <= deadline
                &&& sleep == if pause <= deadline - now {
                    pause as int
                } else {
                    deadline - now
                }
                &&& next == if pause * 2 <= LONGEST_LAUNCH_PAUSE {
                    pause * 2
                } else {
                    LONGEST_LAUNCH_PAUSE as int
                }
            },
            None => deadline < now,
        },
{
    if deadline < now {
        return None;
    }
    let remaining: u64 = deadline - now;
    let sleep: u64 = if pause <= remaining {
        pause
    } else {
        remaining
    };
    let next: u64 = if pause * 2 <= LONGEST_LAUNCH_PAUSE {
        pause * 2
    } else {
        LONGEST_LAUNCH_PAUSE
    };
    Some((sleep, next))
}

/// A window is not managed if the window server does not show it and it is
/// not minimized, or if it is a popover or a menu; any other that says
/// nothing of widgets or extensions is.
pub proof fn law_reported_windows_to_manage(report: WindowReport, role: String)
    ensures
        report.info.sys_id is Some && report.server_info is None && !report.info.is_minimized
            ==> !manageable_report(report),
        report.info.ax_role == Some(role) && (role@ == "AXPopover"@ || role@ == "AXMenu"@)
            ==> !manageable_report(report),
        (report.info.sys_id is None || report.server_info is Some || report.info.is_minimized)
            && report.info.bundle_id is None && report.info.path is None && report.info.ax_role
            is None ==> manageable_report(report),
{
}

/// A widget goes by its bundle id and an extension by its path, whatever the
/// case; neither is managed.
pub proof fn law_widgets_and_extensions_are_not_managed(report: WindowReport, id: String)
    ensures
        report.info.bundle_id == Some(id) && (finishes_with(ascii_lower_seq(id@), ".widget"@)
            || occurs(ascii_lower_seq(id@), ".widget."@)) ==> !manageable_report(report),
        report.info.path == Some(id) && (occurs(ascii_lower_seq(id@), ".appex/"@) || finishes_with(
            ascii_lower_seq(id@),
            ".appex"@,
        )) ==> !manageable_report(report),
{
}

/// A window goes by the window server's number, its own or its element's; one
/// without a number gets the next free one, which is then used up.
pub proof fn law_window_gets_its_number(m: AppModel, report: WindowReport, n: WindowServerId)
    requires
        m.last_window_idx < u32::MAX,
    ensures
        report.info.sys_id == Some(n) && n.0 != 0 ==> report_wid(m, report) == (WindowId {
            pid: m.pid,
            idx: n.0,
        }) && after_prepare(m, report) == m,
        report.info.sys_id is None && report.fallback_server_id == Some(n) && n.0 != 0
            ==> report_wid(m, report) == (WindowId { pid: m.pid, idx: n.0 }) && after_prepare(
            m,
            report,
        ) == m,
        report.info.sys_id is None && report.fallback_server_id is None ==> report_wid(m, report)
            == (WindowId { pid: m.pid, idx: (m.last_window_idx + 1) as u32 }) && (
        manageable_report(report) ==> after_prepare(m, report).last_window_idx == m.last_window_idx
            + 1),
        report_wid(m, report).pid == m.pid,
{
}

/// A window counts as a root if it has no number or no parent, and as
/// standard if it says so, but for some applications only with a title
/// element; all else of its report stands.
pub proof fn law_reports_are_corrected(m: AppModel, report: WindowReport)
    ensures
        ({
            let info = corrected_info(m, report);
            &&& info.is_root <==> report.info.sys_id is None || !report.has_parent
            &&& info.is_standard ==> report.info.is_standard
            &&& report.info.is_standard && report.has_title_element ==> info.is_standard
            &&& report.info.is_standard && m.bundle_id is None ==> info.is_standard
            &&& m.bundle_id == Some("com.googlecode.iterm2"@) && !report.has_title_element
                ==> !info.is_standard
            &&& info.frame == report.info.frame
            &&& info.is_minimized == report.info.is_minimized
            &&& info.title == report.info.title
        }),
{
}

/// A window is watched if it is a window and every notification was
/// registered, now or before.
pub proof fn law_watching_needs_every_notification(
    role_is_window: bool,
    watches: Seq<Result<(), AxError>>,
    i: int,
)
    ensures
        !role_is_window ==> !watched(role_is_window, watches),
        0 <= i < watches.len() && (watches[i] matches Err(e) && e != AxError::Ax(
            AxCode::NotificationAlreadyRegistered,
        )) ==> !watched(role_is_window, watches),
        role_is_window && (forall|j: int| 0 <= j < watches.len() ==> #[trigger] watches[j] is Ok)
            ==> watched(role_is_window, watches),
{
}

/// A registered window is at rest, has seen the write that is recorded for
/// it, and counts as hidden if its application is.
pub proof fn law_registered_window_begins_at_rest(
    m: AppModel,
    prepared: Prepared,
    stored: Option<TransactionId>,
)
    ensures
        ({
            let w = after_register(m, prepared, stored).windows[prepared.wid];
            &&& !w.is_animating
            &&& w.elem == prepared.elem
            &&& w.hidden_by_app == m.is_hidden
            &&& w.window_server_id == prepared.window_server_id
            &&& stored matches Some(t) ==> w.last_seen_txid == t
            &&& stored is None ==> w.last_seen_txid == TransactionId(0)
            &&& w.last_animation_frame is None
        }),
{
}

/// Slow starters are waited for a minute, and no other application at all.
pub proof fn law_slow_starters_are_waited_for(id: Seq<char>)
    ensures
        begins_with(id, "com.jetbrains."@) || begins_with(id, "org.gnu.Emacs"@) <==> launch_patience(
            Some(id),
        ) == 60_000,
        launch_patience(Some(id)) == 60_000 || launch_patience(Some(id)) == 0,
        launch_patience(None) == 0,
{
}

} // verus!
