//! What the app actor makes of accessibility notifications.

use vstd::prelude::*;

use crate::app::actor::{AppModel, AppWindowState, ElementRef, RemovedWindow, State};
use crate::app::{AxNotificationKind, WindowId};
use crate::collections::lemma_filter_members;
use crate::event::Event;
use crate::ids::{TransactionId, WindowServerId};

verus! {

/// How long after the actor activated its application an activation counts
/// as its own, in milliseconds.
pub const OWN_ACTIVATION_WINDOW: u64 = 1000;

/// What to do next about a notification.
pub enum NotificationStep {
    Ignore,
    /// Send the events, in order.
    Send(Vec<Event>),
    /// Read whether each of the windows is minimized, then call `on_application_shown`.
    ReadMinimized(Vec<WindowId>),
    /// Read whether the application is frontmost, then call `on_activation_changed`.
    ReadFrontmost,
    /// List the windows, call `remove_stale_windows`, then read the main window.
    ListWindows,
    /// Register the window of the element.
    Register,
    /// Send the event, then read the main window, quietly for the removed window.
    Destroyed { removed: RemovedWindow, event: Event },
    /// Read the frame of the window, then call `frame_read`.
    ReadFrame {
        wid: WindowId,
        server_id: Option<WindowServerId>,
        last_seen_txid: TransactionId,
    },
    /// Read the title of the window and send it.
    ReadTitle(WindowId),
}

/// With a window no longer counted as hidden by its application.
pub open spec fn with_shown(m: AppModel, wid: WindowId) -> AppModel {
    if m.windows.contains_key(wid) {
        m.with_window(wid, AppWindowState { hidden_by_app: false, ..m.windows[wid] })
    } else {
        m
    }
}

/// The members of a sequence whose hidden mark is as given.
pub open spec fn with_hidden_mark(
    windows: Map<WindowId, AppWindowState>,
    order: Seq<WindowId>,
    mark: bool,
) -> Seq<WindowId> {
    order.filter(|w: WindowId| windows[w].hidden_by_app == mark)
}

/// The windows with their hidden marks set.
pub open spec fn all_marked(windows: Map<WindowId, AppWindowState>, mark: bool) -> Map<
    WindowId,
    AppWindowState,
> {
    windows.map_values(|s: AppWindowState| AppWindowState { hidden_by_app: mark, ..s })
}

pub open spec fn minimized_events(wids: Seq<WindowId>) -> Seq<Event> {
    wids.map_values(|w: WindowId| Event::WindowMinimized(w))
}

pub open spec fn restored_events(wids: Seq<WindowId>) -> Seq<Event> {
    wids.map_values(|w: WindowId| Event::WindowDeminiaturized(w))
}

/// The members of `wids` whose entry in `minimized` is false.
pub open spec fn not_minimized(wids: Seq<WindowId>, minimized: Seq<bool>) -> Seq<WindowId>
    recommends
        wids.len() == minimized.len(),
    decreases wids.len(),
{
    if wids.len() == 0 {
        Seq::empty()
    } else {
        let rest = not_minimized(wids.drop_last(), minimized.drop_last());
        if minimized.last() {
            rest
        } else {
            rest.push(wids.last())
        }
    }
}

fn one_event(event: Event) -> (r: Vec<Event>)
    ensures
        r@ == seq![event],
{
    let mut r: Vec<Event> = Vec::new();
    r.push(event);
    assert(r@ =~= seq![event]);
    r
}

impl State {
    /// The application was hidden: every window that was not hidden with it
    /// yet now is, and is reported minimized.
    pub fn on_application_hidden(&mut self) -> (r: Vec<Event>)
        requires
            old(self).wf(),
        ensures
            final(self).wf(),
            if old(self).is_hidden {
                final(self)@ == old(self)@ && r@ == Seq::<Event>::empty()
            } else {
                &&& final(self)@ == (AppModel {
                    is_hidden: true,
                    windows: all_marked(old(self)@.windows, true),
                    ..old(self)@
                })
                &&& r@ == minimized_events(
                    with_hidden_mark(old(self)@.windows, old(self)@.window_order, false),
                )
            },
    {
        if self.is_hidden {
            return Vec::new();
        }
        let hidden: Vec<WindowId> = self.windows_with_mark(false);
        self.mark_all(true);
        self.is_hidden = true;
        let mut events: Vec<Event> = Vec::new();
        let mut i: usize = 0;
        while i < hidden.len()
            invariant
                i <= hidden@.len(),
                events@ == minimized_events(hidden@).take(i as int),
            decreases hidden@.len() - i,
        {
            events.push(Event::WindowMinimized(hidden[i]));
            assert(events@ =~= minimized_events(hidden@).take(i + 1));
            i += 1;
        }
        assert(minimized_events(hidden@).take(i as int) =~= minimized_events(hidden@));
        events
    }

    /// The windows whose hidden mark is as given, in order.
    pub fn windows_with_mark(&self, mark: bool) -> (r: Vec<WindowId>)
        ensures
            r@ == with_hidden_mark(self@.windows, self@.window_order, mark),
    {
        let wids: Vec<WindowId> = self.windows.keys();
        let mut r: Vec<WindowId> = Vec::new();
        let mut i: usize = 0;
        proof {
            reveal(Seq::filter);
            assert(wids@.take(0) =~= Seq::<WindowId>::empty());
        }
        while i < wids.len()
            invariant
                i <= wids@.len(),
                wids@ == self@.window_order,
                r@ == with_hidden_mark(self@.windows, wids@.take(i as int), mark),
                forall|w: WindowId| #[trigger]
                    wids@.contains(w) <==> self@.windows.contains_key(w),
            decreases wids@.len() - i,
        {
            let ghost next = wids@.take(i + 1);
            assert(next.drop_last() =~= wids@.take(i as int));
            assert(next.last() == wids@[i as int]);
            reveal(Seq::filter);
            assert(wids@.contains(wids@[i as int]));
            let hidden: bool = match self.windows.get(wids[i]) {
                Some(w) => w.hidden_by_app,
                None => false,
            };
            if hidden == mark {
                r.push(wids[i]);
            }
            i += 1;
        }
        assert(wids@.take(i as int) =~= wids@);
        r
    }

    fn mark_all(&mut self, mark: bool)
        requires
            old(self).wf(),
        ensures
            final(self).wf(),
            final(self)@ == (AppModel { windows: all_marked(old(self)@.windows, mark), ..old(self)@ }),
    {
        let ghost before = self@;
        let wids: Vec<WindowId> = self.windows.keys();
        let mut i: usize = 0;
        while i < wids.len()
            invariant
                i <= wids@.len(),
                wids@ == before.window_order,
                wids@.no_duplicates(),
                forall|w: WindowId| #[trigger]
                    wids@.contains(w) <==> before.windows.contains_key(w),
                self.wf(),
                self@ == (AppModel { windows: self@.windows, ..before }),
                self@.windows.dom() == before.windows.dom(),
                forall|j: int|
                    0 <= j < i ==> self@.windows[#[trigger] wids@[j]] == (AppWindowState {
                        hidden_by_app: mark,
                        ..before.windows[wids@[j]]
                    }),
                forall|j: int|
                    i <= j < wids@.len() ==> self@.windows[#[trigger] wids@[j]]
                        == before.windows[wids@[j]],
            decreases wids@.len() - i,
        {
            let wid: WindowId = wids[i];
            assert(wids@.contains(wid));
            if let Some(w) = self.windows.get(wid) {
                let window: AppWindowState = *w;
                self.update_window(wid, AppWindowState { hidden_by_app: mark, ..window });
                assert(self@.windows.dom() =~= before.windows.dom());
            }
            i += 1;
        }
        proof {
            assert(self@.windows =~= all_marked(before.windows, mark)) by {
                assert forall|w: WindowId| #[trigger] self@.windows.contains_key(w) implies
                    self@.windows[w] == all_marked(before.windows, mark)[w] by {
                    assert(wids@.contains(w));
                    let j = choose|j: int| 0 <= j < wids@.len() && wids@[j] == w;
                    assert(self@.windows[wids@[j]] == (AppWindowState {
                        hidden_by_app: mark,
                        ..before.windows[wids@[j]]
                    }));
                }
            }
        }
    }

    /// The application was shown: the windows that were hidden with it no
    /// longer are, and those that are not minimized are reported restored.
    /// `minimized` answers for the windows that `windows_with_mark(true)` lists.
    pub fn on_application_shown(&mut self, minimized: &Vec<bool>) -> (r: Vec<Event>)
        requires
            old(self).wf(),
            old(self).is_hidden ==> minimized@.len() == with_hidden_mark(
                old(self)@.windows,
                old(self)@.window_order,
                true,
            ).len(),
        ensures
            final(self).wf(),
            if !old(self).is_hidden {
                final(self)@ == old(self)@ && r@ == Seq::<Event>::empty()
            } else {
                &&& final(self)@ == (AppModel {
                    is_hidden: false,
                    windows: all_marked(old(self)@.windows, false),
                    ..old(self)@
                })
                &&& r@ == restored_events(
                    not_minimized(
                        with_hidden_mark(old(self)@.windows, old(self)@.window_order, true),
                        minimized@,
                    ),
                )
            },
    {
        if !self.is_hidden {
            return Vec::new();
        }
        let hidden: Vec<WindowId> = self.windows_with_mark(true);
        self.mark_all(false);
        self.is_hidden = false;
        let mut events: Vec<Event> = Vec::new();
        let mut i: usize = 0;
        assert(restored_events(not_minimized(hidden@.take(0), minimized@.take(0)))
            =~= Seq::<Event>::empty());
        while i < hidden.len()
            invariant
                i <= hidden@.len(),
                hidden@.len() == minimized@.len(),
                events@ == restored_events(
                    not_minimized(hidden@.take(i as int), minimized@.take(i as int)),
                ),
            decreases hidden@.len() - i,
        {
            assert(hidden@.take(i + 1).drop_last() =~= hidden@.take(i as int));
            assert(minimized@.take(i + 1).drop_last() =~= minimized@.take(i as int));
            if !minimized[i] {
                events.push(Event::WindowDeminiaturized(hidden[i]));
            }
            assert(events@ =~= restored_events(
                not_minimized(hidden@.take(i + 1), minimized@.take(i + 1)),
            ));
            i += 1;
        }
        assert(hidden@.take(i as int) =~= hidden@);
        assert(minimized@.take(i as int) =~= minimized@);
        events
    }

    /// The first step of a notification.
    pub fn handle_notification(
        &mut self,
        notif: AxNotificationKind,
        elem: ElementRef,
        hinted_wid: Option<WindowId>,
    ) -> (r: NotificationStep)
        requires
            old(self).wf(),
        ensures
            final(self).wf(),
            notification_step(old(self)@, notif, elem, hinted_wid, final(self)@, r),
    {
        match notif {
            AxNotificationKind::ApplicationHidden => {
                let events: Vec<Event> = self.on_application_hidden();
                NotificationStep::Send(events)
            },
            AxNotificationKind::ApplicationShown => {
                if !self.is_hidden {
                    return NotificationStep::Ignore;
                }
                NotificationStep::ReadMinimized(self.windows_with_mark(true))
            },
            AxNotificationKind::ApplicationActivated
            | AxNotificationKind::ApplicationDeactivated => NotificationStep::ReadFrontmost,
            AxNotificationKind::MainWindowChanged => NotificationStep::ListWindows,
            AxNotificationKind::WindowCreated => {
                if self.id(elem).is_some() {
                    NotificationStep::Ignore
                } else {
                    NotificationStep::Register
                }
            },
            AxNotificationKind::MenuOpened => NotificationStep::Send(
                one_event(Event::MenuOpened(self.pid)),
            ),
            AxNotificationKind::MenuClosed => NotificationStep::Send(
                one_event(Event::MenuClosed(self.pid)),
            ),
            AxNotificationKind::WindowDestroyed => {
                let wid = match self.wid_for_notification(elem, hinted_wid) {
                    Some(w) => w,
                    None => {
                        return NotificationStep::Ignore;
                    },
                };
                match self.remove_window(wid) {
                    Some(removed) => NotificationStep::Destroyed {
                        removed,
                        event: Event::WindowDestroyed(wid),
                    },
                    None => NotificationStep::Ignore,
                }
            },
            AxNotificationKind::WindowMoved | AxNotificationKind::WindowResized => {
                let wid = match self.wid_for_notification(elem, hinted_wid) {
                    Some(w) => w,
                    None => {
                        return NotificationStep::Ignore;
                    },
                };
                match self.windows.get(wid) {
                    Some(window) => if window.is_animating {
                        NotificationStep::Ignore
                    } else {
                        NotificationStep::ReadFrame {
                            wid,
                            server_id: window.window_server_id,
                            last_seen_txid: window.last_seen_txid,
                        }
                    },
                    None => NotificationStep::Ignore,
                }
            },
            AxNotificationKind::WindowMiniaturized => {
                let wid = match self.wid_for_notification(elem, hinted_wid) {
                    Some(w) => w,
                    None => {
                        return NotificationStep::Ignore;
                    },
                };
                self.show_window(wid);
                NotificationStep::Send(one_event(Event::WindowMinimized(wid)))
            },
            AxNotificationKind::WindowDeminiaturized => {
                let wid = match self.wid_for_notification(elem, hinted_wid) {
                    Some(w) => w,
                    None => {
                        return NotificationStep::Ignore;
                    },
                };
                self.show_window(wid);
                NotificationStep::Send(one_event(Event::WindowDeminiaturized(wid)))
            },
            AxNotificationKind::TitleChanged => match self.wid_for_notification(elem, hinted_wid) {
                Some(wid) => NotificationStep::ReadTitle(wid),
                None => NotificationStep::Ignore,
            },
        }
    }

    fn show_window(&mut self, wid: WindowId)
        requires
            old(self).wf(),
        ensures
            final(self).wf(),
            final(self)@ == with_shown(old(self)@, wid),
    {
        if let Some(w) = self.windows.get(wid) {
            let window: AppWindowState = *w;
            self.update_window(wid, AppWindowState { hidden_by_app: false, ..window });
        }
    }
}

/// How a notification changes the books, and the step that follows.
pub open spec fn notification_step(
    m: AppModel,
    notif: AxNotificationKind,
    elem: ElementRef,
    hinted_wid: Option<WindowId>,
    next: AppModel,
    step: NotificationStep,
) -> bool {
    let target = m.wid_for_notification(elem, hinted_wid);
    match notif {
        AxNotificationKind::ApplicationHidden => step matches NotificationStep::Send(events)
            && if m.is_hidden {
            next == m && events@ == Seq::<Event>::empty()
        } else {
            &&& next == (AppModel { is_hidden: true, windows: all_marked(m.windows, true), ..m })
            &&& events@ == minimized_events(with_hidden_mark(m.windows, m.window_order, false))
        },
        AxNotificationKind::ApplicationShown => next == m && if m.is_hidden {
            step matches NotificationStep::ReadMinimized(wids) && wids@ == with_hidden_mark(
                m.windows,
                m.window_order,
                true,
            )
        } else {
            step == NotificationStep::Ignore
        },
        AxNotificationKind::ApplicationActivated
        | AxNotificationKind::ApplicationDeactivated => next == m && step
            == NotificationStep::ReadFrontmost,
        AxNotificationKind::MainWindowChanged => next == m && step == NotificationStep::ListWindows,
        AxNotificationKind::WindowCreated => next == m && step == if m.id(elem) is Some {
            NotificationStep::Ignore
        } else {
            NotificationStep::Register
        },
        AxNotificationKind::MenuOpened => next == m && (step matches NotificationStep::Send(events)
            && events@ == seq![Event::MenuOpened(m.pid)]),
        AxNotificationKind::MenuClosed => next == m && (step matches NotificationStep::Send(events)
            && events@ == seq![Event::MenuClosed(m.pid)]),
        AxNotificationKind::WindowDestroyed => match target {
            Some(wid) if m.windows.contains_key(wid) => {
                &&& next == m.without_window(wid)
                &&& step == NotificationStep::Destroyed {
                    removed: RemovedWindow {
                        wid,
                        window: m.windows[wid],
                        restore_enhanced_ui: m.removal_ends_animation(wid),
                    },
                    event: Event::WindowDestroyed(wid),
                }
            },
            _ => next == m && step == NotificationStep::Ignore,
        },
        AxNotificationKind::WindowMoved | AxNotificationKind::WindowResized => next == m
            && step == match target {
            Some(wid) if m.windows.contains_key(wid) && !m.windows[wid].is_animating =>
                NotificationStep::ReadFrame {
                wid,
                server_id: m.windows[wid].window_server_id,
                last_seen_txid: m.windows[wid].last_seen_txid,
            },
            _ => NotificationStep::Ignore,
        },
        AxNotificationKind::WindowMiniaturized => match target {
            Some(wid) => next == with_shown(m, wid) && (step matches NotificationStep::Send(events)
                && events@ == seq![Event::WindowMinimized(wid)]),
            None => next == m && step == NotificationStep::Ignore,
        },
        AxNotificationKind::WindowDeminiaturized => match target {
            Some(wid) => next == with_shown(m, wid) && (step matches NotificationStep::Send(events)
                && events@ == seq![Event::WindowDeminiaturized(wid)]),
            None => next == m && step == NotificationStep::Ignore,
        },
        AxNotificationKind::TitleChanged => next == m && step == match target {
            Some(wid) => NotificationStep::ReadTitle(wid),
            None => NotificationStep::Ignore,
        },
    }
}

/// An application that is hidden has its windows minimized that were not
/// hidden with it before; told again, it does nothing.
pub proof fn law_hidden_application_minimizes_its_windows(
    m: AppModel,
    elem: ElementRef,
    hint: Option<WindowId>,
    next: AppModel,
    step: NotificationStep,
    wid: WindowId,
)
    requires
        notification_step(m, AxNotificationKind::ApplicationHidden, elem, hint, next, step),
    ensures
        next.is_hidden,
        m.is_hidden ==> next == m && (step matches NotificationStep::Send(events) && events@.len()
            == 0),
        !m.is_hidden ==> (step matches NotificationStep::Send(events) && (events@.contains(
            Event::WindowMinimized(wid),
        ) <==> m.window_order.contains(wid) && !m.windows[wid].hidden_by_app)),
        !m.is_hidden && m.windows.contains_key(wid) ==> next.windows[wid].hidden_by_app,
{
    let kept = with_hidden_mark(m.windows, m.window_order, false);
    lemma_marked(m.windows, m.window_order, false, wid);
    if !m.is_hidden {
        let events = minimized_events(kept);
        if events.contains(Event::WindowMinimized(wid)) {
            let k = events.index_of(Event::WindowMinimized(wid));
            assert(events[k] == Event::WindowMinimized(kept[k]));
            assert(kept.contains(wid));
        }
        if kept.contains(wid) {
            let k = kept.index_of(wid);
            assert(events[k] == Event::WindowMinimized(wid));
        }
    }
}

proof fn lemma_marked(
    windows: Map<WindowId, AppWindowState>,
    order: Seq<WindowId>,
    mark: bool,
    wid: WindowId,
)
    ensures
        with_hidden_mark(windows, order, mark).contains(wid) <==> order.contains(wid)
            && windows[wid].hidden_by_app == mark,
{
    lemma_filter_members(order, |w: WindowId| windows[w].hidden_by_app == mark);
}

/// Of the windows that come back with their application, those that are not
/// minimized themselves are restored.
pub proof fn law_shown_windows_are_restored(
    wids: Seq<WindowId>,
    minimized: Seq<bool>,
    wid: WindowId,
)
    requires
        wids.len() == minimized.len(),
    ensures
        not_minimized(wids, minimized).contains(wid) <==> exists|i: int|
            0 <= i < wids.len() && #[trigger] wids[i] == wid && !minimized[i],
    decreases wids.len(),
{
    if wids.len() > 0 {
        let rest = wids.drop_last();
        let less = minimized.drop_last();
        law_shown_windows_are_restored(rest, less, wid);
        let a = not_minimized(rest, less);
        let b = not_minimized(wids, minimized);
        if a.contains(wid) {
            let k = a.index_of(wid);
            assert(b[k] == wid);
            let i = choose|i: int| 0 <= i < rest.len() && #[trigger] rest[i] == wid && !less[i];
            assert(wids[i] == wid && !minimized[i]);
        }
        if b.contains(wid) && !a.contains(wid) {
            let k = b.index_of(wid);
            if k < a.len() {
                assert(a[k] == wid);
            }
            assert(wids[wids.len() - 1] == wid);
        }
        if exists|i: int| 0 <= i < wids.len() && #[trigger] wids[i] == wid && !minimized[i] {
            let i = choose|i: int|
                0 <= i < wids.len() && #[trigger] wids[i] == wid && !minimized[i];
            if i < rest.len() {
                assert(rest[i] == wid && !less[i]);
            } else {
                assert(b.last() == wid);
            }
        }
    }
}

/// A window that was moved or resized has its frame read, unless it is being
/// animated; one that is destroyed is removed and reported; one that is
/// minimized or restored is reported as that, and no longer counts as hidden
/// with its application.
pub proof fn law_window_notifications(
    m: AppModel,
    notif: AxNotificationKind,
    elem: ElementRef,
    wid: WindowId,
    next: AppModel,
    step: NotificationStep,
)
    requires
        notification_step(m, notif, elem, Some(wid), next, step),
        wid.pid == m.pid,
        m.windows.contains_key(wid),
    ensures
        notif == AxNotificationKind::WindowMoved || notif == AxNotificationKind::WindowResized
            ==> next == m && if m.windows[wid].is_animating {
            step == NotificationStep::Ignore
        } else {
            step == (NotificationStep::ReadFrame {
                wid,
                server_id: m.windows[wid].window_server_id,
                last_seen_txid: m.windows[wid].last_seen_txid,
            })
        },
        notif == AxNotificationKind::WindowDestroyed ==> !next.windows.contains_key(wid) && (step
            matches NotificationStep::Destroyed { removed, event } && event
            == Event::WindowDestroyed(wid) && removed.wid == wid),
        notif == AxNotificationKind::WindowMiniaturized ==> !next.windows[wid].hidden_by_app && (
        step matches NotificationStep::Send(events) && events@ == seq![
            Event::WindowMinimized(wid),
        ]),
        notif == AxNotificationKind::WindowDeminiaturized ==> !next.windows[wid].hidden_by_app && (
        step matches NotificationStep::Send(events) && events@ == seq![
            Event::WindowDeminiaturized(wid),
        ]),
        notif == AxNotificationKind::TitleChanged ==> next == m && step
            == NotificationStep::ReadTitle(wid),
{
}

/// What an application notifies of itself has just that read or reported.
pub proof fn law_application_notifications(
    m: AppModel,
    notif: AxNotificationKind,
    elem: ElementRef,
    hint: Option<WindowId>,
    next: AppModel,
    step: NotificationStep,
)
    requires
        notification_step(m, notif, elem, hint, next, step),
    ensures
        notif == AxNotificationKind::ApplicationActivated || notif
            == AxNotificationKind::ApplicationDeactivated ==> step
            == NotificationStep::ReadFrontmost && next == m,
        notif == AxNotificationKind::MainWindowChanged ==> step == NotificationStep::ListWindows
            && next == m,
        notif == AxNotificationKind::MenuOpened ==> (step matches NotificationStep::Send(events)
            && events@ == seq![Event::MenuOpened(m.pid)]),
        notif == AxNotificationKind::MenuClosed ==> (step matches NotificationStep::Send(events)
            && events@ == seq![Event::MenuClosed(m.pid)]),
        notif == AxNotificationKind::WindowCreated && m.id(elem) is None ==> step
            == NotificationStep::Register,
        notif == AxNotificationKind::WindowCreated && m.id(elem) is Some ==> step
            == NotificationStep::Ignore,
        notif == AxNotificationKind::ApplicationShown && !m.is_hidden ==> step
            == NotificationStep::Ignore,
{
}

} // verus!
