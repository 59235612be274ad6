//! Which window the user works in: the main window of the frontmost
//! application, with the transients of activation kept out.

use vstd::prelude::*;

use crate::app::{Quiet, WindowId};
use crate::collections::IdMap;
use crate::event::Event;
use crate::ids::pid_t;

verus! {

/// How long after an activation the preferred window is held on to, in
/// milliseconds.
pub const ACTIVATION_SETTLE_TIMEOUT: u64 = 1000;

#[derive(Copy, Clone, Debug, PartialEq, Eq)]
pub struct AppState {
    pub is_frontmost: bool,
    pub frontmost_is_quiet: Quiet,
    pub main_window: Option<WindowId>,
    pub deactivated_main_window: Option<WindowId>,
    /// The window preferred since an activation, and when that was.
    pub activation_preference: Option<(WindowId, u64)>,
}

/// Times are milliseconds of a monotonic clock.
pub struct MainWindowTracker {
    pub apps: IdMap<pid_t, AppState>,
    pub global_frontmost: Option<pid_t>,
    pub last_clicked_window: Option<(WindowId, u64)>,
    /// The window that the window manager itself asked to focus.
    pub requested_focus: Option<(WindowId, u64)>,
}

/// The mathematical content of a [`MainWindowTracker`].
#[verifier::ext_equal]
pub struct TrackerModel {
    pub apps: Map<pid_t, AppState>,
    pub global_frontmost: Option<pid_t>,
    pub last_clicked_window: Option<(WindowId, u64)>,
    pub requested_focus: Option<(WindowId, u64)>,
}

impl View for MainWindowTracker {
    type V = TrackerModel;

    open spec fn view(&self) -> TrackerModel {
        TrackerModel {
            apps: self.apps@,
            global_frontmost: self.global_frontmost,
            last_clicked_window: self.last_clicked_window,
            requested_focus: self.requested_focus,
        }
    }
}

/// Whether something noted at `since` still counts at `now`.
pub open spec fn settling(since: u64, now: u64) -> bool {
    now < since || now - since < ACTIVATION_SETTLE_TIMEOUT
}

/// The window of a note that still counts.
pub open spec fn fresh(note: Option<(WindowId, u64)>, now: u64) -> Option<WindowId> {
    match note {
        Some((window, since)) if settling(since, now) => Some(window),
        _ => None,
    }
}

/// The window of a note that still counts and belongs to a process.
pub open spec fn fresh_of(note: Option<(WindowId, u64)>, pid: pid_t, now: u64) -> Option<WindowId> {
    match fresh(note, now) {
        Some(window) if window.pid == pid => Some(window),
        _ => None,
    }
}

pub open spec fn either(a: Option<WindowId>, b: Option<WindowId>) -> Option<WindowId> {
    if a is Some {
        a
    } else {
        b
    }
}

impl TrackerModel {
    pub open spec fn main_window(self) -> Option<WindowId> {
        match self.global_frontmost {
            Some(pid) if self.apps.contains_key(pid) && self.apps[pid].is_frontmost =>
                self.apps[pid].main_window,
            _ => None,
        }
    }

    /// With one application's record replaced.
    pub open spec fn with_app(self, pid: pid_t, app: AppState) -> TrackerModel {
        TrackerModel { apps: self.apps.insert(pid, app), ..self }
    }

    /// The window that an activation of a known application prefers over its
    /// reported main window: one that focus was requested for, the one
    /// preferred since a recent activation, one just clicked, or the one it
    /// had when it was deactivated.
    pub open spec fn stable_preference(self, pid: pid_t, now: u64) -> Option<WindowId> {
        either(
            fresh_of(self.requested_focus, pid, now),
            either(
                fresh(self.apps[pid].activation_preference, now),
                either(
                    fresh_of(self.last_clicked_window, pid, now),
                    self.apps[pid].deactivated_main_window,
                ),
            ),
        )
    }

    pub open spec fn preferred(self, pid: pid_t, now: u64) -> Option<WindowId> {
        either(self.stable_preference(pid, now), self.apps[pid].main_window)
    }

    /// After an activation of a process began.
    pub open spec fn activation_begun(self, pid: pid_t, now: u64) -> TrackerModel {
        let cleared = TrackerModel {
            last_clicked_window: None,
            requested_focus: match self.requested_focus {
                Some((window, _)) if window.pid == pid => None,
                other => other,
            },
            ..self
        };
        if !self.apps.contains_key(pid) {
            cleared
        } else {
            cleared.with_app(
                pid,
                AppState {
                    deactivated_main_window: None,
                    activation_preference: match self.stable_preference(pid, now) {
                        Some(window) => Some((window, now)),
                        None => None,
                    },
                    ..self.apps[pid]
                },
            )
        }
    }

    /// Whether a reported main window gives way to the preferred one.
    pub open spec fn keeps_preference(
        self,
        pid: pid_t,
        wid: Option<WindowId>,
        quiet: Quiet,
        now: u64,
    ) -> bool {
        let preferred = fresh(self.apps[pid].activation_preference, now);
        quiet == Quiet::No && self.apps[pid].is_frontmost && preferred is Some && wid != preferred
    }

    /// After an event.
    pub open spec fn after(self, event: Event, now: u64) -> TrackerModel {
        match event {
            Event::ApplicationLaunched { pid, is_frontmost, main_window, .. } => self.with_app(
                pid,
                AppState {
                    is_frontmost,
                    frontmost_is_quiet: Quiet::No,
                    main_window,
                    deactivated_main_window: None,
                    activation_preference: None,
                },
            ),
            Event::ApplicationThreadTerminated(pid) => TrackerModel {
                apps: self.apps.remove(pid),
                ..self
            },
            Event::WindowDestroyed(window) => {
                let rest = TrackerModel {
                    requested_focus: note_without(self.requested_focus, window),
                    ..self
                };
                if !self.apps.contains_key(window.pid) {
                    rest
                } else {
                    let app = self.apps[window.pid];
                    rest.with_app(
                        window.pid,
                        AppState {
                            main_window: without(app.main_window, window),
                            deactivated_main_window: without(app.deactivated_main_window, window),
                            activation_preference: note_without(app.activation_preference, window),
                            ..app
                        },
                    )
                }
            },
            Event::ApplicationActivated(pid, quiet) => {
                let begun = self.activation_begun(pid, now);
                if !self.apps.contains_key(pid) {
                    begun
                } else {
                    begun.with_app(
                        pid,
                        AppState {
                            is_frontmost: true,
                            frontmost_is_quiet: quiet,
                            main_window: self.preferred(pid, now),
                            ..begun.apps[pid]
                        },
                    )
                }
            },
            Event::ApplicationDeactivated(pid) => self.deactivated(pid),
            Event::ApplicationGloballyActivated(pid) => {
                let front = TrackerModel { global_frontmost: Some(pid), ..self };
                let begun = front.activation_begun(pid, now);
                if !self.apps.contains_key(pid) {
                    begun
                } else {
                    begun.with_app(
                        pid,
                        AppState {
                            is_frontmost: true,
                            main_window: self.preferred(pid, now),
                            ..begun.apps[pid]
                        },
                    )
                }
            },
            Event::ApplicationGloballyDeactivated(pid) => TrackerModel {
                global_frontmost: if self.global_frontmost == Some(pid) {
                    None
                } else {
                    self.global_frontmost
                },
                ..self
            }.deactivated(pid),
            Event::ApplicationMainWindowChanged(pid, wid, quiet) => if !self.apps.contains_key(
                pid,
            ) {
                self
            } else if self.keeps_preference(pid, wid, quiet, now) {
                self.with_app(
                    pid,
                    AppState {
                        main_window: fresh(self.apps[pid].activation_preference, now),
                        ..self.apps[pid]
                    },
                )
            } else {
                self.with_app(
                    pid,
                    AppState { activation_preference: None, main_window: wid, ..self.apps[pid] },
                )
            },
            _ => self,
        }
    }

    pub open spec fn deactivated(self, pid: pid_t) -> TrackerModel {
        if !self.apps.contains_key(pid) {
            self
        } else {
            self.with_app(
                pid,
                AppState {
                    deactivated_main_window: self.apps[pid].main_window,
                    activation_preference: None,
                    is_frontmost: false,
                    ..self.apps[pid]
                },
            )
        }
    }

    /// The window that an event brought to the front, other than quietly.
    pub open spec fn raised_by(self, event: Event, now: u64) -> Option<WindowId> {
        let after = self.after(event, now);
        let edge = match event {
            Event::ApplicationLaunched { pid, .. } => Some((pid, Quiet::No)),
            Event::ApplicationActivated(pid, quiet) if self.apps.contains_key(pid) => Some(
                (pid, quiet),
            ),
            Event::ApplicationGloballyActivated(pid) if self.apps.contains_key(pid) => Some(
                (pid, self.apps[pid].frontmost_is_quiet),
            ),
            Event::ApplicationMainWindowChanged(pid, _, quiet) if self.apps.contains_key(pid) =>
                Some((pid, quiet)),
            _ => None,
        };
        match edge {
            Some((pid, Quiet::No)) if after.global_frontmost == Some(pid) => after.main_window(),
            _ => None,
        }
    }
}

pub open spec fn without(w: Option<WindowId>, gone: WindowId) -> Option<WindowId> {
    if w == Some(gone) {
        None
    } else {
        w
    }
}

/// A note, unless it is of a window that is gone.
pub open spec fn note_without(note: Option<(WindowId, u64)>, gone: WindowId) -> Option<
    (WindowId, u64),
> {
    match note {
        Some((window, _)) if window == gone => None,
        other => other,
    }
}

fn drop_note(note: Option<(WindowId, u64)>, gone: WindowId) -> (r: Option<(WindowId, u64)>)
    ensures
        r == note_without(note, gone),
{
    match note {
        Some((window, _)) if window == gone => None,
        other => other,
    }
}

fn drop_window(w: Option<WindowId>, gone: WindowId) -> (r: Option<WindowId>)
    ensures
        r == without(w, gone),
{
    match w {
        Some(x) if x == gone => None,
        other => other,
    }
}

fn fresh_window(note: Option<(WindowId, u64)>, now: u64) -> (r: Option<WindowId>)
    ensures
        r == fresh(note, now),
{
    match note {
        Some((window, since)) => {
            if now.saturating_sub(since) < ACTIVATION_SETTLE_TIMEOUT {
                Some(window)
            } else {
                None
            }
        },
        None => None,
    }
}

fn fresh_window_of(note: Option<(WindowId, u64)>, pid: pid_t, now: u64) -> (r: Option<WindowId>)
    ensures
        r == fresh_of(note, pid, now),
{
    match fresh_window(note, now) {
        Some(window) => if window.pid == pid {
            Some(window)
        } else {
            None
        },
        None => None,
    }
}

fn first_of(a: Option<WindowId>, b: Option<WindowId>) -> (r: Option<WindowId>)
    ensures
        r == either(a, b),
{
    match a {
        Some(w) => Some(w),
        None => b,
    }
}

fn same_window(a: Option<WindowId>, b: Option<WindowId>) -> (r: bool)
    ensures
        r == (a == b),
{
    match (a, b) {
        (Some(x), Some(y)) => x == y,
        (None, None) => true,
        _ => false,
    }
}

fn same_pid(a: Option<pid_t>, pid: pid_t) -> (r: bool)
    ensures
        r == (a == Some(pid)),
{
    match a {
        Some(x) => x == pid,
        None => false,
    }
}

impl Default for MainWindowTracker {
    fn default() -> (r: Self)
        ensures
            r@ == (TrackerModel {
                apps: Map::empty(),
                global_frontmost: None,
                last_clicked_window: None,
                requested_focus: None,
            }),
    {
        MainWindowTracker {
            apps: IdMap::new(),
            global_frontmost: None,
            last_clicked_window: None,
            requested_focus: None,
        }
    }
}

impl MainWindowTracker {
    /// A click on a window, or on none. It is stronger evidence than any
    /// preference: it takes back a focus that was requested, and lets the
    /// user choose another window while an activation still settles.
    pub fn handle_mouse_down(&mut self, window: Option<WindowId>, now: u64)
        ensures
            final(self)@ == ({
                let noted = TrackerModel {
                    last_clicked_window: match window {
                        Some(w) => Some((w, now)),
                        None => None,
                    },
                    requested_focus: None,
                    ..old(self)@
                };
                match window {
                    Some(w) if old(self).global_frontmost == Some(w.pid)
                        && old(self)@.apps.contains_key(w.pid) => noted.with_app(
                        w.pid,
                        AppState {
                            main_window: Some(w),
                            activation_preference: Some((w, now)),
                            ..old(self)@.apps[w.pid]
                        },
                    ),
                    _ => noted,
                }
            }),
    {
        self.last_clicked_window = match window {
            Some(w) => Some((w, now)),
            None => None,
        };
        self.requested_focus = None;
        let window: WindowId = match window {
            Some(w) => w,
            None => {
                return;
            },
        };
        if !same_pid(self.global_frontmost, window.pid) {
            return;
        }
        let app: AppState = match self.apps.get(window.pid) {
            Some(a) => *a,
            None => {
                return;
            },
        };
        let _ = self.apps.insert(
            window.pid,
            AppState {
                main_window: Some(window),
                activation_preference: Some((window, now)),
                ..app
            },
        );
    }

    /// Notes that the window manager asked for a window to be focused. Until
    /// the activation settles it is preferred over what the application reports.
    pub fn expect_focus(&mut self, window: WindowId, now: u64)
        ensures
            final(self)@ == (TrackerModel { requested_focus: Some((window, now)), ..old(self)@ }),
    {
        self.requested_focus = Some((window, now));
    }

    fn begin_activation(&mut self, pid: pid_t, now: u64) -> (r: Option<Option<WindowId>>)
        ensures
            final(self)@ == old(self)@.activation_begun(pid, now),
            r == if old(self)@.apps.contains_key(pid) {
                Some(old(self)@.preferred(pid, now))
            } else {
                None
            },
    {
        let ghost before = self@;
        let clicked = self.last_clicked_window.take();
        let clicked_window: Option<WindowId> = fresh_window_of(clicked, pid, now);
        let requested_window: Option<WindowId> = fresh_window_of(self.requested_focus, pid, now);
        if let Some((window, _)) = self.requested_focus {
            if window.pid == pid {
                self.requested_focus = None;
            }
        }
        let app: AppState = match self.apps.get(pid) {
            Some(a) => *a,
            None => {
                return None;
            },
        };
        let stable_preference: Option<WindowId> = first_of(
            requested_window,
            first_of(
                fresh_window(app.activation_preference, now),
                first_of(clicked_window, app.deactivated_main_window),
            ),
        );
        let preferred: Option<WindowId> = first_of(stable_preference, app.main_window);
        let activation_preference = match stable_preference {
            Some(window) => Some((window, now)),
            None => None,
        };
        let _ = self.apps.insert(
            pid,
            AppState { deactivated_main_window: None, activation_preference, ..app },
        );
        assert(self@ =~= before.activation_begun(pid, now));
        Some(preferred)
    }

    fn deactivate(&mut self, pid: pid_t)
        ensures
            final(self)@ == old(self)@.deactivated(pid),
    {
        if let Some(a) = self.apps.get(pid) {
            let app: AppState = *a;
            let _ = self.apps.insert(
                pid,
                AppState {
                    deactivated_main_window: app.main_window,
                    activation_preference: None,
                    is_frontmost: false,
                    ..app
                },
            );
        }
        assert(self@ =~= old(self)@.deactivated(pid));
    }

    /// Takes an event; gives the window that it brought to the front, other
    /// than quietly.
    pub fn handle_event(&mut self, event: &Event, now: u64) -> (r: Option<WindowId>)
        ensures
            final(self)@ == old(self)@.after(*event, now),
            r == old(self)@.raised_by(*event, now),
    {
        let ghost before = self@;
        let edge: (pid_t, Quiet) = match event {
            Event::ApplicationLaunched { pid, is_frontmost, main_window, .. } => {
                let _ = self.apps.insert(
                    *pid,
                    AppState {
                        is_frontmost: *is_frontmost,
                        frontmost_is_quiet: Quiet::No,
                        main_window: *main_window,
                        deactivated_main_window: None,
                        activation_preference: None,
                    },
                );
                (*pid, Quiet::No)
            },
            Event::ApplicationThreadTerminated(pid) => {
                let _ = self.apps.remove(*pid);
                return None;
            },
            Event::WindowDestroyed(window) => {
                self.requested_focus = drop_note(self.requested_focus, *window);
                if let Some(a) = self.apps.get(window.pid) {
                    let app: AppState = *a;
                    let activation_preference = drop_note(app.activation_preference, *window);
                    let _ = self.apps.insert(
                        window.pid,
                        AppState {
                            main_window: drop_window(app.main_window, *window),
                            deactivated_main_window: drop_window(
                                app.deactivated_main_window,
                                *window,
                            ),
                            activation_preference,
                            ..app
                        },
                    );
                }
                return None;
            },
            Event::ApplicationActivated(pid, quiet) => {
                let preferred: Option<WindowId> = match self.begin_activation(*pid, now) {
                    Some(p) => p,
                    None => {
                        return None;
                    },
                };
                if let Some(a) = self.apps.get(*pid) {
                    let app: AppState = *a;
                    let _ = self.apps.insert(
                        *pid,
                        AppState {
                            is_frontmost: true,
                            frontmost_is_quiet: *quiet,
                            main_window: preferred,
                            ..app
                        },
                    );
                }
                (*pid, *quiet)
            },
            Event::ApplicationDeactivated(pid) => {
                self.deactivate(*pid);
                return None;
            },
            Event::ApplicationGloballyActivated(pid) => {
                self.global_frontmost = Some(*pid);
                let preferred: Option<WindowId> = match self.begin_activation(*pid, now) {
                    Some(p) => p,
                    None => {
                        return None;
                    },
                };
                let app: AppState = match self.apps.get(*pid) {
                    Some(a) => *a,
                    None => {
                        return None;
                    },
                };
                let _ = self.apps.insert(
                    *pid,
                    AppState { is_frontmost: true, main_window: preferred, ..app },
                );
                (*pid, app.frontmost_is_quiet)
            },
            Event::ApplicationGloballyDeactivated(pid) => {
                if same_pid(self.global_frontmost, *pid) {
                    self.global_frontmost = None;
                }
                self.deactivate(*pid);
                return None;
            },
            Event::ApplicationMainWindowChanged(pid, wid, quiet) => {
                let app: AppState = match self.apps.get(*pid) {
                    Some(a) => *a,
                    None => {
                        return None;
                    },
                };
                let preferred: Option<WindowId> = fresh_window(app.activation_preference, now);
                if *quiet == Quiet::No && app.is_frontmost && preferred.is_some() && !same_window(
                    *wid,
                    preferred,
                ) {
                    let _ = self.apps.insert(*pid, AppState { main_window: preferred, ..app });
                } else {
                    let _ = self.apps.insert(
                        *pid,
                        AppState { activation_preference: None, main_window: *wid, ..app },
                    );
                }
                (*pid, *quiet)
            },
            _ => {
                return None;
            },
        };
        assert(self@ =~= before.after(*event, now));
        if same_pid(self.global_frontmost, edge.0) && edge.1 == Quiet::No {
            return self.main_window();
        }
        None
    }

    pub fn main_window(&self) -> (r: Option<WindowId>)
        ensures
            r == self@.main_window(),
    {
        let pid: pid_t = match self.global_frontmost {
            Some(p) => p,
            None => {
                return None;
            },
        };
        match self.apps.get(pid) {
            Some(app) => if app.is_frontmost {
                app.main_window
            } else {
                None
            },
            None => None,
        }
    }

    pub fn main_window_for_pid(&self, pid: pid_t) -> (r: Option<WindowId>)
        ensures
            r == if self@.apps.contains_key(pid) {
                self@.apps[pid].main_window
            } else {
                None
            },
    {
        match self.apps.get(pid) {
            Some(app) => app.main_window,
            None => None,
        }
    }
}

/// An application that is reactivated comes back with the window that was
/// active when it was deactivated, whatever main window it reported in between.
pub proof fn law_reactivation_keeps_the_last_used_window(
    m: TrackerModel,
    pid: pid_t,
    last_used: WindowId,
    transient: Option<WindowId>,
    t1: u64,
    t2: u64,
    t3: u64,
)
    requires
        m.apps.contains_key(pid),
        m.apps[pid].main_window == Some(last_used),
        fresh_of(m.requested_focus, pid, t3) is None,
        fresh_of(m.last_clicked_window, pid, t3) is None,
    ensures
        ({
            let away = m.after(Event::ApplicationGloballyDeactivated(pid), t1);
            let reported = away.after(
                Event::ApplicationMainWindowChanged(pid, transient, Quiet::No),
                t2,
            );
            let back = reported.after(Event::ApplicationGloballyActivated(pid), t3);
            back.main_window() == Some(last_used)
        }),
{
}

/// While an activation settles, a main window that the application reports
/// does not replace the preferred one.
pub proof fn law_settling_activation_keeps_its_window(
    m: TrackerModel,
    pid: pid_t,
    preferred: WindowId,
    reported: Option<WindowId>,
    activated: u64,
    now: u64,
)
    requires
        m.apps.contains_key(pid),
        m.stable_preference(pid, activated) == Some(preferred),
        settling(activated, now),
    ensures
        m.after(Event::ApplicationGloballyActivated(pid), activated).after(
            Event::ApplicationMainWindowChanged(pid, reported, Quiet::No),
            now,
        ).main_window() == Some(preferred),
{
}

/// A quiet change comes from the window manager's own raise, so it settles
/// the main window at once.
pub proof fn law_quiet_change_is_authoritative(
    m: TrackerModel,
    pid: pid_t,
    window: WindowId,
    now: u64,
)
    requires
        m.apps.contains_key(pid),
        m.global_frontmost == Some(pid),
        m.apps[pid].is_frontmost,
    ensures
        m.after(
            Event::ApplicationMainWindowChanged(pid, Some(window), Quiet::Yes),
            now,
        ).main_window() == Some(window),
        m.raised_by(Event::ApplicationMainWindowChanged(pid, Some(window), Quiet::Yes), now)
            is None,
{
}

/// A window that focus was requested for becomes the main window when its
/// application is activated, whatever main window that reported before.
pub proof fn law_requested_focus_survives_a_stale_main_window(
    m: TrackerModel,
    window: WindowId,
    stale: Option<WindowId>,
    asked: u64,
    t1: u64,
    t2: u64,
)
    requires
        m.apps.contains_key(window.pid),
        m.requested_focus == Some((window, asked)),
        settling(asked, t2),
    ensures
        m.after(Event::ApplicationMainWindowChanged(window.pid, stale, Quiet::No), t1).after(
            Event::ApplicationGloballyActivated(window.pid),
            t2,
        ).main_window() == Some(window),
{
}

/// The model after a click on a window.
pub open spec fn clicked(m: TrackerModel, window: WindowId, now: u64) -> TrackerModel {
    let noted = TrackerModel {
        last_clicked_window: Some((window, now)),
        requested_focus: None,
        ..m
    };
    if m.global_frontmost == Some(window.pid) && m.apps.contains_key(window.pid) {
        noted.with_app(
            window.pid,
            AppState {
                main_window: Some(window),
                activation_preference: Some((window, now)),
                ..m.apps[window.pid]
            },
        )
    } else {
        noted
    }
}

/// A click on a window of an inactive application makes it the main window
/// when the application comes to the front, over the window that it had
/// before and over one that focus was requested for.
pub proof fn law_click_overrides_earlier_choices(
    m: TrackerModel,
    window: WindowId,
    at: u64,
    now: u64,
)
    requires
        m.apps.contains_key(window.pid),
        m.apps[window.pid].activation_preference is None,
        settling(at, now),
    ensures
        clicked(m, window, at).after(
            Event::ApplicationGloballyActivated(window.pid),
            now,
        ).main_window() == Some(window),
{
}

/// A destroyed window is the main window of nothing, and a later activation of
/// its application does not make it the main window either, unless it was
/// clicked just before.
pub proof fn law_destroyed_window_is_not_main(
    m: TrackerModel,
    window: WindowId,
    quiet: Quiet,
    now: u64,
    later: u64,
)
    requires
        m.apps.contains_key(window.pid),
        fresh(m.last_clicked_window, later) != Some(window),
    ensures
        ({
            let gone = m.after(Event::WindowDestroyed(window), now);
            let app = gone.apps[window.pid];
            let activated = gone.after(Event::ApplicationActivated(window.pid, quiet), later);
            let fronted = gone.after(Event::ApplicationGloballyActivated(window.pid), later);
            &&& app.main_window != Some(window)
            &&& app.deactivated_main_window != Some(window)
            &&& fresh(app.activation_preference, now) != Some(window)
            &&& activated.apps[window.pid].main_window != Some(window)
            &&& fronted.main_window() != Some(window)
        }),
{
}

/// The main window is that of the application in front of the whole system,
/// if that application counts as frontmost itself.
pub proof fn law_main_window_is_that_of_the_application_in_front(m: TrackerModel, pid: pid_t)
    ensures
        m.global_frontmost is None ==> m.main_window() is None,
        m.global_frontmost == Some(pid) && !m.apps.contains_key(pid) ==> m.main_window() is None,
        m.global_frontmost == Some(pid) && m.apps.contains_key(pid) ==> m.main_window()
            == if m.apps[pid].is_frontmost {
            m.apps[pid].main_window
        } else {
            None
        },
{
}

/// What was noted counts for a second, even if the clock was set back.
pub proof fn law_notes_count_for_a_second(window: WindowId, since: u64, now: u64)
    ensures
        fresh(Some((window, since)), now) == if now < since + 1000 {
            Some(window)
        } else {
            None
        },
        fresh(None, now) is None,
{
}

/// An application that is activated brings back, in this order: the window
/// that focus was asked for, the window that a recent activation preferred,
/// the window just clicked, the window that it had when it was left, and
/// only then the one that it reports.
pub proof fn law_activation_prefers_in_order(m: TrackerModel, window: WindowId, at: u64, now: u64)
    requires
        m.apps.contains_key(window.pid),
        at <= now < at + 1000,
    ensures
        ({
            let pid = window.pid;
            let app = m.apps[pid];
            let back = m.after(Event::ApplicationGloballyActivated(pid), now).main_window();
            let noted = Some((window, at));
            let none_asked = m.requested_focus is None;
            let none_preferred = none_asked && app.activation_preference is None;
            let none_clicked = none_preferred && m.last_clicked_window is None;
            let none_left = none_clicked && app.deactivated_main_window is None;
            &&& m.requested_focus == noted ==> back == Some(window)
            &&& none_asked && app.activation_preference == noted ==> back == Some(window)
            &&& none_preferred && m.last_clicked_window == noted ==> back == Some(window)
            &&& none_clicked && app.deactivated_main_window == Some(window) ==> back == Some(window)
            &&& none_left ==> back == app.main_window
        }),
{
}

/// What happens in one application does not touch the record of another.
pub proof fn law_applications_are_tracked_apart(
    m: TrackerModel,
    pid: pid_t,
    other: pid_t,
    window: Option<WindowId>,
    quiet: Quiet,
    now: u64,
)
    requires
        pid != other,
    ensures
        forall|event: Event|
            event == Event::ApplicationActivated(pid, quiet) || event
                == Event::ApplicationDeactivated(pid) || event
                == Event::ApplicationGloballyActivated(pid) || event
                == Event::ApplicationGloballyDeactivated(pid) || event
                == Event::ApplicationMainWindowChanged(pid, window, quiet) || event
                == Event::ApplicationThreadTerminated(pid) ==> {
                let after = #[trigger] m.after(event, now);
                &&& after.apps.contains_key(other) == m.apps.contains_key(other)
                &&& m.apps.contains_key(other) ==> after.apps[other] == m.apps[other]
            },
{
}

/// An application in front comes there, and one that leaves the front leaves
/// it; one that ends is forgotten.
pub proof fn law_front_is_tracked(m: TrackerModel, pid: pid_t, other: pid_t, now: u64)
    requires
        pid != other,
        m.apps.contains_key(pid),
    ensures
        m.after(Event::ApplicationGloballyActivated(pid), now).global_frontmost == Some(pid),
        m.after(Event::ApplicationGloballyActivated(pid), now).apps[pid].is_frontmost,
        m.global_frontmost == Some(pid) ==> m.after(
            Event::ApplicationGloballyDeactivated(pid),
            now,
        ).global_frontmost is None,
        m.global_frontmost == Some(other) ==> m.after(
            Event::ApplicationGloballyDeactivated(pid),
            now,
        ).global_frontmost == Some(other),
        !m.after(Event::ApplicationDeactivated(pid), now).apps[pid].is_frontmost,
        m.after(Event::ApplicationDeactivated(pid), now).apps[pid].deactivated_main_window
            == m.apps[pid].main_window,
        !m.after(Event::ApplicationThreadTerminated(pid), now).apps.contains_key(pid),
{
}

/// A window is raised by an event only if the event is not of the window
/// manager's own making, its application is in front, and then it is the main
/// window.
pub proof fn law_raised_window_is_the_main_window_in_front(m: TrackerModel, event: Event, now: u64)
    ensures
        m.raised_by(event, now) matches Some(w) ==> m.after(event, now).main_window() == Some(w)
            && (event is ApplicationLaunched || event is ApplicationActivated || event
            is ApplicationGloballyActivated || event is ApplicationMainWindowChanged),
        event matches Event::ApplicationActivated(pid, Quiet::Yes) ==> m.raised_by(event, now)
            is None,
        event matches Event::ApplicationActivated(pid, Quiet::No) && m.global_frontmost == Some(
            pid,
        ) && m.apps.contains_key(pid) ==> m.raised_by(event, now) == m.after(
            event,
            now,
        ).main_window(),
        event matches Event::ApplicationMainWindowChanged(pid, w, Quiet::No) ==> (
        m.global_frontmost == Some(pid) && m.apps.contains_key(pid) && m.apps[pid].is_frontmost
            && m.apps[pid].activation_preference is None ==> m.raised_by(event, now) == w),
{
}

/// A reported main window is taken over once nothing is preferred any more.
pub proof fn law_reported_main_window_is_taken_over(
    m: TrackerModel,
    pid: pid_t,
    window: Option<WindowId>,
    preferred: WindowId,
    since: u64,
    now: u64,
)
    requires
        m.apps.contains_key(pid),
    ensures
        m.apps[pid].activation_preference is None ==> m.after(
            Event::ApplicationMainWindowChanged(pid, window, Quiet::No),
            now,
        ).apps[pid].main_window == window,
        m.apps[pid].activation_preference == Some((preferred, since)) && now >= since + 1000
            ==> m.after(
            Event::ApplicationMainWindowChanged(pid, window, Quiet::No),
            now,
        ).apps[pid].main_window == window,
        m.apps[pid].activation_preference == Some((preferred, since)) && since <= now < since + 1000
            && m.apps[pid].is_frontmost ==> m.after(
            Event::ApplicationMainWindowChanged(pid, window, Quiet::No),
            now,
        ).apps[pid].main_window == Some(preferred),
{
}

} // verus!
