//! When the screen configuration is read, and when a display
//! reconfiguration counts as settled.
//!
//! Delays are nanoseconds.

use vstd::prelude::*;

use crate::collections::copy_list;
use crate::event::ScreenInfo;
use crate::geometry::Rect;
use crate::ids::SpaceId;
use crate::text::text_eq;

verus! {

pub const REFRESH_DEFAULT_DELAY_NS: i64 = 150_000_000;

pub const REFRESH_RETRY_DELAY_NS: i64 = 150_000_000;

pub const REFRESH_MAX_RETRIES: u8 = 10;

pub const DISPLAY_CHURN_QUIET_NS: i64 = 3_000_000_000;

pub const DISPLAY_STABILIZE_RETRY_NS: i64 = 200_000_000;

pub const DISPLAY_STABILIZE_MAX_ATTEMPTS: u8 = 25;

pub const DISPLAY_STABLE_REQUIRED_HITS: u8 = 2;

/// What tells one arrangement of displays from another: the identity and
/// frame of each.
pub struct DisplayTopologyFingerprint(pub Vec<(String, Rect)>);

pub open spec fn fingerprint_view(displays: Seq<(String, Rect)>) -> Seq<(Seq<char>, Rect)> {
    displays.map_values(|d: (String, Rect)| (d.0@, d.1))
}

pub open spec fn screens_fingerprint(screens: Seq<ScreenInfo>) -> Seq<(Seq<char>, Rect)> {
    screens.map_values(|s: ScreenInfo| (s.display_uuid@, s.frame))
}

pub open spec fn screen_spaces(screens: Seq<ScreenInfo>) -> Seq<Option<SpaceId>> {
    screens.map_values(|s: ScreenInfo| s.space)
}

impl View for DisplayTopologyFingerprint {
    type V = Seq<(Seq<char>, Rect)>;

    open spec fn view(&self) -> Seq<(Seq<char>, Rect)> {
        fingerprint_view(self.0@)
    }
}

/// An arrangement of displays and how often in a row it was seen.
pub struct DisplayTopologyState {
    pub fingerprint: DisplayTopologyFingerprint,
    pub hits: u8,
}

/// The state of the notification center.
pub struct Instance {
    pub refresh_pending: bool,
    pub display_churn_active: bool,
    pub display_churn_epoch: u64,
    pub display_churn_flags: u32,
    pub display_topology_state: Option<DisplayTopologyState>,
    pub refresh_deferred_until_stable: bool,
    pub last_sent_spaces: Option<Vec<Option<SpaceId>>>,
}

/// The mathematical content of an [`Instance`].
#[verifier::ext_equal]
pub struct CenterModel {
    pub refresh_pending: bool,
    pub churn_active: bool,
    pub churn_epoch: u64,
    pub churn_flags: u32,
    pub topology: Option<(Seq<(Seq<char>, Rect)>, u8)>,
    pub refresh_deferred: bool,
    pub last_sent_spaces: Option<Seq<Option<SpaceId>>>,
}

impl View for Instance {
    type V = CenterModel;

    open spec fn view(&self) -> CenterModel {
        CenterModel {
            refresh_pending: self.refresh_pending,
            churn_active: self.display_churn_active,
            churn_epoch: self.display_churn_epoch,
            churn_flags: self.display_churn_flags,
            topology: match self.display_topology_state {
                Some(t) => Some((t.fingerprint@, t.hits)),
                None => None,
            },
            refresh_deferred: self.refresh_deferred_until_stable,
            last_sent_spaces: match self.last_sent_spaces {
                Some(v) => Some(v@),
                None => None,
            },
        }
    }
}

/// A screen refresh that is to run after a delay.
#[derive(Copy, Clone, Debug, PartialEq, Eq, Structural)]
pub struct ScheduledRefresh {
    pub delay_ns: i64,
    pub attempt: u8,
}

/// What a screen refresh leads to.
#[derive(Copy, Clone, Debug, PartialEq, Eq, Structural)]
pub enum RefreshStep {
    /// It waits for the display reconfiguration to end.
    Deferred,
    Retry(ScheduledRefresh),
    GiveUp,
    /// The screens are reported.
    Send,
}

/// The end of a display reconfiguration: it is reported, and the screens are
/// read again.
#[derive(Copy, Clone, Debug, PartialEq, Eq, Structural)]
pub struct ChurnEnd {
    pub refresh: Option<ScheduledRefresh>,
}

/// What a look at a reconfiguration in flight leads to.
#[derive(Copy, Clone, Debug, PartialEq, Eq, Structural)]
pub enum ChurnStep {
    /// The look belongs to another reconfiguration.
    Ignore,
    /// Look again after a delay.
    Retry { attempt: u8, delay_ns: i64 },
    Finish(ChurnEnd),
}

/// What a reconfiguration event leads to: the beginning is reported once, the
/// screen cache is dropped, and a look at the given epoch comes after a delay.
#[derive(Copy, Clone, Debug, PartialEq, Eq, Structural)]
pub struct ReconfigOutcome {
    pub begin: bool,
    pub expected_epoch: u64,
    pub delay_ns: i64,
}

/// A workspace notification about screens.
#[derive(Copy, Clone, Debug, PartialEq, Eq, Structural)]
pub enum ScreenNotification {
    ActiveDisplayChanged,
    ActiveSpaceChanged,
    Other,
}

/// Whether a screen refresh is scheduled, and whether the current spaces are
/// sent after that.
#[derive(Copy, Clone, Debug, PartialEq, Eq, Structural)]
pub struct ScreenNotificationOutcome {
    pub refresh: Option<ScheduledRefresh>,
    pub send_current_space: bool,
}

pub open spec fn next_epoch(epoch: u64) -> u64 {
    if epoch == u64::MAX {
        0
    } else {
        (epoch + 1) as u64
    }
}

/// Asking for a refresh: once per pending one, and not during a reconfiguration.
pub open spec fn refresh_scheduled(m: CenterModel, delay_ns: i64, attempt: u8) -> (
    CenterModel,
    Option<ScheduledRefresh>,
) {
    if attempt == 0 && m.churn_active {
        (CenterModel { refresh_deferred: true, ..m }, None)
    } else if attempt == 0 && m.refresh_pending {
        (m, None)
    } else {
        (
            CenterModel { refresh_pending: true, ..m },
            Some(ScheduledRefresh { delay_ns, attempt }),
        )
    }
}

/// Whether screens are complete: some are there and each shows a space.
pub open spec fn complete_screens(screens: Option<Seq<ScreenInfo>>) -> bool {
    screens matches Some(s) && s.len() > 0 && forall|i: int|
        0 <= i < s.len() ==> (#[trigger] s[i]).space is Some
}

/// What a screen refresh leads to, and the state after it. Screens that are
/// not there yet are waited for; spaces that never come are done without.
pub open spec fn refresh_processed(
    m: CenterModel,
    attempt: u8,
    allow_retry: bool,
    screens: Option<Seq<ScreenInfo>>,
) -> (CenterModel, RefreshStep) {
    if m.churn_active {
        (CenterModel { refresh_deferred: true, refresh_pending: false, ..m }, RefreshStep::Deferred)
    } else if !complete_screens(screens) && allow_retry && attempt < REFRESH_MAX_RETRIES {
        (
            CenterModel { refresh_pending: true, ..m },
            RefreshStep::Retry(
                ScheduledRefresh { delay_ns: REFRESH_RETRY_DELAY_NS, attempt: (attempt + 1) as u8 },
            ),
        )
    } else if screens matches Some(s) && s.len() > 0 {
        (CenterModel { refresh_pending: false, ..m }, RefreshStep::Send)
    } else {
        (CenterModel { refresh_pending: false, ..m }, RefreshStep::GiveUp)
    }
}

/// The spaces to report, if any, and the state after it.
pub open spec fn current_space_sent(m: CenterModel, screens: Option<Seq<ScreenInfo>>) -> (
    CenterModel,
    Option<Seq<Option<SpaceId>>>,
) {
    if m.refresh_pending || m.churn_active {
        (m, None)
    } else {
        match screens {
            Some(s) if s.len() > 0 && m.last_sent_spaces != Some(screen_spaces(s)) => (
                CenterModel { last_sent_spaces: Some(screen_spaces(s)), ..m },
                Some(screen_spaces(s)),
            ),
            _ => (m, None),
        }
    }
}

/// Ending a reconfiguration.
pub open spec fn churn_finished(m: CenterModel) -> (CenterModel, ChurnEnd) {
    let ended = CenterModel {
        churn_active: false,
        churn_epoch: next_epoch(m.churn_epoch),
        churn_flags: 0,
        topology: None,
        refresh_deferred: false,
        ..m
    };
    let (next, refresh) = refresh_scheduled(ended, 0, 0);
    (next, ChurnEnd { refresh })
}

/// Looking again, or ending the reconfiguration after the last attempt.
pub open spec fn retried_or_finished(m: CenterModel, attempt: u8) -> (CenterModel, ChurnStep) {
    if attempt < DISPLAY_STABILIZE_MAX_ATTEMPTS {
        (
            m,
            ChurnStep::Retry { attempt: (attempt + 1) as u8, delay_ns: DISPLAY_STABILIZE_RETRY_NS },
        )
    } else {
        let (next, end) = churn_finished(m);
        (next, ChurnStep::Finish(end))
    }
}

/// A look at a reconfiguration in flight. It ends once the same displays were
/// seen often enough in a row and the window server is quiet.
pub open spec fn churn_looked_at(
    m: CenterModel,
    expected_epoch: u64,
    attempt: u8,
    screens: Option<Seq<ScreenInfo>>,
    windowserver_quiet: bool,
) -> (CenterModel, ChurnStep) {
    if expected_epoch != m.churn_epoch || !m.churn_active {
        (m, ChurnStep::Ignore)
    } else {
        match screens {
            Some(s) if s.len() > 0 => match m.topology {
                Some((fingerprint, hits)) if fingerprint == screens_fingerprint(s) => {
                    let more: u8 = if hits == u8::MAX {
                        hits
                    } else {
                        (hits + 1) as u8
                    };
                    let seen = CenterModel { topology: Some((fingerprint, more)), ..m };
                    if more >= DISPLAY_STABLE_REQUIRED_HITS && windowserver_quiet {
                        let (next, end) = churn_finished(seen);
                        (next, ChurnStep::Finish(end))
                    } else {
                        retried_or_finished(seen, attempt)
                    }
                },
                _ => (
                    CenterModel { topology: Some((screens_fingerprint(s), 1)), ..m },
                    ChurnStep::Retry {
                        attempt: (attempt + 1) as u8,
                        delay_ns: DISPLAY_STABILIZE_RETRY_NS,
                    },
                ),
            },
            _ => retried_or_finished(m, attempt),
        }
    }
}

/// A reconfiguration event: the wait for quiet starts anew.
pub open spec fn reconfig_noted(m: CenterModel, flags: u32) -> CenterModel {
    CenterModel {
        churn_active: true,
        churn_flags: m.churn_flags | flags,
        churn_epoch: next_epoch(m.churn_epoch),
        topology: None,
        last_sent_spaces: None,
        ..m
    }
}

pub open spec fn screens_view(screens: Option<Vec<ScreenInfo>>) -> Option<Seq<ScreenInfo>> {
    match screens {
        Some(v) => Some(v@),
        None => None,
    }
}

impl Instance {
    pub fn new() -> (r: Instance)
        ensures
            r@ == (CenterModel {
                refresh_pending: false,
                churn_active: false,
                churn_epoch: 0,
                churn_flags: 0,
                topology: None,
                refresh_deferred: false,
                last_sent_spaces: None,
            }),
    {
        Instance {
            refresh_pending: false,
            display_churn_active: false,
            display_churn_epoch: 0,
            display_churn_flags: 0,
            display_topology_state: None,
            refresh_deferred_until_stable: false,
            last_sent_spaces: None,
        }
    }

    /// Takes a workspace notification about screens. The active display can
    /// change without a space switch, so the screens are read again too.
    pub fn handle_screen_changed_event(&mut self, notification: ScreenNotification) -> (r:
        ScreenNotificationOutcome)
        ensures
            match notification {
                ScreenNotification::ActiveDisplayChanged => {
                    let (next, refresh) = refresh_scheduled(
                        old(self)@,
                        REFRESH_DEFAULT_DELAY_NS,
                        0,
                    );
                    final(self)@ == next && r == (ScreenNotificationOutcome {
                        refresh,
                        send_current_space: true,
                    })
                },
                _ => final(self)@ == old(self)@ && r == (ScreenNotificationOutcome {
                    refresh: None,
                    send_current_space: notification == ScreenNotification::ActiveSpaceChanged,
                }),
            },
    {
        match notification {
            ScreenNotification::ActiveDisplayChanged => {
                let refresh = self.schedule_screen_refresh();
                ScreenNotificationOutcome { refresh, send_current_space: true }
            },
            ScreenNotification::ActiveSpaceChanged => ScreenNotificationOutcome {
                refresh: None,
                send_current_space: true,
            },
            ScreenNotification::Other => ScreenNotificationOutcome {
                refresh: None,
                send_current_space: false,
            },
        }
    }

    /// Takes the result of reading the screens for a refresh.
    pub fn process_screen_refresh(
        &mut self,
        attempt: u8,
        allow_retry: bool,
        screens: &Option<Vec<ScreenInfo>>,
    ) -> (r: RefreshStep)
        ensures
            (final(self)@, r) == refresh_processed(
                old(self)@,
                attempt,
                allow_retry,
                screens_view(*screens),
            ),
    {
        if self.display_churn_active {
            self.refresh_deferred_until_stable = true;
            self.refresh_pending = false;
            return RefreshStep::Deferred;
        }
        let may_retry: bool = allow_retry && attempt < REFRESH_MAX_RETRIES;
        let found: &Vec<ScreenInfo> = match screens {
            Some(s) => s,
            None => {
                if may_retry {
                    return self.retry_refresh(attempt);
                }
                self.refresh_pending = false;
                return RefreshStep::GiveUp;
            },
        };
        if found.len() == 0 {
            if may_retry {
                return self.retry_refresh(attempt);
            }
            self.refresh_pending = false;
            return RefreshStep::GiveUp;
        }
        if some_without_space(found) {
            if may_retry {
                return self.retry_refresh(attempt);
            }
        }
        self.refresh_pending = false;
        RefreshStep::Send
    }

    fn retry_refresh(&mut self, attempt: u8) -> (r: RefreshStep)
        requires
            attempt < REFRESH_MAX_RETRIES,
        ensures
            final(self)@ == (CenterModel { refresh_pending: true, ..old(self)@ }),
            r == RefreshStep::Retry(
                ScheduledRefresh { delay_ns: REFRESH_RETRY_DELAY_NS, attempt: (attempt + 1) as u8 },
            ),
    {
        match self.schedule_screen_refresh_after(REFRESH_RETRY_DELAY_NS, attempt + 1) {
            Some(refresh) => RefreshStep::Retry(refresh),
            None => RefreshStep::GiveUp,
        }
    }

    /// Takes the result of reading the screens; gives the spaces to report.
    /// None are while a reconfiguration or a refresh is in flight: the
    /// refresh reports consistent ones afterwards.
    pub fn send_current_space(&mut self, screens: &Option<Vec<ScreenInfo>>) -> (r: Option<
        Vec<Option<SpaceId>>,
    >)
        ensures
            ({
                let (next, sent) = current_space_sent(old(self)@, screens_view(*screens));
                final(self)@ == next && match sent {
                    Some(spaces) => r matches Some(v) && v@ == spaces,
                    None => r is None,
                }
            }),
    {
        if self.refresh_pending || self.display_churn_active {
            return None;
        }
        match screens {
            None => None,
            Some(found) => {
                let spaces: Vec<Option<SpaceId>> = spaces_of(found);
                if spaces.len() == 0 {
                    return None;
                }
                if let Some(last) = &self.last_sent_spaces {
                    if same_spaces(last, &spaces) {
                        return None;
                    }
                }
                self.last_sent_spaces = Some(copy_list(&spaces));
                Some(spaces)
            },
        }
    }

    pub fn handle_display_reconfig_event(&mut self, flags: u32) -> (r: ReconfigOutcome)
        ensures
            final(self)@ == reconfig_noted(old(self)@, flags),
            r == (ReconfigOutcome {
                begin: !old(self).display_churn_active,
                expected_epoch: next_epoch(old(self).display_churn_epoch),
                delay_ns: DISPLAY_CHURN_QUIET_NS,
            }),
    {
        let was_active: bool = self.display_churn_active;
        self.display_churn_active = true;
        self.display_churn_flags = self.display_churn_flags | flags;
        self.display_churn_epoch = self.display_churn_epoch.wrapping_add(1);
        self.display_topology_state = None;
        self.last_sent_spaces = None;
        ReconfigOutcome {
            begin: !was_active,
            expected_epoch: self.display_churn_epoch,
            delay_ns: DISPLAY_CHURN_QUIET_NS,
        }
    }

    /// Takes a look at a reconfiguration in flight.
    pub fn attempt_finish_display_churn(
        &mut self,
        expected_epoch: u64,
        attempt: u8,
        screens: &Option<Vec<ScreenInfo>>,
        windowserver_quiet: bool,
    ) -> (r: ChurnStep)
        requires
            attempt < u8::MAX,
        ensures
            (final(self)@, r) == churn_looked_at(
                old(self)@,
                expected_epoch,
                attempt,
                screens_view(*screens),
                windowserver_quiet,
            ),
    {
        if expected_epoch != self.display_churn_epoch || !self.display_churn_active {
            return ChurnStep::Ignore;
        }
        let found: &Vec<ScreenInfo> = match screens {
            Some(s) => s,
            None => {
                return self.retry_or_finish_display_churn(expected_epoch, attempt);
            },
        };
        if found.len() == 0 {
            return self.retry_or_finish_display_churn(expected_epoch, attempt);
        }
        let fingerprint = Instance::fingerprint_displays(found);
        let mut seen: Option<u8> = None;
        if let Some(existing) = &self.display_topology_state {
            if existing.fingerprint.same(&fingerprint) {
                seen = Some(existing.hits);
            }
        }
        let hits: u8 = match seen {
            Some(h) => {
                if h == u8::MAX {
                    h
                } else {
                    h + 1
                }
            },
            None => {
                self.display_topology_state = Some(DisplayTopologyState { fingerprint, hits: 1 });
                return ChurnStep::Retry {
                    attempt: attempt + 1,
                    delay_ns: DISPLAY_STABILIZE_RETRY_NS,
                };
            },
        };
        self.display_topology_state = Some(DisplayTopologyState { fingerprint, hits });
        if hits >= DISPLAY_STABLE_REQUIRED_HITS {
            if !windowserver_quiet {
                return self.retry_or_finish_display_churn(expected_epoch, attempt);
            }
            return match self.finish_display_churn(expected_epoch) {
                Some(end) => ChurnStep::Finish(end),
                None => ChurnStep::Ignore,
            };
        }
        self.retry_or_finish_display_churn(expected_epoch, attempt)
    }

    fn retry_or_finish_display_churn(&mut self, expected_epoch: u64, attempt: u8) -> (r: ChurnStep)
        requires
            expected_epoch == old(self).display_churn_epoch,
            old(self).display_churn_active,
        ensures
            (final(self)@, r) == retried_or_finished(old(self)@, attempt),
    {
        if attempt < DISPLAY_STABILIZE_MAX_ATTEMPTS {
            return ChurnStep::Retry { attempt: attempt + 1, delay_ns: DISPLAY_STABILIZE_RETRY_NS };
        }
        match self.finish_display_churn(expected_epoch) {
            Some(end) => ChurnStep::Finish(end),
            None => ChurnStep::Ignore,
        }
    }

    /// Ends the reconfiguration of an epoch, if it is the one in flight.
    pub fn finish_display_churn(&mut self, expected_epoch: u64) -> (r: Option<ChurnEnd>)
        ensures
            if expected_epoch == old(self).display_churn_epoch && old(self).display_churn_active {
                let (next, end) = churn_finished(old(self)@);
                final(self)@ == next && r == Some(end)
            } else {
                final(self)@ == old(self)@ && r is None
            },
    {
        if expected_epoch != self.display_churn_epoch {
            return None;
        }
        if !self.display_churn_active {
            return None;
        }
        self.display_churn_active = false;
        self.display_churn_epoch = self.display_churn_epoch.wrapping_add(1);
        self.display_churn_flags = 0;
        self.display_topology_state = None;
        self.refresh_deferred_until_stable = false;
        let refresh = self.schedule_screen_refresh_after(0, 0);
        Some(ChurnEnd { refresh })
    }

    pub fn schedule_screen_refresh(&mut self) -> (r: Option<ScheduledRefresh>)
        ensures
            (final(self)@, r) == refresh_scheduled(old(self)@, REFRESH_DEFAULT_DELAY_NS, 0),
    {
        self.schedule_screen_refresh_after(REFRESH_DEFAULT_DELAY_NS, 0)
    }

    pub fn schedule_screen_refresh_after(&mut self, delay_ns: i64, attempt: u8) -> (r: Option<
        ScheduledRefresh,
    >)
        ensures
            (final(self)@, r) == refresh_scheduled(old(self)@, delay_ns, attempt),
    {
        if attempt == 0 && self.display_churn_active {
            self.refresh_deferred_until_stable = true;
            return None;
        }
        if attempt == 0 {
            if self.refresh_pending {
                return None;
            }
        }
        self.refresh_pending = true;
        Some(ScheduledRefresh { delay_ns, attempt })
    }

    pub fn fingerprint_displays(screens: &Vec<ScreenInfo>) -> (r: DisplayTopologyFingerprint)
        ensures
            r@ == screens_fingerprint(screens@),
    {
        let mut displays: Vec<(String, Rect)> = Vec::new();
        let mut i: usize = 0;
        while i < screens.len()
            invariant
                i <= screens@.len(),
                fingerprint_view(displays@) == screens_fingerprint(screens@).take(i as int),
            decreases screens@.len() - i,
        {
            let ghost before = displays@;
            displays.push((screens[i].display_uuid.clone(), screens[i].frame));
            assert(fingerprint_view(displays@) =~= screens_fingerprint(screens@).take(i + 1)) by {
                assert(fingerprint_view(displays@).drop_last() =~= fingerprint_view(before));
            }
            i += 1;
        }
        let r = DisplayTopologyFingerprint(displays);
        assert(r@ =~= screens_fingerprint(screens@));
        r
    }
}

impl DisplayTopologyFingerprint {
    pub fn same(&self, other: &DisplayTopologyFingerprint) -> (r: bool)
        ensures
            r == (self@ == other@),
    {
        if self.0.len() != other.0.len() {
            assert(self@.len() != other@.len());
            return false;
        }
        let mut i: usize = 0;
        while i < self.0.len()
            invariant
                i <= self.0@.len(),
                self.0@.len() == other.0@.len(),
                forall|j: int| 0 <= j < i ==> #[trigger] self@[j] == other@[j],
            decreases self.0@.len() - i,
        {
            if self.0[i].1 != other.0[i].1 || !text_eq(
                self.0[i].0.as_str(),
                other.0[i].0.as_str(),
            ) {
                assert(self@[i as int] != other@[i as int]);
                return false;
            }
            i += 1;
        }
        assert(self@ =~= other@);
        true
    }
}

fn some_without_space(screens: &Vec<ScreenInfo>) -> (r: bool)
    ensures
        r <==> exists|i: int| 0 <= i < screens@.len() && (#[trigger] screens@[i]).space is None,
{
    let mut i: usize = 0;
    while i < screens.len()
        invariant
            i <= screens@.len(),
            forall|j: int| 0 <= j < i ==> (#[trigger] screens@[j]).space is Some,
        decreases screens@.len() - i,
    {
        if screens[i].space.is_none() {
            assert(screens@[i as int].space is None);
            return true;
        }
        i += 1;
    }
    false
}

fn spaces_of(screens: &Vec<ScreenInfo>) -> (r: Vec<Option<SpaceId>>)
    ensures
        r@ == screen_spaces(screens@),
{
    let mut r: Vec<Option<SpaceId>> = Vec::new();
    let mut i: usize = 0;
    while i < screens.len()
        invariant
            i <= screens@.len(),
            r@ == screen_spaces(screens@).take(i as int),
        decreases screens@.len() - i,
    {
        r.push(screens[i].space);
        assert(r@ =~= screen_spaces(screens@).take(i + 1));
        i += 1;
    }
    assert(r@ =~= screen_spaces(screens@));
    r
}

/// A copy of a list of spaces.
/// Whether two lists of spaces are the same.
pub fn same_spaces(a: &Vec<Option<SpaceId>>, b: &Vec<Option<SpaceId>>) -> (r: bool)
    ensures
        r == (a@ == b@),
{
    if a.len() != b.len() {
        return false;
    }
    let mut i: usize = 0;
    while i < a.len()
        invariant
            i <= a@.len(),
            a@.len() == b@.len(),
            forall|j: int| 0 <= j < i ==> #[trigger] a@[j] == b@[j],
        decreases a@.len() - i,
    {
        let same: bool = match (a[i], b[i]) {
            (Some(x), Some(y)) => x == y,
            (None, None) => true,
            _ => false,
        };
        if !same {
            assert(a@[i as int] != b@[i as int]);
            return false;
        }
        i += 1;
    }
    assert(a@ =~= b@);
    true
}

/// The new low-power state, if it changed.
pub fn power_state_change(old_state: bool, current_state: bool) -> (r: Option<bool>)
    ensures
        r == if old_state != current_state {
            Some(current_state)
        } else {
            None
        },
{
    if old_state != current_state {
        Some(current_state)
    } else {
        None
    }
}

/// A look that was scheduled before the latest reconfiguration event finds
/// nothing to do, so the wait for quiet starts anew with every event.
pub proof fn law_later_event_restarts_the_wait(
    m: CenterModel,
    flags: u32,
    attempt: u8,
    screens: Option<Seq<ScreenInfo>>,
    quiet: bool,
)
    ensures
        churn_looked_at(reconfig_noted(m, flags), m.churn_epoch, attempt, screens, quiet) == (
            reconfig_noted(m, flags),
            ChurnStep::Ignore,
        ),
{
}

/// Before its last attempt, a reconfiguration ends only once the displays
/// were seen unchanged often enough and the window server is quiet.
pub proof fn law_churn_ends_when_settled(
    m: CenterModel,
    attempt: u8,
    screens: Option<Seq<ScreenInfo>>,
    quiet: bool,
)
    requires
        attempt < DISPLAY_STABILIZE_MAX_ATTEMPTS,
        churn_looked_at(m, m.churn_epoch, attempt, screens, quiet).1 is Finish,
    ensures
        quiet,
        m.churn_active,
        screens matches Some(s) && m.topology matches Some((fingerprint, hits)) && fingerprint
            == screens_fingerprint(s) && hits + 1 >= DISPLAY_STABLE_REQUIRED_HITS,
{
}

/// After the last attempt, a reconfiguration whose displays can be read and
/// do not change ends in any case.
pub proof fn law_churn_ends_after_the_last_attempt(
    m: CenterModel,
    screens: Option<Seq<ScreenInfo>>,
    quiet: bool,
)
    requires
        m.churn_active,
        match (screens, m.topology) {
            (Some(s), Some((fingerprint, _))) => s.len() == 0 || fingerprint
                == screens_fingerprint(s),
            (Some(s), None) => s.len() == 0,
            (None, _) => true,
        },
    ensures
        churn_looked_at(
            m,
            m.churn_epoch,
            DISPLAY_STABILIZE_MAX_ATTEMPTS,
            screens,
            quiet,
        ).1 is Finish,
{
}

/// A refresh that is asked for during a reconfiguration is not lost: one is
/// under way once it has ended.
pub proof fn law_deferred_refresh_runs_after_churn(m: CenterModel, delay_ns: i64)
    requires
        m.churn_active,
    ensures
        ({
            let asked = refresh_scheduled(m, delay_ns, 0).0;
            let (after, end) = churn_finished(asked);
            &&& refresh_scheduled(m, delay_ns, 0).1 is None
            &&& asked.refresh_deferred
            &&& after.refresh_pending
            &&& !after.refresh_deferred
            &&& m.refresh_pending || end.refresh == Some(
                ScheduledRefresh { delay_ns: 0, attempt: 0 },
            )
        }),
{
}

/// The same spaces are not reported twice in a row.
pub proof fn law_spaces_are_not_repeated(m: CenterModel, screens: Option<Seq<ScreenInfo>>)
    ensures
        current_space_sent(current_space_sent(m, screens).0, screens).1 is None,
{
}

/// A refresh is asked for once: while one is pending no other is, during a
/// reconfiguration it waits for the end, and a retry always goes on.
pub proof fn law_refresh_is_asked_for_once(m: CenterModel, delay_ns: i64, attempt: u8)
    ensures
        m.churn_active ==> refresh_scheduled(m, delay_ns, 0).1 is None && refresh_scheduled(
            m,
            delay_ns,
            0,
        ).0.refresh_deferred,
        !m.churn_active && m.refresh_pending ==> refresh_scheduled(m, delay_ns, 0) == (
            m,
            None::<ScheduledRefresh>,
        ),
        !m.churn_active && !m.refresh_pending ==> refresh_scheduled(m, delay_ns, 0).1 == Some(
            ScheduledRefresh { delay_ns, attempt: 0 },
        ) && refresh_scheduled(m, delay_ns, 0).0.refresh_pending,
        attempt > 0 ==> refresh_scheduled(m, delay_ns, attempt).1 == Some(
            ScheduledRefresh { delay_ns, attempt },
        ),
{
}

/// A refresh is put off during a reconfiguration; screens that are not there
/// or show no space yet are looked for up to ten more times, a little later
/// each; then what is there is sent, and nothing if nothing is.
pub proof fn law_refresh_waits_for_complete_screens(
    m: CenterModel,
    attempt: u8,
    allow_retry: bool,
    screens: Seq<ScreenInfo>,
    i: int,
)
    ensures
        ({
            let r = refresh_processed(m, attempt, allow_retry, Some(screens));
            let gap = screens.len() == 0 || (0 <= i < screens.len() && screens[i].space is None);
            let complete = screens.len() > 0 && forall|j: int|
                0 <= j < screens.len() ==> (#[trigger] screens[j]).space is Some;
            &&& m.churn_active ==> r.1 == RefreshStep::Deferred && r.0.refresh_deferred
            &&& !m.churn_active && gap && allow_retry && attempt < 10 ==> r.1 == RefreshStep::Retry(
                ScheduledRefresh { delay_ns: 150_000_000, attempt: (attempt + 1) as u8 },
            ) && r.0.refresh_pending
            &&& !m.churn_active && complete ==> r.1 == RefreshStep::Send && !r.0.refresh_pending
            &&& !m.churn_active && (!allow_retry || attempt >= 10) && screens.len() > 0 ==> r.1
                == RefreshStep::Send
            &&& !m.churn_active && (!allow_retry || attempt >= 10) && screens.len() == 0 ==> r.1
                == RefreshStep::GiveUp
        }),
{
}

/// The spaces that screens show are reported if they are others than last
/// reported, unless a refresh is pending or displays are being reconfigured.
pub proof fn law_changed_spaces_are_reported(m: CenterModel, screens: Seq<ScreenInfo>, i: int)
    requires
        screens.len() > 0,
    ensures
        m.refresh_pending || m.churn_active ==> current_space_sent(m, Some(screens)).1 is None,
        !m.refresh_pending && !m.churn_active && m.last_sent_spaces is None ==> (
        current_space_sent(m, Some(screens)).1 matches Some(sent) && sent.len() == screens.len() && (
        0 <= i < screens.len() ==> sent[i] == screens[i].space)),
        !m.refresh_pending && !m.churn_active && (m.last_sent_spaces matches Some(last) && last.len()
            != screens.len()) ==> current_space_sent(m, Some(screens)).1 is Some,
        current_space_sent(m, None).1 is None,
{
}

/// The end of a reconfiguration makes looks at it void, forgets its flags and
/// the displays seen, and has the screens refreshed at once.
pub proof fn law_end_of_reconfiguration(m: CenterModel)
    ensures
        ({
            let (next, end) = churn_finished(m);
            &&& !next.churn_active
            &&& next.churn_epoch != m.churn_epoch
            &&& next.churn_flags == 0
            &&& next.topology is None
            &&& next.refresh_pending
            &&& !m.refresh_pending ==> end.refresh == Some(
                ScheduledRefresh { delay_ns: 0, attempt: 0 },
            )
        }),
{
}

/// A reconfiguration goes on until the same displays were seen twice in a row
/// with the window server quiet; others start the count anew.
pub proof fn law_other_displays_start_the_count_anew(
    m: CenterModel,
    attempt: u8,
    screens: Seq<ScreenInfo>,
    quiet: bool,
    hits: u8,
)
    requires
        m.churn_active,
        screens.len() > 0,
        attempt < 25,
        hits < u8::MAX,
    ensures
        ({
            let r = churn_looked_at(m, m.churn_epoch, attempt, Some(screens), quiet);
            let seen = screens_fingerprint(screens);
            &&& m.topology is None ==> r.0.topology == Some((seen, 1u8)) && r.1 == (
            ChurnStep::Retry { attempt: (attempt + 1) as u8, delay_ns: 200_000_000 })
            &&& (m.topology matches Some((other, _)) && other != seen) ==> r.0.topology == Some(
                (seen, 1u8),
            ) && r.1 is Retry
            &&& m.topology == Some((seen, hits)) && hits >= 1 && quiet ==> r.1 is Finish
            &&& m.topology == Some((seen, hits)) && !quiet ==> r.1 == (ChurnStep::Retry {
                attempt: (attempt + 1) as u8,
                delay_ns: 200_000_000,
            }) && r.0.topology == Some((seen, (hits + 1) as u8))
        }),
{
}

/// Displays are told apart by their identity and frame, in order.
pub proof fn law_fingerprint_tells_displays_apart(
    a: Seq<ScreenInfo>,
    b: Seq<ScreenInfo>,
    i: int,
)
    requires
        screens_fingerprint(a) == screens_fingerprint(b),
        0 <= i < a.len(),
    ensures
        a.len() == b.len(),
        a[i].display_uuid@ == b[i].display_uuid@,
        a[i].frame == b[i].frame,
{
    assert(screens_fingerprint(a).len() == a.len());
    assert(screens_fingerprint(b).len() == b.len());
    assert(screens_fingerprint(a)[i] == (a[i].display_uuid@, a[i].frame));
    assert(screens_fingerprint(b)[i] == (b[i].display_uuid@, b[i].frame));
}

/// A reconfiguration event adds its flags, begins or restarts the wait, and
/// has spaces reported anew.
pub proof fn law_reconfiguration_event_restarts(m: CenterModel, flags: u32)
    ensures
        reconfig_noted(m, flags).churn_active,
        reconfig_noted(m, flags).churn_flags == m.churn_flags | flags,
        reconfig_noted(m, flags).churn_epoch != m.churn_epoch,
        reconfig_noted(m, flags).topology is None,
        reconfig_noted(m, flags).last_sent_spaces is None,
        reconfig_noted(m, flags).refresh_pending == m.refresh_pending,
{
}

} // verus!
