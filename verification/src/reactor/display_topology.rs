//! The display topology: stable, churning, or churned and waiting for a
//! complete snapshot to be committed.

use vstd::prelude::*;

use crate::collections::{IdMap, IdSet};
use crate::event::{ScreenInfo, WindowServerInfo};
use crate::ids::{SpaceId, WindowServerId};

verus! {

#[derive(Copy, Clone, Debug, PartialEq, Eq, Structural)]
pub struct WindowSnapshot {
    pub info: WindowServerInfo,
    pub space: Option<SpaceId>,
}

/// What is on screen once the displays have settled.
pub struct DisplaySnapshot {
    pub ordered_screens: Vec<ScreenInfo>,
    pub active_spaces: IdSet<SpaceId>,
    pub inactive_spaces: IdSet<SpaceId>,
    pub windows: IdMap<WindowServerId, WindowSnapshot>,
}

/// Times are milliseconds of a monotonic clock, flags the bits of the
/// display reconfiguration.
#[allow(inconsistent_fields)]
pub enum TopologyState {
    Stable,
    Churning { epoch: u64, started_at: u64, flags: u32 },
    AwaitingCommitSnapshot {
        epoch: u64,
        started_at: u64,
        flags: u32,
        pre_known_wsids: IdSet<WindowServerId>,
    },
}

impl Default for TopologyState {
    fn default() -> (r: Self)
        ensures
            r is Stable,
    {
        TopologyState::Stable
    }
}

/// How many events were dropped while the displays churned.
#[derive(Copy, Clone, Debug, PartialEq, Eq, Structural)]
pub struct QuarantineStats {
    pub appeared_dropped: u64,
    pub destroyed_dropped: u64,
    pub resync_dropped: u64,
}

impl Default for QuarantineStats {
    fn default() -> (r: Self)
        ensures
            r == (QuarantineStats { appeared_dropped: 0, destroyed_dropped: 0, resync_dropped: 0 }),
    {
        QuarantineStats { appeared_dropped: 0, destroyed_dropped: 0, resync_dropped: 0 }
    }
}

pub struct DisplayTopologyManager {
    pub state: TopologyState,
    pub quarantine_stats: QuarantineStats,
    pub churn_pre_known_wsids: IdSet<WindowServerId>,
}

/// The mathematical content of a topology state.
pub enum TopologyModel {
    Stable,
    Churning(u64, u64, u32),
    AwaitingCommit(u64, u64, u32, Set<WindowServerId>),
}

impl View for TopologyState {
    type V = TopologyModel;

    open spec fn view(&self) -> TopologyModel {
        match self {
            TopologyState::Stable => TopologyModel::Stable,
            TopologyState::Churning { epoch, started_at, flags } => TopologyModel::Churning(
                *epoch,
                *started_at,
                *flags,
            ),
            TopologyState::AwaitingCommitSnapshot { epoch, started_at, flags, pre_known_wsids } =>
                TopologyModel::AwaitingCommit(*epoch, *started_at, *flags, pre_known_wsids@),
        }
    }
}

/// The mathematical content of a [`DisplayTopologyManager`].
#[verifier::ext_equal]
pub struct ManagerModel {
    pub state: TopologyModel,
    pub stats: QuarantineStats,
    pub known: Set<WindowServerId>,
}

impl View for DisplayTopologyManager {
    type V = ManagerModel;

    open spec fn view(&self) -> ManagerModel {
        ManagerModel {
            state: self.state@,
            stats: self.quarantine_stats,
            known: self.churn_pre_known_wsids@,
        }
    }
}

pub open spec fn nothing_dropped() -> QuarantineStats {
    QuarantineStats { appeared_dropped: 0, destroyed_dropped: 0, resync_dropped: 0 }
}

impl ManagerModel {
    pub open spec fn begun(
        self,
        epoch: u64,
        flags: u32,
        known: Set<WindowServerId>,
        now: u64,
    ) -> ManagerModel {
        ManagerModel {
            state: TopologyModel::Churning(epoch, now, flags),
            stats: nothing_dropped(),
            known,
        }
    }

    pub open spec fn ended(self, epoch: u64, flags: u32, now: u64) -> ManagerModel {
        ManagerModel {
            state: TopologyModel::AwaitingCommit(epoch, now, flags, self.known),
            known: Set::empty(),
            ..self
        }
    }

    pub open spec fn taken(self) -> (
        ManagerModel,
        Option<(u64, u64, u32, Set<WindowServerId>)>,
    ) {
        match self.state {
            TopologyModel::AwaitingCommit(epoch, started_at, flags, known) => (
                ManagerModel { state: TopologyModel::Stable, ..self },
                Some((epoch, started_at, flags, known)),
            ),
            _ => (self, None),
        }
    }

    pub open spec fn restored(
        self,
        epoch: u64,
        started_at: u64,
        flags: u32,
        known: Set<WindowServerId>,
    ) -> ManagerModel {
        ManagerModel {
            state: TopologyModel::AwaitingCommit(epoch, started_at, flags, known),
            ..self
        }
    }
}

impl Default for DisplayTopologyManager {
    fn default() -> (r: Self)
        ensures
            r@ == (ManagerModel {
                state: TopologyModel::Stable,
                stats: nothing_dropped(),
                known: Set::empty(),
            }),
    {
        DisplayTopologyManager {
            state: TopologyState::Stable,
            quarantine_stats: QuarantineStats {
                appeared_dropped: 0,
                destroyed_dropped: 0,
                resync_dropped: 0,
            },
            churn_pre_known_wsids: IdSet::new(),
        }
    }
}

impl DisplayTopologyManager {
    pub fn state(&self) -> (r: &TopologyState)
        ensures
            *r == self.state,
    {
        &self.state
    }

    pub fn is_churning_or_awaiting_commit(&self) -> (r: bool)
        ensures
            r == (self.state@ != TopologyModel::Stable),
    {
        match self.state {
            TopologyState::Churning { .. } => true,
            TopologyState::AwaitingCommitSnapshot { .. } => true,
            TopologyState::Stable => false,
        }
    }

    pub fn begin_churn(
        &mut self,
        epoch: u64,
        flags: u32,
        pre_known_wsids: IdSet<WindowServerId>,
        now: u64,
    )
        ensures
            final(self)@ == old(self)@.begun(epoch, flags, pre_known_wsids@, now),
    {
        self.state = TopologyState::Churning { epoch, started_at: now, flags };
        self.churn_pre_known_wsids = pre_known_wsids;
        self.quarantine_stats = QuarantineStats::default();
    }

    pub fn end_churn_to_awaiting(&mut self, epoch: u64, flags: u32, now: u64)
        ensures
            final(self)@ == old(self)@.ended(epoch, flags, now),
    {
        let mut pre_known_wsids: IdSet<WindowServerId> = IdSet::new();
        std::mem::swap(&mut self.churn_pre_known_wsids, &mut pre_known_wsids);
        self.state =
        TopologyState::AwaitingCommitSnapshot { epoch, started_at: now, flags, pre_known_wsids };
    }

    /// Takes what the commit needs if one is awaited; the topology then
    /// counts as stable.
    pub fn take_awaiting_commit(&mut self) -> (r: Option<(u64, u64, u32, IdSet<WindowServerId>)>)
        ensures
            final(self)@ == old(self)@.taken().0,
            match old(self)@.taken().1 {
                Some((epoch, started_at, flags, known)) => r matches Some((e, s, f, k)) && e
                    == epoch && s == started_at && f == flags && k@ == known,
                None => r is None,
            },
    {
        let mut state = TopologyState::Stable;
        std::mem::swap(&mut self.state, &mut state);
        match state {
            TopologyState::AwaitingCommitSnapshot { epoch, started_at, flags, pre_known_wsids } => {
                Some((epoch, started_at, flags, pre_known_wsids))
            },
            other => {
                self.state = other;
                None
            },
        }
    }

    /// Puts back what `take_awaiting_commit` gave.
    pub fn restore_awaiting_commit(
        &mut self,
        epoch: u64,
        started_at: u64,
        flags: u32,
        pre_known_wsids: IdSet<WindowServerId>,
    )
        ensures
            final(self)@ == old(self)@.restored(epoch, started_at, flags, pre_known_wsids@),
    {
        self.state =
        TopologyState::AwaitingCommitSnapshot { epoch, started_at, flags, pre_known_wsids };
    }

    pub fn current_churn(&self) -> (r: Option<(u64, u64, u32)>)
        ensures
            r == match self.state@ {
                TopologyModel::Churning(epoch, started_at, flags) => Some(
                    (epoch, started_at, flags),
                ),
                _ => None,
            },
    {
        match &self.state {
            TopologyState::Churning { epoch, started_at, flags } => Some(
                (*epoch, *started_at, *flags),
            ),
            _ => None,
        }
    }

    pub fn active_reconfig_flags(&self) -> (r: Option<u32>)
        ensures
            r == match self.state@ {
                TopologyModel::Churning(_, _, flags) => Some(flags),
                TopologyModel::AwaitingCommit(_, _, flags, _) => Some(flags),
                TopologyModel::Stable => None,
            },
    {
        match &self.state {
            TopologyState::Churning { flags, .. } => Some(*flags),
            TopologyState::AwaitingCommitSnapshot { flags, .. } => Some(*flags),
            TopologyState::Stable => None,
        }
    }

    pub fn quarantine_appeared(&mut self)
        requires
            old(self).quarantine_stats.appeared_dropped < u64::MAX,
        ensures
            final(self)@ == (ManagerModel {
                stats: QuarantineStats {
                    appeared_dropped: (old(self).quarantine_stats.appeared_dropped + 1) as u64,
                    ..old(self).quarantine_stats
                },
                ..old(self)@
            }),
    {
        self.quarantine_stats.appeared_dropped = self.quarantine_stats.appeared_dropped + 1;
    }

    pub fn quarantine_destroyed(&mut self)
        requires
            old(self).quarantine_stats.destroyed_dropped < u64::MAX,
        ensures
            final(self)@ == (ManagerModel {
                stats: QuarantineStats {
                    destroyed_dropped: (old(self).quarantine_stats.destroyed_dropped + 1) as u64,
                    ..old(self).quarantine_stats
                },
                ..old(self)@
            }),
    {
        self.quarantine_stats.destroyed_dropped = self.quarantine_stats.destroyed_dropped + 1;
    }

    pub fn quarantine_resync(&mut self)
        requires
            old(self).quarantine_stats.resync_dropped < u64::MAX,
        ensures
            final(self)@ == (ManagerModel {
                stats: QuarantineStats {
                    resync_dropped: (old(self).quarantine_stats.resync_dropped + 1) as u64,
                    ..old(self).quarantine_stats
                },
                ..old(self)@
            }),
    {
        self.quarantine_stats.resync_dropped = self.quarantine_stats.resync_dropped + 1;
    }

    pub fn mark_stable(&mut self)
        ensures
            final(self)@ == (ManagerModel { state: TopologyModel::Stable, ..old(self)@ }),
    {
        self.state = TopologyState::Stable;
    }
}

/// Churn that begins and ends is committed with the windows known when it
/// began, and leaves the topology stable.
pub proof fn law_churn_round_trip(
    m: ManagerModel,
    epoch: u64,
    flags: u32,
    known: Set<WindowServerId>,
    begun: u64,
    ended: u64,
)
    ensures
        ({
            let (after, commit) = m.begun(epoch, flags, known, begun).ended(
                epoch,
                flags,
                ended,
            ).taken();
            &&& commit == Some((epoch, ended, flags, known))
            &&& after.state == TopologyModel::Stable
        }),
{
}

/// Taking an awaited commit and putting it back changes nothing.
pub proof fn law_restored_commit_is_still_awaited(m: ManagerModel)
    requires
        m.state is AwaitingCommit,
    ensures
        m.taken().1 matches Some((epoch, started_at, flags, known)) && m.taken().0.restored(
            epoch,
            started_at,
            flags,
            known,
        ) == m,
{
}

/// A commit is taken at most once.
pub proof fn law_commit_is_taken_once(m: ManagerModel)
    ensures
        m.taken().0.taken().1 is None,
{
}

/// A reconfiguration that begins counts afresh and keeps in mind what was
/// known; when it ends, that is what the commit goes by.
pub proof fn law_reconfiguration_keeps_what_was_known(
    m: ManagerModel,
    epoch: u64,
    flags: u32,
    known: Set<WindowServerId>,
    now: u64,
)
    ensures
        m.begun(epoch, flags, known, now).state == TopologyModel::Churning(epoch, now, flags),
        m.begun(epoch, flags, known, now).known == known,
        m.begun(epoch, flags, known, now).stats.appeared_dropped == 0,
        m.begun(epoch, flags, known, now).stats.destroyed_dropped == 0,
        m.begun(epoch, flags, known, now).stats.resync_dropped == 0,
        m.ended(epoch, flags, now).state == TopologyModel::AwaitingCommit(
            epoch,
            now,
            flags,
            m.known,
        ),
        m.ended(epoch, flags, now).stats == m.stats,
        !(m.state is AwaitingCommit) ==> m.taken() == (m, None::<(u64, u64, u32, Set<WindowServerId>)>),
{
}

} // verus!
