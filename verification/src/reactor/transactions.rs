//! The frame writes that are under way, by window.

use vstd::prelude::*;

use crate::collections::IdMap;
use crate::geometry::Rect;
use crate::ids::{TransactionId, WindowServerId};

verus! {

/// The number of the last write to a window and the frame it is to end at.
#[derive(Copy, Clone, Debug, PartialEq, Eq, Structural)]
pub struct WriteRecord {
    pub last_sent: TransactionId,
    pub target: Option<Rect>,
}

pub struct TransactionManager {
    pub records: IdMap<WindowServerId, WriteRecord>,
}

impl TransactionManager {
    pub open spec fn record(&self, wsid: WindowServerId) -> WriteRecord {
        if self.records@.contains_key(wsid) {
            self.records@[wsid]
        } else {
            WriteRecord { last_sent: TransactionId(0), target: None }
        }
    }

    /// Every pending frame is in range.
    pub open spec fn wf(&self) -> bool {
        forall|w: WindowServerId|
            (#[trigger] self.record(w)).target matches Some(f) ==> f.in_range()
    }

    pub fn new() -> (r: Self)
        ensures
            r.records@ == Map::<WindowServerId, WriteRecord>::empty(),
            r.wf(),
    {
        TransactionManager { records: IdMap::new() }
    }

    fn get(&self, wsid: WindowServerId) -> (r: WriteRecord)
        ensures
            r == self.record(wsid),
    {
        match self.records.get(wsid) {
            Some(record) => *record,
            None => WriteRecord { last_sent: TransactionId(0), target: None },
        }
    }

    pub fn get_target_frame(&self, wsid: WindowServerId) -> (r: Option<Rect>)
        ensures
            r == self.record(wsid).target,
    {
        self.get(wsid).target
    }

    pub fn get_last_sent_txid(&self, wsid: WindowServerId) -> (r: TransactionId)
        ensures
            r == self.record(wsid).last_sent,
    {
        self.get(wsid).last_sent
    }

    /// Records a write with the frame it is to end at.
    pub fn store_txid(&mut self, wsid: WindowServerId, txid: TransactionId, target: Rect)
        ensures
            final(self).records@ == old(self).records@.insert(
                wsid,
                WriteRecord { last_sent: txid, target: Some(target) },
            ),
    {
        let _ = self.records.insert(wsid, WriteRecord { last_sent: txid, target: Some(target) });
    }

    pub fn set_last_sent_txid(&mut self, wsid: WindowServerId, txid: TransactionId)
        ensures
            final(self).records@ == old(self).records@.insert(
                wsid,
                WriteRecord { last_sent: txid, target: old(self).record(wsid).target },
            ),
    {
        let target: Option<Rect> = self.get(wsid).target;
        let _ = self.records.insert(wsid, WriteRecord { last_sent: txid, target });
    }

    /// The number for the next write to a window: one above the last, never
    /// that of no write.
    pub open spec fn next_txid(&self, wsid: WindowServerId) -> TransactionId {
        if self.record(wsid).last_sent.0 == u32::MAX {
            TransactionId(1)
        } else {
            TransactionId((self.record(wsid).last_sent.0 + 1) as u32)
        }
    }

    /// Numbers the next write to a window.
    pub fn generate_next_txid(&mut self, wsid: WindowServerId) -> (r: TransactionId)
        ensures
            r == old(self).next_txid(wsid),
            r != old(self).record(wsid).last_sent,
            r != TransactionId(0),
            final(self).records@ == old(self).records@.insert(
                wsid,
                WriteRecord { last_sent: r, target: old(self).record(wsid).target },
            ),
    {
        let last: TransactionId = self.get(wsid).last_sent;
        let next: TransactionId = if last.0 == u32::MAX {
            TransactionId(1)
        } else {
            TransactionId(last.0 + 1)
        };
        self.set_last_sent_txid(wsid, next);
        next
    }

    pub fn clear_target_for_window(&mut self, wsid: WindowServerId)
        ensures
            final(self).records@ == old(self).records@.insert(
                wsid,
                WriteRecord { last_sent: old(self).record(wsid).last_sent, target: None },
            ),
    {
        let last_sent: TransactionId = self.get(wsid).last_sent;
        let _ = self.records.insert(wsid, WriteRecord { last_sent, target: None });
    }

    pub fn remove_for_window(&mut self, wsid: WindowServerId)
        ensures
            final(self).records@ == old(self).records@.remove(wsid),
    {
        let _ = self.records.remove(wsid);
    }
}

} // verus!
