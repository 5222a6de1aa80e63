//! Cache of recent block metadata: one bounded history of recently observed
//! blockhashes, plus the most recent block per tracked commitment level. It is
//! the source of truth for "is this blockhash still fresh, and at what slot
//! was it observed". Unknown hashes are an explicit not-found, never
//! synthesized; refresh happens by `record_block` calls driven from outside.

use vstd::prelude::*;

use crate::types::{block_eq, bytes_eq, copy_bytes, BlockInfo, CommitmentLevel};

verus! {

/// Field-wise copy of a block record.
pub fn duplicate_block(b: &BlockInfo) -> (r: BlockInfo)
    ensures
        block_eq(r, *b),
{
    BlockInfo { slot: b.slot, block_height: b.block_height, blockhash: copy_bytes(&b.blockhash) }
}

pub struct BlockStore {
    /// Recently observed blocks, oldest first, at most `capacity` of them,
    /// each blockhash held once. Entries are immutable once recorded.
    pub history: Vec<BlockInfo>,
    /// Size of the recent-history window. It must be large enough that any
    /// blockhash the cluster still accepts is resolvable here.
    pub capacity: usize,
    /// Most recent block observed at confirmed (or weaker) commitment.
    pub latest_confirmed: BlockInfo,
    /// Most recent block observed at finalized commitment.
    pub latest_finalized: BlockInfo,
}

impl BlockStore {
    pub open spec fn hashes_unique(h: Seq<BlockInfo>) -> bool {
        forall|i: int, j: int|
            0 <= i < j < h.len() ==> h[i].blockhash@ != h[j].blockhash@
    }

    pub open spec fn wf(self) -> bool {
        &&& self.capacity >= 2
        &&& self.history@.len() <= self.capacity
        &&& Self::hashes_unique(self.history@)
        &&& self.latest_confirmed.block_height >= self.latest_finalized.block_height
    }

    /// Whether the given blockhash is still resolvable from the window.
    pub open spec fn hash_in_history(self, h: Seq<u8>) -> bool {
        exists|i: int| 0 <= i < self.history@.len() && self.history@[i].blockhash@ == h
    }

    /// Index of the (unique) entry holding the given blockhash.
    pub open spec fn idx_of(self, h: Seq<u8>) -> int {
        choose|i: int| 0 <= i < self.history@.len() && self.history@[i].blockhash@ == h
    }

    /// The record the store answers for a blockhash: the one it observed, or
    /// nothing at all.
    pub open spec fn spec_block_info(self, h: Seq<u8>) -> Option<BlockInfo> {
        if self.hash_in_history(h) {
            Some(self.history@[self.idx_of(h)])
        } else {
            None
        }
    }

    /// The most recent block at or above the requested commitment. Processed
    /// and confirmed requests are both answered from the confirmed feed.
    pub open spec fn spec_latest(self, c: CommitmentLevel) -> BlockInfo {
        match c {
            CommitmentLevel::Finalized => self.latest_finalized,
            _ => self.latest_confirmed,
        }
    }

    /// A fresh store, seeded with one confirmed and one finalized block so
    /// that every commitment level has an answer from the start.
    pub fn new(capacity: usize, confirmed0: BlockInfo, finalized0: BlockInfo) -> (r: BlockStore)
        requires
            capacity >= 2,
            confirmed0.block_height >= finalized0.block_height,
        ensures
            r.wf(),
            r.capacity == capacity,
            r.latest_confirmed == confirmed0,
            r.latest_finalized == finalized0,
            r.hash_in_history(confirmed0.blockhash@),
            r.hash_in_history(finalized0.blockhash@),
            forall|i: int|
                0 <= i < r.history@.len()
                    ==> block_eq(#[trigger] r.history@[i], confirmed0)
                        || block_eq(r.history@[i], finalized0),
    {
        let mut history: Vec<BlockInfo> = Vec::new();
        let c_copy = duplicate_block(&confirmed0);
        if bytes_eq(&confirmed0.blockhash, &finalized0.blockhash) {
            history.push(c_copy);
        } else {
            let f_copy = duplicate_block(&finalized0);
            history.push(f_copy);
            history.push(c_copy);
        }
        let r = BlockStore { history, capacity, latest_confirmed: confirmed0, latest_finalized: finalized0 };
        assert(r.hash_in_history(r.latest_confirmed.blockhash@)) by {
            assert(r.history@[r.history@.len() - 1].blockhash@ == r.latest_confirmed.blockhash@);
        }
        assert(r.hash_in_history(r.latest_finalized.blockhash@)) by {
            assert(r.history@[0].blockhash@ == r.latest_finalized.blockhash@);
        }
        r
    }

    /// Index of the entry holding the given hash, if any.
    fn find_hash(&self, h: &Vec<u8>) -> (r: Option<usize>)
        ensures
            r is Some <==> self.hash_in_history(h@),
            r is Some ==> 0 <= r.unwrap() < self.history@.len()
                && self.history@[r.unwrap() as int].blockhash@ == h@,
    {
        let mut i: usize = 0;
        while i < self.history.len()
            invariant
                i <= self.history@.len(),
                forall|k: int| 0 <= k < i ==> self.history@[k].blockhash@ != h@,
            decreases self.history@.len() - i,
        {
            if bytes_eq(&self.history[i].blockhash, h) {
                return Some(i);
            }
            i = i + 1;
        }
        None
    }

    /// O(1)-style lookup against the bounded window: the observed record, or
    /// `None` once the hash has expired from history or was never observed.
    /// Callers must treat `None` as "transaction is stale or unsendable".
    pub fn get_block_info(&self, blockhash: &Vec<u8>) -> (r: Option<BlockInfo>)
        requires
            self.wf(),
        ensures
            r is Some <==> self.hash_in_history(blockhash@),
            r is Some ==> block_eq(r.unwrap(), self.spec_block_info(blockhash@).unwrap()),
    {
        match self.find_hash(blockhash) {
            Some(i) => {
                proof {
                    let j = self.idx_of(blockhash@);
                    assert(0 <= j < self.history@.len()
                        && self.history@[j].blockhash@ == blockhash@);
                    assert(j == i as int);
                }
                Some(duplicate_block(&self.history[i]))
            },
            None => None,
        }
    }

    /// The most recently observed block at or above the requested commitment,
    /// as the pair of its hash and its record.
    pub fn get_latest_block(&self, commitment: CommitmentLevel) -> (r: (Vec<u8>, BlockInfo))
        ensures
            r.0@ == self.spec_latest(commitment).blockhash@,
            block_eq(r.1, self.spec_latest(commitment)),
    {
        match commitment {
            CommitmentLevel::Finalized => (
                copy_bytes(&self.latest_finalized.blockhash),
                duplicate_block(&self.latest_finalized),
            ),
            _ => (
                copy_bytes(&self.latest_confirmed.blockhash),
                duplicate_block(&self.latest_confirmed),
            ),
        }
    }

    /// Slot and height of the latest block at the requested commitment, for
    /// responses that do not need the hash itself.
    pub fn get_latest_block_info(&self, commitment: CommitmentLevel) -> (r: BlockInfo)
        ensures
            block_eq(r, self.spec_latest(commitment)),
    {
        match commitment {
            CommitmentLevel::Finalized => duplicate_block(&self.latest_finalized),
            _ => duplicate_block(&self.latest_confirmed),
        }
    }

    /// Record one newly observed block: keep its hash resolvable (evicting
    /// the oldest entry once the window is full) and advance the per-level
    /// latest blocks, never letting a latest height move backwards.
    pub fn record_block(&mut self, commitment: CommitmentLevel, b: BlockInfo)
        requires
            old(self).wf(),
        ensures
            final(self).wf(),
            final(self).capacity == old(self).capacity,
            // The latest confirmed block advances exactly when the new block
            // is at least as high; finalized advances only on finalized
            // observations.
            block_eq(
                final(self).latest_confirmed,
                if b.block_height >= old(self).latest_confirmed.block_height {
                    b
                } else {
                    old(self).latest_confirmed
                },
            ),
            block_eq(
                final(self).latest_finalized,
                if commitment is Finalized
                    && b.block_height >= old(self).latest_finalized.block_height {
                    b
                } else {
                    old(self).latest_finalized
                },
            ),
            // Latest heights never regress.
            final(self).latest_confirmed.block_height >= old(self).latest_confirmed.block_height,
            final(self).latest_finalized.block_height >= old(self).latest_finalized.block_height,
            // The new hash is resolvable, and the window changed only as a
            // window does: unchanged if the hash was already present, else
            // appended, evicting the oldest entry once full.
            final(self).hash_in_history(b.blockhash@),
            old(self).hash_in_history(b.blockhash@) ==> final(self).history@ == old(self).history@,
            !old(self).hash_in_history(b.blockhash@)
                && old(self).history@.len() < old(self).capacity ==> {
                &&& final(self).history@.len() == old(self).history@.len() + 1
                &&& forall|i: int|
                    0 <= i < old(self).history@.len()
                        ==> final(self).history@[i] == old(self).history@[i]
                &&& block_eq(final(self).history@[old(self).history@.len() as int], b)
            },
            !old(self).hash_in_history(b.blockhash@)
                && old(self).history@.len() == old(self).capacity ==> {
                &&& final(self).history@.len() == old(self).history@.len()
                &&& forall|i: int|
                    0 <= i < old(self).history@.len() - 1
                        ==> final(self).history@[i] == old(self).history@[i + 1]
                &&& block_eq(final(self).history@[old(self).history@.len() - 1], b)
            },
    {
        let present = self.find_hash(&b.blockhash);
        if present.is_none() {
            if self.history.len() == self.capacity {
                self.history.remove(0);
            }
            let b_copy = duplicate_block(&b);
            self.history.push(b_copy);
            proof {
                assert(self.history@[self.history@.len() - 1].blockhash@ == b.blockhash@);
                assert(self.hash_in_history(b.blockhash@));
            }
        } else {
            proof {
                let i = choose|i: int|
                    0 <= i < self.history@.len() && self.history@[i].blockhash@ == b.blockhash@;
                assert(self.history@[i].blockhash@ == b.blockhash@);
            }
        }
        if b.block_height >= self.latest_confirmed.block_height {
            self.latest_confirmed = duplicate_block(&b);
        }
        match commitment {
            CommitmentLevel::Finalized => {
                if b.block_height >= self.latest_finalized.block_height {
                    self.latest_finalized = duplicate_block(&b);
                }
            },
            _ => {},
        }
    }
}

} // verus!
