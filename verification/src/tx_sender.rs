//! The bounded pipeline from "submitted transaction" to "batched hand-off to
//! the leader router": an intake queue that never blocks the caller, and the
//! table of tracked transactions that the listener updates and the RPC facade
//! reads. Transmission itself is outside work; the batching loop drains a
//! batch here, hands it to the router, and records the outcome here.

use vstd::prelude::*;

use crate::types::{
    bytes_eq, copy_bytes, status_rank, upgrade_status, ConfirmationStatus, QueuedTransaction,
    TrackedTransaction,
};

verus! {

/// Whether some queued transaction in `q` carries the signature `sig`.
pub open spec fn sig_in_seq(sig: Seq<u8>, q: Seq<QueuedTransaction>) -> bool {
    exists|i: int| 0 <= i < q.len() && q[i].signature@ == sig
}

/// Extending a prefix of a batch by one item adds exactly that item's
/// signature to the signatures the prefix holds.
proof fn lemma_sig_in_take_succ(q: Seq<QueuedTransaction>, t: int, s: Seq<u8>)
    requires
        0 <= t < q.len(),
    ensures
        sig_in_seq(s, q.take(t + 1)) <==> (sig_in_seq(s, q.take(t)) || q[t].signature@ == s),
{
    if sig_in_seq(s, q.take(t + 1)) {
        let i = choose|i: int| 0 <= i < q.take(t + 1).len() && #[trigger] q.take(t + 1)[i].signature@ == s;
        if i < t {
            assert(q.take(t)[i].signature@ == s);
        } else {
            assert(q.take(t + 1)[t] == q[t]);
        }
    }
    if sig_in_seq(s, q.take(t)) {
        let i = choose|i: int| 0 <= i < q.take(t).len() && #[trigger] q.take(t)[i].signature@ == s;
        assert(q.take(t + 1)[i].signature@ == s);
    }
    if q[t].signature@ == s {
        assert(q.take(t + 1)[t].signature@ == s);
    }
}

/// `e` with only its hand-off timestamp moved to `now`.
pub open spec fn refreshed(e: TrackedTransaction, now: u64) -> TrackedTransaction {
    TrackedTransaction { last_sent_at: now, ..e }
}

/// `e` with its retry counter bumped, saturating.
pub open spec fn bumped(e: TrackedTransaction) -> TrackedTransaction {
    TrackedTransaction {
        retry_count: if e.retry_count == u32::MAX {
            u32::MAX
        } else {
            (e.retry_count + 1) as u32
        },
        ..e
    }
}

/// A zero-value entry recorded for a signature the bridge did not transmit
/// itself (an airdrop): it only makes later status queries uniform.
pub open spec fn is_zero_entry(e: TrackedTransaction, sig: Seq<u8>, now: u64) -> bool {
    &&& e.signature@ == sig
    &&& e.raw_bytes@ == Seq::<u8>::empty()
    &&& e.submitted_slot == 0
    &&& e.status is None
    &&& e.last_sent_at == now
    &&& e.retry_count == 0
}

pub struct TxSender {
    /// Unbounded intake, oldest first. Enqueueing never blocks; backpressure
    /// is absorbed here and observable only through `in_flight`.
    pub queue: Vec<QueuedTransaction>,
    /// One entry per signature handed to the router (or recorded as an
    /// airdrop), until the janitor evicts it.
    pub txs_sent: Vec<TrackedTransaction>,
}

impl TxSender {
    /// Each live signature appears at most once: re-submission replaces,
    /// never duplicates.
    pub open spec fn sigs_unique(txs: Seq<TrackedTransaction>) -> bool {
        forall|i: int, j: int|
            0 <= i < j < txs.len()
                ==> #[trigger] txs[i].signature@ != #[trigger] txs[j].signature@
    }

    pub open spec fn wf(self) -> bool {
        Self::sigs_unique(self.txs_sent@)
    }

    /// Whether the table holds an entry for `sig`.
    pub open spec fn has_tx(self, sig: Seq<u8>) -> bool {
        exists|i: int| 0 <= i < self.txs_sent@.len() && self.txs_sent@[i].signature@ == sig
    }

    /// Index of the (unique) entry for `sig`.
    pub open spec fn idx_of(self, sig: Seq<u8>) -> int {
        choose|i: int| 0 <= i < self.txs_sent@.len() && self.txs_sent@[i].signature@ == sig
    }

    /// The (unique) entry for `sig`.
    pub open spec fn tx_at(self, sig: Seq<u8>) -> TrackedTransaction {
        self.txs_sent@[self.idx_of(sig)]
    }

    /// What a status query answers for `sig`: the tracked status if the entry
    /// is live, else nothing.
    pub open spec fn spec_status(self, sig: Seq<u8>) -> Option<Option<ConfirmationStatus>> {
        if self.has_tx(sig) {
            Some(self.tx_at(sig).status)
        } else {
            None
        }
    }

    /// Under uniqueness, an index holding `sig` is the index of `sig`.
    pub proof fn lemma_idx_unique(self, i: int, sig: Seq<u8>)
        requires
            self.wf(),
            0 <= i < self.txs_sent@.len(),
            self.txs_sent@[i].signature@ == sig,
        ensures
            self.has_tx(sig),
            self.idx_of(sig) == i,
            self.tx_at(sig) == self.txs_sent@[i],
    {
        assert(self.has_tx(sig));
        let j = self.idx_of(sig);
        assert(0 <= j < self.txs_sent@.len() && self.txs_sent@[j].signature@ == sig);
        if j < i {
            assert(self.txs_sent@[j].signature@ != self.txs_sent@[i].signature@);
        } else if i < j {
            assert(self.txs_sent@[i].signature@ != self.txs_sent@[j].signature@);
        }
    }

    /// A table keeps every signature it had once its entries change without
    /// renaming or removing positions.
    proof fn lemma_has_tx_preserved(pre: TxSender, post: TxSender, s: Seq<u8>)
        requires
            pre.has_tx(s),
            post.txs_sent@.len() >= pre.txs_sent@.len(),
            forall|k: int|
                0 <= k < pre.txs_sent@.len()
                    ==> #[trigger] post.txs_sent@[k].signature@ == pre.txs_sent@[k].signature@,
        ensures
            post.has_tx(s),
    {
        let k = choose|k: int|
            0 <= k < pre.txs_sent@.len() && pre.txs_sent@[k].signature@ == s;
        assert(post.txs_sent@[k].signature@ == s);
    }

    pub fn new() -> (r: TxSender)
        ensures
            r.wf(),
            r.queue@.len() == 0,
            r.txs_sent@.len() == 0,
    {
        TxSender { queue: Vec::new(), txs_sent: Vec::new() }
    }

    /// Transactions waiting for the next batch; the in-flight gauge.
    pub fn in_flight(&self) -> (r: usize)
        ensures
            r == self.queue@.len(),
    {
        self.queue.len()
    }

    /// Live entries in the tracked-transaction table.
    pub fn tracked_count(&self) -> (r: usize)
        ensures
            r == self.txs_sent@.len(),
    {
        self.txs_sent.len()
    }

    /// Index of the entry for the given signature, if it is live.
    fn find_sig(&self, sig: &Vec<u8>) -> (r: Option<usize>)
        ensures
            r is Some <==> self.has_tx(sig@),
            r is Some ==> 0 <= r.unwrap() < self.txs_sent@.len()
                && self.txs_sent@[r.unwrap() as int].signature@ == sig@,
    {
        let mut i: usize = 0;
        while i < self.txs_sent.len()
            invariant
                i <= self.txs_sent@.len(),
                forall|k: int| 0 <= k < i ==> self.txs_sent@[k].signature@ != sig@,
            decreases self.txs_sent@.len() - i,
        {
            if bytes_eq(&self.txs_sent[i].signature, sig) {
                return Some(i);
            }
            i = i + 1;
        }
        None
    }

    /// Append to the intake queue. Never blocks and touches nothing else.
    pub fn enqueue(&mut self, signature: Vec<u8>, raw_bytes: Vec<u8>, submitted_slot: u64)
        ensures
            final(self).queue@ == old(self).queue@.push(
                (QueuedTransaction { signature, raw_bytes, submitted_slot }),
            ),
            final(self).txs_sent == old(self).txs_sent,
    {
        self.queue.push(QueuedTransaction { signature, raw_bytes, submitted_slot });
    }

    /// Take up to `batch_size` transactions off the front of the queue, in
    /// order. A batch boundary is a count-or-time trigger; the time half
    /// lives with the caller, so this simply drains what is due now.
    pub fn drain_batch(&mut self, batch_size: usize) -> (batch: Vec<QueuedTransaction>)
        ensures
            batch@.len() == if batch_size <= old(self).queue@.len() {
                batch_size as int
            } else {
                old(self).queue@.len() as int
            },
            forall|i: int| 0 <= i < batch@.len() ==> batch@[i] == old(self).queue@[i],
            final(self).queue@ == old(self).queue@.skip(batch@.len() as int),
            final(self).txs_sent == old(self).txs_sent,
    {
        let mut batch: Vec<QueuedTransaction> = Vec::new();
        while batch.len() < batch_size && self.queue.len() > 0
            invariant
                batch@.len() <= batch_size,
                batch@.len() <= old(self).queue@.len(),
                forall|i: int| 0 <= i < batch@.len() ==> batch@[i] == old(self).queue@[i],
                self.queue@ == old(self).queue@.skip(batch@.len() as int),
                self.txs_sent == old(self).txs_sent,
                batch@.len() < batch_size ==> self.queue@.len()
                    == old(self).queue@.len() - batch@.len(),
            decreases batch_size - batch@.len(),
        {
            let q = self.queue.remove(0);
            batch.push(q);
            proof {
                assert(self.queue@ =~= old(self).queue@.skip(batch@.len() as int));
            }
        }
        batch
    }

    /// Record that every transaction of a batch was just handed to the
    /// router: live entries keep their status and retries and only refresh
    /// their timestamp; signatures seen for the first time get a fresh entry
    /// with nothing observed yet.
    pub fn record_batch_sent(&mut self, batch: &Vec<QueuedTransaction>, now: u64)
        requires
            old(self).wf(),
        ensures
            final(self).wf(),
            final(self).queue == old(self).queue,
            final(self).txs_sent@.len() >= old(self).txs_sent@.len(),
            // Entries that were already live keep their position; those named
            // by the batch are refreshed, the rest are untouched.
            forall|j: int|
                0 <= j < old(self).txs_sent@.len()
                    ==> #[trigger] final(self).txs_sent@[j] == if sig_in_seq(
                    old(self).txs_sent@[j].signature@,
                    batch@,
                ) {
                    refreshed(old(self).txs_sent@[j], now)
                } else {
                    old(self).txs_sent@[j]
                },
            // Appended entries are fresh ones for batch signatures that were
            // not yet tracked.
            forall|j: int|
                old(self).txs_sent@.len() <= j < final(self).txs_sent@.len() ==> {
                    &&& sig_in_seq(#[trigger] final(self).txs_sent@[j].signature@, batch@)
                    &&& !old(self).has_tx(final(self).txs_sent@[j].signature@)
                    &&& final(self).txs_sent@[j].status is None
                    &&& final(self).txs_sent@[j].retry_count == 0
                    &&& final(self).txs_sent@[j].last_sent_at == now
                },
            // Every batch signature is tracked afterwards.
            forall|i: int|
                0 <= i < batch@.len()
                    ==> final(self).has_tx(#[trigger] batch@[i].signature@),
    {
        let mut t: usize = 0;
        while t < batch.len()
            invariant
                t <= batch@.len(),
                self.wf(),
                self.queue == old(self).queue,
                self.txs_sent@.len() >= old(self).txs_sent@.len(),
                forall|k: int|
                    0 <= k < old(self).txs_sent@.len()
                        ==> #[trigger] self.txs_sent@[k].signature@
                            == old(self).txs_sent@[k].signature@,
                forall|j: int|
                    0 <= j < old(self).txs_sent@.len()
                        ==> #[trigger] self.txs_sent@[j] == if sig_in_seq(
                        old(self).txs_sent@[j].signature@,
                        batch@.take(t as int),
                    ) {
                        refreshed(old(self).txs_sent@[j], now)
                    } else {
                        old(self).txs_sent@[j]
                    },
                forall|j: int|
                    old(self).txs_sent@.len() <= j < self.txs_sent@.len() ==> {
                        &&& sig_in_seq(#[trigger] self.txs_sent@[j].signature@, batch@)
                        &&& !old(self).has_tx(self.txs_sent@[j].signature@)
                        &&& self.txs_sent@[j].status is None
                        &&& self.txs_sent@[j].retry_count == 0
                        &&& self.txs_sent@[j].last_sent_at == now
                    },
                forall|i: int|
                    0 <= i < t ==> self.has_tx(#[trigger] batch@[i].signature@),
            decreases batch@.len() - t,
        {
            let ghost pre = *self;
            let ghost tt = t as int;
            match self.find_sig(&batch[t].signature) {
                Some(i) => {
                    let e = vstd::std_specs::vec::vec_index_mut(&mut self.txs_sent, i);
                    e.last_sent_at = now;
                    proof {
                        assert(self.txs_sent@ =~= pre.txs_sent@.update(
                            i as int,
                            refreshed(pre.txs_sent@[i as int], now),
                        ));
                    }
                },
                None => {
                    let fresh = TrackedTransaction {
                        signature: copy_bytes(&batch[t].signature),
                        raw_bytes: copy_bytes(&batch[t].raw_bytes),
                        submitted_slot: batch[t].submitted_slot,
                        status: None,
                        last_sent_at: now,
                        retry_count: 0,
                    };
                    self.txs_sent.push(fresh);
                    proof {
                        let last = self.txs_sent@.len() - 1;
                        assert(self.txs_sent@[last].signature@ == batch@[tt].signature@);
                        assert(self.txs_sent@[last].status is None);
                        assert(self.txs_sent@[last].retry_count == 0);
                        assert(self.txs_sent@[last].last_sent_at == now);
                        assert(sig_in_seq(batch@[tt].signature@, batch@)) by {
                            assert(batch@[tt].signature@ == batch@[tt].signature@);
                        }
                        // The fresh signature was never in the table: the
                        // prefix signatures are unchanged since the start.
                        if old(self).has_tx(batch@[tt].signature@) {
                            Self::lemma_has_tx_preserved(*old(self), pre, batch@[tt].signature@);
                        }
                    }
                },
            }
            proof {
                // Re-establish the refresh invariant for the extended prefix.
                assert forall|j: int| 0 <= j < old(self).txs_sent@.len() implies
                    #[trigger] self.txs_sent@[j] == if sig_in_seq(
                        old(self).txs_sent@[j].signature@,
                        batch@.take(tt + 1),
                    ) {
                        refreshed(old(self).txs_sent@[j], now)
                    } else {
                        old(self).txs_sent@[j]
                    } by {
                    lemma_sig_in_take_succ(batch@, tt, old(self).txs_sent@[j].signature@);
                }
                // Every batch signature processed so far stays tracked.
                assert forall|i: int| 0 <= i < tt + 1 implies
                    self.has_tx(#[trigger] batch@[i].signature@) by {
                    if i < tt {
                        Self::lemma_has_tx_preserved(pre, *self, batch@[i].signature@);
                    } else {
                        if pre.has_tx(batch@[tt].signature@) {
                            Self::lemma_has_tx_preserved(pre, *self, batch@[tt].signature@);
                        } else {
                            assert(self.txs_sent@[self.txs_sent@.len() - 1].signature@
                                == batch@[tt].signature@);
                        }
                    }
                }
            }
            t = t + 1;
        }
        proof {
            assert(batch@.take(batch@.len() as int) =~= batch@);
        }
    }

    /// Record a failed hand-off of a whole batch: every live entry named by
    /// the batch has its retry counter bumped, nothing is removed, and
    /// re-sending is left to a later batch tick.
    pub fn record_send_failure(&mut self, batch: &Vec<QueuedTransaction>)
        requires
            old(self).wf(),
        ensures
            final(self).wf(),
            final(self).queue == old(self).queue,
            final(self).txs_sent@.len() == old(self).txs_sent@.len(),
            forall|j: int|
                0 <= j < old(self).txs_sent@.len()
                    ==> #[trigger] final(self).txs_sent@[j] == if sig_in_seq(
                    old(self).txs_sent@[j].signature@,
                    batch@,
                ) {
                    bumped(old(self).txs_sent@[j])
                } else {
                    old(self).txs_sent@[j]
                },
    {
        let ghost orig = *self;
        let mut j: usize = 0;
        while j < self.txs_sent.len()
            invariant
                self.wf(),
                self.queue == orig.queue,
                self.txs_sent@.len() == orig.txs_sent@.len(),
                j <= self.txs_sent@.len(),
                forall|k: int|
                    0 <= k < j
                        ==> #[trigger] self.txs_sent@[k] == if sig_in_seq(
                        orig.txs_sent@[k].signature@,
                        batch@,
                    ) {
                        bumped(orig.txs_sent@[k])
                    } else {
                        orig.txs_sent@[k]
                    },
                forall|k: int|
                    j <= k < self.txs_sent@.len()
                        ==> #[trigger] self.txs_sent@[k] == orig.txs_sent@[k],
            decreases self.txs_sent@.len() - j,
        {
            let ghost pre = *self;
            if Self::sig_named_by(batch, &self.txs_sent[j].signature) {
                let e = vstd::std_specs::vec::vec_index_mut(&mut self.txs_sent, j);
                if e.retry_count < u32::MAX {
                    e.retry_count = e.retry_count + 1;
                }
                proof {
                    assert(self.txs_sent@ =~= pre.txs_sent@.update(
                        j as int,
                        bumped(pre.txs_sent@[j as int]),
                    ));
                }
            }
            j = j + 1;
        }
    }

    /// Whether the batch holds an item with the given signature.
    fn sig_named_by(batch: &Vec<QueuedTransaction>, sig: &Vec<u8>) -> (r: bool)
        ensures
            r <==> sig_in_seq(sig@, batch@),
    {
        let mut i: usize = 0;
        while i < batch.len()
            invariant
                i <= batch@.len(),
                forall|k: int| 0 <= k < i ==> batch@[k].signature@ != sig@,
            decreases batch@.len() - i,
        {
            if bytes_eq(&batch[i].signature, sig) {
                return true;
            }
            i = i + 1;
        }
        false
    }

    /// Apply one observed status to the entry for `signature`, if it is
    /// live: the entry moves to the more final of its current status and the
    /// observed one, so a status never regresses. Returns the entry's status
    /// after the update, or nothing if the signature is not tracked.
    pub fn apply_status(&mut self, signature: &Vec<u8>, observed: ConfirmationStatus) -> (r:
        Option<Option<ConfirmationStatus>>)
        requires
            old(self).wf(),
        ensures
            final(self).wf(),
            final(self).queue == old(self).queue,
            r is Some <==> old(self).has_tx(signature@),
            !old(self).has_tx(signature@) ==> final(self).txs_sent == old(self).txs_sent,
            old(self).has_tx(signature@) ==> {
                let i = old(self).idx_of(signature@);
                &&& final(self).txs_sent@ == old(self).txs_sent@.update(
                    i,
                    (TrackedTransaction {
                        status: upgrade_status(old(self).txs_sent@[i].status, observed),
                        ..old(self).txs_sent@[i]
                    }),
                )
                &&& r == Some(upgrade_status(old(self).txs_sent@[i].status, observed))
            },
            // The non-regression rule, stated over the entry itself.
            old(self).has_tx(signature@) ==> status_rank(final(self).tx_at(signature@).status)
                >= status_rank(old(self).tx_at(signature@).status),
    {
        let ghost orig = *self;
        match self.find_sig(signature) {
            Some(i) => {
                proof {
                    orig.lemma_idx_unique(i as int, signature@);
                }
                let cur_rank = crate::types::status_rank_exec(&self.txs_sent[i].status);
                let obs_rank = crate::types::status_rank_exec(&Some(observed));
                let e = vstd::std_specs::vec::vec_index_mut(&mut self.txs_sent, i);
                if obs_rank > cur_rank {
                    e.status = Some(observed);
                }
                let r = Some(self.txs_sent[i].status);
                proof {
                    assert(self.txs_sent@ =~= orig.txs_sent@.update(
                        i as int,
                        (TrackedTransaction {
                            status: upgrade_status(orig.txs_sent@[i as int].status, observed),
                            ..orig.txs_sent@[i as int]
                        }),
                    ));
                    self.lemma_idx_unique(i as int, signature@);
                }
                r
            },
            None => None,
        }
    }

    /// The tracked status of `signature`: `Some(status)` while the entry is
    /// live (where `status` itself may be `None` when nothing has been
    /// observed yet), `None` once it was evicted or never existed. A pure
    /// local read, never a network call.
    pub fn get_status(&self, signature: &Vec<u8>) -> (r: Option<Option<ConfirmationStatus>>)
        requires
            self.wf(),
        ensures
            r == self.spec_status(signature@),
    {
        match self.find_sig(signature) {
            Some(i) => {
                proof {
                    self.lemma_idx_unique(i as int, signature@);
                }
                Some(self.txs_sent[i].status)
            },
            None => None,
        }
    }

    /// Record a zero-value entry for a signature the bridge did not transmit
    /// itself, replacing any live entry for it, so that later status queries
    /// behave as for normally submitted transactions.
    pub fn insert_zero_entry(&mut self, signature: Vec<u8>, now: u64)
        requires
            old(self).wf(),
        ensures
            final(self).wf(),
            final(self).queue == old(self).queue,
            final(self).has_tx(signature@),
            is_zero_entry(final(self).tx_at(signature@), signature@, now),
            old(self).has_tx(signature@) ==> {
                &&& final(self).txs_sent@.len() == old(self).txs_sent@.len()
                &&& forall|j: int|
                    0 <= j < old(self).txs_sent@.len() && j != old(self).idx_of(signature@)
                        ==> #[trigger] final(self).txs_sent@[j] == old(self).txs_sent@[j]
            },
            !old(self).has_tx(signature@) ==> {
                &&& final(self).txs_sent@.len() == old(self).txs_sent@.len() + 1
                &&& forall|j: int|
                    0 <= j < old(self).txs_sent@.len()
                        ==> #[trigger] final(self).txs_sent@[j] == old(self).txs_sent@[j]
            },
    {
        let ghost orig = *self;
        let entry = TrackedTransaction {
            signature,
            raw_bytes: Vec::new(),
            submitted_slot: 0,
            status: None,
            last_sent_at: now,
            retry_count: 0,
        };
        match self.find_sig(&entry.signature) {
            Some(i) => {
                proof {
                    orig.lemma_idx_unique(i as int, entry.signature@);
                }
                let ghost sig_view = entry.signature@;
                self.txs_sent[i] = entry;
                proof {
                    self.lemma_idx_unique(i as int, sig_view);
                }
            },
            None => {
                let ghost sig_view = entry.signature@;
                self.txs_sent.push(entry);
                proof {
                    self.lemma_idx_unique(self.txs_sent@.len() - 1, sig_view);
                }
            },
        }
    }
}

} // verus!
