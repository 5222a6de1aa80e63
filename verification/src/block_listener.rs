//! Confirmation listening: the cluster is polled outside; every status a
//! poll learns about is handed in here, updating the tracked-transaction
//! table under the non-regression rule and serving live push subscriptions
//! keyed by signature. Deliveries themselves (and disconnect detection) are
//! the caller's outside work; this module says exactly which sinks are owed
//! exactly one terminal notification.

use vstd::prelude::*;

use crate::tx_sender::TxSender;
use crate::types::{
    bytes_eq, copy_bytes, required_rank_exec, status_rank, status_rank_exec, status_satisfies,
    ConfirmationStatus, Notification, Subscription,
};

verus! {

/// Whether a status observed for `sig` fulfils the subscription `s`.
/// Kept opaque so that contracts over whole tables stay cheap to reason
/// about; `reveal(sub_fires)` gives the definition where it is needed.
#[verifier::opaque]
pub open spec fn sub_fires(s: Subscription, sig: Seq<u8>, st: ConfirmationStatus) -> bool {
    s.signature@ == sig && status_satisfies(st, s.commitment)
}

/// Field-wise sameness of two subscriptions, comparing the signature by
/// contents.
pub open spec fn sub_like(a: Subscription, b: Subscription) -> bool {
    a.signature@ == b.signature@ && a.commitment == b.commitment && a.sink_id == b.sink_id
}

/// Whether a subscription like `s` occurs in `subs`.
pub open spec fn sub_in(subs: Seq<Subscription>, s: Subscription) -> bool {
    exists|i: int| 0 <= i < subs.len() && sub_like(subs[i], s)
}

pub struct BlockListener {
    /// Live push registrations, each waiting for its transaction to reach
    /// its commitment level; removed on fulfilment, on disconnect, or by the
    /// janitor once the parent transaction is evicted.
    pub subscriptions: Vec<Subscription>,
}

impl BlockListener {
    pub fn new() -> (r: BlockListener)
        ensures
            r.subscriptions@.len() == 0,
    {
        BlockListener { subscriptions: Vec::new() }
    }

    /// Live subscriptions.
    pub fn subscription_count(&self) -> (r: usize)
        ensures
            r == self.subscriptions@.len(),
    {
        self.subscriptions.len()
    }

    /// Register a push subscription. If the transaction already sits at or
    /// beyond the requested commitment, the one notification owed is
    /// returned at once instead of registering anything, so a confirmation
    /// arriving between submission and subscription is never missed.
    pub fn signature_subscribe(
        &mut self,
        sender: &TxSender,
        signature: Vec<u8>,
        commitment: crate::types::CommitmentLevel,
        sink_id: u64,
    ) -> (r: Option<Notification>)
        requires
            sender.wf(),
        ensures
            r is Some <==> (sender.has_tx(signature@) && sender.tx_at(signature@).status is Some
                && status_satisfies(sender.tx_at(signature@).status.unwrap(), commitment)),
            r is Some ==> {
                &&& r.unwrap().sink_id == sink_id
                &&& r.unwrap().signature@ == signature@
                &&& r.unwrap().status == sender.tx_at(signature@).status.unwrap()
                &&& final(self).subscriptions == old(self).subscriptions
            },
            r is None ==> {
                &&& final(self).subscriptions@.len() == old(self).subscriptions@.len() + 1
                &&& forall|i: int|
                    0 <= i < old(self).subscriptions@.len()
                        ==> #[trigger] final(self).subscriptions@[i]
                            == old(self).subscriptions@[i]
                &&& final(self).subscriptions@.last().signature@ == signature@
                &&& final(self).subscriptions@.last().commitment == commitment
                &&& final(self).subscriptions@.last().sink_id == sink_id
            },
    {
        let mut immediate: Option<ConfirmationStatus> = None;
        match sender.get_status(&signature) {
            Some(Some(st)) => {
                if status_rank_exec(&Some(st)) >= required_rank_exec(commitment) {
                    immediate = Some(st);
                }
            },
            _ => {},
        }
        match immediate {
            Some(st) => Some(Notification { sink_id, signature, status: st }),
            None => {
                self.subscriptions.push(Subscription { signature, commitment, sink_id });
                None
            },
        }
    }

    /// Remove every subscription of a disconnected sink.
    pub fn drop_subscriptions_of_sink(&mut self, sink_id: u64)
        ensures
            forall|i: int|
                0 <= i < final(self).subscriptions@.len()
                    ==> #[trigger] final(self).subscriptions@[i].sink_id != sink_id,
            forall|j: int|
                0 <= j < old(self).subscriptions@.len()
                    && #[trigger] old(self).subscriptions@[j].sink_id != sink_id
                    ==> sub_in(final(self).subscriptions@, old(self).subscriptions@[j]),
            forall|i: int|
                0 <= i < final(self).subscriptions@.len()
                    ==> sub_in(old(self).subscriptions@, #[trigger] final(self).subscriptions@[i]),
    {
        let mut kept: Vec<Subscription> = Vec::new();
        let mut t: usize = 0;
        while t < self.subscriptions.len()
            invariant
                t <= self.subscriptions@.len(),
                forall|i: int|
                    0 <= i < kept@.len() ==> #[trigger] kept@[i].sink_id != sink_id,
                forall|j: int|
                    0 <= j < t && #[trigger] self.subscriptions@[j].sink_id != sink_id
                        ==> sub_in(kept@, self.subscriptions@[j]),
                forall|i: int|
                    0 <= i < kept@.len()
                        ==> sub_in(self.subscriptions@, #[trigger] kept@[i]),
            decreases self.subscriptions@.len() - t,
        {
            let ghost pre_kept = kept@;
            let s = &self.subscriptions[t];
            if s.sink_id != sink_id {
                kept.push(
                    Subscription {
                        signature: copy_bytes(&s.signature),
                        commitment: s.commitment,
                        sink_id: s.sink_id,
                    },
                );
                proof {
                    assert(sub_like(kept@[kept@.len() - 1], self.subscriptions@[t as int]));
                }
            }
            proof {
                assert forall|j: int|
                    0 <= j < t + 1 && #[trigger] self.subscriptions@[j].sink_id != sink_id
                    implies sub_in(kept@, self.subscriptions@[j]) by {
                    if j < t {
                        let i = choose|i: int|
                            0 <= i < pre_kept.len()
                                && sub_like(pre_kept[i], self.subscriptions@[j]);
                        assert(sub_like(kept@[i], self.subscriptions@[j]));
                    } else {
                        assert(sub_like(kept@[kept@.len() - 1], self.subscriptions@[j]));
                    }
                }
            }
            t = t + 1;
        }
        self.subscriptions = kept;
    }


    /// How many subscriptions in `subs` a status observed for `sig`
    /// fulfils.
    pub open spec fn count_fired(
        subs: Seq<Subscription>,
        sig: Seq<u8>,
        st: ConfirmationStatus,
    ) -> int
        decreases subs.len(),
    {
        if subs.len() == 0 {
            0
        } else {
            Self::count_fired(subs.drop_last(), sig, st) + if sub_fires(subs.last(), sig, st) {
                1int
            } else {
                0int
            }
        }
    }

    proof fn lemma_count_bounds(subs: Seq<Subscription>, sig: Seq<u8>, st: ConfirmationStatus)
        ensures
            0 <= Self::count_fired(subs, sig, st) <= subs.len(),
        decreases subs.len(),
    {
        if subs.len() > 0 {
            Self::lemma_count_bounds(subs.drop_last(), sig, st);
        }
    }

    proof fn lemma_count_step(
        subs: Seq<Subscription>,
        t: int,
        sig: Seq<u8>,
        st: ConfirmationStatus,
    )
        requires
            0 <= t < subs.len(),
        ensures
            Self::count_fired(subs.take(t + 1), sig, st) == Self::count_fired(
                subs.take(t),
                sig,
                st,
            ) + if sub_fires(subs[t], sig, st) {
                1int
            } else {
                0int
            },
    {
        assert(subs.take(t + 1).drop_last() =~= subs.take(t));
        assert(subs.take(t + 1).last() == subs[t]);
    }

    /// The notifications owed when `signature`'s transaction reaches `st`:
    /// one per fulfilled subscription, each carrying the sink, the signature
    /// and the status reached.
    #[verifier::rlimit(60)]
    fn collect_notes(&self, signature: &Vec<u8>, st: ConfirmationStatus) -> (notes: Vec<
        Notification,
    >)
        ensures
            notes@.len() == Self::count_fired(self.subscriptions@, signature@, st),
            forall|k: int|
                0 <= k < notes@.len() ==> {
                    &&& (#[trigger] notes@[k]).status == st
                    &&& notes@[k].signature@ == signature@
                },
            forall|j: int|
                0 <= j < self.subscriptions@.len()
                    && sub_fires(#[trigger] self.subscriptions@[j], signature@, st)
                    ==> exists|k: int|
                    0 <= k < notes@.len()
                        && (#[trigger] notes@[k]).sink_id == self.subscriptions@[j].sink_id,
    {
        let mut notes: Vec<Notification> = Vec::new();
        let mut t: usize = 0;
        while t < self.subscriptions.len()
            invariant
                t <= self.subscriptions@.len(),
                notes@.len() == Self::count_fired(
                    self.subscriptions@.take(t as int),
                    signature@,
                    st,
                ),
                forall|k: int|
                    0 <= k < notes@.len() ==> {
                        &&& (#[trigger] notes@[k]).status == st
                        &&& notes@[k].signature@ == signature@
                    },
                forall|j: int|
                    0 <= j < t && sub_fires(#[trigger] self.subscriptions@[j], signature@, st)
                        ==> exists|k: int|
                        0 <= k < notes@.len()
                            && (#[trigger] notes@[k]).sink_id == self.subscriptions@[j].sink_id,
            decreases self.subscriptions@.len() - t,
        {
            let ghost pre_notes = notes@;
            let s = &self.subscriptions[t];
            let fires = bytes_eq(&s.signature, signature)
                && status_rank_exec(&Some(st)) >= required_rank_exec(s.commitment);
            proof {
                reveal(sub_fires);
                assert(fires == sub_fires(self.subscriptions@[t as int], signature@, st));
                Self::lemma_count_step(self.subscriptions@, t as int, signature@, st);
            }
            if fires {
                notes.push(
                    Notification {
                        sink_id: s.sink_id,
                        signature: copy_bytes(signature),
                        status: st,
                    },
                );
            }
            proof {
                assert forall|j: int|
                    0 <= j < t + 1
                        && sub_fires(#[trigger] self.subscriptions@[j], signature@, st)
                    implies exists|k: int|
                        0 <= k < notes@.len()
                            && (#[trigger] notes@[k]).sink_id == self.subscriptions@[j].sink_id
                    by {
                    if j < t {
                        let k = choose|k: int|
                            0 <= k < pre_notes.len()
                                && (#[trigger] pre_notes[k]).sink_id
                                    == self.subscriptions@[j].sink_id;
                        assert(notes@[k].sink_id == self.subscriptions@[j].sink_id);
                    } else {
                        assert(notes@[notes@.len() - 1].sink_id
                            == self.subscriptions@[j].sink_id);
                    }
                }
            }
            t = t + 1;
        }
        proof {
            assert(self.subscriptions@.take(self.subscriptions@.len() as int)
                =~= self.subscriptions@);
        }
        notes
    }

    /// Drop every subscription that the status `st`, just reached by
    /// `signature`'s transaction, fulfils; everything else stays.
    #[verifier::rlimit(60)]
    fn retain_unfired(&mut self, signature: &Vec<u8>, st: ConfirmationStatus)
        ensures
            final(self).subscriptions@.len() == old(self).subscriptions@.len()
                - Self::count_fired(old(self).subscriptions@, signature@, st),
            forall|i: int|
                0 <= i < final(self).subscriptions@.len()
                    ==> !sub_fires(#[trigger] final(self).subscriptions@[i], signature@, st),
            forall|j: int|
                0 <= j < old(self).subscriptions@.len()
                    && !sub_fires(#[trigger] old(self).subscriptions@[j], signature@, st)
                    ==> sub_in(final(self).subscriptions@, old(self).subscriptions@[j]),
            forall|i: int|
                0 <= i < final(self).subscriptions@.len()
                    ==> sub_in(old(self).subscriptions@, #[trigger] final(self).subscriptions@[i]),
    {
        let mut kept: Vec<Subscription> = Vec::new();
        let mut t: usize = 0;
        while t < self.subscriptions.len()
            invariant
                t <= self.subscriptions@.len(),
                kept@.len() == t - Self::count_fired(
                    self.subscriptions@.take(t as int),
                    signature@,
                    st,
                ),
                forall|i: int|
                    0 <= i < kept@.len()
                        ==> !sub_fires(#[trigger] kept@[i], signature@, st),
                forall|j: int|
                    0 <= j < t
                        && !sub_fires(#[trigger] self.subscriptions@[j], signature@, st)
                        ==> sub_in(kept@, self.subscriptions@[j]),
                forall|i: int|
                    0 <= i < kept@.len()
                        ==> sub_in(self.subscriptions@, #[trigger] kept@[i]),
            decreases self.subscriptions@.len() - t,
        {
            let ghost pre_kept = kept@;
            let s = &self.subscriptions[t];
            let fires = bytes_eq(&s.signature, signature)
                && status_rank_exec(&Some(st)) >= required_rank_exec(s.commitment);
            proof {
                reveal(sub_fires);
                assert(fires == sub_fires(self.subscriptions@[t as int], signature@, st));
                Self::lemma_count_step(self.subscriptions@, t as int, signature@, st);
                Self::lemma_count_bounds(self.subscriptions@.take(t as int), signature@, st);
            }
            if !fires {
                kept.push(
                    Subscription {
                        signature: copy_bytes(&s.signature),
                        commitment: s.commitment,
                        sink_id: s.sink_id,
                    },
                );
                proof {
                    assert(sub_like(kept@[kept@.len() - 1], self.subscriptions@[t as int]));
                    assert(!sub_fires(kept@[kept@.len() - 1], signature@, st));
                }
            }
            proof {
                assert forall|j: int|
                    0 <= j < t + 1
                        && !sub_fires(#[trigger] self.subscriptions@[j], signature@, st)
                    implies sub_in(kept@, self.subscriptions@[j]) by {
                    if j < t {
                        let i = choose|i: int|
                            0 <= i < pre_kept.len()
                                && sub_like(pre_kept[i], self.subscriptions@[j]);
                        assert(sub_like(kept@[i], self.subscriptions@[j]));
                    } else {
                        assert(sub_like(kept@[kept@.len() - 1], self.subscriptions@[j]));
                    }
                }
            }
            t = t + 1;
        }
        proof {
            assert(self.subscriptions@.take(self.subscriptions@.len() as int)
                =~= self.subscriptions@);
        }
        self.subscriptions = kept;
    }

    /// Fulfil and remove every subscription that the status `st`, just
    /// reached by `signature`'s transaction, satisfies: each such sink is
    /// owed exactly one terminal notification, returned here; every other
    /// subscription stays.
    fn sweep(&mut self, signature: &Vec<u8>, st: ConfirmationStatus) -> (notes: Vec<Notification>)
        ensures
            forall|i: int|
                0 <= i < final(self).subscriptions@.len()
                    ==> !sub_fires(#[trigger] final(self).subscriptions@[i], signature@, st),
            forall|j: int|
                0 <= j < old(self).subscriptions@.len()
                    && !sub_fires(#[trigger] old(self).subscriptions@[j], signature@, st)
                    ==> sub_in(final(self).subscriptions@, old(self).subscriptions@[j]),
            forall|i: int|
                0 <= i < final(self).subscriptions@.len()
                    ==> sub_in(old(self).subscriptions@, #[trigger] final(self).subscriptions@[i]),
            final(self).subscriptions@.len() + notes@.len() == old(self).subscriptions@.len(),
            forall|k: int|
                0 <= k < notes@.len() ==> {
                    &&& (#[trigger] notes@[k]).status == st
                    &&& notes@[k].signature@ == signature@
                },
            forall|j: int|
                0 <= j < old(self).subscriptions@.len()
                    && sub_fires(#[trigger] old(self).subscriptions@[j], signature@, st)
                    ==> exists|k: int|
                    0 <= k < notes@.len()
                        && (#[trigger] notes@[k]).sink_id == old(self).subscriptions@[j].sink_id,
    {
        proof {
            Self::lemma_count_bounds(self.subscriptions@, signature@, st);
        }
        let notes = self.collect_notes(signature, st);
        self.retain_unfired(signature, st);
        notes
    }

    /// Feed one observed `(signature, status)` pair from a cluster poll into
    /// the bridge. If the signature is tracked, its entry moves to the more
    /// final of its current and the observed status; on a genuine transition
    /// the subscriptions it now satisfies are fulfilled and removed, each
    /// yielding one notification for the caller to deliver. Signatures that
    /// are not tracked are ignored.
    pub fn process_status_update(
        &mut self,
        sender: &mut TxSender,
        signature: &Vec<u8>,
        observed: ConfirmationStatus,
    ) -> (notes: Vec<Notification>)
        requires
            old(sender).wf(),
        ensures
            final(sender).wf(),
            final(sender).queue == old(sender).queue,
            // Unknown signatures change nothing.
            !old(sender).has_tx(signature@) ==> {
                &&& final(sender).txs_sent == old(sender).txs_sent
                &&& final(self).subscriptions == old(self).subscriptions
                &&& notes@.len() == 0
            },
            // Tracked ones move to the more final status, in place.
            old(sender).has_tx(signature@) ==> {
                let i = old(sender).idx_of(signature@);
                final(sender).txs_sent@ == old(sender).txs_sent@.update(
                    i,
                    (crate::types::TrackedTransaction {
                        status: crate::types::upgrade_status(
                            old(sender).txs_sent@[i].status,
                            observed,
                        ),
                        ..old(sender).txs_sent@[i]
                    }),
                )
            },
            // The non-regression rule.
            old(sender).has_tx(signature@)
                ==> status_rank(final(sender).tx_at(signature@).status)
                    >= status_rank(old(sender).tx_at(signature@).status),
            // Without a genuine transition no subscription moves.
            !(old(sender).has_tx(signature@) && status_rank(Some(observed)) > status_rank(
                old(sender).tx_at(signature@).status,
            )) ==> {
                &&& final(self).subscriptions == old(self).subscriptions
                &&& notes@.len() == 0
            },
            // On a transition, exactly the now-satisfied subscriptions are
            // fulfilled and removed, one notification each.
            (old(sender).has_tx(signature@) && status_rank(Some(observed)) > status_rank(
                old(sender).tx_at(signature@).status,
            )) ==> {
                &&& forall|i: int|
                    0 <= i < final(self).subscriptions@.len()
                        ==> !sub_fires(
                        #[trigger] final(self).subscriptions@[i],
                        signature@,
                        observed,
                    )
                &&& forall|j: int|
                    0 <= j < old(self).subscriptions@.len()
                        && !sub_fires(#[trigger] old(self).subscriptions@[j], signature@, observed)
                        ==> sub_in(final(self).subscriptions@, old(self).subscriptions@[j])
                &&& forall|i: int|
                    0 <= i < final(self).subscriptions@.len()
                        ==> sub_in(
                        old(self).subscriptions@,
                        #[trigger] final(self).subscriptions@[i],
                    )
                &&& final(self).subscriptions@.len() + notes@.len()
                    == old(self).subscriptions@.len()
                &&& forall|k: int|
                    0 <= k < notes@.len() ==> {
                        &&& (#[trigger] notes@[k]).status == observed
                        &&& notes@[k].signature@ == signature@
                    }
                &&& forall|j: int|
                    0 <= j < old(self).subscriptions@.len()
                        && sub_fires(#[trigger] old(self).subscriptions@[j], signature@, observed)
                        ==> exists|k: int|
                        0 <= k < notes@.len()
                            && (#[trigger] notes@[k]).sink_id
                                == old(self).subscriptions@[j].sink_id
                },
    {
        let prior = sender.get_status(signature);
        match prior {
            None => Vec::new(),
            Some(cur) => {
                let obs_rank = status_rank_exec(&Some(observed));
                let cur_rank = status_rank_exec(&cur);
                let _ = sender.apply_status(signature, observed);
                if obs_rank > cur_rank {
                    self.sweep(signature, observed)
                } else {
                    Vec::new()
                }
            },
        }
    }
}

} // verus!
