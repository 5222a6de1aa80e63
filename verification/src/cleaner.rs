//! The janitor: a periodic sweep over the tracked-transaction table and the
//! subscription table, the sole mechanism bounding their growth. A tracked
//! transaction is evicted once its age since the last hand-off reaches the
//! time-to-live, whatever its status — a deliberate bounded-memory policy,
//! not a delivery guarantee; eviction is silent, and a late confirmation for
//! an evicted entry is simply dropped. Subscriptions are removed on
//! fulfilment (by the listener) or here, once their parent transaction is
//! gone. The timer driving the ticks lives with the caller.

use vstd::prelude::*;

use crate::block_listener::{sub_in, sub_like, BlockListener};
use crate::tx_sender::TxSender;
use crate::types::{copy_bytes, TrackedTransaction};

verus! {

/// Whether the entry's age at time `now` has reached the time-to-live.
pub open spec fn expired(e: TrackedTransaction, now: u64, ttl: u64) -> bool {
    e.last_sent_at + ttl <= now
}

/// Field-wise sameness of two tracked entries, comparing byte fields by
/// contents.
pub open spec fn tx_like(a: TrackedTransaction, b: TrackedTransaction) -> bool {
    &&& a.signature@ == b.signature@
    &&& a.raw_bytes@ == b.raw_bytes@
    &&& a.submitted_slot == b.submitted_slot
    &&& a.status == b.status
    &&& a.last_sent_at == b.last_sent_at
    &&& a.retry_count == b.retry_count
}

/// Whether an entry like `e` occurs in `txs`.
pub open spec fn tx_in(txs: Seq<TrackedTransaction>, e: TrackedTransaction) -> bool {
    exists|i: int| 0 <= i < txs.len() && tx_like(txs[i], e)
}

/// Evict every tracked transaction whose age has reached the time-to-live,
/// regardless of its status; everything younger stays untouched.
#[verifier::rlimit(60)]
fn clean_txs(sender: &mut TxSender, now: u64, ttl: u64)
    requires
        old(sender).wf(),
    ensures
        final(sender).wf(),
        final(sender).queue == old(sender).queue,
        forall|i: int|
            0 <= i < final(sender).txs_sent@.len()
                ==> !expired(#[trigger] final(sender).txs_sent@[i], now, ttl),
        forall|i: int|
            0 <= i < final(sender).txs_sent@.len()
                ==> tx_in(old(sender).txs_sent@, #[trigger] final(sender).txs_sent@[i]),
        forall|j: int|
            0 <= j < old(sender).txs_sent@.len()
                && !expired(#[trigger] old(sender).txs_sent@[j], now, ttl)
                ==> tx_in(final(sender).txs_sent@, old(sender).txs_sent@[j]),
        forall|j: int|
            0 <= j < old(sender).txs_sent@.len()
                && expired(#[trigger] old(sender).txs_sent@[j], now, ttl)
                ==> !final(sender).has_tx(old(sender).txs_sent@[j].signature@),
{
    let mut kept: Vec<TrackedTransaction> = Vec::new();
    let mut t: usize = 0;
    while t < sender.txs_sent.len()
        invariant
            sender.wf(),
            t <= sender.txs_sent@.len(),
            forall|i: int|
                0 <= i < kept@.len() ==> !expired(#[trigger] kept@[i], now, ttl),
            forall|i: int|
                0 <= i < kept@.len()
                    ==> exists|j: int|
                    0 <= j < t && tx_like(#[trigger] kept@[i], sender.txs_sent@[j]),
            forall|j: int|
                0 <= j < t && !expired(#[trigger] sender.txs_sent@[j], now, ttl)
                    ==> tx_in(kept@, sender.txs_sent@[j]),
            TxSender::sigs_unique(kept@),
        decreases sender.txs_sent@.len() - t,
    {
        let ghost pre_kept = kept@;
        let e = &sender.txs_sent[t];
        let is_old = e.last_sent_at <= now && now - e.last_sent_at >= ttl;
        if !is_old {
            kept.push(
                TrackedTransaction {
                    signature: copy_bytes(&e.signature),
                    raw_bytes: copy_bytes(&e.raw_bytes),
                    submitted_slot: e.submitted_slot,
                    status: e.status,
                    last_sent_at: e.last_sent_at,
                    retry_count: e.retry_count,
                },
            );
            proof {
                assert(tx_like(kept@[kept@.len() - 1], sender.txs_sent@[t as int]));
                // The new entry's signature differs from every earlier kept
                // one, because those come from earlier table positions.
                assert forall|i: int| 0 <= i < kept@.len() - 1 implies
                    (#[trigger] kept@[i]).signature@ != kept@[kept@.len() - 1].signature@ by {
                    let j = choose|j: int|
                        0 <= j < t && tx_like(#[trigger] kept@[i], sender.txs_sent@[j]);
                    assert(sender.txs_sent@[j].signature@ != sender.txs_sent@[t as int].signature@);
                }
            }
        }
        proof {
            assert forall|j: int|
                0 <= j < t + 1 && !expired(#[trigger] sender.txs_sent@[j], now, ttl)
                implies tx_in(kept@, sender.txs_sent@[j]) by {
                if j < t {
                    let i = choose|i: int|
                        0 <= i < pre_kept.len() && tx_like(pre_kept[i], sender.txs_sent@[j]);
                    assert(tx_like(kept@[i], sender.txs_sent@[j]));
                } else {
                    assert(tx_like(kept@[kept@.len() - 1], sender.txs_sent@[j]));
                }
            }
        }
        t = t + 1;
    }
    let ghost n0 = sender.txs_sent@;
    sender.txs_sent = kept;
    proof {
        // An expired signature cannot survive: a surviving entry with that
        // signature would mirror its unique, expired source.
        assert forall|j: int|
            0 <= j < n0.len() && expired(#[trigger] n0[j], now, ttl)
            implies !final(sender).has_tx(n0[j].signature@) by {
            if final(sender).has_tx(n0[j].signature@) {
                let i = choose|i: int|
                    0 <= i < final(sender).txs_sent@.len()
                        && final(sender).txs_sent@[i].signature@ == n0[j].signature@;
                let j2 = choose|j2: int|
                    0 <= j2 < n0.len() && tx_like(
                        #[trigger] final(sender).txs_sent@[i],
                        n0[j2],
                    );
                assert(n0[j2].signature@ == n0[j].signature@);
                if j2 < j {
                    assert(n0[j2].signature@ != n0[j].signature@);
                } else if j < j2 {
                    assert(n0[j].signature@ != n0[j2].signature@);
                }
                assert(expired(final(sender).txs_sent@[i], now, ttl));
            }
        }
    }
}

/// Drop every subscription whose parent transaction is no longer tracked;
/// subscriptions whose transaction is still live stay.
fn clean_subscriptions(listener: &mut BlockListener, sender: &TxSender)
    requires
        sender.wf(),
    ensures
        forall|i: int|
            0 <= i < final(listener).subscriptions@.len() ==> sender.has_tx(
                (#[trigger] final(listener).subscriptions@[i]).signature@,
            ),
        forall|i: int|
            0 <= i < final(listener).subscriptions@.len()
                ==> sub_in(
                old(listener).subscriptions@,
                #[trigger] final(listener).subscriptions@[i],
            ),
        forall|j: int|
            0 <= j < old(listener).subscriptions@.len()
                && sender.has_tx((#[trigger] old(listener).subscriptions@[j]).signature@)
                ==> sub_in(final(listener).subscriptions@, old(listener).subscriptions@[j]),
{
    let mut kept: Vec<crate::types::Subscription> = Vec::new();
    let mut t: usize = 0;
    while t < listener.subscriptions.len()
        invariant
            sender.wf(),
            t <= listener.subscriptions@.len(),
            forall|i: int|
                0 <= i < kept@.len()
                    ==> sender.has_tx((#[trigger] kept@[i]).signature@),
            forall|i: int|
                0 <= i < kept@.len()
                    ==> sub_in(listener.subscriptions@, #[trigger] kept@[i]),
            forall|j: int|
                0 <= j < t && sender.has_tx(
                    (#[trigger] listener.subscriptions@[j]).signature@,
                ) ==> sub_in(kept@, listener.subscriptions@[j]),
        decreases listener.subscriptions@.len() - t,
    {
        let ghost pre_kept = kept@;
        let s = &listener.subscriptions[t];
        let live = sender.get_status(&s.signature).is_some();
        if live {
            kept.push(
                crate::types::Subscription {
                    signature: copy_bytes(&s.signature),
                    commitment: s.commitment,
                    sink_id: s.sink_id,
                },
            );
            proof {
                assert(sub_like(kept@[kept@.len() - 1], listener.subscriptions@[t as int]));
            }
        }
        proof {
            assert forall|j: int|
                0 <= j < t + 1 && sender.has_tx(
                    (#[trigger] listener.subscriptions@[j]).signature@,
                ) implies sub_in(kept@, listener.subscriptions@[j]) by {
                if j < t {
                    let i = choose|i: int|
                        0 <= i < pre_kept.len() && sub_like(
                            pre_kept[i],
                            listener.subscriptions@[j],
                        );
                    assert(sub_like(kept@[i], listener.subscriptions@[j]));
                } else {
                    assert(sub_like(kept@[kept@.len() - 1], listener.subscriptions@[j]));
                }
            }
        }
        t = t + 1;
    }
    listener.subscriptions = kept;
}

/// One tick of the janitor: evict tracked transactions whose age since the
/// last hand-off has reached `ttl`, then drop subscriptions orphaned by that
/// eviction. Both tables are touched nowhere else by the tick.
pub fn clean_tick(sender: &mut TxSender, listener: &mut BlockListener, now: u64, ttl: u64)
    requires
        old(sender).wf(),
    ensures
        final(sender).wf(),
        final(sender).queue == old(sender).queue,
        // Transactions: nothing aged remains, nothing young is lost, nothing
        // is invented.
        forall|i: int|
            0 <= i < final(sender).txs_sent@.len()
                ==> !expired(#[trigger] final(sender).txs_sent@[i], now, ttl),
        forall|i: int|
            0 <= i < final(sender).txs_sent@.len()
                ==> tx_in(old(sender).txs_sent@, #[trigger] final(sender).txs_sent@[i]),
        forall|j: int|
            0 <= j < old(sender).txs_sent@.len()
                && !expired(#[trigger] old(sender).txs_sent@[j], now, ttl)
                ==> tx_in(final(sender).txs_sent@, old(sender).txs_sent@[j]),
        forall|j: int|
            0 <= j < old(sender).txs_sent@.len()
                && expired(#[trigger] old(sender).txs_sent@[j], now, ttl)
                ==> !final(sender).has_tx(old(sender).txs_sent@[j].signature@),
        // Subscriptions: exactly those whose transaction is still tracked
        // stay.
        forall|i: int|
            0 <= i < final(listener).subscriptions@.len() ==> final(sender).has_tx(
                (#[trigger] final(listener).subscriptions@[i]).signature@,
            ),
        forall|i: int|
            0 <= i < final(listener).subscriptions@.len()
                ==> sub_in(
                old(listener).subscriptions@,
                #[trigger] final(listener).subscriptions@[i],
            ),
        forall|j: int|
            0 <= j < old(listener).subscriptions@.len()
                && final(sender).has_tx((#[trigger] old(listener).subscriptions@[j]).signature@)
                ==> sub_in(final(listener).subscriptions@, old(listener).subscriptions@[j]),
{
    clean_txs(sender, now, ttl);
    clean_subscriptions(listener, sender);
}

} // verus!
