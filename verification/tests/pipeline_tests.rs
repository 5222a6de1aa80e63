use lite_bridge::block_listener::BlockListener;
use lite_bridge::block_store::BlockStore;
use lite_bridge::bridge::{service_step, ServiceEvent, ServicePhase};
use lite_bridge::cleaner::clean_tick;
use lite_bridge::tx_sender::TxSender;
use lite_bridge::types::{BlockInfo, CommitmentLevel, ConfirmationStatus};

fn sig(n: u8) -> Vec<u8> {
    vec![n; 64]
}

/// Enqueue `n` distinct transactions.
fn fill(sender: &mut TxSender, n: u8) {
    let mut i: u8 = 0;
    while i < n {
        sender.enqueue(sig(i), vec![i, i, i], 100);
        i = i.wrapping_add(1);
    }
}

#[test]
fn two_hundred_enqueued_make_batches_of_128_and_72() {
    // Scenario: 200 enqueued transactions with batch size 128 produce
    // exactly two router hand-offs, one of 128 items and one of 72.
    let mut sender = TxSender::new();
    fill(&mut sender, 200);
    assert_eq!(sender.in_flight(), 200);

    let first = sender.drain_batch(128);
    assert_eq!(first.len(), 128);
    assert_eq!(first[0].signature, sig(0));
    assert_eq!(first[127].signature, sig(127));
    sender.record_batch_sent(&first, 0);

    let second = sender.drain_batch(128);
    assert_eq!(second.len(), 72);
    assert_eq!(second[0].signature, sig(128));
    sender.record_batch_sent(&second, 0);

    let third = sender.drain_batch(128);
    assert_eq!(third.len(), 0);
    assert_eq!(sender.in_flight(), 0);
    assert_eq!(sender.tracked_count(), 200);
}

#[test]
fn entry_expires_after_ttl_tick() {
    // Scenario: a transaction handed off at time T with a 12 s time-to-live
    // is still answered at T+11 s and is gone after a janitor tick at
    // T+12 s.
    let t0: u64 = 1_000_000;
    let ttl: u64 = 12_000;
    let mut sender = TxSender::new();
    let mut listener = BlockListener::new();
    sender.enqueue(sig(1), vec![1], 100);
    let batch = sender.drain_batch(128);
    sender.record_batch_sent(&batch, t0);

    clean_tick(&mut sender, &mut listener, t0 + 11_000, ttl);
    assert_eq!(sender.get_status(&sig(1)), Some(None));

    clean_tick(&mut sender, &mut listener, t0 + 12_000, ttl);
    assert_eq!(sender.get_status(&sig(1)), None);
    assert_eq!(sender.tracked_count(), 0);
}

#[test]
fn eviction_ignores_status() {
    // Even a finalized transaction is evicted once its age reaches the
    // time-to-live: a bounded-memory policy, not an accounting guarantee.
    let mut sender = TxSender::new();
    let mut listener = BlockListener::new();
    sender.enqueue(sig(1), vec![1], 100);
    let batch = sender.drain_batch(128);
    sender.record_batch_sent(&batch, 0);
    let _ = listener.process_status_update(&mut sender, &sig(1), ConfirmationStatus::Finalized);

    clean_tick(&mut sender, &mut listener, 12_000, 12_000);
    assert_eq!(sender.get_status(&sig(1)), None);
}

#[test]
fn status_never_regresses() {
    // Finalized is never followed by Confirmed.
    let mut sender = TxSender::new();
    let mut listener = BlockListener::new();
    sender.enqueue(sig(1), vec![1], 100);
    let batch = sender.drain_batch(128);
    sender.record_batch_sent(&batch, 0);

    let _ = listener.process_status_update(&mut sender, &sig(1), ConfirmationStatus::Finalized);
    assert_eq!(sender.get_status(&sig(1)), Some(Some(ConfirmationStatus::Finalized)));

    let _ = listener.process_status_update(&mut sender, &sig(1), ConfirmationStatus::Confirmed);
    assert_eq!(sender.get_status(&sig(1)), Some(Some(ConfirmationStatus::Finalized)));

    let _ = listener.process_status_update(&mut sender, &sig(1), ConfirmationStatus::Processed);
    assert_eq!(sender.get_status(&sig(1)), Some(Some(ConfirmationStatus::Finalized)));
}

#[test]
fn statuses_climb_forward() {
    let mut sender = TxSender::new();
    let mut listener = BlockListener::new();
    sender.enqueue(sig(1), vec![1], 100);
    let batch = sender.drain_batch(128);
    sender.record_batch_sent(&batch, 0);

    let _ = listener.process_status_update(&mut sender, &sig(1), ConfirmationStatus::Processed);
    assert_eq!(sender.get_status(&sig(1)), Some(Some(ConfirmationStatus::Processed)));
    let _ = listener.process_status_update(&mut sender, &sig(1), ConfirmationStatus::Confirmed);
    assert_eq!(sender.get_status(&sig(1)), Some(Some(ConfirmationStatus::Confirmed)));
}

#[test]
fn refresh_keeps_observed_status() {
    // A re-send of a still-live transaction refreshes its timestamp but
    // never resets what was already observed.
    let mut sender = TxSender::new();
    let mut listener = BlockListener::new();
    sender.enqueue(sig(1), vec![1], 100);
    let batch = sender.drain_batch(128);
    sender.record_batch_sent(&batch, 0);
    let _ = listener.process_status_update(&mut sender, &sig(1), ConfirmationStatus::Confirmed);

    sender.enqueue(sig(1), vec![1], 100);
    let batch = sender.drain_batch(128);
    sender.record_batch_sent(&batch, 5_000);
    assert_eq!(sender.tracked_count(), 1);
    assert_eq!(sender.get_status(&sig(1)), Some(Some(ConfirmationStatus::Confirmed)));
    assert_eq!(sender.txs_sent[0].last_sent_at, 5_000);
}

#[test]
fn send_failure_bumps_retry_count_only() {
    let mut sender = TxSender::new();
    sender.enqueue(sig(1), vec![1], 100);
    let batch = sender.drain_batch(128);
    sender.record_batch_sent(&batch, 0);
    assert_eq!(sender.txs_sent[0].retry_count, 0);

    sender.record_send_failure(&batch);
    assert_eq!(sender.txs_sent[0].retry_count, 1);
    assert_eq!(sender.tracked_count(), 1);
    assert_eq!(sender.get_status(&sig(1)), Some(None));
}

#[test]
fn late_subscription_is_fulfilled_immediately() {
    // A subscription registered after its transaction already reached the
    // requested commitment is answered at once, registering nothing.
    let mut sender = TxSender::new();
    let mut listener = BlockListener::new();
    sender.enqueue(sig(1), vec![1], 100);
    let batch = sender.drain_batch(128);
    sender.record_batch_sent(&batch, 0);
    let _ = listener.process_status_update(&mut sender, &sig(1), ConfirmationStatus::Confirmed);

    let note = listener.signature_subscribe(&sender, sig(1), CommitmentLevel::Confirmed, 77);
    let note = note.expect("already-confirmed subscription must answer at once");
    assert_eq!(note.sink_id, 77);
    assert_eq!(note.signature, sig(1));
    assert_eq!(note.status, ConfirmationStatus::Confirmed);
    assert_eq!(listener.subscription_count(), 0);

    // Asking for more finality than reached registers normally.
    let pending = listener.signature_subscribe(&sender, sig(1), CommitmentLevel::Finalized, 78);
    assert!(pending.is_none());
    assert_eq!(listener.subscription_count(), 1);
}

#[test]
fn subscription_fires_once_on_transition() {
    let mut sender = TxSender::new();
    let mut listener = BlockListener::new();
    sender.enqueue(sig(1), vec![1], 100);
    let batch = sender.drain_batch(128);
    sender.record_batch_sent(&batch, 0);

    let pending = listener.signature_subscribe(&sender, sig(1), CommitmentLevel::Confirmed, 9);
    assert!(pending.is_none());

    let notes =
        listener.process_status_update(&mut sender, &sig(1), ConfirmationStatus::Confirmed);
    assert_eq!(notes.len(), 1);
    assert_eq!(notes[0].sink_id, 9);
    assert_eq!(notes[0].status, ConfirmationStatus::Confirmed);
    assert_eq!(listener.subscription_count(), 0);

    // The next transition finds no subscription left.
    let notes =
        listener.process_status_update(&mut sender, &sig(1), ConfirmationStatus::Finalized);
    assert_eq!(notes.len(), 0);
}

#[test]
fn update_for_untracked_signature_changes_nothing() {
    let mut sender = TxSender::new();
    let mut listener = BlockListener::new();
    let notes =
        listener.process_status_update(&mut sender, &sig(1), ConfirmationStatus::Confirmed);
    assert_eq!(notes.len(), 0);
    assert_eq!(sender.tracked_count(), 0);
}

#[test]
fn dropped_status_never_fulfils_a_subscription() {
    let mut sender = TxSender::new();
    let mut listener = BlockListener::new();
    sender.enqueue(sig(1), vec![1], 100);
    let batch = sender.drain_batch(128);
    sender.record_batch_sent(&batch, 0);
    let _ = listener.signature_subscribe(&sender, sig(1), CommitmentLevel::Processed, 5);

    let notes = listener.process_status_update(&mut sender, &sig(1), ConfirmationStatus::Dropped);
    assert_eq!(notes.len(), 0);
    assert_eq!(listener.subscription_count(), 1);
    assert_eq!(sender.get_status(&sig(1)), Some(Some(ConfirmationStatus::Dropped)));
}

#[test]
fn sink_disconnect_drops_its_subscriptions() {
    let mut sender = TxSender::new();
    let mut listener = BlockListener::new();
    let _ = listener.signature_subscribe(&sender, sig(1), CommitmentLevel::Confirmed, 1);
    let _ = listener.signature_subscribe(&sender, sig(2), CommitmentLevel::Finalized, 2);
    assert_eq!(listener.subscription_count(), 2);

    listener.drop_subscriptions_of_sink(1);
    assert_eq!(listener.subscription_count(), 1);
    assert_eq!(listener.subscriptions[0].sink_id, 2);
}

#[test]
fn cleaner_drops_orphaned_subscriptions() {
    let mut sender = TxSender::new();
    let mut listener = BlockListener::new();
    sender.enqueue(sig(1), vec![1], 100);
    let batch = sender.drain_batch(128);
    sender.record_batch_sent(&batch, 0);
    let _ = listener.signature_subscribe(&sender, sig(1), CommitmentLevel::Finalized, 3);
    assert_eq!(listener.subscription_count(), 1);

    // Once the transaction ages out, its subscription goes with it.
    clean_tick(&mut sender, &mut listener, 20_000, 12_000);
    assert_eq!(sender.tracked_count(), 0);
    assert_eq!(listener.subscription_count(), 0);
}

fn block(slot: u64, block_height: u64, hash: [u8; 32]) -> BlockInfo {
    BlockInfo { slot, block_height, blockhash: hash.to_vec() }
}

#[test]
fn block_store_latest_heights_never_regress() {
    let mut store = BlockStore::new(4, block(100, 50, [1u8; 32]), block(90, 40, [2u8; 32]));

    // An older confirmed block does not move the latest pointer back.
    store.record_block(CommitmentLevel::Confirmed, block(95, 45, [3u8; 32]));
    assert_eq!(store.get_latest_block_info(CommitmentLevel::Confirmed).block_height, 50);

    // A newer one advances it.
    store.record_block(CommitmentLevel::Confirmed, block(110, 55, [4u8; 32]));
    assert_eq!(store.get_latest_block_info(CommitmentLevel::Confirmed).block_height, 55);
    assert_eq!(store.get_latest_block_info(CommitmentLevel::Finalized).block_height, 40);

    // A newer finalized block advances the finalized pointer.
    store.record_block(CommitmentLevel::Finalized, block(105, 52, [5u8; 32]));
    assert_eq!(store.get_latest_block_info(CommitmentLevel::Finalized).block_height, 52);
}

#[test]
fn block_store_window_evicts_oldest() {
    let mut store = BlockStore::new(2, block(100, 50, [1u8; 32]), block(90, 40, [2u8; 32]));
    assert!(store.get_block_info(&vec![2u8; 32]).is_some());

    // The window holds two entries; a third evicts the oldest.
    store.record_block(CommitmentLevel::Confirmed, block(101, 51, [3u8; 32]));
    assert!(store.get_block_info(&vec![2u8; 32]).is_none());
    assert!(store.get_block_info(&vec![1u8; 32]).is_some());
    let info = store.get_block_info(&vec![3u8; 32]).unwrap();
    assert_eq!(info.slot, 101);
    assert!(store.get_block_info(&vec![42u8; 32]).is_none());
}

#[test]
fn processed_requests_answered_from_confirmed_feed() {
    let store = BlockStore::new(4, block(100, 50, [1u8; 32]), block(90, 40, [2u8; 32]));
    let (hash, info) = store.get_latest_block(CommitmentLevel::Processed);
    assert_eq!(hash, vec![1u8; 32]);
    assert_eq!(info.slot, 100);
}

#[test]
fn service_lifecycle_transitions() {
    let p = ServicePhase::Constructed;
    let p = service_step(p, ServiceEvent::Start);
    assert_eq!(p, ServicePhase::Running);

    // A worker death crashes the running service.
    assert_eq!(service_step(p, ServiceEvent::TaskTerminated), ServicePhase::Crashed);
    // A shutdown signal that wins the race stops it cleanly.
    assert_eq!(service_step(p, ServiceEvent::ShutdownSignal), ServicePhase::Stopped);
    // Terminal phases absorb everything.
    assert_eq!(service_step(ServicePhase::Stopped, ServiceEvent::TaskTerminated), ServicePhase::Stopped);
    assert_eq!(service_step(ServicePhase::Crashed, ServiceEvent::ShutdownSignal), ServicePhase::Crashed);
    // Events other than start leave a constructed service alone.
    assert_eq!(
        service_step(ServicePhase::Constructed, ServiceEvent::ShutdownSignal),
        ServicePhase::Constructed
    );
}
