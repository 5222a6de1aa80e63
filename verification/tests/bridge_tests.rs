use lite_bridge::block_store::BlockStore;
use lite_bridge::bridge::LiteBridge;
use lite_bridge::codec::parse_base58_32;
use lite_bridge::types::{BlockInfo, BridgeError, CommitmentLevel, ConfirmationStatus};

fn block(slot: u64, block_height: u64, hash: [u8; 32]) -> BlockInfo {
    BlockInfo { slot, block_height, blockhash: hash.to_vec() }
}

/// A store seeded with a confirmed block at slot 100 (hash [7; 32]) and a
/// finalized block at slot 90 (hash [9; 32]).
fn seeded_store() -> BlockStore {
    BlockStore::new(16, block(100, 50, [7u8; 32]), block(90, 40, [9u8; 32]))
}

/// Serialize a one-signature transaction referencing `blockhash`, returning
/// its base-58 wire text, its signature bytes, and its raw bytes.
fn make_wire_tx(blockhash: [u8; 32], sig: [u8; 64]) -> (String, Vec<u8>, Vec<u8>) {
    let mut msg = solana_sdk::message::Message::default();
    msg.recent_blockhash = solana_sdk::hash::Hash::new_from_array(blockhash);
    let tx = solana_sdk::transaction::VersionedTransaction {
        signatures: vec![solana_sdk::signature::Signature::from(sig)],
        message: solana_sdk::message::VersionedMessage::Legacy(msg),
    };
    let raw = bincode::serialize(&tx).unwrap();
    let encoded = bs58::encode(raw.as_slice()).into_string();
    (encoded, sig.to_vec(), raw)
}

#[test]
fn submit_with_cached_blockhash_succeeds() {
    // Scenario: the transaction's blockhash is in the cache at slot 100; the
    // response signature equals the locally computed one; the status query
    // answers None until the listener observes a confirmation.
    let mut bridge = LiteBridge::new(seeded_store());
    let (encoded, sig_bytes, _raw) = make_wire_tx([7u8; 32], [1u8; 64]);

    let answer = bridge.send_transaction(&encoded).unwrap();
    assert_eq!(answer, bs58::encode(sig_bytes.as_slice()).into_string());
    assert_eq!(bridge.tx_sender.in_flight(), 1);

    let statuses = bridge.get_signature_statuses(&vec![answer.clone()], false);
    assert_eq!(statuses.value, vec![None]);

    // The batch loop hands the transaction to the router and records it.
    let batch = bridge.tx_sender.drain_batch(128);
    assert_eq!(batch.len(), 1);
    assert_eq!(batch[0].submitted_slot, 100);
    bridge.tx_sender.record_batch_sent(&batch, 1_000);

    // The listener observes a confirmation.
    let _ = bridge.block_listener.process_status_update(
        &mut bridge.tx_sender,
        &sig_bytes,
        ConfirmationStatus::Confirmed,
    );
    let statuses = bridge.get_signature_statuses(&vec![answer], false);
    assert_eq!(statuses.value, vec![Some(ConfirmationStatus::Confirmed)]);
    assert_eq!(statuses.context.slot, 90);
}

#[test]
fn submit_with_unknown_blockhash_rejected() {
    // Scenario: a blockhash that was never cached is rejected before ever
    // reaching the network, and the table is unchanged.
    let mut bridge = LiteBridge::new(seeded_store());
    let (encoded, _sig, _raw) = make_wire_tx([42u8; 32], [1u8; 64]);

    let before = bridge.tx_sender.tracked_count();
    let answer = bridge.send_transaction(&encoded);
    assert_eq!(answer, Err(BridgeError::UnknownBlockhashError));
    assert_eq!(bridge.tx_sender.tracked_count(), before);
    assert_eq!(bridge.tx_sender.in_flight(), 0);
}

#[test]
fn submit_non_base58_is_decode_error() {
    let mut bridge = LiteBridge::new(seeded_store());
    assert_eq!(bridge.send_transaction("!!!not-base58!!!"), Err(BridgeError::DecodeError));
}

#[test]
fn submit_undeserializable_bytes_is_decode_error() {
    let mut bridge = LiteBridge::new(seeded_store());
    let garbage = bs58::encode(&[1u8, 2, 3]).into_string();
    assert_eq!(bridge.send_transaction(&garbage), Err(BridgeError::DecodeError));
}

#[test]
fn get_latest_blockhash_reports_slot_and_validity_window() {
    let bridge = LiteBridge::new(seeded_store());
    let r = bridge.get_latest_blockhash(CommitmentLevel::Confirmed, true);
    assert_eq!(r.context.slot, 100);
    assert!(r.context.sampled);
    assert_eq!(r.value.last_valid_block_height, 50 + 150);
    assert_eq!(r.value.blockhash, bs58::encode(&[7u8; 32]).into_string());

    let r = bridge.get_latest_blockhash(CommitmentLevel::Finalized, false);
    assert_eq!(r.context.slot, 90);
    assert!(!r.context.sampled);
    assert_eq!(r.value.blockhash, bs58::encode(&[9u8; 32]).into_string());
}

#[test]
fn is_blockhash_valid_passes_upstream_verdict_through() {
    let bridge = LiteBridge::new(seeded_store());
    let hash_str = bs58::encode(&[7u8; 32]).into_string();

    let ok = bridge.is_blockhash_valid(&hash_str, Some(true), CommitmentLevel::Confirmed).unwrap();
    assert!(ok.value);
    assert_eq!(ok.slot, 100);

    let ok = bridge.is_blockhash_valid(&hash_str, Some(false), CommitmentLevel::Finalized).unwrap();
    assert!(!ok.value);
    assert_eq!(ok.slot, 90);

    assert_eq!(
        bridge.is_blockhash_valid("only-11-bytes", Some(true), CommitmentLevel::Confirmed),
        Err(BridgeError::DecodeError)
    );
    assert_eq!(
        bridge.is_blockhash_valid(&hash_str, None, CommitmentLevel::Confirmed),
        Err(BridgeError::UpstreamError)
    );
}

#[test]
fn request_airdrop_records_zero_value_entry() {
    let mut bridge = LiteBridge::new(seeded_store());
    let pubkey = bs58::encode(&[3u8; 32]).into_string();
    let sig = vec![5u8; 64];

    let answer = bridge.request_airdrop(&pubkey, Some(sig.clone()), 1_000).unwrap();
    assert_eq!(answer, bs58::encode(sig.as_slice()).into_string());
    assert_eq!(bridge.tx_sender.tracked_count(), 1);
    assert_eq!(bridge.tx_sender.get_status(&sig), Some(None));
}

#[test]
fn request_airdrop_error_cases() {
    let mut bridge = LiteBridge::new(seeded_store());
    assert_eq!(
        bridge.request_airdrop("!!!", Some(vec![5u8; 64]), 0),
        Err(BridgeError::DecodeError)
    );
    let pubkey = bs58::encode(&[3u8; 32]).into_string();
    assert_eq!(bridge.request_airdrop(&pubkey, None, 0), Err(BridgeError::UpstreamError));
    assert_eq!(bridge.tx_sender.tracked_count(), 0);
}

#[test]
fn get_version_reports_build_metadata() {
    let bridge = LiteBridge::new(seeded_store());
    let v = bridge.get_version();
    assert!(!v.solana_core.is_empty());
}

#[test]
fn parse_base58_32_decodes_and_checks_length() {
    // 32 ones decode to 32 zero bytes; a shorter text is rejected.
    let all_ones = "11111111111111111111111111111111";
    assert_eq!(parse_base58_32(all_ones), Some(vec![0u8; 32]));
    assert_eq!(parse_base58_32("111"), None);
    assert_eq!(parse_base58_32("!!!"), None);
}

#[test]
fn signature_query_with_invalid_text_answers_none() {
    let bridge = LiteBridge::new(seeded_store());
    let statuses = bridge.get_signature_statuses(&vec![String::from("%%%")], false);
    assert_eq!(statuses.value, vec![None]);
}

#[test]
fn bridge_subscribe_delegates_to_listener() {
    let mut bridge = LiteBridge::new(seeded_store());
    let (encoded, sig_bytes, _raw) = make_wire_tx([7u8; 32], [2u8; 64]);
    bridge.send_transaction(&encoded).unwrap();
    let batch = bridge.tx_sender.drain_batch(128);
    bridge.tx_sender.record_batch_sent(&batch, 0);

    // Nothing observed yet: the subscription is registered.
    let pending = bridge.signature_subscribe(sig_bytes.clone(), CommitmentLevel::Confirmed, 11);
    assert!(pending.is_none());
    assert_eq!(bridge.block_listener.subscription_count(), 1);

    // Once confirmed, a late subscriber is answered immediately.
    let _ = bridge.block_listener.process_status_update(
        &mut bridge.tx_sender,
        &sig_bytes,
        ConfirmationStatus::Confirmed,
    );
    assert_eq!(bridge.block_listener.subscription_count(), 0);
    let note = bridge
        .signature_subscribe(sig_bytes, CommitmentLevel::Confirmed, 12)
        .expect("confirmed transaction must answer at once");
    assert_eq!(note.sink_id, 12);
    assert_eq!(note.status, ConfirmationStatus::Confirmed);
}
