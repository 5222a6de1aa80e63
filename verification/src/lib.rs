//! A lightweight RPC bridge between blockchain clients and a validator
//! cluster: it decodes submitted transactions itself, checks the freshness of
//! their reference blockhash against a locally maintained block store, batches
//! the raw bytes towards the current leaders, and tracks confirmation status
//! independently, with push subscriptions and a periodic janitor bounding the
//! in-memory tables.

pub mod block_listener;
pub mod block_store;
pub mod bridge;
pub mod cleaner;
pub mod codec;
pub mod tx_sender;
pub mod types;

use vstd::prelude::*;

verus! {

/// How many transactions at most are handed to the leader router in one batch.
pub const DEFAULT_TX_BATCH_SIZE: usize = 128;

/// How long the batching loop waits before flushing a partial batch, in
/// milliseconds.
pub const DEFAULT_TX_BATCH_INTERVAL_MS: u64 = 1;

/// How often the janitor sweeps the tracked-transaction and subscription
/// tables, in milliseconds.
pub const DEFAULT_CLEAN_INTERVAL_MS: u64 = 5 * 60 * 1000;

/// How long a tracked transaction stays in the table after its last hand-off
/// to the router, in milliseconds.
pub const DEFAULT_TX_SENT_TTL_MS: u64 = 12 * 1000;

/// How many upcoming leaders the router targets.
pub const DEFAULT_FANOUT_SIZE: u64 = 32;

/// How many blocks past the one that issued a blockhash the cluster still
/// accepts transactions referencing it.
pub const BLOCKHASH_VALID_BLOCK_HEIGHTS: u64 = 150;

} // verus!
