use vstd::prelude::*;

verus! {

/// Confidence tier a block has reached on the cluster, from least to most
/// irreversible.
#[derive(Clone, Copy, PartialEq, Eq, Structural, Debug)]
pub enum CommitmentLevel {
    Processed,
    Confirmed,
    Finalized,
}

/// Status a tracked transaction has been observed at. `Dropped` means the
/// cluster gave up on the transaction; the other three mirror the commitment
/// tiers.
#[derive(Clone, Copy, PartialEq, Eq, Structural, Debug)]
pub enum ConfirmationStatus {
    Processed,
    Confirmed,
    Finalized,
    Dropped,
}

/// Rank of an optional status: higher means more final. `None` (nothing
/// observed yet) sits below everything; `Dropped` sits below `Processed`
/// so that a landing transaction may still supersede a drop report, while a
/// finalized one can never fall back to anything less.
pub open spec fn status_rank(s: Option<ConfirmationStatus>) -> int {
    match s {
        None => 0,
        Some(ConfirmationStatus::Dropped) => 1,
        Some(ConfirmationStatus::Processed) => 2,
        Some(ConfirmationStatus::Confirmed) => 3,
        Some(ConfirmationStatus::Finalized) => 4,
    }
}

/// The least status rank that fulfils a subscription asking for the given
/// commitment level.
pub open spec fn required_rank(c: CommitmentLevel) -> int {
    match c {
        CommitmentLevel::Processed => 2,
        CommitmentLevel::Confirmed => 3,
        CommitmentLevel::Finalized => 4,
    }
}

/// Whether an observed status fulfils a subscription for the given commitment.
pub open spec fn status_satisfies(s: ConfirmationStatus, c: CommitmentLevel) -> bool {
    status_rank(Some(s)) >= required_rank(c)
}

/// The status a tracked entry moves to when `observed` arrives while the entry
/// holds `cur`: the more final of the two, so a status never regresses.
pub open spec fn upgrade_status(
    cur: Option<ConfirmationStatus>,
    observed: ConfirmationStatus,
) -> Option<ConfirmationStatus> {
    if status_rank(Some(observed)) > status_rank(cur) {
        Some(observed)
    } else {
        cur
    }
}

/// Over any lifetime of a tracked transaction, observed status transitions
/// never regress: whatever a listener observes, the entry's status either
/// stays where it was or moves to the observed, strictly more final one —
/// `Finalized` is never followed by `Confirmed`.
pub proof fn lemma_status_never_regresses(
    cur: Option<ConfirmationStatus>,
    observed: ConfirmationStatus,
)
    ensures
        status_rank(upgrade_status(cur, observed)) >= status_rank(cur),
        upgrade_status(cur, observed) == cur || upgrade_status(cur, observed) == Some(observed),
        status_rank(Some(observed)) > status_rank(cur) ==> upgrade_status(cur, observed) == Some(
            observed,
        ),
        status_rank(Some(observed)) <= status_rank(cur) ==> upgrade_status(cur, observed) == cur,
{
}

/// Executable rank of an optional status; mirrors `status_rank`.
pub fn status_rank_exec(s: &Option<ConfirmationStatus>) -> (r: u8)
    ensures
        r as int == status_rank(*s),
{
    match s {
        None => 0,
        Some(ConfirmationStatus::Dropped) => 1,
        Some(ConfirmationStatus::Processed) => 2,
        Some(ConfirmationStatus::Confirmed) => 3,
        Some(ConfirmationStatus::Finalized) => 4,
    }
}

/// Executable counterpart of `required_rank`.
pub fn required_rank_exec(c: CommitmentLevel) -> (r: u8)
    ensures
        r as int == required_rank(c),
{
    match c {
        CommitmentLevel::Processed => 2,
        CommitmentLevel::Confirmed => 3,
        CommitmentLevel::Finalized => 4,
    }
}

/// Metadata of one observed block. Immutable once recorded for a given
/// blockhash.
pub struct BlockInfo {
    pub slot: u64,
    pub block_height: u64,
    /// Raw 32 bytes of the blockhash.
    pub blockhash: Vec<u8>,
}

/// Field-wise equality of two block records, comparing the hash by contents.
pub open spec fn block_eq(a: BlockInfo, b: BlockInfo) -> bool {
    &&& a.slot == b.slot
    &&& a.block_height == b.block_height
    &&& a.blockhash@ == b.blockhash@
}

/// A transaction sitting in the intake queue, waiting for the next batch.
pub struct QueuedTransaction {
    /// Raw 64 bytes of the transaction's first signature.
    pub signature: Vec<u8>,
    /// The wire bytes handed to the leader router.
    pub raw_bytes: Vec<u8>,
    /// Slot of the block the transaction's blockhash was observed in.
    pub submitted_slot: u64,
}

/// Book-keeping for a transaction that has been handed to the leader router
/// at least once.
pub struct TrackedTransaction {
    pub signature: Vec<u8>,
    pub raw_bytes: Vec<u8>,
    pub submitted_slot: u64,
    pub status: Option<ConfirmationStatus>,
    /// Timestamp (milliseconds) of the most recent hand-off to the router;
    /// drives the time-to-live eviction.
    pub last_sent_at: u64,
    pub retry_count: u32,
}

/// A live push registration: the sink is notified once when the transaction
/// reaches the requested commitment, then the registration is dropped.
pub struct Subscription {
    pub signature: Vec<u8>,
    pub commitment: CommitmentLevel,
    /// Opaque handle of the push channel; the caller performs the delivery.
    pub sink_id: u64,
}

/// One terminal push owed to a sink.
pub struct Notification {
    pub sink_id: u64,
    pub signature: Vec<u8>,
    pub status: ConfirmationStatus,
}

/// Why a caller-facing call was rejected, or why the service stopped.
#[derive(Clone, Copy, PartialEq, Eq, Structural, Debug)]
pub enum BridgeError {
    /// The wire transaction (or a base-58 argument) could not be decoded.
    DecodeError,
    /// The transaction's blockhash is not in the block store: stale or never
    /// observed, so the transaction is rejected before reaching the network.
    UnknownBlockhashError,
    /// The upstream full-node client failed.
    UpstreamError,
    /// The leader router failed to transmit; recorded, never surfaced to the
    /// submitting caller.
    TransportError,
    /// A long-running worker stopped; fatal for the whole service.
    SubsystemTerminatedError,
}

/// Context attached to responses that carry the sampling verdict.
#[derive(Debug, PartialEq, Eq)]
pub struct LiteRpcResponseContext {
    pub slot: u64,
    /// Whether the slot's data was independently spot-checked by the
    /// verification oracle.
    pub sampled: bool,
}

/// A response paired with the context it was computed under.
#[derive(Debug, PartialEq, Eq)]
pub struct LiteResponse<T> {
    pub context: LiteRpcResponseContext,
    pub value: T,
}

/// A response paired only with the slot it was computed at.
#[derive(Debug, PartialEq, Eq)]
pub struct RpcResponse<T> {
    pub slot: u64,
    pub value: T,
}

/// The latest-blockhash answer: the hash in base-58 and the last block height
/// at which the cluster still accepts transactions referencing it.
#[derive(Debug, PartialEq, Eq)]
pub struct RpcBlockhash {
    pub blockhash: String,
    pub last_valid_block_height: u64,
}

/// Build/version metadata reported by `get_version`.
#[derive(Debug, PartialEq, Eq)]
pub struct VersionInfo {
    pub solana_core: String,
    pub feature_set: u32,
}

/// Byte-for-byte copy of a byte vector.
pub fn copy_bytes(v: &Vec<u8>) -> (r: Vec<u8>)
    ensures
        r@ == v@,
{
    let mut r: Vec<u8> = Vec::new();
    let mut i: usize = 0;
    while i < v.len()
        invariant
            i <= v.len(),
            r@ == v@.take(i as int),
        decreases v.len() - i,
    {
        r.push(v[i]);
        i = i + 1;
    }
    assert(v@.take(v.len() as int) =~= v@);
    r
}

/// Whether two byte vectors hold the same bytes.
pub fn bytes_eq(a: &Vec<u8>, b: &Vec<u8>) -> (r: bool)
    ensures
        r <==> a@ == b@,
{
    if a.len() != b.len() {
        return false;
    }
    let mut i: usize = 0;
    while i < a.len()
        invariant
            i <= a.len(),
            a@.len() == b@.len(),
            forall|k: int| 0 <= k < i ==> a@[k] == b@[k],
        decreases a.len() - i,
    {
        if a[i] != b[i] {
            return false;
        }
        i = i + 1;
    }
    assert(a@ =~= b@);
    true
}

} // verus!
