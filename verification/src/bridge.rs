//! The composition root and RPC-facing surface: one bridge owning the block
//! store, the transaction sender and the confirmation listener, exposing the
//! caller-facing method contracts. Network transports, the leader router,
//! the upstream full-node client and the verification oracle are outside
//! collaborators: their answers come in as plain arguments, and everything
//! decided from them is stated here.

use vstd::prelude::*;

use crate::block_listener::BlockListener;
use crate::block_store::BlockStore;
use crate::codec::{
    base58_decode, base58_decode_of, base58_encode, base58_of, parse_base58_32,
    spec_parse_base58_32, wire_decode, wire_decode_of,
};
use crate::tx_sender::TxSender;
use crate::types::{
    status_satisfies, BridgeError, CommitmentLevel, ConfirmationStatus, LiteResponse,
    LiteRpcResponseContext, Notification, RpcBlockhash, RpcResponse, VersionInfo,
};

verus! {

/// Lifecycle of the whole service. Termination of any long-running worker is
/// fatal; a shutdown signal that wins the race against such a termination
/// counts as a clean stop.
#[derive(Clone, Copy, PartialEq, Eq, Structural, Debug)]
pub enum ServicePhase {
    Constructed,
    Running,
    Stopped,
    Crashed,
}

/// What can happen to a running service, as seen by its supervisor.
#[derive(Clone, Copy, PartialEq, Eq, Structural, Debug)]
pub enum ServiceEvent {
    /// All workers and transports were spawned.
    Start,
    /// Any one long-running worker or transport finished.
    TaskTerminated,
    /// The process received an external shutdown signal.
    ShutdownSignal,
}

/// The lifecycle transition table: starting moves a constructed service into
/// running; from running, a worker death crashes it and a shutdown signal
/// stops it cleanly; the two terminal phases absorb everything.
pub open spec fn spec_service_step(phase: ServicePhase, event: ServiceEvent) -> ServicePhase {
    match (phase, event) {
        (ServicePhase::Constructed, ServiceEvent::Start) => ServicePhase::Running,
        (ServicePhase::Running, ServiceEvent::TaskTerminated) => ServicePhase::Crashed,
        (ServicePhase::Running, ServiceEvent::ShutdownSignal) => ServicePhase::Stopped,
        _ => phase,
    }
}

/// One supervision step; the loop around it, the spawning and the signal
/// handling are the caller's outside work.
pub fn service_step(phase: ServicePhase, event: ServiceEvent) -> (r: ServicePhase)
    ensures
        r == spec_service_step(phase, event),
{
    match (phase, event) {
        (ServicePhase::Constructed, ServiceEvent::Start) => ServicePhase::Running,
        (ServicePhase::Running, ServiceEvent::TaskTerminated) => ServicePhase::Crashed,
        (ServicePhase::Running, ServiceEvent::ShutdownSignal) => ServicePhase::Stopped,
        (p, _) => p,
    }
}

/// Relies on `solana_version::Version::default` (and its `Display`) for the
/// version label and feature-set number of the linked cluster software.
/// Nothing is stated of the result: it is a property of the build, not of
/// any argument.
#[verifier::external_body]
#[allow(deprecated)]
fn node_version() -> (r: (String, u32)) {
    let v = solana_version::Version::default();
    (v.to_string(), v.feature_set)
}

/// A bridge between clients and the leaders' transaction ports.
pub struct LiteBridge {
    pub block_store: BlockStore,
    pub tx_sender: TxSender,
    pub block_listener: BlockListener,
}

impl LiteBridge {
    pub open spec fn wf(self) -> bool {
        self.block_store.wf() && self.tx_sender.wf()
    }

    /// Whether the submitted text decodes all the way to a wire transaction.
    pub open spec fn decode_ok(tx: Seq<char>) -> bool {
        base58_decode_of(tx) is Some && wire_decode_of(base58_decode_of(tx).unwrap()) is Some
    }

    /// The raw wire bytes of a submission that decodes.
    pub open spec fn decoded_raw(tx: Seq<char>) -> Seq<u8> {
        base58_decode_of(tx).unwrap()
    }

    /// The first signature of a submission that decodes.
    pub open spec fn decoded_sig(tx: Seq<char>) -> Seq<u8> {
        wire_decode_of(Self::decoded_raw(tx)).unwrap().0
    }

    /// The referenced blockhash of a submission that decodes.
    pub open spec fn decoded_hash(tx: Seq<char>) -> Seq<u8> {
        wire_decode_of(Self::decoded_raw(tx)).unwrap().1
    }

    /// A constructed bridge: the given block store, and empty pipeline
    /// tables. No background work runs; the callers drive everything.
    pub fn new(block_store: BlockStore) -> (r: LiteBridge)
        requires
            block_store.wf(),
        ensures
            r.wf(),
            r.block_store == block_store,
            r.tx_sender.queue@.len() == 0,
            r.tx_sender.txs_sent@.len() == 0,
            r.block_listener.subscriptions@.len() == 0,
    {
        LiteBridge {
            block_store,
            tx_sender: TxSender::new(),
            block_listener: BlockListener::new(),
        }
    }

    /// Submit one base-58-encoded wire transaction: decode it, refuse it if
    /// its blockhash is not in the block store, otherwise enqueue it for the
    /// next batch and return its signature, base-58-encoded. The call never
    /// waits on the network: delivery is asynchronous and must be polled or
    /// subscribed to separately.
    pub fn send_transaction(&mut self, tx: &str) -> (r: Result<String, BridgeError>)
        requires
            old(self).wf(),
        ensures
            final(self).wf(),
            final(self).block_store == old(self).block_store,
            final(self).block_listener == old(self).block_listener,
            final(self).tx_sender.txs_sent == old(self).tx_sender.txs_sent,
            // A rejection leaves the whole pipeline untouched.
            r is Err ==> final(self).tx_sender == old(self).tx_sender,
            // Exactly the undecodable submissions are decode errors.
            (r matches Err(e) && e == BridgeError::DecodeError) <==> !Self::decode_ok(tx@),
            // Exactly the decodable ones whose blockhash is unknown are
            // rejected before ever reaching the network.
            (r matches Err(e) && e == BridgeError::UnknownBlockhashError) <==> (Self::decode_ok(
                tx@,
            ) && !old(self).block_store.hash_in_history(Self::decoded_hash(tx@))),
            // Everything else succeeds, answering the transaction's own
            // signature.
            r is Ok <==> (Self::decode_ok(tx@) && old(self).block_store.hash_in_history(
                Self::decoded_hash(tx@),
            )),
            r is Ok ==> r.unwrap()@ == base58_of(Self::decoded_sig(tx@)),
            // A success appends exactly one intake item: the decoded
            // signature, the raw bytes, and the slot the blockhash was
            // observed at.
            r is Ok ==> {
                &&& final(self).tx_sender.queue@.len() == old(self).tx_sender.queue@.len() + 1
                &&& forall|i: int|
                    0 <= i < old(self).tx_sender.queue@.len()
                        ==> #[trigger] final(self).tx_sender.queue@[i]
                            == old(self).tx_sender.queue@[i]
                &&& final(self).tx_sender.queue@.last().signature@ == Self::decoded_sig(tx@)
                &&& final(self).tx_sender.queue@.last().raw_bytes@ == Self::decoded_raw(tx@)
                &&& final(self).tx_sender.queue@.last().submitted_slot == old(
                    self,
                ).block_store.spec_block_info(Self::decoded_hash(tx@)).unwrap().slot
            },
    {
        let raw = match base58_decode(tx) {
            Some(raw) => raw,
            None => {
                return Err(BridgeError::DecodeError);
            },
        };
        let parsed = match wire_decode(&raw) {
            Some(parsed) => parsed,
            None => {
                return Err(BridgeError::DecodeError);
            },
        };
        let info = match self.block_store.get_block_info(&parsed.blockhash) {
            Some(info) => info,
            None => {
                return Err(BridgeError::UnknownBlockhashError);
            },
        };
        let encoded_sig = base58_encode(&parsed.signature);
        self.tx_sender.enqueue(parsed.signature, raw, info.slot);
        Ok(encoded_sig)
    }

    /// The latest blockhash at the requested commitment, with the last block
    /// height the cluster will still accept it at, and a context carrying
    /// the slot it was observed at together with the verification oracle's
    /// sampling verdict for that slot, handed in by the caller.
    pub fn get_latest_blockhash(&self, commitment: CommitmentLevel, sampled: bool) -> (r:
        LiteResponse<RpcBlockhash>)
        requires
            self.wf(),
            self.block_store.spec_latest(commitment).block_height
                + crate::BLOCKHASH_VALID_BLOCK_HEIGHTS <= u64::MAX,
        ensures
            r.context.slot == self.block_store.spec_latest(commitment).slot,
            r.context.sampled == sampled,
            r.value.blockhash@ == base58_of(self.block_store.spec_latest(commitment).blockhash@),
            r.value.last_valid_block_height == self.block_store.spec_latest(commitment).block_height
                + crate::BLOCKHASH_VALID_BLOCK_HEIGHTS,
    {
        let (hash, info) = self.block_store.get_latest_block(commitment);
        LiteResponse {
            context: LiteRpcResponseContext { slot: info.slot, sampled },
            value: RpcBlockhash {
                blockhash: base58_encode(&hash),
                last_valid_block_height: info.block_height + crate::BLOCKHASH_VALID_BLOCK_HEIGHTS,
            },
        }
    }

    /// Whether a blockhash is still valid, by cluster truth: the upstream
    /// client's verdict is handed in by the caller and answered verbatim
    /// (this deliberately bypasses the local cache), paired with the locally
    /// cached slot. A blockhash that does not name 32 bytes in base-58 is a
    /// decode error; a missing upstream verdict is an upstream error.
    pub fn is_blockhash_valid(
        &self,
        blockhash: &str,
        upstream_valid: Option<bool>,
        commitment: CommitmentLevel,
    ) -> (r: Result<RpcResponse<bool>, BridgeError>)
        requires
            self.wf(),
        ensures
            (r matches Err(e) && e == BridgeError::DecodeError) <==> spec_parse_base58_32(
                blockhash@,
            ) is None,
            (r matches Err(e) && e == BridgeError::UpstreamError) <==> (spec_parse_base58_32(
                blockhash@,
            ) is Some && upstream_valid is None),
            r is Ok <==> (spec_parse_base58_32(blockhash@) is Some && upstream_valid is Some),
            r is Ok ==> r.unwrap().value == upstream_valid.unwrap(),
            r is Ok ==> r.unwrap().slot == self.block_store.spec_latest(commitment).slot,
    {
        if parse_base58_32(blockhash).is_none() {
            return Err(BridgeError::DecodeError);
        }
        match upstream_valid {
            None => Err(BridgeError::UpstreamError),
            Some(valid) => {
                let info = self.block_store.get_latest_block_info(commitment);
                Ok(RpcResponse { slot: info.slot, value: valid })
            },
        }
    }

    /// The status a signature text is answered with: the tracked status of
    /// the transaction it names, or nothing when it decodes to no tracked
    /// signature.
    pub open spec fn spec_status_for(sender: TxSender, s: Seq<char>) -> Option<
        ConfirmationStatus,
    > {
        match base58_decode_of(s) {
            None => None,
            Some(b) => match sender.spec_status(b) {
                None => None,
                Some(st) => st,
            },
        }
    }

    /// The locally tracked status of each requested signature — no network
    /// call — plus the finalized slot and the caller-supplied sampling
    /// verdict for it.
    pub fn get_signature_statuses(&self, sigs: &Vec<String>, sampled: bool) -> (r: LiteResponse<
        Vec<Option<ConfirmationStatus>>,
    >)
        requires
            self.wf(),
        ensures
            r.context.slot == self.block_store.spec_latest(CommitmentLevel::Finalized).slot,
            r.context.sampled == sampled,
            r.value@.len() == sigs@.len(),
            forall|i: int|
                0 <= i < sigs@.len()
                    ==> #[trigger] r.value@[i] == Self::spec_status_for(
                    self.tx_sender,
                    sigs@[i]@,
                ),
    {
        let mut statuses: Vec<Option<ConfirmationStatus>> = Vec::new();
        let mut i: usize = 0;
        while i < sigs.len()
            invariant
                self.wf(),
                i <= sigs@.len(),
                statuses@.len() == i,
                forall|k: int|
                    0 <= k < i
                        ==> #[trigger] statuses@[k] == Self::spec_status_for(
                        self.tx_sender,
                        sigs@[k]@,
                    ),
            decreases sigs@.len() - i,
        {
            let looked_up: Option<ConfirmationStatus> = match base58_decode(sigs[i].as_str()) {
                None => None,
                Some(b) => match self.tx_sender.get_status(&b) {
                    None => None,
                    Some(st) => st,
                },
            };
            statuses.push(looked_up);
            i = i + 1;
        }
        let info = self.block_store.get_latest_block_info(CommitmentLevel::Finalized);
        LiteResponse {
            context: LiteRpcResponseContext { slot: info.slot, sampled },
            value: statuses,
        }
    }

    /// Build and version metadata of the linked cluster software; a pure
    /// local read, no I/O. The values come from the build, so nothing can be
    /// pinned about them here.
    pub fn get_version(&self) -> VersionInfo {
        let (solana_core, feature_set) = node_version();
        VersionInfo { solana_core, feature_set }
    }

    /// Record the outcome of an airdrop request made upstream on the
    /// caller's behalf: a public key that does not name 32 bytes is a decode
    /// error; a missing upstream signature is an upstream error; on success
    /// a zero-value tracked entry is recorded for the returned signature so
    /// that later status queries behave as for submitted transactions, and
    /// the signature is answered base-58-encoded.
    pub fn request_airdrop(
        &mut self,
        pubkey: &str,
        upstream_signature: Option<Vec<u8>>,
        now: u64,
    ) -> (r: Result<String, BridgeError>)
        requires
            old(self).wf(),
        ensures
            final(self).wf(),
            final(self).block_store == old(self).block_store,
            final(self).block_listener == old(self).block_listener,
            final(self).tx_sender.queue == old(self).tx_sender.queue,
            (r matches Err(e) && e == BridgeError::DecodeError) <==> spec_parse_base58_32(
                pubkey@,
            ) is None,
            (r matches Err(e) && e == BridgeError::UpstreamError) <==> (spec_parse_base58_32(
                pubkey@,
            ) is Some && upstream_signature is None),
            r is Ok <==> (spec_parse_base58_32(pubkey@) is Some && upstream_signature is Some),
            r is Err ==> final(self).tx_sender == old(self).tx_sender,
            r is Ok ==> {
                &&& r.unwrap()@ == base58_of(upstream_signature.unwrap()@)
                &&& final(self).tx_sender.has_tx(upstream_signature.unwrap()@)
                &&& crate::tx_sender::is_zero_entry(
                    final(self).tx_sender.tx_at(upstream_signature.unwrap()@),
                    upstream_signature.unwrap()@,
                    now,
                )
            },
    {
        if parse_base58_32(pubkey).is_none() {
            return Err(BridgeError::DecodeError);
        }
        match upstream_signature {
            None => Err(BridgeError::UpstreamError),
            Some(sig) => {
                let encoded = base58_encode(&sig);
                self.tx_sender.insert_zero_entry(sig, now);
                Ok(encoded)
            },
        }
    }

    /// Accept a push registration for a signature at a commitment level,
    /// delegating to the listener: if the transaction already reached the
    /// requested commitment the single owed notification comes back at once,
    /// otherwise the subscription is registered for the listener to fulfil.
    pub fn signature_subscribe(
        &mut self,
        signature: Vec<u8>,
        commitment: CommitmentLevel,
        sink_id: u64,
    ) -> (r: Option<Notification>)
        requires
            old(self).wf(),
        ensures
            final(self).wf(),
            final(self).block_store == old(self).block_store,
            final(self).tx_sender == old(self).tx_sender,
            r is Some <==> (old(self).tx_sender.has_tx(signature@) && old(self).tx_sender.tx_at(
                signature@,
            ).status is Some && status_satisfies(
                old(self).tx_sender.tx_at(signature@).status.unwrap(),
                commitment,
            )),
            r is Some ==> {
                &&& r.unwrap().sink_id == sink_id
                &&& r.unwrap().signature@ == signature@
                &&& r.unwrap().status == old(self).tx_sender.tx_at(signature@).status.unwrap()
                &&& final(self).block_listener.subscriptions
                    == old(self).block_listener.subscriptions
            },
            r is None ==> {
                &&& final(self).block_listener.subscriptions@.len() == old(
                    self,
                ).block_listener.subscriptions@.len() + 1
                &&& forall|i: int|
                    0 <= i < old(self).block_listener.subscriptions@.len()
                        ==> #[trigger] final(self).block_listener.subscriptions@[i] == old(
                        self,
                    ).block_listener.subscriptions@[i]
                &&& final(self).block_listener.subscriptions@.last().signature@ == signature@
                &&& final(self).block_listener.subscriptions@.last().commitment == commitment
                &&& final(self).block_listener.subscriptions@.last().sink_id == sink_id
            },
    {
        self.block_listener.signature_subscribe(&self.tx_sender, signature, commitment, sink_id)
    }
}

} // verus!
