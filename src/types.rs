//! Records, events and errors of the ledger.

use vstd::prelude::*;
use crate::digest::Address;

verus! {

/// The largest number of handle references that one job may declare.
pub const MAX_CIDS: usize = 16;

/// Why an operation was refused. A refused operation leaves the ledger as
/// it was.
#[derive(Clone, Copy, Debug, PartialEq, Eq, Structural)]
pub enum ErrorCode {
    /// A job declared no handle reference.
    NoCidProvided,
    /// A job declared more than `MAX_CIDS` handle references.
    TooManyCids,
    /// A handle reference does not name a handle of this registry.
    BadCidOwner,
    /// The declared set id is not the digest of the handle references.
    CidSetMismatch,
    /// A batch record holds another window than the one it was looked up
    /// by; a valid ledger never holds one.
    BatchKeyMismatch,
    /// A deadline does not fit in a tick.
    MathOverflow,
    /// The challenge window of the batch has not elapsed yet.
    WindowNotEnded,
    /// The batch is not in a state that allows the operation.
    BadStatus,
    /// A posted batch carries no posting tick; a valid ledger never holds
    /// one.
    PostedSlotMissing,
    /// The configuration has been created already.
    AlreadyInitialized,
    /// The configuration has not been created yet.
    NotInitialized,
    /// A handle for this triple is registered already.
    AlreadyRegistered,
    /// This submitter has filed a job under this commitment already.
    DuplicateCommitment,
    /// A reveal request was made public and is now asked for privately, or
    /// the other way round.
    KindMismatch,
}

/// The lifecycle of a batch: posted, then finalized for good.
#[derive(Clone, Copy, Debug, PartialEq, Eq, Structural)]
pub enum BatchStatus {
    Posted,
    Finalized,
}

/// How a job reached the ledger.
#[derive(Clone, Copy, Debug, PartialEq, Eq, Structural)]
pub enum Provenance {
    /// Relayed by a trusted intermediary.
    Intermediary,
    /// Sent by the data owner directly.
    Direct,
}

/// Global protocol parameters, written once.
#[derive(Clone, Copy, Debug, PartialEq, Eq)]
pub struct Config {
    pub authority: Address,
    /// Ticks that a posted batch must age before it can be finalized.
    pub challenge_window_slots: u64,
}

/// A registered reference to encrypted data and its policy.
#[derive(Clone, Copy, Debug, PartialEq, Eq)]
pub struct CidHandle {
    pub ciphertext_hash: Address,
    pub policy_hash: Address,
    pub owner: Address,
    pub registered_at: u64,
}

/// The compact record of an admitted job: the handle list itself is only
/// in the event.
#[derive(Clone, Copy, Debug, PartialEq, Eq)]
pub struct Job {
    pub batch: Address,
    pub cid_set_id: Address,
    pub cid_count: u16,
    pub commitment: Address,
    pub ir_digest: Address,
    pub policy_hash: Address,
    pub provenance: Provenance,
    pub submitter: Address,
    pub submitted_slot: u64,
}

/// The aggregate result posted for one time window.
#[derive(Clone, Copy, Debug, PartialEq, Eq)]
pub struct BatchResult {
    pub window_start_slot: u64,
    pub status: BatchStatus,
    pub commit_root: Address,
    pub result_commitment: Address,
    pub processed_until_slot: u64,
    pub posted_slot: Option<u64>,
}

/// The latest request to reveal a handle's plaintext. Exactly one of the
/// two credentials is present, the one that `is_public` selects.
#[derive(Clone, Copy, Debug, PartialEq, Eq)]
pub struct RevealRequest {
    pub is_public: bool,
    pub handle: Address,
    pub requester: Address,
    pub user_session_pubkey: Option<Address>,
    pub domain_signature: Option<[u8; 64]>,
    pub requested_slot: u64,
}

/// Emitted when a handle is registered.
#[derive(Clone, Copy, Debug, PartialEq, Eq)]
pub struct CidHandleRegistered {
    pub cid: Address,
    pub owner: Address,
    pub ciphertext_hash: Address,
    pub policy_hash: Address,
    pub slot: u64,
}

/// Emitted when a job is admitted; it carries the full ordered handle list.
#[derive(Debug, PartialEq, Eq)]
pub struct JobSubmitted {
    pub job: Address,
    pub batch: Address,
    pub cid_set_id: Address,
    pub cid_handles: Vec<Address>,
    pub commitment: Address,
    pub ir_digest: Address,
    pub policy_hash: Address,
    pub provenance: Provenance,
    pub submitter: Address,
    pub slot: u64,
}

/// Emitted when a batch result is posted or re-posted.
#[derive(Clone, Copy, Debug, PartialEq, Eq)]
pub struct BatchPosted {
    pub window_start_slot: u64,
    pub commit_root: Address,
    pub result_commitment: Address,
    pub processed_until_slot: u64,
    pub posted_slot: u64,
    /// The first tick at which the batch can be finalized, or the posting
    /// tick where that sum does not fit in a tick.
    pub window_end_slot: u64,
}

/// Emitted when a batch becomes final.
#[derive(Clone, Copy, Debug, PartialEq, Eq)]
pub struct BatchFinalized {
    pub window_start_slot: u64,
    pub result_commitment: Address,
    pub finalized_slot: u64,
}

/// Emitted on every reveal request.
#[derive(Clone, Copy, Debug, PartialEq, Eq)]
pub struct RevealRequested {
    pub handle: Address,
    pub requester: Address,
    pub is_public: bool,
    pub user_session_pubkey: Option<Address>,
    pub domain_signature: Option<[u8; 64]>,
    pub slot: u64,
}

} // verus!
