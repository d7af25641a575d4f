//! The ledger: configuration, handle registry, job admission, batch
//! posting and finalization, and reveal requests, each a transition that
//! either applies whole or leaves the ledger as it was.

use vstd::prelude::*;
use crate::digest::{
    Address, cid_address, cid_address_of, cid_set_digest, job_address, job_address_of,
};
use crate::store::{KeyedStore, StoreKey};
use crate::types::{
    BatchFinalized, BatchPosted, BatchResult, BatchStatus, CidHandle, CidHandleRegistered, Config,
    ErrorCode, Job, JobSubmitted, Provenance, RevealRequest, RevealRequested, MAX_CIDS,
};

verus! {

/// What a ledger holds: the configuration, if created, and each kind of
/// record by its address.
pub ghost struct LedgerView {
    pub config: Option<Config>,
    /// Handles by `cid_address_of` their triple.
    pub handles: Map<Address, CidHandle>,
    /// Jobs by `job_address_of` their commitment and submitter.
    pub jobs: Map<Address, Job>,
    /// Batches by the start of their window.
    pub batches: Map<u64, BatchResult>,
    /// Reveal requests by the handle they are for.
    pub reveals: Map<Address, RevealRequest>,
}

/// The record that a registration creates.
pub open spec fn new_handle(ciphertext_hash: Address, policy_hash: Address, owner: Address, now: u64) -> CidHandle {
    CidHandle { ciphertext_hash, policy_hash, owner, registered_at: now }
}

/// The record that an admitted job leaves.
pub open spec fn new_job(
    submitter: Address,
    batch: Address,
    cid_set_id: Address,
    commitment: Address,
    ir_digest: Address,
    policy_hash: Address,
    provenance: Provenance,
    cid_count: nat,
    now: u64,
) -> Job {
    Job {
        batch,
        cid_set_id,
        cid_count: cid_count as u16,
        commitment,
        ir_digest,
        policy_hash,
        provenance,
        submitter,
        submitted_slot: now,
    }
}

/// The record that a posting leaves.
pub open spec fn posted_batch(
    window_start_slot: u64,
    commit_root: Address,
    result_commitment: Address,
    processed_until_slot: u64,
    now: u64,
) -> BatchResult {
    BatchResult {
        window_start_slot,
        status: BatchStatus::Posted,
        commit_root,
        result_commitment,
        processed_until_slot,
        posted_slot: Some(now),
    }
}

/// The record that a public reveal request leaves.
pub open spec fn public_request(requester: Address, handle: Address, domain_signature: [u8; 64], now: u64) -> RevealRequest {
    RevealRequest {
        is_public: true,
        handle,
        requester,
        user_session_pubkey: None,
        domain_signature: Some(domain_signature),
        requested_slot: now,
    }
}

/// The record that a private reveal request leaves.
pub open spec fn private_request(requester: Address, handle: Address, user_session_pubkey: Address, now: u64) -> RevealRequest {
    RevealRequest {
        is_public: false,
        handle,
        requester,
        user_session_pubkey: Some(user_session_pubkey),
        domain_signature: None,
        requested_slot: now,
    }
}

/// The first tick at which a batch posted at `posted` may be finalized, if
/// it fits in a tick.
pub open spec fn window_end(posted: u64, window: u64) -> Option<u64> {
    if posted + window <= u64::MAX {
        Some((posted + window) as u64)
    } else {
        None
    }
}

impl LedgerView {
    /// The ledger before any operation.
    pub open spec fn empty() -> LedgerView {
        LedgerView {
            config: None,
            handles: Map::empty(),
            jobs: Map::empty(),
            batches: Map::empty(),
            reveals: Map::empty(),
        }
    }

    /// Every record sits at the address its identity fields give, a job
    /// names between one and `MAX_CIDS` handles, a batch has been posted,
    /// and a reveal request holds the one credential its kind calls for.
    pub open spec fn valid(self) -> bool {
        &&& forall|a: Address| #[trigger] self.handles.contains_key(a) ==>
            a == cid_address_of(self.handles[a].ciphertext_hash, self.handles[a].policy_hash, self.handles[a].owner)
        &&& forall|a: Address| #[trigger] self.jobs.contains_key(a) ==> {
            &&& a == job_address_of(self.jobs[a].commitment, self.jobs[a].submitter)
            &&& 1 <= self.jobs[a].cid_count <= MAX_CIDS
        }
        &&& forall|w: u64| #[trigger] self.batches.contains_key(w) ==> {
            &&& self.batches[w].window_start_slot == w
            &&& self.batches[w].posted_slot is Some
        }
        &&& forall|h: Address| #[trigger] self.reveals.contains_key(h) ==> {
            let r = self.reveals[h];
            &&& r.handle == h
            &&& r.is_public ==> r.domain_signature is Some && r.user_session_pubkey is None
            &&& !r.is_public ==> r.domain_signature is None && r.user_session_pubkey is Some
        }
    }

    /// Creates the configuration, once.
    pub open spec fn init_config(self, authority: Address, challenge_window_slots: u64) -> Result<LedgerView, ErrorCode> {
        if self.config is Some {
            Err(ErrorCode::AlreadyInitialized)
        } else {
            Ok(LedgerView { config: Some(Config { authority, challenge_window_slots }), ..self })
        }
    }

    /// Registers the handle for a triple at its address, unless one is there.
    pub open spec fn register_cid_handle(
        self,
        ciphertext_hash: Address,
        policy_hash: Address,
        owner: Address,
        now: u64,
    ) -> Result<LedgerView, ErrorCode> {
        let a = cid_address_of(ciphertext_hash, policy_hash, owner);
        if self.handles.contains_key(a) {
            Err(ErrorCode::AlreadyRegistered)
        } else {
            Ok(LedgerView { handles: self.handles.insert(a, new_handle(ciphertext_hash, policy_hash, owner, now)), ..self })
        }
    }

    /// Whether every reference names a registered handle.
    pub open spec fn all_registered(self, refs: Seq<Address>) -> bool {
        forall|i: int| 0 <= i < refs.len() ==> self.handles.contains_key(#[trigger] refs[i])
    }

    /// Admits a job, checking in turn the configuration, the number of
    /// references, that each is a handle, the set id, and that the
    /// submitter has not used the commitment.
    pub open spec fn submit_job(
        self,
        submitter: Address,
        batch: Address,
        cid_set_id: Address,
        commitment: Address,
        ir_digest: Address,
        policy_hash: Address,
        provenance: Provenance,
        refs: Seq<Address>,
        now: u64,
    ) -> Result<LedgerView, ErrorCode> {
        let a = job_address_of(commitment, submitter);
        if self.config is None {
            Err(ErrorCode::NotInitialized)
        } else if refs.len() > MAX_CIDS {
            Err(ErrorCode::TooManyCids)
        } else if refs.len() == 0 {
            Err(ErrorCode::NoCidProvided)
        } else if !self.all_registered(refs) {
            Err(ErrorCode::BadCidOwner)
        } else if cid_set_digest(refs) != cid_set_id {
            Err(ErrorCode::CidSetMismatch)
        } else if self.jobs.contains_key(a) {
            Err(ErrorCode::DuplicateCommitment)
        } else {
            let job = new_job(submitter, batch, cid_set_id, commitment, ir_digest, policy_hash, provenance, refs.len(), now);
            Ok(LedgerView { jobs: self.jobs.insert(a, job), ..self })
        }
    }

    /// Posts, or re-posts, the result of a window; a finalized window is
    /// refused.
    pub open spec fn commit_batch(
        self,
        window_start_slot: u64,
        commit_root: Address,
        result_commitment: Address,
        processed_until_slot: u64,
        now: u64,
    ) -> Result<LedgerView, ErrorCode> {
        if self.config is None {
            Err(ErrorCode::NotInitialized)
        } else if self.batches.contains_key(window_start_slot)
            && self.batches[window_start_slot].window_start_slot != window_start_slot {
            Err(ErrorCode::BatchKeyMismatch)
        } else if self.batches.contains_key(window_start_slot)
            && self.batches[window_start_slot].status != BatchStatus::Posted {
            Err(ErrorCode::BadStatus)
        } else {
            let b = posted_batch(window_start_slot, commit_root, result_commitment, processed_until_slot, now);
            Ok(LedgerView { batches: self.batches.insert(window_start_slot, b), ..self })
        }
    }

    /// Finalizes a posted window once its challenge window has elapsed.
    pub open spec fn finalize_batch(self, window_start_slot: u64, now: u64) -> Result<LedgerView, ErrorCode> {
        if self.config is None {
            Err(ErrorCode::NotInitialized)
        } else if !self.batches.contains_key(window_start_slot) {
            Err(ErrorCode::BadStatus)
        } else if self.batches[window_start_slot].window_start_slot != window_start_slot {
            Err(ErrorCode::BatchKeyMismatch)
        } else if self.batches[window_start_slot].status != BatchStatus::Posted {
            Err(ErrorCode::BadStatus)
        } else {
            let b = self.batches[window_start_slot];
            match b.posted_slot {
                None => Err(ErrorCode::PostedSlotMissing),
                Some(posted) => match window_end(posted, self.config->Some_0.challenge_window_slots) {
                    None => Err(ErrorCode::MathOverflow),
                    Some(end) => if now < end {
                        Err(ErrorCode::WindowNotEnded)
                    } else {
                        let f = BatchResult { status: BatchStatus::Finalized, ..b };
                        Ok(LedgerView { batches: self.batches.insert(window_start_slot, f), ..self })
                    },
                },
            }
        }
    }

    /// Records a public reveal request for a handle, unless the handle's
    /// request was made private.
    pub open spec fn request_reveal_public(
        self,
        requester: Address,
        handle: Address,
        domain_signature: [u8; 64],
        now: u64,
    ) -> Result<LedgerView, ErrorCode> {
        if self.reveals.contains_key(handle) && !self.reveals[handle].is_public {
            Err(ErrorCode::KindMismatch)
        } else {
            let r = public_request(requester, handle, domain_signature, now);
            Ok(LedgerView { reveals: self.reveals.insert(handle, r), ..self })
        }
    }

    /// Records a private reveal request for a handle, unless the handle's
    /// request was made public.
    pub open spec fn request_reveal_private(
        self,
        requester: Address,
        handle: Address,
        user_session_pubkey: Address,
        now: u64,
    ) -> Result<LedgerView, ErrorCode> {
        if self.reveals.contains_key(handle) && self.reveals[handle].is_public {
            Err(ErrorCode::KindMismatch)
        } else {
            let r = private_request(requester, handle, user_session_pubkey, now);
            Ok(LedgerView { reveals: self.reveals.insert(handle, r), ..self })
        }
    }
}

/// A ledger state, changed only by its operations.
pub struct Ledger {
    config: Option<Config>,
    handles: KeyedStore<Address, CidHandle>,
    jobs: KeyedStore<Address, Job>,
    batches: KeyedStore<u64, BatchResult>,
    reveals: KeyedStore<Address, RevealRequest>,
}

impl View for Ledger {
    type V = LedgerView;

    closed spec fn view(&self) -> LedgerView {
        LedgerView {
            config: self.config,
            handles: self.handles@,
            jobs: self.jobs@,
            batches: self.batches@,
            reveals: self.reveals@,
        }
    }
}

impl Ledger {
    /// The stores are well formed and the records valid.
    pub open spec fn wf(&self) -> bool {
        self.stores_wf() && self@.valid()
    }

    /// No store holds a key twice.
    pub closed spec fn stores_wf(&self) -> bool {
        self.handles.wf() && self.jobs.wf() && self.batches.wf() && self.reveals.wf()
    }

    /// An empty ledger, with no configuration yet.
    pub fn new() -> (r: Ledger)
        ensures
            r.wf(),
            r@ == LedgerView::empty(),
    {
        Ledger {
            config: None,
            handles: KeyedStore::new(),
            jobs: KeyedStore::new(),
            batches: KeyedStore::new(),
            reveals: KeyedStore::new(),
        }
    }

    /// Admits a job that binds `cid_set_id` to the handle list
    /// `handle_refs`, at the address of `(commitment, submitter)`.
    pub fn submit_job(
        &mut self,
        submitter: Address,
        batch: Address,
        cid_set_id: Address,
        commitment: Address,
        ir_digest: Address,
        policy_hash: Address,
        provenance: Provenance,
        handle_refs: Vec<Address>,
        now: u64,
    ) -> (r: Result<JobSubmitted, ErrorCode>)
        requires
            old(self).wf(),
        ensures
            final(self).wf(),
            match old(self)@.submit_job(
                submitter, batch, cid_set_id, commitment, ir_digest, policy_hash, provenance, handle_refs@, now,
            ) {
                Ok(next) => {
                    &&& final(self)@ == next
                    &&& r matches Ok(ev) && {
                        &&& ev.job == job_address_of(commitment, submitter)
                        &&& ev.batch == batch
                        &&& ev.cid_set_id == cid_set_id
                        &&& ev.cid_handles@ == handle_refs@
                        &&& ev.commitment == commitment
                        &&& ev.ir_digest == ir_digest
                        &&& ev.policy_hash == policy_hash
                        &&& ev.provenance == provenance
                        &&& ev.submitter == submitter
                        &&& ev.slot == now
                    }
                },
                Err(e) => final(self)@ == old(self)@ && r == Err::<JobSubmitted, ErrorCode>(e),
            },
    {
        if self.config.is_none() {
            return Err(ErrorCode::NotInitialized);
        }
        let n = handle_refs.len();
        if n > MAX_CIDS {
            return Err(ErrorCode::TooManyCids);
        }
        if n == 0 {
            return Err(ErrorCode::NoCidProvided);
        }
        let mut i: usize = 0;
        while i < n
            invariant
                n == handle_refs@.len(),
                0 < n <= MAX_CIDS,
                self.config is Some,
                i <= n,
                self.wf(),
                self@ == old(self)@,
                forall|j: int| 0 <= j < i ==> self@.handles.contains_key(#[trigger] handle_refs@[j]),
            decreases n - i,
        {
            if !self.handles.contains(&handle_refs[i]) {
                assert(!self@.all_registered(handle_refs@)) by {
                    assert(!self@.handles.contains_key(handle_refs@[i as int]));
                }
                return Err(ErrorCode::BadCidOwner);
            }
            i = i + 1;
        }
        let computed = crate::digest::cid_set_id(&handle_refs);
        if !computed.same_key(&cid_set_id) {
            return Err(ErrorCode::CidSetMismatch);
        }
        let address = job_address(&commitment, &submitter);
        if self.jobs.contains(&address) {
            return Err(ErrorCode::DuplicateCommitment);
        }
        let job = Job {
            batch,
            cid_set_id,
            cid_count: n as u16,
            commitment,
            ir_digest,
            policy_hash,
            provenance,
            submitter,
            submitted_slot: now,
        };
        self.jobs.put(address, job);
        Ok(JobSubmitted {
            job: address,
            batch,
            cid_set_id,
            cid_handles: handle_refs,
            commitment,
            ir_digest,
            policy_hash,
            provenance,
            submitter,
            slot: now,
        })
    }

    /// Posts the result of the window that starts at `window_start_slot`,
    /// or re-posts it while it is not final; either way the window restarts
    /// at `now`.
    pub fn commit_batch(
        &mut self,
        window_start_slot: u64,
        commit_root: Address,
        result_commitment: Address,
        processed_until_slot: u64,
        now: u64,
    ) -> (r: Result<BatchPosted, ErrorCode>)
        requires
            old(self).wf(),
        ensures
            final(self).wf(),
            match old(self)@.commit_batch(window_start_slot, commit_root, result_commitment, processed_until_slot, now) {
                Ok(next) => final(self)@ == next && r == Ok::<BatchPosted, ErrorCode>(BatchPosted {
                    window_start_slot,
                    commit_root,
                    result_commitment,
                    processed_until_slot,
                    posted_slot: now,
                    window_end_slot: match window_end(now, old(self)@.config->Some_0.challenge_window_slots) {
                        Some(end) => end,
                        None => now,
                    },
                }),
                Err(e) => final(self)@ == old(self)@ && r == Err::<BatchPosted, ErrorCode>(e),
            },
    {
        let window = match &self.config {
            None => {
                return Err(ErrorCode::NotInitialized);
            },
            Some(cfg) => cfg.challenge_window_slots,
        };
        match self.batches.get(&window_start_slot) {
            Some(b) => {
                if b.window_start_slot != window_start_slot {
                    return Err(ErrorCode::BatchKeyMismatch);
                }
                if b.status != BatchStatus::Posted {
                    return Err(ErrorCode::BadStatus);
                }
            },
            None => {},
        }
        let b = BatchResult {
            window_start_slot,
            status: BatchStatus::Posted,
            commit_root,
            result_commitment,
            processed_until_slot,
            posted_slot: Some(now),
        };
        self.batches.put(window_start_slot, b);
        let window_end_slot = match now.checked_add(window) {
            Some(end) => end,
            None => now,
        };
        Ok(BatchPosted {
            window_start_slot,
            commit_root,
            result_commitment,
            processed_until_slot,
            posted_slot: now,
            window_end_slot,
        })
    }

    /// Finalizes the window that starts at `window_start_slot` once its
    /// challenge window has elapsed at `now`.
    pub fn finalize_batch(&mut self, window_start_slot: u64, now: u64) -> (r: Result<BatchFinalized, ErrorCode>)
        requires
            old(self).wf(),
        ensures
            final(self).wf(),
            match old(self)@.finalize_batch(window_start_slot, now) {
                Ok(next) => final(self)@ == next && r == Ok::<BatchFinalized, ErrorCode>(BatchFinalized {
                    window_start_slot,
                    result_commitment: old(self)@.batches[window_start_slot].result_commitment,
                    finalized_slot: now,
                }),
                Err(e) => final(self)@ == old(self)@ && r == Err::<BatchFinalized, ErrorCode>(e),
            },
    {
        let window = match &self.config {
            None => {
                return Err(ErrorCode::NotInitialized);
            },
            Some(cfg) => cfg.challenge_window_slots,
        };
        let b = match self.batches.get(&window_start_slot) {
            None => {
                return Err(ErrorCode::BadStatus);
            },
            Some(b) => b,
        };
        if b.window_start_slot != window_start_slot {
            return Err(ErrorCode::BatchKeyMismatch);
        }
        if b.status != BatchStatus::Posted {
            return Err(ErrorCode::BadStatus);
        }
        let posted = match b.posted_slot {
            None => {
                return Err(ErrorCode::PostedSlotMissing);
            },
            Some(p) => p,
        };
        let end = match posted.checked_add(window) {
            None => {
                return Err(ErrorCode::MathOverflow);
            },
            Some(end) => end,
        };
        if now < end {
            return Err(ErrorCode::WindowNotEnded);
        }
        let f = BatchResult { status: BatchStatus::Finalized, ..b };
        self.batches.put(window_start_slot, f);
        Ok(BatchFinalized { window_start_slot, result_commitment: b.result_commitment, finalized_slot: now })
    }

    /// Creates the configuration with `authority` as its authority; a
    /// second call is refused.
    pub fn init_config(&mut self, authority: Address, challenge_window_slots: u64) -> (r: Result<(), ErrorCode>)
        requires
            old(self).wf(),
        ensures
            final(self).wf(),
            match old(self)@.init_config(authority, challenge_window_slots) {
                Ok(next) => final(self)@ == next && r is Ok,
                Err(e) => final(self)@ == old(self)@ && r == Err::<(), ErrorCode>(e),
            },
    {
        if self.config.is_some() {
            return Err(ErrorCode::AlreadyInitialized);
        }
        self.config = Some(Config { authority, challenge_window_slots });
        Ok(())
    }

    /// Registers the handle of `(ciphertext_hash, policy_hash, owner)` at
    /// its address; a second registration of the triple is refused.
    pub fn register_cid_handle(
        &mut self,
        ciphertext_hash: Address,
        policy_hash: Address,
        owner: Address,
        now: u64,
    ) -> (r: Result<CidHandleRegistered, ErrorCode>)
        requires
            old(self).wf(),
        ensures
            final(self).wf(),
            match old(self)@.register_cid_handle(ciphertext_hash, policy_hash, owner, now) {
                Ok(next) => final(self)@ == next && r == Ok::<CidHandleRegistered, ErrorCode>(CidHandleRegistered {
                    cid: cid_address_of(ciphertext_hash, policy_hash, owner),
                    owner,
                    ciphertext_hash,
                    policy_hash,
                    slot: now,
                }),
                Err(e) => final(self)@ == old(self)@ && r == Err::<CidHandleRegistered, ErrorCode>(e),
            },
    {
        let address = cid_address(&ciphertext_hash, &policy_hash, &owner);
        if self.handles.contains(&address) {
            return Err(ErrorCode::AlreadyRegistered);
        }
        self.handles.put(address, CidHandle { ciphertext_hash, policy_hash, owner, registered_at: now });
        Ok(CidHandleRegistered { cid: address, owner, ciphertext_hash, policy_hash, slot: now })
    }

    /// Records `requester`'s request to reveal `handle` publicly, under
    /// `domain_signature`.
    pub fn request_reveal_public(
        &mut self,
        requester: Address,
        handle: Address,
        domain_signature: [u8; 64],
        now: u64,
    ) -> (r: Result<RevealRequested, ErrorCode>)
        requires
            old(self).wf(),
        ensures
            final(self).wf(),
            match old(self)@.request_reveal_public(requester, handle, domain_signature, now) {
                Ok(next) => final(self)@ == next && r == Ok::<RevealRequested, ErrorCode>(RevealRequested {
                    handle,
                    requester,
                    is_public: true,
                    user_session_pubkey: None,
                    domain_signature: Some(domain_signature),
                    slot: now,
                }),
                Err(e) => final(self)@ == old(self)@ && r == Err::<RevealRequested, ErrorCode>(e),
            },
    {
        match self.reveals.get(&handle) {
            Some(prev) => {
                if !prev.is_public {
                    return Err(ErrorCode::KindMismatch);
                }
            },
            None => {},
        }
        let req = RevealRequest {
            is_public: true,
            handle,
            requester,
            user_session_pubkey: None,
            domain_signature: Some(domain_signature),
            requested_slot: now,
        };
        self.reveals.put(handle, req);
        Ok(RevealRequested {
            handle,
            requester,
            is_public: true,
            user_session_pubkey: None,
            domain_signature: Some(domain_signature),
            slot: now,
        })
    }

    /// Records `requester`'s request to reveal `handle` privately, to
    /// `user_session_pubkey`.
    pub fn request_reveal_private(
        &mut self,
        requester: Address,
        handle: Address,
        user_session_pubkey: Address,
        now: u64,
    ) -> (r: Result<RevealRequested, ErrorCode>)
        requires
            old(self).wf(),
        ensures
            final(self).wf(),
            match old(self)@.request_reveal_private(requester, handle, user_session_pubkey, now) {
                Ok(next) => final(self)@ == next && r == Ok::<RevealRequested, ErrorCode>(RevealRequested {
                    handle,
                    requester,
                    is_public: false,
                    user_session_pubkey: Some(user_session_pubkey),
                    domain_signature: None,
                    slot: now,
                }),
                Err(e) => final(self)@ == old(self)@ && r == Err::<RevealRequested, ErrorCode>(e),
            },
    {
        match self.reveals.get(&handle) {
            Some(prev) => {
                if prev.is_public {
                    return Err(ErrorCode::KindMismatch);
                }
            },
            None => {},
        }
        let req = RevealRequest {
            is_public: false,
            handle,
            requester,
            user_session_pubkey: Some(user_session_pubkey),
            domain_signature: None,
            requested_slot: now,
        };
        self.reveals.put(handle, req);
        Ok(RevealRequested {
            handle,
            requester,
            is_public: false,
            user_session_pubkey: Some(user_session_pubkey),
            domain_signature: None,
            slot: now,
        })
    }

    /// The configuration, once created.
    pub fn config(&self) -> (r: Option<Config>)
        ensures
            r == self@.config,
    {
        self.config
    }

    /// The handle registered at `address`, if any.
    pub fn cid_handle(&self, address: &Address) -> (r: Option<CidHandle>)
        requires
            self.wf(),
        ensures
            r == (if self@.handles.contains_key(*address) { Some(self@.handles[*address]) } else { None }),
    {
        self.handles.get(address)
    }

    /// The job filed at `address`, if any.
    pub fn job(&self, address: &Address) -> (r: Option<Job>)
        requires
            self.wf(),
        ensures
            r == (if self@.jobs.contains_key(*address) { Some(self@.jobs[*address]) } else { None }),
    {
        self.jobs.get(address)
    }

    /// The batch of the window that starts at `window_start_slot`, if posted.
    pub fn batch(&self, window_start_slot: u64) -> (r: Option<BatchResult>)
        requires
            self.wf(),
        ensures
            r == (if self@.batches.contains_key(window_start_slot) {
                Some(self@.batches[window_start_slot])
            } else {
                None
            }),
    {
        self.batches.get(&window_start_slot)
    }

    /// The latest reveal request for `handle`, if any.
    pub fn reveal_request(&self, handle: &Address) -> (r: Option<RevealRequest>)
        requires
            self.wf(),
        ensures
            r == (if self@.reveals.contains_key(*handle) { Some(self@.reveals[*handle]) } else { None }),
    {
        self.reveals.get(handle)
    }
}

} // verus!
