//! Facts about sequences of ledger operations, proved over the transitions
//! that the operations' contracts are stated with.

use vstd::prelude::*;
use crate::digest::{Address, cid_address_of, cid_set_digest, concat_keys, job_address_of};
use crate::ledger::{LedgerView, new_handle, window_end};
use crate::types::{BatchStatus, ErrorCode, MAX_CIDS, Provenance};

verus! {

/// Registering a triple twice: the handle sits at the triple's address
/// after the first call, whose outcome is either success or
/// `AlreadyRegistered`, and the second call is refused with
/// `AlreadyRegistered`, leaving the handle as it was.
pub proof fn registering_twice_is_refused(
    l: LedgerView,
    ciphertext_hash: Address,
    policy_hash: Address,
    owner: Address,
    first: u64,
    second: u64,
)
    requires
        l.valid(),
    ensures
        ({
            let a = cid_address_of(ciphertext_hash, policy_hash, owner);
            let l1 = match l.register_cid_handle(ciphertext_hash, policy_hash, owner, first) {
                Ok(next) => next,
                Err(_) => l,
            };
            &&& l.register_cid_handle(ciphertext_hash, policy_hash, owner, first) matches Err(e)
                ==> e == ErrorCode::AlreadyRegistered
            &&& l1.handles.contains_key(a)
            &&& !l.handles.contains_key(a) ==> l1.handles[a] == new_handle(ciphertext_hash, policy_hash, owner, first)
            &&& l1.register_cid_handle(ciphertext_hash, policy_hash, owner, second) == Err::<LedgerView, ErrorCode>(
                ErrorCode::AlreadyRegistered,
            )
        }),
{
}

/// Distinct handle lists are written as distinct byte strings: in
/// particular two orders of one list are, so their set ids are digests of
/// different inputs.
pub proof fn cid_set_preimage_is_injective(a: Seq<Address>, b: Seq<Address>)
    requires
        concat_keys(a) == concat_keys(b),
    ensures
        a == b,
    decreases a.len(),
{
    lemma_concat_keys_len(a);
    lemma_concat_keys_len(b);
    assert(a.len() == b.len());
    if a.len() > 0 {
        let n = concat_keys(a).len();
        let pa = concat_keys(a.drop_last());
        let pb = concat_keys(b.drop_last());
        lemma_concat_keys_len(a.drop_last());
        lemma_concat_keys_len(b.drop_last());
        assert(concat_keys(a).subrange(0, pa.len() as int) == pa);
        assert(concat_keys(b).subrange(0, pb.len() as int) == pb);
        cid_set_preimage_is_injective(a.drop_last(), b.drop_last());
        assert(concat_keys(a).subrange(pa.len() as int, n as int) == a.last()@);
        assert(concat_keys(b).subrange(pb.len() as int, n as int) == b.last()@);
        assert(a.last() =~= b.last());
        assert(a == a.drop_last().push(a.last()));
        assert(b == b.drop_last().push(b.last()));
    } else {
        assert(a =~= b);
    }
}

/// The byte string of a handle list has 32 bytes per handle.
pub proof fn lemma_concat_keys_len(keys: Seq<Address>)
    ensures
        concat_keys(keys).len() == 32 * keys.len(),
    decreases keys.len(),
{
    broadcast use vstd::array::group_array_axioms;
    if keys.len() > 0 {
        lemma_concat_keys_len(keys.drop_last());
    }
}

/// A job whose references are acceptable is refused with `CidSetMismatch`
/// exactly when its declared set id is not the digest of the references in
/// the order submitted; so a set id declared for one order is refused for
/// any order whose digest differs.
pub proof fn declared_set_id_binds_the_order(
    l: LedgerView,
    submitter: Address,
    batch: Address,
    cid_set_id: Address,
    commitment: Address,
    ir_digest: Address,
    policy_hash: Address,
    provenance: Provenance,
    refs: Seq<Address>,
    now: u64,
)
    requires
        l.valid(),
        l.config is Some,
        0 < refs.len() <= MAX_CIDS,
        l.all_registered(refs),
    ensures
        (l.submit_job(submitter, batch, cid_set_id, commitment, ir_digest, policy_hash, provenance, refs, now)
            == Err::<LedgerView, ErrorCode>(ErrorCode::CidSetMismatch)) <==> cid_set_digest(refs) != cid_set_id,
{
}

/// A second job under the same commitment and submitter is refused,
/// with `DuplicateCommitment` where its other checks pass, and the ledger
/// keeps the first job.
pub proof fn duplicate_commitment_is_refused(
    l: LedgerView,
    submitter: Address,
    commitment: Address,
    batch: Address,
    cid_set_id: Address,
    ir_digest: Address,
    policy_hash: Address,
    provenance: Provenance,
    refs: Seq<Address>,
    now: u64,
    batch2: Address,
    cid_set_id2: Address,
    ir_digest2: Address,
    policy_hash2: Address,
    provenance2: Provenance,
    refs2: Seq<Address>,
    now2: u64,
)
    requires
        l.valid(),
        l.submit_job(submitter, batch, cid_set_id, commitment, ir_digest, policy_hash, provenance, refs, now) is Ok,
    ensures
        ({
            let a = job_address_of(commitment, submitter);
            let l1 = l.submit_job(submitter, batch, cid_set_id, commitment, ir_digest, policy_hash, provenance, refs, now)->Ok_0;
            let second = l1.submit_job(
                submitter, batch2, cid_set_id2, commitment, ir_digest2, policy_hash2, provenance2, refs2, now2,
            );
            &&& second is Err
            &&& l1.jobs.contains_key(a)
            &&& l1.jobs[a].batch == batch
            &&& l1.jobs[a].cid_set_id == cid_set_id
            &&& l1.jobs[a].submitted_slot == now
            &&& (0 < refs2.len() <= MAX_CIDS && l1.all_registered(refs2) && cid_set_digest(refs2) == cid_set_id2)
                ==> second == Err::<LedgerView, ErrorCode>(ErrorCode::DuplicateCommitment)
        }),
{
}

/// A posted batch is refused with `WindowNotEnded` before its posting tick
/// plus the challenge window, and finalized at or after it. Where that sum
/// does not fit in a tick the refusal is `MathOverflow` instead, so such
/// postings are left out here.
pub proof fn finalize_waits_for_the_window(l: LedgerView, window_start_slot: u64, now: u64)
    requires
        l.valid(),
        l.config is Some,
        l.batches.contains_key(window_start_slot),
        l.batches[window_start_slot].status == BatchStatus::Posted,
        window_end(
            l.batches[window_start_slot].posted_slot->Some_0,
            l.config->Some_0.challenge_window_slots,
        ) is Some,
    ensures
        ({
            let end = window_end(
                l.batches[window_start_slot].posted_slot->Some_0,
                l.config->Some_0.challenge_window_slots,
            )->Some_0;
            let r = l.finalize_batch(window_start_slot, now);
            &&& now < end ==> r == Err::<LedgerView, ErrorCode>(ErrorCode::WindowNotEnded)
            &&& now >= end ==> (r matches Ok(next) && next.batches[window_start_slot].status == BatchStatus::Finalized)
        }),
{
}

/// Once a batch is finalized, finalizing it again and posting to its
/// window are both refused with `BadStatus`.
pub proof fn finalized_batch_is_terminal(
    l: LedgerView,
    window_start_slot: u64,
    now: u64,
    later: u64,
    commit_root: Address,
    result_commitment: Address,
    processed_until_slot: u64,
)
    requires
        l.valid(),
        l.finalize_batch(window_start_slot, now) is Ok,
    ensures
        ({
            let l1 = l.finalize_batch(window_start_slot, now)->Ok_0;
            &&& l1.finalize_batch(window_start_slot, later) == Err::<LedgerView, ErrorCode>(ErrorCode::BadStatus)
            &&& l1.commit_batch(window_start_slot, commit_root, result_commitment, processed_until_slot, later)
                == Err::<LedgerView, ErrorCode>(ErrorCode::BadStatus)
        }),
{
}

/// A valid ledger holds at most one handle per triple: two handles with the
/// same ciphertext digest, policy digest and owner sit at the same address.
pub proof fn one_handle_per_triple(l: LedgerView, a: Address, b: Address)
    requires
        l.valid(),
        l.handles.contains_key(a),
        l.handles.contains_key(b),
        l.handles[a].ciphertext_hash == l.handles[b].ciphertext_hash,
        l.handles[a].policy_hash == l.handles[b].policy_hash,
        l.handles[a].owner == l.handles[b].owner,
    ensures
        a == b,
{
}

} // verus!
