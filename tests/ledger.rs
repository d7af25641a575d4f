use lattica_gatekeeper::digest::{cid_address, cid_address_seed, cid_set_id, cid_set_preimage, job_address, Address};
use lattica_gatekeeper::ledger::Ledger;
use lattica_gatekeeper::types::{BatchStatus, ErrorCode, Provenance, MAX_CIDS};
use sha2::{Digest, Sha256};

const AUTHORITY: Address = [1u8; 32];
const OWNER: Address = [2u8; 32];
const SUBMITTER: Address = [3u8; 32];
const BATCH: Address = [4u8; 32];
const IR: Address = [5u8; 32];
const POLICY: Address = [6u8; 32];
const COMMITMENT: Address = [7u8; 32];

fn sha(bytes: &[u8]) -> Address {
    Sha256::digest(bytes).into()
}

fn ledger_with_config(window: u64) -> Ledger {
    let mut l = Ledger::new();
    assert_eq!(l.init_config(AUTHORITY, window), Ok(()));
    l
}

fn data_hash(i: u8) -> Address {
    let mut h = [0u8; 32];
    h[0] = i;
    h[31] = 0xee;
    h
}

/// Registers one handle per index and returns their addresses.
fn register_handles(l: &mut Ledger, n: u8) -> Vec<Address> {
    let mut out = Vec::new();
    for i in 0..n {
        let ev = l.register_cid_handle(data_hash(i), POLICY, OWNER, 1).unwrap();
        out.push(ev.cid);
    }
    out
}

fn concat(keys: &[Address]) -> Vec<u8> {
    let mut v = Vec::new();
    for k in keys {
        v.extend_from_slice(k);
    }
    v
}

#[test]
fn init_config_stores_authority_and_window() {
    let l = ledger_with_config(100);
    let cfg = l.config().unwrap();
    assert_eq!(cfg.authority, AUTHORITY);
    assert_eq!(cfg.challenge_window_slots, 100);
}

#[test]
fn init_config_twice_is_refused() {
    let mut l = ledger_with_config(100);
    assert_eq!(l.init_config(OWNER, 7), Err(ErrorCode::AlreadyInitialized));
    assert_eq!(l.config().unwrap().challenge_window_slots, 100);
    assert_eq!(l.config().unwrap().authority, AUTHORITY);
}

#[test]
fn empty_ledger_has_nothing() {
    let l = Ledger::new();
    assert!(l.config().is_none());
    assert!(l.cid_handle(&[0u8; 32]).is_none());
    assert!(l.job(&[0u8; 32]).is_none());
    assert!(l.batch(0).is_none());
    assert!(l.reveal_request(&[0u8; 32]).is_none());
}

#[test]
fn cid_address_is_sha256_of_tagged_triple() {
    let ch = data_hash(9);
    let mut seed = b"cid".to_vec();
    seed.extend_from_slice(&ch);
    seed.extend_from_slice(&POLICY);
    seed.extend_from_slice(&OWNER);
    assert_eq!(cid_address_seed(&ch, &POLICY, &OWNER), seed);
    assert_eq!(cid_address(&ch, &POLICY, &OWNER), sha(&seed));
    assert_ne!(cid_address(&ch, &POLICY, &OWNER), cid_address(&ch, &POLICY, &SUBMITTER));
}

#[test]
fn job_address_is_sha256_of_tagged_pair() {
    let mut seed = b"job".to_vec();
    seed.extend_from_slice(&COMMITMENT);
    seed.extend_from_slice(&SUBMITTER);
    assert_eq!(job_address(&COMMITMENT, &SUBMITTER), sha(&seed));
}

#[test]
fn cid_set_id_of_no_handles_is_digest_of_nothing() {
    let expected: Address = [
        0xe3, 0xb0, 0xc4, 0x42, 0x98, 0xfc, 0x1c, 0x14, 0x9a, 0xfb, 0xf4, 0xc8, 0x99, 0x6f, 0xb9, 0x24,
        0x27, 0xae, 0x41, 0xe4, 0x64, 0x9b, 0x93, 0x4c, 0xa4, 0x95, 0x99, 0x1b, 0x78, 0x52, 0xb8, 0x55,
    ];
    assert_eq!(cid_set_id(&Vec::new()), expected);
}

#[test]
fn cid_set_id_hashes_handles_in_order() {
    let h1 = data_hash(1);
    let h2 = data_hash(2);
    assert_eq!(cid_set_preimage(&vec![h1, h2]), concat(&[h1, h2]));
    assert_eq!(cid_set_id(&vec![h1]), sha(&h1));
    assert_eq!(cid_set_id(&vec![h1, h2]), sha(&concat(&[h1, h2])));
}

#[test]
fn register_creates_handle_at_its_address() {
    let mut l = Ledger::new();
    let ch = data_hash(3);
    let ev = l.register_cid_handle(ch, POLICY, OWNER, 42).unwrap();
    assert_eq!(ev.cid, cid_address(&ch, &POLICY, &OWNER));
    assert_eq!(ev.owner, OWNER);
    assert_eq!(ev.ciphertext_hash, ch);
    assert_eq!(ev.policy_hash, POLICY);
    assert_eq!(ev.slot, 42);
    let h = l.cid_handle(&ev.cid).unwrap();
    assert_eq!(h.ciphertext_hash, ch);
    assert_eq!(h.policy_hash, POLICY);
    assert_eq!(h.owner, OWNER);
    assert_eq!(h.registered_at, 42);
}

#[test]
fn registering_twice_yields_already_registered_at_same_address() {
    let mut l = Ledger::new();
    let ch = data_hash(4);
    let predicted = cid_address(&ch, &POLICY, &OWNER);
    let first = l.register_cid_handle(ch, POLICY, OWNER, 1).unwrap();
    assert_eq!(first.cid, predicted);
    assert_eq!(cid_address(&ch, &POLICY, &OWNER), predicted);
    assert_eq!(l.register_cid_handle(ch, POLICY, OWNER, 9), Err(ErrorCode::AlreadyRegistered));
    assert_eq!(l.cid_handle(&predicted).unwrap().registered_at, 1);
}

#[test]
fn same_data_for_another_owner_is_another_handle() {
    let mut l = Ledger::new();
    let ch = data_hash(4);
    let a = l.register_cid_handle(ch, POLICY, OWNER, 1).unwrap();
    let b = l.register_cid_handle(ch, POLICY, SUBMITTER, 1).unwrap();
    assert_ne!(a.cid, b.cid);
}

#[test]
fn submit_job_records_compact_job_and_emits_full_list() {
    let mut l = ledger_with_config(100);
    let refs = register_handles(&mut l, 3);
    let id = cid_set_id(&refs);
    let ev = l
        .submit_job(SUBMITTER, BATCH, id, COMMITMENT, IR, POLICY, Provenance::Direct, refs.clone(), 8)
        .unwrap();
    assert_eq!(ev.job, job_address(&COMMITMENT, &SUBMITTER));
    assert_eq!(ev.cid_handles, refs);
    assert_eq!(ev.cid_set_id, id);
    assert_eq!(ev.batch, BATCH);
    assert_eq!(ev.provenance, Provenance::Direct);
    assert_eq!(ev.submitter, SUBMITTER);
    assert_eq!(ev.slot, 8);
    let job = l.job(&ev.job).unwrap();
    assert_eq!(job.cid_count, 3);
    assert_eq!(job.cid_set_id, id);
    assert_eq!(job.commitment, COMMITMENT);
    assert_eq!(job.ir_digest, IR);
    assert_eq!(job.policy_hash, POLICY);
    assert_eq!(job.submitted_slot, 8);
}

#[test]
fn submit_job_without_config_is_refused() {
    let mut l = Ledger::new();
    let refs = register_handles(&mut l, 1);
    let id = cid_set_id(&refs);
    let r = l.submit_job(SUBMITTER, BATCH, id, COMMITMENT, IR, POLICY, Provenance::Direct, refs, 2);
    assert_eq!(r, Err(ErrorCode::NotInitialized));
}

#[test]
fn seventeen_references_are_too_many() {
    let mut l = ledger_with_config(100);
    let refs = register_handles(&mut l, 17);
    assert_eq!(refs.len(), MAX_CIDS + 1);
    let id = cid_set_id(&refs);
    let r = l.submit_job(SUBMITTER, BATCH, id, COMMITMENT, IR, POLICY, Provenance::Direct, refs, 2);
    assert_eq!(r, Err(ErrorCode::TooManyCids));
    assert!(l.job(&job_address(&COMMITMENT, &SUBMITTER)).is_none());
}

#[test]
fn sixteen_references_are_accepted() {
    let mut l = ledger_with_config(100);
    let refs = register_handles(&mut l, 16);
    let id = cid_set_id(&refs);
    let ev = l.submit_job(SUBMITTER, BATCH, id, COMMITMENT, IR, POLICY, Provenance::Direct, refs, 2).unwrap();
    assert_eq!(l.job(&ev.job).unwrap().cid_count, 16);
}

#[test]
fn zero_references_are_refused() {
    let mut l = ledger_with_config(100);
    let id = cid_set_id(&Vec::new());
    let r = l.submit_job(SUBMITTER, BATCH, id, COMMITMENT, IR, POLICY, Provenance::Direct, Vec::new(), 2);
    assert_eq!(r, Err(ErrorCode::NoCidProvided));
}

#[test]
fn unregistered_reference_is_bad_cid_owner() {
    let mut l = ledger_with_config(100);
    let mut refs = register_handles(&mut l, 2);
    refs.push([0xabu8; 32]);
    let id = cid_set_id(&refs);
    let r = l.submit_job(SUBMITTER, BATCH, id, COMMITMENT, IR, POLICY, Provenance::Direct, refs, 2);
    assert_eq!(r, Err(ErrorCode::BadCidOwner));
}

#[test]
fn permuted_references_give_another_set_id_and_mismatch() {
    let mut l = ledger_with_config(100);
    let refs = register_handles(&mut l, 2);
    let swapped = vec![refs[1], refs[0]];
    let id = cid_set_id(&refs);
    assert_ne!(id, cid_set_id(&swapped));
    let r = l.submit_job(SUBMITTER, BATCH, id, COMMITMENT, IR, POLICY, Provenance::Direct, swapped.clone(), 2);
    assert_eq!(r, Err(ErrorCode::CidSetMismatch));
    let ev = l
        .submit_job(SUBMITTER, BATCH, cid_set_id(&swapped), COMMITMENT, IR, POLICY, Provenance::Direct, swapped, 2)
        .unwrap();
    assert_eq!(ev.cid_handles, vec![refs[1], refs[0]]);
}

#[test]
fn duplicate_commitment_keeps_first_job() {
    let mut l = ledger_with_config(100);
    let refs = register_handles(&mut l, 2);
    let id = cid_set_id(&refs);
    let first = l
        .submit_job(SUBMITTER, BATCH, id, COMMITMENT, IR, POLICY, Provenance::Direct, refs.clone(), 3)
        .unwrap();
    let r = l.submit_job(SUBMITTER, [9u8; 32], id, COMMITMENT, IR, POLICY, Provenance::Intermediary, refs.clone(), 4);
    assert_eq!(r, Err(ErrorCode::DuplicateCommitment));
    let job = l.job(&first.job).unwrap();
    assert_eq!(job.batch, BATCH);
    assert_eq!(job.provenance, Provenance::Direct);
    assert_eq!(job.submitted_slot, 3);
    let other = l.submit_job(OWNER, BATCH, id, COMMITMENT, IR, POLICY, Provenance::Direct, refs, 5).unwrap();
    assert_ne!(other.job, first.job);
}

#[test]
fn commit_batch_without_config_is_refused() {
    let mut l = Ledger::new();
    assert_eq!(l.commit_batch(0, [1u8; 32], [2u8; 32], 0, 1), Err(ErrorCode::NotInitialized));
    assert_eq!(l.finalize_batch(0, 1), Err(ErrorCode::NotInitialized));
}

#[test]
fn commit_batch_posts_and_reports_window_end() {
    let mut l = ledger_with_config(100);
    let ev = l.commit_batch(10, [1u8; 32], [2u8; 32], 9, 5).unwrap();
    assert_eq!(ev.window_start_slot, 10);
    assert_eq!(ev.posted_slot, 5);
    assert_eq!(ev.window_end_slot, 105);
    let b = l.batch(10).unwrap();
    assert_eq!(b.status, BatchStatus::Posted);
    assert_eq!(b.posted_slot, Some(5));
    assert_eq!(b.commit_root, [1u8; 32]);
    assert_eq!(b.result_commitment, [2u8; 32]);
    assert_eq!(b.processed_until_slot, 9);
}

#[test]
fn window_end_falls_back_to_posting_tick_on_overflow() {
    let mut l = ledger_with_config(100);
    let now = u64::MAX - 1;
    let ev = l.commit_batch(1, [1u8; 32], [2u8; 32], 0, now).unwrap();
    assert_eq!(ev.window_end_slot, now);
    assert_eq!(l.finalize_batch(1, u64::MAX), Err(ErrorCode::MathOverflow));
    assert_eq!(l.batch(1).unwrap().status, BatchStatus::Posted);
}

#[test]
fn reposting_overwrites_and_restarts_window() {
    let mut l = ledger_with_config(100);
    l.commit_batch(0, [1u8; 32], [2u8; 32], 3, 5).unwrap();
    l.commit_batch(0, [3u8; 32], [4u8; 32], 7, 60).unwrap();
    let b = l.batch(0).unwrap();
    assert_eq!(b.commit_root, [3u8; 32]);
    assert_eq!(b.result_commitment, [4u8; 32]);
    assert_eq!(b.processed_until_slot, 7);
    assert_eq!(b.posted_slot, Some(60));
    assert_eq!(l.finalize_batch(0, 105), Err(ErrorCode::WindowNotEnded));
    assert!(l.finalize_batch(0, 160).is_ok());
}

#[test]
fn finalize_unknown_batch_is_bad_status() {
    let mut l = ledger_with_config(100);
    assert_eq!(l.finalize_batch(3, 1000), Err(ErrorCode::BadStatus));
}

#[test]
fn finalize_waits_for_window_and_happens_once() {
    let mut l = ledger_with_config(10);
    l.commit_batch(7, [1u8; 32], [2u8; 32], 0, 20).unwrap();
    assert_eq!(l.finalize_batch(7, 29), Err(ErrorCode::WindowNotEnded));
    let ev = l.finalize_batch(7, 30).unwrap();
    assert_eq!(ev.window_start_slot, 7);
    assert_eq!(ev.result_commitment, [2u8; 32]);
    assert_eq!(ev.finalized_slot, 30);
    assert_eq!(l.batch(7).unwrap().status, BatchStatus::Finalized);
    assert_eq!(l.finalize_batch(7, 31), Err(ErrorCode::BadStatus));
    assert_eq!(l.commit_batch(7, [5u8; 32], [6u8; 32], 1, 40), Err(ErrorCode::BadStatus));
    let b = l.batch(7).unwrap();
    assert_eq!(b.commit_root, [1u8; 32]);
    assert_eq!(b.status, BatchStatus::Finalized);
}

#[test]
fn zero_window_finalizes_at_posting_tick() {
    let mut l = ledger_with_config(0);
    l.commit_batch(2, [1u8; 32], [2u8; 32], 0, 20).unwrap();
    assert!(l.finalize_batch(2, 20).is_ok());
}

#[test]
fn public_reveal_request_is_recorded_and_overwritten() {
    let mut l = Ledger::new();
    let handle = [8u8; 32];
    let ev = l.request_reveal_public(OWNER, handle, [1u8; 64], 3).unwrap();
    assert!(ev.is_public);
    assert_eq!(ev.domain_signature, Some([1u8; 64]));
    assert_eq!(ev.user_session_pubkey, None);
    l.request_reveal_public(SUBMITTER, handle, [2u8; 64], 4).unwrap();
    let req = l.reveal_request(&handle).unwrap();
    assert!(req.is_public);
    assert_eq!(req.handle, handle);
    assert_eq!(req.requester, SUBMITTER);
    assert_eq!(req.domain_signature, Some([2u8; 64]));
    assert_eq!(req.user_session_pubkey, None);
    assert_eq!(req.requested_slot, 4);
}

#[test]
fn private_reveal_request_is_recorded() {
    let mut l = Ledger::new();
    let handle = [8u8; 32];
    let ev = l.request_reveal_private(OWNER, handle, [5u8; 32], 3).unwrap();
    assert!(!ev.is_public);
    assert_eq!(ev.user_session_pubkey, Some([5u8; 32]));
    assert_eq!(ev.domain_signature, None);
    let req = l.reveal_request(&handle).unwrap();
    assert!(!req.is_public);
    assert_eq!(req.user_session_pubkey, Some([5u8; 32]));
    assert_eq!(req.requested_slot, 3);
}

#[test]
fn reveal_kind_cannot_switch() {
    let mut l = Ledger::new();
    let a = [8u8; 32];
    let b = [9u8; 32];
    l.request_reveal_public(OWNER, a, [1u8; 64], 3).unwrap();
    assert_eq!(l.request_reveal_private(OWNER, a, [5u8; 32], 4), Err(ErrorCode::KindMismatch));
    l.request_reveal_private(OWNER, b, [5u8; 32], 3).unwrap();
    assert_eq!(l.request_reveal_public(OWNER, b, [1u8; 64], 4), Err(ErrorCode::KindMismatch));
    assert_eq!(l.reveal_request(&a).unwrap().requested_slot, 3);
    assert!(!l.reveal_request(&b).unwrap().is_public);
}

#[test]
fn end_to_end_job_and_batch_lifecycle() {
    let mut l = Ledger::new();
    assert_eq!(l.init_config(AUTHORITY, 100), Ok(()));
    let h1 = l.register_cid_handle(data_hash(1), POLICY, OWNER, 1).unwrap().cid;
    let id = sha(&h1);
    let ev = l
        .submit_job(SUBMITTER, BATCH, id, COMMITMENT, IR, POLICY, Provenance::Intermediary, vec![h1], 2)
        .unwrap();
    assert_eq!(ev.cid_handles, vec![h1]);
    assert_eq!(ev.slot, 2);
    let posted = l.commit_batch(0, [0x52u8; 32], [0x43u8; 32], 2, 5).unwrap();
    assert_eq!(posted.posted_slot, 5);
    let b = l.batch(0).unwrap();
    assert_eq!(b.status, BatchStatus::Posted);
    assert_eq!(b.posted_slot, Some(5));
    assert_eq!(l.finalize_batch(0, 50), Err(ErrorCode::WindowNotEnded));
    let fin = l.finalize_batch(0, 105).unwrap();
    assert_eq!(fin.window_start_slot, 0);
    assert_eq!(fin.finalized_slot, 105);
    assert_eq!(fin.result_commitment, [0x43u8; 32]);
    assert_eq!(l.batch(0).unwrap().status, BatchStatus::Finalized);
}
