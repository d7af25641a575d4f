//! SHA-256 digests and the byte strings that the ledger hashes.

use vstd::prelude::*;
use sha2::Digest;

verus! {

/// A 32-byte identity: a record address, a content digest or an account key.
pub type Address = [u8; 32];

/// The SHA-256 digest of a byte string.
pub uninterp spec fn sha256_of(data: Seq<u8>) -> [u8; 32];

/// Relies on `sha2::Sha256::digest` (the `Digest` trait that sha2 re-exports):
/// the 32-byte SHA-256 digest of the bytes given,
/// which depends on those bytes alone.
#[verifier::external_body]
fn sha256(data: &[u8]) -> (r: [u8; 32])
    ensures
        r == sha256_of(data@),
{
    sha2::Sha256::digest(data).into()
}

/// Appends `bytes` to the end of `buf`.
pub fn append_bytes(buf: &mut Vec<u8>, bytes: &[u8])
    ensures
        final(buf)@ == old(buf)@ + bytes@,
{
    let mut i: usize = 0;
    while i < bytes.len()
        invariant
            i <= bytes@.len(),
            buf@ == old(buf)@ + bytes@.take(i as int),
        decreases bytes@.len() - i,
    {
        buf.push(bytes[i]);
        i = i + 1;
        assert(bytes@.take(i as int) == bytes@.take(i - 1) + seq![bytes@[i - 1]]);
    }
    assert(bytes@.take(i as int) == bytes@);
}

/// The bytes hashed into a CID handle's address: the ASCII tag `cid`, then the
/// ciphertext digest, the policy digest and the owner's key.
pub open spec fn cid_seed(ciphertext_hash: Address, policy_hash: Address, owner: Address) -> Seq<u8> {
    seq![0x63u8, 0x69, 0x64] + ciphertext_hash@ + policy_hash@ + owner@
}

/// The bytes hashed into a job's address: the ASCII tag `job`, then the
/// commitment and the submitter's key.
pub open spec fn job_seed(commitment: Address, submitter: Address) -> Seq<u8> {
    seq![0x6au8, 0x6f, 0x62] + commitment@ + submitter@
}

/// The identities of a handle list written one after another, in list order.
pub open spec fn concat_keys(keys: Seq<Address>) -> Seq<u8>
    decreases keys.len(),
{
    if keys.len() == 0 {
        Seq::empty()
    } else {
        concat_keys(keys.drop_last()) + keys.last()@
    }
}

/// The address of the CID handle registered for a triple.
pub open spec fn cid_address_of(ciphertext_hash: Address, policy_hash: Address, owner: Address) -> Address {
    sha256_of(cid_seed(ciphertext_hash, policy_hash, owner))
}

/// The address of the job that `submitter` files under `commitment`.
pub open spec fn job_address_of(commitment: Address, submitter: Address) -> Address {
    sha256_of(job_seed(commitment, submitter))
}

/// The set id that binds a handle list, in the order given.
pub open spec fn cid_set_digest(keys: Seq<Address>) -> Address {
    sha256_of(concat_keys(keys))
}

/// Builds the bytes hashed into a CID handle's address.
pub fn cid_address_seed(ciphertext_hash: &Address, policy_hash: &Address, owner: &Address) -> (r: Vec<u8>)
    ensures
        r@ == cid_seed(*ciphertext_hash, *policy_hash, *owner),
{
    let mut buf: Vec<u8> = Vec::new();
    buf.push(0x63);
    buf.push(0x69);
    buf.push(0x64);
    append_bytes(&mut buf, ciphertext_hash.as_slice());
    append_bytes(&mut buf, policy_hash.as_slice());
    append_bytes(&mut buf, owner.as_slice());
    assert(buf@ == cid_seed(*ciphertext_hash, *policy_hash, *owner));
    buf
}

/// Builds the bytes hashed into a job's address.
pub fn job_address_seed(commitment: &Address, submitter: &Address) -> (r: Vec<u8>)
    ensures
        r@ == job_seed(*commitment, *submitter),
{
    let mut buf: Vec<u8> = Vec::new();
    buf.push(0x6a);
    buf.push(0x6f);
    buf.push(0x62);
    append_bytes(&mut buf, commitment.as_slice());
    append_bytes(&mut buf, submitter.as_slice());
    assert(buf@ == job_seed(*commitment, *submitter));
    buf
}

/// Writes the identities of `keys` one after another, in list order.
pub fn cid_set_preimage(keys: &Vec<Address>) -> (r: Vec<u8>)
    ensures
        r@ == concat_keys(keys@),
{
    let mut buf: Vec<u8> = Vec::new();
    let mut i: usize = 0;
    while i < keys.len()
        invariant
            i <= keys@.len(),
            buf@ == concat_keys(keys@.take(i as int)),
        decreases keys@.len() - i,
    {
        append_bytes(&mut buf, keys[i].as_slice());
        i = i + 1;
        assert(keys@.take(i as int).drop_last() == keys@.take(i - 1));
    }
    assert(keys@.take(i as int) == keys@);
    buf
}

/// The address of the CID handle for a triple; equal triples give equal
/// addresses, so callers can predict it before registering.
pub fn cid_address(ciphertext_hash: &Address, policy_hash: &Address, owner: &Address) -> (r: Address)
    ensures
        r == cid_address_of(*ciphertext_hash, *policy_hash, *owner),
{
    let seed = cid_address_seed(ciphertext_hash, policy_hash, owner);
    sha256(seed.as_slice())
}

/// The address of the job that `submitter` files under `commitment`.
pub fn job_address(commitment: &Address, submitter: &Address) -> (r: Address)
    ensures
        r == job_address_of(*commitment, *submitter),
{
    let seed = job_address_seed(commitment, submitter);
    sha256(seed.as_slice())
}

/// The set id of a handle list: the digest of its identities in list order.
pub fn cid_set_id(keys: &Vec<Address>) -> (r: Address)
    ensures
        r == cid_set_digest(keys@),
{
    let pre = cid_set_preimage(keys);
    sha256(pre.as_slice())
}

} // verus!
