use vstd::prelude::*;
use crate::ledger::Pubkey;

verus! {

/// The SHA-256 digest of `data`: 32 bytes.
pub uninterp spec fn sha256(data: Seq<u8>) -> Seq<u8>;

/// The SHA-256 digest of `data`, computed by `Sha256::new`, `update` and
/// `finalize` of the `sha2` crate. The contract names the digest: it is a
/// function of the bytes alone.
#[verifier::external_body]
pub fn hash_bytes(data: &[u8]) -> (digest: [u8; 32])
    ensures
        digest@ == sha256(data@),
{
    let mut hasher = <sha2::Sha256 as sha2::Digest>::new();
    sha2::Digest::update(&mut hasher, data);
    let result = sha2::Digest::finalize(hasher);
    let mut out = [0u8; 32];
    out.copy_from_slice(&result[..32]);
    out
}

/// Appends the bytes of `src` to `dst`.
pub fn append_bytes(dst: &mut Vec<u8>, src: &[u8])
    ensures
        final(dst)@ == old(dst)@ + src@,
{
    let mut i: usize = 0;
    while i < src.len()
        invariant
            i <= src@.len(),
            dst@ == old(dst)@ + src@.take(i as int),
        decreases src@.len() - i,
    {
        dst.push(src[i]);
        assert(src@.take(i as int + 1) == src@.take(i as int).push(src@[i as int]));
        i = i + 1;
    }
    assert(src@.take(i as int) == src@);
}

/// The byte that stands for a vote: 1 for the provider, 0 for the client.
pub open spec fn spec_vote_byte(vote: bool) -> u8 {
    if vote {
        1u8
    } else {
        0u8
    }
}

/// The bytes that a vote commitment hashes: the arbiter, the dispute, the
/// vote's byte, then the salt.
pub open spec fn spec_vote_preimage(
    arbiter: Seq<u8>,
    dispute: Seq<u8>,
    vote: bool,
    salt: Seq<u8>,
) -> Seq<u8> {
    arbiter + dispute + seq![spec_vote_byte(vote)] + salt
}

/// The commitment to a vote.
pub open spec fn spec_hash_vote(
    arbiter: Seq<u8>,
    dispute: Seq<u8>,
    vote: bool,
    salt: Seq<u8>,
) -> Seq<u8> {
    sha256(spec_vote_preimage(arbiter, dispute, vote, salt))
}

/// The bytes that a vote commitment hashes.
pub fn vote_preimage(arbiter: &Pubkey, dispute: &Pubkey, vote: bool, salt: &[u8]) -> (data: Vec<
    u8,
>)
    ensures
        data@ == spec_vote_preimage(arbiter@, dispute@, vote, salt@),
        data@.len() == 65 + salt@.len(),
{
    let mut data: Vec<u8> = Vec::new();
    append_bytes(&mut data, arbiter.bytes.as_slice());
    append_bytes(&mut data, dispute.bytes.as_slice());
    data.push(if vote { 1u8 } else { 0u8 });
    append_bytes(&mut data, salt);
    data
}

/// The commitment that binds `arbiter` to `vote` in `dispute` under `salt`:
/// the digest of the four laid end to end.
pub fn hash_vote(arbiter: &Pubkey, dispute: &Pubkey, vote: bool, salt: &[u8]) -> (digest: [u8; 32])
    ensures
        digest@ == spec_hash_vote(arbiter@, dispute@, vote, salt@),
{
    let data = vote_preimage(arbiter, dispute, vote, salt);
    hash_bytes(data.as_slice())
}

} // verus!
