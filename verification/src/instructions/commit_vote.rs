use vstd::prelude::*;
use crate::ledger::Pubkey;
use crate::state::arbiter::Arbiter;
use crate::state::dispute::{Dispute, DisputeStatus, VoteCommitment};
use crate::utils::errors::TrustNetError;

verus! {

/// What a vote commitment works on: the authority who signs for the arbiter,
/// the arbiter with its address, the dispute with its address, the bump of the
/// commitment's record, and the commitment of this arbiter in this dispute:
/// none before the arbiter has committed.
#[derive(Clone, Debug, PartialEq, Eq)]
pub struct CommitVote {
    pub arbiter_authority: Pubkey,
    pub arbiter_key: Pubkey,
    pub arbiter: Arbiter,
    pub dispute_key: Pubkey,
    pub dispute: Dispute,
    pub vote_bump: u8,
    pub vote_commitment: Option<VoteCommitment>,
}

/// Whether `key` is among `keys`.
pub open spec fn spec_contains_key(keys: Seq<Pubkey>, key: Pubkey) -> bool {
    exists|i: int| 0 <= i < keys.len() && (#[trigger] keys[i])@ == key@
}

/// Whether `key` is among `keys`.
pub fn contains_key(keys: &Vec<Pubkey>, key: &Pubkey) -> (found: bool)
    ensures
        found == spec_contains_key(keys@, *key),
{
    let mut i: usize = 0;
    while i < keys.len()
        invariant
            i <= keys@.len(),
            forall|j: int| 0 <= j < i ==> (#[trigger] keys@[j])@ != key@,
        decreases keys@.len() - i,
    {
        if keys[i] == *key {
            return true;
        }
        i = i + 1;
    }
    false
}

/// No key occurs twice in `keys`.
pub open spec fn spec_distinct_keys(keys: Seq<Pubkey>) -> bool {
    forall|i: int, j: int|
        0 <= i < j < keys.len() ==> (#[trigger] keys[i])@ != (#[trigger] keys[j])@
}

/// Why a commitment is refused, if it is: the first of these that holds. An
/// arbiter commits once in a dispute: where its commitment is recorded
/// already, the hash stands and a second one is refused.
pub open spec fn spec_commit_error(ctx: CommitVote) -> Option<TrustNetError> {
    if ctx.arbiter.authority@ != ctx.arbiter_authority@ {
        Some(TrustNetError::Unauthorized)
    } else if ctx.dispute.status != DisputeStatus::CommitPhase {
        Some(TrustNetError::InvalidDisputeState)
    } else if ctx.vote_commitment is Some {
        Some(TrustNetError::InvalidDisputeState)
    } else {
        None
    }
}

/// The commitment as it is recorded: not revealed, with no vote.
pub open spec fn spec_new_commitment(ctx: CommitVote, vote_hash: [u8; 32]) -> VoteCommitment {
    VoteCommitment {
        dispute: ctx.dispute_key,
        arbiter: ctx.arbiter_key,
        commit_hash: vote_hash,
        revealed: false,
        vote: None,
        bump: ctx.vote_bump,
    }
}

/// The arbiters of a dispute once `key` has committed: as before where the
/// key was among them, with the key at the end where it was not.
pub open spec fn spec_selected_after(keys: Seq<Pubkey>, key: Pubkey) -> Seq<Pubkey> {
    if spec_contains_key(keys, key) {
        keys
    } else {
        keys.push(key)
    }
}

/// `after` is `before` but for the arbiters selected.
pub open spec fn spec_same_but_selected(before: Dispute, after: Dispute) -> bool {
    &&& after.job == before.job
    &&& after.client == before.client
    &&& after.provider == before.provider
    &&& after.reason_hash == before.reason_hash
    &&& after.evidence_hash == before.evidence_hash
    &&& after.status == before.status
    &&& after.commit_deadline == before.commit_deadline
    &&& after.reveal_deadline == before.reveal_deadline
    &&& after.client_weight == before.client_weight
    &&& after.provider_weight == before.provider_weight
    &&& after.resolved_in_favor_of_client == before.resolved_in_favor_of_client
    &&& after.bump == before.bump
}

/// What a commitment returns and leaves: the commitment recorded, the
/// arbiter among those selected for the dispute, and all else as it was.
pub open spec fn spec_commit_outcome(
    before: CommitVote,
    after: CommitVote,
    done: Result<(), TrustNetError>,
    vote_hash: [u8; 32],
) -> bool {
    match done {
        Ok(_) => {
            &&& spec_commit_error(before) is None
            &&& after.vote_commitment == Some(spec_new_commitment(before, vote_hash))
            &&& after.dispute.selected_arbiters@ == spec_selected_after(
                before.dispute.selected_arbiters@,
                before.arbiter_key,
            )
            &&& spec_same_but_selected(before.dispute, after.dispute)
            &&& after.arbiter_authority == before.arbiter_authority
            &&& after.arbiter_key == before.arbiter_key
            &&& after.arbiter == before.arbiter
            &&& after.dispute_key == before.dispute_key
            &&& after.vote_bump == before.vote_bump
        },
        Err(e) => spec_commit_error(before) == Some(e) && after == before,
    }
}

/// Records the commitment of an arbiter to a hidden vote while the dispute is
/// in its commit phase, and adds the arbiter to those selected for the dispute
/// unless it is among them already: no arbiter is selected twice.
pub fn handler(ctx: &mut CommitVote, vote_hash: [u8; 32]) -> (done: Result<(), TrustNetError>)
    ensures
        spec_commit_outcome(*old(ctx), *final(ctx), done, vote_hash),
        done is Ok && spec_distinct_keys(old(ctx).dispute.selected_arbiters@)
            ==> spec_distinct_keys(final(ctx).dispute.selected_arbiters@),
{
    if ctx.arbiter.authority != ctx.arbiter_authority {
        return Err(TrustNetError::Unauthorized);
    }
    if ctx.dispute.status != DisputeStatus::CommitPhase {
        return Err(TrustNetError::InvalidDisputeState);
    }
    if ctx.vote_commitment.is_some() {
        return Err(TrustNetError::InvalidDisputeState);
    }
    ctx.vote_commitment = Some(
        VoteCommitment {
            dispute: ctx.dispute_key,
            arbiter: ctx.arbiter_key,
            commit_hash: vote_hash,
            revealed: false,
            vote: None,
            bump: ctx.vote_bump,
        },
    );
    if !contains_key(&ctx.dispute.selected_arbiters, &ctx.arbiter_key) {
        ctx.dispute.selected_arbiters.push(ctx.arbiter_key);
    }
    Ok(())
}

} // verus!
