use vstd::prelude::*;
use crate::ledger::{bytes_equal, Pubkey};
use crate::state::arbiter::Arbiter;
use crate::state::dispute::{Dispute, DisputeStatus, VoteCommitment};
use crate::utils::errors::TrustNetError;
use crate::utils::hashing::{hash_vote, spec_hash_vote};
use crate::utils::math::integer_sqrt;

verus! {

/// What the reveal of a vote works on: the authority who signs for the
/// arbiter, the arbiter with its address, the dispute with its address, and
/// the arbiter's commitment.
#[derive(Clone, Debug, PartialEq, Eq)]
pub struct RevealVote {
    pub arbiter_authority: Pubkey,
    pub arbiter_key: Pubkey,
    pub arbiter: Arbiter,
    pub dispute_key: Pubkey,
    pub dispute: Dispute,
    pub vote_commitment: VoteCommitment,
}

/// Why a reveal is refused, if it is, given the digest recomputed from the
/// disclosed vote and salt: the first of these that holds. A commitment is
/// revealed once: one that is revealed already is refused like a digest that
/// does not match.
pub open spec fn spec_reveal_error(ctx: RevealVote, digest: [u8; 32]) -> Option<TrustNetError> {
    if ctx.arbiter.authority@ != ctx.arbiter_authority@ {
        Some(TrustNetError::Unauthorized)
    } else if !ctx.dispute.spec_is_voting() {
        Some(TrustNetError::InvalidDisputeState)
    } else if ctx.vote_commitment.revealed {
        Some(TrustNetError::InvalidVoteReveal)
    } else if digest@ != ctx.vote_commitment.commit_hash@ {
        Some(TrustNetError::InvalidVoteReveal)
    } else {
        None
    }
}

/// An accumulator of weight after `weight` is added: it stops at the greatest
/// 64-bit number.
pub open spec fn spec_add_weight(sum: u64, weight: nat) -> u64 {
    if sum + weight > u64::MAX {
        u64::MAX
    } else {
        (sum + weight) as u64
    }
}

/// The dispute after a vote of the arbiter's weight is counted for its side:
/// in its reveal phase, with the weight added to the side voted for and the
/// other side as before.
pub open spec fn spec_tallied(dispute: Dispute, vote_bool: bool, weight: nat) -> Dispute {
    if vote_bool {
        Dispute {
            provider_weight: spec_add_weight(dispute.provider_weight, weight),
            status: DisputeStatus::RevealPhase,
            ..dispute
        }
    } else {
        Dispute {
            client_weight: spec_add_weight(dispute.client_weight, weight),
            status: DisputeStatus::RevealPhase,
            ..dispute
        }
    }
}

/// What a reveal returns and leaves, given the recomputed digest.
pub open spec fn spec_reveal_outcome(
    before: RevealVote,
    after: RevealVote,
    done: Result<(), TrustNetError>,
    vote_bool: bool,
    digest: [u8; 32],
) -> bool {
    match done {
        Ok(_) => {
            &&& spec_reveal_error(before, digest) is None
            &&& after == (RevealVote {
                dispute: spec_tallied(before.dispute, vote_bool, before.arbiter.spec_weight()),
                vote_commitment: VoteCommitment {
                    revealed: true,
                    vote: Some(vote_bool),
                    ..before.vote_commitment
                },
                ..before
            })
        },
        Err(e) => spec_reveal_error(before, digest) == Some(e) && after == before,
    }
}

/// Counts a disclosed vote, given the digest recomputed from the vote and the
/// salt: where the commitment is not yet revealed and the digest is the one
/// committed to, the weight of the arbiter, taken from its stake as it stands
/// now, is added to the side voted for, the commitment is marked revealed and
/// the dispute enters its reveal phase. The weight of a commitment is counted
/// once.
pub fn tally(ctx: &mut RevealVote, vote_bool: bool, digest: &[u8; 32]) -> (done: Result<
    (),
    TrustNetError,
>)
    ensures
        spec_reveal_outcome(*old(ctx), *final(ctx), done, vote_bool, *digest),
        done is Ok ==> final(ctx).dispute.client_weight >= old(ctx).dispute.client_weight
            && final(ctx).dispute.provider_weight >= old(ctx).dispute.provider_weight,
{
    if ctx.arbiter.authority != ctx.arbiter_authority {
        return Err(TrustNetError::Unauthorized);
    }
    if !ctx.dispute.is_voting() {
        return Err(TrustNetError::InvalidDisputeState);
    }
    if ctx.vote_commitment.revealed {
        return Err(TrustNetError::InvalidVoteReveal);
    }
    if !bytes_equal(digest, &ctx.vote_commitment.commit_hash) {
        return Err(TrustNetError::InvalidVoteReveal);
    }
    let weight: u64 = integer_sqrt(ctx.arbiter.stake);
    if vote_bool {
        ctx.dispute.provider_weight = ctx.dispute.provider_weight.saturating_add(weight);
    } else {
        ctx.dispute.client_weight = ctx.dispute.client_weight.saturating_add(weight);
    }
    ctx.vote_commitment.revealed = true;
    ctx.vote_commitment.vote = Some(vote_bool);
    ctx.dispute.status = DisputeStatus::RevealPhase;
    Ok(())
}

/// Reveals a vote: recomputes the commitment from the arbiter, the dispute,
/// the disclosed vote and the salt, then counts the vote. An authorized
/// reveal of a commitment not yet revealed, in a dispute that is still
/// voting, succeeds exactly when the recomputed commitment is the one
/// recorded.
pub fn handler(ctx: &mut RevealVote, vote_bool: bool, salt: Vec<u8>) -> (done: Result<
    (),
    TrustNetError,
>)
    ensures
        exists|digest: [u8; 32]|
            {
                &&& digest@ == spec_hash_vote(
                    old(ctx).arbiter_key@,
                    old(ctx).dispute_key@,
                    vote_bool,
                    salt@,
                )
                &&& #[trigger] spec_reveal_outcome(*old(ctx), *final(ctx), done, vote_bool, digest)
            },
        old(ctx).arbiter.authority@ == old(ctx).arbiter_authority@ && old(
            ctx,
        ).dispute.spec_is_voting() && !old(ctx).vote_commitment.revealed ==> (done is Ok
            <==> spec_hash_vote(
            old(ctx).arbiter_key@,
            old(ctx).dispute_key@,
            vote_bool,
            salt@,
        ) == old(ctx).vote_commitment.commit_hash@),
        done is Ok ==> final(ctx).dispute.client_weight >= old(ctx).dispute.client_weight
            && final(ctx).dispute.provider_weight >= old(ctx).dispute.provider_weight,
{
    let digest = hash_vote(&ctx.arbiter_key, &ctx.dispute_key, vote_bool, salt.as_slice());
    tally(ctx, vote_bool, &digest)
}

} // verus!
