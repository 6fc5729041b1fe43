use vstd::prelude::*;
use crate::ledger::Pubkey;

verus! {

/// The phase of a dispute.
#[derive(Clone, Copy, Debug, PartialEq, Eq, Structural)]
pub enum DisputeStatus {
    Open,
    CommitPhase,
    RevealPhase,
    Resolved,
}

/// A dispute over one job, with the weights that the revealed votes have
/// given to each side.
#[derive(Clone, Debug, PartialEq, Eq)]
pub struct Dispute {
    pub job: Pubkey,
    pub client: Pubkey,
    pub provider: Pubkey,
    pub reason_hash: [u8; 32],
    pub evidence_hash: [u8; 32],
    pub status: DisputeStatus,
    pub commit_deadline: i64,
    pub reveal_deadline: i64,
    pub selected_arbiters: Vec<Pubkey>,
    pub client_weight: u64,
    pub provider_weight: u64,
    pub resolved_in_favor_of_client: Option<bool>,
    pub bump: u8,
}

impl Dispute {
    /// Bytes that a stored dispute takes.
    pub const LEN: usize = 8 + 32 * 3 + 32 + 32 + 1 + 8 + 8 + 4 + 32 * 3 + 8 + 8 + 1 + 1;

    /// Votes may still be revealed and the dispute may be resolved.
    pub open spec fn spec_is_voting(&self) -> bool {
        self.status == DisputeStatus::CommitPhase || self.status == DisputeStatus::RevealPhase
    }

    /// The outcome is recorded exactly when the dispute is resolved.
    pub open spec fn wf(&self) -> bool {
        (self.status == DisputeStatus::Resolved) <==> (self.resolved_in_favor_of_client is Some)
    }

    /// Whether votes may still be revealed and the dispute may be resolved.
    pub fn is_voting(&self) -> (voting: bool)
        ensures
            voting == self.spec_is_voting(),
    {
        self.status == DisputeStatus::CommitPhase || self.status == DisputeStatus::RevealPhase
    }
}

/// The commitment of one arbiter in one dispute, and the vote once revealed.
#[derive(Clone, Copy, Debug, PartialEq, Eq)]
pub struct VoteCommitment {
    pub dispute: Pubkey,
    pub arbiter: Pubkey,
    pub commit_hash: [u8; 32],
    pub revealed: bool,
    pub vote: Option<bool>,
    pub bump: u8,
}

impl VoteCommitment {
    /// Bytes that a stored commitment takes.
    pub const LEN: usize = 8 + 32 + 32 + 32 + 1 + 1 + 1;

    /// A vote is recorded exactly when the commitment was revealed.
    pub open spec fn wf(&self) -> bool {
        self.revealed <==> (self.vote is Some)
    }

    /// The side that the commitment counts for: the provider's only where a
    /// vote for the provider is recorded.
    pub open spec fn spec_voted_provider(&self) -> bool {
        self.vote == Some(true)
    }

    /// Whether the commitment counts for the provider.
    pub fn voted_provider(&self) -> (for_provider: bool)
        ensures
            for_provider == self.spec_voted_provider(),
    {
        match self.vote {
            Some(v) => v,
            None => false,
        }
    }
}

} // verus!
