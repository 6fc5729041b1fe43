use vstd::prelude::*;
use crate::ledger::Pubkey;

verus! {

/// Where a job stands in its life.
#[derive(Clone, Copy, Debug, PartialEq, Eq, Structural)]
pub enum JobStatus {
    Created,
    Active,
    Submitted,
    Completed,
    Disputed,
    Resolved,
    Cancelled,
    Expired,
}

impl JobStatus {
    /// No transition leaves these states.
    pub open spec fn spec_is_terminal(self) -> bool {
        self == JobStatus::Completed || self == JobStatus::Resolved || self == JobStatus::Cancelled
            || self == JobStatus::Expired
    }

    /// The steps that a job may take: from created to active, from active to
    /// submitted or expired, from submitted to completed or disputed, from
    /// disputed to resolved. No step leads back.
    pub open spec fn spec_can_become(self, next: JobStatus) -> bool {
        match self {
            JobStatus::Created => next == JobStatus::Active,
            JobStatus::Active => next == JobStatus::Submitted || next == JobStatus::Expired,
            JobStatus::Submitted => next == JobStatus::Completed || next == JobStatus::Disputed,
            JobStatus::Disputed => next == JobStatus::Resolved,
            _ => false,
        }
    }

    /// Whether no transition leaves this state.
    pub fn is_terminal(&self) -> (terminal: bool)
        ensures
            terminal == self.spec_is_terminal(),
    {
        match self {
            JobStatus::Completed | JobStatus::Resolved | JobStatus::Cancelled | JobStatus::Expired => true,
            _ => false,
        }
    }
}

/// How the completion of a job is verified.
#[derive(Clone, Copy, Debug, PartialEq, Eq, Structural)]
pub enum VerifyType {
    ClientApproval,
    OracleVerify,
    DeadlineAuto,
    PeerReview,
    ZkVerify,
}

/// A job and the value locked against it.
#[derive(Clone, Copy, Debug, PartialEq, Eq)]
pub struct JobEscrow {
    pub job_id: [u8; 32],
    pub client: Pubkey,
    pub provider: Pubkey,
    pub amount: u64,
    pub provider_stake: u64,
    pub deadline: i64,
    pub status: JobStatus,
    pub verification_type: VerifyType,
    pub verification_data: [u8; 64],
    pub created_at: i64,
    pub submitted_at: Option<i64>,
    pub completed_at: Option<i64>,
    pub terms_hash: [u8; 32],
    pub bump: u8,
}

impl JobEscrow {
    /// Bytes that a stored job takes.
    pub const LEN: usize = 8 + 32 + 32 + 32 + 8 + 8 + 8 + 1 + 1 + 64 + 8 + 9 + 9 + 32 + 1;

    /// A job locks an amount that is not zero.
    pub open spec fn wf(&self) -> bool {
        self.amount > 0
    }

    /// What the job locks in all: the client's amount and the provider's
    /// stake.
    pub open spec fn spec_locked(&self) -> int {
        self.amount + self.provider_stake
    }

    /// The identity that the verification data names in its first 32 bytes.
    pub open spec fn spec_oracle(&self) -> Seq<u8> {
        self.verification_data@.take(32)
    }

    /// The identity that the verification data names in its first 32 bytes.
    pub fn oracle(&self) -> (key: Pubkey)
        ensures
            key@ == self.spec_oracle(),
    {
        let mut bytes: [u8; 32] = [0u8; 32];
        let mut i: usize = 0;
        while i < 32
            invariant
                i <= 32,
                forall|j: int| 0 <= j < i ==> bytes@[j] == self.verification_data@[j],
            decreases 32 - i,
        {
            bytes[i] = self.verification_data[i];
            i = i + 1;
        }
        assert(bytes@ =~= self.verification_data@.take(32));
        Pubkey { bytes }
    }
}

} // verus!
