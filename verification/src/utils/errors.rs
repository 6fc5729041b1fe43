use vstd::prelude::*;

verus! {

/// Why an operation was refused. Every refusal leaves all state as it was.
#[derive(Clone, Copy, Debug, PartialEq, Eq, Structural)]
pub enum TrustNetError {
    Unauthorized,
    InvalidStatus,
    DeadlineNotReached,
    InsufficientFunds,
    AlreadySubmitted,
    AlreadyRated,
    InvalidVoteReveal,
    InvalidDisputeState,
    MinimumStakeNotMet,
    DisputeNotResolved,
    RatingOutOfRange,
    BytesTooLarge,
}

/// First number of the range in which the error codes lie.
pub const ERROR_CODE_OFFSET: u32 = 6000;

impl TrustNetError {
    /// Position of the variant in the declaration, counted from zero.
    pub open spec fn spec_index(self) -> nat {
        match self {
            TrustNetError::Unauthorized => 0,
            TrustNetError::InvalidStatus => 1,
            TrustNetError::DeadlineNotReached => 2,
            TrustNetError::InsufficientFunds => 3,
            TrustNetError::AlreadySubmitted => 4,
            TrustNetError::AlreadyRated => 5,
            TrustNetError::InvalidVoteReveal => 6,
            TrustNetError::InvalidDisputeState => 7,
            TrustNetError::MinimumStakeNotMet => 8,
            TrustNetError::DisputeNotResolved => 9,
            TrustNetError::RatingOutOfRange => 10,
            TrustNetError::BytesTooLarge => 11,
        }
    }

    /// The number under which the error is reported: the offset plus the
    /// variant's position.
    pub fn code(&self) -> (c: u32)
        ensures
            c == ERROR_CODE_OFFSET + self.spec_index(),
    {
        let index: u32 = match self {
            TrustNetError::Unauthorized => 0,
            TrustNetError::InvalidStatus => 1,
            TrustNetError::DeadlineNotReached => 2,
            TrustNetError::InsufficientFunds => 3,
            TrustNetError::AlreadySubmitted => 4,
            TrustNetError::AlreadyRated => 5,
            TrustNetError::InvalidVoteReveal => 6,
            TrustNetError::InvalidDisputeState => 7,
            TrustNetError::MinimumStakeNotMet => 8,
            TrustNetError::DisputeNotResolved => 9,
            TrustNetError::RatingOutOfRange => 10,
            TrustNetError::BytesTooLarge => 11,
        };
        ERROR_CODE_OFFSET + index
    }

    /// The text that describes the error to a caller.
    pub fn message(&self) -> (m: &'static str)
        ensures
            m@ == self.spec_message(),
    {
        match self {
            TrustNetError::Unauthorized => "Unauthorized",
            TrustNetError::InvalidStatus => "Invalid status for this action",
            TrustNetError::DeadlineNotReached => "Deadline not reached",
            TrustNetError::InsufficientFunds => "Insufficient funds",
            TrustNetError::AlreadySubmitted => "Already submitted",
            TrustNetError::AlreadyRated => "Already rated",
            TrustNetError::InvalidVoteReveal => "Invalid vote reveal",
            TrustNetError::InvalidDisputeState => "Invalid dispute state",
            TrustNetError::MinimumStakeNotMet => "Minimum stake not met",
            TrustNetError::DisputeNotResolved => "Dispute not resolved",
            TrustNetError::RatingOutOfRange => "Rating out of range",
            TrustNetError::BytesTooLarge => "Too many bytes provided",
        }
    }

    /// The text of each error, as a sequence of characters.
    pub open spec fn spec_message(self) -> Seq<char> {
        match self {
            TrustNetError::Unauthorized => "Unauthorized"@,
            TrustNetError::InvalidStatus => "Invalid status for this action"@,
            TrustNetError::DeadlineNotReached => "Deadline not reached"@,
            TrustNetError::InsufficientFunds => "Insufficient funds"@,
            TrustNetError::AlreadySubmitted => "Already submitted"@,
            TrustNetError::AlreadyRated => "Already rated"@,
            TrustNetError::InvalidVoteReveal => "Invalid vote reveal"@,
            TrustNetError::InvalidDisputeState => "Invalid dispute state"@,
            TrustNetError::MinimumStakeNotMet => "Minimum stake not met"@,
            TrustNetError::DisputeNotResolved => "Dispute not resolved"@,
            TrustNetError::RatingOutOfRange => "Rating out of range"@,
            TrustNetError::BytesTooLarge => "Too many bytes provided"@,
        }
    }
}

} // verus!
