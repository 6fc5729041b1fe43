use vstd::prelude::*;
use crate::ledger::Pubkey;
use crate::utils::math::spec_integer_sqrt;

verus! {

/// A registered arbiter. The recorded stake only grows: slashing takes value
/// from the arbiter's vault and leaves this record as it is.
#[derive(Clone, Debug, PartialEq, Eq)]
pub struct Arbiter {
    pub authority: Pubkey,
    pub stake: u64,
    pub cases_judged: u64,
    pub accuracy_score: u16,
    pub specializations: Vec<u8>,
    pub active: bool,
    pub created_at: i64,
    pub last_case: i64,
    pub bump: u8,
}

impl Arbiter {
    /// Bytes that a stored arbiter takes.
    pub const LEN: usize = 8 + 32 + 8 + 8 + 2 + 4 + 64 + 1 + 8 + 8 + 1;

    /// The weight of the arbiter's vote: the integer square root of the
    /// recorded stake.
    pub open spec fn spec_weight(&self) -> nat {
        spec_integer_sqrt(self.stake as nat)
    }
}

} // verus!
