use vstd::prelude::*;
use crate::ledger::{Pubkey, Transfer, Vault};
use crate::state::reputation::AgentReputation;
use crate::utils::errors::TrustNetError;

verus! {

/// What a top-up of an agent's stake works on: the agent, its record and the
/// vault that holds its stake.
#[derive(Clone, Debug, PartialEq, Eq)]
pub struct StakeReputation {
    pub agent: Pubkey,
    pub reputation: AgentReputation,
    pub rep_vault: Vault,
}

/// Why a top-up is refused, if it is: the first of these that holds.
pub open spec fn spec_stake_error(ctx: StakeReputation, add_lamports: u64) -> Option<
    TrustNetError,
> {
    if ctx.reputation.agent@ != ctx.agent@ {
        Some(TrustNetError::Unauthorized)
    } else if ctx.rep_vault.lamports + add_lamports > u64::MAX {
        Some(TrustNetError::InsufficientFunds)
    } else {
        None
    }
}

/// A recorded stake after `add_lamports` is added: it stops at the greatest
/// 64-bit number.
pub open spec fn spec_stake_after(stake: u64, add_lamports: u64) -> u64 {
    if stake + add_lamports > u64::MAX {
        u64::MAX
    } else {
        (stake + add_lamports) as u64
    }
}

/// What a top-up returns and leaves: the recorded stake and the vault both
/// greater by what was added.
pub open spec fn spec_stake_outcome(
    before: StakeReputation,
    after: StakeReputation,
    locked: Result<Vec<Transfer>, TrustNetError>,
    add_lamports: u64,
) -> bool {
    match locked {
        Ok(ts) => {
            &&& spec_stake_error(before, add_lamports) is None
            &&& ts@ == seq![
                Transfer { from: before.agent, to: before.rep_vault.key, lamports: add_lamports },
            ]
            &&& after == (StakeReputation {
                reputation: AgentReputation {
                    stake_amount: spec_stake_after(before.reputation.stake_amount, add_lamports),
                    ..before.reputation
                },
                rep_vault: Vault {
                    key: before.rep_vault.key,
                    lamports: (before.rep_vault.lamports + add_lamports) as u64,
                },
                ..before
            })
        },
        Err(e) => spec_stake_error(before, add_lamports) == Some(e) && after == before,
    }
}

/// Adds to the stake of an agent. The stake only grows: nothing takes it out
/// again.
pub fn handler(ctx: &mut StakeReputation, add_lamports: u64) -> (locked: Result<
    Vec<Transfer>,
    TrustNetError,
>)
    ensures
        spec_stake_outcome(*old(ctx), *final(ctx), locked, add_lamports),
        locked is Ok ==> final(ctx).reputation.stake_amount >= old(ctx).reputation.stake_amount,
{
    if ctx.reputation.agent != ctx.agent {
        return Err(TrustNetError::Unauthorized);
    }
    let mut vault = ctx.rep_vault;
    let transfer = match vault.deposit(&ctx.agent, add_lamports) {
        Ok(t) => t,
        Err(e) => {
            return Err(e);
        },
    };
    let mut transfers: Vec<Transfer> = Vec::new();
    transfers.push(transfer);
    ctx.reputation.stake_amount = ctx.reputation.stake_amount.saturating_add(add_lamports);
    ctx.rep_vault = vault;
    Ok(transfers)
}

} // verus!
