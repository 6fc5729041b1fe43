use vstd::prelude::*;
use crate::ledger::{Clock, Pubkey, Transfer, Vault};
use crate::state::reputation::AgentReputation;
use crate::utils::constants::{now_ts, MAX_SPECIALIZATIONS_LEN, MIN_REPUTATION_STAKE_LAMPORTS};
use crate::utils::errors::TrustNetError;

verus! {

/// What the opening of a reputation record works on: the agent, the bump of
/// the record, the agent's record, which is none before it is opened, and the
/// vault that holds the agent's stake.
#[derive(Clone, Debug, PartialEq, Eq)]
pub struct InitReputation {
    pub agent: Pubkey,
    pub reputation_bump: u8,
    pub reputation: Option<AgentReputation>,
    pub rep_vault: Vault,
}

/// Why a record cannot be opened, if it cannot: the first of these that
/// holds. A record is opened once: an agent that has one already is refused.
pub open spec fn spec_init_reputation_error(
    ctx: InitReputation,
    stake_lamports: u64,
    specializations: Seq<u8>,
) -> Option<TrustNetError> {
    if ctx.reputation is Some {
        Some(TrustNetError::InvalidStatus)
    } else if stake_lamports < 100_000_000 {
        Some(TrustNetError::MinimumStakeNotMet)
    } else if specializations.len() > 64 {
        Some(TrustNetError::BytesTooLarge)
    } else if ctx.rep_vault.lamports + stake_lamports > u64::MAX {
        Some(TrustNetError::InsufficientFunds)
    } else {
        None
    }
}

/// What opening a reputation record returns and leaves: a record with nothing
/// counted yet, and the stake added to what the vault held.
pub open spec fn spec_init_reputation_outcome(
    before: InitReputation,
    after: InitReputation,
    locked: Result<Vec<Transfer>, TrustNetError>,
    stake_lamports: u64,
    specializations: Vec<u8>,
    now: i64,
) -> bool {
    match locked {
        Ok(ts) => {
            &&& spec_init_reputation_error(before, stake_lamports, specializations@) is None
            &&& ts@ == seq![
                Transfer { from: before.agent, to: before.rep_vault.key, lamports: stake_lamports },
            ]
            &&& after == (InitReputation {
                reputation: Some(
                    AgentReputation {
                        agent: before.agent,
                        total_jobs_completed: 0,
                        total_jobs_failed: 0,
                        total_disputes_won: 0,
                        total_disputes_lost: 0,
                        total_volume: 0,
                        avg_rating: 0,
                        rating_count: 0,
                        specializations,
                        created_at: now,
                        last_active: now,
                        stake_amount: stake_lamports,
                        bump: before.reputation_bump,
                    },
                ),
                rep_vault: Vault {
                    key: before.rep_vault.key,
                    lamports: (before.rep_vault.lamports + stake_lamports) as u64,
                },
                ..before
            })
        },
        Err(e) => spec_init_reputation_error(before, stake_lamports, specializations@) == Some(e) && after
            == before,
    }
}

/// Opens the reputation record of an agent who stakes at least the least
/// stake, and locks the stake. An agent whose record exists already is
/// refused with `InvalidStatus`.
pub fn handler(
    ctx: &mut InitReputation,
    stake_lamports: u64,
    specializations: Vec<u8>,
    clock: &Clock,
) -> (locked: Result<Vec<Transfer>, TrustNetError>)
    ensures
        spec_init_reputation_outcome(
            *old(ctx),
            *final(ctx),
            locked,
            stake_lamports,
            specializations,
            clock.unix_timestamp,
        ),
{
    if ctx.reputation.is_some() {
        return Err(TrustNetError::InvalidStatus);
    }
    if stake_lamports < MIN_REPUTATION_STAKE_LAMPORTS {
        return Err(TrustNetError::MinimumStakeNotMet);
    }
    if specializations.len() > MAX_SPECIALIZATIONS_LEN {
        return Err(TrustNetError::BytesTooLarge);
    }
    let mut vault = ctx.rep_vault;
    let transfer = match vault.deposit(&ctx.agent, stake_lamports) {
        Ok(t) => t,
        Err(e) => {
            return Err(e);
        },
    };
    let now: i64 = now_ts(clock);
    let mut transfers: Vec<Transfer> = Vec::new();
    transfers.push(transfer);
    ctx.reputation = Some(
        AgentReputation {
            agent: ctx.agent,
            total_jobs_completed: 0,
            total_jobs_failed: 0,
            total_disputes_won: 0,
            total_disputes_lost: 0,
            total_volume: 0,
            avg_rating: 0,
            rating_count: 0,
            specializations,
            created_at: now,
            last_active: now,
            stake_amount: stake_lamports,
            bump: ctx.reputation_bump,
        },
    );
    ctx.rep_vault = vault;
    Ok(transfers)
}

} // verus!
