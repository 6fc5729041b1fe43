//! An escrow-backed work marketplace with stake-weighted arbitration.
//!
//! A client locks value against a job, a provider locks a stake and does the
//! work, and the completion is settled by the job's verification policy or,
//! where the parties disagree, by a panel of staked arbiters who vote by
//! commitment and reveal. Every operation is a transition on plain records:
//! it checks, changes the records, and gives back the transfers for the ledger
//! to carry out. A refused operation changes nothing.

pub mod instructions;
pub mod laws;
pub mod ledger;
pub mod program;
pub mod state;
pub mod utils;
