use trustnet::instructions::init_reputation::InitReputation;
use trustnet::instructions::rate_job::RateJob;
use trustnet::instructions::register_arbiter::RegisterArbiter;
use trustnet::instructions::stake_reputation::StakeReputation;
use trustnet::instructions::{init_reputation, rate_job, register_arbiter, stake_reputation};
use trustnet::ledger::{Clock, Pubkey, Transfer, Vault};
use trustnet::state::arbiter::Arbiter;
use trustnet::state::job_escrow::{JobEscrow, JobStatus, VerifyType};
use trustnet::state::reputation::{AgentReputation, Rating};
use trustnet::utils::constants::{
    MAX_SPECIALIZATIONS_LEN, MAX_TAGS_LEN, MIN_ARBITER_STAKE_LAMPORTS,
    MIN_REPUTATION_STAKE_LAMPORTS,
};
use trustnet::utils::errors::TrustNetError;

fn key(fill: u8) -> Pubkey {
    Pubkey { bytes: [fill; 32] }
}

fn clock(now: i64) -> Clock {
    Clock { slot: 0, epoch_start_timestamp: 0, epoch: 0, leader_schedule_epoch: 0, unix_timestamp: now }
}

fn reputation(avg_rating: u16, rating_count: u64, stake: u64) -> AgentReputation {
    AgentReputation {
        agent: key(1),
        total_jobs_completed: 3,
        total_jobs_failed: 1,
        total_disputes_won: 0,
        total_disputes_lost: 0,
        total_volume: 9,
        avg_rating,
        rating_count,
        specializations: vec![4, 5],
        created_at: 10,
        last_active: 20,
        stake_amount: stake,
        bump: 200,
    }
}

fn init_ctx() -> InitReputation {
    InitReputation {
        agent: key(1),
        reputation_bump: 200,
        reputation: None,
        rep_vault: Vault::open(key(2)),
    }
}

#[test]
fn init_reputation_opens_an_empty_record() {
    let mut ctx = init_ctx();
    let ts = init_reputation::handler(&mut ctx, 100_000_000, vec![4, 5], &clock(10)).unwrap();
    assert_eq!(ts, vec![Transfer { from: key(1), to: key(2), lamports: 100_000_000 }]);
    assert_eq!(
        ctx.reputation,
        Some(AgentReputation {
            agent: key(1),
            total_jobs_completed: 0,
            total_jobs_failed: 0,
            total_disputes_won: 0,
            total_disputes_lost: 0,
            total_volume: 0,
            avg_rating: 0,
            rating_count: 0,
            specializations: vec![4, 5],
            created_at: 10,
            last_active: 10,
            stake_amount: 100_000_000,
            bump: 200,
        })
    );
    assert_eq!(ctx.rep_vault, Vault { key: key(2), lamports: 100_000_000 });
}

#[test]
fn a_reputation_record_is_opened_once() {
    let mut ctx = init_ctx();
    ctx.rep_vault.lamports = 55;
    init_reputation::handler(&mut ctx, 100_000_000, vec![4, 5], &clock(10)).unwrap();
    assert_eq!(ctx.rep_vault.lamports, 100_000_055);
    let after = ctx.clone();
    assert_eq!(
        init_reputation::handler(&mut ctx, 200_000_000, vec![6], &clock(20)),
        Err(TrustNetError::InvalidStatus)
    );
    // a record that exists is told before too little stake is
    assert_eq!(
        init_reputation::handler(&mut ctx, 0, vec![6], &clock(20)),
        Err(TrustNetError::InvalidStatus)
    );
    assert_eq!(ctx, after);
    let mut full = init_ctx();
    full.rep_vault.lamports = u64::MAX;
    assert_eq!(
        init_reputation::handler(&mut full, 100_000_000, vec![], &clock(10)),
        Err(TrustNetError::InsufficientFunds)
    );
}

#[test]
fn init_reputation_refusals() {
    let mut ctx = init_ctx();
    assert_eq!(
        init_reputation::handler(&mut ctx, MIN_REPUTATION_STAKE_LAMPORTS - 1, vec![], &clock(10)),
        Err(TrustNetError::MinimumStakeNotMet)
    );
    assert_eq!(
        init_reputation::handler(
            &mut ctx,
            MIN_REPUTATION_STAKE_LAMPORTS,
            vec![0; MAX_SPECIALIZATIONS_LEN + 1],
            &clock(10)
        ),
        Err(TrustNetError::BytesTooLarge)
    );
    // too little stake is told before too many bytes
    assert_eq!(
        init_reputation::handler(&mut ctx, 0, vec![0; 65], &clock(10)),
        Err(TrustNetError::MinimumStakeNotMet)
    );
    assert_eq!(ctx, init_ctx());
    assert!(init_reputation::handler(
        &mut ctx,
        MIN_REPUTATION_STAKE_LAMPORTS,
        vec![0; MAX_SPECIALIZATIONS_LEN],
        &clock(10)
    )
    .is_ok());
}

#[test]
fn stake_reputation_adds_to_record_and_vault() {
    let mut ctx = StakeReputation {
        agent: key(1),
        reputation: reputation(0, 0, 100_000_000),
        rep_vault: Vault { key: key(2), lamports: 100_000_000 },
    };
    let ts = stake_reputation::handler(&mut ctx, 5).unwrap();
    assert_eq!(ts, vec![Transfer { from: key(1), to: key(2), lamports: 5 }]);
    assert_eq!(ctx.reputation, reputation(0, 0, 100_000_005));
    assert_eq!(ctx.rep_vault.lamports, 100_000_005);
    assert!(stake_reputation::handler(&mut ctx, 0).is_ok());
    assert_eq!(ctx.reputation.stake_amount, 100_000_005);
}

#[test]
fn stake_reputation_refusals() {
    let mut ctx = StakeReputation {
        agent: key(3),
        reputation: reputation(0, 0, 100),
        rep_vault: Vault { key: key(2), lamports: 100 },
    };
    let before = ctx.clone();
    assert_eq!(stake_reputation::handler(&mut ctx, 5), Err(TrustNetError::Unauthorized));
    assert_eq!(ctx, before);
    let mut ctx = StakeReputation {
        agent: key(1),
        reputation: reputation(0, 0, 100),
        rep_vault: Vault { key: key(2), lamports: u64::MAX },
    };
    let before = ctx.clone();
    assert_eq!(stake_reputation::handler(&mut ctx, 1), Err(TrustNetError::InsufficientFunds));
    assert_eq!(ctx, before);
}

#[test]
fn the_recorded_stake_stops_at_the_greatest_number() {
    let mut ctx = StakeReputation {
        agent: key(1),
        reputation: reputation(0, 0, u64::MAX - 1),
        rep_vault: Vault { key: key(2), lamports: 0 },
    };
    assert!(stake_reputation::handler(&mut ctx, 7).is_ok());
    assert_eq!(ctx.reputation.stake_amount, u64::MAX);
    assert_eq!(ctx.rep_vault.lamports, 7);
}

fn rated_job(status: JobStatus) -> JobEscrow {
    JobEscrow {
        job_id: [11; 32],
        client: key(5),
        provider: key(1),
        amount: 10,
        provider_stake: 1,
        deadline: 100,
        status,
        verification_type: VerifyType::ClientApproval,
        verification_data: [0; 64],
        created_at: 1,
        submitted_at: Some(2),
        completed_at: Some(3),
        terms_hash: [12; 32],
        bump: 250,
    }
}

fn rate_ctx(status: JobStatus, avg: u16, count: u64) -> RateJob {
    RateJob {
        rater: key(5),
        job: rated_job(status),
        ratee_reputation: reputation(avg, count, 0),
        rating_bump: 201,
        rating: None,
    }
}

#[test]
fn rating_brings_the_average_up_to_date() {
    let mut ctx = rate_ctx(JobStatus::Completed, 0, 0);
    assert_eq!(rate_job::handler(&mut ctx, [11; 32], 5, vec![7], [13; 32], &clock(50)), Ok(()));
    assert_eq!(ctx.ratee_reputation.avg_rating, 500);
    assert_eq!(ctx.ratee_reputation.rating_count, 1);
    assert_eq!(ctx.ratee_reputation.last_active, 50);
    assert_eq!(
        ctx.rating,
        Some(Rating {
            job_id: [11; 32],
            rater: key(5),
            ratee: key(1),
            score: 5,
            tags: vec![7],
            comment_hash: [13; 32],
            timestamp: 50,
            bump: 201,
        })
    );
    // another rater, who has not rated the job yet
    ctx.rater = key(6);
    ctx.rating = None;
    assert_eq!(rate_job::handler(&mut ctx, [11; 32], 1, vec![], [13; 32], &clock(60)), Ok(()));
    assert_eq!(ctx.ratee_reputation.avg_rating, 300);
    assert_eq!(ctx.ratee_reputation.rating_count, 2);
    assert_eq!(ctx.ratee_reputation.last_active, 60);
    let mut expected = reputation(300, 2, 0);
    expected.last_active = 60;
    assert_eq!(ctx.ratee_reputation, expected);
}

#[test]
fn a_job_is_rated_once_by_each_rater() {
    let mut ctx = rate_ctx(JobStatus::Completed, 0, 0);
    assert_eq!(rate_job::handler(&mut ctx, [11; 32], 5, vec![7], [13; 32], &clock(50)), Ok(()));
    let after = ctx.clone();
    assert_eq!(
        rate_job::handler(&mut ctx, [11; 32], 1, vec![], [13; 32], &clock(60)),
        Err(TrustNetError::AlreadyRated)
    );
    // a rating that exists is told before a score out of range is
    assert_eq!(
        rate_job::handler(&mut ctx, [11; 32], 9, vec![], [13; 32], &clock(60)),
        Err(TrustNetError::AlreadyRated)
    );
    assert_eq!(ctx, after);
    assert_eq!(ctx.ratee_reputation.avg_rating, 500);
    assert_eq!(ctx.ratee_reputation.rating_count, 1);
}

#[test]
fn rating_a_resolved_job() {
    let mut ctx = rate_ctx(JobStatus::Resolved, 400, 3);
    assert_eq!(rate_job::handler(&mut ctx, [11; 32], 2, vec![], [13; 32], &clock(60)), Ok(()));
    assert_eq!(ctx.ratee_reputation.avg_rating, 350);
    assert_eq!(ctx.ratee_reputation.rating_count, 4);
}

#[test]
fn rating_refusals() {
    for score in [0u8, 6, 255] {
        let mut ctx = rate_ctx(JobStatus::Completed, 0, 0);
        assert_eq!(
            rate_job::handler(&mut ctx, [11; 32], score, vec![], [13; 32], &clock(50)),
            Err(TrustNetError::RatingOutOfRange)
        );
        assert_eq!(ctx, rate_ctx(JobStatus::Completed, 0, 0));
    }
    let mut ctx = rate_ctx(JobStatus::Completed, 0, 0);
    assert_eq!(
        rate_job::handler(&mut ctx, [11; 32], 3, vec![0; MAX_TAGS_LEN + 1], [13; 32], &clock(50)),
        Err(TrustNetError::BytesTooLarge)
    );
    assert_eq!(ctx, rate_ctx(JobStatus::Completed, 0, 0));
    for status in [
        JobStatus::Created,
        JobStatus::Active,
        JobStatus::Submitted,
        JobStatus::Disputed,
        JobStatus::Cancelled,
        JobStatus::Expired,
    ] {
        let mut ctx = rate_ctx(status, 0, 0);
        assert_eq!(
            rate_job::handler(&mut ctx, [11; 32], 3, vec![0; MAX_TAGS_LEN], [13; 32], &clock(50)),
            Err(TrustNetError::InvalidStatus)
        );
        assert_eq!(ctx, rate_ctx(status, 0, 0));
    }
}

#[test]
fn the_count_of_ratings_stops_at_the_greatest_number() {
    let mut ctx = rate_ctx(JobStatus::Completed, 500, u64::MAX);
    assert_eq!(rate_job::handler(&mut ctx, [11; 32], 1, vec![], [13; 32], &clock(50)), Ok(()));
    assert_eq!(ctx.ratee_reputation.rating_count, u64::MAX);
    assert_eq!(ctx.ratee_reputation.avg_rating, 499);
}

fn register_ctx() -> RegisterArbiter {
    RegisterArbiter {
        authority: key(1),
        arbiter_key: key(3),
        arbiter_bump: 202,
        arbiter: None,
        arbiter_vault: Vault::open(key(2)),
    }
}

#[test]
fn registering_an_arbiter() {
    let mut ctx = register_ctx();
    let ts = register_arbiter::handler(&mut ctx, 2_000_000_000, vec![1], &clock(70)).unwrap();
    assert_eq!(ts, vec![Transfer { from: key(1), to: key(2), lamports: 2_000_000_000 }]);
    assert_eq!(
        ctx.arbiter,
        Some(Arbiter {
            authority: key(1),
            stake: 2_000_000_000,
            cases_judged: 0,
            accuracy_score: 500,
            specializations: vec![1],
            active: true,
            created_at: 70,
            last_case: 70,
            bump: 202,
        })
    );
    assert_eq!(ctx.arbiter_vault, Vault { key: key(2), lamports: 2_000_000_000 });
}

#[test]
fn an_arbiter_registers_once() {
    let mut ctx = register_ctx();
    ctx.arbiter_vault.lamports = 9;
    register_arbiter::handler(&mut ctx, 2_000_000_000, vec![1], &clock(70)).unwrap();
    assert_eq!(ctx.arbiter_vault.lamports, 2_000_000_009);
    let after = ctx.clone();
    assert_eq!(
        register_arbiter::handler(&mut ctx, 3_000_000_000, vec![2], &clock(80)),
        Err(TrustNetError::InvalidStatus)
    );
    assert_eq!(ctx, after);
    let mut full = register_ctx();
    full.arbiter_vault.lamports = u64::MAX;
    assert_eq!(
        register_arbiter::handler(&mut full, 1_000_000_000, vec![], &clock(70)),
        Err(TrustNetError::InsufficientFunds)
    );
}

#[test]
fn registering_refusals() {
    let mut ctx = register_ctx();
    assert_eq!(
        register_arbiter::handler(&mut ctx, MIN_ARBITER_STAKE_LAMPORTS - 1, vec![], &clock(70)),
        Err(TrustNetError::MinimumStakeNotMet)
    );
    assert_eq!(
        register_arbiter::handler(&mut ctx, MIN_ARBITER_STAKE_LAMPORTS, vec![0; 65], &clock(70)),
        Err(TrustNetError::BytesTooLarge)
    );
    assert_eq!(ctx, register_ctx());
    assert!(register_arbiter::handler(&mut ctx, MIN_ARBITER_STAKE_LAMPORTS, vec![0; 64], &clock(70))
        .is_ok());
}
