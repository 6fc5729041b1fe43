use trustnet::instructions::accept_job::AcceptJob;
use trustnet::instructions::approve_completion::ApproveCompletion;
use trustnet::instructions::create_job::CreateJob;
use trustnet::instructions::expire_job::ExpireJob;
use trustnet::instructions::oracle_verify::OracleVerify;
use trustnet::instructions::settlement::{
    bps_of, dispute_fee, locked_total, protocol_fee, refund_to_client, release_to_provider,
};
use trustnet::instructions::submit_completion::SubmitCompletion;
use trustnet::instructions::{
    accept_job, approve_completion, create_job, expire_job, oracle_verify, submit_completion,
};
use trustnet::ledger::{
    find_owned_address, Clock, ProgramAddress, Pubkey, Transfer, Vault, JOB_VAULT_SEED,
};
use trustnet::state::job_escrow::{JobEscrow, JobStatus, VerifyType};
use trustnet::utils::errors::TrustNetError;

const CLIENT: u8 = 1;
const PROVIDER: u8 = 2;
const JOB: u8 = 3;
const VAULT: u8 = 4;
const TREASURY: u8 = 5;
const ORACLE: u8 = 6;
const PROGRAM: u8 = 9;

fn key(fill: u8) -> Pubkey {
    Pubkey { bytes: [fill; 32] }
}

fn clock(now: i64) -> Clock {
    Clock { slot: 0, epoch_start_timestamp: 0, epoch: 0, leader_schedule_epoch: 0, unix_timestamp: now }
}

fn oracle_data() -> [u8; 64] {
    let mut data = [0u8; 64];
    let mut i = 0;
    while i < 32 {
        data[i] = ORACLE;
        i += 1;
    }
    data[40] = 77;
    data
}

fn job(status: JobStatus, verification_type: VerifyType, amount: u64, stake: u64) -> JobEscrow {
    JobEscrow {
        job_id: [11; 32],
        client: key(CLIENT),
        provider: key(PROVIDER),
        amount,
        provider_stake: stake,
        deadline: 10_000,
        status,
        verification_type,
        verification_data: oracle_data(),
        created_at: 100,
        submitted_at: None,
        completed_at: None,
        terms_hash: [12; 32],
        bump: 250,
    }
}

fn vault(lamports: u64) -> Vault {
    Vault { key: key(VAULT), lamports }
}

fn derived() -> Option<ProgramAddress> {
    Some(ProgramAddress { address: key(VAULT), bump: 255 })
}

#[test]
fn fees_are_basis_points_rounded_down() {
    assert_eq!(protocol_fee(1_000_000_000), 1_000_000);
    assert_eq!(protocol_fee(999), 0);
    assert_eq!(protocol_fee(1_000), 1);
    assert_eq!(protocol_fee(1_999), 1);
    assert_eq!(protocol_fee(u64::MAX), 18_446_744_073_709_551);
    assert_eq!(dispute_fee(1_000_000_000), 10_000_000);
    assert_eq!(dispute_fee(99), 0);
    assert_eq!(dispute_fee(100), 1);
    assert_eq!(dispute_fee(u64::MAX), 184_467_440_737_095_516);
    assert_eq!(bps_of(1_000_000, 200), 20_000);
    assert_eq!(bps_of(49, 200), 0);
    assert_eq!(bps_of(u64::MAX, 10_000), u64::MAX);
    assert_eq!(bps_of(7, 0), 0);
}

#[test]
fn locked_total_is_amount_and_stake() {
    assert_eq!(locked_total(&job(JobStatus::Active, VerifyType::ClientApproval, 10, 5)), Ok(15));
    assert_eq!(
        locked_total(&job(JobStatus::Active, VerifyType::ClientApproval, u64::MAX, 1)),
        Err(TrustNetError::InsufficientFunds)
    );
    assert_eq!(
        locked_total(&job(JobStatus::Active, VerifyType::ClientApproval, u64::MAX, 0)),
        Ok(u64::MAX)
    );
}

#[test]
fn release_pays_the_provider_and_the_treasury() {
    let j = job(JobStatus::Submitted, VerifyType::ClientApproval, 1_000_000_000, 50_000_000);
    let mut v = vault(1_050_000_000);
    let ts = release_to_provider(&mut v, &j, &key(TREASURY)).unwrap();
    assert_eq!(
        ts,
        vec![
            Transfer { from: key(VAULT), to: key(PROVIDER), lamports: 1_049_000_000 },
            Transfer { from: key(VAULT), to: key(TREASURY), lamports: 1_000_000 },
        ]
    );
    assert_eq!(v.lamports, 0);
    assert_eq!(ts[0].lamports + ts[1].lamports, j.amount + j.provider_stake);
}

#[test]
fn release_without_a_fee_makes_one_transfer() {
    let j = job(JobStatus::Submitted, VerifyType::ClientApproval, 999, 1);
    let mut v = vault(1_500);
    let ts = release_to_provider(&mut v, &j, &key(TREASURY)).unwrap();
    assert_eq!(ts, vec![Transfer { from: key(VAULT), to: key(PROVIDER), lamports: 1_000 }]);
    assert_eq!(v.lamports, 500);
}

#[test]
fn release_and_refund_refuse_a_vault_that_holds_too_little() {
    let j = job(JobStatus::Submitted, VerifyType::ClientApproval, 1_000, 100);
    let mut v = vault(1_099);
    assert_eq!(release_to_provider(&mut v, &j, &key(TREASURY)), Err(TrustNetError::InsufficientFunds));
    assert_eq!(v, vault(1_099));
    assert_eq!(refund_to_client(&mut v, &j), Err(TrustNetError::InsufficientFunds));
    assert_eq!(v, vault(1_099));
    let mut v = vault(1_100);
    assert_eq!(
        refund_to_client(&mut v, &j),
        Ok(vec![Transfer { from: key(VAULT), to: key(CLIENT), lamports: 1_100 }])
    );
    assert_eq!(v.lamports, 0);
    let over = job(JobStatus::Submitted, VerifyType::ClientApproval, u64::MAX, 1);
    let mut v = vault(u64::MAX);
    assert_eq!(refund_to_client(&mut v, &over), Err(TrustNetError::InsufficientFunds));
    assert_eq!(release_to_provider(&mut v, &over, &key(TREASURY)), Err(TrustNetError::InsufficientFunds));
}

fn create_ctx() -> CreateJob {
    CreateJob {
        client: key(CLIENT),
        provider: key(PROVIDER),
        job_key: key(JOB),
        job_bump: 250,
        job: None,
        job_vault: Vault::open(key(VAULT)),
    }
}

#[test]
fn create_job_records_the_job_and_locks_the_amount() {
    let mut ctx = create_ctx();
    let ts = create_job::handler(
        &mut ctx,
        [11; 32],
        5_000,
        10_000,
        VerifyType::OracleVerify,
        oracle_data(),
        [12; 32],
        &clock(100),
    )
    .unwrap();
    assert_eq!(ts, vec![Transfer { from: key(CLIENT), to: key(VAULT), lamports: 5_000 }]);
    assert_eq!(ctx.job, Some(job(JobStatus::Created, VerifyType::OracleVerify, 5_000, 0)));
    assert_eq!(ctx.job_vault, vault(5_000));
    assert_eq!(ctx.client, key(CLIENT));
    assert_eq!(ctx.job_key, key(JOB));
}

#[test]
fn a_job_is_created_once() {
    let mut ctx = create_ctx();
    create_job::handler(
        &mut ctx,
        [11; 32],
        5_000,
        10_000,
        VerifyType::OracleVerify,
        oracle_data(),
        [12; 32],
        &clock(100),
    )
    .unwrap();
    let after = ctx;
    let again = create_job::handler(
        &mut ctx,
        [13; 32],
        9_000,
        20_000,
        VerifyType::ClientApproval,
        [0; 64],
        [14; 32],
        &clock(200),
    );
    assert_eq!(again, Err(TrustNetError::InvalidStatus));
    assert_eq!(ctx, after);
    assert_eq!(ctx.job_vault.lamports, 5_000);
}

#[test]
fn create_job_adds_the_amount_to_what_the_vault_holds() {
    let mut ctx = create_ctx();
    ctx.job_vault.lamports = 777;
    let ts = create_job::handler(
        &mut ctx,
        [11; 32],
        5_000,
        10_000,
        VerifyType::OracleVerify,
        oracle_data(),
        [12; 32],
        &clock(100),
    )
    .unwrap();
    assert_eq!(ts, vec![Transfer { from: key(CLIENT), to: key(VAULT), lamports: 5_000 }]);
    assert_eq!(ctx.job_vault.lamports, 5_777);
    let mut ctx = create_ctx();
    ctx.job_vault.lamports = u64::MAX - 4_999;
    let before = ctx;
    let r = create_job::handler(
        &mut ctx,
        [11; 32],
        5_000,
        10_000,
        VerifyType::OracleVerify,
        oracle_data(),
        [12; 32],
        &clock(100),
    );
    assert_eq!(r, Err(TrustNetError::InsufficientFunds));
    assert_eq!(ctx, before);
}

#[test]
fn create_job_refuses_an_amount_of_zero() {
    let mut ctx = create_ctx();
    let r = create_job::handler(
        &mut ctx,
        [11; 32],
        0,
        10_000,
        VerifyType::ClientApproval,
        [0; 64],
        [12; 32],
        &clock(100),
    );
    assert_eq!(r, Err(TrustNetError::InsufficientFunds));
    assert_eq!(ctx, create_ctx());
}

fn accept_ctx(status: JobStatus, lamports: u64) -> AcceptJob {
    AcceptJob {
        provider: key(PROVIDER),
        job_key: key(JOB),
        job: job(status, VerifyType::ClientApproval, 5_000, 0),
        job_vault: vault(lamports),
    }
}

#[test]
fn accept_job_locks_the_stake_and_activates_the_job() {
    let mut ctx = accept_ctx(JobStatus::Created, 5_000);
    let ts = accept_job::handler(&mut ctx, 300).unwrap();
    assert_eq!(ts, vec![Transfer { from: key(PROVIDER), to: key(VAULT), lamports: 300 }]);
    assert_eq!(ctx.job, job(JobStatus::Active, VerifyType::ClientApproval, 5_000, 300));
    assert_eq!(ctx.job_vault.lamports, 5_300);
    assert_eq!(ctx.job_vault.lamports, ctx.job.amount + ctx.job.provider_stake);
}

#[test]
fn accept_job_refusals() {
    let mut ctx = accept_ctx(JobStatus::Created, 5_000);
    ctx.provider = key(CLIENT);
    let before = ctx.clone();
    assert_eq!(accept_job::handler(&mut ctx, 300), Err(TrustNetError::Unauthorized));
    assert_eq!(ctx, before);

    let mut ctx = accept_ctx(JobStatus::Active, 5_000);
    assert_eq!(accept_job::handler(&mut ctx, 300), Err(TrustNetError::InvalidStatus));
    assert_eq!(ctx, accept_ctx(JobStatus::Active, 5_000));

    let mut ctx = accept_ctx(JobStatus::Created, 5_000);
    assert_eq!(accept_job::handler(&mut ctx, 0), Err(TrustNetError::InsufficientFunds));
    assert_eq!(ctx, accept_ctx(JobStatus::Created, 5_000));

    let mut ctx = accept_ctx(JobStatus::Created, u64::MAX - 10);
    assert_eq!(accept_job::handler(&mut ctx, 11), Err(TrustNetError::InsufficientFunds));
    assert_eq!(ctx, accept_ctx(JobStatus::Created, u64::MAX - 10));
    assert!(accept_job::handler(&mut ctx, 10).is_ok());
    assert_eq!(ctx.job_vault.lamports, u64::MAX);

    // a wrong provider is told so before a wrong status is
    let mut ctx = accept_ctx(JobStatus::Completed, 0);
    ctx.provider = key(CLIENT);
    assert_eq!(accept_job::handler(&mut ctx, 0), Err(TrustNetError::Unauthorized));
}

#[test]
fn submit_completion_marks_the_job_submitted() {
    let mut ctx = SubmitCompletion {
        provider: key(PROVIDER),
        job_key: key(JOB),
        job: job(JobStatus::Active, VerifyType::ClientApproval, 5_000, 300),
    };
    assert_eq!(submit_completion::handler(&mut ctx, [1; 32], &clock(4_242)), Ok(()));
    let mut expected = job(JobStatus::Submitted, VerifyType::ClientApproval, 5_000, 300);
    expected.submitted_at = Some(4_242);
    assert_eq!(ctx.job, expected);
    assert_eq!(
        submit_completion::handler(&mut ctx, [1; 32], &clock(4_243)),
        Err(TrustNetError::InvalidStatus)
    );
    assert_eq!(ctx.job, expected);
    ctx.provider = key(CLIENT);
    assert_eq!(
        submit_completion::handler(&mut ctx, [1; 32], &clock(4_243)),
        Err(TrustNetError::Unauthorized)
    );
    assert_eq!(ctx.job, expected);
}

fn approve_ctx(status: JobStatus, verification_type: VerifyType, lamports: u64) -> ApproveCompletion {
    ApproveCompletion {
        approver: key(CLIENT),
        job_key: key(JOB),
        job: job(status, verification_type, 1_000_000_000, 50_000_000),
        job_vault: vault(lamports),
        treasury: key(TREASURY),
    }
}

#[test]
fn approval_pays_the_provider_all_but_the_fee() {
    let mut ctx = approve_ctx(JobStatus::Submitted, VerifyType::ClientApproval, 1_050_000_000);
    let ts = approve_completion::handler(&mut ctx, &clock(9_000)).unwrap();
    assert_eq!(
        ts,
        vec![
            Transfer { from: key(VAULT), to: key(PROVIDER), lamports: 999_000_000 + 50_000_000 },
            Transfer { from: key(VAULT), to: key(TREASURY), lamports: 1_000_000 },
        ]
    );
    assert_eq!(ctx.job.status, JobStatus::Completed);
    assert_eq!(ctx.job.completed_at, Some(9_000));
    assert_eq!(ctx.job_vault.lamports, 0);
    let mut expected = job(JobStatus::Completed, VerifyType::ClientApproval, 1_000_000_000, 50_000_000);
    expected.completed_at = Some(9_000);
    assert_eq!(ctx.job, expected);
}

#[test]
fn approval_under_each_policy() {
    for policy in [VerifyType::ClientApproval, VerifyType::PeerReview, VerifyType::ZkVerify] {
        let mut ctx = approve_ctx(JobStatus::Submitted, policy, 1_050_000_000);
        assert!(approve_completion::handler(&mut ctx, &clock(9_000)).is_ok());
        assert_eq!(ctx.job.status, JobStatus::Completed);
    }
    for policy in [VerifyType::OracleVerify, VerifyType::DeadlineAuto] {
        let mut ctx = approve_ctx(JobStatus::Submitted, policy, 1_050_000_000);
        assert_eq!(
            approve_completion::handler(&mut ctx, &clock(9_000)),
            Err(TrustNetError::InvalidStatus)
        );
        assert_eq!(ctx, approve_ctx(JobStatus::Submitted, policy, 1_050_000_000));
    }
}

#[test]
fn approval_refusals() {
    let mut ctx = approve_ctx(JobStatus::Submitted, VerifyType::ClientApproval, 1_050_000_000);
    ctx.approver = key(PROVIDER);
    let before = ctx.clone();
    assert_eq!(approve_completion::handler(&mut ctx, &clock(1)), Err(TrustNetError::Unauthorized));
    assert_eq!(ctx, before);

    let mut ctx = approve_ctx(JobStatus::Active, VerifyType::ClientApproval, 1_050_000_000);
    assert_eq!(approve_completion::handler(&mut ctx, &clock(1)), Err(TrustNetError::InvalidStatus));

    let mut ctx = approve_ctx(JobStatus::Completed, VerifyType::ClientApproval, 0);
    assert_eq!(approve_completion::handler(&mut ctx, &clock(1)), Err(TrustNetError::InvalidStatus));

    let mut ctx = approve_ctx(JobStatus::Submitted, VerifyType::ClientApproval, 1_049_999_999);
    assert_eq!(
        approve_completion::handler(&mut ctx, &clock(1)),
        Err(TrustNetError::InsufficientFunds)
    );
    assert_eq!(ctx, approve_ctx(JobStatus::Submitted, VerifyType::ClientApproval, 1_049_999_999));
}

fn oracle_ctx(status: JobStatus, verification_type: VerifyType, lamports: u64) -> OracleVerify {
    OracleVerify {
        oracle: key(ORACLE),
        job_key: key(JOB),
        job: job(status, verification_type, 20_000, 500),
        job_vault: vault(lamports),
        treasury: key(TREASURY),
    }
}

#[test]
fn the_oracle_is_read_from_the_verification_data() {
    let j = job(JobStatus::Submitted, VerifyType::OracleVerify, 1, 1);
    assert_eq!(j.oracle(), key(ORACLE));
}

#[test]
fn oracle_approval_completes_the_job() {
    let mut ctx = oracle_ctx(JobStatus::Submitted, VerifyType::OracleVerify, 20_500);
    let ts = oracle_verify::handler(&mut ctx, true, [0; 32], &clock(8_000)).unwrap();
    assert_eq!(
        ts,
        vec![
            Transfer { from: key(VAULT), to: key(PROVIDER), lamports: 20_480 },
            Transfer { from: key(VAULT), to: key(TREASURY), lamports: 20 },
        ]
    );
    assert_eq!(ctx.job.status, JobStatus::Completed);
    assert_eq!(ctx.job.completed_at, Some(8_000));
    assert_eq!(ctx.job_vault.lamports, 0);
}

#[test]
fn oracle_rejection_changes_nothing() {
    let mut ctx = oracle_ctx(JobStatus::Submitted, VerifyType::OracleVerify, 20_500);
    assert_eq!(oracle_verify::handler(&mut ctx, false, [0; 32], &clock(8_000)), Ok(vec![]));
    assert_eq!(ctx, oracle_ctx(JobStatus::Submitted, VerifyType::OracleVerify, 20_500));
    // a rejection does not look at the vault
    let mut ctx = oracle_ctx(JobStatus::Submitted, VerifyType::OracleVerify, 0);
    assert_eq!(oracle_verify::handler(&mut ctx, false, [0; 32], &clock(8_000)), Ok(vec![]));
}

#[test]
fn oracle_refusals() {
    let mut ctx = oracle_ctx(JobStatus::Active, VerifyType::OracleVerify, 20_500);
    assert_eq!(
        oracle_verify::handler(&mut ctx, true, [0; 32], &clock(1)),
        Err(TrustNetError::InvalidStatus)
    );
    let mut ctx = oracle_ctx(JobStatus::Submitted, VerifyType::ClientApproval, 20_500);
    assert_eq!(
        oracle_verify::handler(&mut ctx, true, [0; 32], &clock(1)),
        Err(TrustNetError::InvalidStatus)
    );
    let mut ctx = oracle_ctx(JobStatus::Submitted, VerifyType::OracleVerify, 20_500);
    ctx.oracle = key(CLIENT);
    let before = ctx.clone();
    assert_eq!(
        oracle_verify::handler(&mut ctx, true, [0; 32], &clock(1)),
        Err(TrustNetError::Unauthorized)
    );
    assert_eq!(
        oracle_verify::handler(&mut ctx, false, [0; 32], &clock(1)),
        Err(TrustNetError::Unauthorized)
    );
    assert_eq!(ctx, before);
    let mut ctx = oracle_ctx(JobStatus::Submitted, VerifyType::OracleVerify, 20_499);
    assert_eq!(
        oracle_verify::handler(&mut ctx, true, [0; 32], &clock(1)),
        Err(TrustNetError::InsufficientFunds)
    );
    assert_eq!(ctx, oracle_ctx(JobStatus::Submitted, VerifyType::OracleVerify, 20_499));
}

fn expire_ctx(status: JobStatus, verification_type: VerifyType, lamports: u64) -> ExpireJob {
    ExpireJob {
        job_key: key(JOB),
        job: job(status, verification_type, 20_000, 500),
        job_vault: vault(lamports),
        treasury: key(TREASURY),
        program_id: key(PROGRAM),
    }
}

#[test]
fn an_active_job_past_its_deadline_is_refunded() {
    let mut ctx = expire_ctx(JobStatus::Active, VerifyType::ClientApproval, 20_500);
    assert_eq!(
        expire_job::settle(&mut ctx, &derived(), 10_000),
        Err(TrustNetError::DeadlineNotReached)
    );
    assert_eq!(ctx, expire_ctx(JobStatus::Active, VerifyType::ClientApproval, 20_500));
    let ts = expire_job::settle(&mut ctx, &derived(), 10_001).unwrap();
    assert_eq!(ts, vec![Transfer { from: key(VAULT), to: key(CLIENT), lamports: 20_500 }]);
    assert_eq!(ctx.job.status, JobStatus::Expired);
    assert_eq!(ctx.job.completed_at, None);
    assert_eq!(ctx.job_vault.lamports, 0);
}

#[test]
fn a_submitted_job_completes_by_itself_after_the_grace_period() {
    let mut ctx = expire_ctx(JobStatus::Submitted, VerifyType::DeadlineAuto, 20_500);
    assert_eq!(
        expire_job::settle(&mut ctx, &derived(), 13_600),
        Err(TrustNetError::DeadlineNotReached)
    );
    assert_eq!(ctx, expire_ctx(JobStatus::Submitted, VerifyType::DeadlineAuto, 20_500));
    let ts = expire_job::settle(&mut ctx, &derived(), 13_601).unwrap();
    assert_eq!(
        ts,
        vec![
            Transfer { from: key(VAULT), to: key(PROVIDER), lamports: 20_480 },
            Transfer { from: key(VAULT), to: key(TREASURY), lamports: 20 },
        ]
    );
    assert_eq!(ctx.job.status, JobStatus::Completed);
    assert_eq!(ctx.job_vault.lamports, 0);
}

#[test]
fn expiry_refusals() {
    for policy in [
        VerifyType::ClientApproval,
        VerifyType::OracleVerify,
        VerifyType::PeerReview,
        VerifyType::ZkVerify,
    ] {
        let mut ctx = expire_ctx(JobStatus::Submitted, policy, 20_500);
        assert_eq!(
            expire_job::settle(&mut ctx, &derived(), 1_000_000),
            Err(TrustNetError::InvalidStatus)
        );
    }
    for status in [
        JobStatus::Created,
        JobStatus::Completed,
        JobStatus::Disputed,
        JobStatus::Resolved,
        JobStatus::Cancelled,
        JobStatus::Expired,
    ] {
        let mut ctx = expire_ctx(status, VerifyType::DeadlineAuto, 20_500);
        assert_eq!(
            expire_job::settle(&mut ctx, &derived(), 1_000_000),
            Err(TrustNetError::InvalidStatus)
        );
        assert_eq!(ctx, expire_ctx(status, VerifyType::DeadlineAuto, 20_500));
    }
}

#[test]
fn expiry_checks_the_vault() {
    let other = Some(ProgramAddress { address: key(77), bump: 255 });
    let mut ctx = expire_ctx(JobStatus::Active, VerifyType::ClientApproval, 20_500);
    assert_eq!(expire_job::settle(&mut ctx, &other, 10_001), Err(TrustNetError::Unauthorized));
    assert_eq!(expire_job::settle(&mut ctx, &None, 10_001), Err(TrustNetError::Unauthorized));
    assert_eq!(ctx, expire_ctx(JobStatus::Active, VerifyType::ClientApproval, 20_500));
    let mut ctx = expire_ctx(JobStatus::Submitted, VerifyType::DeadlineAuto, 20_500);
    assert_eq!(expire_job::settle(&mut ctx, &other, 13_601), Err(TrustNetError::Unauthorized));
    let mut ctx = expire_ctx(JobStatus::Active, VerifyType::ClientApproval, 20_499);
    assert_eq!(
        expire_job::settle(&mut ctx, &derived(), 10_001),
        Err(TrustNetError::InsufficientFunds)
    );
    assert_eq!(ctx, expire_ctx(JobStatus::Active, VerifyType::ClientApproval, 20_499));
    // a total beyond 64 bits is told before a wrong vault is
    let mut ctx = expire_ctx(JobStatus::Active, VerifyType::ClientApproval, 20_500);
    ctx.job.amount = u64::MAX;
    assert_eq!(expire_job::settle(&mut ctx, &other, 10_001), Err(TrustNetError::InsufficientFunds));
}

#[test]
fn expiry_with_a_deadline_at_the_end_of_time() {
    let mut ctx = expire_ctx(JobStatus::Submitted, VerifyType::DeadlineAuto, 20_500);
    ctx.job.deadline = i64::MAX - 10;
    assert_eq!(
        expire_job::settle(&mut ctx, &derived(), i64::MAX),
        Err(TrustNetError::DeadlineNotReached)
    );
    let mut ctx = expire_ctx(JobStatus::Active, VerifyType::DeadlineAuto, 20_500);
    ctx.job.deadline = i64::MAX;
    assert_eq!(
        expire_job::settle(&mut ctx, &derived(), i64::MAX),
        Err(TrustNetError::DeadlineNotReached)
    );
}

#[test]
fn expiry_derives_the_address_of_the_vault() {
    let address = find_owned_address(&JOB_VAULT_SEED, &key(JOB), &key(PROGRAM)).unwrap().address;
    let mut ctx = expire_ctx(JobStatus::Active, VerifyType::ClientApproval, 20_500);
    // the vault in the context is not at the derived address
    assert_eq!(expire_job::handler(&mut ctx, &clock(10_001)), Err(TrustNetError::Unauthorized));
    assert_eq!(ctx, expire_ctx(JobStatus::Active, VerifyType::ClientApproval, 20_500));
    ctx.job_vault.key = address;
    assert_eq!(expire_job::handler(&mut ctx, &clock(10_000)), Err(TrustNetError::DeadlineNotReached));
    let ts = expire_job::handler(&mut ctx, &clock(10_001)).unwrap();
    assert_eq!(ts, vec![Transfer { from: address, to: key(CLIENT), lamports: 20_500 }]);
    assert_eq!(ctx.job.status, JobStatus::Expired);
    assert_eq!(ctx.job_vault, Vault { key: address, lamports: 0 });
    // under another program the same vault is not the job's
    let mut ctx = expire_ctx(JobStatus::Active, VerifyType::ClientApproval, 20_500);
    ctx.job_vault.key = address;
    ctx.program_id = key(PROGRAM + 1);
    assert_eq!(expire_job::handler(&mut ctx, &clock(10_001)), Err(TrustNetError::Unauthorized));
}

#[test]
fn job_lifecycle_from_creation_to_approval() {
    let mut create = create_ctx();
    create_job::handler(
        &mut create,
        [11; 32],
        1_000_000_000,
        10_000,
        VerifyType::ClientApproval,
        oracle_data(),
        [12; 32],
        &clock(100),
    )
    .unwrap();
    let mut accept = AcceptJob {
        provider: key(PROVIDER),
        job_key: key(JOB),
        job: create.job.unwrap(),
        job_vault: create.job_vault,
    };
    accept_job::handler(&mut accept, 50_000_000).unwrap();
    assert_eq!(accept.job_vault.lamports, 1_050_000_000);
    let mut submit = SubmitCompletion { provider: key(PROVIDER), job_key: key(JOB), job: accept.job };
    submit_completion::handler(&mut submit, [0; 32], &clock(500)).unwrap();
    let mut approve = ApproveCompletion {
        approver: key(CLIENT),
        job_key: key(JOB),
        job: submit.job,
        job_vault: accept.job_vault,
        treasury: key(TREASURY),
    };
    let ts = approve_completion::handler(&mut approve, &clock(600)).unwrap();
    assert_eq!(ts[0], Transfer { from: key(VAULT), to: key(PROVIDER), lamports: 1_049_000_000 });
    assert_eq!(ts[1], Transfer { from: key(VAULT), to: key(TREASURY), lamports: 1_000_000 });
    assert_eq!(approve.job_vault.lamports, 0);
    assert!(approve.job.status.is_terminal());
    assert_eq!(approve.job.submitted_at, Some(500));
    assert_eq!(approve.job.completed_at, Some(600));
    // nothing further can be taken from the job
    assert_eq!(
        approve_completion::handler(&mut approve, &clock(700)),
        Err(TrustNetError::InvalidStatus)
    );
}

#[test]
fn terminal_states() {
    assert!(JobStatus::Completed.is_terminal());
    assert!(JobStatus::Resolved.is_terminal());
    assert!(JobStatus::Cancelled.is_terminal());
    assert!(JobStatus::Expired.is_terminal());
    assert!(!JobStatus::Created.is_terminal());
    assert!(!JobStatus::Active.is_terminal());
    assert!(!JobStatus::Submitted.is_terminal());
    assert!(!JobStatus::Disputed.is_terminal());
}
