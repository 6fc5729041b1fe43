pub mod accept_job;
pub mod approve_completion;
pub mod commit_vote;
pub mod create_job;
pub mod expire_job;
pub mod init_reputation;
pub mod oracle_verify;
pub mod raise_dispute;
pub mod rate_job;
pub mod register_arbiter;
pub mod resolve_dispute;
pub mod reveal_vote;
pub mod settlement;
pub mod stake_reputation;
pub mod submit_completion;
