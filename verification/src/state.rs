pub mod arbiter;
pub mod dispute;
pub mod job_escrow;
pub mod reputation;
