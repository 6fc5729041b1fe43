pub mod constants;
pub mod errors;
pub mod hashing;
pub mod math;
pub mod time;
