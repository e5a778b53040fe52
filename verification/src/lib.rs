//! A token-bucket rate limiter whose state lives in one account per client.
//!
//! Tokens are refilled lazily from the time elapsed since the last settlement,
//! capped at the bucket's capacity, and spent by requests; a request that finds
//! too few tokens is throttled and told how many seconds to wait.

pub mod error;
pub mod instruction;
pub mod laws;
pub mod processor;
pub mod state;

pub use error::RateLimiterError;
pub use instruction::RateLimiterInstruction;
pub use processor::Processor;
pub use state::RateLimiterAccount;
