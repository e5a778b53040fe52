use vstd::prelude::*;

verus! {

/// Everything an operation on a rate limiter account can refuse with.
#[derive(Debug, Copy, Clone, PartialEq, Eq, Structural)]
pub enum RateLimiterError {
    /// Too few tokens; enough will have been refilled after this many seconds.
    RateLimitExceeded { retry_after_seconds: u64 },
    /// The caller is not the account's administrator.
    Unauthorized,
    /// The account is already initialized.
    AlreadyInitialized,
    /// The account is not initialized.
    Uninitialized,
    /// A request must ask for at least one token.
    InvalidTokenAmount,
    /// The tokens earned since the last refill do not fit in a `u64`.
    NumericalOverflow,
    /// The refill rate must be greater than zero.
    InvalidRefillRate,
    /// The capacity must be greater than zero.
    InvalidCapacity,
}

} // verus!
