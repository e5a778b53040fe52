use vstd::prelude::*;

verus! {

/// The state of one rate limiter, stored in an account derived from
/// `[b"rate_limiter", admin_pubkey, target_identifier]`.
#[derive(Debug, Clone, PartialEq, Eq)]
pub struct RateLimiterAccount {
    /// Administrator who may update the policy or reset the bucket.
    pub admin: [u8; 32],
    /// Target identifier (client key, API key hash or IP hash).
    pub target: [u8; 32],
    /// Maximum number of tokens the bucket holds (burst limit).
    pub capacity: u64,
    /// Number of tokens refilled per second.
    pub refill_rate_per_sec: u64,
    /// Unix timestamp (seconds) of the last lazy refill.
    pub last_refill_timestamp: i64,
    /// Tokens currently available.
    pub current_tokens: u64,
    /// Requests that reached the token check.
    pub total_requests: u64,
    /// Requests refused for want of tokens since the last reset.
    pub total_throttled: u64,
    /// Whether this account has been initialized.
    pub is_initialized: bool,
    /// Bump seed for address derivation.
    pub bump: u8,
}

impl RateLimiterAccount {
    /// Size of the serialized account in bytes.
    pub const LEN: usize = 32 + 32 + 8 + 8 + 8 + 8 + 8 + 8 + 1 + 1;

    /// The invariant of a live bucket: initialized, with a positive capacity
    /// and rate, never more tokens than its capacity, and never more throttled
    /// requests than requests.
    pub open spec fn valid(self) -> bool {
        &&& self.is_initialized
        &&& self.capacity > 0
        &&& self.refill_rate_per_sec > 0
        &&& self.current_tokens <= self.capacity
        &&& self.total_throttled <= self.total_requests
    }
}

} // verus!
