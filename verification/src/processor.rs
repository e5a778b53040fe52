use vstd::prelude::*;

use crate::error::RateLimiterError;
use crate::laws::operations_keep_valid;
use crate::state::RateLimiterAccount;

verus! {

/// `x + 1`, or `u64::MAX` where that does not fit.
pub open spec fn saturating_inc(x: u64) -> u64 {
    if x == u64::MAX { u64::MAX } else { (x + 1) as u64 }
}

/// Tokens earned over `elapsed` seconds at `rate` tokens per second.
pub open spec fn earned_tokens(elapsed: int, rate: int) -> int {
    elapsed * rate
}

/// `n / d` rounded up, for `d > 0`.
pub open spec fn ceil_div(n: int, d: int) -> int {
    (n + d - 1) / d
}

/// The bucket after the lazy refill at `now`: when `now` is past the last
/// refill, the tokens earned since then are added, capped at the capacity, and
/// `now` becomes the last refill time; otherwise nothing changes. Fails with
/// `NumericalOverflow` when the earned tokens do not fit in a `u64`.
pub open spec fn refill_outcome(a: RateLimiterAccount, now: i64) -> Result<RateLimiterAccount, RateLimiterError> {
    if now > a.last_refill_timestamp {
        let earned = earned_tokens(now - a.last_refill_timestamp, a.refill_rate_per_sec as int);
        if earned > u64::MAX {
            Err(RateLimiterError::NumericalOverflow)
        } else {
            let filled = a.current_tokens + earned;
            Ok(RateLimiterAccount {
                current_tokens: if filled <= a.capacity { filled as u64 } else { a.capacity },
                last_refill_timestamp: now,
                ..a
            })
        }
    } else {
        Ok(a)
    }
}

/// The account that a successful initialization creates: `initial_tokens`
/// capped at the capacity, counters at zero, last refill at `now`.
pub open spec fn initialized_account(
    admin: [u8; 32],
    target: [u8; 32],
    capacity: u64,
    refill_rate_per_sec: u64,
    initial_tokens: u64,
    bump: u8,
    now: i64,
) -> RateLimiterAccount {
    RateLimiterAccount {
        admin,
        target,
        capacity,
        refill_rate_per_sec,
        last_refill_timestamp: now,
        current_tokens: if initial_tokens <= capacity { initial_tokens } else { capacity },
        total_requests: 0,
        total_throttled: 0,
        is_initialized: true,
        bump,
    }
}

/// What a request for `requested` tokens at `now` does to the bucket and what
/// it answers: an uninitialized account or an empty request is refused and
/// nothing changes; so is a refill that overflows. Otherwise the bucket is
/// refilled and the request counted; if enough tokens are there they are spent,
/// else the request is counted as throttled and answered with the number of
/// whole seconds after which the refill will have covered the deficit.
pub open spec fn acquire_outcome(a: RateLimiterAccount, requested: u64, now: i64) -> (RateLimiterAccount, Result<(), RateLimiterError>) {
    if !a.is_initialized {
        (a, Err(RateLimiterError::Uninitialized))
    } else if requested == 0 {
        (a, Err(RateLimiterError::InvalidTokenAmount))
    } else {
        match refill_outcome(a, now) {
            Err(e) => (a, Err(e)),
            Ok(filled) => {
                let counted = RateLimiterAccount { total_requests: saturating_inc(filled.total_requests), ..filled };
                if counted.current_tokens >= requested {
                    (RateLimiterAccount { current_tokens: (counted.current_tokens - requested) as u64, ..counted }, Ok(()))
                } else {
                    (
                        RateLimiterAccount { total_throttled: saturating_inc(counted.total_throttled), ..counted },
                        Err(RateLimiterError::RateLimitExceeded {
                            retry_after_seconds: ceil_div(
                                requested - counted.current_tokens,
                                counted.refill_rate_per_sec as int,
                            ) as u64,
                        }),
                    )
                }
            },
        }
    }
}

/// The one input on which a request cannot be answered: an initialized bucket
/// with a zero refill rate that has too few tokens, whose waiting time would be
/// a division by zero.
pub open spec fn throttled_at_zero_rate(a: RateLimiterAccount, requested: u64, now: i64) -> bool {
    &&& a.is_initialized
    &&& requested > 0
    &&& a.refill_rate_per_sec == 0
    &&& refill_outcome(a, now) matches Ok(filled) && filled.current_tokens < requested
}

/// What a policy update by `caller` does: refused without change unless the
/// account is initialized, `caller` is its administrator and both new values
/// are positive; otherwise the bucket is settled at the old rate up to `now`,
/// the new capacity and rate take effect and the tokens are capped at the new
/// capacity.
pub open spec fn update_policy_outcome(
    a: RateLimiterAccount,
    caller: [u8; 32],
    new_capacity: u64,
    new_refill_rate_per_sec: u64,
    now: i64,
) -> (RateLimiterAccount, Result<(), RateLimiterError>) {
    if !a.is_initialized {
        (a, Err(RateLimiterError::Uninitialized))
    } else if a.admin != caller {
        (a, Err(RateLimiterError::Unauthorized))
    } else if new_capacity == 0 {
        (a, Err(RateLimiterError::InvalidCapacity))
    } else if new_refill_rate_per_sec == 0 {
        (a, Err(RateLimiterError::InvalidRefillRate))
    } else {
        match refill_outcome(a, now) {
            Err(e) => (a, Err(e)),
            Ok(filled) => (
                RateLimiterAccount {
                    capacity: new_capacity,
                    refill_rate_per_sec: new_refill_rate_per_sec,
                    current_tokens: if filled.current_tokens <= new_capacity { filled.current_tokens } else { new_capacity },
                    ..filled
                },
                Ok(()),
            ),
        }
    }
}

/// What a reset by `caller` does: refused without change unless the account is
/// initialized and `caller` is its administrator; otherwise the bucket is full,
/// its last refill is `now` and no request counts as throttled.
pub open spec fn reset_outcome(a: RateLimiterAccount, caller: [u8; 32], now: i64) -> (RateLimiterAccount, Result<(), RateLimiterError>) {
    if !a.is_initialized {
        (a, Err(RateLimiterError::Uninitialized))
    } else if a.admin != caller {
        (a, Err(RateLimiterError::Unauthorized))
    } else {
        (
            RateLimiterAccount {
                current_tokens: a.capacity,
                last_refill_timestamp: now,
                total_throttled: 0,
                ..a
            },
            Ok(()),
        )
    }
}

/// Whether two 32-byte keys are equal.
fn same_key(a: &[u8; 32], b: &[u8; 32]) -> (same: bool)
    ensures
        same == (*a == *b),
{
    let mut i: usize = 0;
    while i < 32
        invariant
            i <= 32,
            forall|j: int| 0 <= j < i ==> a[j] == b[j],
        decreases 32 - i,
    {
        if a[i] != b[i] {
            assert(!(*a =~= *b));
            return false;
        }
        i = i + 1;
    }
    assert(*a =~= *b);
    true
}

/// Stateless entry points of the rate limiter.
pub struct Processor;

impl Processor {
    /// Core lazy refill token bucket logic.
    /// Evaluates the tokens added since `last_refill_timestamp` and updates the available tokens.
    pub fn refill(account: &mut RateLimiterAccount, current_timestamp: i64) -> (result: Result<(), RateLimiterError>)
        ensures
            match refill_outcome(*old(account), current_timestamp) {
                Ok(next) => result is Ok && *final(account) == next,
                Err(e) => result == Err::<(), RateLimiterError>(e) && *final(account) == *old(account),
            },
            old(account).valid() ==> final(account).valid(),
    {
        proof {
            if account.valid() {
                operations_keep_valid(*account, account.admin, 1, 1, 1, current_timestamp);
            }
        }
        if current_timestamp > account.last_refill_timestamp {
            let elapsed_seconds = (current_timestamp as i128 - account.last_refill_timestamp as i128) as u64;
            let tokens_to_add = match elapsed_seconds.checked_mul(account.refill_rate_per_sec) {
                Some(t) => t,
                None => return Err(RateLimiterError::NumericalOverflow),
            };
            account.current_tokens = account.current_tokens.saturating_add(tokens_to_add).min(account.capacity);
            account.last_refill_timestamp = current_timestamp;
        }
        Ok(())
    }

    /// Process Initialize instruction
    pub fn process_initialize(
        admin: [u8; 32],
        target: [u8; 32],
        capacity: u64,
        refill_rate_per_sec: u64,
        initial_tokens: u64,
        bump: u8,
        current_timestamp: i64,
    ) -> (result: Result<RateLimiterAccount, RateLimiterError>)
        ensures
            capacity == 0 ==> result == Err::<RateLimiterAccount, RateLimiterError>(RateLimiterError::InvalidCapacity),
            capacity > 0 && refill_rate_per_sec == 0 ==> result == Err::<RateLimiterAccount, RateLimiterError>(
                RateLimiterError::InvalidRefillRate,
            ),
            capacity > 0 && refill_rate_per_sec > 0 ==> result == Ok::<RateLimiterAccount, RateLimiterError>(
                initialized_account(admin, target, capacity, refill_rate_per_sec, initial_tokens, bump, current_timestamp),
            ),
            result matches Ok(account) ==> account.valid(),
    {
        if capacity == 0 {
            return Err(RateLimiterError::InvalidCapacity);
        }
        if refill_rate_per_sec == 0 {
            return Err(RateLimiterError::InvalidRefillRate);
        }

        let tokens = initial_tokens.min(capacity);

        Ok(RateLimiterAccount {
            admin,
            target,
            capacity,
            refill_rate_per_sec,
            last_refill_timestamp: current_timestamp,
            current_tokens: tokens,
            total_requests: 0,
            total_throttled: 0,
            is_initialized: true,
            bump,
        })
    }

    /// Process Acquire tokens instruction
    pub fn process_acquire(
        account: &mut RateLimiterAccount,
        requested_tokens: u64,
        current_timestamp: i64,
    ) -> (result: Result<(), RateLimiterError>)
        requires
            !throttled_at_zero_rate(*old(account), requested_tokens, current_timestamp),
        ensures
            (*final(account), result) == acquire_outcome(*old(account), requested_tokens, current_timestamp),
            old(account).valid() ==> final(account).valid(),
    {
        proof {
            if account.valid() {
                operations_keep_valid(*account, account.admin, requested_tokens, 1, 1, current_timestamp);
            }
        }
        if !account.is_initialized {
            return Err(RateLimiterError::Uninitialized);
        }
        if requested_tokens == 0 {
            return Err(RateLimiterError::InvalidTokenAmount);
        }

        // 1. Refill tokens based on elapsed time
        Self::refill(account, current_timestamp)?;

        // 2. Metric increment
        account.total_requests = account.total_requests.saturating_add(1);

        // 3. Evaluation
        if account.current_tokens >= requested_tokens {
            account.current_tokens = account.current_tokens - requested_tokens;
            Ok(())
        } else {
            // Throttled: calculate how many seconds until sufficient tokens are available
            account.total_throttled = account.total_throttled.saturating_add(1);
            let deficit = requested_tokens - account.current_tokens;
            let rate = account.refill_rate_per_sec;
            let retry_after = ((deficit as u128 + rate as u128 - 1) / rate as u128) as u64;
            Err(RateLimiterError::RateLimitExceeded { retry_after_seconds: retry_after })
        }
    }

    /// Process UpdatePolicy instruction
    pub fn process_update_policy(
        account: &mut RateLimiterAccount,
        caller: [u8; 32],
        new_capacity: u64,
        new_refill_rate_per_sec: u64,
        current_timestamp: i64,
    ) -> (result: Result<(), RateLimiterError>)
        ensures
            (*final(account), result) == update_policy_outcome(
                *old(account),
                caller,
                new_capacity,
                new_refill_rate_per_sec,
                current_timestamp,
            ),
            old(account).valid() ==> final(account).valid(),
    {
        proof {
            if account.valid() {
                operations_keep_valid(*account, caller, 1, new_capacity, new_refill_rate_per_sec, current_timestamp);
            }
        }
        if !account.is_initialized {
            return Err(RateLimiterError::Uninitialized);
        }
        if !same_key(&account.admin, &caller) {
            return Err(RateLimiterError::Unauthorized);
        }
        if new_capacity == 0 {
            return Err(RateLimiterError::InvalidCapacity);
        }
        if new_refill_rate_per_sec == 0 {
            return Err(RateLimiterError::InvalidRefillRate);
        }

        // Settle before updating policy
        Self::refill(account, current_timestamp)?;

        account.capacity = new_capacity;
        account.refill_rate_per_sec = new_refill_rate_per_sec;
        account.current_tokens = account.current_tokens.min(new_capacity);

        Ok(())
    }

    /// Process Reset instruction
    pub fn process_reset(
        account: &mut RateLimiterAccount,
        caller: [u8; 32],
        current_timestamp: i64,
    ) -> (result: Result<(), RateLimiterError>)
        ensures
            (*final(account), result) == reset_outcome(*old(account), caller, current_timestamp),
            old(account).valid() ==> final(account).valid(),
    {
        proof {
            if account.valid() {
                operations_keep_valid(*account, caller, 1, 1, 1, current_timestamp);
            }
        }
        if !account.is_initialized {
            return Err(RateLimiterError::Uninitialized);
        }
        if !same_key(&account.admin, &caller) {
            return Err(RateLimiterError::Unauthorized);
        }

        account.current_tokens = account.capacity;
        account.last_refill_timestamp = current_timestamp;
        account.total_throttled = 0;

        Ok(())
    }
}

} // verus!
