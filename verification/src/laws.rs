//! Properties of the rate limiter that hold across calls and over sequences of
//! requests, stated over the outcome functions of `processor`.
use vstd::prelude::*;

use crate::error::RateLimiterError;
use crate::processor::{
    acquire_outcome, ceil_div, earned_tokens, initialized_account, refill_outcome, reset_outcome,
    update_policy_outcome,
};
use crate::state::RateLimiterAccount;

verus! {

/// Tokens earned over consecutive intervals add up.
proof fn lemma_earned_adds(x: int, y: int, rate: int)
    ensures
        earned_tokens(x, rate) + earned_tokens(y, rate) == earned_tokens(x + y, rate),
{
    assert(x * rate + y * rate == (x + y) * rate) by (nonlinear_arith);
}

/// A longer wait earns at least as many tokens.
proof fn lemma_earned_monotone(x: int, y: int, rate: int)
    requires
        0 <= x <= y,
        rate >= 0,
    ensures
        0 <= earned_tokens(x, rate) <= earned_tokens(y, rate),
{
    assert(0 <= x * rate <= y * rate) by (nonlinear_arith)
        requires
            0 <= x <= y,
            rate >= 0,
    ;
}

/// The rounded-up quotient `w` of a positive deficit `d` by a positive rate
/// `r` is the least number of seconds whose earnings cover `d`.
proof fn lemma_ceil_div_is_least_cover(d: int, r: int)
    requires
        d >= 1,
        r >= 1,
    ensures
        1 <= ceil_div(d, r) <= d,
        earned_tokens(ceil_div(d, r), r) >= d,
        earned_tokens(ceil_div(d, r) - 1, r) < d,
{
    let n = d + r - 1;
    let q = n / r;
    let m = n % r;
    vstd::arithmetic::div_mod::lemma_fundamental_div_mod(n, r);
    assert(0 <= m < r);
    assert(n == r * q + m);
    assert(q * r >= d && (q - 1) * r < d && 1 <= q <= d) by (nonlinear_arith)
        requires
            n == d + r - 1,
            n == r * q + m,
            0 <= m < r,
            d >= 1,
            r >= 1,
    ;
}

/// Refilling never leaves more tokens than the capacity once time has passed,
/// never removes tokens below what the capacity allows, and never moves the
/// last refill time backwards: it becomes the later of the old one and `now`.
pub proof fn refill_respects_capacity_and_clock(a: RateLimiterAccount, now: i64)
    ensures
        refill_outcome(a, now) matches Ok(b) ==> {
            &&& now > a.last_refill_timestamp ==> b.current_tokens <= b.capacity
            &&& b.current_tokens >= a.current_tokens || b.current_tokens == b.capacity
            &&& b.last_refill_timestamp == if now > a.last_refill_timestamp { now } else { a.last_refill_timestamp }
            &&& b.capacity == a.capacity && b.refill_rate_per_sec == a.refill_rate_per_sec
        },
{
    if now > a.last_refill_timestamp {
        lemma_earned_monotone(0, now - a.last_refill_timestamp, a.refill_rate_per_sec as int);
    }
}

/// Refilling twice at the same time is the same as refilling once.
pub proof fn refill_is_idempotent(a: RateLimiterAccount, now: i64)
    ensures
        refill_outcome(a, now) matches Ok(b) ==> refill_outcome(b, now) == Ok::<RateLimiterAccount, RateLimiterError>(b),
{
}

/// Lossless lazy refill: settling the bucket at `t1` and then at a later `t2`
/// gives the same bucket as settling it once at `t2`, wherever the tokens
/// earned by `t2` fit in a `u64`.
pub proof fn refill_splits_over_time(a: RateLimiterAccount, t1: i64, t2: i64)
    requires
        t1 <= t2,
        refill_outcome(a, t2) is Ok,
    ensures
        refill_outcome(a, t1) is Ok,
        refill_outcome(refill_outcome(a, t1)->Ok_0, t2) == refill_outcome(a, t2),
{
    let t0 = a.last_refill_timestamp;
    let r = a.refill_rate_per_sec as int;
    if t1 > t0 {
        lemma_earned_monotone(t1 - t0, t2 - t0, r);
        lemma_earned_monotone(t2 - t1, t2 - t0, r);
        lemma_earned_adds(t1 - t0, t2 - t1, r);
        let b = refill_outcome(a, t1)->Ok_0;
        assert(b.last_refill_timestamp == t1);
        if t2 > t1 {
            let whole = refill_outcome(a, t2)->Ok_0;
            let split = refill_outcome(b, t2)->Ok_0;
            assert(split.current_tokens == whole.current_tokens);
            assert(split == whole);
        }
    }
}

/// A refused request changes nothing: every refusal of `process_acquire` other
/// than throttling, and every refusal of `process_update_policy` and
/// `process_reset`, leaves the account exactly as it was.
pub proof fn refusals_change_nothing(
    a: RateLimiterAccount,
    caller: [u8; 32],
    requested: u64,
    new_capacity: u64,
    new_refill_rate_per_sec: u64,
    now: i64,
)
    ensures
        acquire_outcome(a, requested, now).1 matches Err(e) && !(e is RateLimitExceeded)
            ==> acquire_outcome(a, requested, now).0 == a,
        update_policy_outcome(a, caller, new_capacity, new_refill_rate_per_sec, now).1 is Err
            ==> update_policy_outcome(a, caller, new_capacity, new_refill_rate_per_sec, now).0 == a,
        reset_outcome(a, caller, now).1 is Err ==> reset_outcome(a, caller, now).0 == a,
{
}

/// Only the administrator changes the policy or resets the bucket: a caller
/// other than the admin is refused with `Unauthorized` on an initialized
/// account, and the account stays as it was.
pub proof fn only_admin_changes_policy(
    a: RateLimiterAccount,
    caller: [u8; 32],
    new_capacity: u64,
    new_refill_rate_per_sec: u64,
    now: i64,
)
    requires
        a.is_initialized,
        a.admin != caller,
    ensures
        update_policy_outcome(a, caller, new_capacity, new_refill_rate_per_sec, now) == (
            a,
            Err::<(), RateLimiterError>(RateLimiterError::Unauthorized),
        ),
        reset_outcome(a, caller, now) == (a, Err::<(), RateLimiterError>(RateLimiterError::Unauthorized)),
{
}

/// A granted request takes exactly the requested tokens from the refilled
/// bucket; a throttled one takes none, and the refilled bucket indeed held
/// fewer tokens than requested.
pub proof fn acquire_spends_exactly_what_it_grants(a: RateLimiterAccount, requested: u64, now: i64)
    ensures
        acquire_outcome(a, requested, now).1 is Ok ==> {
            &&& refill_outcome(a, now) is Ok
            &&& acquire_outcome(a, requested, now).0.current_tokens + requested
                == refill_outcome(a, now)->Ok_0.current_tokens
        },
        acquire_outcome(a, requested, now).1 is Err && acquire_outcome(a, requested, now).1->Err_0 is RateLimitExceeded ==> {
            &&& refill_outcome(a, now) is Ok
            &&& acquire_outcome(a, requested, now).0.current_tokens == refill_outcome(a, now)->Ok_0.current_tokens
            &&& acquire_outcome(a, requested, now).0.current_tokens < requested
        },
{
}

/// The waiting time of a throttled request is exact: on a bucket settled up
/// to `now`, a request refused at `now` with `retry_after_seconds == w` is
/// granted when repeated `w` seconds later, and still throttled when repeated
/// after `w - 1` seconds (provided the bucket can ever hold that many tokens,
/// the later time fits in an `i64`, and the tokens earned by then fit in a
/// `u64`).
pub proof fn retry_after_is_the_exact_wait(a: RateLimiterAccount, requested: u64, now: i64, w: u64)
    requires
        a.valid(),
        now >= a.last_refill_timestamp,
        requested <= a.capacity,
        acquire_outcome(a, requested, now).1 == Err::<(), RateLimiterError>(
            RateLimiterError::RateLimitExceeded { retry_after_seconds: w },
        ),
        now + w <= i64::MAX,
        refill_outcome(acquire_outcome(a, requested, now).0, (now + w) as i64) is Ok,
    ensures
        w >= 1,
        acquire_outcome(acquire_outcome(a, requested, now).0, requested, (now + w) as i64).1 is Ok,
        acquire_outcome(acquire_outcome(a, requested, now).0, requested, (now + w - 1) as i64).1 matches Err(e)
            && e is RateLimitExceeded,
{
    let b = acquire_outcome(a, requested, now).0;
    let r = a.refill_rate_per_sec as int;
    let d = requested - b.current_tokens;
    lemma_ceil_div_is_least_cover(d, r);
    assert(w == ceil_div(d, r));
    assert(b.last_refill_timestamp == now);
    lemma_earned_monotone((w - 1) as int, w as int, r);
    let later = (now + w - 1) as i64;
    if later > now {
        let f = refill_outcome(b, later)->Ok_0;
        assert(f.current_tokens < requested);
    }
}

/// Every operation keeps a valid bucket valid, whatever it answers.
pub proof fn operations_keep_valid(
    a: RateLimiterAccount,
    caller: [u8; 32],
    requested: u64,
    new_capacity: u64,
    new_refill_rate_per_sec: u64,
    now: i64,
)
    requires
        a.valid(),
    ensures
        refill_outcome(a, now) matches Ok(b) ==> b.valid(),
        acquire_outcome(a, requested, now).0.valid(),
        update_policy_outcome(a, caller, new_capacity, new_refill_rate_per_sec, now).0.valid(),
        reset_outcome(a, caller, now).0.valid(),
{
    refill_respects_capacity_and_clock(a, now);
}

/// The bucket after answering `requests` in order, each a pair of the
/// requested amount and the time of the request.
pub open spec fn after_requests(a: RateLimiterAccount, requests: Seq<(u64, i64)>) -> RateLimiterAccount
    decreases requests.len(),
{
    if requests.len() == 0 {
        a
    } else {
        after_requests(acquire_outcome(a, requests[0].0, requests[0].1).0, requests.drop_first())
    }
}

/// The total number of tokens granted while answering `requests` in order.
pub open spec fn tokens_granted(a: RateLimiterAccount, requests: Seq<(u64, i64)>) -> int
    decreases requests.len(),
{
    if requests.len() == 0 {
        0
    } else {
        let step = acquire_outcome(a, requests[0].0, requests[0].1);
        (if step.1 is Ok { requests[0].0 as int } else { 0 }) + tokens_granted(step.0, requests.drop_first())
    }
}

/// One request: the tokens it grants plus those it leaves are at most the
/// tokens there were plus those earned since the last refill.
proof fn lemma_one_request_is_covered(a: RateLimiterAccount, requested: u64, now: i64)
    ensures
        ({
            let step = acquire_outcome(a, requested, now);
            &&& step.0.last_refill_timestamp >= a.last_refill_timestamp
            &&& step.0.refill_rate_per_sec == a.refill_rate_per_sec
            &&& (if step.1 is Ok { requested as int } else { 0 }) + step.0.current_tokens
                <= a.current_tokens + earned_tokens(
                    step.0.last_refill_timestamp - a.last_refill_timestamp,
                    a.refill_rate_per_sec as int,
                )
        }),
{
    assert(earned_tokens(0, a.refill_rate_per_sec as int) == 0);
}

/// The token-bucket guarantee: over any sequence of requests, the tokens
/// granted plus the tokens left never exceed the tokens at the start plus the
/// tokens earned at the refill rate over the time the bucket was settled
/// across; that time never runs backwards.
pub proof fn requests_never_outrun_the_refill(a: RateLimiterAccount, requests: Seq<(u64, i64)>)
    ensures
        after_requests(a, requests).last_refill_timestamp >= a.last_refill_timestamp,
        after_requests(a, requests).refill_rate_per_sec == a.refill_rate_per_sec,
        tokens_granted(a, requests) + after_requests(a, requests).current_tokens
            <= a.current_tokens + earned_tokens(
                after_requests(a, requests).last_refill_timestamp - a.last_refill_timestamp,
                a.refill_rate_per_sec as int,
            ),
    decreases requests.len(),
{
    if requests.len() == 0 {
        assert(earned_tokens(0, a.refill_rate_per_sec as int) == 0);
    } else {
        let b = acquire_outcome(a, requests[0].0, requests[0].1).0;
        lemma_one_request_is_covered(a, requests[0].0, requests[0].1);
        requests_never_outrun_the_refill(b, requests.drop_first());
        let z = after_requests(b, requests.drop_first());
        lemma_earned_adds(
            b.last_refill_timestamp - a.last_refill_timestamp,
            z.last_refill_timestamp - b.last_refill_timestamp,
            a.refill_rate_per_sec as int,
        );
    }
}

/// The tokens a bucket holds once settled at `now`: if `now` is past the last
/// refill, the old tokens plus `rate` per elapsed second, at most the
/// capacity; otherwise the old tokens.
pub open spec fn settled_tokens(a: RateLimiterAccount, now: i64) -> int {
    if now > a.last_refill_timestamp {
        let sum = a.current_tokens + (now - a.last_refill_timestamp) * a.refill_rate_per_sec;
        if sum <= a.capacity { sum } else { a.capacity as int }
    } else {
        a.current_tokens as int
    }
}

/// Whether settling at `now` earns more tokens than a `u64` holds.
pub open spec fn settling_overflows(a: RateLimiterAccount, now: i64) -> bool {
    now > a.last_refill_timestamp && (now - a.last_refill_timestamp) * a.refill_rate_per_sec > u64::MAX
}

/// A refill fails with `NumericalOverflow`, changing nothing, exactly when the
/// tokens earned since the last refill do not fit in a `u64`; otherwise the
/// bucket holds the settled tokens, its last refill is the later of the old
/// one and `now`, and nothing else changes.
pub proof fn refill_settles_the_bucket(a: RateLimiterAccount, now: i64)
    ensures
        settling_overflows(a, now) ==> refill_outcome(a, now) == Err::<RateLimiterAccount, RateLimiterError>(
            RateLimiterError::NumericalOverflow,
        ),
        !settling_overflows(a, now) ==> refill_outcome(a, now) == Ok::<RateLimiterAccount, RateLimiterError>(
            RateLimiterAccount {
                current_tokens: settled_tokens(a, now) as u64,
                last_refill_timestamp: if now > a.last_refill_timestamp { now } else { a.last_refill_timestamp },
                ..a
            },
        ),
        0 <= settled_tokens(a, now) <= u64::MAX,
{
}

/// A successful initialization starts the bucket with the initial tokens,
/// capped only at the capacity (the smaller of the two), empty counters, its
/// last refill at `now`, and the given identity and policy.
pub proof fn initialize_starts_with_the_initial_tokens_capped(
    admin: [u8; 32],
    target: [u8; 32],
    capacity: u64,
    refill_rate_per_sec: u64,
    initial_tokens: u64,
    bump: u8,
    now: i64,
)
    ensures
        ({
            let b = initialized_account(admin, target, capacity, refill_rate_per_sec, initial_tokens, bump, now);
            &&& b.current_tokens <= initial_tokens
            &&& b.current_tokens <= capacity
            &&& b.current_tokens == initial_tokens || b.current_tokens == capacity
            &&& b.capacity == capacity && b.refill_rate_per_sec == refill_rate_per_sec
            &&& b.last_refill_timestamp == now
            &&& b.total_requests == 0 && b.total_throttled == 0
            &&& b.is_initialized
            &&& b.admin == admin && b.target == target && b.bump == bump
        }),
{
}

/// Which refusals a request gets: `Uninitialized` exactly for an
/// uninitialized account, `InvalidTokenAmount` exactly for a request of zero
/// tokens on an initialized one, `NumericalOverflow` exactly when settling
/// overflows; any other answer is a grant or a throttle.
pub proof fn acquire_refuses_exactly(a: RateLimiterAccount, requested: u64, now: i64)
    ensures
        (acquire_outcome(a, requested, now).1 == Err::<(), RateLimiterError>(RateLimiterError::Uninitialized))
            <==> !a.is_initialized,
        (acquire_outcome(a, requested, now).1 == Err::<(), RateLimiterError>(RateLimiterError::InvalidTokenAmount))
            <==> (a.is_initialized && requested == 0),
        (acquire_outcome(a, requested, now).1 == Err::<(), RateLimiterError>(RateLimiterError::NumericalOverflow))
            <==> (a.is_initialized && requested > 0 && settling_overflows(a, now)),
        a.is_initialized && requested > 0 && !settling_overflows(a, now) ==> (
            acquire_outcome(a, requested, now).1 is Ok
            || (acquire_outcome(a, requested, now).1 matches Err(e) && e is RateLimitExceeded)),
{
}

/// A request on an initialized bucket, for at least one token, whose
/// settlement does not overflow: the bucket is settled at `now` and the request
/// counted; if the settled tokens cover it, it is granted and they are reduced
/// by exactly the request; otherwise, whatever the request's size, it is
/// throttled, counted as throttled, takes nothing, and is told the least
/// number of whole seconds whose earnings cover the deficit.
pub proof fn acquire_grants_or_throttles(a: RateLimiterAccount, requested: u64, now: i64)
    requires
        a.is_initialized,
        requested > 0,
        !settling_overflows(a, now),
    ensures
        ({
            let out = acquire_outcome(a, requested, now);
            let b = out.0;
            let settled = settled_tokens(a, now);
            &&& b.last_refill_timestamp == if now > a.last_refill_timestamp { now } else { a.last_refill_timestamp }
            &&& b.total_requests == if a.total_requests == u64::MAX { u64::MAX } else { (a.total_requests + 1) as u64 }
            &&& b.capacity == a.capacity && b.refill_rate_per_sec == a.refill_rate_per_sec
            &&& b.admin == a.admin && b.target == a.target && b.bump == a.bump && b.is_initialized
            &&& settled >= requested ==> {
                &&& out.1 is Ok
                &&& b.current_tokens == settled - requested
                &&& b.total_throttled == a.total_throttled
            }
            &&& settled < requested ==> {
                &&& b.current_tokens == settled
                &&& b.total_throttled == if a.total_throttled == u64::MAX { u64::MAX } else { (a.total_throttled + 1) as u64 }
                &&& out.1 matches Err(e) && e is RateLimitExceeded
                &&& a.refill_rate_per_sec > 0 ==> {
                    let w = out.1->Err_0->retry_after_seconds;
                    &&& w * a.refill_rate_per_sec >= requested - settled
                    &&& (w - 1) * a.refill_rate_per_sec < requested - settled
                }
            }
        }),
{
    let settled = settled_tokens(a, now);
    if settled < requested && a.refill_rate_per_sec > 0 {
        lemma_ceil_div_is_least_cover(requested - settled, a.refill_rate_per_sec as int);
    }
}

/// A policy update succeeds exactly when the account is initialized, the
/// caller is its administrator, both new values are positive and settling does
/// not overflow. Then the bucket is first settled at the old rate up to `now`,
/// and afterwards holds the smaller of the settled tokens and the new capacity,
/// with the new capacity and rate; counters and identity are untouched.
pub proof fn update_policy_settles_at_the_old_rate_first(
    a: RateLimiterAccount,
    caller: [u8; 32],
    new_capacity: u64,
    new_refill_rate_per_sec: u64,
    now: i64,
)
    ensures
        ({
            let out = update_policy_outcome(a, caller, new_capacity, new_refill_rate_per_sec, now);
            let b = out.0;
            let settled = settled_tokens(a, now);
            &&& out.1 is Ok <==> (a.is_initialized && a.admin == caller && new_capacity > 0
                && new_refill_rate_per_sec > 0 && !settling_overflows(a, now))
            &&& out.1 is Ok ==> {
                &&& b.capacity == new_capacity
                &&& b.refill_rate_per_sec == new_refill_rate_per_sec
                &&& b.last_refill_timestamp == if now > a.last_refill_timestamp { now } else { a.last_refill_timestamp }
                &&& b.current_tokens <= settled
                &&& b.current_tokens <= new_capacity
                &&& b.current_tokens == settled || b.current_tokens == new_capacity
                &&& b.total_requests == a.total_requests && b.total_throttled == a.total_throttled
                &&& b.admin == a.admin && b.target == a.target && b.bump == a.bump && b.is_initialized
            }
        }),
{
}

/// A reset succeeds exactly when the account is initialized and the caller is
/// its administrator. Then the bucket is full to its capacity whatever it held
/// before, its last refill is `now`, no request counts as throttled, and the
/// request count, policy and identity are untouched.
pub proof fn reset_fills_the_bucket(a: RateLimiterAccount, caller: [u8; 32], now: i64)
    ensures
        ({
            let out = reset_outcome(a, caller, now);
            let b = out.0;
            &&& out.1 is Ok <==> (a.is_initialized && a.admin == caller)
            &&& out.1 is Ok ==> {
                &&& b.current_tokens == a.capacity
                &&& b.capacity == a.capacity && b.refill_rate_per_sec == a.refill_rate_per_sec
                &&& b.last_refill_timestamp == now
                &&& b.total_throttled == 0
                &&& b.total_requests == a.total_requests
                &&& b.admin == a.admin && b.target == a.target && b.bump == a.bump && b.is_initialized
            }
        }),
{
}

} // verus!
