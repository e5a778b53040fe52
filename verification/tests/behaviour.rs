use solana_onchain_rate_limiter::Processor;
use solana_onchain_rate_limiter::RateLimiterAccount;
use solana_onchain_rate_limiter::RateLimiterError;
use solana_onchain_rate_limiter::RateLimiterInstruction;

const ADMIN: [u8; 32] = [1u8; 32];
const TARGET: [u8; 32] = [2u8; 32];

fn bucket(capacity: u64, rate: u64, tokens: u64, now: i64) -> RateLimiterAccount {
    Processor::process_initialize(ADMIN, TARGET, capacity, rate, tokens, 7, now).unwrap()
}

fn is_valid(a: &RateLimiterAccount) -> bool {
    a.is_initialized
        && a.capacity > 0
        && a.refill_rate_per_sec > 0
        && a.current_tokens <= a.capacity
        && a.total_throttled <= a.total_requests
}

#[test]
fn account_len_is_114_bytes() {
    assert_eq!(RateLimiterAccount::LEN, 114);
}

#[test]
fn initialize_caps_initial_tokens_and_keeps_identity() {
    let account = bucket(30, 4, 100, -5);
    assert_eq!(account.current_tokens, 30);
    assert_eq!(account.admin, ADMIN);
    assert_eq!(account.target, TARGET);
    assert_eq!(account.bump, 7);
    assert_eq!(account.last_refill_timestamp, -5);
    assert!(is_valid(&account));
}

#[test]
fn initialize_checks_capacity_before_rate() {
    assert_eq!(
        Processor::process_initialize(ADMIN, TARGET, 0, 0, 0, 0, 0).unwrap_err(),
        RateLimiterError::InvalidCapacity
    );
}

#[test]
fn refill_adds_rate_times_elapsed() {
    let mut account = bucket(100, 5, 10, 1000);
    Processor::refill(&mut account, 1003).unwrap();
    assert_eq!(account.current_tokens, 25);
    assert_eq!(account.last_refill_timestamp, 1003);
}

#[test]
fn refill_ignores_time_that_does_not_advance() {
    let mut account = bucket(100, 5, 10, 1000);
    let before = account.clone();
    Processor::refill(&mut account, 1000).unwrap();
    assert_eq!(account, before);
    Processor::refill(&mut account, 900).unwrap();
    assert_eq!(account, before);
}

#[test]
fn refill_overflow_is_refused_and_changes_nothing() {
    let mut account = bucket(100, u64::MAX / 2, 10, 1000);
    let before = account.clone();
    assert_eq!(
        Processor::refill(&mut account, 1003).unwrap_err(),
        RateLimiterError::NumericalOverflow
    );
    assert_eq!(account, before);
}

#[test]
fn refill_over_the_whole_i64_range() {
    let mut account = bucket(100, 1, 0, i64::MIN);
    Processor::refill(&mut account, i64::MAX).unwrap();
    assert_eq!(account.current_tokens, 100);
    assert_eq!(account.last_refill_timestamp, i64::MAX);

    let mut faster = bucket(100, 2, 0, i64::MIN);
    assert_eq!(
        Processor::refill(&mut faster, i64::MAX).unwrap_err(),
        RateLimiterError::NumericalOverflow
    );
}

#[test]
fn refill_is_idempotent_at_one_time() {
    let mut once = bucket(100, 3, 1, 0);
    Processor::refill(&mut once, 10).unwrap();
    let mut twice = once.clone();
    Processor::refill(&mut twice, 10).unwrap();
    assert_eq!(once, twice);
}

#[test]
fn refill_in_steps_equals_refill_at_once() {
    for (start, step) in [(0u64, 4i64), (20, 3), (95, 1), (0, 0)] {
        let mut stepwise = bucket(100, 7, start, 1000);
        let mut direct = stepwise.clone();
        Processor::refill(&mut stepwise, 1000 + step).unwrap();
        Processor::refill(&mut stepwise, 1010).unwrap();
        Processor::refill(&mut direct, 1010).unwrap();
        assert_eq!(stepwise, direct);
    }
}

#[test]
fn acquire_on_uninitialized_account_is_refused() {
    let mut account = bucket(10, 1, 10, 0);
    account.is_initialized = false;
    let before = account.clone();
    assert_eq!(
        Processor::process_acquire(&mut account, 1, 5).unwrap_err(),
        RateLimiterError::Uninitialized
    );
    assert_eq!(account, before);
}

#[test]
fn acquire_of_zero_tokens_is_refused() {
    let mut account = bucket(10, 1, 10, 0);
    let before = account.clone();
    assert_eq!(
        Processor::process_acquire(&mut account, 0, 5).unwrap_err(),
        RateLimiterError::InvalidTokenAmount
    );
    assert_eq!(account, before);
}

#[test]
fn acquire_with_overflowing_refill_is_refused_uncounted() {
    let mut account = bucket(10, u64::MAX, 10, 0);
    let before = account.clone();
    assert_eq!(
        Processor::process_acquire(&mut account, 1, 2).unwrap_err(),
        RateLimiterError::NumericalOverflow
    );
    assert_eq!(account, before);
}

#[test]
fn retry_after_rounds_up() {
    let mut account = bucket(100, 3, 3, 0);
    assert_eq!(
        Processor::process_acquire(&mut account, 10, 0).unwrap_err(),
        RateLimiterError::RateLimitExceeded { retry_after_seconds: 3 }
    );
    assert_eq!(
        Processor::process_acquire(&mut account, 9, 0).unwrap_err(),
        RateLimiterError::RateLimitExceeded { retry_after_seconds: 2 }
    );
    assert_eq!(account.current_tokens, 3);
    assert_eq!(account.total_requests, 2);
    assert_eq!(account.total_throttled, 2);
}

#[test]
fn retry_after_of_a_huge_deficit_at_a_huge_rate() {
    let mut account = bucket(u64::MAX, u64::MAX, 0, 0);
    assert_eq!(
        Processor::process_acquire(&mut account, u64::MAX, 0).unwrap_err(),
        RateLimiterError::RateLimitExceeded { retry_after_seconds: 1 }
    );
}

#[test]
fn retry_after_is_the_exact_wait() {
    let mut account = bucket(100, 4, 2, 50);
    let wait = match Processor::process_acquire(&mut account, 13, 50) {
        Err(RateLimiterError::RateLimitExceeded { retry_after_seconds }) => retry_after_seconds,
        other => panic!("expected throttling, got {:?}", other),
    };
    assert_eq!(wait, 3);
    let mut too_early = account.clone();
    assert!(matches!(
        Processor::process_acquire(&mut too_early, 13, 50 + wait as i64 - 1),
        Err(RateLimiterError::RateLimitExceeded { .. })
    ));
    Processor::process_acquire(&mut account, 13, 50 + wait as i64).unwrap();
    assert_eq!(account.current_tokens, 1);
}

#[test]
fn request_counters_saturate() {
    let mut account = bucket(10, 1, 0, 0);
    account.total_requests = u64::MAX;
    account.total_throttled = u64::MAX;
    let _ = Processor::process_acquire(&mut account, 5, 0);
    assert_eq!(account.total_requests, u64::MAX);
    assert_eq!(account.total_throttled, u64::MAX);
}

#[test]
fn acquire_at_zero_rate_with_enough_tokens_succeeds() {
    let mut account = bucket(10, 1, 10, 0);
    account.refill_rate_per_sec = 0;
    Processor::process_acquire(&mut account, 4, 100).unwrap();
    assert_eq!(account.current_tokens, 6);
    assert_eq!(account.last_refill_timestamp, 100);
}

#[test]
fn acquire_caps_an_overfull_bucket_before_spending() {
    let mut account = bucket(10, 1, 10, 0);
    account.current_tokens = 50;
    Processor::process_acquire(&mut account, 4, 1).unwrap();
    assert_eq!(account.current_tokens, 6);
}

#[test]
fn update_policy_settles_at_the_old_rate_then_caps() {
    let mut account = bucket(50, 5, 0, 1000);
    Processor::process_update_policy(&mut account, ADMIN, 10, 1, 1004).unwrap();
    assert_eq!(account.current_tokens, 10);
    assert_eq!(account.last_refill_timestamp, 1004);
    assert_eq!(account.capacity, 10);
    assert_eq!(account.refill_rate_per_sec, 1);

    let mut roomy = bucket(50, 5, 0, 1000);
    Processor::process_update_policy(&mut roomy, ADMIN, 100, 1, 1004).unwrap();
    assert_eq!(roomy.current_tokens, 20);
}

#[test]
fn update_policy_refusals_change_nothing() {
    let mut account = bucket(50, 5, 0, 1000);
    let before = account.clone();
    assert_eq!(
        Processor::process_update_policy(&mut account, ADMIN, 0, 1, 1004).unwrap_err(),
        RateLimiterError::InvalidCapacity
    );
    assert_eq!(
        Processor::process_update_policy(&mut account, ADMIN, 5, 0, 1004).unwrap_err(),
        RateLimiterError::InvalidRefillRate
    );
    assert_eq!(
        Processor::process_update_policy(&mut account, [9u8; 32], 0, 0, 1004).unwrap_err(),
        RateLimiterError::Unauthorized
    );
    let mut overflowing = bucket(50, u64::MAX, 0, 0);
    let overflowing_before = overflowing.clone();
    assert_eq!(
        Processor::process_update_policy(&mut overflowing, ADMIN, 5, 1, 10).unwrap_err(),
        RateLimiterError::NumericalOverflow
    );
    assert_eq!(overflowing, overflowing_before);
    account.is_initialized = false;
    let uninit = account.clone();
    assert_eq!(
        Processor::process_update_policy(&mut account, ADMIN, 5, 1, 1004).unwrap_err(),
        RateLimiterError::Uninitialized
    );
    assert_eq!(account, uninit);
    account.is_initialized = true;
    assert_eq!(account, before);
}

#[test]
fn reset_refusals_change_nothing() {
    let mut account = bucket(50, 5, 0, 1000);
    let before = account.clone();
    assert_eq!(
        Processor::process_reset(&mut account, [3u8; 32], 1004).unwrap_err(),
        RateLimiterError::Unauthorized
    );
    assert_eq!(account, before);
    account.is_initialized = false;
    let uninit = account.clone();
    assert_eq!(
        Processor::process_reset(&mut account, ADMIN, 1004).unwrap_err(),
        RateLimiterError::Uninitialized
    );
    assert_eq!(account, uninit);
}

#[test]
fn reset_keeps_request_count_and_moves_the_clock() {
    let mut account = bucket(50, 5, 50, 1000);
    Processor::process_acquire(&mut account, 50, 1000).unwrap();
    let _ = Processor::process_acquire(&mut account, 1, 1000);
    Processor::process_reset(&mut account, ADMIN, 900).unwrap();
    assert_eq!(account.current_tokens, 50);
    assert_eq!(account.total_requests, 2);
    assert_eq!(account.total_throttled, 0);
    assert_eq!(account.last_refill_timestamp, 900);
}

#[test]
fn granted_tokens_never_outrun_the_refill() {
    let mut account = bucket(20, 3, 20, 0);
    let start = account.clone();
    let mut granted: u64 = 0;
    for (i, amount) in [7u64, 7, 7, 5, 1, 9, 2, 12, 4, 4].iter().enumerate() {
        let now = (i as i64) * 2;
        if Processor::process_acquire(&mut account, *amount, now).is_ok() {
            granted += amount;
        }
        assert!(is_valid(&account));
    }
    let elapsed = (account.last_refill_timestamp - start.last_refill_timestamp) as u64;
    assert!(granted + account.current_tokens <= start.current_tokens + 3 * elapsed);
    assert!(granted > 0);
}

#[test]
fn every_operation_keeps_a_bucket_valid() {
    let mut account = bucket(8, 2, 8, 0);
    let _ = Processor::process_acquire(&mut account, 9, 1);
    assert!(is_valid(&account));
    Processor::process_update_policy(&mut account, ADMIN, 3, 9, 2).unwrap();
    assert!(is_valid(&account));
    Processor::refill(&mut account, 40).unwrap();
    assert!(is_valid(&account));
    Processor::process_reset(&mut account, ADMIN, 41).unwrap();
    assert!(is_valid(&account));
}

#[test]
fn instructions_carry_their_parameters() {
    let init = RateLimiterInstruction::Initialize {
        capacity: 10,
        refill_rate_per_sec: 2,
        initial_tokens: 5,
        target: TARGET,
        bump: 1,
    };
    assert_eq!(init.clone(), init);
    assert_ne!(
        RateLimiterInstruction::Acquire { requested_tokens: 1 },
        RateLimiterInstruction::Acquire { requested_tokens: 2 }
    );
    assert_ne!(
        RateLimiterInstruction::UpdatePolicy { new_capacity: 1, new_refill_rate_per_sec: 1 },
        RateLimiterInstruction::Reset
    );
}
