# solana_onchain_rate_limiter

A token-bucket rate limiter, one account per client, verified with Verus.

- `src/state.rs`: the account and its invariant `valid`.
- `src/processor.rs`: the outcome of each operation as a spec function, and the
  operations (`refill`, `process_initialize`, `process_acquire`,
  `process_update_policy`, `process_reset`) proved to produce exactly it.
- `src/laws.rs`: properties across calls: lossless lazy refill, exact waiting
  times, refusals that change nothing, the token-bucket bound over any sequence
  of requests, and preservation of `valid`.
- `src/error.rs`, `src/instruction.rs`: errors and instructions.
- `app/`: the benchmark client, and copies of the types with Borsh and
  `thiserror` derives.
