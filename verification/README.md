# soroban_testkit — the ledger clock

A verified ledger clock for Soroban contract tests. `TestEnv` wraps a
`soroban_sdk` test environment and moves its ledger timestamp and sequence
number together, one ledger per close interval.

- `src/model.rs` — the clock as a mathematical value (`ClockView`) and what
  each move (seconds, calendar units, ledgers, a jump to a time) makes of it.
- `src/clock.rs` — `TestEnv` and its moves, each specified over the model,
  including exactly when a move is refused.
- `src/error.rs` — the error and the exact text of each refusal.
- `src/laws.rs` — proofs of what holds of all moves: proportion between
  time and ledgers, how split advances compose, which moves change nothing,
  and that any run of moves stays monotonic and proportional.
- `src/host.rs` — the trusted calls into `soroban_sdk`.
- `app/lib.rs` — `at` (run a closure at another time, restoring the clock even
  on panic) and the error's `Display` form.
