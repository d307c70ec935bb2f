# veilvault

A lending market (reserves, cTokens, obligations, interest accrual, health
checks and liquidation) with an optional confidential path, written in Verus.

- `src/` is the library. Every decision an instruction makes is a verified
  function from the accounts' contents to their new contents and the token
  amounts to move; its contract is stated over spec functions in the same
  module. `obligation_laws.rs`, `laws.rs` and `instruction_laws.rs` hold the
  properties that span several operations (invariants kept, round trips,
  refusals of a paused market, bounds on liquidation).
- `tests/` runs the library on concrete scenarios.
- `app/` is the Solana program around it: Anchor account validation, token
  transfers, Pyth account decoding and Arcium computation queueing.
