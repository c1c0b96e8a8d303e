# amm

A bonding-curve token market for Solana, with its decision logic verified by Verus.

- `src/` is the verified library. Each instruction has a model of the accounts
  it reads (`instructions/`), a spec of when it is refused and what it writes,
  and an executable method whose contract states exactly that. Accepted trades
  return the ordered list of transfers to perform (`payments.rs`) and the event
  to announce; `laws.rs` proves properties that span instructions.
- `app/` is the Anchor program: account validation, rent lookups, the
  system and token program calls that carry out the returned transfers, and
  logging. The pricing curve (`calculate_tokens_to_send`,
  `calculate_sol_to_send`) and the market set-up instruction are not part of
  this source tree; the program refers to them by name.
- `tests/` runs the library on concrete accounts.
