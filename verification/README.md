# contest_platform

A two-token meme coin contest on Solana. Users deposit one of two competing
tokens; each deposit is valued in lamports through the token's
constant-product pool and earns a bet coefficient. When the contest period
ends the owner sets the winner (the side worth more), winners claim their
deposit back less the fee plus a share of the losing side proportional to
their bet, and after a waiting time the owner withdraws what is left.

- `src/` — the verified library: state, pricing, the instructions as
  functions from account data to new account data and token transfers, and
  the laws that hold across them (`src/laws.rs`).
- `app/` — the Anchor program: account constraints, clock, token transfers
  and the on-chain copies of the state types, around the library.
- `tests/` — tests of the library on concrete values.
