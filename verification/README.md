# marketplace

An NFT marketplace program for a Solana-style runtime, split in two:

- `src/` is the verified library. Each instruction (initialize, list, buy,
  buy with a token, delist, make, cancel and accept an offer, withdraw fees)
  is a function from the accounts it reads to the cross-program invocations
  it performs (`cpi::Cpi`), or to its error (`error::ErrorCode`). Contracts
  state the exact invocations over spec functions; `fees` holds the fee and
  reward arithmetic, `seeds` the signer seeds of the program's accounts,
  `ledger` a model of what invocations do to balances and asset owners
  (a program-derived account is debited only under its own seeds),
  `laws` the settlement properties proved over it (exact settlement of
  sales and offers, round trips of offer/cancel and list/delist), and
  `history` runs of instructions, with the invariant that an offer's vault
  covers the offer until the offer is accepted or cancelled.
- `app/` is the on-chain program: Anchor account validation and state
  accounts, conversion of keys to library addresses, and execution of the
  planned invocations through the system, token and asset programs.

`tests/` runs the library on concrete accounts.
