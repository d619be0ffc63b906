# tangaga

A Token-2022 program for Solana (built on Anchor): create a mint with
embedded metadata, mint, transfer, approve and revoke a delegate, transfer as
the delegate, burn, and close an empty token account.

- `src/` is the verified library (Verus). For each instruction it holds the
  accounts it reads as plain values, its account constraints and handler
  checks, and the exact token-program call (`TokenCpi`) that it asks for;
  `src/tangaga.rs` holds the program's entry points, and `src/laws.rs` the
  properties proved of the program as a whole. The calls that only compute
  (account sizes, unpacking a mint) go to `anchor-spl` through the trusted
  items of `src/solana.rs`.
- `app/` is the Anchor program itself: account validation by Anchor, the rent
  sysvar, the cross-program invocations and the logs.
- `tests/` exercises the library with the real outside crates linked.
