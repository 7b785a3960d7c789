# stableperp

A covered-option program for Solana, with its logic verified in Verus.

- `src/` — the verified library: account state (`state`), addresses and the
  mainnet USDC mint (`pubkey`), amount arithmetic (`math`, `pricing`), signer
  seeds (`seeds`), the token-program calls an instruction makes (`token`), the
  instruction handlers as account transitions (`instructions`), and properties
  that span instructions (`laws`).
- `app/` — the Anchor program around it: account validation and storage, the
  entry points, the clock, and the token-program calls themselves.
- `tests/` — tests of the library on concrete accounts.
