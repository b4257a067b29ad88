# elemfi

Verified core of the elemfi lending program: vaults that mint collateral
against deposited liquidity, strategies that borrow that liquidity within a
limit, and obligations that burn collateral for a later payout.

- `src/` — the library, verified with Verus. `state/` holds the account
  types, their conversion formulas, events and signer seeds; `processor/`
  holds one decision function per instruction, which checks the accounts it
  is given, updates the state and says which transfer to make; `laws.rs`
  states and proves the properties that hold across instructions (collateral
  value never falls, obligations move value without creating it, a repayment
  undoes a borrow, rounding never pays out more than was put in).
- `app/` — the on-chain program: account declarations, entry points, and the
  cross-program calls, logs and account writes that the library asks for.
- `tests/` — tests of the library on concrete values.
