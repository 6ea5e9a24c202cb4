# orchestrator_mocks

Verified stand-ins for the downstream contracts of a remittance orchestrator:
a family wallet with a spending limit, a 40/30/20/10 remittance split, a
savings-goals contract, a bill-payments contract and an insurance contract.

- `src/` — the library, verified with Verus. Each contract's decisions are
  functions over plain values; the savings and bills contracts hold their
  storage slot as a field, and their contracts state what a call does to it
  (a refused call leaves it untouched). `src/host.rs` declares the Soroban
  host values the split returns in.
- `app/` — the same contracts as Soroban contracts: each entry point loads
  storage, calls the library, and stores the result or fails the call.
- `tests/` — tests of the library on concrete values.
