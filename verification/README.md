# neurowealth_vault

The token ledger that the NeuroWealth vault is exercised against, written in
Verus: balances keyed by account strkey, minting, transfers, allowances with a
ledger-sequence expiration, and spender transfers.

- `src/token.rs`: the ledger (`TestToken`), its abstract state (`LedgerState`)
  and the spec functions that its contracts are written in.
- `src/pair_map.rs`: the map keyed by an (owner, spender) pair that holds the
  allowance entries.
- `src/supply.rs`: the total supply of a ledger and the lemmas about sums.
- `src/laws.rs`: properties that relate the operations (supply preservation,
  round trips, allowance spending).
- `app/lib.rs`: the Soroban contract around the ledger: storage,
  authorization, ledger sequence and addresses.
