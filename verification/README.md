# governance

A share-weighted governance contract for Soroban, with its rules verified in Verus.

- `src/` is the verified library: the contract's state and every operation on it.
  - `types.rs`: addresses, proposals, the configuration, statuses and errors.
  - `tally.rs`: counting a vote against quorum and the pass threshold, both measured
    against the share supply recorded when the proposal was opened.
  - `state.rs`: the state as plain values, its well-formedness, and what each
    operation answers and leaves, as spec functions.
  - `governance.rs`: the executable operations, each proved to match its spec.
  - `laws.rs`: properties of the contract over all requests (a refused request
    changes nothing, statuses follow the life cycle, an executed proposal stays
    executed, passing needs quorum and threshold, a voter votes once, ...).
- `app/` is the Soroban contract: it authenticates callers, loads and stores the
  contract storage, asks the ledger for the time and the share token for balances
  and supply, and publishes events around calls into the library.
- `tests/` runs the library: voting scenarios with a simulated share token, and
  each operation's results and errors.
