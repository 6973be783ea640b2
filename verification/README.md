# chain_forks

Chain-fork scenarios for a network of CKB nodes, as a Verus-verified library.

- `src/script.rs` — the actions a scenario asks of the network, the answers it gets, and
  `Run`, the state machine that walks a script, checks the answers and says what to do next.
- `src/scenarios.rs` — the eleven scenarios (`ChainFork1` … `ForkedTransaction`): their
  setups and scripts.
- `src/block.rs` — blocks and transactions as the scenarios read and alter them (invalid
  cellbase rewards, double spends, bad input indexes, uncles).
- `src/capacity.rs`, `src/status.rs` — capacity arithmetic and transaction statuses, done by
  `ckb-types` and `ckb-jsonrpc-types`.
- `src/fork.rs` — a model of how nodes choose between forks and ban peers, with its laws;
  the tests run every scenario against it.
- `app/lib.rs` — the driver that performs a run's actions on a test network and converts
  between `ckb-types` views and the library's models.
