# treasury_governance

Treasury governance: accounts create proposals with one to ten voting
options, registered voters set the quorum base, every account may vote once
per proposal while its voting period lasts, a closed vote passes when it
reaches quorum and one option has the highest count, and a passed proposal
can be executed once its execution delay is over.

- `src/` is the verified library. `contract.rs` holds the governance state and
  its operations; `model.rs` the mathematical model the contracts speak of
  (`GovernanceView`) with its invariant; `tally.rs` the quorum and plurality
  rules; `laws.rs` the properties proved of the whole; `enums.rs`,
  `errors.rs`, `events.rs` and `storage.rs` the data types.
- `app/` is the on-chain contract around the library: it supplies the
  caller and the block number, keeps the state in contract storage and emits
  the events the operations return.
- `tests/` runs the library on concrete scenarios.
