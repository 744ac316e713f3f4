# fundraiser

A token fundraiser for Solana: an admin starts a fundraiser with a target
amount of one mint and a duration in days, contributors send tokens to a
vault, the admin collects the vault once the target is met, and contributors
take their tokens back while it is not.

- `src/` — the verified library (Verus):
  - `state.rs`: the fundraiser's and a contributor's state and their byte
    layouts in account data, with read-back-of-write proofs;
  - `instruction.rs`: instruction discriminators and instruction data;
  - `processor.rs`: the rules of the byte-level program's four instructions,
    over what the instruction sees of its accounts, answered as the steps
    (transfers, closes, lamport moves) that the runtime is to perform;
  - `handlers.rs`: the rules of the account-struct program's handlers
    (start, contribute, collect, refund);
  - `laws.rs`: properties that span several instructions;
  - `layout.rs`, `errors.rs`, `constants.rs`: shared pieces.
- `app/` — the two on-chain programs around the library: account validation,
  sysvar reads, token-program and system-program invocations, account writes.
- `tests/` — tests of the library on concrete values.
