# solana_escrow_engine

A verified escrow engine for Solana. A buyer creates an escrow naming a
seller, an arbiter and an amount; deposits the amount into a vault that only
the program controls; then the buyer or the arbiter releases it to the
seller, or the seller or the arbiter refunds it to the buyer. Either party
may open a dispute, which the arbiter alone resolves. A settled escrow is
closed by its buyer, who reclaims the rent of its two accounts.

Layout:

- `src/` — the library, verified with Verus.
  - `state.rs`, `errors.rs`, `events.rs`, `address.rs`: the data model.
  - `pda.rs`: the seeds of the escrow and vault accounts and the checks of
    their derived addresses (through `Pubkey::create_program_address` and
    `Pubkey::try_find_program_address`).
  - `instructions/`: one module per instruction: its accounts, their
    constraints, and the handler, each specified exactly.
  - `lib.rs`: the six instructions, constraints then handler.
  - `laws.rs`: properties of the program as a whole (lifecycle, who may act,
    conservation of lamports, seed uniqueness, error codes).
- `app/` — the Anchor program around the library: account loading, account
  creation, the deposit transfer, lamport writes, events and logs.
- `tests/` — scenario tests of the lifecycle and of every refusal.
