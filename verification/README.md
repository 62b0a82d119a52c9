# stellar_raise

The decision logic of the Stellar Raise crowdfunding contracts, written in
Verus and verified: campaign parameter validation and initialization,
milestone-gated fund release (proposal, weighted voting, finalization,
release with platform fee, pro-rata refunds of rejected milestones), the KYC
gate, single-contributor refunds, batch contributions, reward NFT batches,
role-based access control, two-step privilege escalation, admin and upgrade
bookkeeping, state-size limits, and the factory's moderated registry.

Layout:

- `src/` — the verified library. Each module keeps its state as plain
  values (accounts are `AccountId` numbers, texts are byte strings) and
  states what every operation returns and changes in its contract. The
  public proof functions (`lemma_*`) state the properties that hold across
  operations.
- `tests/` — executable tests of the library.
- `app/` — the Soroban glue: storage, authorization, token transfers,
  cross-contract calls, events, and the mapping between host addresses and
  account identifiers. It checks each library precondition before the call
  and panics with the contract's message where the contract refuses.
