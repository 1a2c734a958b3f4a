# swiftremit

A verified library for escrow-based USDC remittances: a sender escrows an
amount for a registered payout agent; the agent's payout confirmation pays
out the amount minus a basis-point platform fee, which the contract collects;
a pending remittance can be cancelled for a full refund.

- `src/` — the library, verified with Verus: storage model, escrow flow,
  status state machine, transaction controller, rate limiting, asset
  verification records, settlement ids and state migration (SHA-256 digests
  through the Soroban SDK).
- `tests/` — tests of the library, run against the real Soroban SDK.
- `app/` — glue for a Soroban environment: address conversion,
  authorization, token transfers and events.
