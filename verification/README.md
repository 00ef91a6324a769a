# fluxora_stream

A verified token-streaming ledger. A sender locks a deposit that accrues to a
recipient at a fixed rate per second between a start and an end time; nothing
accrues before the cliff. The recipient withdraws what has accrued; the sender
(or the admin) can pause, resume or cancel a stream, and a cancellation refunds
the part of the deposit that has not accrued.

Layout:

- `src/accrual.rs` — the accrual formula, computed without overflow, with its bounds and monotonicity.
- `src/stream.rs` — one stream: its model, its invariant and its transitions.
- `src/ledger.rs` — the whole ledger: configuration, stream ids, and the operations, each
  returning a receipt (who must authorise it, which token transfer to make, which event to publish).
- `src/laws.rs` — properties that span operations (accrual schedule, conservation of
  funds, final statuses, id assignment, independence of streams).
- `app/lib.rs` — the Soroban contract that runs the ledger: storage, authorisation,
  token transfers and events.
