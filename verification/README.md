# star_invoice

A verified model of the StarInvoice escrow contract: a freelancer issues an
invoice, the client funds it into escrow, the freelancer marks the work
delivered, the client approves, and the escrowed amount is released to the
freelancer. Pending invoices can be cancelled by either party; funded or
delivered invoices can be disputed by the client.

Layout:

- `src/lib.rs`: the lifecycle table (`validate_transition`) and its laws.
- `src/storage.rs`: invoices, statuses, errors and the contract's persistent
  data (`Store`), with its read/write operations.
- `src/escrow.rs`: what each operation decides for one invoice (new status,
  signer, token transfer, event), the operations on the store, and the
  escrow laws.
- `src/views.rs`: read-only queries, including the amount-range scan.
- `src/contract.rs`: `InvoiceContract`, the store with its invariant (ids,
  terms and party indexes), the entry points, and the escrow conservation law.
- `src/events.rs`: the events and their topics.
- `app/`: the Soroban contract around the library; it converts host values
  (texts stay bytes, addresses become their strkeys), requires the signer that
  the library names, moves tokens, writes host storage and publishes events.
