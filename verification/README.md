# escrow

A marketplace escrow contract whose decision logic is written and proved in
Verus. A seller (or several payees sharing the payout by basis points) opens
an escrow; a buyer funds it, at once or in tranches; the seller ships; the
buyer confirms delivery, disputes, or asks for a refund; a resolver or the
admin settles disputes; funds are released automatically once the windows
have elapsed.

## Layout

- `src/` — the verified library. `EscrowContract` holds the whole contract
  state; every entry point takes the state, its arguments and the ledger time
  and returns either an error (leaving the state untouched) or an `Outcome`:
  the addresses whose authorization the call needs, the token transfers to
  perform and the events to publish.
  - `types.rs`, `errors.rs`, `events.rs`, `table.rs`: data and its views.
  - `contract.rs`: the state, its model and its invariant.
  - `admin.rs`, `create.rs`, `flow.rs`, `settle.rs`, `dispute.rs`,
    `queries.rs`: the entry points, each with an exact contract.
  - `fees.rs`: fee arithmetic and payout splitting.
  - `lifecycle.rs`: the escrow state machine.
  - `laws.rs`, `custody.rs`: properties that span operations, among them
    conservation of the funds the vault holds for each token.
- `app/` — the Soroban contract around the library: storage, authorization,
  token transfers and event publication.
- `tests/` — scenario tests run against the library through a small host
  stand-in that applies transfers to in-memory balances.
