# alliance

A CosmWasm contract that lets its callers delegate, undelegate, redelegate and claim
rewards through a chain's alliance module, and that forwards the module's queries.

- `src/` is the verified library (Verus): the messages and queries, the decisions of
  the entry points (which message to send on whose behalf, which request to forward
  and which answer type to read, how querier failures are reported), and the
  response builder.
- `app/` is the contract as the chain runs it: entry points, JSON wire types and
  schema, storage writes and chain queries, all converting to and from the library.
- `tests/` runs the library on concrete values.
