# stellai

Verified state machines of the StellAIverse Soroban contracts: agent NFTs and
tokens, the execution hub with its rate limiting and replay protection,
royalty and fee splitting, decentralised identifiers, verifiable credentials,
metrics aggregation, prediction markets, threshold agents, storage lifecycle
management and the upgradeable proxy.

Layout:

- `src/` — the library, checked by Verus. Each contract's storage is a struct
  and each entry point a method whose contract states the resulting storage
  and the result, including exactly when each refusal happens. Laws that span
  several calls are public proof functions next to the code they speak of.
- `tests/` — scenario tests run against the compiled library.
- `app/` — the Soroban host side: addresses, ledger time, authorisation,
  cross-contract calls and events, wrapped around the library.
