# bitcoin_service

A small HTTP service in front of a Bitcoin Core node. The library in `src/`
(verified with Verus) decides, for each endpoint, which JSON-RPC calls go to
the node with which parameters, and what the HTTP client is answered for every
outcome of those calls. `app/` holds the server itself: environment loading,
actix-web routing, the reqwest client, JSON encoding and the float arithmetic
of balances and amounts.

- `src/env_config.rs`: environment values, the check of required variables,
  the node's URL and credentials.
- `src/auth.rs`: the basic-authentication header of every call.
- `src/rpc.rs`: the JSON-RPC calls the service makes.
- `src/reply.rs`: replies, call outcomes and flow steps.
- `src/node.rs`, `src/wallet.rs`, `src/mining.rs`, `src/transfer.rs`: the
  decisions of the endpoints.
- `src/text.rs`: decimal notation, prefixes and concatenation of texts.
