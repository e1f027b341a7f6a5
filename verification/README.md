# trust_rust

The T.R.U.S.T auction protocol's Rust side: a client for the auction
factory, auction and escrow contracts, and a web server that signs wallets
in with signed messages and drives the client for them.

`src/` is the library, verified with Verus:

- `primitives` — 256-bit numbers, addresses and hashes as plain bytes, their
  text forms, and the calls into alloy (parsing, formatting, keccak-256,
  signature recovery).
- `abi` — the contract ABI: selectors, argument encoding and the decoding of
  return values, with laws that what is encoded reads back.
- `client` — each contract operation as the transaction or call it sends and
  the decoding of what comes back: bids, auction creation, escrow, the
  registry, withdrawals (a step-by-step flow), and configuration from
  environment variables.
- `web` — sign-in nonces and sessions (with laws: a nonce signs in at most
  once, a session gives back its wallet, logout ends only its session), the
  session cookie, and each route's checks and answers, including the
  auction listing as a step-by-step flow.

`app/` holds what Verus does not see: the axum server, the JSON forms of the
request and answer types, the alloy provider that makes the calls, and the
client demo (`client-demo`).
