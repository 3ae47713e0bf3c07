# surf

SURF is a small social layer on a Solana-style chain: a token, a name registry paid
for in that token, and follow/unfollow signals, together with the clients that build
their instructions, an in-memory chain for tests, an indexer that turns transactions
into events, and a command-line tool.

Layout:

- `src/` is the verified library (Verus). `protocol` holds the instruction and account
  formats and name validation; `programs` the three on-chain programs as functions from
  accounts and instruction data to the accounts' new contents; `client` the instruction
  builders, account readers, JSON-RPC conversions and the in-memory chain's bookkeeping;
  `events` the event types, records and subjects; `server` the indexer's decisions
  (which signatures to take up, which events a transaction yields); `cli` the command-line
  tool's decisions (settings, names, listings). `interop` states how the parts fit
  together: what clients build is what programs accept, what programs write is what
  readers read.
- `tests/` exercises the library.
- `app/` is the runnable part: the command-line program, the indexer's polling loop and
  publisher, signing, the chain backends and the thread pool helpers.
