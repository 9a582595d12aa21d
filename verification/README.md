# mvx_challenge

Four MultiversX smart contracts, their logic verified with Verus:

- `lottery`: players join for one EGLD, the owner draws winners, winners claim
  a hundred EGLD; with two variants (`wrong_version`, a same-transaction draw,
  and `another_possibly_good_version`, whose prize waits for a later block).
- `break_lottery`: plays another contract's lucky endpoint and keeps the play
  only when its EGLD balance did not drop.
- `multi_token`: an ERC-1155 style vault with deposits, withdrawals, approvals,
  single and batch transfers, and token issue, mint and burn.
- `subscription`: deposits, service providers and their services,
  subscriptions priced in USD through a safe-price oracle.

Each contract keeps its storage as plain values (byte strings for addresses
and token identifiers, `u128` for amounts). An endpoint is a function from the
storage and the call's inputs to the new storage and the effects the blockchain
carries out (transfers, token operations, calls, events). Its contract states
the result exactly over a model of the storage; the `laws` modules state what
holds across endpoints.

`src/store.rs` holds the storage building blocks (an insertion-ordered set, an
association map and a map of sets). `src/esdt.rs` reads token tickers through
`multiversx-sc`.

`app/` is the edge to the VM: reading the caller, payments, blocks and
randomness, running the endpoints, carrying out transfers, and the encodable
argument types. `tests/` runs the endpoints on concrete values.
