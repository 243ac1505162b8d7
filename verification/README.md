# Surfpool

The verified core of Surfpool, a local Solana network for tests, and the program around it.

`src/` is the library. Verus checks the contracts of its functions, but for small wrappers: what the
library has from other crates (SHA-256, base58, semantic versions, archives, keypairs, UUIDs) stands
behind these, and their doc comments say what is taken on trust.

- `jito`: bundles of transactions that take effect all together or not at all
- `sdk`: configuring, starting and stopping a local network
- `node`: the same for JavaScript, with its checks of arguments
- `update`: updating the program from a published release
- `keys`, `number`, `text`: addresses and keypairs, JavaScript numbers, text

Work that alternates with the outside world is written as a conversation. A state and an event (what
came of the last action) give the next state and the next action. The laws about such work are in
`jito/laws.rs`, `sdk/laws.rs`, `node/laws.rs` and `update/flow.rs`.

`app/` performs the actions: sockets, threads, downloads, prompts, and the Node.js bindings. It
reaches the virtual machine through traits.

`tests/` runs the library.
