# dao-chain-client

A small client for a chain of CosmWasm contracts, made for integration tests. It stores code,
instantiates and executes contracts, queries their state, waits for blocks, and keeps a registry of
what was deployed and a report of what it cost.

`src/` is the library, written in Verus. It decides everything: which configuration can be used, how
a fee is computed, how a transaction is put together and signed, what is asked of a node and in what
order, how each answer is taken, and what is entered in the registry. It performs nothing. A
transaction, a wait and a storage run each hand out one request at a time and take what came of it.

`app/` performs the requests: it reads files, talks to the node, keeps time, and reads and writes the
YAML and JSON forms of the library's values.

| module | what it holds |
| --- | --- |
| `config`, `identifiers`, `quantity` | the configuration, the names in it, and its binary64 numbers |
| `keys`, `signing` | keys, fees, simulated and signed transactions |
| `rpc`, `status`, `commit`, `receipt` | how the answers of a node are taken |
| `transaction`, `trace` | one transaction as a state machine, and what holds of all its runs |
| `poll` | waiting for blocks and for the chain's clock |
| `client`, `storage`, `artifact` | the operations of the client, and storing a directory of artifacts |
| `registry`, `gas`, `names` | what was deployed, what it cost, and the maps that hold both |
| `wire`, `digest`, `text`, `message`, `error`, `setup` | encodings, digests, texts, plain values, errors |

What is believed without proof stands in functions marked `external_body`, each with a comment that
says what it claims of the function that it calls: the Protocol Buffers encoding (`wire`), key
derivation and signing (`keys`), digests and base64 (`digest`), the parsers of chain names,
denominations, addresses and endpoints (`identifiers`), and a few functions of the standard library
(`text`).
