# cshell

The core of a Cardano command-line wallet for developers, written in Verus:
every function in `src/` carries a contract that Verus proves.

- `src/` is the verified library: names and text helpers, decimal and hex
  text, the local store of wallets and providers, provider headers, balances
  and their ordering, error reports, transaction-invoke interfaces (reading,
  `$ref` rewriting, invocation parameters and arguments), tx3 source
  generation, the questions asked for missing arguments, the transaction
  detail tree, and the chain explorer (its chain state, the wallets it
  follows, the tip follower's decisions, its keys and what its panels show).
  Calls into `hex`, `regex`, `slug`, `num-format`, `pallas`, `serde_json`,
  `tx3-sdk` and `indexmap` sit behind small trusted wrappers whose contracts
  say what those crates document.
- `app/` is the command-line program around it: argument parsing, prompts,
  the store file, and printing; it holds the provider commands.
- `tests/` runs the library on concrete values.
