# mainnet_client

Decision logic of a small command-line client for Hedera mainnet, verified
with Verus.

- `src/` is the library.  The operations (create an account, send hbars,
  associate accounts with a token, transfer tokens, deploy a contract) are
  state machines in `flows.rs`: each step takes what the network answered and
  says what to do next.  `operations.rs` and `deploy.rs` hold the balance
  checks, transfer layouts, gas and fee plan and the bytecode's upload in
  pieces; `receipts.rs` the retry loop for receipts and records; `network.rs`
  the node table; `menu.rs`, `text.rs` and `account_info.rs` the reading of
  user input and error messages.
- `app/` is the program around it: the menu on standard input, the Hedera SDK
  client, and the loop that carries out each action.
- `tests/` runs the library on concrete values.
