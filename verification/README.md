# predict_iq

The betting and fee logic of a parimutuel prediction-market contract on
Soroban, verified with Verus.

- `src/` is the verified library. Every operation is a transition on a
  `Ledger` (the contract's persistent entries that the operation touches):
  it returns its result, leaves the ledger as it was on an error, and lists
  in order what it needs the host to do (`Action`: an authorization, a token
  transfer, an event). `src/laws.rs` holds the properties proved of the
  operations together.
- `app/` is the Soroban side: it loads entries from contract storage into a
  ledger, runs an operation, performs its actions and writes back.
- `tests/` runs the library on concrete values.
