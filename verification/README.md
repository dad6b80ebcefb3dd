# paylink

A Soroban contract for payment links and staking balances, verified with Verus.

* `src/` is the library. Its entry points are in `src/contract.rs`; what each of them
  answers and leaves in the ledger is in `src/requests.rs`, over the model in
  `src/ledger.rs`. What holds across requests is proved in `src/laws.rs`. The calls into
  `soroban_sdk`, with what is believed of them, are all in `src/host.rs`.
* `app/` is the contract as the host runs it.
* `tests/` deploys the library on the host's test environment.
