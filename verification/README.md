# confidential_assets

Verified core of a confidential multi-asset transfer system for Polkadot
parachains (Pedersen commitments, twisted ElGamal, Bulletproofs), written in
Verus.

`src/` is the verified library:

- `revive_abi`, `evm_precompile`: the PolkaVM and EVM precompiles — ABI
  helpers, selectors, view answers, and the pallet call and log each
  state-changing function dispatches.
- `runtime_config`: runtime decisions (precompile addresses, native asset,
  ramp routing, fees, call filter, XCM barrier, pallet indices).
- `scale`, `primitives`, `contract_calls`: SCALE wire formats of the bridge
  packet and of contract calls, with decode/encode round trips.
- `escrow`, `bridge`, `swaps`, `xcm_bridge`: the pallets as state machines
  whose steps take the answers of the messenger, backend, router and HTLC as
  arguments; `*_plan` functions say what to ask them.
- `prover`: balance arithmetic of the proofs, the commitment updates by the
  moved amount's commitment (on compressed Ristretto points), and the byte
  layouts of sender bundles, accept envelopes, mint and burn proofs.
- `hashing`, `benchmarks`, `testing`, `mocks`: hashing, report timestamps,
  test helpers and stand-ins.

`app/` holds what runs outside the proofs: floating-point benchmark reports,
hardware probing, curve arithmetic and randomness, and drivers that run the
state machines against the outside parties, each inside one backend
transaction. `tests/` exercises the library on concrete values.

The proving entry points (sender transfer, receiver accept, mint, burn), the
generator of test vectors and transfers, and the verifier's test helper build
their Σ-proof transcripts with the `zkhe-primitives` crate. They are not part
of this crate: `prover` holds the balance checks, commitment updates and
byte layouts around them, and puts their outputs together from the parts
the transcripts produce.
