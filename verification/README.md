# millau_bridge

The verified core of the Millau end of the Millau <-> Rialto bridge:

- `scale`, `hashing`, `sr25519`, `era`: the SCALE encodings, hashes, signatures and
  transaction eras of the chain, taken from `parity-scale-codec`, `sp-crypto-hashing`,
  `sp-core` and `sp-runtime` and stated exactly where their documentation allows.
- `chain`: signing, recognising and reading back Millau transactions, and the storage key
  of an account's information.
- `location`, `bridge`, `config`, `currency`: XCM locations as plain values, the two XCM
  bridges (to Rialto and to the Rialto parachain) and their router, the executor's
  teleport and account rules, and the asset and account conversions.
- `messages_lane`: the runtime parameters that the Millau -> Rialto message relay uses.

Everything under `src/` is checked by Verus; `tests/` runs it against the real crates.
