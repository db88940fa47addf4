# ckb-lock-script

A CKB workspace whose logic is verified with Verus: two lock scripts, a token type
script, and the deployer that puts them on chain and spends the cells that they
guard.

- `src/` is the library. Its functions are verified against their contracts, but for
  the trusted ones: calls into outside crates (hashes, secp256k1, molecule serialization, addresses,
  hexadecimal, IDL documents) stand behind small functions whose contracts are
  believed, and whose doc comments say what is believed of them.
- `tests/` runs the library, with the real outside crates.
- `app/` is the deployer program: the environment, files, the node's RPC, and the
  entry points of the on-chain scripts.

## The scripts

- **sudt**: a token. Amounts are 16-byte little-endian numbers in cell data. Unless
  an input carries the owner's hash as its type hash, a transaction may not create
  more tokens than it consumes.
- **simple-lock**: a cell unlocks for the preimage of the hash in its args. The
  witness is the preimage with a 4-byte little-endian length in front.
- **timelock-lock**: args are a compressed public key and a commitment to an extra
  payload (65 bytes). The witness is a 65-byte signature, an 8-byte unlock time and
  the payload with its length in front.

## Interface descriptions

A script with an IDL file is deployed with the SHA-256 digest of that file behind
its binary. Before a cell is spent, the IDL file is compared with that commitment,
and the witness is decoded against the IDL.

## Commands

`deploy-sudt`, `deploy-simple-lock`, `create-locked-cell`, `spend-simple-lock`,
`deploy-timelock-lock`, `create-timelock-cell`, `spend-timelock-lock`. All read
`PRIVATE_KEY`, `TESTNET_ADDRESS` and `CKB_RPC` from the environment or `.env`.
Called as `keygen`, the program prints a new key and its addresses.
