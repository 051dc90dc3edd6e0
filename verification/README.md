# dash_platform

Verified core of a document platform and its funding wallet, in Verus.

- `src/time_range.rs`: the time-range index transform. Which overlapping
  ranges contain a timestamp, and the laws of the index entries they make.
- `src/drive.rs`: document insertion, dispatched by platform version.
- `src/wallet/`: errors, scripted broadcasters, the soft signer over
  `secp256k1`, and the steps that fund wallets for exercises and put them
  under management.
- `src/wallet/asset_lock/`: which accounts fund an asset lock, the union of
  their coins, and the flows that build a lock, ensure a top-up account and
  follow a lock to its proof. Each flow takes an event and answers with the
  next action; its laws speak of whole runs.
- `app/`: the async shell that performs the actions.
- `tests/`: examples and scenarios.

What is believed without proof are the calls to `hex::encode` and to
`secp256k1` (key validity, signing, public keys, verifying), each in a small
function with its contract.
