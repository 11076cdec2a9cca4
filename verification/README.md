# orbitchain

Verified core of the OrbitChain crowdfunding contracts, written in Verus.

- `src/common.rs`: the workspace-wide error catalogue and the shared campaign,
  milestone and asset types.
- `src/campaign/types.rs`: the campaign record as plain values (addresses in
  strkey text form).
- `src/campaign/asset_auth.rs`: the accepted-asset guard and its read-only
  view, both proved against one rule (`campaign_accepts`), and the proved
  properties of that rule.
- `app/lib.rs`: Soroban glue: `contracttype` encodings of the types,
  conversions to the library's plain values, the storage read and the panic.
- `tests/`: scenario tests.
