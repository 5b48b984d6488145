# harvesta

Verified decision logic of three Soroban contracts for sponsored tree planting:

- `src/escrow.rs`: the escrow that holds a sponsor's payment for a tree until a
  verifier releases it to the planter or, after 90 days, the sponsor takes it
  back; and anonymous donations matched to a planter.
- `src/tree_registry.rs`: the registry of trees, their verification, planter
  scores, milestone CO2 credits, the species catalogue and the indexes by
  species, region, sponsor and status.
- `src/nft_certificate.rs`: the impact certificate collection.
- `src/*_laws.rs`: proved properties that relate the operations.

Each contract is a state machine over a model of its ledger storage. An
operation either fails with the contract's error and leaves the state as it
was, or moves to the next state and lists what the host must do next (token
transfers, cross-contract calls, events).

`app/` runs the contracts on the Soroban host: it rebuilds the library's state
from ledger storage, asks for the authorizations, makes the token transfers and
cross-contract calls, publishes the events and writes the storage back.

The registry's state holds every tree, and its indexes are answers computed
over the trees in minting order, so the host glue reads every stored tree for
a call that touches trees. The ledger caps the entries one transaction may
read, which bounds the number of trees this deployment can serve; keeping the
index lists as separate storage entries, each call reading only those it
touches, would need a partial view of the state and a proof that it refines
the full one.
