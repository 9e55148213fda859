# delivery_escrow

Verified core of a parcel-delivery payment system built from two on-chain
contracts.

- `src/shared_types.rs` (and `src/shared_types/events.rs`): the record types
  both contracts share, ledger addresses held as strkey text, and the topic
  names of the escrow announcements.
- `src/escrow_contract.rs`: the escrow contract. Its storage is modelled as
  `EscrowState`; every entry point is a verified transition whose contract is
  the matching `EscrowState` function, returning the token transfers and the
  announcement the call asks for. The platform fee arithmetic and the laws of
  the contract (fee cap, conservation of escrowed funds, forward-only record
  lifecycle, two-step admin handover) are proved here.
- `src/delivery_contract.rs`: the delivery contract, modelled the same way as
  `DeliveryState`, returning the call into the escrow contract and the
  announcement each entry point asks for.
- `app/`: the contracts on the Soroban host. Each entry point loads the
  storage it needs into the model, checks authorization, runs the verified
  transition and performs its effects.
- `tests/`: scenarios for every entry point, run against the model with a
  small token ledger standing in for the host.
