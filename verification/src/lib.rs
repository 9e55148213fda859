//! Verified core of a parcel-delivery escrow system: the shared record types,
//! the escrow contract that holds payment for a delivery, and the delivery
//! contract that tracks each parcel. Every contract entry point is a verified
//! transition of a plain-value model of the contract's storage; the host
//! environment (storage, authorization, token transfers, events) is driven
//! from the effects these transitions return.

pub mod shared_types;
pub mod escrow_contract;
pub mod delivery_contract;
