//! Storage lifetime settings of the escrow contract.

use vstd::prelude::*;

verus! {

/// Remaining ledger lifetime below which an escrow entry is renewed.
pub const ESCROW_TTL_THRESHOLD: u32 = 518400;

/// Ledger lifetime an escrow entry is renewed to (about thirty days).
pub const ESCROW_TTL_EXTEND_TO: u32 = 518400;

} // verus!
