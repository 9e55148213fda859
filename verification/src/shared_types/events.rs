//! Topic names under which the escrow contract announces its lifecycle.

use vstd::prelude::*;

verus! {

/// Topic of the announcement that an escrow was funded.
pub fn escrow_funded() -> (topic: &'static str)
    ensures
        topic@ == "escrow_funded"@,
{
    "escrow_funded"
}

/// Topic of the announcement that an escrow paid out to the driver.
pub fn escrow_released() -> (topic: &'static str)
    ensures
        topic@ == "escrow_released"@,
{
    "escrow_released"
}

/// Topic of the announcement that an escrow was returned to its sender.
pub fn escrow_refunded() -> (topic: &'static str)
    ensures
        topic@ == "escrow_refunded"@,
{
    "escrow_refunded"
}

/// Topic of the announcement that a delivery was disputed.
pub fn delivery_disputed() -> (topic: &'static str)
    ensures
        topic@ == "delivery_disputed"@,
{
    "delivery_disputed"
}

/// Topic of the announcement that a dispute was settled.
pub fn dispute_resolved() -> (topic: &'static str)
    ensures
        topic@ == "dispute_resolved"@,
{
    "dispute_resolved"
}

} // verus!
