//! Record types shared by the escrow and delivery contracts.

use vstd::prelude::*;

pub mod events;

verus! {

/// The identity of an account or a contract on the ledger, held as its
/// strkey text (the `G...`/`C...` form).
#[derive(Debug, PartialEq, Eq)]
pub struct Address {
    strkey: String,
}

impl View for Address {
    type V = Seq<char>;

    closed spec fn view(&self) -> Seq<char> {
        self.strkey@
    }
}

impl Address {
    /// An address with the given strkey text.
    pub fn from_strkey(strkey: String) -> (a: Address)
        ensures
            a@ == strkey@,
    {
        Address { strkey }
    }

    /// The strkey text of this address.
    pub fn strkey(&self) -> (s: &str)
        ensures
            s@ == self@,
    {
        self.strkey.as_str()
    }

    /// Whether both values name the same ledger identity.
    pub fn same_as(&self, other: &Address) -> (r: bool)
        ensures
            r == (self@ == other@),
    {
        self.strkey == other.strkey
    }
}

impl Clone for Address {
    fn clone(&self) -> (r: Self)
        ensures
            r == *self,
    {
        Address { strkey: self.strkey.clone() }
    }
}


/// Progress of a parcel as seen by the escrow side.
#[derive(Clone, Copy, Debug, PartialEq, Eq, Structural)]
pub enum DeliveryStatus {
    Created,
    InTransit,
    Delivered,
    Disputed,
}

/// A parcel, its driver and how far it has come.
#[derive(Clone, Debug, PartialEq, Eq)]
pub struct DeliveryDetails {
    pub id: u64,
    pub driver: String,
    pub status: DeliveryStatus,
}

/// Where the money held for a delivery stands.
#[derive(Clone, Copy, Debug, PartialEq, Eq, Structural)]
pub enum EscrowStatus {
    /// Funded and held by the contract.
    Pending,
    /// Frozen by a dispute until an administrator settles it.
    Disputed,
    /// Paid out to the driver (less the platform fee).
    Released,
    /// Returned to the sender.
    Refunded,
}

impl EscrowStatus {
    /// Released and refunded escrows are settled: nothing moves them again.
    pub open spec fn is_settled(self) -> bool {
        self is Released || self is Refunded
    }
}

/// The money held for one delivery and who may claim it.
#[derive(Debug, PartialEq, Eq)]
pub struct EscrowRecord {
    pub sender: Address,
    pub recipient: Address,
    pub driver: Address,
    pub token: Address,
    pub amount: i128,
    pub status: EscrowStatus,
    pub created_at: u64,
    pub disputed_by: Option<Address>,
    pub disputed_at: Option<u64>,
}

/// A copy of an optional address.
pub fn clone_optional_address(a: &Option<Address>) -> (r: Option<Address>)
    ensures
        r == *a,
{
    match a {
        Some(x) => Some(x.clone()),
        None => None,
    }
}

impl Clone for EscrowRecord {
    fn clone(&self) -> (r: Self)
        ensures
            r == *self,
    {
        EscrowRecord {
            sender: self.sender.clone(),
            recipient: self.recipient.clone(),
            driver: self.driver.clone(),
            token: self.token.clone(),
            amount: self.amount,
            status: self.status,
            created_at: self.created_at,
            disputed_by: clone_optional_address(&self.disputed_by),
            disputed_at: self.disputed_at,
        }
    }
}

/// A registered driver and the reputation earned so far.
#[derive(Clone, Debug, PartialEq, Eq)]
pub struct DriverProfile {
    pub address: Address,
    pub deliveries_completed: u32,
    pub reputation_score: u32,
    pub registered_at: u64,
}

/// The kind of goods a parcel carries.
#[derive(Clone, Copy, Debug, PartialEq, Eq, Structural)]
pub enum CargoCategory {
    Documents,
    Electronics,
    Perishables,
    Clothing,
    General,
}

/// Weight, kind and fragility of a parcel.
#[derive(Clone, Copy, Debug, PartialEq, Eq, Structural)]
pub struct CargoDescriptor {
    pub weight_grams: u32,
    pub category: CargoCategory,
    pub fragile: bool,
}

/// Route, cargo and schedule of a delivery.
#[derive(Clone, Debug, PartialEq, Eq)]
pub struct DeliveryMetadata {
    pub delivery_id: u64,
    pub origin: String,
    pub destination: String,
    pub cargo_description: CargoDescriptor,
    pub created_at: u64,
    pub estimated_delivery: u64,
}

} // verus!
