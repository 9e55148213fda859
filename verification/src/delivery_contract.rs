//! The delivery contract: tracks each parcel from creation through driver
//! assignment to delivery or cancellation, and asks the escrow contract to
//! release or refund the payment when a parcel is confirmed or cancelled.

use crate::shared_types::Address;
use std::collections::HashMap;
use vstd::prelude::*;

verus! {

/// Identifier of a delivery.
pub type DeliveryId = u64;

/// Where a parcel stands.
#[derive(Clone, Copy, Debug, PartialEq, Eq, Structural)]
pub enum DeliveryStatus {
    Pending,
    Active,
    InTransit,
    Delivered,
    Cancelled,
}

/// Who receives a parcel.
#[derive(Clone, Debug, PartialEq, Eq)]
pub struct DeliveryMetadata {
    pub recipient: Address,
}

/// Everything kept about one parcel.
#[derive(Debug, PartialEq, Eq)]
pub struct DeliveryRecord {
    pub sender: Address,
    pub driver: Option<Address>,
    pub status: DeliveryStatus,
    pub metadata: DeliveryMetadata,
    pub delivered_at: Option<u64>,
}

impl Clone for DeliveryRecord {
    fn clone(&self) -> (r: Self)
        ensures
            r == *self,
    {
        DeliveryRecord {
            sender: self.sender.clone(),
            driver: crate::shared_types::clone_optional_address(&self.driver),
            status: self.status,
            metadata: DeliveryMetadata { recipient: self.metadata.recipient.clone() },
            delivered_at: self.delivered_at,
        }
    }
}

/// The storage keys of the delivery contract.
#[derive(Clone, Copy, Debug, PartialEq, Eq, Structural)]
pub enum DataKey {
    Delivery(DeliveryId),
    Admin,
    EscrowContract,
}

/// Why the delivery contract refused a call.
#[derive(Clone, Copy, Debug, PartialEq, Eq, Structural)]
pub enum DeliveryRejection {
    AlreadyInitialized,
    NotAuthorized,
    DeliveryNotFound,
    InvalidState,
    EscrowNotConfigured,
}

impl DeliveryRejection {
    /// The text the contract reports the rejection with.
    pub open spec fn message_of(self) -> Seq<char> {
        match self {
            DeliveryRejection::AlreadyInitialized => "already initialized"@,
            DeliveryRejection::NotAuthorized => "NotAuthorized"@,
            DeliveryRejection::DeliveryNotFound => "DeliveryNotFound"@,
            DeliveryRejection::InvalidState => "InvalidState"@,
            DeliveryRejection::EscrowNotConfigured => "EscrowNotConfigured"@,
        }
    }

    /// The text the contract reports the rejection with.
    pub fn message(&self) -> (m: &'static str)
        ensures
            m@ == self.message_of(),
    {
        match self {
            DeliveryRejection::AlreadyInitialized => "already initialized",
            DeliveryRejection::NotAuthorized => "NotAuthorized",
            DeliveryRejection::DeliveryNotFound => "DeliveryNotFound",
            DeliveryRejection::InvalidState => "InvalidState",
            DeliveryRejection::EscrowNotConfigured => "EscrowNotConfigured",
        }
    }
}

/// The escrow entry point a delivery calls into.
#[derive(Clone, Copy, Debug, PartialEq, Eq, Structural)]
pub enum EscrowEntryPoint {
    RefundEscrow,
    ReleaseEscrow,
}

impl EscrowEntryPoint {
    /// The name of the entry point.
    pub open spec fn name_of(self) -> Seq<char> {
        match self {
            EscrowEntryPoint::RefundEscrow => "refund_escrow"@,
            EscrowEntryPoint::ReleaseEscrow => "release_escrow"@,
        }
    }

    /// The name of the entry point.
    pub fn name(&self) -> (n: &'static str)
        ensures
            n@ == self.name_of(),
    {
        match self {
            EscrowEntryPoint::RefundEscrow => "refund_escrow",
            EscrowEntryPoint::ReleaseEscrow => "release_escrow",
        }
    }
}

/// A call the delivery contract makes into the escrow contract: the entry
/// point is invoked on `contract` with the delivery id as its one argument.
#[derive(Debug, PartialEq, Eq)]
pub struct EscrowInvocation {
    pub contract: Address,
    pub entry_point: EscrowEntryPoint,
    pub delivery_id: DeliveryId,
}

/// An announcement the delivery contract publishes.
#[derive(Debug, PartialEq, Eq)]
pub enum DeliveryEvent {
    DeliveryCancelled { delivery_id: DeliveryId, sender: Address },
    DriverAssigned { delivery_id: DeliveryId, driver: Address },
    DeliveryConfirmed { delivery_id: DeliveryId, recipient: Address },
}

impl DeliveryEvent {
    /// The name of the topic the announcement is published under.
    pub open spec fn topic_name_of(self) -> Seq<char> {
        match self {
            DeliveryEvent::DeliveryCancelled { .. } => "delivery_cancelled"@,
            DeliveryEvent::DriverAssigned { .. } => "driver_assigned"@,
            DeliveryEvent::DeliveryConfirmed { .. } => "delivery_confirmed"@,
        }
    }

    /// The name of the topic the announcement is published under.
    pub fn topic_name(&self) -> (n: &'static str)
        ensures
            n@ == self.topic_name_of(),
    {
        match self {
            DeliveryEvent::DeliveryCancelled { .. } => "delivery_cancelled",
            DeliveryEvent::DriverAssigned { .. } => "driver_assigned",
            DeliveryEvent::DeliveryConfirmed { .. } => "delivery_confirmed",
        }
    }
}

/// What a successful call asks of the outside world: at most one call into
/// the escrow contract, made first, and one announcement.
#[derive(Debug)]
pub struct DeliveryEffects {
    pub escrow_call: Option<EscrowInvocation>,
    pub event: DeliveryEvent,
}

/// The delivery contract's storage as plain values.
#[verifier::ext_equal]
pub struct DeliveryState {
    pub admin: Option<Address>,
    pub escrow_contract: Option<Address>,
    pub deliveries: Map<DeliveryId, DeliveryRecord>,
}

/// The result of a successful call: the storage afterwards, the escrow call
/// asked for, and the announcement published.
#[verifier::ext_equal]
pub struct DeliveryStep {
    pub post: DeliveryState,
    pub escrow_call: Option<EscrowInvocation>,
    pub event: DeliveryEvent,
}

impl DeliveryState {
    /// A contract whose storage is empty.
    pub open spec fn empty() -> DeliveryState {
        DeliveryState { admin: None, escrow_contract: None, deliveries: Map::empty() }
    }

    /// Whether `caller` is the stored administrator (none stored: no one is).
    pub open spec fn is_admin(self, caller: Address) -> bool {
        self.admin matches Some(a) && a@ == caller@
    }

    /// The record kept for `delivery_id` with its status replaced.
    pub open spec fn with_status(self, delivery_id: DeliveryId, status: DeliveryStatus) -> DeliveryState {
        DeliveryState {
            deliveries: self.deliveries.insert(
                delivery_id,
                DeliveryRecord { status, ..self.deliveries[delivery_id] },
            ),
            ..self
        }
    }

    /// `init_admin`: stores the administrator, once.
    pub open spec fn init_admin(self, admin: Address) -> Result<DeliveryState, DeliveryRejection> {
        if self.admin is Some {
            Err(DeliveryRejection::AlreadyInitialized)
        } else {
            Ok(DeliveryState { admin: Some(admin), ..self })
        }
    }

    /// `set_escrow_contract`: the administrator names the escrow contract.
    pub open spec fn set_escrow_contract(self, admin: Address, escrow: Address) -> Result<
        DeliveryState,
        DeliveryRejection,
    > {
        if !self.is_admin(admin) {
            Err(DeliveryRejection::NotAuthorized)
        } else {
            Ok(DeliveryState { escrow_contract: Some(escrow), ..self })
        }
    }

    /// `create_delivery`: keeps a fresh pending record for the delivery,
    /// replacing whatever was kept for it before.
    pub open spec fn create_delivery(self, sender: Address, recipient: Address, delivery_id: DeliveryId) -> DeliveryState {
        DeliveryState {
            deliveries: self.deliveries.insert(
                delivery_id,
                DeliveryRecord {
                    sender,
                    driver: None,
                    status: DeliveryStatus::Pending,
                    metadata: DeliveryMetadata { recipient },
                    delivered_at: None,
                },
            ),
            ..self
        }
    }

    /// `cancel_delivery`: the sender cancels a pending or active delivery
    /// and the escrow contract is asked to refund it.
    pub open spec fn cancel_delivery(self, sender: Address, delivery_id: DeliveryId) -> Result<
        DeliveryStep,
        DeliveryRejection,
    > {
        if !self.deliveries.contains_key(delivery_id) {
            Err(DeliveryRejection::DeliveryNotFound)
        } else {
            let record = self.deliveries[delivery_id];
            if record.sender@ != sender@ {
                Err(DeliveryRejection::NotAuthorized)
            } else if record.status != DeliveryStatus::Pending && record.status != DeliveryStatus::Active {
                Err(DeliveryRejection::InvalidState)
            } else {
                match self.escrow_contract {
                    None => Err(DeliveryRejection::EscrowNotConfigured),
                    Some(escrow) => Ok(
                        DeliveryStep {
                            post: self.with_status(delivery_id, DeliveryStatus::Cancelled),
                            escrow_call: Some(
                                EscrowInvocation {
                                    contract: escrow,
                                    entry_point: EscrowEntryPoint::RefundEscrow,
                                    delivery_id,
                                },
                            ),
                            event: DeliveryEvent::DeliveryCancelled { delivery_id, sender },
                        },
                    ),
                }
            }
        }
    }

    /// `assign_driver`: the administrator assigns a driver to a pending
    /// delivery, or a driver takes it on; the delivery becomes active.
    pub open spec fn assign_driver(self, caller: Address, delivery_id: DeliveryId, driver: Address) -> Result<
        DeliveryStep,
        DeliveryRejection,
    > {
        if !self.is_admin(caller) && caller@ != driver@ {
            Err(DeliveryRejection::NotAuthorized)
        } else if !self.deliveries.contains_key(delivery_id) {
            Err(DeliveryRejection::DeliveryNotFound)
        } else {
            let record = self.deliveries[delivery_id];
            if record.status != DeliveryStatus::Pending {
                Err(DeliveryRejection::InvalidState)
            } else {
                Ok(
                    DeliveryStep {
                        post: DeliveryState {
                            deliveries: self.deliveries.insert(
                                delivery_id,
                                DeliveryRecord {
                                    driver: Some(driver),
                                    status: DeliveryStatus::Active,
                                    ..record
                                },
                            ),
                            ..self
                        },
                        escrow_call: None,
                        event: DeliveryEvent::DriverAssigned { delivery_id, driver },
                    },
                )
            }
        }
    }

    /// `confirm_delivery`: the recipient confirms a delivery in transit,
    /// stamped with the ledger time, and the escrow contract is asked to
    /// release the payment.
    pub open spec fn confirm_delivery(self, recipient: Address, delivery_id: DeliveryId, now: u64) -> Result<
        DeliveryStep,
        DeliveryRejection,
    > {
        if !self.deliveries.contains_key(delivery_id) {
            Err(DeliveryRejection::DeliveryNotFound)
        } else {
            let record = self.deliveries[delivery_id];
            if record.metadata.recipient@ != recipient@ {
                Err(DeliveryRejection::NotAuthorized)
            } else if record.status != DeliveryStatus::InTransit {
                Err(DeliveryRejection::InvalidState)
            } else {
                match self.escrow_contract {
                    None => Err(DeliveryRejection::EscrowNotConfigured),
                    Some(escrow) => Ok(
                        DeliveryStep {
                            post: DeliveryState {
                                deliveries: self.deliveries.insert(
                                    delivery_id,
                                    DeliveryRecord {
                                        status: DeliveryStatus::Delivered,
                                        delivered_at: Some(now),
                                        ..record
                                    },
                                ),
                                ..self
                            },
                            escrow_call: Some(
                                EscrowInvocation {
                                    contract: escrow,
                                    entry_point: EscrowEntryPoint::ReleaseEscrow,
                                    delivery_id,
                                },
                            ),
                            event: DeliveryEvent::DeliveryConfirmed { delivery_id, recipient },
                        },
                    ),
                }
            }
        }
    }
}

/// How a call's result, and the storage before and after it, match the
/// model: on success the storage and effects are the model's step, on
/// refusal the model refuses for the same reason and nothing changes.
pub open spec fn matches_step(
    r: Result<DeliveryEffects, DeliveryRejection>,
    pre: DeliveryState,
    post: DeliveryState,
    model: Result<DeliveryStep, DeliveryRejection>,
) -> bool {
    match r {
        Ok(fx) => model matches Ok(step) && step.post == post && step.escrow_call == fx.escrow_call
            && step.event == fx.event,
        Err(e) => model == Err::<DeliveryStep, DeliveryRejection>(e) && post == pre,
    }
}

/// Like `matches_step`, for calls that change storage and announce nothing.
pub open spec fn matches_update(
    r: Result<(), DeliveryRejection>,
    pre: DeliveryState,
    post: DeliveryState,
    model: Result<DeliveryState, DeliveryRejection>,
) -> bool {
    match r {
        Ok(_) => model matches Ok(s) && s == post,
        Err(e) => model == Err::<DeliveryState, DeliveryRejection>(e) && post == pre,
    }
}

/// The delivery contract, over a plain-value copy of its storage.
pub struct DeliveryContract {
    admin: Option<Address>,
    escrow_contract: Option<Address>,
    deliveries: HashMap<DeliveryId, DeliveryRecord>,
}

impl View for DeliveryContract {
    type V = DeliveryState;

    closed spec fn view(&self) -> DeliveryState {
        DeliveryState {
            admin: self.admin,
            escrow_contract: self.escrow_contract,
            deliveries: self.deliveries@,
        }
    }
}

impl DeliveryContract {
    /// A contract whose storage is empty.
    pub fn new() -> (c: DeliveryContract)
        ensures
            c@ == DeliveryState::empty(),
    {
        let c = DeliveryContract { admin: None, escrow_contract: None, deliveries: HashMap::new() };
        assert(c@ =~= DeliveryState::empty());
        c
    }

    /// A contract with the given instance entries and no delivery records yet.
    pub fn with_instance(admin: Option<Address>, escrow_contract: Option<Address>) -> (c: DeliveryContract)
        ensures
            c@ == (DeliveryState { admin, escrow_contract, deliveries: Map::empty() }),
    {
        let c = DeliveryContract { admin, escrow_contract, deliveries: HashMap::new() };
        assert(c@ =~= (DeliveryState { admin, escrow_contract, deliveries: Map::empty() }));
        c
    }

    /// Places a stored record for `delivery_id`, replacing any held before.
    pub fn put_delivery(&mut self, delivery_id: DeliveryId, record: DeliveryRecord)
        ensures
            final(self)@ == (DeliveryState {
                deliveries: old(self)@.deliveries.insert(delivery_id, record),
                ..old(self)@
            }),
    {
        self.deliveries.insert(delivery_id, record);
        assert(self@ =~= (DeliveryState {
            deliveries: old(self)@.deliveries.insert(delivery_id, record),
            ..old(self)@
        }));
    }

    /// The stored administrator entry.
    pub fn admin_entry(&self) -> (r: Option<Address>)
        ensures
            r == self@.admin,
    {
        crate::shared_types::clone_optional_address(&self.admin)
    }

    /// The stored escrow contract entry.
    pub fn escrow_contract_entry(&self) -> (r: Option<Address>)
        ensures
            r == self@.escrow_contract,
    {
        crate::shared_types::clone_optional_address(&self.escrow_contract)
    }

    /// The record stored for `delivery_id`, if any.
    pub fn delivery_entry(&self, delivery_id: DeliveryId) -> (r: Option<DeliveryRecord>)
        ensures
            r == (if self@.deliveries.contains_key(delivery_id) {
                Some(self@.deliveries[delivery_id])
            } else {
                None::<DeliveryRecord>
            }),
    {
        match self.deliveries.get(&delivery_id) {
            Some(record) => Some(record.clone()),
            None => None,
        }
    }

    /// Whether `caller` is the stored administrator; false when none is stored.
    fn is_admin(&self, caller: &Address) -> (r: bool)
        ensures
            r == self@.is_admin(*caller),
    {
        match &self.admin {
            Some(admin) => admin.same_as(caller),
            None => false,
        }
    }

    /// Replaces the status of the record kept for `delivery_id`.
    fn set_status(&mut self, delivery_id: DeliveryId, status: DeliveryStatus)
        requires
            old(self)@.deliveries.contains_key(delivery_id),
        ensures
            final(self)@ == old(self)@.with_status(delivery_id, status),
    {
        let mut record = match self.deliveries.get(&delivery_id) {
            Some(r) => r.clone(),
            None => {
                assert(false);
                return ;
            },
        };
        record.status = status;
        self.deliveries.insert(delivery_id, record);
        assert(self@ =~= old(self)@.with_status(delivery_id, status));
    }

    /// Stores the administrator; refused once one is stored.
    pub fn init_admin(&mut self, admin: Address) -> (r: Result<(), DeliveryRejection>)
        ensures
            matches_update(r, old(self)@, final(self)@, old(self)@.init_admin(admin)),
    {
        if self.admin.is_some() {
            return Err(DeliveryRejection::AlreadyInitialized);
        }
        self.admin = Some(admin);
        assert(self@ =~= old(self)@.init_admin(admin)->Ok_0);
        Ok(())
    }

    /// The administrator names the escrow contract that holds payments.
    pub fn set_escrow_contract(&mut self, admin: &Address, escrow: Address) -> (r: Result<(), DeliveryRejection>)
        ensures
            matches_update(r, old(self)@, final(self)@, old(self)@.set_escrow_contract(*admin, escrow)),
    {
        if !self.is_admin(admin) {
            return Err(DeliveryRejection::NotAuthorized);
        }
        self.escrow_contract = Some(escrow);
        assert(self@ =~= old(self)@.set_escrow_contract(*admin, escrow)->Ok_0);
        Ok(())
    }

    /// Keeps a fresh pending record for a delivery from `sender` to
    /// `recipient`, replacing whatever was kept for it before.
    pub fn create_delivery(&mut self, sender: Address, recipient: Address, delivery_id: DeliveryId)
        ensures
            final(self)@ == old(self)@.create_delivery(sender, recipient, delivery_id),
    {
        let record = DeliveryRecord {
            sender,
            driver: None,
            status: DeliveryStatus::Pending,
            metadata: DeliveryMetadata { recipient },
            delivered_at: None,
        };
        self.deliveries.insert(delivery_id, record);
        assert(self@ =~= old(self)@.create_delivery(sender, recipient, delivery_id));
    }

    /// The sender cancels a pending or active delivery; the escrow contract
    /// is asked to refund it and the cancellation announced.
    pub fn cancel_delivery(&mut self, sender: &Address, delivery_id: DeliveryId) -> (r: Result<
        DeliveryEffects,
        DeliveryRejection,
    >)
        ensures
            matches_step(r, old(self)@, final(self)@, old(self)@.cancel_delivery(*sender, delivery_id)),
    {
        let record = match self.deliveries.get(&delivery_id) {
            Some(rec) => rec,
            None => return Err(DeliveryRejection::DeliveryNotFound),
        };
        if !record.sender.same_as(sender) {
            return Err(DeliveryRejection::NotAuthorized);
        }
        if record.status != DeliveryStatus::Pending && record.status != DeliveryStatus::Active {
            return Err(DeliveryRejection::InvalidState);
        }
        let escrow = match &self.escrow_contract {
            Some(e) => e.clone(),
            None => return Err(DeliveryRejection::EscrowNotConfigured),
        };
        self.set_status(delivery_id, DeliveryStatus::Cancelled);
        Ok(DeliveryEffects {
            escrow_call: Some(
                EscrowInvocation { contract: escrow, entry_point: EscrowEntryPoint::RefundEscrow, delivery_id },
            ),
            event: DeliveryEvent::DeliveryCancelled { delivery_id, sender: sender.clone() },
        })
    }

    /// The administrator assigns `driver` to a pending delivery, or the
    /// driver takes it on; the delivery becomes active and the assignment
    /// announced.
    pub fn assign_driver(&mut self, caller: &Address, delivery_id: DeliveryId, driver: Address) -> (r: Result<
        DeliveryEffects,
        DeliveryRejection,
    >)
        ensures
            matches_step(r, old(self)@, final(self)@, old(self)@.assign_driver(*caller, delivery_id, driver)),
    {
        let is_admin = self.is_admin(caller);
        let is_self_assignment = caller.same_as(&driver);
        if !is_admin && !is_self_assignment {
            return Err(DeliveryRejection::NotAuthorized);
        }
        let mut record = match self.deliveries.get(&delivery_id) {
            Some(rec) => rec.clone(),
            None => return Err(DeliveryRejection::DeliveryNotFound),
        };
        if record.status != DeliveryStatus::Pending {
            return Err(DeliveryRejection::InvalidState);
        }
        let announced = driver.clone();
        record.driver = Some(driver);
        record.status = DeliveryStatus::Active;
        self.deliveries.insert(delivery_id, record);
        assert(self@ =~= old(self)@.assign_driver(*caller, delivery_id, driver)->Ok_0.post);
        Ok(DeliveryEffects {
            escrow_call: None,
            event: DeliveryEvent::DriverAssigned { delivery_id, driver: announced },
        })
    }

    /// The recipient confirms a delivery in transit, stamped with the ledger
    /// time `now`; the escrow contract is asked to release the payment and
    /// the confirmation announced.
    pub fn confirm_delivery(&mut self, recipient: &Address, delivery_id: DeliveryId, now: u64) -> (r: Result<
        DeliveryEffects,
        DeliveryRejection,
    >)
        ensures
            matches_step(r, old(self)@, final(self)@, old(self)@.confirm_delivery(*recipient, delivery_id, now)),
    {
        let mut record = match self.deliveries.get(&delivery_id) {
            Some(rec) => rec.clone(),
            None => return Err(DeliveryRejection::DeliveryNotFound),
        };
        if !recipient.same_as(&record.metadata.recipient) {
            return Err(DeliveryRejection::NotAuthorized);
        }
        if record.status != DeliveryStatus::InTransit {
            return Err(DeliveryRejection::InvalidState);
        }
        let escrow = match &self.escrow_contract {
            Some(e) => e.clone(),
            None => return Err(DeliveryRejection::EscrowNotConfigured),
        };
        record.status = DeliveryStatus::Delivered;
        record.delivered_at = Some(now);
        self.deliveries.insert(delivery_id, record);
        assert(self@ =~= old(self)@.confirm_delivery(*recipient, delivery_id, now)->Ok_0.post);
        Ok(DeliveryEffects {
            escrow_call: Some(
                EscrowInvocation { contract: escrow, entry_point: EscrowEntryPoint::ReleaseEscrow, delivery_id },
            ),
            event: DeliveryEvent::DeliveryConfirmed { delivery_id, recipient: recipient.clone() },
        })
    }
}

/// A call that may change the delivery contract's storage, with its
/// arguments (and, for a confirmation, the ledger time).
pub enum DeliveryCall {
    InitAdmin { admin: Address },
    SetEscrowContract { admin: Address, escrow: Address },
    CreateDelivery { sender: Address, recipient: Address, delivery_id: DeliveryId },
    CancelDelivery { sender: Address, delivery_id: DeliveryId },
    AssignDriver { caller: Address, delivery_id: DeliveryId, driver: Address },
    ConfirmDelivery { recipient: Address, delivery_id: DeliveryId, now: u64 },
}

impl DeliveryCall {
    /// The delivery the call is about; zero for the administrative calls.
    pub open spec fn delivery(self) -> DeliveryId {
        match self {
            DeliveryCall::CreateDelivery { delivery_id, .. } => delivery_id,
            DeliveryCall::CancelDelivery { delivery_id, .. } => delivery_id,
            DeliveryCall::AssignDriver { delivery_id, .. } => delivery_id,
            DeliveryCall::ConfirmDelivery { delivery_id, .. } => delivery_id,
            _ => 0,
        }
    }
}

/// The storage after a refusable update; a refused one leaves it as it was.
pub open spec fn updated_or(pre: DeliveryState, r: Result<DeliveryState, DeliveryRejection>) -> DeliveryState {
    match r {
        Ok(s) => s,
        Err(_) => pre,
    }
}

/// The storage after a refusable step; a refused one leaves it as it was.
pub open spec fn stepped_or(pre: DeliveryState, r: Result<DeliveryStep, DeliveryRejection>) -> DeliveryState {
    match r {
        Ok(st) => st.post,
        Err(_) => pre,
    }
}

impl DeliveryState {
    /// The storage after a call; a refused call leaves it as it was.
    pub open spec fn after(self, call: DeliveryCall) -> DeliveryState {
        match call {
            DeliveryCall::InitAdmin { admin } => updated_or(self, self.init_admin(admin)),
            DeliveryCall::SetEscrowContract { admin, escrow } => updated_or(
                self,
                self.set_escrow_contract(admin, escrow),
            ),
            DeliveryCall::CreateDelivery { sender, recipient, delivery_id } => self.create_delivery(
                sender,
                recipient,
                delivery_id,
            ),
            DeliveryCall::CancelDelivery { sender, delivery_id } => stepped_or(
                self,
                self.cancel_delivery(sender, delivery_id),
            ),
            DeliveryCall::AssignDriver { caller, delivery_id, driver } => stepped_or(
                self,
                self.assign_driver(caller, delivery_id, driver),
            ),
            DeliveryCall::ConfirmDelivery { recipient, delivery_id, now } => stepped_or(
                self,
                self.confirm_delivery(recipient, delivery_id, now),
            ),
        }
    }

    /// No kept delivery is in transit or delivered.
    pub open spec fn none_in_transit(self) -> bool {
        forall|id: DeliveryId| #[trigger]
            self.deliveries.contains_key(id) ==> self.deliveries[id].status != DeliveryStatus::InTransit
                && self.deliveries[id].status != DeliveryStatus::Delivered
    }
}

/// No call ever puts a delivery in transit: starting from storage with no
/// delivery in transit or delivered (an empty contract, for one), every call
/// keeps it so, and a confirmation is therefore always refused.
pub proof fn lemma_no_call_puts_a_delivery_in_transit(
    s: DeliveryState,
    call: DeliveryCall,
    recipient: Address,
    delivery_id: DeliveryId,
    now: u64,
)
    requires
        s.none_in_transit(),
    ensures
        s.after(call).none_in_transit(),
        s.confirm_delivery(recipient, delivery_id, now) is Err,
{
    if s.deliveries.contains_key(delivery_id) {
        assert(s.deliveries[delivery_id].status != DeliveryStatus::InTransit);
    }
    let post = s.after(call);
    assert forall|id: DeliveryId| #[trigger] post.deliveries.contains_key(id) implies post.deliveries[id].status
        != DeliveryStatus::InTransit && post.deliveries[id].status != DeliveryStatus::Delivered by {
        if id != call.delivery() {
            assert(s.deliveries.contains_key(id));
        } else if s.deliveries.contains_key(id) {
            assert(s.deliveries[id].status != DeliveryStatus::InTransit);
        }
    }
}

/// A call touches at most the record of its own delivery, and only
/// `create_delivery` may touch a cancelled or delivered record (by
/// replacing it with a fresh one): every other call leaves it as it was.
pub proof fn lemma_settled_deliveries_stay_settled(s: DeliveryState, call: DeliveryCall)
    ensures
        forall|id: DeliveryId| #[trigger]
            s.deliveries.contains_key(id) ==> s.after(call).deliveries.contains_key(id),
        forall|id: DeliveryId|
            id != call.delivery() ==> #[trigger] s.after(call).deliveries.contains_key(id)
                == s.deliveries.contains_key(id) && s.after(call).deliveries[id] == s.deliveries[id],
        !(call is CreateDelivery) ==> forall|id: DeliveryId| #[trigger]
            s.deliveries.contains_key(id) && (s.deliveries[id].status == DeliveryStatus::Cancelled
                || s.deliveries[id].status == DeliveryStatus::Delivered) ==> s.after(call).deliveries[id]
                == s.deliveries[id],
{
}

/// Only the administrator or the driver in person can assign a driver: a
/// successful assignment by anyone else is impossible, and a successful one
/// records that driver on an active delivery.
pub proof fn lemma_assignment_is_authorized(s: DeliveryState, caller: Address, delivery_id: DeliveryId, driver: Address)
    ensures
        s.assign_driver(caller, delivery_id, driver) is Ok ==> (s.is_admin(caller) || caller@ == driver@),
        s.assign_driver(caller, delivery_id, driver) matches Ok(step) ==> step.post.deliveries[delivery_id].driver
            == Some(driver) && step.post.deliveries[delivery_id].status == DeliveryStatus::Active,
{
}

/// A cancellation always asks the stored escrow contract to refund the
/// delivery, whether it was pending or active: it succeeds exactly when the
/// record exists, the caller is its sender, it is pending or active and an
/// escrow contract is stored; then the call into that escrow contract's
/// `refund_escrow` for the delivery is requested, the record becomes
/// cancelled with nothing else changed, and the sender is announced.
pub proof fn lemma_cancellation_requests_refund(s: DeliveryState, sender: Address, delivery_id: DeliveryId)
    ensures
        s.cancel_delivery(sender, delivery_id) is Ok <==> ({
            &&& s.deliveries.contains_key(delivery_id)
            &&& s.deliveries[delivery_id].sender@ == sender@
            &&& (s.deliveries[delivery_id].status == DeliveryStatus::Pending || s.deliveries[delivery_id].status
                == DeliveryStatus::Active)
            &&& s.escrow_contract is Some
        }),
        s.cancel_delivery(sender, delivery_id) matches Ok(step) ==> ({
            let before = s.deliveries[delivery_id];
            let after = step.post.deliveries[delivery_id];
            &&& step.escrow_call == Some(
                EscrowInvocation {
                    contract: s.escrow_contract->Some_0,
                    entry_point: EscrowEntryPoint::RefundEscrow,
                    delivery_id,
                },
            )
            &&& step.post.deliveries.contains_key(delivery_id)
            &&& after.status == DeliveryStatus::Cancelled
            &&& after.sender == before.sender && after.driver == before.driver
            &&& after.metadata == before.metadata && after.delivered_at == before.delivered_at
            &&& step.event == DeliveryEvent::DeliveryCancelled { delivery_id, sender }
            &&& step.post.admin == s.admin && step.post.escrow_contract == s.escrow_contract
            &&& forall|id: DeliveryId|
                id != delivery_id && s.deliveries.contains_key(id) ==> #[trigger] step.post.deliveries[id]
                    == s.deliveries[id]
        }),
{
}

/// A confirmation by the recipient of a parcel in transit asks the stored
/// escrow contract to release the payment and stamps the delivery with the
/// ledger time: it succeeds exactly when the record exists, the caller is
/// its recipient, it is in transit and an escrow contract is stored.
pub proof fn lemma_confirmation_requests_release(
    s: DeliveryState,
    recipient: Address,
    delivery_id: DeliveryId,
    now: u64,
)
    ensures
        s.confirm_delivery(recipient, delivery_id, now) is Ok <==> ({
            &&& s.deliveries.contains_key(delivery_id)
            &&& s.deliveries[delivery_id].metadata.recipient@ == recipient@
            &&& s.deliveries[delivery_id].status == DeliveryStatus::InTransit
            &&& s.escrow_contract is Some
        }),
        s.confirm_delivery(recipient, delivery_id, now) matches Ok(step) ==> ({
            let before = s.deliveries[delivery_id];
            let after = step.post.deliveries[delivery_id];
            &&& step.escrow_call == Some(
                EscrowInvocation {
                    contract: s.escrow_contract->Some_0,
                    entry_point: EscrowEntryPoint::ReleaseEscrow,
                    delivery_id,
                },
            )
            &&& after.status == DeliveryStatus::Delivered
            &&& after.delivered_at == Some(now)
            &&& after.sender == before.sender && after.driver == before.driver && after.metadata
                == before.metadata
            &&& step.event == DeliveryEvent::DeliveryConfirmed { delivery_id, recipient }
            &&& forall|id: DeliveryId|
                id != delivery_id && s.deliveries.contains_key(id) ==> #[trigger] step.post.deliveries[id]
                    == s.deliveries[id]
        }),
{
}

/// Creating a delivery keeps a fresh record of exactly the given sender
/// and recipient, pending, with no driver and no delivery time.
pub proof fn lemma_creation_keeps_the_given_parties(
    s: DeliveryState,
    sender: Address,
    recipient: Address,
    delivery_id: DeliveryId,
)
    ensures
        ({
            let post = s.create_delivery(sender, recipient, delivery_id);
            let r = post.deliveries[delivery_id];
            &&& post.deliveries.contains_key(delivery_id)
            &&& r.sender == sender && r.metadata.recipient == recipient
            &&& r.status == DeliveryStatus::Pending && r.driver is None && r.delivered_at is None
            &&& post.admin == s.admin && post.escrow_contract == s.escrow_contract
            &&& forall|id: DeliveryId|
                id != delivery_id && s.deliveries.contains_key(id) ==> #[trigger] post.deliveries[id]
                    == s.deliveries[id]
        }),
{
}

/// Administration of the delivery contract: the administrator is stored
/// once, only by the first `init_admin`; only that administrator can name
/// the escrow contract, which is then the one stored.
pub proof fn lemma_delivery_administration(s: DeliveryState, admin: Address, escrow: Address)
    ensures
        s.init_admin(admin) is Ok <==> s.admin is None,
        s.init_admin(admin) matches Ok(post) ==> post.admin == Some(admin) && post.deliveries == s.deliveries
            && post.escrow_contract == s.escrow_contract,
        s.set_escrow_contract(admin, escrow) is Ok <==> (s.admin is Some && (s.admin->Some_0)@ == admin@),
        s.set_escrow_contract(admin, escrow) matches Ok(post) ==> post.escrow_contract == Some(escrow)
            && post.admin == s.admin && post.deliveries == s.deliveries,
{
}

/// Driver assignment succeeds exactly when the caller is the stored
/// administrator or the driver in person, the record exists and it is
/// pending; it changes only the driver and the status of that record.
pub proof fn lemma_assignment_admission(s: DeliveryState, caller: Address, delivery_id: DeliveryId, driver: Address)
    ensures
        s.assign_driver(caller, delivery_id, driver) is Ok <==> ({
            &&& (s.admin matches Some(a) && a@ == caller@) || caller@ == driver@
            &&& s.deliveries.contains_key(delivery_id)
            &&& s.deliveries[delivery_id].status == DeliveryStatus::Pending
        }),
        s.assign_driver(caller, delivery_id, driver) matches Ok(step) ==> ({
            let before = s.deliveries[delivery_id];
            let after = step.post.deliveries[delivery_id];
            &&& after.sender == before.sender && after.metadata == before.metadata && after.delivered_at
                == before.delivered_at
            &&& step.escrow_call is None
            &&& step.event == DeliveryEvent::DriverAssigned { delivery_id, driver }
        }),
{
}

} // verus!
