//! The escrow contract: holds a sender's payment for a delivery until it is
//! released to the driver (less a platform fee), refunded, or settled after a
//! dispute by the administrator.

use crate::shared_types::{clone_optional_address, Address, DeliveryStatus, EscrowRecord, EscrowStatus};
use crate::shared_types::events;
use std::collections::HashMap;
use vstd::prelude::*;

pub mod constants;

verus! {

/// Basis points that make up a whole amount.
pub const BPS_PER_WHOLE: i128 = 10000;

/// The largest platform fee an administrator may set, in basis points.
pub const MAX_PLATFORM_FEE_BPS: u32 = 1000;

/// `x` clamped into the range of `i128`.
pub open spec fn clamp_i128(x: int) -> int {
    if x > i128::MAX {
        i128::MAX as int
    } else if x < i128::MIN {
        i128::MIN as int
    } else {
        x
    }
}

/// Integer division rounding toward zero, for a positive divisor.
pub open spec fn div_toward_zero(x: int, d: int) -> int
    recommends
        d > 0,
{
    if x >= 0 {
        x / d
    } else {
        -((-x) / d)
    }
}

/// The platform's share of `amount` at `fee_bps` basis points: the product
/// saturates at the bounds of `i128`, then is divided by 10 000 rounding
/// toward zero.
pub open spec fn platform_fee(amount: i128, fee_bps: u32) -> int {
    div_toward_zero(clamp_i128(amount * fee_bps), 10000)
}

/// What is left of `amount` for the driver once `fee` is taken, saturating
/// at the bounds of `i128`.
pub open spec fn driver_share(amount: i128, fee: i128) -> int {
    clamp_i128(amount - fee)
}

/// `a * b`, saturating at the bounds of `i128`.
fn saturating_mul_i128(a: i128, b: i128) -> (r: i128)
    ensures
        r == clamp_i128(a * b),
{
    match a.checked_mul(b) {
        Some(p) => p,
        None => {
            if (a < 0) == (b < 0) {
                assert(a * b > i128::MAX) by (nonlinear_arith)
                    requires
                        (a < 0) == (b < 0),
                        a * b > i128::MAX || a * b < i128::MIN,
                ;
                i128::MAX
            } else {
                assert(a * b < i128::MIN) by (nonlinear_arith)
                    requires
                        (a < 0) != (b < 0),
                        a * b > i128::MAX || a * b < i128::MIN,
                ;
                i128::MIN
            }
        },
    }
}

/// `a - b`, saturating at the bounds of `i128`.
fn saturating_sub_i128(a: i128, b: i128) -> (r: i128)
    ensures
        r == clamp_i128(a - b),
{
    match a.checked_sub(b) {
        Some(d) => d,
        None => {
            if b < 0 {
                i128::MAX
            } else {
                i128::MIN
            }
        },
    }
}

/// The platform fee taken from `amount` at `platform_fee_bps` basis points.
pub fn calculate_fee(amount: i128, platform_fee_bps: u32) -> (fee: i128)
    ensures
        fee == platform_fee(amount, platform_fee_bps),
        0 <= amount && amount * platform_fee_bps <= i128::MAX ==> fee == (amount * platform_fee_bps) / 10000,
        0 <= amount && amount * platform_fee_bps <= i128::MAX ==> fee * 10000 <= amount * platform_fee_bps < (
        fee + 1) * 10000,
        amount < 0 && i128::MIN <= amount * platform_fee_bps ==> fee == -((-(amount * platform_fee_bps))
            / 10000),
{
    proof {
        lemma_fee_is_basis_point_share(amount, platform_fee_bps);
    }
    let product = saturating_mul_i128(amount, platform_fee_bps as i128);
    match product.checked_div(BPS_PER_WHOLE) {
        Some(q) => q,
        None => {
            assert(false);
            0
        },
    }
}

/// The driver's share of `amount` once `fee` is taken.
pub fn calculate_driver_amount(amount: i128, fee: i128) -> (share: i128)
    ensures
        share == driver_share(amount, fee),
{
    saturating_sub_i128(amount, fee)
}

/// The platform fee is the basis-point share of the amount: without
/// overflow, `amount * fee_bps / 10000`, rounded toward zero; so the fee of
/// a non-negative amount is the largest whole number of tokens whose
/// 10000-fold does not exceed `amount * fee_bps`.
pub proof fn lemma_fee_is_basis_point_share(amount: i128, fee_bps: u32)
    ensures
        0 <= amount && amount * fee_bps <= i128::MAX ==> platform_fee(amount, fee_bps) == (amount * fee_bps)
            / 10000,
        0 <= amount && amount * fee_bps <= i128::MAX ==> platform_fee(amount, fee_bps) * 10000 <= amount
            * fee_bps < (platform_fee(amount, fee_bps) + 1) * 10000,
        amount < 0 && i128::MIN <= amount * fee_bps ==> platform_fee(amount, fee_bps) == -((-(amount
            * fee_bps)) / 10000),
{
    let p = amount * fee_bps;
    if amount >= 0 {
        assert(p >= 0) by (nonlinear_arith)
            requires
                amount >= 0,
                fee_bps >= 0,
                p == amount * fee_bps,
        ;
    } else {
        assert(p <= 0) by (nonlinear_arith)
            requires
                amount < 0,
                fee_bps >= 0,
                p == amount * fee_bps,
        ;
    }
}

/// The fee and the driver's share always add up to the escrowed amount:
/// splitting a payout neither creates nor loses funds.
pub proof fn lemma_fee_split_conserves_amount(amount: i128, fee_bps: u32)
    ensures
        i128::MIN <= platform_fee(amount, fee_bps) <= i128::MAX,
        platform_fee(amount, fee_bps) + driver_share(amount, platform_fee(amount, fee_bps) as i128)
            == amount,
{
    let p = amount * fee_bps;
    if amount >= 0 {
        assert(p >= 0) by (nonlinear_arith)
            requires
                amount >= 0,
                fee_bps >= 0,
                p == amount * fee_bps,
        ;
    } else {
        assert(p <= 0) by (nonlinear_arith)
            requires
                amount < 0,
                fee_bps >= 0,
                p == amount * fee_bps,
        ;
    }
}

/// For a non-negative amount and a fee of at most 100%, the platform's share
/// lies between zero and the amount, so the driver's share does too.
pub proof fn lemma_fee_within_amount(amount: i128, fee_bps: u32)
    requires
        amount >= 0,
        fee_bps <= 10000,
    ensures
        0 <= platform_fee(amount, fee_bps) <= amount,
        0 <= driver_share(amount, platform_fee(amount, fee_bps) as i128) <= amount,
{
    let p = amount * fee_bps;
    assert(0 <= p <= amount * 10000) by (nonlinear_arith)
        requires
            amount >= 0,
            0 <= fee_bps <= 10000,
            p == amount * fee_bps,
    ;
    lemma_fee_split_conserves_amount(amount, fee_bps);
}

/// Errors the escrow contract reports with a numeric code.
#[derive(Clone, Copy, Debug, PartialEq, Eq, PartialOrd, Ord, Structural)]
pub enum EscrowError {
    InvalidState,
    DeliveryNotFound,
    InsufficientFunds,
    DuplicateDelivery,
}

impl EscrowError {
    /// The numeric code under which the error is reported.
    pub open spec fn code_of(self) -> u32 {
        match self {
            EscrowError::InvalidState => 1,
            EscrowError::DeliveryNotFound => 2,
            EscrowError::InsufficientFunds => 3,
            EscrowError::DuplicateDelivery => 4,
        }
    }

    /// The numeric code under which the error is reported.
    pub fn code(&self) -> (c: u32)
        ensures
            c == self.code_of(),
    {
        match self {
            EscrowError::InvalidState => 1,
            EscrowError::DeliveryNotFound => 2,
            EscrowError::InsufficientFunds => 3,
            EscrowError::DuplicateDelivery => 4,
        }
    }
}

/// Payload of the announcement that the platform fee changed.
#[derive(Clone, Copy, Debug, PartialEq, Eq, Structural)]
pub struct FeeUpdated {
    pub old_fee: u32,
    pub new_fee: u32,
}

/// Why the escrow contract refused a call: a coded contract error, or one of
/// the plain rejections of the administration and authorization checks.
#[derive(Clone, Copy, Debug, PartialEq, Eq, Structural)]
pub enum EscrowRejection {
    Error(EscrowError),
    AlreadyInitialized,
    NotInitialized,
    Unauthorized,
    CallerNotAdmin,
    NoPendingAdmin,
    CallerNotPendingAdmin,
}

impl EscrowRejection {
    /// The text the contract reports a plain rejection with.
    pub open spec fn message_of(self) -> Seq<char> {
        match self {
            EscrowRejection::Error(EscrowError::InvalidState) => "InvalidState"@,
            EscrowRejection::Error(EscrowError::DeliveryNotFound) => "DeliveryNotFound"@,
            EscrowRejection::Error(EscrowError::InsufficientFunds) => "InsufficientFunds"@,
            EscrowRejection::Error(EscrowError::DuplicateDelivery) => "DuplicateDelivery"@,
            EscrowRejection::AlreadyInitialized => "Already initialized"@,
            EscrowRejection::NotInitialized => "Not initialized"@,
            EscrowRejection::Unauthorized => "Unauthorized"@,
            EscrowRejection::CallerNotAdmin => "caller is not the admin"@,
            EscrowRejection::NoPendingAdmin => "no pending admin"@,
            EscrowRejection::CallerNotPendingAdmin => "caller is not the pending admin"@,
        }
    }

    /// The text the contract reports a rejection with.
    pub fn message(&self) -> (m: &'static str)
        ensures
            m@ == self.message_of(),
    {
        match self {
            EscrowRejection::Error(EscrowError::InvalidState) => "InvalidState",
            EscrowRejection::Error(EscrowError::DeliveryNotFound) => "DeliveryNotFound",
            EscrowRejection::Error(EscrowError::InsufficientFunds) => "InsufficientFunds",
            EscrowRejection::Error(EscrowError::DuplicateDelivery) => "DuplicateDelivery",
            EscrowRejection::AlreadyInitialized => "Already initialized",
            EscrowRejection::NotInitialized => "Not initialized",
            EscrowRejection::Unauthorized => "Unauthorized",
            EscrowRejection::CallerNotAdmin => "caller is not the admin",
            EscrowRejection::NoPendingAdmin => "no pending admin",
            EscrowRejection::CallerNotPendingAdmin => "caller is not the pending admin",
        }
    }
}

/// A token movement the contract asks for.
#[derive(Debug, PartialEq, Eq)]
pub enum TokenTransfer {
    /// `amount` of `token` moves from `from` into the contract's account.
    Deposit { token: Address, from: Address, amount: i128 },
    /// `amount` of `token` moves from the contract's account to `to`.
    Payout { token: Address, to: Address, amount: i128 },
}

/// An announcement the contract publishes.
#[derive(Debug, PartialEq, Eq)]
pub enum EscrowEvent {
    FeeUpdated(FeeUpdated),
    AdminTransferred { old_admin: Address, new_admin: Address },
    EscrowFunded { delivery_id: u64, sender: Address, recipient: Address, amount: i128 },
    EscrowReleased { delivery_id: u64, driver: Address, driver_amount: i128, platform_fee: i128 },
    EscrowRefunded { delivery_id: u64, sender: Address, amount: i128 },
    DeliveryDisputed { delivery_id: u64, caller: Address, timestamp: u64 },
    DisputeResolved { delivery_id: u64, release_to_driver: bool, caller: Address },
}

impl EscrowEvent {
    /// The name of the first topic the announcement is published under.
    pub open spec fn topic_name_of(self) -> Seq<char> {
        match self {
            EscrowEvent::FeeUpdated(_) => "FeeUpdated"@,
            EscrowEvent::AdminTransferred { .. } => "AdminTransferred"@,
            EscrowEvent::EscrowFunded { .. } => "escrow_funded"@,
            EscrowEvent::EscrowReleased { .. } => "escrow_released"@,
            EscrowEvent::EscrowRefunded { .. } => "escrow_refunded"@,
            EscrowEvent::DeliveryDisputed { .. } => "delivery_disputed"@,
            EscrowEvent::DisputeResolved { .. } => "dispute_resolved"@,
        }
    }

    /// The delivery the announcement is about, published as its second topic.
    pub open spec fn topic_delivery_of(self) -> Option<u64> {
        match self {
            EscrowEvent::FeeUpdated(_) => None,
            EscrowEvent::AdminTransferred { .. } => None,
            EscrowEvent::EscrowFunded { delivery_id, .. } => Some(delivery_id),
            EscrowEvent::EscrowReleased { delivery_id, .. } => Some(delivery_id),
            EscrowEvent::EscrowRefunded { delivery_id, .. } => Some(delivery_id),
            EscrowEvent::DeliveryDisputed { delivery_id, .. } => Some(delivery_id),
            EscrowEvent::DisputeResolved { delivery_id, .. } => Some(delivery_id),
        }
    }

    /// The name of the first topic the announcement is published under.
    pub fn topic_name(&self) -> (name: &'static str)
        ensures
            name@ == self.topic_name_of(),
    {
        match self {
            EscrowEvent::FeeUpdated(_) => "FeeUpdated",
            EscrowEvent::AdminTransferred { .. } => "AdminTransferred",
            EscrowEvent::EscrowFunded { .. } => events::escrow_funded(),
            EscrowEvent::EscrowReleased { .. } => events::escrow_released(),
            EscrowEvent::EscrowRefunded { .. } => events::escrow_refunded(),
            EscrowEvent::DeliveryDisputed { .. } => events::delivery_disputed(),
            EscrowEvent::DisputeResolved { .. } => events::dispute_resolved(),
        }
    }

    /// The delivery the announcement is about, published as its second topic.
    pub fn topic_delivery(&self) -> (id: Option<u64>)
        ensures
            id == self.topic_delivery_of(),
    {
        match self {
            EscrowEvent::FeeUpdated(_) => None,
            EscrowEvent::AdminTransferred { .. } => None,
            EscrowEvent::EscrowFunded { delivery_id, .. } => Some(*delivery_id),
            EscrowEvent::EscrowReleased { delivery_id, .. } => Some(*delivery_id),
            EscrowEvent::EscrowRefunded { delivery_id, .. } => Some(*delivery_id),
            EscrowEvent::DeliveryDisputed { delivery_id, .. } => Some(*delivery_id),
            EscrowEvent::DisputeResolved { delivery_id, .. } => Some(*delivery_id),
        }
    }
}

/// What a successful call asks of the outside world: token movements, in
/// order, and one announcement.
#[derive(Debug)]
pub struct EscrowEffects {
    pub transfers: Vec<TokenTransfer>,
    pub event: EscrowEvent,
}

/// The escrow contract's storage as plain values: the instance entries and
/// the escrow record kept for each delivery.
#[verifier::ext_equal]
pub struct EscrowState {
    pub admin: Option<Address>,
    pub pending_admin: Option<Address>,
    pub platform_fee_bps: Option<u32>,
    pub amount: Option<i128>,
    pub escrows: Map<u64, EscrowRecord>,
}

/// The result of a successful call: the storage afterwards, the token
/// movements asked for, and the announcement published.
#[verifier::ext_equal]
pub struct EscrowStep {
    pub post: EscrowState,
    pub transfers: Seq<TokenTransfer>,
    pub event: EscrowEvent,
}

/// The payouts of a release: the driver's share and then the platform fee,
/// each only when it is positive.
pub open spec fn release_payouts(
    token: Address,
    driver: Address,
    driver_amount: i128,
    admin: Address,
    fee: i128,
) -> Seq<TokenTransfer> {
    (if driver_amount > 0 {
        seq![TokenTransfer::Payout { token, to: driver, amount: driver_amount }]
    } else {
        seq![]
    }) + (if fee > 0 {
        seq![TokenTransfer::Payout { token, to: admin, amount: fee }]
    } else {
        seq![]
    })
}

impl EscrowState {
    /// A contract whose storage is empty.
    pub open spec fn empty() -> EscrowState {
        EscrowState {
            admin: None,
            pending_admin: None,
            platform_fee_bps: None,
            amount: None,
            escrows: Map::empty(),
        }
    }

    /// The platform fee in force; none stored reads as zero.
    pub open spec fn fee_bps(self) -> u32 {
        match self.platform_fee_bps {
            Some(f) => f,
            None => 0,
        }
    }

    /// The stored fee respects the cap an administrator may set.
    pub open spec fn fee_within_cap(self) -> bool {
        self.fee_bps() <= MAX_PLATFORM_FEE_BPS
    }

    /// Whether `caller` is the stored administrator (none stored: no one is).
    pub open spec fn is_admin(self, caller: Address) -> bool {
        self.admin matches Some(a) && a@ == caller@
    }

    /// `init`: stores the administrator, the amount and a zero fee, once.
    pub open spec fn init(self, admin: Address, amount: i128) -> Result<EscrowState, EscrowRejection> {
        if self.admin is Some {
            Err(EscrowRejection::AlreadyInitialized)
        } else {
            Ok(EscrowState { admin: Some(admin), amount: Some(amount), platform_fee_bps: Some(0), ..self })
        }
    }

    /// `update_platform_fee`: the administrator sets a fee of at most 1000
    /// basis points.
    pub open spec fn update_platform_fee(self, admin: Address, new_fee_bps: u32) -> Result<
        EscrowStep,
        EscrowRejection,
    > {
        match self.admin {
            None => Err(EscrowRejection::NotInitialized),
            Some(stored) => if stored@ != admin@ {
                Err(EscrowRejection::Unauthorized)
            } else if new_fee_bps > MAX_PLATFORM_FEE_BPS {
                Err(EscrowRejection::Error(EscrowError::InvalidState))
            } else {
                Ok(
                    EscrowStep {
                        post: EscrowState { platform_fee_bps: Some(new_fee_bps), ..self },
                        transfers: seq![],
                        event: EscrowEvent::FeeUpdated(
                            FeeUpdated { old_fee: self.fee_bps(), new_fee: new_fee_bps },
                        ),
                    },
                )
            },
        }
    }

    /// `get_admin`: the stored administrator.
    pub open spec fn get_admin(self) -> Result<Address, EscrowRejection> {
        match self.admin {
            Some(a) => Ok(a),
            None => Err(EscrowRejection::NotInitialized),
        }
    }

    /// `get_amount`: the stored amount; none stored reads as zero.
    pub open spec fn get_amount(self) -> i128 {
        match self.amount {
            Some(a) => a,
            None => 0,
        }
    }

    /// `propose_admin`: the administrator names a successor.
    pub open spec fn propose_admin(self, current_admin: Address, new_admin: Address) -> Result<
        EscrowState,
        EscrowRejection,
    > {
        match self.admin {
            None => Err(EscrowRejection::NotInitialized),
            Some(stored) => if stored@ != current_admin@ {
                Err(EscrowRejection::CallerNotAdmin)
            } else {
                Ok(EscrowState { pending_admin: Some(new_admin), ..self })
            },
        }
    }

    /// `accept_admin`: the named successor takes over and the nomination is
    /// cleared.
    pub open spec fn accept_admin(self, new_admin: Address) -> Result<EscrowStep, EscrowRejection> {
        match self.pending_admin {
            None => Err(EscrowRejection::NoPendingAdmin),
            Some(pending) => if pending@ != new_admin@ {
                Err(EscrowRejection::CallerNotPendingAdmin)
            } else {
                match self.admin {
                    None => Err(EscrowRejection::NotInitialized),
                    Some(old_admin) => Ok(
                        EscrowStep {
                            post: EscrowState {
                                admin: Some(new_admin),
                                pending_admin: None,
                                ..self
                            },
                            transfers: seq![],
                            event: EscrowEvent::AdminTransferred { old_admin, new_admin },
                        },
                    ),
                }
            },
        }
    }

    /// `create_escrow`: the sender's payment moves into the contract and a
    /// pending record is kept for a delivery that has none yet.
    pub open spec fn create_escrow(
        self,
        sender: Address,
        recipient: Address,
        driver: Address,
        delivery_id: u64,
        token: Address,
        amount: i128,
        now: u64,
    ) -> Result<EscrowStep, EscrowRejection> {
        if self.escrows.contains_key(delivery_id) {
            Err(EscrowRejection::Error(EscrowError::DuplicateDelivery))
        } else {
            let record = EscrowRecord {
                sender,
                recipient,
                driver,
                token,
                amount,
                status: EscrowStatus::Pending,
                created_at: now,
                disputed_by: None,
                disputed_at: None,
            };
            Ok(
                EscrowStep {
                    post: EscrowState { escrows: self.escrows.insert(delivery_id, record), ..self },
                    transfers: seq![TokenTransfer::Deposit { token, from: sender, amount }],
                    event: EscrowEvent::EscrowFunded { delivery_id, sender, recipient, amount },
                },
            )
        }
    }

    /// The record kept for `delivery_id` with its status replaced.
    pub open spec fn with_status(self, delivery_id: u64, status: EscrowStatus) -> EscrowState {
        EscrowState {
            escrows: self.escrows.insert(
                delivery_id,
                EscrowRecord { status, ..self.escrows[delivery_id] },
            ),
            ..self
        }
    }

    /// Paying out a record to its driver: the driver's share and the
    /// platform fee leave the contract and the record becomes released.
    pub open spec fn pay_driver(self, delivery_id: u64, admin: Address, event_caller: Option<Address>) -> EscrowStep {
        let record = self.escrows[delivery_id];
        let fee = platform_fee(record.amount, self.fee_bps()) as i128;
        let driver_amount = driver_share(record.amount, fee) as i128;
        EscrowStep {
            post: self.with_status(delivery_id, EscrowStatus::Released),
            transfers: release_payouts(record.token, record.driver, driver_amount, admin, fee),
            event: match event_caller {
                None => EscrowEvent::EscrowReleased {
                    delivery_id,
                    driver: record.driver,
                    driver_amount,
                    platform_fee: fee,
                },
                Some(caller) => EscrowEvent::DisputeResolved {
                    delivery_id,
                    release_to_driver: true,
                    caller,
                },
            },
        }
    }

    /// `release_escrow`: the administrator or the recipient pays a pending
    /// escrow out to the driver, provided the contract holds enough.
    pub open spec fn release_escrow(self, caller: Address, delivery_id: u64, contract_balance: i128) -> Result<
        EscrowStep,
        EscrowRejection,
    > {
        if !self.escrows.contains_key(delivery_id) {
            Err(EscrowRejection::Error(EscrowError::DeliveryNotFound))
        } else {
            let record = self.escrows[delivery_id];
            match self.admin {
                None => Err(EscrowRejection::NotInitialized),
                Some(admin) => if admin@ != caller@ && record.recipient@ != caller@ {
                    Err(EscrowRejection::Unauthorized)
                } else if record.status != EscrowStatus::Pending {
                    Err(EscrowRejection::Error(EscrowError::InvalidState))
                } else if contract_balance < record.amount {
                    Err(EscrowRejection::Error(EscrowError::InsufficientFunds))
                } else {
                    Ok(self.pay_driver(delivery_id, admin, None))
                },
            }
        }
    }

    /// `refund_escrow`: the administrator or the sender returns a pending or
    /// disputed escrow to the sender, provided the contract holds enough.
    pub open spec fn refund_escrow(self, caller: Address, delivery_id: u64, contract_balance: i128) -> Result<
        EscrowStep,
        EscrowRejection,
    > {
        if !self.escrows.contains_key(delivery_id) {
            Err(EscrowRejection::Error(EscrowError::DeliveryNotFound))
        } else {
            let record = self.escrows[delivery_id];
            match self.admin {
                None => Err(EscrowRejection::NotInitialized),
                Some(admin) => if admin@ != caller@ && record.sender@ != caller@ {
                    Err(EscrowRejection::Unauthorized)
                } else if record.status != EscrowStatus::Pending && record.status
                    != EscrowStatus::Disputed {
                    Err(EscrowRejection::Error(EscrowError::InvalidState))
                } else if contract_balance < record.amount {
                    Err(EscrowRejection::Error(EscrowError::InsufficientFunds))
                } else {
                    Ok(
                        EscrowStep {
                            post: self.with_status(delivery_id, EscrowStatus::Refunded),
                            transfers: seq![
                                TokenTransfer::Payout {
                                    token: record.token,
                                    to: record.sender,
                                    amount: record.amount,
                                },
                            ],
                            event: EscrowEvent::EscrowRefunded {
                                delivery_id,
                                sender: record.sender,
                                amount: record.amount,
                            },
                        },
                    )
                },
            }
        }
    }

    /// `raise_dispute`: the sender or the recipient freezes a pending escrow.
    pub open spec fn raise_dispute(self, caller: Address, delivery_id: u64, now: u64) -> Result<
        EscrowStep,
        EscrowRejection,
    > {
        if !self.escrows.contains_key(delivery_id) {
            Err(EscrowRejection::Error(EscrowError::DeliveryNotFound))
        } else {
            let record = self.escrows[delivery_id];
            if record.sender@ != caller@ && record.recipient@ != caller@ {
                Err(EscrowRejection::Unauthorized)
            } else if record.status != EscrowStatus::Pending {
                Err(EscrowRejection::Error(EscrowError::InvalidState))
            } else {
                Ok(
                    EscrowStep {
                        post: EscrowState {
                            escrows: self.escrows.insert(
                                delivery_id,
                                EscrowRecord {
                                    status: EscrowStatus::Disputed,
                                    disputed_by: Some(caller),
                                    disputed_at: Some(now),
                                    ..record
                                },
                            ),
                            ..self
                        },
                        transfers: seq![],
                        event: EscrowEvent::DeliveryDisputed { delivery_id, caller, timestamp: now },
                    },
                )
            }
        }
    }

    /// `resolve_dispute`: the administrator settles a disputed escrow, paying
    /// the driver or returning the money to the sender.
    pub open spec fn resolve_dispute(self, caller: Address, delivery_id: u64, release_to_driver: bool) -> Result<
        EscrowStep,
        EscrowRejection,
    > {
        match self.admin {
            None => Err(EscrowRejection::NotInitialized),
            Some(admin) => if admin@ != caller@ {
                Err(EscrowRejection::Unauthorized)
            } else if !self.escrows.contains_key(delivery_id) {
                Err(EscrowRejection::Error(EscrowError::DeliveryNotFound))
            } else {
                let record = self.escrows[delivery_id];
                if record.status != EscrowStatus::Disputed {
                    Err(EscrowRejection::Error(EscrowError::InvalidState))
                } else if release_to_driver {
                    Ok(self.pay_driver(delivery_id, admin, Some(caller)))
                } else {
                    Ok(
                        EscrowStep {
                            post: self.with_status(delivery_id, EscrowStatus::Refunded),
                            transfers: seq![
                                TokenTransfer::Payout {
                                    token: record.token,
                                    to: record.sender,
                                    amount: record.amount,
                                },
                            ],
                            event: EscrowEvent::DisputeResolved {
                                delivery_id,
                                release_to_driver: false,
                                caller,
                            },
                        },
                    )
                }
            },
        }
    }

    /// `get_escrow`: the record kept for a delivery.
    pub open spec fn get_escrow(self, delivery_id: u64) -> Result<EscrowRecord, EscrowRejection> {
        if self.escrows.contains_key(delivery_id) {
            Ok(self.escrows[delivery_id])
        } else {
            Err(EscrowRejection::Error(EscrowError::DeliveryNotFound))
        }
    }
}

/// How a call's result, and the storage before and after it, match the
/// model: on success the storage and effects are the model's step, on
/// refusal the model refuses for the same reason and nothing changes.
pub open spec fn matches_step(
    r: Result<EscrowEffects, EscrowRejection>,
    pre: EscrowState,
    post: EscrowState,
    model: Result<EscrowStep, EscrowRejection>,
) -> bool {
    match r {
        Ok(fx) => model matches Ok(step) && step.post == post && step.transfers == fx.transfers@
            && step.event == fx.event,
        Err(e) => model == Err::<EscrowStep, EscrowRejection>(e) && post == pre,
    }
}

/// Like `matches_step`, for calls that change storage and announce nothing.
pub open spec fn matches_update(
    r: Result<(), EscrowRejection>,
    pre: EscrowState,
    post: EscrowState,
    model: Result<EscrowState, EscrowRejection>,
) -> bool {
    match r {
        Ok(_) => model matches Ok(s) && s == post,
        Err(e) => model == Err::<EscrowState, EscrowRejection>(e) && post == pre,
    }
}

/// The escrow contract, over a plain-value copy of its storage.
pub struct EscrowContract {
    admin: Option<Address>,
    pending_admin: Option<Address>,
    platform_fee_bps: Option<u32>,
    amount: Option<i128>,
    escrows: HashMap<u64, EscrowRecord>,
}

impl View for EscrowContract {
    type V = EscrowState;

    closed spec fn view(&self) -> EscrowState {
        EscrowState {
            admin: self.admin,
            pending_admin: self.pending_admin,
            platform_fee_bps: self.platform_fee_bps,
            amount: self.amount,
            escrows: self.escrows@,
        }
    }
}

impl EscrowContract {
    /// A contract whose storage is empty.
    pub fn new() -> (c: EscrowContract)
        ensures
            c@ == EscrowState::empty(),
    {
        let c = EscrowContract {
            admin: None,
            pending_admin: None,
            platform_fee_bps: None,
            amount: None,
            escrows: HashMap::new(),
        };
        assert(c@ =~= EscrowState::empty());
        c
    }

    /// A contract with the given instance entries and no escrow records yet.
    pub fn with_instance(
        admin: Option<Address>,
        pending_admin: Option<Address>,
        platform_fee_bps: Option<u32>,
        amount: Option<i128>,
    ) -> (c: EscrowContract)
        ensures
            c@ == (EscrowState { admin, pending_admin, platform_fee_bps, amount, escrows: Map::empty() }),
    {
        let c = EscrowContract { admin, pending_admin, platform_fee_bps, amount, escrows: HashMap::new() };
        assert(c@ =~= (EscrowState { admin, pending_admin, platform_fee_bps, amount, escrows: Map::empty() }));
        c
    }

    /// Places a stored record for `delivery_id`, replacing any held before.
    pub fn put_escrow(&mut self, delivery_id: u64, record: EscrowRecord)
        ensures
            final(self)@ == (EscrowState { escrows: old(self)@.escrows.insert(delivery_id, record), ..old(self)@ }),
    {
        self.escrows.insert(delivery_id, record);
        assert(self@ =~= (EscrowState { escrows: old(self)@.escrows.insert(delivery_id, record), ..old(self)@ }));
    }

    /// The stored administrator entry.
    pub fn admin_entry(&self) -> (r: Option<Address>)
        ensures
            r == self@.admin,
    {
        clone_optional_address(&self.admin)
    }

    /// The stored nomination of a successor administrator.
    pub fn pending_admin_entry(&self) -> (r: Option<Address>)
        ensures
            r == self@.pending_admin,
    {
        clone_optional_address(&self.pending_admin)
    }

    /// The stored platform fee entry.
    pub fn platform_fee_entry(&self) -> (r: Option<u32>)
        ensures
            r == self@.platform_fee_bps,
    {
        self.platform_fee_bps
    }

    /// The stored amount entry.
    pub fn amount_entry(&self) -> (r: Option<i128>)
        ensures
            r == self@.amount,
    {
        self.amount
    }

    /// The record stored for `delivery_id`, if any.
    pub fn escrow_entry(&self, delivery_id: u64) -> (r: Option<EscrowRecord>)
        ensures
            r == (if self@.escrows.contains_key(delivery_id) {
                Some(self@.escrows[delivery_id])
            } else {
                None::<EscrowRecord>
            }),
    {
        match self.escrows.get(&delivery_id) {
            Some(record) => Some(record.clone()),
            None => None,
        }
    }

    /// Whether `caller` is the stored administrator; refuses when none is stored.
    fn is_admin(&self, caller: &Address) -> (r: Result<bool, EscrowRejection>)
        ensures
            match r {
                Ok(b) => self@.admin is Some && b == self@.is_admin(*caller),
                Err(e) => self@.admin is None && e == EscrowRejection::NotInitialized,
            },
    {
        match &self.admin {
            Some(stored) => Ok(stored.same_as(caller)),
            None => Err(EscrowRejection::NotInitialized),
        }
    }

    /// Refuses unless `caller` is the stored administrator.
    fn require_admin(&self, caller: &Address) -> (r: Result<(), EscrowRejection>)
        ensures
            match r {
                Ok(_) => self@.is_admin(*caller),
                Err(e) => (self@.admin is None && e == EscrowRejection::NotInitialized)
                    || (self@.admin is Some && !self@.is_admin(*caller) && e == EscrowRejection::Unauthorized),
            },
    {
        if self.is_admin(caller)? {
            Ok(())
        } else {
            Err(EscrowRejection::Unauthorized)
        }
    }

    /// The platform fee in force; none stored reads as zero.
    pub fn get_platform_fee(&self) -> (fee: u32)
        ensures
            fee == self@.fee_bps(),
    {
        match self.platform_fee_bps {
            Some(f) => f,
            None => 0,
        }
    }

    /// The status reported for a delivery before any tracking starts.
    pub fn get_status() -> (s: DeliveryStatus)
        ensures
            s == DeliveryStatus::Created,
    {
        DeliveryStatus::Created
    }

    /// The stored administrator.
    pub fn get_admin(&self) -> (r: Result<Address, EscrowRejection>)
        ensures
            r == self@.get_admin(),
    {
        match &self.admin {
            Some(a) => Ok(a.clone()),
            None => Err(EscrowRejection::NotInitialized),
        }
    }

    /// The stored amount; none stored reads as zero.
    pub fn get_amount(&self) -> (a: i128)
        ensures
            a == self@.get_amount(),
    {
        match self.amount {
            Some(a) => a,
            None => 0,
        }
    }
}

impl EscrowContract {
    /// Replaces the status of the record kept for `delivery_id`.
    fn set_status(&mut self, delivery_id: u64, status: EscrowStatus)
        requires
            old(self)@.escrows.contains_key(delivery_id),
        ensures
            final(self)@ == old(self)@.with_status(delivery_id, status),
    {
        let mut record = match self.escrows.get(&delivery_id) {
            Some(r) => r.clone(),
            None => {
                assert(false);
                return ;
            },
        };
        record.status = status;
        self.escrows.insert(delivery_id, record);
        assert(self@ =~= old(self)@.with_status(delivery_id, status));
    }

    /// Pays a record out to its driver: the driver's share and then the
    /// platform fee, each when positive; the record becomes released.
    fn pay_driver(&mut self, delivery_id: u64, admin: &Address, event_caller: Option<Address>) -> (fx: EscrowEffects)
        requires
            old(self)@.escrows.contains_key(delivery_id),
        ensures
            old(self)@.pay_driver(delivery_id, *admin, event_caller) == (EscrowStep {
                post: final(self)@,
                transfers: fx.transfers@,
                event: fx.event,
            }),
    {
        let record = match self.escrows.get(&delivery_id) {
            Some(r) => r.clone(),
            None => {
                assert(false);
                return EscrowEffects { transfers: Vec::new(), event: EscrowEvent::FeeUpdated(FeeUpdated { old_fee: 0, new_fee: 0 }) };
            },
        };
        let fee = calculate_fee(record.amount, self.get_platform_fee());
        let driver_amount = calculate_driver_amount(record.amount, fee);
        let mut transfers: Vec<TokenTransfer> = Vec::new();
        if driver_amount > 0 {
            transfers.push(
                TokenTransfer::Payout { token: record.token.clone(), to: record.driver.clone(), amount: driver_amount },
            );
        }
        if fee > 0 {
            transfers.push(TokenTransfer::Payout { token: record.token.clone(), to: admin.clone(), amount: fee });
        }
        let event = match event_caller {
            None => EscrowEvent::EscrowReleased {
                delivery_id,
                driver: record.driver.clone(),
                driver_amount,
                platform_fee: fee,
            },
            Some(caller) => EscrowEvent::DisputeResolved { delivery_id, release_to_driver: true, caller },
        };
        self.set_status(delivery_id, EscrowStatus::Released);
        let ghost expected = old(self)@.pay_driver(delivery_id, *admin, event_caller);
        assert(transfers@ =~= expected.transfers);
        assert(self@ =~= expected.post);
        EscrowEffects { transfers, event }
    }

    /// Stores the administrator and the amount and sets a zero platform
    /// fee; refused once an administrator is stored.
    pub fn init(&mut self, admin: Address, amount: i128) -> (r: Result<(), EscrowRejection>)
        ensures
            matches_update(r, old(self)@, final(self)@, old(self)@.init(admin, amount)),
            old(self)@.fee_within_cap() ==> final(self)@.fee_within_cap(),
    {
        if self.admin.is_some() {
            return Err(EscrowRejection::AlreadyInitialized);
        }
        self.admin = Some(admin);
        self.amount = Some(amount);
        self.platform_fee_bps = Some(0);
        assert(self@ =~= old(self)@.init(admin, amount)->Ok_0);
        Ok(())
    }

    /// The administrator sets the platform fee; refused above 1000 basis
    /// points. Announces the old and the new fee.
    pub fn update_platform_fee(&mut self, admin: &Address, new_fee_bps: u32) -> (r: Result<EscrowEffects, EscrowRejection>)
        ensures
            matches_step(r, old(self)@, final(self)@, old(self)@.update_platform_fee(*admin, new_fee_bps)),
            old(self)@.fee_within_cap() ==> final(self)@.fee_within_cap(),
    {
        let stored = match &self.admin {
            Some(a) => a,
            None => return Err(EscrowRejection::NotInitialized),
        };
        if !stored.same_as(admin) {
            return Err(EscrowRejection::Unauthorized);
        }
        if new_fee_bps > MAX_PLATFORM_FEE_BPS {
            return Err(EscrowRejection::Error(EscrowError::InvalidState));
        }
        let old_fee = self.get_platform_fee();
        self.platform_fee_bps = Some(new_fee_bps);
        let transfers: Vec<TokenTransfer> = Vec::new();
        let ghost expected = old(self)@.update_platform_fee(*admin, new_fee_bps)->Ok_0;
        assert(self@ =~= expected.post);
        assert(transfers@ =~= expected.transfers);
        Ok(EscrowEffects { transfers, event: EscrowEvent::FeeUpdated(FeeUpdated { old_fee, new_fee: new_fee_bps }) })
    }

    /// The administrator names a successor, who must accept to take over.
    pub fn propose_admin(&mut self, current_admin: &Address, new_admin: Address) -> (r: Result<(), EscrowRejection>)
        ensures
            matches_update(r, old(self)@, final(self)@, old(self)@.propose_admin(*current_admin, new_admin)),
            old(self)@.fee_within_cap() ==> final(self)@.fee_within_cap(),
    {
        let stored = match &self.admin {
            Some(a) => a,
            None => return Err(EscrowRejection::NotInitialized),
        };
        if !stored.same_as(current_admin) {
            return Err(EscrowRejection::CallerNotAdmin);
        }
        self.pending_admin = Some(new_admin);
        assert(self@ =~= old(self)@.propose_admin(*current_admin, new_admin)->Ok_0);
        Ok(())
    }

    /// The named successor becomes administrator; the nomination is
    /// cleared and the handover announced.
    pub fn accept_admin(&mut self, new_admin: Address) -> (r: Result<EscrowEffects, EscrowRejection>)
        ensures
            matches_step(r, old(self)@, final(self)@, old(self)@.accept_admin(new_admin)),
            old(self)@.fee_within_cap() ==> final(self)@.fee_within_cap(),
    {
        match &self.pending_admin {
            None => return Err(EscrowRejection::NoPendingAdmin),
            Some(p) => {
                if !p.same_as(&new_admin) {
                    return Err(EscrowRejection::CallerNotPendingAdmin);
                }
            },
        }
        let old_admin = match &self.admin {
            Some(a) => a.clone(),
            None => return Err(EscrowRejection::NotInitialized),
        };
        let announced = new_admin.clone();
        self.admin = Some(new_admin);
        self.pending_admin = None;
        let transfers: Vec<TokenTransfer> = Vec::new();
        let ghost expected = old(self)@.accept_admin(new_admin)->Ok_0;
        assert(self@ =~= expected.post);
        assert(transfers@ =~= expected.transfers);
        Ok(EscrowEffects { transfers, event: EscrowEvent::AdminTransferred { old_admin, new_admin: announced } })
    }
}

impl EscrowContract {
    /// Funds the escrow for a delivery: the sender's payment moves into the
    /// contract and a pending record is kept; refused for a delivery that
    /// already has one. `now` is the ledger time of the call.
    pub fn create_escrow(
        &mut self,
        sender: Address,
        recipient: Address,
        driver: Address,
        delivery_id: u64,
        token: Address,
        amount: i128,
        now: u64,
    ) -> (r: Result<EscrowEffects, EscrowRejection>)
        ensures
            matches_step(
                r,
                old(self)@,
                final(self)@,
                old(self)@.create_escrow(sender, recipient, driver, delivery_id, token, amount, now),
            ),
            old(self)@.fee_within_cap() ==> final(self)@.fee_within_cap(),
    {
        if self.escrows.contains_key(&delivery_id) {
            return Err(EscrowRejection::Error(EscrowError::DuplicateDelivery));
        }
        let mut transfers: Vec<TokenTransfer> = Vec::new();
        transfers.push(TokenTransfer::Deposit { token: token.clone(), from: sender.clone(), amount });
        let event = EscrowEvent::EscrowFunded {
            delivery_id,
            sender: sender.clone(),
            recipient: recipient.clone(),
            amount,
        };
        let record = EscrowRecord {
            sender,
            recipient,
            driver,
            token,
            amount,
            status: EscrowStatus::Pending,
            created_at: now,
            disputed_by: None,
            disputed_at: None,
        };
        self.escrows.insert(delivery_id, record);
        let ghost expected = old(self)@.create_escrow(
            sender,
            recipient,
            driver,
            delivery_id,
            token,
            amount,
            now,
        )->Ok_0;
        assert(self@ =~= expected.post);
        assert(transfers@ =~= expected.transfers);
        Ok(EscrowEffects { transfers, event })
    }

    /// The administrator or the recipient pays a pending escrow out to the
    /// driver: the driver's share goes to the driver and the platform fee to
    /// the administrator. `contract_balance` is what the contract holds of
    /// the escrow's token; the release is refused when it is short of the
    /// escrowed amount.
    pub fn release_escrow(&mut self, caller: &Address, delivery_id: u64, contract_balance: i128) -> (r: Result<
        EscrowEffects,
        EscrowRejection,
    >)
        ensures
            matches_step(r, old(self)@, final(self)@, old(self)@.release_escrow(*caller, delivery_id, contract_balance)),
            old(self)@.fee_within_cap() ==> final(self)@.fee_within_cap(),
    {
        let record = match self.escrows.get(&delivery_id) {
            Some(rec) => rec,
            None => return Err(EscrowRejection::Error(EscrowError::DeliveryNotFound)),
        };
        let admin_authorized = self.is_admin(caller)?;
        let recipient_authorized = caller.same_as(&record.recipient);
        if !admin_authorized && !recipient_authorized {
            return Err(EscrowRejection::Unauthorized);
        }
        if record.status != EscrowStatus::Pending {
            return Err(EscrowRejection::Error(EscrowError::InvalidState));
        }
        if contract_balance < record.amount {
            return Err(EscrowRejection::Error(EscrowError::InsufficientFunds));
        }
        let admin = match &self.admin {
            Some(a) => a.clone(),
            None => return Err(EscrowRejection::NotInitialized),
        };
        Ok(self.pay_driver(delivery_id, &admin, None))
    }

    /// The administrator or the sender returns a pending or disputed escrow
    /// to the sender. `contract_balance` is what the contract holds of the
    /// escrow's token; the refund is refused when it is short of the
    /// escrowed amount.
    pub fn refund_escrow(&mut self, caller: &Address, delivery_id: u64, contract_balance: i128) -> (r: Result<
        EscrowEffects,
        EscrowRejection,
    >)
        ensures
            matches_step(r, old(self)@, final(self)@, old(self)@.refund_escrow(*caller, delivery_id, contract_balance)),
            old(self)@.fee_within_cap() ==> final(self)@.fee_within_cap(),
    {
        let record = match self.escrows.get(&delivery_id) {
            Some(rec) => rec.clone(),
            None => return Err(EscrowRejection::Error(EscrowError::DeliveryNotFound)),
        };
        let admin_authorized = self.is_admin(caller)?;
        let sender_authorized = caller.same_as(&record.sender);
        if !admin_authorized && !sender_authorized {
            return Err(EscrowRejection::Unauthorized);
        }
        if record.status != EscrowStatus::Pending && record.status != EscrowStatus::Disputed {
            return Err(EscrowRejection::Error(EscrowError::InvalidState));
        }
        if contract_balance < record.amount {
            return Err(EscrowRejection::Error(EscrowError::InsufficientFunds));
        }
        let mut transfers: Vec<TokenTransfer> = Vec::new();
        transfers.push(
            TokenTransfer::Payout { token: record.token.clone(), to: record.sender.clone(), amount: record.amount },
        );
        let event = EscrowEvent::EscrowRefunded { delivery_id, sender: record.sender.clone(), amount: record.amount };
        self.set_status(delivery_id, EscrowStatus::Refunded);
        let ghost expected = old(self)@.refund_escrow(*caller, delivery_id, contract_balance)->Ok_0;
        assert(self@ =~= expected.post);
        assert(transfers@ =~= expected.transfers);
        Ok(EscrowEffects { transfers, event })
    }

    /// The sender or the recipient freezes a pending escrow until the
    /// administrator settles it. `now` is the ledger time of the call.
    pub fn raise_dispute(&mut self, caller: &Address, delivery_id: u64, now: u64) -> (r: Result<
        EscrowEffects,
        EscrowRejection,
    >)
        ensures
            matches_step(r, old(self)@, final(self)@, old(self)@.raise_dispute(*caller, delivery_id, now)),
            old(self)@.fee_within_cap() ==> final(self)@.fee_within_cap(),
    {
        let mut record = match self.escrows.get(&delivery_id) {
            Some(rec) => rec.clone(),
            None => return Err(EscrowRejection::Error(EscrowError::DeliveryNotFound)),
        };
        if !caller.same_as(&record.sender) && !caller.same_as(&record.recipient) {
            return Err(EscrowRejection::Unauthorized);
        }
        if record.status != EscrowStatus::Pending {
            return Err(EscrowRejection::Error(EscrowError::InvalidState));
        }
        record.status = EscrowStatus::Disputed;
        record.disputed_by = Some(caller.clone());
        record.disputed_at = Some(now);
        self.escrows.insert(delivery_id, record);
        let transfers: Vec<TokenTransfer> = Vec::new();
        let ghost expected = old(self)@.raise_dispute(*caller, delivery_id, now)->Ok_0;
        assert(self@ =~= expected.post);
        assert(transfers@ =~= expected.transfers);
        Ok(EscrowEffects {
            transfers,
            event: EscrowEvent::DeliveryDisputed { delivery_id, caller: caller.clone(), timestamp: now },
        })
    }

    /// The administrator settles a disputed escrow: with `release_to_driver`
    /// it is paid out as a release would, otherwise the escrowed amount goes
    /// back to the sender.
    pub fn resolve_dispute(&mut self, caller: &Address, delivery_id: u64, release_to_driver: bool) -> (r: Result<
        EscrowEffects,
        EscrowRejection,
    >)
        ensures
            matches_step(r, old(self)@, final(self)@, old(self)@.resolve_dispute(*caller, delivery_id, release_to_driver)),
            old(self)@.fee_within_cap() ==> final(self)@.fee_within_cap(),
    {
        self.require_admin(caller)?;
        let record = match self.escrows.get(&delivery_id) {
            Some(rec) => rec.clone(),
            None => return Err(EscrowRejection::Error(EscrowError::DeliveryNotFound)),
        };
        if record.status != EscrowStatus::Disputed {
            return Err(EscrowRejection::Error(EscrowError::InvalidState));
        }
        if release_to_driver {
            let admin = match &self.admin {
                Some(a) => a.clone(),
                None => return Err(EscrowRejection::NotInitialized),
            };
            Ok(self.pay_driver(delivery_id, &admin, Some(caller.clone())))
        } else {
            let mut transfers: Vec<TokenTransfer> = Vec::new();
            transfers.push(
                TokenTransfer::Payout { token: record.token.clone(), to: record.sender.clone(), amount: record.amount },
            );
            self.set_status(delivery_id, EscrowStatus::Refunded);
            let ghost expected = old(self)@.resolve_dispute(*caller, delivery_id, release_to_driver)->Ok_0;
            assert(self@ =~= expected.post);
            assert(transfers@ =~= expected.transfers);
            Ok(EscrowEffects {
                transfers,
                event: EscrowEvent::DisputeResolved { delivery_id, release_to_driver: false, caller: caller.clone() },
            })
        }
    }

    /// The record kept for a delivery; refused when there is none.
    pub fn get_escrow(&self, delivery_id: u64) -> (r: Result<EscrowRecord, EscrowRejection>)
        ensures
            r == self@.get_escrow(delivery_id),
    {
        match self.escrows.get(&delivery_id) {
            Some(record) => Ok(record.clone()),
            None => Err(EscrowRejection::Error(EscrowError::DeliveryNotFound)),
        }
    }
}

/// A call that may change the escrow contract's storage, with its arguments
/// (and, where the contract consults them, the ledger time and the
/// contract's token balance).
pub enum EscrowCall {
    Init { admin: Address, amount: i128 },
    UpdatePlatformFee { admin: Address, new_fee_bps: u32 },
    ProposeAdmin { current_admin: Address, new_admin: Address },
    AcceptAdmin { new_admin: Address },
    CreateEscrow {
        sender: Address,
        recipient: Address,
        driver: Address,
        delivery_id: u64,
        token: Address,
        amount: i128,
        now: u64,
    },
    ReleaseEscrow { caller: Address, delivery_id: u64, contract_balance: i128 },
    RefundEscrow { caller: Address, delivery_id: u64, contract_balance: i128 },
    RaiseDispute { caller: Address, delivery_id: u64, now: u64 },
    ResolveDispute { caller: Address, delivery_id: u64, release_to_driver: bool },
}

impl EscrowCall {
    /// The delivery the call is about; zero for the administrative calls.
    pub open spec fn delivery(self) -> u64 {
        match self {
            EscrowCall::CreateEscrow { delivery_id, .. } => delivery_id,
            EscrowCall::ReleaseEscrow { delivery_id, .. } => delivery_id,
            EscrowCall::RefundEscrow { delivery_id, .. } => delivery_id,
            EscrowCall::RaiseDispute { delivery_id, .. } => delivery_id,
            EscrowCall::ResolveDispute { delivery_id, .. } => delivery_id,
            _ => 0,
        }
    }
}

impl EscrowState {
    /// The storage after a call and the token movements it asks for, or the
    /// reason it is refused.
    pub open spec fn outcome(self, call: EscrowCall) -> Result<(EscrowState, Seq<TokenTransfer>), EscrowRejection> {
        match call {
            EscrowCall::Init { admin, amount } => lift_update(self.init(admin, amount)),
            EscrowCall::ProposeAdmin { current_admin, new_admin } => lift_update(
                self.propose_admin(current_admin, new_admin),
            ),
            EscrowCall::UpdatePlatformFee { admin, new_fee_bps } => lift_step(
                self.update_platform_fee(admin, new_fee_bps),
            ),
            EscrowCall::AcceptAdmin { new_admin } => lift_step(self.accept_admin(new_admin)),
            EscrowCall::CreateEscrow { sender, recipient, driver, delivery_id, token, amount, now } =>
                lift_step(self.create_escrow(sender, recipient, driver, delivery_id, token, amount, now)),
            EscrowCall::ReleaseEscrow { caller, delivery_id, contract_balance } => lift_step(
                self.release_escrow(caller, delivery_id, contract_balance),
            ),
            EscrowCall::RefundEscrow { caller, delivery_id, contract_balance } => lift_step(
                self.refund_escrow(caller, delivery_id, contract_balance),
            ),
            EscrowCall::RaiseDispute { caller, delivery_id, now } => lift_step(
                self.raise_dispute(caller, delivery_id, now),
            ),
            EscrowCall::ResolveDispute { caller, delivery_id, release_to_driver } => lift_step(
                self.resolve_dispute(caller, delivery_id, release_to_driver),
            ),
        }
    }

    /// The storage after a call; a refused call leaves it as it was.
    pub open spec fn after(self, call: EscrowCall) -> EscrowState {
        match self.outcome(call) {
            Ok((s, _)) => s,
            Err(_) => self,
        }
    }

    /// The amount the contract holds for a delivery: a pending or disputed
    /// record's amount, nothing otherwise.
    pub open spec fn held(self, delivery_id: u64) -> int {
        if self.escrows.contains_key(delivery_id) && !self.escrows[delivery_id].status.is_settled() {
            self.escrows[delivery_id].amount as int
        } else {
            0
        }
    }
}

/// A storage change that moves no tokens, as an outcome.
pub open spec fn lift_update(r: Result<EscrowState, EscrowRejection>) -> Result<(EscrowState, Seq<TokenTransfer>), EscrowRejection> {
    match r {
        Ok(s) => Ok((s, Seq::empty())),
        Err(e) => Err(e),
    }
}

/// A step, as an outcome.
pub open spec fn lift_step(r: Result<EscrowStep, EscrowRejection>) -> Result<(EscrowState, Seq<TokenTransfer>), EscrowRejection> {
    match r {
        Ok(st) => Ok((st.post, st.transfers)),
        Err(e) => Err(e),
    }
}

/// Whether an escrow may move from one status to the other in one call.
pub open spec fn status_may_follow(from: EscrowStatus, to: EscrowStatus) -> bool {
    ||| from == to
    ||| from is Pending && (to is Disputed || to is Released || to is Refunded)
    ||| from is Disputed && (to is Released || to is Refunded)
}

/// How one record may change in one call: its parties, token, amount and
/// creation time stay; its status only moves forward; a settled record
/// does not change at all.
pub open spec fn record_evolves(before: EscrowRecord, after: EscrowRecord) -> bool {
    &&& after.sender == before.sender
    &&& after.recipient == before.recipient
    &&& after.driver == before.driver
    &&& after.token == before.token
    &&& after.amount == before.amount
    &&& after.created_at == before.created_at
    &&& status_may_follow(before.status, after.status)
    &&& before.status.is_settled() ==> after == before
}

/// How the kept records may change in one call: none disappears, each
/// evolves as `record_evolves` allows, and a new one starts out pending.
pub open spec fn escrows_evolve(pre: EscrowState, post: EscrowState) -> bool {
    &&& forall|id: u64| #[trigger]
        pre.escrows.contains_key(id) ==> post.escrows.contains_key(id) && record_evolves(
            pre.escrows[id],
            post.escrows[id],
        )
    &&& forall|id: u64| #[trigger]
        post.escrows.contains_key(id) && !pre.escrows.contains_key(id) ==> post.escrows[id].status
            is Pending
}

/// Tokens moved into the contract minus tokens moved out of it.
pub open spec fn net_inflow(transfers: Seq<TokenTransfer>) -> int
    decreases transfers.len(),
{
    if transfers.len() == 0 {
        0
    } else {
        let rest = net_inflow(transfers.drop_last());
        match transfers.last() {
            TokenTransfer::Deposit { amount, .. } => rest + amount,
            TokenTransfer::Payout { amount, .. } => rest - amount,
        }
    }
}

/// Every call lets the kept records change only as `escrows_evolve`
/// allows: records are never dropped, their parties, token and amount are
/// fixed, their status only moves forward, and released or refunded
/// escrows never change again.
pub proof fn lemma_escrow_records_only_move_forward(s: EscrowState, call: EscrowCall)
    ensures
        escrows_evolve(s, s.after(call)),
{
    let post = s.after(call);
    assert forall|id: u64| #[trigger] s.escrows.contains_key(id) implies post.escrows.contains_key(id)
        && record_evolves(s.escrows[id], post.escrows[id]) by {
        if id == call.delivery() && s.escrows.contains_key(call.delivery()) {
            let r = s.escrows[id];
            if r.status.is_settled() {
                assert(post.escrows[id] == r);
            }
        }
    }
}

/// Every call keeps the platform fee within its cap of 1000 basis points.
pub proof fn lemma_fee_cap_is_kept(s: EscrowState, call: EscrowCall)
    requires
        s.fee_within_cap(),
    ensures
        s.after(call).fee_within_cap(),
{
}

/// A funded delivery cannot be funded again: once `create_escrow` has
/// succeeded for a delivery, every later attempt for it is refused as a
/// duplicate.
pub proof fn lemma_delivery_funded_once(
    s: EscrowState,
    sender: Address,
    recipient: Address,
    driver: Address,
    delivery_id: u64,
    token: Address,
    amount: i128,
    now: u64,
    call: EscrowCall,
)
    requires
        s.create_escrow(sender, recipient, driver, delivery_id, token, amount, now) is Ok,
    ensures
        ({
            let funded = s.create_escrow(sender, recipient, driver, delivery_id, token, amount, now)->Ok_0.post;
            match call {
                EscrowCall::CreateEscrow { sender, recipient, driver, token, amount, now, .. } =>
                    funded.after(EscrowCall::CreateEscrow {
                        sender,
                        recipient,
                        driver,
                        delivery_id,
                        token,
                        amount,
                        now,
                    }) == funded && funded.create_escrow(sender, recipient, driver, delivery_id, token, amount, now)
                        == Err::<EscrowStep, EscrowRejection>(
                        EscrowRejection::Error(EscrowError::DuplicateDelivery),
                    ),
                _ => true,
            }
        }),
{
}

/// Admin handover takes two steps: after the administrator names a
/// successor, the successor's acceptance makes it the administrator and
/// clears the nomination, and an acceptance by anyone else is refused.
pub proof fn lemma_admin_handover(s: EscrowState, admin: Address, successor: Address, other: Address)
    requires
        s.is_admin(admin),
        other@ != successor@,
    ensures
        s.propose_admin(admin, successor) is Ok,
        ({
            let proposed = s.propose_admin(admin, successor)->Ok_0;
            &&& proposed.admin == s.admin
            &&& proposed.accept_admin(successor) is Ok
            &&& proposed.accept_admin(successor)->Ok_0.post.admin == Some(successor)
            &&& proposed.accept_admin(successor)->Ok_0.post.pending_admin is None
            &&& proposed.accept_admin(successor)->Ok_0.post.escrows == s.escrows
            &&& proposed.accept_admin(successor)->Ok_0.event == EscrowEvent::AdminTransferred {
                old_admin: s.admin->Some_0,
                new_admin: successor,
            }
            &&& proposed.accept_admin(successor)->Ok_0.transfers.len() == 0
            &&& proposed.pending_admin == Some(successor)
            &&& proposed.escrows == s.escrows
            &&& proposed.platform_fee_bps == s.platform_fee_bps
            &&& proposed.accept_admin(other) == Err::<EscrowStep, EscrowRejection>(
                EscrowRejection::CallerNotPendingAdmin,
            )
        }),
{
}


/// Money is conserved per delivery: every successful call moves exactly as
/// many tokens into the contract (deposits minus payouts) as the amount the
/// contract holds for the call's delivery grows by, and leaves the amounts
/// held for other deliveries alone. Funding deposits the escrowed amount; a
/// release pays it out in full, split between driver and platform; a refund
/// returns it in full.
pub proof fn lemma_token_flow_matches_held_amounts(s: EscrowState, call: EscrowCall)
    requires
        s.fee_within_cap(),
        s.escrows.contains_key(call.delivery()) ==> s.escrows[call.delivery()].amount >= 0,
    ensures
        s.outcome(call) matches Ok((post, transfers)) ==> net_inflow(transfers) == post.held(call.delivery())
            - s.held(call.delivery()),
        forall|id: u64| id != call.delivery() ==> #[trigger] s.after(call).held(id) == s.held(id),
{
    reveal_with_fuel(net_inflow, 3);
    let d = call.delivery();
    if s.escrows.contains_key(d) {
        lemma_fee_within_amount(s.escrows[d].amount, s.fee_bps());
    }
    match s.outcome(call) {
        Ok((post, transfers)) => {
            assert(transfers.len() <= 2);
            if transfers.len() == 2 {
                assert(transfers.drop_last().drop_last() =~= Seq::<TokenTransfer>::empty());
            } else if transfers.len() == 1 {
                assert(transfers.drop_last() =~= Seq::<TokenTransfer>::empty());
            }
        },
        Err(_) => {},
    }
}

/// Reads give back what calls stored: after `init` the administrator, the
/// amount and a zero fee are read back; after a fee update the new fee is;
/// after funding, the escrow read back is the pending record of that
/// funding.
pub proof fn lemma_reads_return_what_calls_stored(
    s: EscrowState,
    admin: Address,
    amount: i128,
    new_fee_bps: u32,
    sender: Address,
    recipient: Address,
    driver: Address,
    delivery_id: u64,
    token: Address,
    escrowed: i128,
    now: u64,
)
    ensures
        s.init(admin, amount) matches Ok(post) ==> post.get_admin() == Ok::<Address, EscrowRejection>(admin)
            && post.get_amount() == amount && post.fee_bps() == 0,
        s.update_platform_fee(admin, new_fee_bps) matches Ok(step) ==> step.post.fee_bps() == new_fee_bps,
        s.create_escrow(sender, recipient, driver, delivery_id, token, escrowed, now) matches Ok(step)
            ==> step.post.get_escrow(delivery_id) == Ok::<EscrowRecord, EscrowRejection>(
            EscrowRecord {
                sender,
                recipient,
                driver,
                token,
                amount: escrowed,
                status: EscrowStatus::Pending,
                created_at: now,
                disputed_by: None,
                disputed_at: None,
            },
        ),
{
}

/// A dispute freezes the escrow: while it is disputed no one can release
/// it or dispute it again; only a refund or the administrator's resolution
/// moves it on.
pub proof fn lemma_dispute_freezes_release(
    s: EscrowState,
    caller: Address,
    delivery_id: u64,
    contract_balance: i128,
    now: u64,
)
    requires
        s.escrows.contains_key(delivery_id),
        s.escrows[delivery_id].status == EscrowStatus::Disputed,
    ensures
        s.release_escrow(caller, delivery_id, contract_balance) is Err,
        s.raise_dispute(caller, delivery_id, now) is Err,
{
}

/// A release pays the driver the amount less the basis-point platform fee
/// and the administrator exactly that fee (`amount * fee_bps / 10000`,
/// rounded toward zero), each only when positive, announces that split, and
/// marks the record released without touching anything else.
pub proof fn lemma_release_pays_basis_point_split(
    s: EscrowState,
    caller: Address,
    delivery_id: u64,
    contract_balance: i128,
)
    requires
        s.release_escrow(caller, delivery_id, contract_balance) is Ok,
        0 <= s.escrows[delivery_id].amount,
        s.escrows[delivery_id].amount * s.fee_bps() <= i128::MAX,
    ensures
        ({
            let step = s.release_escrow(caller, delivery_id, contract_balance)->Ok_0;
            let r = s.escrows[delivery_id];
            let admin = s.admin->Some_0;
            let fee = (r.amount * s.fee_bps()) / 10000;
            let to_driver = r.amount - fee;
            &&& 0 <= fee
            &&& step.event == EscrowEvent::EscrowReleased {
                delivery_id,
                driver: r.driver,
                driver_amount: to_driver as i128,
                platform_fee: fee as i128,
            }
            &&& step.transfers == (if to_driver > 0 {
                seq![TokenTransfer::Payout { token: r.token, to: r.driver, amount: to_driver as i128 }]
            } else {
                Seq::<TokenTransfer>::empty()
            }) + (if fee > 0 {
                seq![TokenTransfer::Payout { token: r.token, to: admin, amount: fee as i128 }]
            } else {
                Seq::<TokenTransfer>::empty()
            })
            &&& step.post.escrows[delivery_id] == EscrowRecord { status: EscrowStatus::Released, ..r }
            &&& step.post.escrows.dom() == s.escrows.dom()
            &&& forall|id: u64| id != delivery_id && s.escrows.contains_key(id) ==> #[trigger] step.post.escrows[id] == s.escrows[id]
            &&& step.post.admin == s.admin && step.post.pending_admin == s.pending_admin
            &&& step.post.platform_fee_bps == s.platform_fee_bps && step.post.amount == s.amount
        }),
{
    let r = s.escrows[delivery_id];
    lemma_fee_is_basis_point_share(r.amount, s.fee_bps());
    lemma_fee_within_amount_when_unsaturated(r.amount, s.fee_bps());
    let step = s.release_escrow(caller, delivery_id, contract_balance)->Ok_0;
    assert(step.post.escrows.dom() =~= s.escrows.dom());
}

/// Without overflow, the basis-point fee of a non-negative amount at a fee
/// of at most 100% lies between zero and the amount.
proof fn lemma_fee_within_amount_when_unsaturated(amount: i128, fee_bps: u32)
    requires
        0 <= amount,
        amount * fee_bps <= i128::MAX,
    ensures
        fee_bps <= 10000 ==> 0 <= (amount * fee_bps) / 10000 <= amount,
        0 <= (amount * fee_bps) / 10000,
{
    let p = amount * fee_bps;
    assert(p >= 0 && (fee_bps <= 10000 ==> p <= amount * 10000)) by (nonlinear_arith)
        requires
            amount >= 0,
            fee_bps >= 0,
            p == amount * fee_bps,
    ;
}

/// Settling a dispute in the driver's favour pays out exactly as a release
/// does: the driver gets the amount less the basis-point platform fee and
/// the administrator gets that fee (`amount * fee_bps / 10000`, rounded
/// toward zero), each only when positive; the record becomes released.
pub proof fn lemma_resolution_for_driver_pays_basis_point_split(s: EscrowState, caller: Address, delivery_id: u64)
    requires
        s.resolve_dispute(caller, delivery_id, true) is Ok,
        0 <= s.escrows[delivery_id].amount,
        s.escrows[delivery_id].amount * s.fee_bps() <= i128::MAX,
    ensures
        ({
            let step = s.resolve_dispute(caller, delivery_id, true)->Ok_0;
            let r = s.escrows[delivery_id];
            let fee = (r.amount * s.fee_bps()) / 10000;
            let to_driver = r.amount - fee;
            &&& caller@ == (s.admin->Some_0)@
            &&& r.status == EscrowStatus::Disputed
            &&& step.transfers == (if to_driver > 0 {
                seq![TokenTransfer::Payout { token: r.token, to: r.driver, amount: to_driver as i128 }]
            } else {
                Seq::<TokenTransfer>::empty()
            }) + (if fee > 0 {
                seq![TokenTransfer::Payout { token: r.token, to: s.admin->Some_0, amount: fee as i128 }]
            } else {
                Seq::<TokenTransfer>::empty()
            })
            &&& step.event == EscrowEvent::DisputeResolved { delivery_id, release_to_driver: true, caller }
            &&& step.post.escrows[delivery_id] == EscrowRecord { status: EscrowStatus::Released, ..r }
            &&& forall|id: u64| id != delivery_id && s.escrows.contains_key(id) ==> #[trigger] step.post.escrows[id] == s.escrows[id]
        }),
{
    let r = s.escrows[delivery_id];
    lemma_fee_is_basis_point_share(r.amount, s.fee_bps());
    lemma_fee_within_amount_when_unsaturated(r.amount, s.fee_bps());
}

/// Settling a dispute the other way hands the whole amount back to the
/// sender and marks the record refunded.
pub proof fn lemma_resolution_for_sender_refunds_in_full(s: EscrowState, caller: Address, delivery_id: u64)
    requires
        s.resolve_dispute(caller, delivery_id, false) is Ok,
    ensures
        ({
            let step = s.resolve_dispute(caller, delivery_id, false)->Ok_0;
            let r = s.escrows[delivery_id];
            &&& caller@ == (s.admin->Some_0)@
            &&& r.status == EscrowStatus::Disputed
            &&& step.transfers == seq![TokenTransfer::Payout { token: r.token, to: r.sender, amount: r.amount }]
            &&& step.event == EscrowEvent::DisputeResolved { delivery_id, release_to_driver: false, caller }
            &&& step.post.escrows[delivery_id] == EscrowRecord { status: EscrowStatus::Refunded, ..r }
            &&& forall|id: u64| id != delivery_id && s.escrows.contains_key(id) ==> #[trigger] step.post.escrows[id] == s.escrows[id]
        }),
{
}

/// Release and refund: who may make them, from which status, and what a
/// refund pays. A release succeeds exactly when the record exists, an
/// administrator is stored, the caller is that administrator or the
/// recipient, the escrow is pending and the contract holds at least the
/// amount. A refund succeeds exactly when the record exists, an
/// administrator is stored, the caller is that administrator or the
/// sender, the escrow is pending or disputed and the contract holds at
/// least the amount; it pays the whole amount to the sender.
pub proof fn lemma_release_and_refund_admission(
    s: EscrowState,
    caller: Address,
    delivery_id: u64,
    contract_balance: i128,
)
    ensures
        s.release_escrow(caller, delivery_id, contract_balance) is Ok <==> ({
            &&& s.escrows.contains_key(delivery_id)
            &&& s.admin is Some
            &&& ((s.admin->Some_0)@ == caller@ || s.escrows[delivery_id].recipient@ == caller@)
            &&& s.escrows[delivery_id].status == EscrowStatus::Pending
            &&& contract_balance >= s.escrows[delivery_id].amount
        }),
        s.refund_escrow(caller, delivery_id, contract_balance) is Ok <==> ({
            &&& s.escrows.contains_key(delivery_id)
            &&& s.admin is Some
            &&& ((s.admin->Some_0)@ == caller@ || s.escrows[delivery_id].sender@ == caller@)
            &&& (s.escrows[delivery_id].status == EscrowStatus::Pending || s.escrows[delivery_id].status
                == EscrowStatus::Disputed)
            &&& contract_balance >= s.escrows[delivery_id].amount
        }),
        s.refund_escrow(caller, delivery_id, contract_balance) matches Ok(step) ==> ({
            let r = s.escrows[delivery_id];
            &&& step.transfers == seq![TokenTransfer::Payout { token: r.token, to: r.sender, amount: r.amount }]
            &&& step.event == EscrowEvent::EscrowRefunded { delivery_id, sender: r.sender, amount: r.amount }
            &&& step.post.escrows[delivery_id] == EscrowRecord { status: EscrowStatus::Refunded, ..r }
            &&& forall|id: u64| id != delivery_id && s.escrows.contains_key(id) ==> #[trigger] step.post.escrows[id] == s.escrows[id]
        }),
        !s.escrows.contains_key(delivery_id) ==> s.release_escrow(caller, delivery_id, contract_balance)
            == Err::<EscrowStep, EscrowRejection>(EscrowRejection::Error(EscrowError::DeliveryNotFound)),
        s.escrows.contains_key(delivery_id) && s.admin is Some && ((s.admin->Some_0)@ == caller@
            || s.escrows[delivery_id].recipient@ == caller@) && s.escrows[delivery_id].status
            == EscrowStatus::Pending && contract_balance < s.escrows[delivery_id].amount ==> s.release_escrow(
            caller,
            delivery_id,
            contract_balance,
        ) == Err::<EscrowStep, EscrowRejection>(EscrowRejection::Error(EscrowError::InsufficientFunds)),
{
}

/// A dispute records who raised it and when: it succeeds exactly when the
/// record exists, the caller is its sender or recipient and it is pending;
/// the record then becomes disputed, with `disputed_by` the caller and
/// `disputed_at` the ledger time of the call, everything else unchanged,
/// and no tokens move.
pub proof fn lemma_dispute_records_who_and_when(s: EscrowState, caller: Address, delivery_id: u64, now: u64)
    ensures
        s.raise_dispute(caller, delivery_id, now) is Ok <==> ({
            &&& s.escrows.contains_key(delivery_id)
            &&& (s.escrows[delivery_id].sender@ == caller@ || s.escrows[delivery_id].recipient@ == caller@)
            &&& s.escrows[delivery_id].status == EscrowStatus::Pending
        }),
        s.raise_dispute(caller, delivery_id, now) matches Ok(step) ==> ({
            let before = s.escrows[delivery_id];
            let after = step.post.escrows[delivery_id];
            &&& step.post.escrows.contains_key(delivery_id)
            &&& after.status == EscrowStatus::Disputed
            &&& after.disputed_by == Some(caller)
            &&& after.disputed_at == Some(now)
            &&& after.sender == before.sender
            &&& after.recipient == before.recipient
            &&& after.driver == before.driver
            &&& after.token == before.token
            &&& after.amount == before.amount
            &&& after.created_at == before.created_at
            &&& step.transfers.len() == 0
            &&& step.event == EscrowEvent::DeliveryDisputed { delivery_id, caller, timestamp: now }
            &&& forall|id: u64| id != delivery_id && s.escrows.contains_key(id) ==> #[trigger] step.post.escrows[id] == s.escrows[id]
        }),
{
}

/// The administrator may set any fee from 0 to 1000 basis points, up or
/// down, whatever the current fee: the call succeeds, the new fee is in
/// force and the change is announced with the old and the new fee. A fee
/// above 1000 is refused as an invalid state, and anyone else is refused.
pub proof fn lemma_admin_sets_any_fee_up_to_cap(s: EscrowState, admin: Address, new_fee_bps: u32)
    requires
        s.is_admin(admin),
    ensures
        new_fee_bps <= 1000 ==> s.update_platform_fee(admin, new_fee_bps) is Ok,
        new_fee_bps <= 1000 ==> s.update_platform_fee(admin, new_fee_bps)->Ok_0.post.fee_bps() == new_fee_bps,
        new_fee_bps <= 1000 ==> s.update_platform_fee(admin, new_fee_bps)->Ok_0.post.platform_fee_bps == Some(
            new_fee_bps,
        ),
        new_fee_bps <= 1000 ==> s.update_platform_fee(admin, new_fee_bps)->Ok_0.event == EscrowEvent::FeeUpdated(
            FeeUpdated {
                old_fee: match s.platform_fee_bps {
                    Some(f) => f,
                    None => 0,
                },
                new_fee: new_fee_bps,
            },
        ),
        new_fee_bps <= 1000 ==> s.update_platform_fee(admin, new_fee_bps)->Ok_0.post.escrows == s.escrows,
        new_fee_bps <= 1000 ==> s.update_platform_fee(admin, new_fee_bps)->Ok_0.post.admin == s.admin,
        new_fee_bps > 1000 ==> s.update_platform_fee(admin, new_fee_bps) == Err::<EscrowStep, EscrowRejection>(
            EscrowRejection::Error(EscrowError::InvalidState),
        ),
        forall|other: Address|
            other@ != admin@ ==> #[trigger] s.update_platform_fee(other, new_fee_bps) == Err::<
                EscrowStep,
                EscrowRejection,
            >(EscrowRejection::Unauthorized),
{
}

/// Funding deposits exactly the given amount of the given token from the
/// sender and keeps a pending record of exactly the call's parties, token,
/// amount and time, with no dispute; it is refused only for a delivery
/// that already has a record.
pub proof fn lemma_funding_keeps_the_given_terms(
    s: EscrowState,
    sender: Address,
    recipient: Address,
    driver: Address,
    delivery_id: u64,
    token: Address,
    amount: i128,
    now: u64,
)
    ensures
        s.create_escrow(sender, recipient, driver, delivery_id, token, amount, now) is Ok
            <==> !s.escrows.contains_key(delivery_id),
        s.create_escrow(sender, recipient, driver, delivery_id, token, amount, now) matches Ok(step) ==> ({
            let r = step.post.escrows[delivery_id];
            &&& step.transfers == seq![TokenTransfer::Deposit { token, from: sender, amount }]
            &&& step.event == EscrowEvent::EscrowFunded { delivery_id, sender, recipient, amount }
            &&& step.post.escrows.contains_key(delivery_id)
            &&& r.sender == sender && r.recipient == recipient && r.driver == driver && r.token == token
            &&& r.amount == amount && r.created_at == now && r.status == EscrowStatus::Pending
            &&& r.disputed_by is None && r.disputed_at is None
            &&& forall|id: u64| id != delivery_id && s.escrows.contains_key(id) ==> #[trigger] step.post.escrows[id] == s.escrows[id]
            &&& step.post.admin == s.admin && step.post.platform_fee_bps == s.platform_fee_bps
        }),
{
}

/// What an untouched or freshly initialized contract reads as: before
/// `init` no administrator is stored, the fee and the amount read as zero
/// and no escrow exists; `init` succeeds exactly when no administrator is
/// stored yet.
pub proof fn lemma_defaults_and_initialization(s: EscrowState, admin: Address, amount: i128, delivery_id: u64)
    ensures
        EscrowState::empty().get_admin() == Err::<Address, EscrowRejection>(EscrowRejection::NotInitialized),
        EscrowState::empty().fee_bps() == 0,
        EscrowState::empty().get_amount() == 0,
        EscrowState::empty().get_escrow(delivery_id) == Err::<EscrowRecord, EscrowRejection>(
            EscrowRejection::Error(EscrowError::DeliveryNotFound),
        ),
        s.init(admin, amount) is Ok <==> s.admin is None,
        s.init(admin, amount) matches Ok(post) ==> post.platform_fee_bps == Some(0u32) && post.amount == Some(
            amount,
        ) && post.admin == Some(admin) && post.escrows == s.escrows && post.pending_admin == s.pending_admin,
        s.platform_fee_bps matches Some(f) ==> s.fee_bps() == f,
        s.amount matches Some(a) ==> s.get_amount() == a,
        s.admin matches Some(a) ==> s.get_admin() == Ok::<Address, EscrowRejection>(a),
        s.escrows.contains_key(delivery_id) ==> s.get_escrow(delivery_id) == Ok::<EscrowRecord, EscrowRejection>(
            s.escrows[delivery_id],
        ),
        !s.escrows.contains_key(delivery_id) ==> s.get_escrow(delivery_id) is Err,
{
}

/// Only the stored administrator settles a dispute, and only a disputed
/// escrow: resolution succeeds exactly then, in either direction.
pub proof fn lemma_resolution_admission(s: EscrowState, caller: Address, delivery_id: u64, release_to_driver: bool)
    ensures
        s.resolve_dispute(caller, delivery_id, release_to_driver) is Ok <==> ({
            &&& s.admin is Some
            &&& (s.admin->Some_0)@ == caller@
            &&& s.escrows.contains_key(delivery_id)
            &&& s.escrows[delivery_id].status == EscrowStatus::Disputed
        }),
{
}

} // verus!
