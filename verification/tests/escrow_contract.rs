use delivery_escrow::escrow_contract::{
    calculate_driver_amount, calculate_fee, EscrowContract, EscrowEffects, EscrowError, EscrowEvent, EscrowRejection,
    FeeUpdated, TokenTransfer,
};
use delivery_escrow::shared_types::{Address, DeliveryStatus, EscrowStatus};
use std::collections::HashMap;

const CONTRACT: &str = "CESCROWCONTRACT";

fn address(name: &str) -> Address {
    Address::from_strkey(String::from(name))
}

/// The escrow contract together with a token ledger and a clock, applying
/// the effects of each call the way the host would.
struct World {
    contract: EscrowContract,
    balances: HashMap<(String, String), i128>,
    now: u64,
    events: Vec<EscrowEvent>,
}

fn setup_env() -> World {
    World { contract: EscrowContract::new(), balances: HashMap::new(), now: 1_700_000_000, events: Vec::new() }
}

fn or_panic<T>(r: Result<T, EscrowRejection>) -> T {
    match r {
        Ok(v) => v,
        Err(e) => panic!("{}", e.message()),
    }
}

impl World {
    fn balance(&self, token: &Address, of: &str) -> i128 {
        *self.balances.get(&(token.strkey().to_string(), of.to_string())).unwrap_or(&0)
    }

    fn mint(&mut self, token: &Address, to: &Address, amount: i128) {
        *self.balances.entry((token.strkey().to_string(), to.strkey().to_string())).or_insert(0) += amount;
    }

    fn move_tokens(&mut self, token: &Address, from: &str, to: &str, amount: i128) {
        assert!(amount >= 0, "negative amount is not allowed");
        let from_balance = self.balance(token, from);
        assert!(from_balance >= amount, "balance is not sufficient to spend");
        self.balances.insert((token.strkey().to_string(), from.to_string()), from_balance - amount);
        *self.balances.entry((token.strkey().to_string(), to.to_string())).or_insert(0) += amount;
    }

    fn apply(&mut self, effects: EscrowEffects) {
        for transfer in effects.transfers.iter() {
            match transfer {
                TokenTransfer::Deposit { token, from, amount } => self.move_tokens(token, from.strkey(), CONTRACT, *amount),
                TokenTransfer::Payout { token, to, amount } => self.move_tokens(token, CONTRACT, to.strkey(), *amount),
            }
        }
        self.events.push(effects.event);
    }

    fn contract_balance_for(&self, delivery_id: u64) -> i128 {
        match self.contract.escrow_entry(delivery_id) {
            Some(record) => self.balance(&record.token, CONTRACT),
            None => 0,
        }
    }

    fn try_create(&mut self, sender: &Address, driver: &Address, delivery_id: u64, token: &Address, amount: i128) -> Result<(), EscrowRejection> {
        let now = self.now;
        let effects = self.contract.create_escrow(
            sender.clone(),
            address("GRECIPIENT"),
            driver.clone(),
            delivery_id,
            token.clone(),
            amount,
            now,
        )?;
        self.apply(effects);
        Ok(())
    }

    fn create(&mut self, sender: &Address, driver: &Address, delivery_id: u64, token: &Address, amount: i128) {
        or_panic(self.try_create(sender, driver, delivery_id, token, amount));
    }

    fn try_release(&mut self, caller: &Address, delivery_id: u64) -> Result<(), EscrowRejection> {
        let balance = self.contract_balance_for(delivery_id);
        let effects = self.contract.release_escrow(caller, delivery_id, balance)?;
        self.apply(effects);
        Ok(())
    }

    fn release(&mut self, caller: &Address, delivery_id: u64) {
        or_panic(self.try_release(caller, delivery_id));
    }

    fn try_refund(&mut self, caller: &Address, delivery_id: u64) -> Result<(), EscrowRejection> {
        let balance = self.contract_balance_for(delivery_id);
        let effects = self.contract.refund_escrow(caller, delivery_id, balance)?;
        self.apply(effects);
        Ok(())
    }

    fn refund(&mut self, caller: &Address, delivery_id: u64) {
        or_panic(self.try_refund(caller, delivery_id));
    }

    fn raise_dispute(&mut self, caller: &Address, delivery_id: u64) {
        let now = self.now;
        let effects = or_panic(self.contract.raise_dispute(caller, delivery_id, now));
        self.apply(effects);
    }

    fn resolve_dispute(&mut self, caller: &Address, delivery_id: u64, release_to_driver: bool) {
        let effects = or_panic(self.contract.resolve_dispute(caller, delivery_id, release_to_driver));
        self.apply(effects);
    }

    fn status(&self, delivery_id: u64) -> EscrowStatus {
        or_panic(self.contract.get_escrow(delivery_id)).status
    }

    fn last_event_topic_count(&self) -> usize {
        let event = self.events.last().unwrap();
        1 + if event.topic_delivery().is_some() { 1 } else { 0 }
    }
}

fn setup_token(name: &str) -> Address {
    address(name)
}

#[test]
fn test_init_and_get_status() {
    let mut world = setup_env();
    let admin = address("GADMIN");
    or_panic(world.contract.init(admin, 1000));
    let status = EscrowContract::get_status();
    assert_eq!(status, DeliveryStatus::Created);
    assert_eq!(world.contract.get_platform_fee(), 0);
}

#[test]
fn test_update_platform_fee_success() {
    let mut world = setup_env();
    let admin = address("GADMIN");
    or_panic(world.contract.init(admin.clone(), 1000));

    let effects = or_panic(world.contract.update_platform_fee(&admin, 500));
    assert!(effects.transfers.is_empty());
    world.apply(effects);

    let last_event = world.events.last().unwrap();
    assert_eq!(world.last_event_topic_count(), 1);
    assert_eq!(last_event.topic_name(), "FeeUpdated");
    assert_eq!(*last_event, EscrowEvent::FeeUpdated(FeeUpdated { old_fee: 0, new_fee: 500 }));
    assert_eq!(world.contract.get_platform_fee(), 500);
}

#[test]
#[should_panic(expected = "Unauthorized")]
fn test_update_platform_fee_unauthorized() {
    let mut world = setup_env();
    let admin = address("GADMIN");
    let malicious_user = address("GMALICIOUS");
    or_panic(world.contract.init(admin, 1000));
    or_panic(world.contract.update_platform_fee(&malicious_user, 500));
}

#[test]
fn test_update_platform_fee_invalid_value() {
    let mut world = setup_env();
    let admin = address("GADMIN");
    or_panic(world.contract.init(admin.clone(), 1000));

    let result = world.contract.update_platform_fee(&admin, 1100);
    match result {
        Err(err) => assert_eq!(err, EscrowRejection::Error(EscrowError::InvalidState)),
        _ => panic!("Expected EscrowError::InvalidState, got {:?}", result.map(|fx| fx.event)),
    }
    assert_eq!(world.contract.get_platform_fee(), 0);
}

#[test]
fn test_propose_and_accept_admin() {
    let mut world = setup_env();
    let admin = address("GADMIN");
    let new_admin = address("GNEWADMIN");
    or_panic(world.contract.init(admin.clone(), 1000));
    assert_eq!(world.contract.get_admin(), Ok(admin.clone()));

    or_panic(world.contract.propose_admin(&admin, new_admin.clone()));
    let effects = or_panic(world.contract.accept_admin(new_admin.clone()));
    world.apply(effects);

    assert_eq!(world.contract.get_admin(), Ok(new_admin));
}

#[test]
#[should_panic]
fn test_accept_admin_rejected_for_non_pending() {
    let mut world = setup_env();
    let admin = address("GADMIN");
    let proposed = address("GPROPOSED");
    let other = address("GOTHER");
    or_panic(world.contract.init(admin.clone(), 1000));
    or_panic(world.contract.propose_admin(&admin, proposed));
    or_panic(world.contract.accept_admin(other));
}

#[test]
fn test_admin_cleared_after_transfer() {
    let mut world = setup_env();
    let admin = address("GADMIN");
    let new_admin = address("GNEWADMIN");
    or_panic(world.contract.init(admin.clone(), 1000));
    or_panic(world.contract.propose_admin(&admin, new_admin.clone()));
    or_panic(world.contract.accept_admin(new_admin.clone()));

    assert_ne!(world.contract.get_admin(), Ok(admin));
    assert_eq!(world.contract.get_admin(), Ok(new_admin));
    assert_eq!(world.contract.pending_admin_entry(), None);
}

#[test]
fn test_admin_transfer_emits_event() {
    let mut world = setup_env();
    let admin = address("GADMIN");
    let new_admin = address("GNEWADMIN");
    or_panic(world.contract.init(admin.clone(), 1000));
    or_panic(world.contract.propose_admin(&admin, new_admin.clone()));
    let effects = or_panic(world.contract.accept_admin(new_admin.clone()));
    world.apply(effects);

    assert!(!world.events.is_empty());
    assert_eq!(world.events[0], EscrowEvent::AdminTransferred { old_admin: admin, new_admin });
    assert_eq!(world.events[0].topic_name(), "AdminTransferred");
}

#[test]
fn test_init_persists_escrow_amount_with_ttl() {
    let mut world = setup_env();
    let sender = address("GSENDER");
    or_panic(world.contract.init(sender, 5000));
    assert_eq!(world.contract.get_amount(), 5000);
}

#[test]
fn test_propose_admin_extends_instance_ttl() {
    let mut world = setup_env();
    let admin = address("GADMIN");
    let new_admin = address("GNEWADMIN");
    or_panic(world.contract.init(admin.clone(), 1000));
    or_panic(world.contract.propose_admin(&admin, new_admin.clone()));
    assert_eq!(world.contract.get_admin(), Ok(admin));
    assert_eq!(world.contract.pending_admin_entry(), Some(new_admin));
}

#[test]
fn test_accept_admin_extends_instance_ttl() {
    let mut world = setup_env();
    let admin = address("GADMIN");
    let new_admin = address("GNEWADMIN");
    or_panic(world.contract.init(admin.clone(), 1000));
    or_panic(world.contract.propose_admin(&admin, new_admin.clone()));
    or_panic(world.contract.accept_admin(new_admin.clone()));
    assert_eq!(world.contract.get_admin(), Ok(new_admin));
}

#[test]
fn test_happy_path_create_and_release() {
    let mut world = setup_env();
    let admin = address("GADMIN");
    let sender = address("GSENDER");
    let driver = address("GDRIVER");
    let token_addr = setup_token("CTOKEN");

    or_panic(world.contract.init(admin.clone(), 0));
    world.mint(&token_addr, &sender, 1000);

    world.create(&sender, &driver, 1u64, &token_addr, 1000);

    assert_eq!(world.balance(&token_addr, sender.strkey()), 0);
    assert_eq!(world.balance(&token_addr, CONTRACT), 1000);

    assert_eq!(world.status(1u64), EscrowStatus::Pending);

    world.release(&admin, 1u64);

    assert_eq!(world.balance(&token_addr, driver.strkey()), 1000);
    assert_eq!(world.balance(&token_addr, CONTRACT), 0);
    assert_eq!(world.status(1u64), EscrowStatus::Released);
}

#[test]
fn test_refund_path_restores_sender_balance() {
    let mut world = setup_env();
    let admin = address("GADMIN");
    let sender = address("GSENDER");
    let driver = address("GDRIVER");
    let token_addr = setup_token("CTOKEN");

    or_panic(world.contract.init(admin.clone(), 0));
    world.mint(&token_addr, &sender, 500);

    world.create(&sender, &driver, 2u64, &token_addr, 500);
    assert_eq!(world.balance(&token_addr, sender.strkey()), 0);

    world.refund(&admin, 2u64);

    assert_eq!(world.balance(&token_addr, sender.strkey()), 500);
    assert_eq!(world.balance(&token_addr, CONTRACT), 0);
    assert_eq!(world.status(2u64), EscrowStatus::Refunded);
}

#[test]
fn test_dispute_resolved_to_driver() {
    let mut world = setup_env();
    let admin = address("GADMIN");
    let sender = address("GSENDER");
    let driver = address("GDRIVER");
    let token_addr = setup_token("CTOKEN");

    or_panic(world.contract.init(admin.clone(), 0));
    world.mint(&token_addr, &sender, 750);

    world.create(&sender, &driver, 3u64, &token_addr, 750);
    world.raise_dispute(&sender, 3u64);

    assert_eq!(world.status(3u64), EscrowStatus::Disputed);

    world.resolve_dispute(&admin, 3u64, true);

    assert_eq!(world.balance(&token_addr, driver.strkey()), 750);
    assert_eq!(world.balance(&token_addr, sender.strkey()), 0);
    assert_eq!(world.status(3u64), EscrowStatus::Released);
}

#[test]
fn test_dispute_resolved_to_sender() {
    let mut world = setup_env();
    let admin = address("GADMIN");
    let sender = address("GSENDER");
    let driver = address("GDRIVER");
    let token_addr = setup_token("CTOKEN");

    or_panic(world.contract.init(admin.clone(), 0));
    world.mint(&token_addr, &sender, 300);

    world.create(&sender, &driver, 4u64, &token_addr, 300);
    world.raise_dispute(&sender, 4u64);
    world.resolve_dispute(&admin, 4u64, false);

    assert_eq!(world.balance(&token_addr, sender.strkey()), 300);
    assert_eq!(world.balance(&token_addr, driver.strkey()), 0);
    assert_eq!(world.status(4u64), EscrowStatus::Refunded);
}

fn funded_world(amount: i128, delivery_id: u64) -> (World, Address, Address, Address, Address) {
    let mut world = setup_env();
    let admin = address("GADMIN");
    let sender = address("GSENDER");
    let driver = address("GDRIVER");
    let token_addr = setup_token("CTOKEN");
    or_panic(world.contract.init(admin.clone(), 0));
    world.mint(&token_addr, &sender, amount);
    world.create(&sender, &driver, delivery_id, &token_addr, amount);
    (world, admin, sender, driver, token_addr)
}

#[test]
#[should_panic]
fn test_release_by_non_admin_rejected() {
    let (mut world, _, _, _, _) = funded_world(200, 5);
    let attacker = address("GATTACKER");
    world.release(&attacker, 5u64);
}

#[test]
#[should_panic]
fn test_refund_by_non_admin_rejected() {
    let (mut world, _, _, _, _) = funded_world(200, 6);
    let attacker = address("GATTACKER");
    world.refund(&attacker, 6u64);
}

#[test]
#[should_panic]
fn test_raise_dispute_by_non_sender_rejected() {
    let (mut world, _, _, _, _) = funded_world(200, 7);
    let attacker = address("GATTACKER");
    world.raise_dispute(&attacker, 7u64);
}

#[test]
#[should_panic]
fn test_resolve_dispute_by_non_admin_rejected() {
    let (mut world, _, sender, _, _) = funded_world(200, 8);
    let attacker = address("GATTACKER");
    world.raise_dispute(&sender, 8u64);
    world.resolve_dispute(&attacker, 8u64, true);
}

#[test]
#[should_panic]
fn test_duplicate_delivery_id_rejected() {
    let mut world = setup_env();
    let admin = address("GADMIN");
    let sender = address("GSENDER");
    let driver = address("GDRIVER");
    let token_addr = setup_token("CTOKEN");
    or_panic(world.contract.init(admin, 0));
    world.mint(&token_addr, &sender, 2000);
    world.create(&sender, &driver, 9u64, &token_addr, 1000);

    world.create(&sender, &driver, 9u64, &token_addr, 1000);
}

#[test]
#[should_panic]
fn test_release_on_already_released_rejected() {
    let (mut world, admin, _, _, _) = funded_world(400, 10);
    world.release(&admin, 10u64);

    world.release(&admin, 10u64);
}

#[test]
#[should_panic]
fn test_refund_on_released_escrow_rejected() {
    let (mut world, admin, _, _, _) = funded_world(400, 11);
    world.release(&admin, 11u64);

    world.refund(&admin, 11u64);
}

#[test]
fn test_release_escrow_passes_when_balance_sufficient() {
    let (mut world, admin, _, driver, token_addr) = funded_world(1000, 50);
    world.release(&admin, 50u64);
    assert_eq!(world.balance(&token_addr, driver.strkey()), 1000);
    assert_eq!(world.status(50u64), EscrowStatus::Released);
}

fn inflate_amount(world: &mut World, delivery_id: u64, amount: i128) {
    let mut record = world.contract.escrow_entry(delivery_id).unwrap();
    record.amount = amount;
    world.contract.put_escrow(delivery_id, record);
}

#[test]
fn test_release_escrow_insufficient_funds_rejected() {
    let (mut world, admin, _, _, _) = funded_world(1000, 51);
    inflate_amount(&mut world, 51u64, 2000);

    let result = world.try_release(&admin, 51u64);
    match result {
        Err(err) => assert_eq!(err, EscrowRejection::Error(EscrowError::InsufficientFunds)),
        _ => panic!("Expected EscrowError::InsufficientFunds, got {:?}", result),
    }
}

#[test]
fn test_refund_escrow_insufficient_funds_rejected() {
    let (mut world, admin, _, _, _) = funded_world(1000, 52);
    inflate_amount(&mut world, 52u64, 2000);

    let result = world.try_refund(&admin, 52u64);
    match result {
        Err(err) => assert_eq!(err, EscrowRejection::Error(EscrowError::InsufficientFunds)),
        _ => panic!("Expected EscrowError::InsufficientFunds, got {:?}", result),
    }
}

#[test]
fn test_create_escrow_emits_escrow_funded_event() {
    let (world, _, _, _, _) = funded_world(1000, 100);
    assert_eq!(world.last_event_topic_count(), 2);
    assert!(!world.events.is_empty());
    assert_eq!(world.events.last().unwrap().topic_name(), "escrow_funded");
}

#[test]
fn test_release_escrow_emits_escrow_released_event() {
    let (mut world, admin, _, _, _) = funded_world(1000, 101);
    world.release(&admin, 101u64);
    assert_eq!(world.last_event_topic_count(), 2);
    assert_eq!(world.events.last().unwrap().topic_name(), "escrow_released");
}

#[test]
fn test_refund_escrow_emits_escrow_refunded_event() {
    let (mut world, admin, _, _, _) = funded_world(500, 102);
    world.refund(&admin, 102u64);
    assert_eq!(world.last_event_topic_count(), 2);
    assert_eq!(world.events.last().unwrap().topic_name(), "escrow_refunded");
}

#[test]
fn test_raise_dispute_emits_delivery_disputed_event() {
    let (mut world, _, sender, _, _) = funded_world(750, 103);
    world.raise_dispute(&sender, 103u64);
    assert_eq!(world.last_event_topic_count(), 2);
    assert_eq!(world.events.last().unwrap().topic_name(), "delivery_disputed");
}

#[test]
fn test_resolve_dispute_to_driver_emits_dispute_resolved_event() {
    let (mut world, admin, sender, _, _) = funded_world(750, 104);
    world.raise_dispute(&sender, 104u64);
    world.resolve_dispute(&admin, 104u64, true);
    assert_eq!(world.last_event_topic_count(), 2);
    assert_eq!(world.events.last().unwrap().topic_name(), "dispute_resolved");
}

#[test]
fn test_resolve_dispute_to_sender_emits_dispute_resolved_event() {
    let (mut world, admin, sender, _, _) = funded_world(300, 105);
    world.raise_dispute(&sender, 105u64);
    world.resolve_dispute(&admin, 105u64, false);
    assert_eq!(world.last_event_topic_count(), 2);
    assert_eq!(world.events.last().unwrap().topic_name(), "dispute_resolved");
}

#[test]
fn test_lifecycle_events_emitted() {
    let (mut world, admin, sender, _, _) = funded_world(600, 12);
    world.raise_dispute(&sender, 12u64);
    world.resolve_dispute(&admin, 12u64, true);
    assert!(!world.events.is_empty());
    assert_eq!(world.events.len(), 3);
}

#[test]
fn test_get_escrow_not_found() {
    let world = setup_env();
    let result = world.contract.get_escrow(999u64);
    match result {
        Err(err) => assert_eq!(err, EscrowRejection::Error(EscrowError::DeliveryNotFound)),
        _ => panic!("Expected DeliveryNotFound error"),
    }
}

#[test]
fn fee_is_taken_in_basis_points_rounding_toward_zero() {
    assert_eq!(calculate_fee(1000, 500), 50);
    assert_eq!(calculate_fee(12345, 1000), 1234);
    assert_eq!(calculate_fee(999, 1), 0);
    assert_eq!(calculate_fee(-1005, 100), -10);
    assert_eq!(calculate_fee(1000, 0), 0);
}

#[test]
fn fee_product_saturates() {
    assert_eq!(calculate_fee(i128::MAX, 1000), i128::MAX / 10000);
    assert_eq!(calculate_fee(i128::MIN, 1000), i128::MIN / 10000);
}

#[test]
fn driver_share_is_what_the_fee_leaves() {
    assert_eq!(calculate_driver_amount(1000, 50), 950);
    assert_eq!(calculate_driver_amount(12345, 1234), 11111);
    assert_eq!(calculate_driver_amount(i128::MIN, 1), i128::MIN);
    assert_eq!(calculate_driver_amount(i128::MAX, -1), i128::MAX);
    for (amount, bps) in [(0i128, 1000u32), (1, 1000), (12345, 1000), (i128::MAX, 1000), (-77, 300)] {
        let fee = calculate_fee(amount, bps);
        assert_eq!(calculate_driver_amount(amount, fee) + fee, amount);
    }
}

#[test]
fn release_splits_payment_between_driver_and_platform() {
    let (mut world, admin, _, driver, token) = funded_world(12345, 20);
    let effects = or_panic(world.contract.update_platform_fee(&admin, 1000));
    world.apply(effects);
    let recipient = address("GRECIPIENT");
    world.release(&recipient, 20);
    assert_eq!(world.balance(&token, driver.strkey()), 11111);
    assert_eq!(world.balance(&token, admin.strkey()), 1234);
    assert_eq!(world.balance(&token, CONTRACT), 0);
    assert_eq!(
        *world.events.last().unwrap(),
        EscrowEvent::EscrowReleased { delivery_id: 20, driver, driver_amount: 11111, platform_fee: 1234 }
    );
}

#[test]
fn release_of_a_zero_escrow_moves_nothing() {
    let (mut world, admin, _, _, _) = funded_world(0, 21);
    let effects = or_panic(world.contract.release_escrow(&admin, 21, 0));
    assert!(effects.transfers.is_empty());
}

#[test]
fn sender_may_refund_and_recipient_may_dispute() {
    let (mut world, _, sender, _, token) = funded_world(800, 22);
    let recipient = address("GRECIPIENT");
    world.raise_dispute(&recipient, 22);
    let record = or_panic(world.contract.get_escrow(22));
    assert_eq!(record.status, EscrowStatus::Disputed);
    assert_eq!(record.disputed_by, Some(recipient.clone()));
    assert_eq!(record.disputed_at, Some(world.now));
    assert_eq!(world.contract.raise_dispute(&recipient, 22, 5).err(), Some(EscrowRejection::Error(EscrowError::InvalidState)));
    world.refund(&sender, 22);
    assert_eq!(world.balance(&token, sender.strkey()), 800);
    assert_eq!(world.status(22), EscrowStatus::Refunded);
}

#[test]
fn only_disputed_escrows_are_resolved() {
    let (mut world, admin, _, _, _) = funded_world(100, 23);
    assert_eq!(
        world.contract.resolve_dispute(&admin, 23, true).err(),
        Some(EscrowRejection::Error(EscrowError::InvalidState))
    );
    assert_eq!(
        world.contract.resolve_dispute(&admin, 24, true).err(),
        Some(EscrowRejection::Error(EscrowError::DeliveryNotFound))
    );
    assert_eq!(world.contract.resolve_dispute(&address("GSENDER"), 23, true).err(), Some(EscrowRejection::Unauthorized));
}

#[test]
fn refused_calls_leave_storage_alone() {
    let (mut world, _, _, _, _) = funded_world(300, 25);
    let before = world.contract.escrow_entry(25);
    assert_eq!(world.try_release(&address("GATTACKER"), 25), Err(EscrowRejection::Unauthorized));
    assert_eq!(world.try_refund(&address("GATTACKER"), 25), Err(EscrowRejection::Unauthorized));
    assert_eq!(world.contract.escrow_entry(25), before);
    assert_eq!(world.contract.get_platform_fee(), 0);
}

#[test]
fn uninitialized_contract_refuses_administration() {
    let mut contract = EscrowContract::new();
    let someone = address("GSOMEONE");
    assert_eq!(contract.get_admin(), Err(EscrowRejection::NotInitialized));
    assert_eq!(contract.get_amount(), 0);
    assert_eq!(contract.get_platform_fee(), 0);
    assert_eq!(contract.update_platform_fee(&someone, 10).err(), Some(EscrowRejection::NotInitialized));
    assert_eq!(contract.propose_admin(&someone, someone.clone()), Err(EscrowRejection::NotInitialized));
    assert_eq!(contract.accept_admin(someone.clone()).err(), Some(EscrowRejection::NoPendingAdmin));
    // An escrow can be funded before any administrator exists, but not paid out.
    let fx = contract
        .create_escrow(someone.clone(), someone.clone(), someone.clone(), 1, address("CTOKEN"), 10, 0)
        .unwrap();
    assert_eq!(fx.transfers, vec![TokenTransfer::Deposit { token: address("CTOKEN"), from: someone.clone(), amount: 10 }]);
    assert_eq!(contract.release_escrow(&someone, 1, 10).err(), Some(EscrowRejection::NotInitialized));
    assert_eq!(contract.release_escrow(&someone, 2, 10).err(), Some(EscrowRejection::Error(EscrowError::DeliveryNotFound)));
}

#[test]
fn administration_is_checked() {
    let mut world = setup_env();
    let admin = address("GADMIN");
    let other = address("GOTHER");
    or_panic(world.contract.init(admin.clone(), 1));
    assert_eq!(world.contract.init(other.clone(), 2), Err(EscrowRejection::AlreadyInitialized));
    assert_eq!(world.contract.get_amount(), 1);
    assert_eq!(world.contract.propose_admin(&other, other.clone()), Err(EscrowRejection::CallerNotAdmin));
    assert_eq!(world.contract.accept_admin(other.clone()).err(), Some(EscrowRejection::NoPendingAdmin));
    assert_eq!(world.contract.update_platform_fee(&admin, 1000).map(|fx| fx.event), Ok(EscrowEvent::FeeUpdated(FeeUpdated { old_fee: 0, new_fee: 1000 })));
    assert_eq!(world.contract.update_platform_fee(&admin, 1001).err(), Some(EscrowRejection::Error(EscrowError::InvalidState)));
    assert_eq!(world.contract.get_platform_fee(), 1000);
}

#[test]
fn error_codes_and_texts() {
    assert_eq!(EscrowError::InvalidState.code(), 1);
    assert_eq!(EscrowError::DeliveryNotFound.code(), 2);
    assert_eq!(EscrowError::InsufficientFunds.code(), 3);
    assert_eq!(EscrowError::DuplicateDelivery.code(), 4);
    assert_eq!(EscrowRejection::Unauthorized.message(), "Unauthorized");
    assert_eq!(EscrowRejection::NotInitialized.message(), "Not initialized");
    assert_eq!(EscrowRejection::CallerNotAdmin.message(), "caller is not the admin");
    assert_eq!(EscrowRejection::CallerNotPendingAdmin.message(), "caller is not the pending admin");
    assert_eq!(EscrowRejection::Error(EscrowError::DuplicateDelivery).message(), "DuplicateDelivery");
}

#[test]
fn duplicate_funding_is_refused_with_its_code() {
    let (mut world, _, sender, driver, token) = funded_world(10, 26);
    world.mint(&token, &sender, 10);
    assert_eq!(
        world.try_create(&sender, &driver, 26, &token, 10),
        Err(EscrowRejection::Error(EscrowError::DuplicateDelivery))
    );
    assert_eq!(world.balance(&token, CONTRACT), 10);
}
