use delivery_escrow::shared_types::events;
use delivery_escrow::shared_types::{
    Address, CargoCategory, CargoDescriptor, DeliveryDetails, DeliveryMetadata, DeliveryStatus, DriverProfile,
    EscrowRecord, EscrowStatus,
};

#[test]
fn test_cargo_descriptor() {
    let desc = CargoDescriptor { weight_grams: 500, category: CargoCategory::Electronics, fragile: true };
    assert_eq!(desc.weight_grams, 500);
    assert_eq!(desc.fragile, true);
    assert_eq!(desc.category, CargoCategory::Electronics);
}

#[test]
fn test_delivery_metadata() {
    let cargo = CargoDescriptor { weight_grams: 1000, category: CargoCategory::General, fragile: false };
    let metadata = DeliveryMetadata {
        delivery_id: 1,
        origin: String::from("Location A"),
        destination: String::from("Location B"),
        cargo_description: cargo,
        created_at: 1000000,
        estimated_delivery: 2000000,
    };
    assert_eq!(metadata.delivery_id, 1);
    assert_eq!(metadata.created_at, 1000000);
    assert_eq!(metadata.cargo_description.weight_grams, 1000);
}

#[test]
fn event_topics_name_the_lifecycle_steps() {
    assert_eq!(events::escrow_funded(), "escrow_funded");
    assert_eq!(events::escrow_released(), "escrow_released");
    assert_eq!(events::escrow_refunded(), "escrow_refunded");
    assert_eq!(events::delivery_disputed(), "delivery_disputed");
    assert_eq!(events::dispute_resolved(), "dispute_resolved");
}

#[test]
fn address_identity_is_its_strkey() {
    let a = Address::from_strkey(String::from("GAAA"));
    let b = Address::from_strkey(String::from("GAAA"));
    let c = Address::from_strkey(String::from("GBBB"));
    assert!(a.same_as(&b));
    assert!(!a.same_as(&c));
    assert_eq!(a.strkey(), "GAAA");
    assert_eq!(a.clone(), a);
}

#[test]
fn records_copy_field_for_field() {
    let record = EscrowRecord {
        sender: Address::from_strkey(String::from("GSENDER")),
        recipient: Address::from_strkey(String::from("GRECIPIENT")),
        driver: Address::from_strkey(String::from("GDRIVER")),
        token: Address::from_strkey(String::from("CTOKEN")),
        amount: 42,
        status: EscrowStatus::Disputed,
        created_at: 7,
        disputed_by: Some(Address::from_strkey(String::from("GSENDER"))),
        disputed_at: Some(9),
    };
    assert_eq!(record.clone(), record);
    let details = DeliveryDetails { id: 3, driver: String::from("driver"), status: DeliveryStatus::InTransit };
    assert_eq!(details.clone(), details);
    let profile = DriverProfile {
        address: Address::from_strkey(String::from("GDRIVER")),
        deliveries_completed: 12,
        reputation_score: 90,
        registered_at: 100,
    };
    assert_eq!(profile.clone().reputation_score, 90);
}
