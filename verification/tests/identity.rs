use std::str::FromStr;
use vehicle_booking::authentication::identity::{identity_for_api_key, Role};
use vehicle_booking::error::{ErrorKind, ParseError};

#[test]
fn test_strum_role_parsing() {
    let admin_from_str = Role::from_str("Admin").expect("Failed to parse Admin");
    assert_eq!(admin_from_str, Role::Admin);

    let car_manager_from_str = Role::from_str("CarManager").expect("Failed to parse CarManager");
    assert_eq!(car_manager_from_str, Role::CarManager);

    assert_eq!(Role::Admin.to_string(), "Admin");
    assert_eq!(Role::CarManager.to_string(), "CarManager");

    let invalid_role = Role::from_str("InvalidRole");
    assert!(invalid_role.is_err());
}

#[test]
fn every_role_reads_back_from_its_text() {
    for role in [Role::Admin, Role::CarManager, Role::MotorbikeManager, Role::Customer] {
        assert_eq!(Role::parse(&role.to_string()), Ok(role));
    }
    assert_eq!(Role::parse("admin"), Err(ParseError::VariantNotFound));
    assert_eq!(Role::parse(""), Err(ParseError::VariantNotFound));
    assert_eq!(Role::parse("Customer1"), Err(ParseError::VariantNotFound));
    assert_eq!(ParseError::VariantNotFound.to_string(), "Matching variant not found");
}

#[test]
fn api_keys_map_to_roles_and_users() {
    let admin = identity_for_api_key(Some("Admin")).unwrap();
    assert_eq!(admin.role, Role::Admin);
    assert_eq!(admin.user_id, "Admin");

    let cars = identity_for_api_key(Some("CarManager")).unwrap();
    assert_eq!(cars.role, Role::CarManager);
    assert_eq!(cars.user_id, "CarManager");

    let bikes = identity_for_api_key(Some("MotorbikeManager")).unwrap();
    assert_eq!(bikes.role, Role::MotorbikeManager);
    assert_eq!(bikes.user_id, "MotorbikeManager");

    let first = identity_for_api_key(Some("Customer1")).unwrap();
    assert_eq!(first.role, Role::Customer);
    assert_eq!(first.user_id, "customer_user_1");

    let second = identity_for_api_key(Some("Customer2")).unwrap();
    assert_eq!(second.role, Role::Customer);
    assert_eq!(second.user_id, "customer_user_2");
}

#[test]
fn unknown_or_missing_api_key_is_unauthorized() {
    let unknown = identity_for_api_key(Some("Customer3")).unwrap_err();
    assert_eq!(unknown.kind(), ErrorKind::Unauthorized);
    assert_eq!(unknown.message(), "Invalid API key");
    assert_eq!(unknown.status_code(), 401);

    let missing = identity_for_api_key(None).unwrap_err();
    assert_eq!(missing.kind(), ErrorKind::Unauthorized);
    assert_eq!(missing.message(), "Missing X-API-Key header");
}
