use std::str::FromStr;
use vehicle_booking::authentication::identity::{Identity, Role};
use vehicle_booking::error::{AppError, ErrorKind, ParseError};
use vehicle_booking::models::{
    Brand, CarMetadata, CarModel, CreateVehicleRequest, FuelType, Gearbox, MotorbikeMetadata,
    MotorbikeModel, ObjectId, UpdateVehicleRequest, Vehicle, VehicleMetadata, VehicleType,
};
use vehicle_booking::validator::vehicle::{
    check_vehicle_type_permission, validate_brand_model, validate_metadata, validate_update_vehicle,
};

fn who(role: Role) -> Identity {
    Identity { role, user_id: "someone".to_string() }
}

fn car(brand: Brand, model: CarModel, fuel_type: FuelType) -> VehicleMetadata {
    VehicleMetadata::Car(CarMetadata {
        brand,
        model,
        seats: 5,
        fuel_type,
        gearbox: Gearbox::AUTOMATIC,
        engine_cc: 0,
    })
}

fn bike(brand: Brand) -> VehicleMetadata {
    VehicleMetadata::Motorbike(MotorbikeMetadata {
        brand,
        model: MotorbikeModel::CRUISER,
        engine_cc: 900,
        has_sidecar: false,
    })
}

fn vehicle(metadata: VehicleMetadata) -> Vehicle {
    Vehicle {
        id: Some(ObjectId::new(1, 2)),
        brand: Brand::TESLA,
        metadata,
        description: Some("fast".to_string()),
        price_by_day: 12_000,
        year_of_production: 2022,
        added_at: 1_700_000_000_000,
        added_by: "Admin".to_string(),
    }
}

const TESLA_MODELS: [CarModel; 6] = [
    CarModel::MODEL_S,
    CarModel::MODEL_3,
    CarModel::MODEL_X,
    CarModel::MODEL_Y,
    CarModel::CYBERTRUCK,
    CarModel::ROADSTER,
];

const MERCEDES_MODELS: [CarModel; 8] = [
    CarModel::A_CLASS,
    CarModel::C_CLASS,
    CarModel::E_CLASS,
    CarModel::S_CLASS,
    CarModel::G_CLASS,
    CarModel::GLC,
    CarModel::GLE,
    CarModel::AMG_GT,
];

const BIKE_BRANDS: [Brand; 6] = [
    Brand::HONDA,
    Brand::YAMAHA,
    Brand::KAWASAKI,
    Brand::DUCATI,
    Brand::BMW,
    Brand::HARLEY_DAVIDSON,
];

#[test]
fn tesla_model_3_with_diesel_breaks_the_fuel_rule() {
    let metadata = car(Brand::TESLA, CarModel::MODEL_3, FuelType::DIESEL);
    assert_eq!(validate_brand_model(&Brand::TESLA, &metadata), Ok(()));
    assert_eq!(
        validate_metadata(&who(Role::Admin), &metadata),
        Err("Tesla vehicles must have Electric fuel type.".to_string())
    );
}

#[test]
fn tesla_with_motorbike_metadata_is_a_category_mismatch() {
    assert_eq!(
        validate_brand_model(&Brand::TESLA, &bike(Brand::TESLA)),
        Err("TESLA is a car brand and cannot be used with motorbike metadata.".to_string())
    );
    assert_eq!(
        validate_brand_model(&Brand::MERCEDES, &bike(Brand::HONDA)),
        Err("MERCEDES is a car brand and cannot be used with motorbike metadata.".to_string())
    );
}

#[test]
fn tesla_model_3_with_electric_is_accepted() {
    let metadata = car(Brand::TESLA, CarModel::MODEL_3, FuelType::ELECTRIC);
    assert_eq!(validate_brand_model(&Brand::TESLA, &metadata), Ok(()));
    assert_eq!(validate_metadata(&who(Role::Admin), &metadata), Ok(()));
}

#[test]
fn each_car_model_belongs_to_one_brand() {
    for model in TESLA_MODELS {
        assert_eq!(model.brand(), Brand::TESLA);
        assert!(model.is_electric_only());
        let metadata = car(Brand::TESLA, model, FuelType::ELECTRIC);
        assert_eq!(validate_brand_model(&Brand::TESLA, &metadata), Ok(()));
        assert_eq!(
            validate_brand_model(&Brand::MERCEDES, &metadata),
            Err("Invalid model for Mercedes brand.".to_string())
        );
        for fuel in [FuelType::PETROL, FuelType::DIESEL] {
            assert_eq!(
                validate_metadata(&who(Role::Admin), &car(Brand::TESLA, model, fuel)),
                Err("Tesla vehicles must have Electric fuel type.".to_string())
            );
        }
    }
    for model in MERCEDES_MODELS {
        assert_eq!(model.brand(), Brand::MERCEDES);
        assert!(!model.is_electric_only());
        for fuel in [FuelType::PETROL, FuelType::DIESEL, FuelType::ELECTRIC] {
            let metadata = car(Brand::MERCEDES, model, fuel);
            assert_eq!(validate_brand_model(&Brand::MERCEDES, &metadata), Ok(()));
            assert_eq!(validate_metadata(&who(Role::Admin), &metadata), Ok(()));
            assert_eq!(
                validate_brand_model(&Brand::TESLA, &metadata),
                Err("Invalid model for Tesla brand.".to_string())
            );
        }
    }
}

#[test]
fn motorbike_brands_go_with_motorbikes_only() {
    for brand in BIKE_BRANDS {
        assert!(!brand.is_car_brand());
        assert_eq!(validate_brand_model(&brand, &bike(brand)), Ok(()));
        assert_eq!(
            validate_brand_model(&brand, &car(brand, CarModel::GLC, FuelType::PETROL)),
            Err(format!(
                "{} is a motorbike brand and cannot be used with car metadata.",
                brand.to_string()
            ))
        );
        assert_eq!(validate_metadata(&who(Role::Admin), &bike(brand)), Ok(()));
    }
    assert_eq!(
        validate_brand_model(
            &Brand::HARLEY_DAVIDSON,
            &car(Brand::TESLA, CarModel::MODEL_S, FuelType::ELECTRIC)
        ),
        Err("HARLEY_DAVIDSON is a motorbike brand and cannot be used with car metadata."
            .to_string())
    );
    assert!(Brand::TESLA.is_car_brand());
    assert!(Brand::MERCEDES.is_car_brand());
}

fn refused(r: Result<(), AppError>, kind: ErrorKind, message: &str) {
    let e = r.unwrap_err();
    assert_eq!(e.kind(), kind);
    assert_eq!(e.message(), message);
}

#[test]
fn managers_manage_their_own_category() {
    let a_car = vehicle(car(Brand::TESLA, CarModel::MODEL_S, FuelType::ELECTRIC));
    let a_bike = vehicle(bike(Brand::HONDA));
    assert!(check_vehicle_type_permission(&who(Role::Admin), &a_car).is_ok());
    assert!(check_vehicle_type_permission(&who(Role::Admin), &a_bike).is_ok());
    assert!(check_vehicle_type_permission(&who(Role::CarManager), &a_car).is_ok());
    assert!(check_vehicle_type_permission(&who(Role::MotorbikeManager), &a_bike).is_ok());
    refused(
        check_vehicle_type_permission(&who(Role::CarManager), &a_bike),
        ErrorKind::Forbidden,
        "CarManager can only manage cars.",
    );
    refused(
        check_vehicle_type_permission(&who(Role::MotorbikeManager), &a_car),
        ErrorKind::Forbidden,
        "MotorbikeManager can only manage motorbikes.",
    );
    for v in [&a_car, &a_bike] {
        refused(
            check_vehicle_type_permission(&who(Role::Customer), v),
            ErrorKind::Forbidden,
            "Insufficient permissions to manage vehicles.",
        );
    }
}

#[test]
fn update_checks_values_before_permission() {
    let a_car = vehicle(car(Brand::TESLA, CarModel::MODEL_S, FuelType::ELECTRIC));
    let fine =
        UpdateVehicleRequest { description: Some(Some("new".into())), price_by_day: Some(1) };
    assert!(validate_update_vehicle(&who(Role::Admin), &a_car, &fine).is_ok());
    assert!(validate_update_vehicle(&who(Role::CarManager), &a_car, &fine).is_ok());
    refused(
        validate_update_vehicle(&who(Role::MotorbikeManager), &a_car, &fine),
        ErrorKind::Forbidden,
        "MotorbikeManager can only manage motorbikes.",
    );
    let free = UpdateVehicleRequest { description: None, price_by_day: Some(0) };
    for role in [Role::Admin, Role::MotorbikeManager, Role::Customer] {
        refused(
            validate_update_vehicle(&who(role), &a_car, &free),
            ErrorKind::BadRequest,
            "Price must be greater than 0",
        );
    }
    let empty =
        UpdateVehicleRequest { description: Some(Some(String::new())), price_by_day: Some(0) };
    refused(
        validate_update_vehicle(&who(Role::Admin), &a_car, &empty),
        ErrorKind::BadRequest,
        "Description must be between 1 and 249 characters",
    );
    let clear = UpdateVehicleRequest { description: Some(None), price_by_day: None };
    assert!(validate_update_vehicle(&who(Role::Admin), &a_car, &clear).is_ok());
    let nothing = UpdateVehicleRequest { description: None, price_by_day: None };
    assert!(validate_update_vehicle(&who(Role::Admin), &a_car, &nothing).is_ok());
}

#[test]
fn description_length_counts_characters() {
    let of =
        |text: String| UpdateVehicleRequest { description: Some(Some(text)), price_by_day: None };
    assert_eq!(of("x".repeat(249)).validate(), Ok(()));
    assert_eq!(of("\u{e9}".repeat(249)).validate(), Ok(()));
    assert_eq!(
        of("x".repeat(250)).validate(),
        Err("Description must be between 1 and 249 characters".to_string())
    );
    assert_eq!(of("x".to_string()).validate(), Ok(()));
}

#[test]
fn new_vehicle_fields_are_checked_in_order() {
    let admin = who(Role::Admin);
    let base = || CreateVehicleRequest {
        brand: Brand::TESLA,
        metadata: car(Brand::TESLA, CarModel::MODEL_3, FuelType::ELECTRIC),
        description: Some("A car".to_string()),
        price_by_day: 9_900,
        year_of_production: 2023,
    };
    assert_eq!(base().validate(&admin), Ok(()));
    let mut r = base();
    r.description = None;
    assert_eq!(r.validate(&admin), Ok(()));
    let mut r = base();
    r.description = Some(String::new());
    r.price_by_day = 0;
    assert_eq!(
        r.validate(&admin),
        Err("Description must be between 1 and 249 characters".to_string())
    );
    let mut r = base();
    r.price_by_day = 0;
    r.year_of_production = 1800;
    assert_eq!(r.validate(&admin), Err("Price must be greater than 0".to_string()));
    let mut r = base();
    r.price_by_day = -5;
    assert_eq!(r.validate(&admin), Err("Price must be greater than 0".to_string()));
    for year in [1899u32, 2031] {
        let mut r = base();
        r.year_of_production = year;
        assert_eq!(r.validate(&admin), Err("Year must be between 1900 and 2030".to_string()));
    }
    for year in [1900u32, 2030] {
        let mut r = base();
        r.year_of_production = year;
        assert_eq!(r.validate(&admin), Ok(()));
    }
    let mut r = base();
    r.metadata = car(Brand::TESLA, CarModel::MODEL_3, FuelType::DIESEL);
    assert_eq!(
        r.validate(&admin),
        Err("Tesla vehicles must have Electric fuel type.".to_string())
    );
}

#[test]
fn enums_read_back_from_their_texts() {
    for brand in [Brand::TESLA, Brand::MERCEDES].into_iter().chain(BIKE_BRANDS) {
        assert_eq!(Brand::from_str(&brand.to_string()), Ok(brand));
    }
    for model in TESLA_MODELS.into_iter().chain(MERCEDES_MODELS) {
        assert_eq!(CarModel::parse(&model.to_string()), Ok(model));
    }
    assert_eq!(CarModel::MODEL_3.to_string(), "MODEL_3");
    assert_eq!(CarModel::AMG_GT.to_string(), "AMG_GT");
    assert_eq!(Brand::HARLEY_DAVIDSON.to_string(), "HARLEY_DAVIDSON");
    assert_eq!(FuelType::parse("ELECTRIC"), Ok(FuelType::ELECTRIC));
    assert_eq!(FuelType::parse("Electric"), Err(ParseError::VariantNotFound));
    assert_eq!(Gearbox::parse("MANUAL"), Ok(Gearbox::MANUAL));
    assert_eq!(Gearbox::parse("AUTOMATIC"), Ok(Gearbox::AUTOMATIC));
    assert_eq!(VehicleType::parse("CAR"), Ok(VehicleType::CAR));
    assert_eq!(VehicleType::parse("MOTORBIKE"), Ok(VehicleType::MOTORBIKE));
    assert_eq!(MotorbikeModel::parse("SPORTBIKE"), Ok(MotorbikeModel::SPORTBIKE));
    assert_eq!(MotorbikeModel::parse("CRUISER"), Ok(MotorbikeModel::CRUISER));
    assert_eq!(Brand::parse("FORD"), Err(ParseError::VariantNotFound));
    assert_eq!(
        car(Brand::TESLA, CarModel::MODEL_S, FuelType::ELECTRIC).vehicle_type(),
        VehicleType::CAR
    );
    assert_eq!(bike(Brand::BMW).vehicle_type(), VehicleType::MOTORBIKE);
}
