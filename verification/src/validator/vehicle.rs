use crate::authentication::identity::{Identity, Role};
use crate::error::{follows, refusal, AppError, AppResult, ErrorKind, Refusal};
use crate::models::vehicle::{
    Brand, CreateVehicleRequest, FuelType, UpdateVehicleRequest, Vehicle, VehicleMetadata,
    VehicleType,
};
use vstd::prelude::*;
use vstd::string::*;

verus! {

/// Whether a result fails exactly where a complaint is due, and then with its
/// words.
pub open spec fn complains(r: Result<(), String>, complaint: Option<Seq<char>>) -> bool {
    match complaint {
        None => r is Ok,
        Some(message) => r is Err && r->Err_0@ == message,
    }
}

/// Whether a model of the electric-only line has another fuel type.
pub open spec fn breaks_fuel_rule(metadata: VehicleMetadata) -> bool {
    match metadata {
        VehicleMetadata::Car(car) => car.model.spec_is_electric_only() && car.fuel_type
            != FuelType::ELECTRIC,
        VehicleMetadata::Motorbike(_) => false,
    }
}

/// The complaint about the fuel type of a vehicle, if one is due.
pub open spec fn metadata_complaint(metadata: VehicleMetadata) -> Option<Seq<char>> {
    if breaks_fuel_rule(metadata) {
        Some("Tesla vehicles must have Electric fuel type."@)
    } else {
        None
    }
}

/// Whether a brand and the metadata of a vehicle fit: the brand makes
/// vehicles of the metadata's category, and a car's model is one of the
/// brand's.
pub open spec fn brand_fits(brand: Brand, metadata: VehicleMetadata) -> bool {
    match metadata {
        VehicleMetadata::Car(car) => brand.spec_is_car_brand() && car.model.spec_brand() == brand,
        VehicleMetadata::Motorbike(_) => !brand.spec_is_car_brand(),
    }
}

/// The complaint about a brand and the metadata of a vehicle, if one is due.
pub open spec fn brand_model_complaint(
    brand: Brand,
    metadata: VehicleMetadata,
) -> Option<Seq<char>> {
    match metadata {
        VehicleMetadata::Car(car) => {
            if !brand.spec_is_car_brand() {
                Some(brand.name() + " is a motorbike brand and cannot be used with car metadata."@)
            } else if car.model.spec_brand() == brand {
                None
            } else if brand == Brand::TESLA {
                Some("Invalid model for Tesla brand."@)
            } else {
                Some("Invalid model for Mercedes brand."@)
            }
        },
        VehicleMetadata::Motorbike(_) => {
            if brand.spec_is_car_brand() {
                Some(brand.name() + " is a car brand and cannot be used with motorbike metadata."@)
            } else {
                None
            }
        },
    }
}

/// Whether a role is competent for a category of vehicles.
pub open spec fn may_manage(role: Role, category: VehicleType) -> bool {
    match role {
        Role::Admin => true,
        Role::CarManager => category == VehicleType::CAR,
        Role::MotorbikeManager => category == VehicleType::MOTORBIKE,
        Role::Customer => false,
    }
}

/// What a caller is told who asks to manage a vehicle of a category.
pub open spec fn vehicle_type_verdict(role: Role, category: VehicleType) -> Option<Refusal> {
    match role {
        Role::Admin => None,
        Role::CarManager => if category == VehicleType::CAR {
            None
        } else {
            refusal(ErrorKind::Forbidden, "CarManager can only manage cars."@)
        },
        Role::MotorbikeManager => if category == VehicleType::MOTORBIKE {
            None
        } else {
            refusal(ErrorKind::Forbidden, "MotorbikeManager can only manage motorbikes."@)
        },
        Role::Customer => refusal(
            ErrorKind::Forbidden,
            "Insufficient permissions to manage vehicles."@,
        ),
    }
}

/// Whether a description has between 1 and 249 characters.
pub open spec fn description_fits(description: Seq<char>) -> bool {
    1 <= description.len() <= 249
}

/// The complaint about the fields of an update, if one is due: the
/// description first, then the price.
pub open spec fn update_request_complaint(
    description: Option<Option<Seq<char>>>,
    price_by_day: Option<i64>,
) -> Option<Seq<char>> {
    if description matches Some(Some(text)) && !description_fits(text) {
        Some("Description must be between 1 and 249 characters"@)
    } else if price_by_day matches Some(price) && price < 1 {
        Some("Price must be greater than 0"@)
    } else {
        None
    }
}

/// The complaint about the fields of a new vehicle, if one is due: the
/// description first, then the price, the year and the fuel type.
pub open spec fn create_request_complaint(
    metadata: VehicleMetadata,
    description: Option<Seq<char>>,
    price_by_day: i64,
    year_of_production: u32,
) -> Option<Seq<char>> {
    if description matches Some(text) && !description_fits(text) {
        Some("Description must be between 1 and 249 characters"@)
    } else if price_by_day < 1 {
        Some("Price must be greater than 0"@)
    } else if !(1900 <= year_of_production <= 2030) {
        Some("Year must be between 1900 and 2030"@)
    } else {
        metadata_complaint(metadata)
    }
}

impl UpdateVehicleRequest {
    /// The description that the request sets, by its characters.
    pub open spec fn description_view(&self) -> Option<Option<Seq<char>>> {
        match self.description {
            None => None,
            Some(None) => Some(None),
            Some(Some(text)) => Some(Some(text@)),
        }
    }

    /// Checks the fields of the request one by one and stops at the first
    /// that is out of bounds.
    pub fn validate(&self) -> (r: Result<(), String>)
        ensures
            complains(r, update_request_complaint(self.description_view(), self.price_by_day)),
    {
        if let Some(Some(text)) = &self.description {
            let n = text.as_str().unicode_len();
            if n < 1 || n > 249 {
                return Err("Description must be between 1 and 249 characters".to_owned());
            }
        }
        if let Some(price) = self.price_by_day {
            if price < 1 {
                return Err("Price must be greater than 0".to_owned());
            }
        }
        Ok(())
    }
}

impl CreateVehicleRequest {
    /// The description of the new vehicle, by its characters.
    pub open spec fn description_view(&self) -> Option<Seq<char>> {
        match self.description {
            None => None,
            Some(text) => Some(text@),
        }
    }

    /// Checks the fields of the request one by one, then the fuel type
    /// against the model, and stops at the first rule that is broken.
    pub fn validate(&self, identity: &Identity) -> (r: Result<(), String>)
        ensures
            complains(
                r,
                create_request_complaint(
                    self.metadata,
                    self.description_view(),
                    self.price_by_day,
                    self.year_of_production,
                ),
            ),
    {
        if let Some(text) = &self.description {
            let n = text.as_str().unicode_len();
            if n < 1 || n > 249 {
                return Err("Description must be between 1 and 249 characters".to_owned());
            }
        }
        if self.price_by_day < 1 {
            return Err("Price must be greater than 0".to_owned());
        }
        if self.year_of_production < 1900 || self.year_of_production > 2030 {
            return Err("Year must be between 1900 and 2030".to_owned());
        }
        validate_metadata(identity, &self.metadata)
    }
}

/// Checks that a model of the electric-only line runs on electricity.
pub fn validate_metadata(
    _identity: &Identity,
    metadata: &VehicleMetadata,
) -> (r: Result<(), String>)
    ensures
        complains(r, metadata_complaint(*metadata)),
        r is Ok <==> !breaks_fuel_rule(*metadata),
{
    match metadata {
        VehicleMetadata::Car(car_metadata) => {
            if car_metadata.model.is_electric_only() {
                match car_metadata.fuel_type {
                    FuelType::ELECTRIC => {},
                    _ => {
                        return Err("Tesla vehicles must have Electric fuel type.".to_owned());
                    },
                }
            }
        },
        VehicleMetadata::Motorbike(_) => {},
    }
    Ok(())
}

/// Checks that the brand makes vehicles of the metadata's category and that
/// a car's model is one of the brand's.
pub fn validate_brand_model(brand: &Brand, metadata: &VehicleMetadata) -> (r: Result<(), String>)
    ensures
        complains(r, brand_model_complaint(*brand, *metadata)),
        r is Ok <==> brand_fits(*brand, *metadata),
{
    match metadata {
        VehicleMetadata::Car(car_metadata) => {
            match brand {
                Brand::TESLA => {
                    match car_metadata.model.brand() {
                        Brand::TESLA => Ok(()),
                        _ => Err("Invalid model for Tesla brand.".to_owned()),
                    }
                },
                Brand::MERCEDES => {
                    match car_metadata.model.brand() {
                        Brand::MERCEDES => Ok(()),
                        _ => Err("Invalid model for Mercedes brand.".to_owned()),
                    }
                },
                _ => {
                    let mut message = brand.to_string();
                    message.append(" is a motorbike brand and cannot be used with car metadata.");
                    Err(message)
                },
            }
        },
        VehicleMetadata::Motorbike(_) => {
            match brand {
                Brand::TESLA | Brand::MERCEDES => {
                    let mut message = brand.to_string();
                    message.append(" is a car brand and cannot be used with motorbike metadata.");
                    Err(message)
                },
                _ => Ok(()),
            }
        },
    }
}

/// Checks that the caller's role is competent for the vehicle's category.
pub fn check_vehicle_type_permission(
    identity: &Identity,
    vehicle: &Vehicle,
) -> (r: Result<(), AppError>)
    ensures
        follows(r, vehicle_type_verdict(identity.role, vehicle.metadata.spec_vehicle_type())),
        r is Ok <==> may_manage(identity.role, vehicle.metadata.spec_vehicle_type()),
{
    match identity.role {
        Role::Admin => Ok(()),
        Role::CarManager => {
            match vehicle.metadata {
                VehicleMetadata::Car(_) => Ok(()),
                _ => Err(AppError::forbidden("CarManager can only manage cars.")),
            }
        },
        Role::MotorbikeManager => {
            match vehicle.metadata {
                VehicleMetadata::Motorbike(_) => Ok(()),
                _ => Err(AppError::forbidden("MotorbikeManager can only manage motorbikes.")),
            }
        },
        _ => Err(AppError::forbidden("Insufficient permissions to manage vehicles.")),
    }
}

/// What a caller is told who asks to update a vehicle: first whether the new
/// values are in bounds, then whether the vehicle is theirs to manage.
pub open spec fn update_vehicle_verdict(
    role: Role,
    category: VehicleType,
    description: Option<Option<Seq<char>>>,
    price_by_day: Option<i64>,
) -> Option<Refusal> {
    match update_request_complaint(description, price_by_day) {
        Some(message) => refusal(ErrorKind::BadRequest, message),
        None => vehicle_type_verdict(role, category),
    }
}

/// Checks an update of a vehicle: the new values, then the caller's
/// competence for the vehicle's category.
pub fn validate_update_vehicle(
    identity: &Identity,
    vehicle: &Vehicle,
    request: &UpdateVehicleRequest,
) -> (r: AppResult<()>)
    ensures
        follows(
            r,
            update_vehicle_verdict(
                identity.role,
                vehicle.metadata.spec_vehicle_type(),
                request.description_view(),
                request.price_by_day,
            ),
        ),
{
    match request.validate() {
        Err(message) => {
            return Err(AppError::bad_request(message.as_str()));
        },
        Ok(()) => {},
    }
    check_vehicle_type_permission(identity, vehicle)
}

/// Whether what is recorded of a car fits its brand: the model is one of the
/// brand's, and a model of the electric-only line runs on electricity. Of a
/// motorbike nothing is asked.
pub open spec fn consistent_car(brand: Brand, metadata: VehicleMetadata) -> bool {
    metadata matches VehicleMetadata::Car(car) ==> car.model.spec_brand() == brand && (
    car.model.spec_is_electric_only() ==> car.fuel_type == FuelType::ELECTRIC)
}

/// A vehicle passes both checks of its brand, model and fuel type exactly
/// where the brand makes its category, a car's model is the brand's, and a
/// model of the electric-only line runs on electricity.
pub proof fn lemma_accepted_vehicle_is_consistent(brand: Brand, metadata: VehicleMetadata)
    ensures
        (brand_model_complaint(brand, metadata) is None && metadata_complaint(metadata) is None)
            <==> (brand.category() == metadata.spec_vehicle_type() && consistent_car(
            brand,
            metadata,
        )),
{
}

/// A manager is competent for exactly one category, an administrator for
/// both, a customer for none.
pub proof fn lemma_competence(role: Role, category: VehicleType)
    ensures
        vehicle_type_verdict(role, category) is None <==> may_manage(role, category),
        may_manage(Role::Admin, category),
        !may_manage(Role::Customer, category),
        may_manage(Role::CarManager, category) <==> category == VehicleType::CAR,
        may_manage(Role::MotorbikeManager, category) <==> category == VehicleType::MOTORBIKE,
{
}

} // verus!
