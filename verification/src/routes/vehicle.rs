use crate::authentication::identity::{Identity, Role};
use crate::error::{AppError, AppResult};
use crate::models::object_id::{object_id_of_hex, ObjectId};
use crate::models::vehicle::Vehicle;
use vstd::prelude::*;

verus! {

/// The endpoints for vehicles.
#[derive(Clone, Copy, Debug, PartialEq, Eq, Structural)]
pub enum VehicleEndpoint {
    Create,
    List,
    Update,
    Get,
    ListBookings,
}

/// Whether a role may call an endpoint at all: only an administrator adds
/// vehicles, only staff update them or see their bookings, and every role may
/// list and read them.
pub open spec fn may_call(role: Role, endpoint: VehicleEndpoint) -> bool {
    match endpoint {
        VehicleEndpoint::Create => role == Role::Admin,
        VehicleEndpoint::Update | VehicleEndpoint::ListBookings => role != Role::Customer,
        VehicleEndpoint::List | VehicleEndpoint::Get => true,
    }
}

/// Turns away the roles that may not call an endpoint.
pub fn protect(identity: &Identity, endpoint: VehicleEndpoint) -> (r: AppResult<()>)
    ensures
        r is Ok <==> may_call(identity.role, endpoint),
        r matches Err(e) ==> e.is_forbidden("Insufficient permissions for this operation."@),
{
    let allowed = match endpoint {
        VehicleEndpoint::Create => match identity.role {
            Role::Admin => true,
            _ => false,
        },
        VehicleEndpoint::Update | VehicleEndpoint::ListBookings => match identity.role {
            Role::Customer => false,
            _ => true,
        },
        VehicleEndpoint::List | VehicleEndpoint::Get => true,
    };
    if allowed {
        Ok(())
    } else {
        Err(AppError::forbidden("Insufficient permissions for this operation."))
    }
}

/// The identifier of a vehicle that a path names: 24 hexadecimal digits.
pub fn vehicle_id(path: &str) -> (r: AppResult<ObjectId>)
    ensures
        match object_id_of_hex(path@) {
            Some(id) => r == Ok::<ObjectId, AppError>(id),
            None => r is Err && r->Err_0.is_bad_request("Invalid vehicle ID format"@),
        },
{
    match ObjectId::parse_str(path) {
        Some(id) => Ok(id),
        None => Err(AppError::bad_request("Invalid vehicle ID format")),
    }
}

/// The vehicle that was asked for, or that it was not found.
pub fn found(outcome: Option<Vehicle>) -> (r: AppResult<Vehicle>)
    ensures
        match outcome {
            Some(vehicle) => r == Ok::<Vehicle, AppError>(vehicle),
            None => r is Err && r->Err_0.is_not_found("Vehicle not found"@),
        },
{
    match outcome {
        Some(vehicle) => Ok(vehicle),
        None => Err(AppError::not_found("Vehicle not found")),
    }
}

} // verus!
