use crate::authentication::identity::{Identity, Role};
use crate::error::{AppError, AppResult};
use crate::models::booking::Booking;
use crate::models::object_id::{object_id_of_hex, ObjectId};
use vstd::prelude::*;

verus! {

/// The endpoints for bookings.
#[derive(Clone, Copy, Debug, PartialEq, Eq, Structural)]
pub enum BookingEndpoint {
    Create,
    List,
    Update,
    Get,
}

/// Whether a role may call an endpoint at all: only customers make bookings;
/// every role may list, read and update, within what it may see and change.
pub open spec fn may_call(role: Role, endpoint: BookingEndpoint) -> bool {
    endpoint == BookingEndpoint::Create ==> role == Role::Customer
}

/// Turns away the roles that may not call an endpoint.
pub fn protect(identity: &Identity, endpoint: BookingEndpoint) -> (r: AppResult<()>)
    ensures
        r is Ok <==> may_call(identity.role, endpoint),
        r matches Err(e) ==> e.is_forbidden("Insufficient permissions for this operation."@),
{
    let allowed = match endpoint {
        BookingEndpoint::Create => match identity.role {
            Role::Customer => true,
            _ => false,
        },
        _ => true,
    };
    if allowed {
        Ok(())
    } else {
        Err(AppError::forbidden("Insufficient permissions for this operation."))
    }
}

/// The identifier of a booking that a path names: 24 hexadecimal digits.
pub fn booking_id(path: &str) -> (r: AppResult<ObjectId>)
    ensures
        match object_id_of_hex(path@) {
            Some(id) => r == Ok::<ObjectId, AppError>(id),
            None => r is Err && r->Err_0.is_bad_request("Invalid booking ID format"@),
        },
{
    match ObjectId::parse_str(path) {
        Some(id) => Ok(id),
        None => Err(AppError::bad_request("Invalid booking ID format")),
    }
}

/// The booking that was asked for, or that it was not found.
pub fn found(outcome: Option<Booking>) -> (r: AppResult<Booking>)
    ensures
        match outcome {
            Some(booking) => r == Ok::<Booking, AppError>(booking),
            None => r is Err && r->Err_0.is_not_found("Booking not found"@),
        },
{
    match outcome {
        Some(booking) => Ok(booking),
        None => Err(AppError::not_found("Booking not found")),
    }
}

} // verus!
