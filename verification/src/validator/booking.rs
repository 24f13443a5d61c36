use crate::authentication::identity::{Identity, Role};
use crate::error::{follows, refusal, AppError, AppResult, ErrorKind, Refusal};
use crate::models::booking::{
    Booking, BookingStatus, BookingView, CreateBookingRequest, StatusTag, UpdateBookingRequest,
};
use crate::validator::vehicle::complains;
use vstd::prelude::*;
use vstd::string::*;

verus! {

/// Whether a caller may see or touch a booking: staff any, a customer only
/// their own.
pub open spec fn may_access(role: Role, user: Seq<char>, booking: BookingView) -> bool {
    role != Role::Customer || booking.customer_id == user
}

/// Whether a caller of the given role may move a booking from one state to
/// another.
pub open spec fn may_change_status(role: Role, current: StatusTag, new: StatusTag) -> bool {
    match role {
        Role::Customer => new == StatusTag::Cancelled && current.is_live(),
        _ => (current == StatusTag::Pending && (new == StatusTag::Confirmed || new
            == StatusTag::Rejected)) || (current == StatusTag::Confirmed && new
            == StatusTag::Rejected),
    }
}

/// What a customer is told who asks for a change of state.
pub open spec fn customer_status_verdict(current: StatusTag, new: StatusTag) -> Option<Refusal> {
    if new != StatusTag::Cancelled {
        refusal(ErrorKind::Forbidden, "Customers can only cancel their bookings."@)
    } else if !current.is_live() {
        refusal(
            ErrorKind::Forbidden,
            "You can only cancel bookings that are pending or confirmed."@,
        )
    } else {
        None
    }
}

/// What an administrator or a manager is told who asks for a change of state.
pub open spec fn non_customer_status_verdict(
    current: StatusTag,
    new: StatusTag,
) -> Option<Refusal> {
    if new == StatusTag::Cancelled {
        refusal(
            ErrorKind::Forbidden,
            "Only customers can cancel bookings. Use reject status instead."@,
        )
    } else if new == StatusTag::Pending {
        refusal(ErrorKind::Forbidden, "Cannot change status back to pending."@)
    } else if current == StatusTag::Pending {
        None
    } else if current == StatusTag::Confirmed {
        if new == StatusTag::Rejected {
            None
        } else {
            refusal(ErrorKind::BadRequest, "Confirmed bookings can only be rejected."@)
        }
    } else {
        refusal(ErrorKind::BadRequest, "Cannot modify rejected or cancelled bookings."@)
    }
}

/// What a caller is told who asks for a change of state.
pub open spec fn status_verdict(role: Role, current: StatusTag, new: StatusTag) -> Option<Refusal> {
    if role == Role::Customer {
        customer_status_verdict(current, new)
    } else {
        non_customer_status_verdict(current, new)
    }
}

/// What a caller is told who asks to update a booking: first whether the
/// booking is theirs to touch, then whether the change of state is legal. A
/// request that names no state is always legal.
pub open spec fn update_verdict(
    role: Role,
    user: Seq<char>,
    booking: BookingView,
    new: Option<StatusTag>,
) -> Option<Refusal> {
    if !may_access(role, user, booking) {
        refusal(ErrorKind::Forbidden, "You can only update your own bookings."@)
    } else {
        match new {
            None => None,
            Some(tag) => status_verdict(role, booking.status.tag, tag),
        }
    }
}

/// Whether the first day of a reservation lies before its last day.
pub open spec fn dates_in_order(request: CreateBookingRequest) -> bool {
    request.from_date.key() < request.to_date.key()
}

/// The complaint about a new booking, if one is due: first about its days,
/// then about bookings in its way. Where the search for bookings in its way
/// has failed, the booking is turned down as well.
pub open spec fn creation_complaint(
    request: CreateBookingRequest,
    overlap: AppResult<bool>,
) -> Option<Seq<char>> {
    if !dates_in_order(request) {
        Some("from_date must be before to_date"@)
    } else {
        match overlap {
            Ok(true) => Some("Vehicle is already booked for overlapping dates."@),
            Ok(false) => None,
            Err(_) => Some("Failed to check for booking conflicts."@),
        }
    }
}

/// Checks that the first day of a reservation lies before its last day.
pub fn validate_booking_dates(request: &CreateBookingRequest) -> (r: Result<(), String>)
    ensures
        r is Ok <==> dates_in_order(*request),
        r matches Err(message) ==> message@ == "from_date must be before to_date"@,
{
    if request.from_date.lt(request.to_date) {
        Ok(())
    } else {
        Err("from_date must be before to_date".to_owned())
    }
}

/// Checks a new booking: its days, then the outcome of the search for
/// bookings in its way, which `overlap` holds.
pub fn validate_booking_creation(
    _identity: &Identity,
    request: &CreateBookingRequest,
    overlap: &AppResult<bool>,
) -> (r: Result<(), String>)
    ensures
        complains(r, creation_complaint(*request, *overlap)),
        r is Ok <==> dates_in_order(*request) && *overlap == Ok::<bool, AppError>(false),
{
    match validate_booking_dates(request) {
        Err(message) => {
            return Err(message);
        },
        Ok(()) => {},
    }
    match overlap {
        Ok(has_overlap) => {
            if *has_overlap {
                return Err("Vehicle is already booked for overlapping dates.".to_owned());
            }
        },
        Err(_) => {
            return Err("Failed to check for booking conflicts.".to_owned());
        },
    }
    Ok(())
}

impl UpdateBookingRequest {
    /// The state that the request asks for, if it asks for one.
    pub open spec fn new_tag(&self) -> Option<StatusTag> {
        match self.status {
            None => None,
            Some(status) => Some(status@.tag),
        }
    }
}

/// Checks a change of state that a customer asks for.
pub fn validate_customer_status_change(
    current_status: &BookingStatus,
    new_status: &BookingStatus,
) -> (r: AppResult<()>)
    ensures
        follows(r, customer_status_verdict(current_status@.tag, new_status@.tag)),
        r is Ok <==> may_change_status(Role::Customer, current_status@.tag, new_status@.tag),
{
    match new_status {
        BookingStatus::Cancelled(_) => {
            match current_status {
                BookingStatus::Pending | BookingStatus::Confirmed => Ok(()),
                _ => Err(
                    AppError::forbidden(
                        "You can only cancel bookings that are pending or confirmed.",
                    ),
                ),
            }
        },
        _ => Err(AppError::forbidden("Customers can only cancel their bookings.")),
    }
}

/// Checks a change of state that an administrator or a manager asks for.
pub fn validate_non_customer_status_change(
    current_status: &BookingStatus,
    new_status: &BookingStatus,
) -> (r: AppResult<()>)
    ensures
        follows(r, non_customer_status_verdict(current_status@.tag, new_status@.tag)),
        r is Ok <==> may_change_status(Role::Admin, current_status@.tag, new_status@.tag),
{
    match new_status {
        BookingStatus::Cancelled(_) => Err(
            AppError::forbidden("Only customers can cancel bookings. Use reject status instead."),
        ),
        BookingStatus::Pending => Err(AppError::forbidden("Cannot change status back to pending.")),
        BookingStatus::Confirmed | BookingStatus::Rejected(_) => {
            match current_status {
                BookingStatus::Pending => Ok(()),
                BookingStatus::Confirmed => {
                    match new_status {
                        BookingStatus::Rejected(_) => Ok(()),
                        _ => Err(AppError::bad_request("Confirmed bookings can only be rejected.")),
                    }
                },
                BookingStatus::Rejected(_) | BookingStatus::Cancelled(_) => Err(
                    AppError::bad_request("Cannot modify rejected or cancelled bookings."),
                ),
            }
        },
    }
}

/// Checks that the caller may update the booking at all.
pub fn check_booking_update_permission(identity: &Identity, booking: &Booking) -> (r: AppResult<()>)
    ensures
        r is Ok <==> may_access(identity.role, identity.user_id@, booking@),
        r is Err ==> r->Err_0.is_forbidden("You can only update your own bookings."@),
{
    match identity.role {
        Role::Admin => Ok(()),
        Role::CarManager | Role::MotorbikeManager => Ok(()),
        Role::Customer => {
            if booking.customer_id == identity.user_id {
                Ok(())
            } else {
                Err(AppError::forbidden("You can only update your own bookings."))
            }
        },
    }
}

/// Checks that the caller may see the booking.
pub fn check_booking_view_permission(identity: &Identity, booking: &Booking) -> (r: AppResult<()>)
    ensures
        r is Ok <==> may_access(identity.role, identity.user_id@, booking@),
        r is Err ==> r->Err_0.is_forbidden("You can only view your own bookings."@),
{
    match identity.role {
        Role::Admin | Role::CarManager | Role::MotorbikeManager => Ok(()),
        Role::Customer => {
            if booking.customer_id == identity.user_id {
                Ok(())
            } else {
                Err(AppError::forbidden("You can only view your own bookings."))
            }
        },
    }
}

/// Checks an update of a booking: the caller's right to touch it, then the
/// change of state that the request asks for, if any.
pub fn validate_update_booking(
    identity: &Identity,
    booking: &Booking,
    request: &UpdateBookingRequest,
) -> (r: AppResult<()>)
    ensures
        follows(r, update_verdict(identity.role, identity.user_id@, booking@, request.new_tag())),
        r is Ok <==> may_access(identity.role, identity.user_id@, booking@) && (
        request.new_tag() matches Some(tag) ==> may_change_status(
            identity.role,
            booking@.status.tag,
            tag,
        )),
{
    match check_booking_update_permission(identity, booking) {
        Err(e) => {
            return Err(e);
        },
        Ok(()) => {},
    }
    if let Some(new_status) = &request.status {
        match identity.role {
            Role::Customer => {
                return validate_customer_status_change(&booking.status, new_status);
            },
            Role::Admin | Role::CarManager | Role::MotorbikeManager => {
                return validate_non_customer_status_change(&booking.status, new_status);
            },
        }
    }
    Ok(())
}

/// A state is accepted by the rules exactly where the table of legal moves
/// has it.
pub proof fn lemma_verdict_matches_table(role: Role, current: StatusTag, new: StatusTag)
    ensures
        status_verdict(role, current, new) is None <==> may_change_status(role, current, new),
{
}

/// No caller can move a booking out of a terminal state.
pub proof fn lemma_terminal_is_final(role: Role, current: StatusTag, new: StatusTag)
    requires
        current.is_terminal(),
    ensures
        !may_change_status(role, current, new),
        status_verdict(role, current, new) is Some,
{
}

/// No caller can move a booking back to pending.
pub proof fn lemma_never_back_to_pending(role: Role, current: StatusTag)
    ensures
        !may_change_status(role, current, StatusTag::Pending),
        status_verdict(role, current, StatusTag::Pending) is Some,
{
}

/// A customer can only cancel, and is told so with a `Forbidden` error.
pub proof fn lemma_customer_only_cancels(current: StatusTag, new: StatusTag)
    requires
        may_change_status(Role::Customer, current, new) || customer_status_verdict(current, new)
            is None,
    ensures
        new == StatusTag::Cancelled,
        current.is_live(),
{
}

/// Every legal move follows the graph of states: out of pending to any other
/// state, out of confirmed to rejected or cancelled.
pub proof fn lemma_legal_moves_follow_graph(role: Role, current: StatusTag, new: StatusTag)
    requires
        may_change_status(role, current, new),
    ensures
        current.is_live(),
        new != StatusTag::Pending,
        current == StatusTag::Confirmed ==> new.is_terminal(),
        new == StatusTag::Cancelled <==> role == Role::Customer,
{
}

} // verus!
