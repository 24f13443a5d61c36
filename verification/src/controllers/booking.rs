use crate::authentication::identity::{Identity, Role};
use crate::error::{follows, refusal, AppError, AppResult, ErrorKind, Refusal};
use crate::models::booking::{
    Booking, BookingView, CreateBookingRequest, StatusTag, StatusView, UpdateBookingRequest,
};
use crate::models::object_id::ObjectId;
use crate::services::mongodb::booking::{any_conflict, booking_record, conflicts, overlaps};
use crate::services::mongodb::filter::{met, satisfied_by, ClauseView, Filter, ValueView};
use crate::services::mongodb::query_builder::QueryBuilder;
use crate::validator::booking::{
    check_booking_view_permission, dates_in_order, may_access,
    may_change_status, update_verdict, validate_booking_creation, validate_update_booking,
};
use vstd::prelude::*;
use vstd::string::*;

verus! {

/// What a caller is told who asks for a new booking, by the first of these
/// that applies: the days are out of order, a bad request; the search for
/// bookings in the way has failed, an internal error; a booking is in the
/// way, a bad request; the search for the vehicle has failed, the store's
/// error; the vehicle is not there, not found. While it is unknown whether a
/// booking is in the way, none is admitted, whatever is known of the vehicle.
pub open spec fn create_verdict(
    request: CreateBookingRequest,
    overlap: AppResult<bool>,
    vehicle: AppResult<bool>,
) -> Option<Refusal> {
    if !dates_in_order(request) {
        refusal(ErrorKind::BadRequest, "from_date must be before to_date"@)
    } else {
        match overlap {
            Err(_) => refusal(
                ErrorKind::InternalServerError,
                "Failed to check for booking conflicts."@,
            ),
            Ok(true) => refusal(
                ErrorKind::BadRequest,
                "Vehicle is already booked for overlapping dates."@,
            ),
            Ok(false) => match vehicle {
                Ok(true) => None,
                Ok(false) => refusal(ErrorKind::NotFound, "Vehicle not found"@),
                Err(e) => refusal(e.spec_kind(), e.spec_message()),
            },
        }
    }
}

/// The booking that a request leads to, to be stored. `overlap` holds the
/// outcome of the search for bookings in its way, `vehicle` whether the
/// vehicle was found, `order_date` the present moment. The booking is
/// pending and belongs to the caller, whatever the request says.
pub fn create(
    identity: &Identity,
    request: CreateBookingRequest,
    overlap: &AppResult<bool>,
    vehicle: AppResult<bool>,
    order_date: i64,
) -> (r: AppResult<Booking>)
    ensures
        follows(r, create_verdict(request, *overlap, vehicle)),
        r matches Ok(booking) ==> booking@ == (BookingView {
            id: None,
            vehicle_id: request.vehicle_id,
            customer_id: identity.user_id@,
            from_date: request.from_date,
            to_date: request.to_date,
            status: StatusView { tag: StatusTag::Pending, reason: Seq::empty() },
            order_date,
        }) && dates_in_order(request),
{
    match validate_booking_creation(identity, &request, overlap) {
        Err(message) => {
            let search_failed = match overlap {
                Err(_) => request.from_date.lt(request.to_date),
                Ok(_) => false,
            };
            if search_failed {
                return Err(AppError::internal_server_error(message.as_str()));
            }
            return Err(AppError::bad_request(message.as_str()));
        },
        Ok(()) => {},
    }
    match vehicle {
        Err(e) => {
            return Err(e);
        },
        Ok(found) => {
            if !found {
                return Err(AppError::not_found("Vehicle not found"));
            }
        },
    }
    Ok(Booking::new(request, identity.user_id.clone(), order_date))
}

/// The booking with the identifier that the store gave it.
pub fn stored(booking: Booking, id: ObjectId) -> (r: Booking)
    ensures
        r@ == (BookingView { id: Some(id), ..booking@ }),
{
    let mut booking = booking;
    booking.id = Some(id);
    booking
}

/// The clauses that scope a listing to what the caller may see: for a
/// customer their own bookings, for staff all.
pub open spec fn list_criteria(role: Role, user: Seq<char>) -> Map<Seq<char>, ClauseView> {
    if role == Role::Customer {
        Map::<Seq<char>, ClauseView>::empty().insert(
            "customer_id"@,
            ClauseView::Equal(ValueView::Text(user)),
        )
    } else {
        Map::empty()
    }
}

/// The filter that the store is asked for the caller's listing.
pub fn list_filter(identity: &Identity) -> (filter: Filter)
    ensures
        filter@ == list_criteria(identity.role, identity.user_id@),
{
    let mut filter = Filter::new();
    match identity.role {
        Role::Customer => {
            let builder = QueryBuilder::new();
            let mut own: Vec<String> = Vec::new();
            own.push(identity.user_id.clone());
            let own = Some(own);
            builder.add_filter(&mut filter, "customer_id", &own);
            proof {
                let wanted = crate::services::mongodb::query_builder::wanted_values(own);
                assert(wanted->Some_0 =~= seq![ValueView::Text(identity.user_id@)]);
            }
        },
        _ => {},
    }
    filter
}

/// The bookings among `bookings` that the caller may see, in their order.
pub open spec fn visible(role: Role, user: Seq<char>, bookings: Seq<Booking>) -> Seq<Booking> {
    bookings.filter(|b: Booking| may_access(role, user, b@))
}

/// The caller's listing: of the bookings that the store handed out, those
/// that the caller may see.
pub fn list(identity: &Identity, bookings: Vec<Booking>) -> (r: AppResult<Vec<Booking>>)
    ensures
        r is Ok,
        r->Ok_0@ == visible(identity.role, identity.user_id@, bookings@),
{
    let ghost pred = |b: Booking| may_access(identity.role, identity.user_id@, b@);
    let ghost all = bookings@;
    let mut out: Vec<Booking> = Vec::new();
    for booking in it: bookings.into_iter()
        invariant
            it.seq() == all,
            pred == (|b: Booking| may_access(identity.role, identity.user_id@, b@)),
            out@ == all.take(it.index@).filter(pred),
    {
        proof {
            reveal(Seq::filter);
            assert(all.take(it.index@ + 1).drop_last() =~= all.take(it.index@));
        }
        let keep = match identity.role {
            Role::Customer => booking.customer_id == identity.user_id,
            _ => true,
        };
        if keep {
            out.push(booking);
        }
    }
    proof {
        assert(all.take(all.len() as int) =~= all);
    }
    Ok(out)
}

/// What a caller is told who asks for one booking.
pub open spec fn get_verdict(
    role: Role,
    user: Seq<char>,
    found: Option<Booking>,
) -> Option<Refusal> {
    match found {
        None => None,
        Some(booking) => if may_access(role, user, booking@) {
            None
        } else {
            refusal(ErrorKind::Forbidden, "You can only view your own bookings."@)
        },
    }
}

/// The booking that the store found, if the caller may see it; nothing where
/// the store found none.
pub fn get(identity: &Identity, found: Option<Booking>) -> (r: AppResult<Option<Booking>>)
    ensures
        follows(r, get_verdict(identity.role, identity.user_id@, found)),
        r matches Ok(booking) ==> booking == found,
{
    if let Some(booking) = &found {
        match check_booking_view_permission(identity, booking) {
            Err(e) => {
                return Err(e);
            },
            Ok(()) => {},
        }
    }
    Ok(found)
}

/// What a caller is told who asks to update a booking.
pub open spec fn change_verdict(
    role: Role,
    user: Seq<char>,
    found: Option<Booking>,
    new: Option<StatusTag>,
) -> Option<Refusal> {
    match found {
        None => refusal(ErrorKind::NotFound, "Booking not found"@),
        Some(booking) => update_verdict(role, user, booking@, new),
    }
}

/// The state of a booking after an update: the one asked for, or the one it
/// had where none is asked for.
pub open spec fn status_after(current: StatusView, request: UpdateBookingRequest) -> StatusView {
    match request.status {
        None => current,
        Some(status) => status@,
    }
}

/// The booking as it is to be stored after an update: `found` is the booking
/// as the store holds it. Only the state changes, and only where the caller
/// may make that change.
pub fn update(
    identity: &Identity,
    found: Option<Booking>,
    request: UpdateBookingRequest,
) -> (r: AppResult<Booking>)
    ensures
        follows(r, change_verdict(identity.role, identity.user_id@, found, request.new_tag())),
        r matches Ok(booking) ==> booking@ == (BookingView {
            status: status_after(found->Some_0@.status, request),
            ..found->Some_0@
        }),
{
    let mut booking = match found {
        None => {
            return Err(AppError::not_found("Booking not found"));
        },
        Some(booking) => booking,
    };
    match validate_update_booking(identity, &booking, &request) {
        Err(e) => {
            return Err(e);
        },
        Ok(()) => {},
    }
    if let Some(new_status) = request.status {
        booking.status = new_status;
    }
    Ok(booking)
}

/// What the caller gets after the store was told to replace a booking: the
/// booking that the store handed back, or an internal error where it handed
/// back none.
pub fn replaced(outcome: Option<Booking>) -> (r: AppResult<Booking>)
    ensures
        match outcome {
            Some(booking) => r == Ok::<Booking, AppError>(booking),
            None => r is Err && r->Err_0.is_internal("Failed to update booking"@),
        },
{
    match outcome {
        Some(booking) => Ok(booking),
        None => Err(AppError::internal_server_error("Failed to update booking")),
    }
}

/// A customer's listing holds none but their own bookings, and each of them
/// that was handed out; a listing for staff holds all that was handed out.
pub proof fn lemma_listing_is_scoped(role: Role, user: Seq<char>, bookings: Seq<Booking>)
    ensures
        forall|i: int|
            0 <= i && i < visible(role, user, bookings).len() ==> may_access(
                role,
                user,
                (#[trigger] visible(role, user, bookings)[i])@,
            ),
        role == Role::Customer ==> forall|i: int|
            0 <= i && i < visible(role, user, bookings).len() ==> (#[trigger] visible(
                role,
                user,
                bookings,
            )[i]).customer_id@ == user,
        forall|i: int|
            0 <= i && i < bookings.len() && may_access(role, user, (#[trigger] bookings[i])@)
                ==> visible(role, user, bookings).contains(bookings[i]),
        role != Role::Customer ==> visible(role, user, bookings) == bookings,
{
    let pred = |b: Booking| may_access(role, user, b@);
    let shown = bookings.filter(pred);
    broadcast use vstd::seq_lib::group_filter_ensures;

    assert forall|i: int| 0 <= i && i < shown.len() implies may_access(
        role,
        user,
        (#[trigger] shown[i])@,
    ) by {
        assert(pred(shown[i]));
    }
    assert forall|i: int|
        0 <= i && i < bookings.len() && may_access(
            role,
            user,
            (#[trigger] bookings[i])@,
        ) implies shown.contains(bookings[i]) by {
        assert(pred(bookings[i]));
    }
    if role != Role::Customer {
        lemma_filter_keeps_all(bookings, pred);
    }
}

proof fn lemma_filter_keeps_all(bookings: Seq<Booking>, pred: spec_fn(Booking) -> bool)
    requires
        forall|b: Booking| #[trigger] pred(b),
    ensures
        bookings.filter(pred) == bookings,
    decreases bookings.len(),
{
    reveal(Seq::filter);
    if bookings.len() > 0 {
        lemma_filter_keeps_all(bookings.drop_last(), pred);
        assert(bookings.drop_last().push(bookings.last()) =~= bookings);
    }
}

/// The filter for a listing admits a stored booking exactly if the caller
/// may see it.
pub proof fn lemma_list_filter_meaning(role: Role, user: Seq<char>, booking: BookingView)
    ensures
        satisfied_by(list_criteria(role, user), booking_record(booking)) <==> may_access(
            role,
            user,
            booking,
        ),
{
    crate::services::mongodb::booking::lemma_booking_texts_differ();
    let criteria = list_criteria(role, user);
    let record = booking_record(booking);
    assert(record["customer_id"@] == ValueView::Text(booking.customer_id));
    if role == Role::Customer {
        assert(criteria.contains_key("customer_id"@));
        if may_access(role, user, booking) {
            assert forall|field: Seq<char>| #[trigger] criteria.contains_key(field) implies met(
                criteria,
                record,
                field,
            ) by {}
        }
    }
}

/// A booking is admitted only if the search for bookings in its way has
/// ended and found none, and the vehicle was found; a search that has failed
/// ends the creation with an internal error, whatever the vehicle.
pub proof fn lemma_creation_fails_closed(
    request: CreateBookingRequest,
    overlap: AppResult<bool>,
    vehicle: AppResult<bool>,
)
    ensures
        create_verdict(request, overlap, vehicle) is None <==> dates_in_order(request) && overlap
            == Ok::<bool, AppError>(false) && vehicle == Ok::<bool, AppError>(true),
        dates_in_order(request) && overlap is Err ==> create_verdict(request, overlap, vehicle)
            == refusal(ErrorKind::InternalServerError, "Failed to check for booking conflicts."@),
{
}

/// Whether two bookings are in each other's way: both live, for the same
/// vehicle, with a day in common.
pub open spec fn clash(a: BookingView, b: BookingView) -> bool {
    a.vehicle_id == b.vehicle_id && a.is_live() && b.is_live() && overlaps(
        a.from_date,
        a.to_date,
        b.from_date,
        b.to_date,
    )
}

/// Whether no two of the bookings are in each other's way: at any time a
/// vehicle has at most one live booking for a day.
pub open spec fn calendar_free(bookings: Seq<Booking>) -> bool {
    forall|i: int, j: int| 0 <= i < j < bookings.len() ==> !clash(bookings[i]@, bookings[j]@)
}

/// A booking that is admitted only after the search for bookings in its way
/// has found none leaves the calendar free of clashes.
pub proof fn lemma_creation_keeps_calendar_free(bookings: Seq<Booking>, new: Booking)
    requires
        calendar_free(bookings),
        !any_conflict(bookings, new.vehicle_id, new.from_date, new.to_date),
    ensures
        calendar_free(bookings.push(new)),
{
    let after = bookings.push(new);
    assert forall|i: int, j: int| 0 <= i < j < after.len() implies !clash(after[i]@, after[j]@) by {
        if j < bookings.len() {
            assert(!clash(bookings[i]@, bookings[j]@));
        } else {
            assert(!conflicts(bookings[i]@, new.vehicle_id, new.from_date, new.to_date));
        }
    }
}

/// A legal change of state leaves the calendar free of clashes: no legal
/// move brings a booking back to life.
pub proof fn lemma_update_keeps_calendar_free(
    bookings: Seq<Booking>,
    i: int,
    role: Role,
    changed: Booking,
)
    requires
        calendar_free(bookings),
        0 <= i < bookings.len(),
        changed@ == (BookingView { status: changed@.status, ..bookings[i]@ }),
        changed@.status == bookings[i]@.status || may_change_status(
            role,
            bookings[i]@.status.tag,
            changed@.status.tag,
        ),
    ensures
        calendar_free(bookings.update(i, changed)),
{
    let after = bookings.update(i, changed);
    assert forall|a: int, b: int| 0 <= a < b < after.len() implies !clash(after[a]@, after[b]@) by {
        assert(!clash(bookings[a]@, bookings[b]@));
        assert(changed@.is_live() ==> bookings[i]@.is_live());
    }
}

} // verus!
