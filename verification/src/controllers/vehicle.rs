use crate::authentication::identity::{Identity, Role};
use crate::error::{follows, refusal, AppError, AppResult, ErrorKind, Refusal};
use crate::models::object_id::ObjectId;
use crate::models::vehicle::{
    text_view, CreateVehicleRequest, UpdateVehicleRequest, Vehicle, VehicleView,
};
use crate::models::vehicle_query::{
    order_view, wanted_order, FindOptions, VehicleFilters, VehiclePagination, VehicleQueryBuilder,
};
use crate::services::mongodb::filter::{ClauseView, Filter, ValueView};
use crate::services::mongodb::query_builder::QueryBuilder;
use crate::validator::vehicle::{
    brand_fits, brand_model_complaint, check_vehicle_type_permission, update_vehicle_verdict,
    validate_brand_model, validate_update_vehicle, vehicle_type_verdict,
};
use vstd::prelude::*;
use vstd::string::*;

verus! {

/// What a caller is told who asks for a new vehicle.
pub open spec fn create_verdict(request: CreateVehicleRequest) -> Option<Refusal> {
    match brand_model_complaint(request.brand, request.metadata) {
        Some(message) => refusal(ErrorKind::BadRequest, message),
        None => None,
    }
}

/// The vehicle that a request leads to, to be stored: added at `added_at` by
/// the caller. A brand that does not fit the metadata is turned down.
pub fn create(
    identity: &Identity,
    request: CreateVehicleRequest,
    added_at: i64,
) -> (r: AppResult<Vehicle>)
    ensures
        follows(r, create_verdict(request)),
        r is Ok <==> brand_fits(request.brand, request.metadata),
        r matches Ok(vehicle) ==> vehicle@ == (VehicleView {
            id: None,
            brand: request.brand,
            metadata: request.metadata,
            description: text_view(request.description),
            price_by_day: request.price_by_day,
            year_of_production: request.year_of_production,
            added_at,
            added_by: identity.user_id@,
        }),
{
    match validate_brand_model(&request.brand, &request.metadata) {
        Err(message) => {
            return Err(AppError::bad_request(message.as_str()));
        },
        Ok(()) => {},
    }
    match Vehicle::new(request, identity.user_id.clone(), added_at) {
        Ok(vehicle) => Ok(vehicle),
        Err(message) => Err(AppError::bad_request(message.as_str())),
    }
}

/// The vehicle with the identifier that the store gave it.
pub fn stored(vehicle: Vehicle, id: ObjectId) -> (r: Vehicle)
    ensures
        r@ == (VehicleView { id: Some(id), ..vehicle@ }),
{
    let mut vehicle = vehicle;
    vehicle.id = Some(id);
    vehicle
}

/// The filter and the options that the store is asked for a listing of
/// vehicles.
pub fn list(
    filters: VehicleFilters,
    pagination: VehiclePagination,
) -> (query: (Filter, FindOptions))
    requires
        pagination.spec_in_bounds(),
    ensures
        query.0@ == filters.criteria(),
        query.1.limit == pagination.capped_limit(),
        query.1.skip == pagination.wanted_skip(),
        order_view(query.1.sort) == wanted_order(pagination.sort),
{
    let query_builder = VehicleQueryBuilder {
        filters: Some(filters),
        pagination: Some(pagination),
    };
    query_builder.build_query()
}

/// The clause that asks for the record with an identifier.
pub open spec fn id_criteria(field: Seq<char>, id: ObjectId) -> Map<Seq<char>, ClauseView> {
    Map::<Seq<char>, ClauseView>::empty().insert(field, ClauseView::Equal(ValueView::Id(id)))
}

/// The filter that admits the records that hold an identifier in a field:
/// the record itself by `_id`, the bookings of a vehicle by `vehicle_id`.
pub fn id_filter(field: &str, id: ObjectId) -> (filter: Filter)
    ensures
        filter@ == id_criteria(field@, id),
{
    let builder = QueryBuilder::new();
    let mut filter = Filter::new();
    let mut ids: Vec<ObjectId> = Vec::new();
    ids.push(id);
    let ids = Some(ids);
    builder.add_filter(&mut filter, field, &ids);
    proof {
        let wanted = crate::services::mongodb::query_builder::wanted_values(ids);
        assert(wanted->Some_0 =~= seq![ValueView::Id(id)]);
    }
    filter
}

/// What a caller is told who asks to update a vehicle.
pub open spec fn change_verdict(
    role: Role,
    found: Option<Vehicle>,
    request: UpdateVehicleRequest,
) -> Option<Refusal> {
    match found {
        None => refusal(ErrorKind::NotFound, "Vehicle not found"@),
        Some(vehicle) => update_vehicle_verdict(
            role,
            vehicle.metadata.spec_vehicle_type(),
            request.description_view(),
            request.price_by_day,
        ),
    }
}

/// The description of a vehicle after an update: the one that the request
/// sets, which may be none, or the one it had where the request sets none.
pub open spec fn description_after(
    current: Option<Seq<char>>,
    request: UpdateVehicleRequest,
) -> Option<Seq<char>> {
    match request.description_view() {
        None => current,
        Some(description) => description,
    }
}

/// The price of a vehicle after an update.
pub open spec fn price_after(current: i64, request: UpdateVehicleRequest) -> i64 {
    match request.price_by_day {
        None => current,
        Some(price) => price,
    }
}

/// The vehicle as it is to be stored after an update: `found` is the vehicle
/// as the store holds it. Only the description and the price change.
pub fn update(
    identity: &Identity,
    found: Option<Vehicle>,
    request: UpdateVehicleRequest,
) -> (r: AppResult<Vehicle>)
    ensures
        follows(r, change_verdict(identity.role, found, request)),
        r matches Ok(vehicle) ==> vehicle@ == (VehicleView {
            description: description_after(found->Some_0@.description, request),
            price_by_day: price_after(found->Some_0.price_by_day, request),
            ..found->Some_0@
        }),
{
    let mut vehicle = match found {
        None => {
            return Err(AppError::not_found("Vehicle not found"));
        },
        Some(vehicle) => vehicle,
    };
    match validate_update_vehicle(identity, &vehicle, &request) {
        Err(e) => {
            return Err(e);
        },
        Ok(()) => {},
    }
    if let Some(description) = request.description {
        vehicle.description = description;
    }
    if let Some(price_by_day) = request.price_by_day {
        vehicle.price_by_day = price_by_day;
    }
    Ok(vehicle)
}

/// What the caller gets after the store was told to replace a vehicle: the
/// vehicle as it was sent, or an internal error where the store found none
/// to replace.
pub fn replaced(vehicle: Vehicle, outcome: Option<Vehicle>) -> (r: AppResult<Vehicle>)
    ensures
        match outcome {
            Some(_) => r == Ok::<Vehicle, AppError>(vehicle),
            None => r is Err && r->Err_0.is_internal("Failed to update vehicle"@),
        },
{
    match outcome {
        Some(_) => Ok(vehicle),
        None => Err(AppError::internal_server_error("Failed to update vehicle")),
    }
}

/// What a caller is told who asks for the bookings of a vehicle.
pub open spec fn bookings_verdict(role: Role, found: Option<Vehicle>) -> Option<Refusal> {
    match found {
        None => refusal(ErrorKind::NotFound, "Vehicle not found"@),
        Some(vehicle) => vehicle_type_verdict(role, vehicle.metadata.spec_vehicle_type()),
    }
}

/// The filter for the bookings of a vehicle, for a caller who is competent
/// for the vehicle's category: `found` is the vehicle as the store holds it.
pub fn list_bookings(
    identity: &Identity,
    found: &Option<Vehicle>,
    vehicle_id: ObjectId,
) -> (r: AppResult<Filter>)
    ensures
        follows(r, bookings_verdict(identity.role, *found)),
        r matches Ok(filter) ==> filter@ == id_criteria("vehicle_id"@, vehicle_id),
{
    let vehicle = match found {
        None => {
            return Err(AppError::not_found("Vehicle not found"));
        },
        Some(vehicle) => vehicle,
    };
    match check_vehicle_type_permission(identity, vehicle) {
        Err(e) => {
            return Err(e);
        },
        Ok(()) => {},
    }
    Ok(id_filter("vehicle_id", vehicle_id))
}

} // verus!
