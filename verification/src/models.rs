//! The records of the rental business and the requests that change them.

pub mod booking;
pub mod date;
pub mod object_id;
pub mod vehicle;
pub mod vehicle_query;

pub use booking::{Booking, BookingStatus, CreateBookingRequest, StatusTag, UpdateBookingRequest};
pub use date::Date;
pub use object_id::ObjectId;
pub use vehicle::{
    Brand, CarMetadata, CarModel, CreateVehicleRequest, FuelType, Gearbox, MotorbikeMetadata,
    MotorbikeModel, UpdateVehicleRequest, Vehicle, VehicleMetadata, VehicleType,
};
pub use vehicle_query::{
    FindOptions, VehicleFilters, VehicleFiltersQuery, VehiclePagination, VehicleQueryBuilder,
    VehicleQueryBuilderBuilder,
};
