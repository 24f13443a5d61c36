//! Role-based rental booking, with its rules proved.
//!
//! Customers reserve vehicles for ranges of days; administrators and managers
//! keep the fleet and rule on the reservations. This library holds what is
//! decided along the way, each decision with a contract that says exactly
//! when it falls how:
//!
//! - [`validator::booking`]: which change of a booking's state a caller of a
//!   role may make, and whose bookings a caller may see;
//! - [`services::mongodb::booking`]: when a reservation collides with a
//!   booking that is still live;
//! - [`validator::vehicle`]: whether brand, model and fuel type of a vehicle
//!   fit together, and who may manage it;
//! - [`services::mongodb`]: how the criteria of a search become one filter,
//!   what that filter means for a stored record, and the document that asks
//!   the store for it;
//! - [`controllers`]: what each request leads to once the store has answered.
//!
//! The library does no input or output. The caller asks the store and hands
//! over what it said.

pub mod authentication;
pub mod controllers;
pub mod error;
pub mod models;
pub mod routes;
pub mod services;
pub mod util;
pub mod validator;
