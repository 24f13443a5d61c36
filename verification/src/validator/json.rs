use crate::authentication::identity::Identity;
use crate::models::vehicle::CreateVehicleRequest;
use crate::validator::vehicle::{complains, create_request_complaint};
use vstd::prelude::*;
use vstd::string::*;

verus! {

/// A request whose rules depend on who sends it.
pub trait CustomValidateTrait {
    /// What is wrong with the request, if anything.
    spec fn complaint(&self) -> Option<Seq<char>>;

    fn validate(&self, identity: &Identity) -> (r: Result<(), String>)
        ensures
            complains(r, self.complaint()),
    ;
}

impl CustomValidateTrait for CreateVehicleRequest {
    open spec fn complaint(&self) -> Option<Seq<char>> {
        create_request_complaint(
            self.metadata,
            self.description_view(),
            self.price_by_day,
            self.year_of_production,
        )
    }

    fn validate(&self, identity: &Identity) -> (r: Result<(), String>) {
        CreateVehicleRequest::validate(self, identity)
    }
}

/// The body of a request that has passed its rules.
#[derive(Debug)]
pub struct Json<T>(pub T);

impl<T> Json<T> {
    /// The body itself.
    pub fn into_inner(self) -> (inner: T)
        ensures
            inner == self.0,
    {
        self.0
    }

    /// A look at the body.
    pub fn as_ref(&self) -> (inner: &T)
        ensures
            *inner == self.0,
    {
        &self.0
    }
}

impl<T: CustomValidateTrait> Json<T> {
    /// The body of a request from a caller, if it passes its rules; else what
    /// is wrong with it.
    pub fn from_request(identity: &Identity, body: T) -> (r: Result<Json<T>, String>)
        ensures
            match body.complaint() {
                None => r is Ok && r->Ok_0.0 == body,
                Some(message) => r is Err && r->Err_0@ == message,
            },
    {
        match body.validate(identity) {
            Ok(()) => Ok(Json(body)),
            Err(message) => Err(message),
        }
    }
}

} // verus!
