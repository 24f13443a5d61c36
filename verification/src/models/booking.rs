use crate::models::date::Date;
use crate::models::object_id::ObjectId;
use vstd::prelude::*;
use vstd::string::*;

verus! {

/// The state of a booking without the reason it may carry.
#[derive(Clone, Copy, Debug, PartialEq, Eq, Hash, Structural)]
pub enum StatusTag {
    Pending,
    Confirmed,
    Rejected,
    Cancelled,
}

/// The state of a booking. The two final states carry a reason.
#[derive(Clone, Debug, PartialEq)]
pub enum BookingStatus {
    Pending,
    Confirmed,
    Rejected(String),
    Cancelled(String),
}

/// What a booking status is in contracts: its tag and its reason, empty where
/// the state has none.
pub ghost struct StatusView {
    pub tag: StatusTag,
    pub reason: Seq<char>,
}

impl StatusTag {
    /// A live booking still occupies the calendar.
    pub open spec fn is_live(self) -> bool {
        self == StatusTag::Pending || self == StatusTag::Confirmed
    }

    /// No transition leaves a terminal state.
    pub open spec fn is_terminal(self) -> bool {
        self == StatusTag::Rejected || self == StatusTag::Cancelled
    }

    /// The canonical text of the state.
    pub open spec fn name(self) -> Seq<char> {
        match self {
            StatusTag::Pending => "PENDING"@,
            StatusTag::Confirmed => "CONFIRMED"@,
            StatusTag::Rejected => "REJECTED"@,
            StatusTag::Cancelled => "CANCELLED"@,
        }
    }

    pub fn to_string(&self) -> (s: String)
        ensures
            s@ == self.name(),
    {
        match self {
            StatusTag::Pending => "PENDING".to_owned(),
            StatusTag::Confirmed => "CONFIRMED".to_owned(),
            StatusTag::Rejected => "REJECTED".to_owned(),
            StatusTag::Cancelled => "CANCELLED".to_owned(),
        }
    }
}

impl View for BookingStatus {
    type V = StatusView;

    open spec fn view(&self) -> StatusView {
        match self {
            BookingStatus::Pending => StatusView { tag: StatusTag::Pending, reason: Seq::empty() },
            BookingStatus::Confirmed => StatusView {
                tag: StatusTag::Confirmed,
                reason: Seq::empty(),
            },
            BookingStatus::Rejected(reason) => StatusView {
                tag: StatusTag::Rejected,
                reason: reason@,
            },
            BookingStatus::Cancelled(reason) => StatusView {
                tag: StatusTag::Cancelled,
                reason: reason@,
            },
        }
    }
}

impl BookingStatus {
    pub open spec fn spec_tag(&self) -> StatusTag {
        self@.tag
    }

    #[verifier::when_used_as_spec(spec_tag)]
    pub fn tag(&self) -> (t: StatusTag)
        ensures
            t == self@.tag,
    {
        match self {
            BookingStatus::Pending => StatusTag::Pending,
            BookingStatus::Confirmed => StatusTag::Confirmed,
            BookingStatus::Rejected(_) => StatusTag::Rejected,
            BookingStatus::Cancelled(_) => StatusTag::Cancelled,
        }
    }

    /// Whether a booking in this state still occupies the calendar.
    pub fn is_live(&self) -> (r: bool)
        ensures
            r == self@.tag.is_live(),
    {
        match self {
            BookingStatus::Pending | BookingStatus::Confirmed => true,
            _ => false,
        }
    }

    /// The canonical text of the state, without the reason.
    pub fn to_string(&self) -> (s: String)
        ensures
            s@ == self@.tag.name(),
    {
        self.tag().to_string()
    }

    /// A copy with the same tag and the same reason.
    pub fn duplicate(&self) -> (r: BookingStatus)
        ensures
            r@ == self@,
    {
        match self {
            BookingStatus::Pending => BookingStatus::Pending,
            BookingStatus::Confirmed => BookingStatus::Confirmed,
            BookingStatus::Rejected(reason) => BookingStatus::Rejected(reason.clone()),
            BookingStatus::Cancelled(reason) => BookingStatus::Cancelled(reason.clone()),
        }
    }
}

/// A reservation of one vehicle for the days from `from_date` to `to_date`,
/// both included.
#[derive(Clone, Debug)]
pub struct Booking {
    pub id: Option<ObjectId>,
    pub vehicle_id: ObjectId,
    pub customer_id: String,
    pub from_date: Date,
    pub to_date: Date,
    pub status: BookingStatus,
    /// When the booking was made, in milliseconds since the Unix epoch.
    pub order_date: i64,
}

pub ghost struct BookingView {
    pub id: Option<ObjectId>,
    pub vehicle_id: ObjectId,
    pub customer_id: Seq<char>,
    pub from_date: Date,
    pub to_date: Date,
    pub status: StatusView,
    pub order_date: i64,
}

impl View for Booking {
    type V = BookingView;

    open spec fn view(&self) -> BookingView {
        BookingView {
            id: self.id,
            vehicle_id: self.vehicle_id,
            customer_id: self.customer_id@,
            from_date: self.from_date,
            to_date: self.to_date,
            status: self.status@,
            order_date: self.order_date,
        }
    }
}

impl BookingView {
    /// Whether the booking still occupies the calendar.
    pub open spec fn is_live(self) -> bool {
        self.status.tag.is_live()
    }
}

/// What a customer sends to reserve a vehicle.
#[derive(Clone, Debug)]
pub struct CreateBookingRequest {
    pub vehicle_id: ObjectId,
    pub from_date: Date,
    pub to_date: Date,
}

/// What a caller sends to change a booking.
#[derive(Clone, Debug)]
pub struct UpdateBookingRequest {
    pub status: Option<BookingStatus>,
}

impl Booking {
    /// The booking that a request asks for: pending, not yet stored, made at
    /// `order_date` by the customer `customer_id`.
    pub fn new(request: CreateBookingRequest, customer_id: String, order_date: i64) -> (b: Booking)
        ensures
            b@ == (BookingView {
                id: None,
                vehicle_id: request.vehicle_id,
                customer_id: customer_id@,
                from_date: request.from_date,
                to_date: request.to_date,
                status: StatusView { tag: StatusTag::Pending, reason: Seq::empty() },
                order_date,
            }),
    {
        Booking {
            id: None,
            vehicle_id: request.vehicle_id,
            customer_id,
            from_date: request.from_date,
            to_date: request.to_date,
            status: BookingStatus::Pending,
            order_date,
        }
    }
}

} // verus!
