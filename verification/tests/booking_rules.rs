use vehicle_booking::authentication::identity::{Identity, Role};
use vehicle_booking::error::{AppError, ErrorKind};
use vehicle_booking::models::{
    Booking, BookingStatus, CreateBookingRequest, Date, ObjectId, StatusTag, UpdateBookingRequest,
};
use vehicle_booking::validator::booking::{
    check_booking_update_permission, check_booking_view_permission, validate_booking_creation,
    validate_booking_dates, validate_customer_status_change, validate_non_customer_status_change,
    validate_update_booking,
};

fn who(role: Role, user: &str) -> Identity {
    Identity { role, user_id: user.to_string() }
}

fn day(y: i32, m: u32, d: u32) -> Date {
    Date::from_ymd(y, m, d).unwrap()
}

fn booking_of(customer: &str, status: BookingStatus) -> Booking {
    Booking {
        id: Some(ObjectId::new(1, 1)),
        vehicle_id: ObjectId::new(9, 9),
        customer_id: customer.to_string(),
        from_date: day(2024, 6, 1),
        to_date: day(2024, 6, 10),
        status,
        order_date: 1_717_200_000_000,
    }
}

fn states() -> Vec<BookingStatus> {
    vec![
        BookingStatus::Pending,
        BookingStatus::Confirmed,
        BookingStatus::Rejected("no".to_string()),
        BookingStatus::Cancelled("why".to_string()),
    ]
}

fn refused(r: Result<(), AppError>, kind: ErrorKind, message: &str) {
    let e = r.unwrap_err();
    assert_eq!(e.kind(), kind);
    assert_eq!(e.message(), message);
}

#[test]
fn customer_may_cancel_a_live_booking_only() {
    let cancel = BookingStatus::Cancelled("changed my mind".to_string());
    assert!(validate_customer_status_change(&BookingStatus::Pending, &cancel).is_ok());
    assert!(validate_customer_status_change(&BookingStatus::Confirmed, &cancel).is_ok());
    refused(
        validate_customer_status_change(&BookingStatus::Rejected("r".to_string()), &cancel),
        ErrorKind::Forbidden,
        "You can only cancel bookings that are pending or confirmed.",
    );
    refused(
        validate_customer_status_change(&BookingStatus::Cancelled("c".to_string()), &cancel),
        ErrorKind::Forbidden,
        "You can only cancel bookings that are pending or confirmed.",
    );
}

#[test]
fn customer_may_not_confirm_reject_or_reopen() {
    for current in states() {
        for new in [
            BookingStatus::Pending,
            BookingStatus::Confirmed,
            BookingStatus::Rejected("x".to_string()),
        ] {
            refused(
                validate_customer_status_change(&current, &new),
                ErrorKind::Forbidden,
                "Customers can only cancel their bookings.",
            );
        }
    }
}

#[test]
fn staff_may_confirm_or_reject_pending_and_reject_confirmed() {
    let confirm = BookingStatus::Confirmed;
    let reject = BookingStatus::Rejected("vehicle broke down".to_string());
    assert!(validate_non_customer_status_change(&BookingStatus::Pending, &confirm).is_ok());
    assert!(validate_non_customer_status_change(&BookingStatus::Pending, &reject).is_ok());
    assert!(validate_non_customer_status_change(&BookingStatus::Confirmed, &reject).is_ok());
    refused(
        validate_non_customer_status_change(&BookingStatus::Confirmed, &confirm),
        ErrorKind::BadRequest,
        "Confirmed bookings can only be rejected.",
    );
    for terminal in [
        BookingStatus::Rejected("r".to_string()),
        BookingStatus::Cancelled("c".to_string()),
    ] {
        refused(
            validate_non_customer_status_change(&terminal, &confirm),
            ErrorKind::BadRequest,
            "Cannot modify rejected or cancelled bookings.",
        );
        refused(
            validate_non_customer_status_change(&terminal, &reject),
            ErrorKind::BadRequest,
            "Cannot modify rejected or cancelled bookings.",
        );
    }
}

#[test]
fn staff_may_not_cancel_or_reopen() {
    for current in states() {
        refused(
            validate_non_customer_status_change(
                &current,
                &BookingStatus::Cancelled("x".to_string()),
            ),
            ErrorKind::Forbidden,
            "Only customers can cancel bookings. Use reject status instead.",
        );
        refused(
            validate_non_customer_status_change(&current, &BookingStatus::Pending),
            ErrorKind::Forbidden,
            "Cannot change status back to pending.",
        );
    }
}

#[test]
fn status_transition_table() {
    let c1 = who(Role::Customer, "c1");
    let admin = who(Role::Admin, "Admin");
    let to = |status: BookingStatus| UpdateBookingRequest { status: Some(status) };

    // Customer: Pending -> Cancelled succeeds.
    let pending = booking_of("c1", BookingStatus::Pending);
    assert!(validate_update_booking(&c1, &pending, &to(BookingStatus::Cancelled("x".into())))
        .is_ok());
    // Customer: Pending -> Confirmed fails Forbidden.
    let e = validate_update_booking(&c1, &pending, &to(BookingStatus::Confirmed)).unwrap_err();
    assert_eq!(e.kind(), ErrorKind::Forbidden);
    assert_eq!(e.status_code(), 403);
    // Admin: Confirmed -> Rejected succeeds.
    let confirmed = booking_of("c1", BookingStatus::Confirmed);
    assert!(
        validate_update_booking(&admin, &confirmed, &to(BookingStatus::Rejected("x".into())))
            .is_ok()
    );
    // Admin: Rejected -> Confirmed fails.
    let rejected = booking_of("c1", BookingStatus::Rejected("r".into()));
    assert!(validate_update_booking(&admin, &rejected, &to(BookingStatus::Confirmed)).is_err());
    // Any role: X -> Pending fails.
    for role in [Role::Admin, Role::CarManager, Role::MotorbikeManager, Role::Customer] {
        for current in states() {
            let b = booking_of("c1", current);
            let r = validate_update_booking(&who(role, "c1"), &b, &to(BookingStatus::Pending));
            assert!(r.is_err(), "{:?} from {:?}", role, b.status);
        }
    }
}

#[test]
fn managers_follow_the_same_table_as_the_administrator() {
    for role in [Role::CarManager, Role::MotorbikeManager] {
        let id = who(role, "m");
        let pending = booking_of("c1", BookingStatus::Pending);
        let confirmed = booking_of("c1", BookingStatus::Confirmed);
        let request = UpdateBookingRequest { status: Some(BookingStatus::Confirmed) };
        assert!(validate_update_booking(&id, &pending, &request).is_ok());
        let e = validate_update_booking(&id, &confirmed, &request).unwrap_err();
        assert_eq!(e.kind(), ErrorKind::BadRequest);
    }
}

#[test]
fn a_request_without_status_is_always_legal_for_the_owner_and_staff() {
    let request = UpdateBookingRequest { status: None };
    for current in states() {
        let b = booking_of("c1", current);
        assert!(validate_update_booking(&who(Role::Customer, "c1"), &b, &request).is_ok());
        assert!(validate_update_booking(&who(Role::Admin, "a"), &b, &request).is_ok());
        refused(
            validate_update_booking(&who(Role::Customer, "c2"), &b, &request),
            ErrorKind::Forbidden,
            "You can only update your own bookings.",
        );
    }
}

#[test]
fn ownership_is_checked_before_the_change_of_state() {
    let b = booking_of("c1", BookingStatus::Pending);
    let request = UpdateBookingRequest { status: Some(BookingStatus::Confirmed) };
    refused(
        validate_update_booking(&who(Role::Customer, "c2"), &b, &request),
        ErrorKind::Forbidden,
        "You can only update your own bookings.",
    );
    refused(
        validate_update_booking(&who(Role::Customer, "c1"), &b, &request),
        ErrorKind::Forbidden,
        "Customers can only cancel their bookings.",
    );
}

#[test]
fn view_and_update_permission_follow_ownership() {
    let b = booking_of("c1", BookingStatus::Pending);
    for role in [Role::Admin, Role::CarManager, Role::MotorbikeManager] {
        assert!(check_booking_view_permission(&who(role, "x"), &b).is_ok());
        assert!(check_booking_update_permission(&who(role, "x"), &b).is_ok());
    }
    assert!(check_booking_view_permission(&who(Role::Customer, "c1"), &b).is_ok());
    assert!(check_booking_update_permission(&who(Role::Customer, "c1"), &b).is_ok());
    refused(
        check_booking_view_permission(&who(Role::Customer, "c2"), &b),
        ErrorKind::Forbidden,
        "You can only view your own bookings.",
    );
    refused(
        check_booking_update_permission(&who(Role::Customer, "c2"), &b),
        ErrorKind::Forbidden,
        "You can only update your own bookings.",
    );
}

#[test]
fn creation_needs_the_first_day_before_the_last() {
    let c1 = who(Role::Customer, "c1");
    let request = |from: Date, to: Date| CreateBookingRequest {
        vehicle_id: ObjectId::new(9, 9),
        from_date: from,
        to_date: to,
    };
    let free: Result<bool, AppError> = Ok(false);
    let taken: Result<bool, AppError> = Ok(true);
    let broken: Result<bool, AppError> = Err(AppError::internal_server_error("down"));

    let good = request(day(2024, 7, 1), day(2024, 7, 5));
    assert_eq!(validate_booking_dates(&good), Ok(()));
    assert_eq!(validate_booking_creation(&c1, &good, &free), Ok(()));
    assert_eq!(
        validate_booking_creation(&c1, &good, &taken),
        Err("Vehicle is already booked for overlapping dates.".to_string())
    );
    assert_eq!(
        validate_booking_creation(&c1, &good, &broken),
        Err("Failed to check for booking conflicts.".to_string())
    );

    let same_day = request(day(2024, 7, 1), day(2024, 7, 1));
    let backwards = request(day(2024, 7, 5), day(2024, 7, 1));
    for bad in [same_day, backwards] {
        assert_eq!(
            validate_booking_dates(&bad),
            Err("from_date must be before to_date".to_string())
        );
        for overlap in [&free, &taken, &broken] {
            assert_eq!(
                validate_booking_creation(&c1, &bad, overlap),
                Err("from_date must be before to_date".to_string())
            );
        }
    }
}

#[test]
fn status_tags_and_texts() {
    assert_eq!(BookingStatus::Pending.tag(), StatusTag::Pending);
    assert_eq!(BookingStatus::Cancelled("x".into()).tag(), StatusTag::Cancelled);
    assert_eq!(BookingStatus::Pending.to_string(), "PENDING");
    assert_eq!(BookingStatus::Confirmed.to_string(), "CONFIRMED");
    assert_eq!(BookingStatus::Rejected("Invalid dates".into()).to_string(), "REJECTED");
    assert_eq!(BookingStatus::Cancelled("User request".into()).to_string(), "CANCELLED");
    assert!(BookingStatus::Pending.is_live());
    assert!(BookingStatus::Confirmed.is_live());
    assert!(!BookingStatus::Rejected("x".into()).is_live());
    assert!(!BookingStatus::Cancelled("x".into()).is_live());
    let status = BookingStatus::Cancelled("User request".into());
    assert_eq!(status.duplicate(), status);
}

#[test]
fn dates_know_the_calendar() {
    assert!(Date::from_ymd(2024, 2, 29).is_some());
    assert!(Date::from_ymd(2023, 2, 29).is_none());
    assert!(Date::from_ymd(1900, 2, 29).is_none());
    assert!(Date::from_ymd(2000, 2, 29).is_some());
    assert!(Date::from_ymd(2024, 4, 31).is_none());
    assert!(Date::from_ymd(2024, 12, 31).is_some());
    assert!(Date::from_ymd(2024, 13, 1).is_none());
    assert!(Date::from_ymd(2024, 0, 1).is_none());
    assert!(Date::from_ymd(2024, 1, 0).is_none());
    assert!(Date::from_ymd(-1, 1, 1).is_none());
    assert!(Date::from_ymd(10000, 1, 1).is_none());
    assert!(Date::from_ymd(0, 1, 1).is_some());
    let d = day(2024, 6, 10);
    assert_eq!((d.year(), d.month(), d.day()), (2024, 6, 10));
    assert_eq!(d.ymd(), (2024, 6, 10));
    assert!(day(2024, 6, 10).le(day(2024, 6, 10)));
    assert!(!day(2024, 6, 10).lt(day(2024, 6, 10)));
    assert!(day(2023, 12, 31).lt(day(2024, 1, 1)));
    assert!(day(2024, 1, 31).lt(day(2024, 2, 1)));
    assert!(!day(2024, 2, 1).le(day(2024, 1, 31)));
}
