use bson::Bson;
use vehicle_booking::models::{Booking, BookingStatus, Date, ObjectId};
use vehicle_booking::services::mongodb::booking::{has_overlapping_bookings, overlap_filter};
use vehicle_booking::services::mongodb::{Clause, Value};

fn day(y: i32, m: u32, d: u32) -> Date {
    Date::from_ymd(y, m, d).unwrap()
}

fn vehicle() -> ObjectId {
    ObjectId::new(7, 7)
}

fn booking(vehicle_id: ObjectId, from: Date, to: Date, status: BookingStatus) -> Booking {
    Booking {
        id: None,
        vehicle_id,
        customer_id: "c1".to_string(),
        from_date: from,
        to_date: to,
        status,
        order_date: 0,
    }
}

#[test]
fn touching_ranges_overlap_and_the_next_day_does_not() {
    let store = vec![booking(
        vehicle(),
        day(2024, 6, 1),
        day(2024, 6, 10),
        BookingStatus::Confirmed,
    )];
    assert!(has_overlapping_bookings(&store, vehicle(), day(2024, 6, 10), day(2024, 6, 15)));
    assert!(!has_overlapping_bookings(&store, vehicle(), day(2024, 6, 11), day(2024, 6, 15)));
    assert!(has_overlapping_bookings(&store, vehicle(), day(2024, 5, 20), day(2024, 6, 1)));
    assert!(!has_overlapping_bookings(&store, vehicle(), day(2024, 5, 20), day(2024, 5, 31)));
    assert!(has_overlapping_bookings(&store, vehicle(), day(2024, 6, 3), day(2024, 6, 4)));
    assert!(has_overlapping_bookings(&store, vehicle(), day(2024, 1, 1), day(2024, 12, 31)));
}

#[test]
fn only_live_bookings_of_the_same_vehicle_block() {
    let from = day(2024, 6, 1);
    let to = day(2024, 6, 10);
    for (status, blocks) in [
        (BookingStatus::Pending, true),
        (BookingStatus::Confirmed, true),
        (BookingStatus::Rejected("no".to_string()), false),
        (BookingStatus::Cancelled("no".to_string()), false),
    ] {
        let store = vec![booking(vehicle(), from, to, status)];
        assert_eq!(has_overlapping_bookings(&store, vehicle(), from, to), blocks);
        assert!(!has_overlapping_bookings(&store, ObjectId::new(7, 8), from, to));
    }
    assert!(!has_overlapping_bookings(&Vec::new(), vehicle(), from, to));
}

#[test]
fn one_conflict_among_many_is_found() {
    let store = vec![
        booking(vehicle(), day(2024, 1, 1), day(2024, 1, 5), BookingStatus::Confirmed),
        booking(vehicle(), day(2024, 3, 1), day(2024, 3, 5), BookingStatus::Cancelled("x".into())),
        booking(ObjectId::new(1, 1), day(2024, 3, 1), day(2024, 3, 5), BookingStatus::Pending),
        booking(vehicle(), day(2024, 5, 1), day(2024, 5, 5), BookingStatus::Pending),
    ];
    assert!(!has_overlapping_bookings(&store, vehicle(), day(2024, 3, 1), day(2024, 3, 5)));
    assert!(has_overlapping_bookings(&store, vehicle(), day(2024, 4, 30), day(2024, 5, 1)));
    assert!(has_overlapping_bookings(&store, vehicle(), day(2023, 12, 30), day(2024, 1, 1)));
    assert!(!has_overlapping_bookings(&store, vehicle(), day(2024, 1, 6), day(2024, 4, 30)));
}

#[test]
fn the_overlap_filter_asks_for_live_bookings_in_the_range() {
    let filter = overlap_filter(vehicle(), day(2024, 7, 1), day(2024, 7, 5));
    assert_eq!(filter.len(), 4);
    assert_eq!(filter.get("vehicle_id"), Some(&Clause::Equal(Value::Id(vehicle()))));
    assert_eq!(
        filter.get("from_date"),
        Some(&Clause::Range { min: None, max: Some(Value::Day(day(2024, 7, 5))) })
    );
    assert_eq!(
        filter.get("to_date"),
        Some(&Clause::Range { min: Some(Value::Day(day(2024, 7, 1))), max: None })
    );
    assert_eq!(
        filter.get("status"),
        Some(&Clause::In(vec![
            Value::Text("PENDING".to_string()),
            Value::Text("CONFIRMED".to_string())
        ]))
    );
}

#[test]
fn days_go_to_the_store_as_iso_text() {
    let filter = overlap_filter(vehicle(), day(2024, 7, 1), day(987, 12, 31));
    let doc = filter.to_document();
    assert_eq!(doc.get_document("from_date").unwrap().get_str("$lte").unwrap(), "0987-12-31");
    assert_eq!(doc.get_document("to_date").unwrap().get_str("$gte").unwrap(), "2024-07-01");
    assert_eq!(
        doc.get_object_id("vehicle_id").unwrap().bytes(),
        [0, 0, 0, 7, 0, 0, 0, 0, 0, 0, 0, 7]
    );
    assert_eq!(
        doc.get_document("status").unwrap().get_array("$in").unwrap(),
        &vec![Bson::String("PENDING".into()), Bson::String("CONFIRMED".into())]
    );
    let first = overlap_filter(vehicle(), day(0, 1, 1), day(9999, 12, 31));
    let doc = first.to_document();
    assert_eq!(doc.get_document("from_date").unwrap().get_str("$lte").unwrap(), "9999-12-31");
    assert_eq!(doc.get_document("to_date").unwrap().get_str("$gte").unwrap(), "0000-01-01");
}
