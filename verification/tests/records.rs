use vehicle_booking::models::{
    Booking, BookingStatus, Brand, CarMetadata, CarModel, Date, FuelType, Gearbox,
    MotorbikeMetadata, MotorbikeModel, ObjectId, Vehicle, VehicleFilters, VehicleMetadata,
};
use vehicle_booking::services::mongodb::booking::{has_overlapping_bookings, overlap_filter};
use vehicle_booking::services::mongodb::{Clause, Filter, QueryBuilder, StoredRecord, Value};

fn day(y: i32, m: u32, d: u32) -> Date {
    Date::from_ymd(y, m, d).unwrap()
}

fn priced(price: i64) -> StoredRecord {
    let mut record = StoredRecord::new();
    record.set("price", Value::Int64(price));
    record
}

#[test]
fn a_lower_bound_alone_admits_everything_from_it_upwards() {
    let mut filter = Filter::new();
    QueryBuilder::new().add_range_filter(&mut filter, "price", Some(100i64), None);
    assert!(!filter.admits(&priced(99)));
    assert!(filter.admits(&priced(100)));
    assert!(filter.admits(&priced(101)));
    assert!(filter.admits(&priced(i64::MAX)));
    assert!(!filter.admits(&priced(i64::MIN)));
    assert!(!filter.admits(&StoredRecord::new()));
}

#[test]
fn an_upper_bound_alone_admits_everything_up_to_it() {
    let mut filter = Filter::new();
    QueryBuilder::new().add_range_filter(&mut filter, "price", None, Some(500i64));
    assert!(filter.admits(&priced(i64::MIN)));
    assert!(filter.admits(&priced(499)));
    assert!(filter.admits(&priced(500)));
    assert!(!filter.admits(&priced(501)));
    assert!(!filter.admits(&priced(i64::MAX)));
}

#[test]
fn both_bounds_admit_what_lies_between_them() {
    let mut filter = Filter::new();
    QueryBuilder::new().add_range_filter(&mut filter, "price", Some(100i64), Some(500i64));
    for (price, admitted) in [(99, false), (100, true), (300, true), (500, true), (501, false)] {
        assert_eq!(filter.admits(&priced(price)), admitted, "for {}", price);
    }
    let mut empty = Filter::new();
    QueryBuilder::new().add_range_filter(&mut empty, "price", Some(500i64), Some(100i64));
    for price in [99, 100, 300, 500, 501] {
        assert!(!empty.admits(&priced(price)));
    }
}

#[test]
fn values_compare_across_widths_but_not_across_kinds() {
    assert!(Value::Int32(7).same(&Value::Int64(7)));
    assert!(Value::Int64(7).same(&Value::Int32(7)));
    assert!(!Value::Int32(7).same(&Value::Int64(8)));
    assert!(Value::Int32(-1).at_most(&Value::Int64(0)));
    assert!(!Value::Int64(1).at_most(&Value::Int32(0)));
    assert!(!Value::Int64(7).same(&Value::Instant(7)));
    assert!(!Value::Int64(7).at_most(&Value::Instant(8)));
    assert!(Value::Instant(7).at_most(&Value::Instant(7)));
    assert!(Value::Day(day(2024, 1, 31)).at_most(&Value::Day(day(2024, 2, 1))));
    assert!(!Value::Day(day(2024, 2, 1)).at_most(&Value::Day(day(2024, 1, 31))));
    assert!(Value::Text("a".into()).same(&Value::Text("a".into())));
    assert!(!Value::Text("a".into()).same(&Value::Text("b".into())));
    assert!(!Value::Text("a".into()).at_most(&Value::Text("b".into())));
    assert!(Value::Bool(true).same(&Value::Bool(true)));
    assert!(!Value::Bool(true).same(&Value::Int32(1)));
    assert!(Value::Id(ObjectId::new(1, 2)).same(&Value::Id(ObjectId::new(1, 2))));
    assert!(!Value::Id(ObjectId::new(1, 2)).same(&Value::Id(ObjectId::new(2, 1))));
    assert_eq!(Value::Text("x".into()).duplicate(), Value::Text("x".into()));
}

#[test]
fn clauses_admit_values() {
    let one = Clause::Equal(Value::Text("TESLA".into()));
    assert!(one.admits(&Value::Text("TESLA".into())));
    assert!(!one.admits(&Value::Text("MERCEDES".into())));
    let some = Clause::In(vec![Value::Int32(2020), Value::Int32(2021)]);
    assert!(some.admits(&Value::Int32(2021)));
    assert!(some.admits(&Value::Int64(2020)));
    assert!(!some.admits(&Value::Int32(2022)));
    assert!(!Clause::In(vec![]).admits(&Value::Int32(0)));
    let open = Clause::Range { min: None, max: None };
    assert!(open.admits(&Value::Text("anything".into())));
}

#[test]
fn a_record_keeps_the_last_value_of_a_field() {
    let mut record = StoredRecord::new();
    assert_eq!(record.get("a"), None);
    record.set("a", Value::Int32(1));
    record.set("b", Value::Bool(true));
    record.set("a", Value::Int32(2));
    assert_eq!(record.get("a"), Some(&Value::Int32(2)));
    assert_eq!(record.get("b"), Some(&Value::Bool(true)));
    assert_eq!(record.get("c"), None);
}

fn vehicles() -> Vec<Vehicle> {
    let electric = FuelType::ELECTRIC;
    let automatic = Gearbox::AUTOMATIC;
    let car = |brand, model, fuel_type, gearbox, seats, price, year| Vehicle {
        id: None,
        brand,
        metadata: VehicleMetadata::Car(CarMetadata {
            brand,
            model,
            seats,
            fuel_type,
            gearbox,
            engine_cc: 1991,
        }),
        description: None,
        price_by_day: price,
        year_of_production: year,
        added_at: 1_700_000_000_000,
        added_by: "Admin".to_string(),
    };
    let bike = |brand, sidecar, price| Vehicle {
        id: Some(ObjectId::new(0, 9)),
        brand,
        metadata: VehicleMetadata::Motorbike(MotorbikeMetadata {
            brand,
            model: MotorbikeModel::CRUISER,
            engine_cc: 900,
            has_sidecar: sidecar,
        }),
        description: Some("rides well".to_string()),
        price_by_day: price,
        year_of_production: 2019,
        added_at: 1_600_000_000_000,
        added_by: "Admin".to_string(),
    };
    vec![
        car(Brand::TESLA, CarModel::MODEL_3, electric, automatic, 5, 9_000, 2022),
        car(Brand::TESLA, CarModel::MODEL_X, electric, automatic, 7, 15_000, 2023),
        car(Brand::MERCEDES, CarModel::GLC, FuelType::DIESEL, Gearbox::MANUAL, 5, 11_000, 2020),
        bike(Brand::HONDA, false, 4_000),
        bike(Brand::HARLEY_DAVIDSON, true, 7_500),
    ]
}

fn matching(filters: &VehicleFilters) -> Vec<usize> {
    let filter = filters.to_filter();
    vehicles()
        .iter()
        .enumerate()
        .filter(|(_, v)| filter.admits(&v.to_record()))
        .map(|(i, _)| i)
        .collect()
}

#[test]
fn vehicle_criteria_pick_the_vehicles_that_meet_all_of_them() {
    assert_eq!(matching(&VehicleFilters::default()), vec![0, 1, 2, 3, 4]);
    let f = VehicleFilters { brand: Some(vec![Brand::TESLA]), ..Default::default() };
    assert_eq!(matching(&f), vec![0, 1]);
    let f = VehicleFilters { brand: Some(vec![Brand::TESLA, Brand::HONDA]), ..Default::default() };
    assert_eq!(matching(&f), vec![0, 1, 3]);
    let f = VehicleFilters { min_price: Some(9_000), ..Default::default() };
    assert_eq!(matching(&f), vec![0, 1, 2]);
    let f = VehicleFilters { max_price: Some(9_000), ..Default::default() };
    assert_eq!(matching(&f), vec![0, 3, 4]);
    let f =
        VehicleFilters { min_price: Some(5_000), max_price: Some(11_000), ..Default::default() };
    assert_eq!(matching(&f), vec![0, 2, 4]);
    let f = VehicleFilters { seats: Some(vec![7]), ..Default::default() };
    assert_eq!(matching(&f), vec![1]);
    let f = VehicleFilters { has_sidecar: Some(false), ..Default::default() };
    assert_eq!(matching(&f), vec![3]);
    let f = VehicleFilters { fuel_type: Some(vec![FuelType::DIESEL]), ..Default::default() };
    assert_eq!(matching(&f), vec![2]);
    let models = Some(vec!["CRUISER".to_string(), "GLC".to_string()]);
    let f = VehicleFilters { model: models, ..Default::default() };
    assert_eq!(matching(&f), vec![2, 3, 4]);
    let f = VehicleFilters { year_of_production: Some(vec![2019, 2023]), ..Default::default() };
    assert_eq!(matching(&f), vec![1, 3, 4]);
    let f = VehicleFilters { added_at_from: Some(1_650_000_000_000), ..Default::default() };
    assert_eq!(matching(&f), vec![0, 1, 2]);
    let f = VehicleFilters {
        brand: Some(vec![Brand::TESLA]),
        gearbox: Some(vec![Gearbox::AUTOMATIC]),
        max_price: Some(10_000),
        engine_cc: Some(vec![1991]),
        ..Default::default()
    };
    assert_eq!(matching(&f), vec![0]);
    let f = VehicleFilters { brand: Some(vec![Brand::BMW]), ..Default::default() };
    assert_eq!(matching(&f), Vec::<usize>::new());
}

#[test]
fn the_order_of_clauses_does_not_change_what_is_matched() {
    let builder = QueryBuilder::new();
    let mut one = Filter::new();
    builder.add_string_filter(&mut one, "brand", &Some(vec![Brand::TESLA, Brand::MERCEDES]));
    builder.add_range_filter(&mut one, "price_by_day", Some(10_000i64), None);
    builder.add_filter(&mut one, "metadata.seats", &Some(vec![5u8, 7]));
    let mut other = Filter::new();
    builder.add_filter(&mut other, "metadata.seats", &Some(vec![5u8, 7]));
    builder.add_range_filter(&mut other, "price_by_day", Some(10_000i64), None);
    builder.add_string_filter(&mut other, "brand", &Some(vec![Brand::TESLA, Brand::MERCEDES]));
    let mut matched = Vec::new();
    for (i, v) in vehicles().iter().enumerate() {
        let record = v.to_record();
        assert_eq!(one.admits(&record), other.admits(&record));
        if one.admits(&record) {
            matched.push(i);
        }
    }
    assert_eq!(matched, vec![1, 2]);
}

#[test]
fn the_overlap_filter_finds_what_the_scan_finds() {
    let v = ObjectId::new(7, 7);
    let booking = |vehicle_id, from, to, status| Booking {
        id: None,
        vehicle_id,
        customer_id: "c".to_string(),
        from_date: from,
        to_date: to,
        status,
        order_date: 0,
    };
    let store = vec![
        booking(v, day(2024, 6, 1), day(2024, 6, 10), BookingStatus::Confirmed),
        booking(v, day(2024, 6, 12), day(2024, 6, 14), BookingStatus::Rejected("r".into())),
        booking(ObjectId::new(7, 8), day(2024, 6, 12), day(2024, 6, 14), BookingStatus::Pending),
        booking(v, day(2024, 6, 20), day(2024, 6, 25), BookingStatus::Pending),
        booking(v, day(2024, 7, 1), day(2024, 7, 2), BookingStatus::Cancelled("c".into())),
    ];
    let ranges = [
        (day(2024, 6, 10), day(2024, 6, 15)),
        (day(2024, 6, 11), day(2024, 6, 15)),
        (day(2024, 6, 11), day(2024, 6, 19)),
        (day(2024, 6, 11), day(2024, 6, 20)),
        (day(2024, 6, 26), day(2024, 7, 5)),
        (day(2024, 5, 1), day(2024, 5, 31)),
        (day(2024, 5, 1), day(2024, 6, 1)),
        (day(2024, 1, 1), day(2024, 12, 31)),
    ];
    let expected = [true, false, false, true, false, false, true, true];
    for ((from, to), expect) in ranges.into_iter().zip(expected) {
        let filter = overlap_filter(v, from, to);
        let found = store.iter().filter(|b| filter.admits(&b.to_record())).count();
        assert_eq!(found > 0, expect);
        assert_eq!(has_overlapping_bookings(&store, v, from, to), expect);
    }
}

fn stored(status: BookingStatus) -> StoredRecord {
    Booking {
        id: None,
        vehicle_id: ObjectId::new(1, 1),
        customer_id: "c".to_string(),
        from_date: day(2024, 1, 1),
        to_date: day(2024, 1, 2),
        status,
        order_date: 5,
    }
    .to_record()
}

#[test]
fn test_booking_status_serialization() {
    let pending = stored(BookingStatus::Pending);
    let cancelled = stored(BookingStatus::Cancelled("User request".to_string()));
    let rejected = stored(BookingStatus::Rejected("Invalid dates".to_string()));

    assert_eq!(pending.get("status"), Some(&Value::Text("PENDING".to_string())));
    assert_eq!(cancelled.get("status"), Some(&Value::Text("CANCELLED".to_string())));
    assert_eq!(cancelled.get("reason"), Some(&Value::Text("User request".to_string())));
    assert_eq!(rejected.get("status"), Some(&Value::Text("REJECTED".to_string())));
    assert_eq!(rejected.get("reason"), Some(&Value::Text("Invalid dates".to_string())));
}

#[test]
fn a_stored_booking_holds_each_field() {
    let record = Booking {
        id: Some(ObjectId::new(2, 3)),
        vehicle_id: ObjectId::new(1, 1),
        customer_id: "customer_user_1".to_string(),
        from_date: day(2024, 7, 1),
        to_date: day(2024, 7, 5),
        status: BookingStatus::Confirmed,
        order_date: 1_719_800_000_000,
    }
    .to_record();
    assert_eq!(record.get("_id"), Some(&Value::Id(ObjectId::new(2, 3))));
    assert_eq!(record.get("vehicle_id"), Some(&Value::Id(ObjectId::new(1, 1))));
    assert_eq!(record.get("customer_id"), Some(&Value::Text("customer_user_1".to_string())));
    assert_eq!(record.get("from_date"), Some(&Value::Day(day(2024, 7, 1))));
    assert_eq!(record.get("to_date"), Some(&Value::Day(day(2024, 7, 5))));
    assert_eq!(record.get("status"), Some(&Value::Text("CONFIRMED".to_string())));
    assert_eq!(record.get("order_date"), Some(&Value::Instant(1_719_800_000_000)));
    assert_eq!(record.get("reason"), None);
    assert_eq!(stored(BookingStatus::Pending).get("_id"), None);
}

#[test]
fn a_stored_vehicle_holds_what_its_category_has() {
    let all = vehicles();
    let car = all[0].to_record();
    assert_eq!(car.get("brand"), Some(&Value::Text("TESLA".to_string())));
    assert_eq!(car.get("type"), Some(&Value::Text("Car".to_string())));
    assert_eq!(car.get("metadata.model"), Some(&Value::Text("MODEL_3".to_string())));
    assert_eq!(car.get("metadata.seats"), Some(&Value::Int32(5)));
    assert_eq!(car.get("metadata.fuel_type"), Some(&Value::Text("ELECTRIC".to_string())));
    assert_eq!(car.get("metadata.gearbox"), Some(&Value::Text("AUTOMATIC".to_string())));
    assert_eq!(car.get("metadata.engine_cc"), Some(&Value::Int32(1991)));
    assert_eq!(car.get("metadata.has_sidecar"), None);
    assert_eq!(car.get("price_by_day"), Some(&Value::Int64(9_000)));
    assert_eq!(car.get("year_of_production"), Some(&Value::Int32(2022)));
    assert_eq!(car.get("added_at"), Some(&Value::Instant(1_700_000_000_000)));
    assert_eq!(car.get("added_by"), Some(&Value::Text("Admin".to_string())));
    assert_eq!(car.get("description"), None);
    assert_eq!(car.get("_id"), None);
    let bike = all[4].to_record();
    assert_eq!(bike.get("type"), Some(&Value::Text("Motorbike".to_string())));
    assert_eq!(bike.get("metadata.brand"), Some(&Value::Text("HARLEY_DAVIDSON".to_string())));
    assert_eq!(bike.get("metadata.has_sidecar"), Some(&Value::Bool(true)));
    assert_eq!(bike.get("metadata.seats"), None);
    assert_eq!(bike.get("metadata.fuel_type"), None);
    assert_eq!(bike.get("description"), Some(&Value::Text("rides well".to_string())));
    assert_eq!(bike.get("_id"), Some(&Value::Id(ObjectId::new(0, 9))));
}
