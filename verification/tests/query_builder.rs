use bson::Bson;
use vehicle_booking::error::ErrorKind;
use vehicle_booking::models::{VehicleFiltersQuery, VehicleQueryBuilderBuilder};
use vehicle_booking::models::{Brand, FuelType, Gearbox, ObjectId};
use vehicle_booking::models::{VehicleFilters, VehiclePagination, VehicleQueryBuilder};
use vehicle_booking::services::mongodb::{Clause, Filter, QueryBuilder, Value};

#[test]
fn test_equal_filter_single_value() {
    let builder = QueryBuilder::new();
    let mut filter = Filter::new();
    let values = Some(vec![42]);

    builder.add_filter(&mut filter, "test_field", &values);

    let filter = filter.to_document();
    assert_eq!(filter.get_i32("test_field").unwrap(), 42);
}

#[test]
fn test_equal_filter_multiple_values() {
    let builder = QueryBuilder::new();
    let mut filter = Filter::new();
    let values = Some(vec![1, 2, 3]);

    builder.add_filter(&mut filter, "test_field", &values);

    let filter = filter.to_document();
    assert!(filter.contains_key("test_field"));
    let inner = filter.get_document("test_field").unwrap();
    assert_eq!(
        inner.get_array("$in").unwrap(),
        &vec![Bson::Int32(1), Bson::Int32(2), Bson::Int32(3)]
    );
}

#[test]
fn test_range_filter_min_only() {
    let builder = QueryBuilder::new();
    let mut filter = Filter::new();

    builder.add_range_filter(&mut filter, "price", Some(100i64), None);

    let filter = filter.to_document();
    let price_filter = filter.get_document("price").unwrap();
    assert_eq!(price_filter.get_i64("$gte").unwrap(), 100);
    assert!(!price_filter.contains_key("$lte"));
}

#[test]
fn test_range_filter_max_only() {
    let builder = QueryBuilder::new();
    let mut filter = Filter::new();

    builder.add_range_filter(&mut filter, "price", None, Some(500i64));

    let filter = filter.to_document();
    let price_filter = filter.get_document("price").unwrap();
    assert_eq!(price_filter.get_i64("$lte").unwrap(), 500);
    assert!(!price_filter.contains_key("$gte"));
}

#[test]
fn test_range_filter_min_max() {
    let builder = QueryBuilder::new();
    let mut filter = Filter::new();

    builder.add_range_filter(&mut filter, "price", Some(100i64), Some(500i64));

    let filter = filter.to_document();
    let price_filter = filter.get_document("price").unwrap();
    assert_eq!(price_filter.get_i64("$gte").unwrap(), 100);
    assert_eq!(price_filter.get_i64("$lte").unwrap(), 500);
}

#[test]
fn test_string_filter() {
    let builder = QueryBuilder::new();
    let mut filter = Filter::new();
    let values = Some(vec!["TESLA".to_string(), "MERCEDES".to_string()]);

    builder.add_string_filter(&mut filter, "brand", &values);

    let filter = filter.to_document();
    assert!(filter.contains_key("brand"));
    assert_eq!(
        filter.get_document("brand").unwrap().get_array("$in").unwrap(),
        &vec![Bson::String("TESLA".into()), Bson::String("MERCEDES".into())]
    );
}

#[test]
fn test_boolean_filter() {
    let builder = QueryBuilder::new();
    let mut filter = Filter::new();

    builder.add_boolean_filter(&mut filter, "has_feature", Some(true));

    let filter = filter.to_document();
    assert_eq!(filter.get_bool("has_feature").unwrap(), true);
}

fn no_filters() -> VehicleFilters {
    VehicleFilters::default()
}

#[test]
fn test_brand_filter_single() {
    let filters = VehicleFilters {
        brand: Some(vec![Brand::TESLA]),
        ..Default::default()
    };
    let doc = filters.to_bson_filter();
    assert_eq!(doc.get_str("brand").unwrap(), "TESLA");
}

#[test]
fn test_brand_filter_multiple() {
    let filters = VehicleFilters {
        brand: Some(vec![Brand::TESLA, Brand::MERCEDES]),
        ..Default::default()
    };
    let doc = filters.to_bson_filter();
    assert!(doc.contains_key("brand"));
}

#[test]
fn vehicle_test_sort_fields_parsing() {
    let pagination = VehiclePagination {
        page: Some(1),
        limit: Some(10),
        sort: Some("price_by_day,-year_of_production,+brand".to_string()),
    };
    let options = pagination.to_find_options();
    assert!(options.sort.is_some());
    assert_eq!(
        options.sort,
        Some(vec![
            ("price_by_day".to_string(), 1),
            ("year_of_production".to_string(), -1),
            ("brand".to_string(), 1),
        ])
    );
}

#[test]
fn absent_criteria_contribute_nothing() {
    let builder = QueryBuilder::new();
    let mut filter = Filter::new();
    builder.add_filter::<i32>(&mut filter, "a", &None);
    builder.add_filter::<i32>(&mut filter, "a", &Some(vec![]));
    builder.add_string_filter::<String>(&mut filter, "b", &None);
    builder.add_string_filter::<String>(&mut filter, "b", &Some(vec![]));
    builder.add_range_filter::<i64>(&mut filter, "c", None, None);
    builder.add_boolean_filter(&mut filter, "d", None);
    assert!(filter.is_empty());
    assert_eq!(filter.len(), 0);
    assert_eq!(filter, Filter::new());
    assert!(filter.to_document().is_empty());
    assert!(no_filters().to_filter().is_empty());
    assert!(no_filters().to_bson_filter().is_empty());
}

#[test]
fn a_flag_set_to_false_is_a_clause() {
    let builder = QueryBuilder::new();
    let mut filter = Filter::new();
    builder.add_boolean_filter(&mut filter, "metadata.has_sidecar", Some(false));
    assert_eq!(filter.get("metadata.has_sidecar"), Some(&Clause::Equal(Value::Bool(false))));
    assert_eq!(filter.to_document().get_bool("metadata.has_sidecar").unwrap(), false);
}

#[test]
fn a_second_clause_for_a_field_replaces_the_first() {
    let builder = QueryBuilder::new();
    let mut filter = Filter::new();
    builder.add_filter(&mut filter, "year", &Some(vec![2020u32]));
    builder.add_boolean_filter(&mut filter, "flag", Some(true));
    builder.add_filter(&mut filter, "year", &Some(vec![2021u32, 2022]));
    assert_eq!(filter.len(), 2);
    assert_eq!(filter.field_at(0), "year");
    assert_eq!(filter.field_at(1), "flag");
    assert_eq!(
        filter.clause_at(0),
        &Clause::In(vec![Value::Int32(2021), Value::Int32(2022)])
    );
    assert!(filter.contains_key("year"));
    assert!(!filter.contains_key("years"));
    assert_eq!(filter.get("nothing"), None);
}

#[test]
fn insertion_order_does_not_change_the_clauses() {
    let builder = QueryBuilder::new();
    let mut one = Filter::new();
    builder.add_string_filter(&mut one, "brand", &Some(vec![Brand::TESLA]));
    builder.add_range_filter(&mut one, "price_by_day", Some(100i64), None);
    let mut other = Filter::new();
    builder.add_range_filter(&mut other, "price_by_day", Some(100i64), None);
    builder.add_string_filter(&mut other, "brand", &Some(vec![Brand::TESLA]));
    for field in ["brand", "price_by_day"] {
        assert_eq!(one.get(field), other.get(field));
    }
    assert_eq!(one.len(), other.len());
    let a = one.to_document();
    let b = other.to_document();
    assert_eq!(a.get("brand"), b.get("brand"));
    assert_eq!(a.get("price_by_day"), b.get("price_by_day"));
    assert_eq!(a.len(), b.len());
}

#[test]
fn building_twice_gives_the_same_filter() {
    let filters = VehicleFilters {
        brand: Some(vec![Brand::TESLA, Brand::MERCEDES]),
        min_price: Some(5_000),
        has_sidecar: Some(false),
        ..Default::default()
    };
    assert_eq!(filters.to_filter(), filters.to_filter());
    assert_eq!(filters.to_bson_filter(), filters.to_bson_filter());
}

#[test]
fn numbers_are_widened_to_the_width_of_the_store() {
    let builder = QueryBuilder::new();
    let mut filter = Filter::new();
    builder.add_filter(&mut filter, "seats", &Some(vec![5u8]));
    builder.add_filter(&mut filter, "small", &Some(vec![2_147_483_647u32]));
    builder.add_filter(&mut filter, "large", &Some(vec![2_147_483_648u32]));
    builder.add_filter(&mut filter, "wide", &Some(vec![-1i64]));
    assert_eq!(filter.get("seats"), Some(&Clause::Equal(Value::Int32(5))));
    assert_eq!(filter.get("small"), Some(&Clause::Equal(Value::Int32(i32::MAX))));
    assert_eq!(filter.get("large"), Some(&Clause::Equal(Value::Int64(2_147_483_648))));
    let doc = filter.to_document();
    assert_eq!(doc.get_i32("seats").unwrap(), 5);
    assert_eq!(doc.get_i32("small").unwrap(), i32::MAX);
    assert_eq!(doc.get_i64("large").unwrap(), 2_147_483_648);
    assert_eq!(doc.get_i64("wide").unwrap(), -1);
}

#[test]
fn all_vehicle_criteria_reach_the_document() {
    let filters = VehicleFilters {
        brand: Some(vec![Brand::MERCEDES]),
        model: Some(vec!["GLC".to_string(), "GLE".to_string()]),
        min_price: Some(1_000),
        max_price: Some(9_000),
        year_of_production: Some(vec![2020, 2021]),
        fuel_type: Some(vec![FuelType::DIESEL]),
        gearbox: Some(vec![Gearbox::MANUAL, Gearbox::AUTOMATIC]),
        seats: Some(vec![4, 5]),
        engine_cc: Some(vec![1991]),
        has_sidecar: Some(true),
        added_at_from: Some(1_700_000_000_000),
        added_at_to: None,
    };
    let doc = filters.to_bson_filter();
    assert_eq!(doc.len(), 10);
    assert_eq!(doc.get_str("brand").unwrap(), "MERCEDES");
    assert_eq!(doc.get_str("metadata.fuel_type").unwrap(), "DIESEL");
    assert_eq!(
        doc.get_document("metadata.gearbox").unwrap().get_array("$in").unwrap(),
        &vec![Bson::String("MANUAL".into()), Bson::String("AUTOMATIC".into())]
    );
    assert_eq!(
        doc.get_document("year_of_production").unwrap().get_array("$in").unwrap(),
        &vec![Bson::Int32(2020), Bson::Int32(2021)]
    );
    assert_eq!(
        doc.get_document("metadata.seats").unwrap().get_array("$in").unwrap(),
        &vec![Bson::Int32(4), Bson::Int32(5)]
    );
    assert_eq!(doc.get_i32("metadata.engine_cc").unwrap(), 1991);
    assert_eq!(
        doc.get_document("metadata.model").unwrap().get_array("$in").unwrap(),
        &vec![Bson::String("GLC".into()), Bson::String("GLE".into())]
    );
    assert_eq!(doc.get_bool("metadata.has_sidecar").unwrap(), true);
    let price = doc.get_document("price_by_day").unwrap();
    assert_eq!(price.get_i64("$gte").unwrap(), 1_000);
    assert_eq!(price.get_i64("$lte").unwrap(), 9_000);
    let added = doc.get_document("added_at").unwrap();
    assert_eq!(added.get_datetime("$gte").unwrap().timestamp_millis(), 1_700_000_000_000);
    assert!(!added.contains_key("$lte"));
    let keys: Vec<&str> = doc.keys().map(|k| k.as_str()).collect();
    assert_eq!(
        keys,
        vec![
            "brand",
            "metadata.fuel_type",
            "metadata.gearbox",
            "year_of_production",
            "metadata.seats",
            "metadata.engine_cc",
            "metadata.model",
            "metadata.has_sidecar",
            "price_by_day",
            "added_at",
        ]
    );
}

#[test]
fn identifiers_keep_their_twelve_bytes() {
    let builder = QueryBuilder::new();
    let mut filter = Filter::new();
    let id = ObjectId::new(0x0102_0304, 0x0506_0708_090a_0b0c);
    builder.add_filter(&mut filter, "_id", &Some(vec![id]));
    let doc = filter.to_document();
    assert_eq!(
        doc.get_object_id("_id").unwrap().bytes(),
        [1, 2, 3, 4, 5, 6, 7, 8, 9, 10, 11, 12]
    );
    assert_eq!(doc.get_object_id("_id").unwrap().to_hex(), "0102030405060708090a0b0c");
}

#[test]
fn pagination_skips_the_pages_before() {
    let page =
        |page: Option<i64>, limit: Option<i64>| VehiclePagination { page, limit, sort: None };
    let o = page(Some(3), Some(20)).to_find_options();
    assert_eq!((o.limit, o.skip), (Some(20), Some(40)));
    let o = page(Some(1), Some(20)).to_find_options();
    assert_eq!((o.limit, o.skip), (Some(20), None));
    let o = page(Some(2), None).to_find_options();
    assert_eq!((o.limit, o.skip), (None, Some(10)));
    let o = page(None, Some(5)).to_find_options();
    assert_eq!((o.limit, o.skip), (Some(5), None));
    let o = page(None, None).to_find_options();
    assert_eq!((o.limit, o.skip, o.sort.clone()), (None, None, None));
    let o = page(Some(0), Some(10)).to_find_options();
    assert_eq!(o.skip, None);
    let o = page(Some(-4), Some(10)).to_find_options();
    assert_eq!(o.skip, None);
    let o = page(Some(0), Some(-3)).to_find_options();
    assert_eq!((o.limit, o.skip), (Some(-3), Some(3)));
}

#[test]
fn page_size_is_capped() {
    let p = VehiclePagination { page: Some(2), limit: Some(5_000), sort: None };
    let o = p.to_find_options();
    assert_eq!(o.limit, Some(100));
    assert_eq!(o.skip, Some(100));
    let p = VehiclePagination { page: Some(2), limit: Some(100), sort: None };
    assert_eq!(p.to_find_options().limit, Some(100));
    let p = VehiclePagination { page: Some(2), limit: Some(101), sort: None };
    assert_eq!(p.to_find_options().limit, Some(100));
}

#[test]
fn out_of_range_pages_are_told_apart() {
    let far = VehiclePagination { page: Some(i64::MAX), limit: Some(100), sort: None };
    assert!(!far.in_bounds());
    let near = VehiclePagination { page: Some(i64::MAX), limit: Some(2), sort: None };
    assert!(near.in_bounds());
    assert_eq!(near.to_find_options().skip, Some((i64::MAX as u64 - 1) * 2));
    let negative = VehiclePagination { page: Some(i64::MIN), limit: Some(i64::MIN), sort: None };
    assert!(!negative.in_bounds());
    let builder =
        VehicleQueryBuilder { filters: None, pagination: Some(far) };
    assert!(!builder.in_bounds());
}

#[test]
fn a_sort_parameter_without_fields_asks_for_no_order() {
    let p = VehiclePagination { page: None, limit: None, sort: Some(" , ".to_string()) };
    assert_eq!(p.to_find_options().sort, None);
    assert!(p.to_find_options().sort_document().is_none());
}

#[test]
fn sort_document_holds_each_field_once_in_order() {
    let p = VehiclePagination {
        page: None,
        limit: None,
        sort: Some("brand,-price_by_day,-brand".to_string()),
    };
    let doc = p.to_find_options().sort_document().unwrap();
    let entries: Vec<(String, Bson)> = doc.into_iter().collect();
    assert_eq!(
        entries,
        vec![
            ("brand".to_string(), Bson::Int32(-1)),
            ("price_by_day".to_string(), Bson::Int32(-1)),
        ]
    );
}

#[test]
fn query_builder_combines_filter_and_options() {
    let empty = VehicleQueryBuilder::default();
    let (filter, options) = empty.build_query();
    assert!(filter.is_empty());
    assert_eq!((options.limit, options.skip, options.sort), (None, None, None));

    let full = VehicleQueryBuilder {
        filters: Some(VehicleFilters { seats: Some(vec![2]), ..Default::default() }),
        pagination: Some(VehiclePagination {
            page: Some(4),
            limit: Some(25),
            sort: Some("-added_at".to_string()),
        }),
    };
    let (filter, options) = full.build_query();
    assert_eq!(filter.get("metadata.seats"), Some(&Clause::Equal(Value::Int32(2))));
    assert_eq!(options.limit, Some(25));
    assert_eq!(options.skip, Some(75));
    assert_eq!(options.sort, Some(vec![("added_at".to_string(), -1)]));
}

#[test]
fn the_builder_sets_the_parts_of_a_query() {
    let empty = VehicleQueryBuilderBuilder::new().build();
    assert!(empty.filters.is_none());
    assert!(empty.pagination.is_none());
    let query = VehicleQueryBuilderBuilder::new()
        .pagination(VehiclePagination { page: Some(2), limit: None, sort: None })
        .filters(VehicleFilters { has_sidecar: Some(true), ..Default::default() })
        .build();
    assert_eq!(query.filters.as_ref().unwrap().has_sidecar, Some(true));
    assert_eq!(query.pagination.as_ref().unwrap().page, Some(2));
    let (filter, options) = query.build_query();
    assert_eq!(filter.len(), 1);
    assert_eq!(options.skip, Some(10));
}

fn written() -> VehicleFiltersQuery {
    VehicleFiltersQuery {
        brand: None,
        model: None,
        min_price: None,
        max_price: None,
        year_of_production: None,
        fuel_type: None,
        gearbox: None,
        seats: None,
        engine_cc: None,
        has_sidecar: None,
        added_at_from: None,
        added_at_to: None,
    }
}

#[test]
fn the_criteria_of_a_request_are_read_list_by_list() {
    let nothing = written().parse().unwrap();
    assert!(nothing.to_filter().is_empty());

    let mut q = written();
    q.brand = Some("TESLA, MERCEDES".to_string());
    q.model = Some("MODEL_3,whatever".to_string());
    q.min_price = Some(1_000);
    q.max_price = Some(2_000);
    q.year_of_production = Some("2020,2021".to_string());
    q.fuel_type = Some("ELECTRIC".to_string());
    q.gearbox = Some(" ".to_string());
    q.seats = Some("5".to_string());
    q.engine_cc = Some("0,1991".to_string());
    q.has_sidecar = Some(false);
    q.added_at_from = Some(1);
    q.added_at_to = Some(2);
    let f = q.parse().unwrap();
    assert_eq!(f.brand, Some(vec![Brand::TESLA, Brand::MERCEDES]));
    assert_eq!(f.model, Some(vec!["MODEL_3".to_string(), "whatever".to_string()]));
    assert_eq!((f.min_price, f.max_price), (Some(1_000), Some(2_000)));
    assert_eq!(f.year_of_production, Some(vec![2020, 2021]));
    assert_eq!(f.fuel_type, Some(vec![FuelType::ELECTRIC]));
    assert_eq!(f.gearbox, None);
    assert_eq!(f.seats, Some(vec![5]));
    assert_eq!(f.engine_cc, Some(vec![0, 1991]));
    assert_eq!(f.has_sidecar, Some(false));
    assert_eq!((f.added_at_from, f.added_at_to), (Some(1), Some(2)));
}

#[test]
fn a_malformed_value_names_its_field() {
    let mut q = written();
    q.brand = Some("TESLA,FORD".to_string());
    q.seats = Some("many".to_string());
    let e = q.parse().unwrap_err();
    assert_eq!(e.kind(), ErrorKind::BadRequest);
    assert_eq!(e.message(), "brand: Failed to parse item: Matching variant not found");
    assert_eq!(e.status_code(), 400);

    let mut q = written();
    q.seats = Some("4,many".to_string());
    q.engine_cc = Some("-1".to_string());
    let e = q.parse().unwrap_err();
    assert_eq!(e.message(), "seats: Failed to parse item: invalid digit found in string");

    let cases = [
        ("year_of_production", "99999999999", "number too large to fit in target type"),
        ("fuel_type", "WATER", "Matching variant not found"),
        ("gearbox", "CVT", "Matching variant not found"),
        ("engine_cc", "1.6", "invalid digit found in string"),
    ];
    for (field, text, reason) in cases {
        let mut q = written();
        match field {
            "year_of_production" => q.year_of_production = Some(text.to_string()),
            "fuel_type" => q.fuel_type = Some(text.to_string()),
            "gearbox" => q.gearbox = Some(text.to_string()),
            _ => q.engine_cc = Some(text.to_string()),
        }
        let e = q.parse().unwrap_err();
        assert_eq!(e.message(), format!("{}: Failed to parse item: {}", field, reason));
    }
}
