use crate::models::vehicle::{Brand, FuelType, Gearbox, Vehicle, VehicleMetadata, VehicleView};
use crate::models::vehicle_query::VehicleFilters;
use crate::services::mongodb::filter::{
    lookup, satisfied_by, Record, StoredRecord, Value, ValueView,
};
use crate::services::mongodb::query_builder::{
    criterion_met, equality_clause, item_texts, item_values, lemma_equality_clause_admits,
    wanted_texts, wanted_values, CanonicalText, ToValue,
};
use vstd::prelude::*;
use vstd::string::*;

verus! {

/// What is recorded of a vehicle as the store holds it: each value under
/// `metadata.` and its name, the names of enums as their canonical text.
pub open spec fn with_metadata(record: Record, metadata: VehicleMetadata) -> Record {
    match metadata {
        VehicleMetadata::Car(car) => record.insert("type"@, ValueView::Text("Car"@)).insert(
            "metadata.brand"@,
            ValueView::Text(car.brand.name()),
        ).insert("metadata.model"@, ValueView::Text(car.model.name())).insert(
            "metadata.seats"@,
            car.seats.value(),
        ).insert("metadata.fuel_type"@, ValueView::Text(car.fuel_type.name())).insert(
            "metadata.gearbox"@,
            ValueView::Text(car.gearbox.name()),
        ).insert("metadata.engine_cc"@, car.engine_cc.value()),
        VehicleMetadata::Motorbike(bike) => record.insert(
            "type"@,
            ValueView::Text("Motorbike"@),
        ).insert("metadata.brand"@, ValueView::Text(bike.brand.name())).insert(
            "metadata.model"@,
            ValueView::Text(bike.model.name()),
        ).insert("metadata.engine_cc"@, bike.engine_cc.value()).insert(
            "metadata.has_sidecar"@,
            ValueView::Bool(bike.has_sidecar),
        ),
    }
}

/// A vehicle as the store holds it: the value of each field by its path. A
/// description or an identifier that is absent is no field.
pub open spec fn vehicle_record(vehicle: VehicleView) -> Record {
    let record = Map::<Seq<char>, ValueView>::empty().insert(
        "brand"@,
        ValueView::Text(vehicle.brand.name()),
    );
    let record = with_metadata(record, vehicle.metadata).insert(
        "price_by_day"@,
        ValueView::Int64(vehicle.price_by_day),
    ).insert("year_of_production"@, vehicle.year_of_production.value()).insert(
        "added_at"@,
        ValueView::Instant(vehicle.added_at),
    ).insert("added_by"@, ValueView::Text(vehicle.added_by));
    let record = match vehicle.description {
        None => record,
        Some(text) => record.insert("description"@, ValueView::Text(text)),
    };
    match vehicle.id {
        None => record,
        Some(id) => record.insert("_id"@, ValueView::Id(id)),
    }
}

impl Vehicle {
    /// The vehicle as the store holds it.
    pub fn to_record(&self) -> (record: StoredRecord)
        ensures
            record@ == vehicle_record(self@),
    {
        let mut record = StoredRecord::new();
        record.set("brand", Value::Text(self.brand.to_string()));
        match &self.metadata {
            VehicleMetadata::Car(car) => {
                record.set("type", Value::Text("Car".to_owned()));
                record.set("metadata.brand", Value::Text(car.brand.to_string()));
                record.set("metadata.model", Value::Text(car.model.to_string()));
                record.set("metadata.seats", car.seats.to_value());
                record.set("metadata.fuel_type", Value::Text(car.fuel_type.to_string()));
                record.set("metadata.gearbox", Value::Text(car.gearbox.to_string()));
                record.set("metadata.engine_cc", car.engine_cc.to_value());
            },
            VehicleMetadata::Motorbike(bike) => {
                record.set("type", Value::Text("Motorbike".to_owned()));
                record.set("metadata.brand", Value::Text(bike.brand.to_string()));
                record.set("metadata.model", Value::Text(bike.model.to_string()));
                record.set("metadata.engine_cc", bike.engine_cc.to_value());
                record.set("metadata.has_sidecar", Value::Bool(bike.has_sidecar));
            },
        }
        record.set("price_by_day", Value::Int64(self.price_by_day));
        record.set("year_of_production", self.year_of_production.to_value());
        record.set("added_at", Value::Instant(self.added_at));
        record.set("added_by", Value::Text(self.added_by.clone()));
        if let Some(text) = &self.description {
            record.set("description", Value::Text(text.clone()));
        }
        if let Some(id) = self.id {
            record.set("_id", Value::Id(id));
        }
        record
    }
}

impl VehicleMetadata {
    /// The fuel type, of a car.
    pub open spec fn fuel_type(self) -> Option<FuelType> {
        match self {
            VehicleMetadata::Car(car) => Some(car.fuel_type),
            VehicleMetadata::Motorbike(_) => None,
        }
    }

    /// The gearbox, of a car.
    pub open spec fn gearbox(self) -> Option<Gearbox> {
        match self {
            VehicleMetadata::Car(car) => Some(car.gearbox),
            VehicleMetadata::Motorbike(_) => None,
        }
    }

    /// The number of seats, of a car.
    pub open spec fn seats(self) -> Option<u8> {
        match self {
            VehicleMetadata::Car(car) => Some(car.seats),
            VehicleMetadata::Motorbike(_) => None,
        }
    }

    /// Whether there is a sidecar, of a motorbike.
    pub open spec fn has_sidecar(self) -> Option<bool> {
        match self {
            VehicleMetadata::Car(_) => None,
            VehicleMetadata::Motorbike(bike) => Some(bike.has_sidecar),
        }
    }

    /// The size of the engine.
    pub open spec fn engine_cc(self) -> u32 {
        match self {
            VehicleMetadata::Car(car) => car.engine_cc,
            VehicleMetadata::Motorbike(bike) => bike.engine_cc,
        }
    }

    /// The canonical text of the model.
    pub open spec fn model_name(self) -> Seq<char> {
        match self {
            VehicleMetadata::Car(car) => car.model.name(),
            VehicleMetadata::Motorbike(bike) => bike.model.name(),
        }
    }
}

/// Whether a list of wanted items asks for nothing: there is no list, or it
/// is empty.
pub open spec fn asks_nothing<T>(wanted: Option<Vec<T>>) -> bool {
    wanted matches Some(items) ==> items@.len() == 0
}

/// Whether a value that a vehicle may have is among the wanted ones. A
/// vehicle that has no such value meets no list that asks for something.
pub open spec fn is_wanted<T>(wanted: Option<Vec<T>>, value: Option<T>) -> bool {
    asks_nothing(wanted) || (value matches Some(v) && wanted->Some_0@.contains(v))
}

/// Whether a number lies within the bounds that are given.
pub open spec fn within(min: Option<i64>, max: Option<i64>, n: i64) -> bool {
    (min matches Some(low) ==> low <= n) && (max matches Some(high) ==> n <= high)
}

/// Whether a vehicle meets the criteria of a search, said of the vehicle
/// itself: its brand is one of the wanted brands, its price lies within the
/// bounds, and so on for each criterion that is present. A criterion about
/// what only cars have is met by no motorbike, and the other way round.
pub open spec fn vehicle_meets(filters: VehicleFilters, vehicle: VehicleView) -> bool {
    &&& is_wanted(filters.brand, Some(vehicle.brand))
    &&& is_wanted(filters.fuel_type, vehicle.metadata.fuel_type())
    &&& is_wanted(filters.gearbox, vehicle.metadata.gearbox())
    &&& is_wanted(filters.year_of_production, Some(vehicle.year_of_production))
    &&& is_wanted(filters.seats, vehicle.metadata.seats())
    &&& is_wanted(filters.engine_cc, Some(vehicle.metadata.engine_cc()))
    &&& (asks_nothing(filters.model) || exists|i: int|
        0 <= i && i < filters.model->Some_0@.len() && (#[trigger] filters.model->Some_0@[i])@
            == vehicle.metadata.model_name())
    &&& (filters.has_sidecar matches Some(flag) ==> vehicle.metadata.has_sidecar() == Some(flag))
    &&& within(filters.min_price, filters.max_price, vehicle.price_by_day)
    &&& within(filters.added_at_from, filters.added_at_to, vehicle.added_at)
}

/// The paths of the fields of a stored vehicle are different texts.
pub proof fn lemma_vehicle_fields_differ()
    ensures
        "brand"@.len() == 5,
        "type"@.len() == 4,
        "metadata.brand"@.len() == 14 && "metadata.brand"@[9] == 'b',
        "metadata.model"@.len() == 14 && "metadata.model"@[9] == 'm',
        "metadata.seats"@.len() == 14 && "metadata.seats"@[9] == 's',
        "metadata.fuel_type"@.len() == 18 && "metadata.fuel_type"@[0] == 'm'
            && "metadata.fuel_type"@[9] == 'f',
        "metadata.gearbox"@.len() == 16,
        "metadata.engine_cc"@.len() == 18 && "metadata.engine_cc"@[0] == 'm'
            && "metadata.engine_cc"@[9] == 'e',
        "metadata.has_sidecar"@.len() == 20,
        "price_by_day"@.len() == 12,
        "year_of_production"@.len() == 18 && "year_of_production"@[0] == 'y',
        "added_at"@.len() == 8 && "added_at"@[7] == 't',
        "added_by"@.len() == 8 && "added_by"@[7] == 'y',
        "description"@.len() == 11,
        "_id"@.len() == 3,
{
    reveal_strlit("brand");
    reveal_strlit("type");
    reveal_strlit("metadata.brand");
    reveal_strlit("metadata.model");
    reveal_strlit("metadata.seats");
    reveal_strlit("metadata.fuel_type");
    reveal_strlit("metadata.gearbox");
    reveal_strlit("metadata.engine_cc");
    reveal_strlit("metadata.has_sidecar");
    reveal_strlit("price_by_day");
    reveal_strlit("year_of_production");
    reveal_strlit("added_at");
    reveal_strlit("added_by");
    reveal_strlit("description");
    reveal_strlit("_id");
}

/// The value that a stored vehicle has for a field: none where the vehicle
/// has no such field.
pub open spec fn stored_value(vehicle: VehicleView, field: Seq<char>) -> Option<ValueView> {
    lookup(vehicle_record(vehicle), field)
}

/// What a stored vehicle holds under the paths that a search can ask for.
pub proof fn lemma_vehicle_record_fields(vehicle: VehicleView)
    ensures
        stored_value(vehicle, "brand"@) == Some(ValueView::Text(vehicle.brand.name())),
        stored_value(vehicle, "metadata.fuel_type"@) == match vehicle.metadata.fuel_type() {
            Some(fuel) => Some(ValueView::Text(fuel.name())),
            None => None,
        },
        stored_value(vehicle, "metadata.gearbox"@) == match vehicle.metadata.gearbox() {
            Some(gearbox) => Some(ValueView::Text(gearbox.name())),
            None => None,
        },
        stored_value(vehicle, "year_of_production"@) == Some(vehicle.year_of_production.value()),
        stored_value(vehicle, "metadata.seats"@) == match vehicle.metadata.seats() {
            Some(seats) => Some(seats.value()),
            None => None,
        },
        stored_value(vehicle, "metadata.engine_cc"@) == Some(vehicle.metadata.engine_cc().value()),
        stored_value(vehicle, "metadata.model"@) == Some(
            ValueView::Text(vehicle.metadata.model_name()),
        ),
        stored_value(vehicle, "metadata.has_sidecar"@) == match vehicle.metadata.has_sidecar() {
            Some(flag) => Some(ValueView::Bool(flag)),
            None => None,
        },
        stored_value(vehicle, "price_by_day"@) == Some(ValueView::Int64(vehicle.price_by_day)),
        stored_value(vehicle, "added_at"@) == Some(ValueView::Instant(vehicle.added_at)),
{
    lemma_vehicle_fields_differ();
}

/// Different brands, fuel types and gearboxes have different names.
pub proof fn lemma_names_differ()
    ensures
        forall|a: Brand, b: Brand| #[trigger] a.name() == #[trigger] b.name() ==> a == b,
        forall|a: FuelType, b: FuelType| #[trigger] a.name() == #[trigger] b.name() ==> a == b,
        forall|a: Gearbox, b: Gearbox| #[trigger] a.name() == #[trigger] b.name() ==> a == b,
{
    reveal_strlit("TESLA");
    reveal_strlit("MERCEDES");
    reveal_strlit("HONDA");
    reveal_strlit("YAMAHA");
    reveal_strlit("KAWASAKI");
    reveal_strlit("DUCATI");
    reveal_strlit("BMW");
    reveal_strlit("HARLEY_DAVIDSON");
    reveal_strlit("PETROL");
    reveal_strlit("DIESEL");
    reveal_strlit("ELECTRIC");
    reveal_strlit("MANUAL");
    reveal_strlit("AUTOMATIC");
    assert(Brand::TESLA.name().len() == 5 && Brand::TESLA.name()[0] == 'T');
    assert(Brand::MERCEDES.name().len() == 8 && Brand::MERCEDES.name()[0] == 'M');
    assert(Brand::HONDA.name().len() == 5 && Brand::HONDA.name()[0] == 'H');
    assert(Brand::YAMAHA.name().len() == 6 && Brand::YAMAHA.name()[0] == 'Y');
    assert(Brand::KAWASAKI.name().len() == 8 && Brand::KAWASAKI.name()[0] == 'K');
    assert(Brand::DUCATI.name().len() == 6 && Brand::DUCATI.name()[0] == 'D');
    assert(Brand::BMW.name().len() == 3);
    assert(Brand::HARLEY_DAVIDSON.name().len() == 15);
    assert(FuelType::PETROL.name().len() == 6 && FuelType::PETROL.name()[0] == 'P');
    assert(FuelType::DIESEL.name().len() == 6 && FuelType::DIESEL.name()[0] == 'D');
    assert(FuelType::ELECTRIC.name().len() == 8);
    assert(Gearbox::MANUAL.name().len() == 6);
    assert(Gearbox::AUTOMATIC.name().len() == 9);
}

/// A criterion of wanted items that go by their names is met exactly if the
/// record holds the name of one of them.
proof fn lemma_text_criterion<T: CanonicalText>(
    wanted: Option<Vec<T>>,
    value: Option<T>,
    field: Seq<char>,
    record: Record,
)
    requires
        lookup(record, field) == match value {
            Some(v) => Some(ValueView::Text(v.text())),
            None => None,
        },
        forall|a: T, b: T| #[trigger] a.text() == #[trigger] b.text() ==> a == b,
    ensures
        criterion_met(equality_clause(wanted_texts(wanted)), field, record) <==> is_wanted(
            wanted,
            value,
        ),
{
    if let Some(items) = wanted {
        if items@.len() > 0 {
            let texts = item_texts(items@);
            lemma_equality_clause_admits(texts, record[field]);
            if let Some(v) = value {
                let held = ValueView::Text(v.text());
                if held.among(texts) {
                    let i = choose|i: int|
                        0 <= i && i < texts.len() && held.same(#[trigger] texts[i]);
                    assert(items@[i].text() == v.text());
                    assert(items@[i] == v);
                }
                if items@.contains(v) {
                    let i = choose|i: int| 0 <= i < items@.len() && items@[i] == v;
                    assert(held.same(texts[i]));
                }
            }
        }
    }
}

/// A criterion of wanted numbers is met exactly if the record holds one of
/// them.
proof fn lemma_number_criterion<T: ToValue>(
    wanted: Option<Vec<T>>,
    value: Option<T>,
    field: Seq<char>,
    record: Record,
)
    requires
        lookup(record, field) == match value {
            Some(v) => Some(v.value()),
            None => None,
        },
        forall|a: T, b: T| #[trigger] a.value().same(#[trigger] b.value()) ==> a == b,
        forall|a: T| (#[trigger] a.value()).same(a.value()),
    ensures
        criterion_met(equality_clause(wanted_values(wanted)), field, record) <==> is_wanted(
            wanted,
            value,
        ),
{
    if let Some(items) = wanted {
        if items@.len() > 0 {
            let values = item_values(items@);
            lemma_equality_clause_admits(values, record[field]);
            if let Some(v) = value {
                let held = v.value();
                if held.among(values) {
                    let i = choose|i: int|
                        0 <= i && i < values.len() && held.same(#[trigger] values[i]);
                    assert(v.value().same(items@[i].value()));
                    assert(items@[i] == v);
                }
                if items@.contains(v) {
                    let i = choose|i: int| 0 <= i < items@.len() && items@[i] == v;
                    assert(held.same(values[i]));
                }
            }
        }
    }
}

impl VehicleFilters {
    /// The filter for the criteria admits a stored vehicle exactly if the
    /// vehicle meets the criteria.
    pub proof fn lemma_meaning_for_vehicles(&self, vehicle: VehicleView)
        ensures
            self.admits(vehicle_record(vehicle)) <==> vehicle_meets(*self, vehicle),
            satisfied_by(self.criteria(), vehicle_record(vehicle)) <==> vehicle_meets(
                *self,
                vehicle,
            ),
    {
        let record = vehicle_record(vehicle);
        let metadata = vehicle.metadata;
        self.lemma_filter_meaning(record);
        lemma_vehicle_record_fields(vehicle);
        lemma_names_differ();
        lemma_text_criterion(self.brand, Some(vehicle.brand), "brand"@, record);
        lemma_text_criterion(self.fuel_type, metadata.fuel_type(), "metadata.fuel_type"@, record);
        lemma_text_criterion(self.gearbox, metadata.gearbox(), "metadata.gearbox"@, record);
        lemma_number_criterion(
            self.year_of_production,
            Some(vehicle.year_of_production),
            "year_of_production"@,
            record,
        );
        lemma_number_criterion(self.seats, metadata.seats(), "metadata.seats"@, record);
        lemma_number_criterion(
            self.engine_cc,
            Some(metadata.engine_cc()),
            "metadata.engine_cc"@,
            record,
        );
        assert(criterion_met(self.model_clause(), "metadata.model"@, record) <==> (asks_nothing(
            self.model,
        ) || exists|i: int|
            0 <= i && i < self.model->Some_0@.len() && (#[trigger] self.model->Some_0@[i])@
                == metadata.model_name())) by {
            if let Some(items) = self.model {
                if items@.len() > 0 {
                    let held = ValueView::Text(metadata.model_name());
                    let values = item_values(items@);
                    lemma_equality_clause_admits(values, held);
                    if held.among(values) {
                        let i = choose|i: int|
                            0 <= i && i < values.len() && held.same(#[trigger] values[i]);
                        assert(items@[i]@ == metadata.model_name());
                    }
                    if exists|i: int|
                        0 <= i && i < items@.len() && (#[trigger] items@[i])@
                            == metadata.model_name() {
                        let i = choose|i: int|
                            0 <= i && i < items@.len() && (#[trigger] items@[i])@
                                == metadata.model_name();
                        assert(held.same(values[i]));
                    }
                }
            }
        }
    }
}

} // verus!
