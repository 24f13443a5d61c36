use crate::error::{AppError, AppResult, ErrorKind};
use crate::models::vehicle::{Brand, FuelType, Gearbox};
use crate::services::mongodb::filter::{satisfied_by, ClauseView, Filter, Record, Value, ValueView};
use crate::services::mongodb::query_builder::{
    boolean_clause, criterion_met, equality_clause, lemma_fresh_criterion, range_clause,
    wanted_texts, wanted_values, with_clause, with_field, QueryBuilder,
};
use crate::util::parameters::{
    all_readable, complains_of_first, deserialize_comma_separated, parse_sort_fields,
    parsed_sort_fields, present_items, read_as, sort_keys_view, FromText, SortKey,
};
use vstd::prelude::*;
use vstd::string::*;

verus! {

/// The most records that one page of a listing holds.
pub const MAX_LIMIT: i64 = 100;

/// The size of a page where the request names none.
pub const DEFAULT_LIMIT: i64 = 10;

/// The criteria of a search for vehicles; each may be absent. Prices are in
/// hundredths of the currency unit, moments in milliseconds since the Unix
/// epoch.
#[derive(Clone, Debug)]
pub struct VehicleFilters {
    pub brand: Option<Vec<Brand>>,
    pub model: Option<Vec<String>>,
    pub min_price: Option<i64>,
    pub max_price: Option<i64>,
    pub year_of_production: Option<Vec<u32>>,
    pub fuel_type: Option<Vec<FuelType>>,
    pub gearbox: Option<Vec<Gearbox>>,
    pub seats: Option<Vec<u8>>,
    pub engine_cc: Option<Vec<u32>>,
    pub has_sidecar: Option<bool>,
    pub added_at_from: Option<i64>,
    pub added_at_to: Option<i64>,
}

/// Which page of a listing is asked for, how large it is, and in what order
/// the records stand.
#[derive(Clone, Debug)]
pub struct VehiclePagination {
    pub page: Option<i64>,
    pub limit: Option<i64>,
    pub sort: Option<String>,
}

/// How the store is to hand out the records that a filter admits.
#[derive(Clone, Debug, PartialEq)]
pub struct FindOptions {
    /// The most records to hand out.
    pub limit: Option<i64>,
    /// The number of records to pass over first.
    pub skip: Option<u64>,
    /// The fields to sort by, the weightiest first, each with 1 for
    /// ascending or -1 for descending order.
    pub sort: Option<Vec<(String, i32)>>,
}

/// The criteria and the paging of one search for vehicles.
#[derive(Clone, Debug)]
pub struct VehicleQueryBuilder {
    pub filters: Option<VehicleFilters>,
    pub pagination: Option<VehiclePagination>,
}

/// A moment as a value, if there is one.
pub open spec fn instant_bound(at: Option<i64>) -> Option<ValueView> {
    match at {
        None => None,
        Some(ms) => Some(ValueView::Instant(ms)),
    }
}

/// An amount as a value, if there is one.
pub open spec fn amount_bound(amount: Option<i64>) -> Option<ValueView> {
    match amount {
        None => None,
        Some(n) => Some(ValueView::Int64(n)),
    }
}

impl Default for VehicleFilters {
    fn default() -> (f: VehicleFilters)
        ensures
            f.brand is None,
            f.model is None,
            f.min_price is None,
            f.max_price is None,
            f.year_of_production is None,
            f.fuel_type is None,
            f.gearbox is None,
            f.seats is None,
            f.engine_cc is None,
            f.has_sidecar is None,
            f.added_at_from is None,
            f.added_at_to is None,
            f.criteria() == Map::<Seq<char>, ClauseView>::empty(),
    {
        VehicleFilters {
            brand: None,
            model: None,
            min_price: None,
            max_price: None,
            year_of_production: None,
            fuel_type: None,
            gearbox: None,
            seats: None,
            engine_cc: None,
            has_sidecar: None,
            added_at_from: None,
            added_at_to: None,
        }
    }
}

impl VehicleFilters {
    pub open spec fn brand_clause(&self) -> Option<ClauseView> {
        equality_clause(wanted_texts(self.brand))
    }

    pub open spec fn fuel_type_clause(&self) -> Option<ClauseView> {
        equality_clause(wanted_texts(self.fuel_type))
    }

    pub open spec fn gearbox_clause(&self) -> Option<ClauseView> {
        equality_clause(wanted_texts(self.gearbox))
    }

    pub open spec fn year_clause(&self) -> Option<ClauseView> {
        equality_clause(wanted_values(self.year_of_production))
    }

    pub open spec fn seats_clause(&self) -> Option<ClauseView> {
        equality_clause(wanted_values(self.seats))
    }

    pub open spec fn engine_clause(&self) -> Option<ClauseView> {
        equality_clause(wanted_values(self.engine_cc))
    }

    pub open spec fn model_clause(&self) -> Option<ClauseView> {
        equality_clause(wanted_values(self.model))
    }

    pub open spec fn sidecar_clause(&self) -> Option<ClauseView> {
        boolean_clause(self.has_sidecar)
    }

    pub open spec fn price_clause(&self) -> Option<ClauseView> {
        range_clause(amount_bound(self.min_price), amount_bound(self.max_price))
    }

    pub open spec fn added_clause(&self) -> Option<ClauseView> {
        range_clause(instant_bound(self.added_at_from), instant_bound(self.added_at_to))
    }

    /// The clauses that the criteria stand for: one for each criterion that
    /// is present, under the path of the field it is about.
    pub open spec fn criteria(&self) -> Map<Seq<char>, ClauseView> {
        let c = Map::<Seq<char>, ClauseView>::empty();
        let c = with_clause(c, "brand"@, self.brand_clause());
        let c = with_clause(c, "metadata.fuel_type"@, self.fuel_type_clause());
        let c = with_clause(c, "metadata.gearbox"@, self.gearbox_clause());
        let c = with_clause(c, "year_of_production"@, self.year_clause());
        let c = with_clause(c, "metadata.seats"@, self.seats_clause());
        let c = with_clause(c, "metadata.engine_cc"@, self.engine_clause());
        let c = with_clause(c, "metadata.model"@, self.model_clause());
        let c = with_clause(c, "metadata.has_sidecar"@, self.sidecar_clause());
        let c = with_clause(c, "price_by_day"@, self.price_clause());
        with_clause(c, "added_at"@, self.added_clause())
    }

    /// The fields of the criteria that are present, in the order in which
    /// the filter holds them.
    pub open spec fn present_fields(&self) -> Seq<Seq<char>> {
        let f = Seq::<Seq<char>>::empty();
        let f = with_field(f, "brand"@, self.brand_clause());
        let f = with_field(f, "metadata.fuel_type"@, self.fuel_type_clause());
        let f = with_field(f, "metadata.gearbox"@, self.gearbox_clause());
        let f = with_field(f, "year_of_production"@, self.year_clause());
        let f = with_field(f, "metadata.seats"@, self.seats_clause());
        let f = with_field(f, "metadata.engine_cc"@, self.engine_clause());
        let f = with_field(f, "metadata.model"@, self.model_clause());
        let f = with_field(f, "metadata.has_sidecar"@, self.sidecar_clause());
        let f = with_field(f, "price_by_day"@, self.price_clause());
        with_field(f, "added_at"@, self.added_clause())
    }

    /// Whether a record meets each of the criteria.
    pub open spec fn admits(&self, record: Record) -> bool {
        &&& criterion_met(self.brand_clause(), "brand"@, record)
        &&& criterion_met(self.fuel_type_clause(), "metadata.fuel_type"@, record)
        &&& criterion_met(self.gearbox_clause(), "metadata.gearbox"@, record)
        &&& criterion_met(self.year_clause(), "year_of_production"@, record)
        &&& criterion_met(self.seats_clause(), "metadata.seats"@, record)
        &&& criterion_met(self.engine_clause(), "metadata.engine_cc"@, record)
        &&& criterion_met(self.model_clause(), "metadata.model"@, record)
        &&& criterion_met(self.sidecar_clause(), "metadata.has_sidecar"@, record)
        &&& criterion_met(self.price_clause(), "price_by_day"@, record)
        &&& criterion_met(self.added_clause(), "added_at"@, record)
    }

    /// The filter that admits exactly the vehicles that meet the criteria.
    pub fn to_filter(&self) -> (filter: Filter)
        ensures
            filter@ == self.criteria(),
            filter.fields() == self.present_fields(),
    {
        let mut filter = Filter::new();
        let builder = QueryBuilder::new();
        builder.add_string_filter(&mut filter, "brand", &self.brand);
        builder.add_string_filter(&mut filter, "metadata.fuel_type", &self.fuel_type);
        builder.add_string_filter(&mut filter, "metadata.gearbox", &self.gearbox);
        builder.add_filter(&mut filter, "year_of_production", &self.year_of_production);
        builder.add_filter(&mut filter, "metadata.seats", &self.seats);
        builder.add_filter(&mut filter, "metadata.engine_cc", &self.engine_cc);
        builder.add_filter(&mut filter, "metadata.model", &self.model);
        builder.add_boolean_filter(&mut filter, "metadata.has_sidecar", self.has_sidecar);
        builder.add_range_filter(&mut filter, "price_by_day", self.min_price, self.max_price);
        let from = match self.added_at_from {
            Some(ms) => Some(Value::Instant(ms)),
            None => None,
        };
        let to = match self.added_at_to {
            Some(ms) => Some(Value::Instant(ms)),
            None => None,
        };
        builder.add_range_filter(&mut filter, "added_at", from, to);
        filter
    }
}

/// The ten fields that the criteria are about are ten different fields.
pub proof fn lemma_fields_differ()
    ensures
        "brand"@.len() == 5,
        "metadata.fuel_type"@.len() == 18 && "metadata.fuel_type"@[0] == 'm'
            && "metadata.fuel_type"@[9] == 'f',
        "metadata.gearbox"@.len() == 16,
        "year_of_production"@.len() == 18 && "year_of_production"@[0] == 'y',
        "metadata.seats"@.len() == 14 && "metadata.seats"@[9] == 's',
        "metadata.engine_cc"@.len() == 18 && "metadata.engine_cc"@[0] == 'm'
            && "metadata.engine_cc"@[9] == 'e',
        "metadata.model"@.len() == 14 && "metadata.model"@[9] == 'm',
        "metadata.has_sidecar"@.len() == 20,
        "price_by_day"@.len() == 12,
        "added_at"@.len() == 8,
{
    reveal_strlit("brand");
    reveal_strlit("metadata.fuel_type");
    reveal_strlit("metadata.gearbox");
    reveal_strlit("year_of_production");
    reveal_strlit("metadata.seats");
    reveal_strlit("metadata.engine_cc");
    reveal_strlit("metadata.model");
    reveal_strlit("metadata.has_sidecar");
    reveal_strlit("price_by_day");
    reveal_strlit("added_at");
}

impl VehicleFilters {
    /// A record meets the filter exactly if it meets each criterion that is
    /// present, whatever the order in which the clauses were put in.
    pub proof fn lemma_filter_meaning(&self, record: Record)
        ensures
            satisfied_by(self.criteria(), record) <==> self.admits(record),
    {
        lemma_fields_differ();
        let c0 = Map::<Seq<char>, ClauseView>::empty();
        let c1 = with_clause(c0, "brand"@, self.brand_clause());
        let c2 = with_clause(c1, "metadata.fuel_type"@, self.fuel_type_clause());
        let c3 = with_clause(c2, "metadata.gearbox"@, self.gearbox_clause());
        let c4 = with_clause(c3, "year_of_production"@, self.year_clause());
        let c5 = with_clause(c4, "metadata.seats"@, self.seats_clause());
        let c6 = with_clause(c5, "metadata.engine_cc"@, self.engine_clause());
        let c7 = with_clause(c6, "metadata.model"@, self.model_clause());
        let c8 = with_clause(c7, "metadata.has_sidecar"@, self.sidecar_clause());
        let c9 = with_clause(c8, "price_by_day"@, self.price_clause());
        lemma_fresh_criterion(c0, "brand"@, self.brand_clause(), record);
        lemma_fresh_criterion(c1, "metadata.fuel_type"@, self.fuel_type_clause(), record);
        lemma_fresh_criterion(c2, "metadata.gearbox"@, self.gearbox_clause(), record);
        lemma_fresh_criterion(c3, "year_of_production"@, self.year_clause(), record);
        lemma_fresh_criterion(c4, "metadata.seats"@, self.seats_clause(), record);
        lemma_fresh_criterion(c5, "metadata.engine_cc"@, self.engine_clause(), record);
        lemma_fresh_criterion(c6, "metadata.model"@, self.model_clause(), record);
        lemma_fresh_criterion(c7, "metadata.has_sidecar"@, self.sidecar_clause(), record);
        lemma_fresh_criterion(c8, "price_by_day"@, self.price_clause(), record);
        lemma_fresh_criterion(c9, "added_at"@, self.added_clause(), record);
    }
}

/// What a sort parameter asks for, if it names a field at all.
pub open spec fn wanted_order(sort: Option<String>) -> Option<Seq<SortKey>> {
    match sort {
        None => None,
        Some(text) => if parsed_sort_fields(text@).len() == 0 {
            None
        } else {
            Some(parsed_sort_fields(text@))
        },
    }
}

/// The order of a listing in contracts.
pub open spec fn order_view(sort: Option<Vec<(String, i32)>>) -> Option<Seq<SortKey>> {
    match sort {
        None => None,
        Some(keys) => Some(sort_keys_view(keys@)),
    }
}

impl FindOptions {
    /// The options that ask for every record in the store's own order.
    pub fn new() -> (o: FindOptions)
        ensures
            o.limit is None,
            o.skip is None,
            o.sort is None,
    {
        FindOptions { limit: None, skip: None, sort: None }
    }
}

impl Default for FindOptions {
    fn default() -> (o: FindOptions)
        ensures
            o.limit is None,
            o.skip is None,
            o.sort is None,
    {
        FindOptions::new()
    }
}

impl VehiclePagination {
    /// The size of a page: what the request asks for, but no more than
    /// `MAX_LIMIT`.
    pub open spec fn capped_limit(&self) -> Option<i64> {
        match self.limit {
            None => None,
            Some(limit) => Some(
                if limit > MAX_LIMIT {
                    MAX_LIMIT
                } else {
                    limit
                },
            ),
        }
    }

    /// The size of a page that the records to pass over are counted with:
    /// `DEFAULT_LIMIT` where the request names none.
    pub open spec fn page_size(&self) -> int {
        match self.capped_limit() {
            None => DEFAULT_LIMIT as int,
            Some(limit) => limit as int,
        }
    }

    /// The number of records that stand before the page asked for: the
    /// pages before it, each of the page size.
    pub open spec fn offset(&self) -> int {
        match self.page {
            None => 0,
            Some(page) => (page - 1) * self.page_size(),
        }
    }

    /// Whether the number of records to pass over can be told to the store.
    pub open spec fn spec_in_bounds(&self) -> bool {
        self.offset() <= u64::MAX
    }

    /// The number of records to pass over: none where that number is not
    /// positive.
    pub open spec fn wanted_skip(&self) -> Option<u64> {
        if self.offset() > 0 {
            Some(self.offset() as u64)
        } else {
            None
        }
    }

    fn offset_wide(&self) -> (r: i128)
        ensures
            r == self.offset(),
    {
        let size: i64 = match self.limit {
            None => DEFAULT_LIMIT,
            Some(limit) => if limit > MAX_LIMIT {
                MAX_LIMIT
            } else {
                limit
            },
        };
        match self.page {
            None => 0,
            Some(page) => {
                let pages: i128 = page as i128 - 1;
                let size: i128 = size as i128;
                assert(-0x8000_0000_0000_0001 <= pages <= 0x7fff_ffff_ffff_fffe);
                assert(-0x8000_0000_0000_0000 <= size <= 100);
                assert(-0x4000_0000_0000_0000_8000_0000_0000_0000 <= pages * size
                    <= 0x4000_0000_0000_0000_8000_0000_0000_0000) by (nonlinear_arith)
                    requires
                        -0x8000_0000_0000_0001 <= pages <= 0x7fff_ffff_ffff_fffe,
                        -0x8000_0000_0000_0000 <= size <= 100,
                ;
                pages * size
            },
        }
    }

    /// Whether the page asked for lies within what the store can count.
    #[verifier::when_used_as_spec(spec_in_bounds)]
    pub fn in_bounds(&self) -> (r: bool)
        ensures
            r == self.spec_in_bounds(),
    {
        self.offset_wide() <= u64::MAX as i128
    }

    /// The options that hand out the page asked for, in the order asked for.
    /// A page size above `MAX_LIMIT` is cut down to it.
    pub fn to_find_options(&self) -> (options: FindOptions)
        requires
            self.spec_in_bounds(),
        ensures
            options.limit == self.capped_limit(),
            options.skip == self.wanted_skip(),
            order_view(options.sort) == wanted_order(self.sort),
    {
        let mut options = FindOptions::new();
        if let Some(limit) = self.limit {
            options.limit = Some(
                if limit > MAX_LIMIT {
                    MAX_LIMIT
                } else {
                    limit
                },
            );
        }
        let skip = self.offset_wide();
        if skip > 0 {
            options.skip = Some(skip as u64);
        }
        if let Some(sort_str) = &self.sort {
            let sort_fields = parse_sort_fields(sort_str.as_str());
            if sort_fields.len() > 0 {
                options.sort = Some(sort_fields);
            }
        }
        options
    }
}

impl VehicleQueryBuilder {
    /// The clauses of the search: none where no criteria are given.
    pub open spec fn wanted_criteria(&self) -> Map<Seq<char>, ClauseView> {
        match self.filters {
            None => Map::empty(),
            Some(filters) => filters.criteria(),
        }
    }

    /// The fields of the search in the order of the filter.
    pub open spec fn wanted_fields(&self) -> Seq<Seq<char>> {
        match self.filters {
            None => Seq::empty(),
            Some(filters) => filters.present_fields(),
        }
    }

    /// Whether the page asked for, if any, lies within what the store can
    /// count.
    pub open spec fn spec_in_bounds(&self) -> bool {
        self.pagination matches Some(pagination) ==> pagination.spec_in_bounds()
    }

    #[verifier::when_used_as_spec(spec_in_bounds)]
    pub fn in_bounds(&self) -> (r: bool)
        ensures
            r == self.spec_in_bounds(),
    {
        match &self.pagination {
            None => true,
            Some(pagination) => pagination.in_bounds(),
        }
    }

    /// The filter and the options for the search. Without criteria the
    /// filter admits every vehicle; without paging the store hands out all
    /// of them in its own order.
    pub fn build_query(&self) -> (query: (Filter, FindOptions))
        requires
            self.spec_in_bounds(),
        ensures
            query.0@ == self.wanted_criteria(),
            query.0.fields() == self.wanted_fields(),
            match self.pagination {
                None => query.1.limit is None && query.1.skip is None && query.1.sort is None,
                Some(pagination) => query.1.limit == pagination.capped_limit() && query.1.skip
                    == pagination.wanted_skip() && order_view(query.1.sort) == wanted_order(
                    pagination.sort,
                ),
            },
    {
        let filter = match &self.filters {
            Some(filters) => filters.to_filter(),
            None => Filter::new(),
        };
        let options = match &self.pagination {
            Some(pagination) => pagination.to_find_options(),
            None => FindOptions::new(),
        };
        (filter, options)
    }
}

impl Default for VehicleQueryBuilder {
    fn default() -> (b: VehicleQueryBuilder)
        ensures
            b.filters is None,
            b.pagination is None,
    {
        VehicleQueryBuilder { filters: None, pagination: None }
    }
}

/// Puts a query for vehicles together, part by part.
#[derive(Clone, Debug)]
pub struct VehicleQueryBuilderBuilder {
    filters: Option<VehicleFilters>,
    pagination: Option<VehiclePagination>,
}

impl VehicleQueryBuilderBuilder {
    pub closed spec fn spec_filters(&self) -> Option<VehicleFilters> {
        self.filters
    }

    pub closed spec fn spec_pagination(&self) -> Option<VehiclePagination> {
        self.pagination
    }

    /// A builder with no part set.
    pub fn new() -> (b: VehicleQueryBuilderBuilder)
        ensures
            b.spec_filters() is None,
            b.spec_pagination() is None,
    {
        VehicleQueryBuilderBuilder { filters: None, pagination: None }
    }

    /// Sets the criteria.
    pub fn filters(self, value: VehicleFilters) -> (b: VehicleQueryBuilderBuilder)
        ensures
            b.spec_filters() == Some(value),
            b.spec_pagination() == self.spec_pagination(),
    {
        VehicleQueryBuilderBuilder { filters: Some(value), pagination: self.pagination }
    }

    /// Sets the paging.
    pub fn pagination(self, value: VehiclePagination) -> (b: VehicleQueryBuilderBuilder)
        ensures
            b.spec_filters() == self.spec_filters(),
            b.spec_pagination() == Some(value),
    {
        VehicleQueryBuilderBuilder { filters: self.filters, pagination: Some(value) }
    }

    /// The query with the parts that were set; a part that was not set is
    /// absent.
    pub fn build(self) -> (q: VehicleQueryBuilder)
        ensures
            q.filters == self.spec_filters(),
            q.pagination == self.spec_pagination(),
    {
        VehicleQueryBuilder { filters: self.filters, pagination: self.pagination }
    }
}

/// The criteria of a search for vehicles as a request writes them: each list
/// as one text with commas between the items.
#[derive(Clone, Debug)]
pub struct VehicleFiltersQuery {
    pub brand: Option<String>,
    pub model: Option<String>,
    pub min_price: Option<i64>,
    pub max_price: Option<i64>,
    pub year_of_production: Option<String>,
    pub fuel_type: Option<String>,
    pub gearbox: Option<String>,
    pub seats: Option<String>,
    pub engine_cc: Option<String>,
    pub has_sidecar: Option<bool>,
    pub added_at_from: Option<i64>,
    pub added_at_to: Option<i64>,
}

/// The items of a list that a request writes, if it writes one.
pub open spec fn written_items(text: Option<String>) -> Option<Seq<Seq<char>>> {
    match text {
        None => present_items(None),
        Some(t) => present_items(Some(t@)),
    }
}

/// Whether each item of a list that a request writes names a value.
pub open spec fn list_readable<T: FromText>(text: Option<String>) -> bool {
    written_items(text) matches Some(items) ==> all_readable::<T>(items)
}

/// Whether a list of values is what a request writes: none where it writes
/// no list or a blank one, else the value of each item.
pub open spec fn list_reads_as<T: FromText>(text: Option<String>, values: Option<Vec<T>>) -> bool {
    match written_items(text) {
        None => values is None,
        Some(items) => values is Some && read_as(items, values->Some_0@),
    }
}

/// Whether an error is the bad request that names a field and complains of
/// the first item of its list that names no value.
pub open spec fn complains_of_field<T: FromText>(
    name: Seq<char>,
    text: Option<String>,
    e: AppError,
) -> bool {
    e.spec_kind() == ErrorKind::BadRequest && written_items(text) is Some && exists|
        reason: Seq<char>,
    |
        complains_of_first::<T>(written_items(text)->Some_0, reason) && e.spec_message() == name
            + ": "@ + reason
}

/// Reads one list of a request. An item that names no value fails the list
/// with a bad request that names the field.
pub fn parse_list<T: FromText>(name: &str, text: &Option<String>) -> (r: AppResult<Option<Vec<T>>>)
    ensures
        r is Ok <==> list_readable::<T>(*text),
        r matches Ok(values) ==> list_reads_as(*text, values),
        r matches Err(e) ==> complains_of_field::<T>(name@, *text, e),
{
    let written = match text {
        None => None,
        Some(t) => Some(t.as_str()),
    };
    match deserialize_comma_separated::<T>(written) {
        Ok(values) => Ok(values),
        Err(reason) => {
            let mut message = name.to_owned();
            message.append(": ");
            message.append(reason.as_str());
            Err(AppError::bad_request(message.as_str()))
        },
    }
}

impl VehicleFiltersQuery {
    /// Whether every list of the request can be read.
    pub open spec fn readable(&self) -> bool {
        &&& list_readable::<Brand>(self.brand)
        &&& list_readable::<String>(self.model)
        &&& list_readable::<u32>(self.year_of_production)
        &&& list_readable::<FuelType>(self.fuel_type)
        &&& list_readable::<Gearbox>(self.gearbox)
        &&& list_readable::<u8>(self.seats)
        &&& list_readable::<u32>(self.engine_cc)
    }

    /// Whether criteria are what the request writes.
    pub open spec fn reads_as(&self, filters: VehicleFilters) -> bool {
        &&& list_reads_as(self.brand, filters.brand)
        &&& list_reads_as(self.model, filters.model)
        &&& list_reads_as(self.year_of_production, filters.year_of_production)
        &&& list_reads_as(self.fuel_type, filters.fuel_type)
        &&& list_reads_as(self.gearbox, filters.gearbox)
        &&& list_reads_as(self.seats, filters.seats)
        &&& list_reads_as(self.engine_cc, filters.engine_cc)
        &&& filters.min_price == self.min_price
        &&& filters.max_price == self.max_price
        &&& filters.has_sidecar == self.has_sidecar
        &&& filters.added_at_from == self.added_at_from
        &&& filters.added_at_to == self.added_at_to
    }

    /// Whether an error complains of the first list of the request that
    /// cannot be read, by the name of its field.
    pub open spec fn complaint_is(&self, e: AppError) -> bool {
        if !list_readable::<Brand>(self.brand) {
            complains_of_field::<Brand>("brand"@, self.brand, e)
        } else if !list_readable::<String>(self.model) {
            complains_of_field::<String>("model"@, self.model, e)
        } else if !list_readable::<u32>(self.year_of_production) {
            complains_of_field::<u32>("year_of_production"@, self.year_of_production, e)
        } else if !list_readable::<FuelType>(self.fuel_type) {
            complains_of_field::<FuelType>("fuel_type"@, self.fuel_type, e)
        } else if !list_readable::<Gearbox>(self.gearbox) {
            complains_of_field::<Gearbox>("gearbox"@, self.gearbox, e)
        } else if !list_readable::<u8>(self.seats) {
            complains_of_field::<u8>("seats"@, self.seats, e)
        } else {
            complains_of_field::<u32>("engine_cc"@, self.engine_cc, e)
        }
    }

    /// Reads the criteria of a request. A list with an item that names no
    /// value fails the request with a bad request that names the field.
    pub fn parse(&self) -> (r: AppResult<VehicleFilters>)
        ensures
            r is Ok <==> self.readable(),
            r matches Ok(filters) ==> self.reads_as(filters),
            r matches Err(e) ==> self.complaint_is(e),
    {
        let brand = match parse_list::<Brand>("brand", &self.brand) {
            Ok(values) => values,
            Err(e) => {
                return Err(e);
            },
        };
        let model = match parse_list::<String>("model", &self.model) {
            Ok(values) => values,
            Err(e) => {
                return Err(e);
            },
        };
        let year_of_production = match parse_list::<u32>(
            "year_of_production",
            &self.year_of_production,
        ) {
            Ok(values) => values,
            Err(e) => {
                return Err(e);
            },
        };
        let fuel_type = match parse_list::<FuelType>("fuel_type", &self.fuel_type) {
            Ok(values) => values,
            Err(e) => {
                return Err(e);
            },
        };
        let gearbox = match parse_list::<Gearbox>("gearbox", &self.gearbox) {
            Ok(values) => values,
            Err(e) => {
                return Err(e);
            },
        };
        let seats = match parse_list::<u8>("seats", &self.seats) {
            Ok(values) => values,
            Err(e) => {
                return Err(e);
            },
        };
        let engine_cc = match parse_list::<u32>("engine_cc", &self.engine_cc) {
            Ok(values) => values,
            Err(e) => {
                return Err(e);
            },
        };
        Ok(
            VehicleFilters {
                brand,
                model,
                min_price: self.min_price,
                max_price: self.max_price,
                year_of_production,
                fuel_type,
                gearbox,
                seats,
                engine_cc,
                has_sidecar: self.has_sidecar,
                added_at_from: self.added_at_from,
                added_at_to: self.added_at_to,
            },
        )
    }
}

} // verus!
