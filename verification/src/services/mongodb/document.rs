use crate::models::date::is_calendar_date;
use crate::models::object_id::IdBytes;
use crate::models::vehicle_query::{FindOptions, VehicleFilters};
use crate::services::mongodb::filter::{
    entries_map, entry_fields, Clause, ClauseView, Filter, Value, ValueView,
};
use bson::{Bson, Document};
use chrono::NaiveDate;
use vstd::prelude::*;
use vstd::string::*;

verus! {

/// The documents of the `bson` crate: fields with values, in the order in
/// which the fields first came.
#[verifier::external_type_specification]
#[verifier::external_body]
pub struct ExDocument(bson::Document);

/// The values of the `bson` crate.
#[verifier::external_type_specification]
#[verifier::external_body]
pub struct ExBson(bson::Bson);

/// What a value of a document is, as far as this library makes such values.
pub ghost enum Node {
    Int32(i32),
    Int64(i64),
    Text(Seq<char>),
    Bool(bool),
    /// An object identifier, by its twelve bytes.
    Id(Seq<u8>),
    Instant(i64),
    List(Seq<Node>),
    Doc(Map<Seq<char>, Node>),
}

/// What a value holds.
pub uninterp spec fn bson_node(value: Bson) -> Node;

/// What a document holds: the value of each of its fields.
pub uninterp spec fn document_nodes(doc: Document) -> Map<Seq<char>, Node>;

/// The fields of a document in the order in which it holds them.
pub uninterp spec fn document_order(doc: Document) -> Seq<Seq<char>>;

/// The order of fields once a field is set: a field that is there keeps its
/// place, a new one comes last.
pub open spec fn order_with(order: Seq<Seq<char>>, field: Seq<char>) -> Seq<Seq<char>> {
    if order.contains(field) {
        order
    } else {
        order.push(field)
    }
}

/// The values of a document without fields.
pub open spec fn no_nodes() -> Map<Seq<char>, Node> {
    Map::empty()
}

/// `Document::new`: a document without fields.
#[verifier::external_body]
fn new_document() -> (doc: Document)
    ensures
        document_nodes(doc) == no_nodes(),
        document_order(doc) == Seq::<Seq<char>>::empty(),
{
    Document::new()
}

/// `Document::insert`: the field holds the value afterwards, in place of the
/// value it had if it was there; the other fields are as they were. A field
/// that was there keeps its place in the order, a new one comes last.
#[verifier::external_body]
fn put(doc: &mut Document, key: &str, value: Bson)
    ensures
        document_nodes(*final(doc)) == document_nodes(*old(doc)).insert(key@, bson_node(value)),
        document_order(*final(doc)) == order_with(document_order(*old(doc)), key@),
{
    doc.insert(key, value);
}

/// `Bson::from` on an `i32`: the 32-bit integer.
#[verifier::external_body]
fn int32_bson(v: i32) -> (value: Bson)
    ensures
        bson_node(value) == Node::Int32(v),
{
    Bson::from(v)
}

/// `Bson::from` on an `i64`: the 64-bit integer.
#[verifier::external_body]
fn int64_bson(v: i64) -> (value: Bson)
    ensures
        bson_node(value) == Node::Int64(v),
{
    Bson::from(v)
}

/// `Bson::from` on a `&str`: the string with the same characters.
#[verifier::external_body]
fn text_bson(text: &str) -> (value: Bson)
    ensures
        bson_node(value) == Node::Text(text@),
{
    Bson::from(text)
}

/// `Bson::from` on a `bool`: the boolean.
#[verifier::external_body]
fn bool_bson(b: bool) -> (value: Bson)
    ensures
        bson_node(value) == Node::Bool(b),
{
    Bson::from(b)
}

/// `Bson::from` on twelve bytes: the object identifier with these bytes.
#[verifier::external_body]
fn id_bson(bytes: IdBytes) -> (value: Bson)
    ensures
        bson_node(value) == Node::Id(bytes@),
{
    Bson::from(bytes)
}

/// `bson::DateTime::from_millis`, then `Bson::from`: the moment that many
/// milliseconds after the Unix epoch.
#[verifier::external_body]
fn instant_bson(millis: i64) -> (value: Bson)
    ensures
        bson_node(value) == Node::Instant(millis),
{
    Bson::from(bson::DateTime::from_millis(millis))
}

/// `bson::to_bson` on the `chrono::NaiveDate` of a year, month and day: the
/// string that `chrono` writes for the date, which for the years 0 to 9999 is
/// `yyyy-mm-dd`. For a day of the calendar `chrono` has a date, and writing a
/// date as a string does not fail.
#[verifier::external_body]
fn day_bson(year: i32, month: u32, day: u32) -> (r: Result<Bson, String>)
    requires
        is_calendar_date(year as int, month as int, day as int),
    ensures
        r is Ok,
        r matches Ok(value) ==> bson_node(value) == Node::Text(
            iso_date(year as int, month as int, day as int),
        ),
{
    match NaiveDate::from_ymd_opt(year, month, day) {
        Some(date) => bson::to_bson(&date).map_err(|e| e.to_string()),
        None => Err(String::new()),
    }
}

/// `Bson::from` on a `Vec<Bson>`: the array of the values in their order.
#[verifier::external_body]
fn array_bson(items: Vec<Bson>) -> (value: Bson)
    ensures
        bson_node(value) == Node::List(items@.map_values(|item: Bson| bson_node(item))),
{
    Bson::from(items)
}

/// `Bson::from` on a `Document`: the document as a value.
#[verifier::external_body]
fn document_bson(doc: Document) -> (value: Bson)
    ensures
        bson_node(value) == Node::Doc(document_nodes(doc)),
{
    Bson::from(doc)
}

/// The character that writes a digit.
pub open spec fn digit_char(n: int) -> char {
    (('0' as int + n) as u8) as char
}

/// A number below 100 written with two digits.
pub open spec fn two_digits(n: int) -> Seq<char> {
    seq![digit_char(n / 10), digit_char(n % 10)]
}

/// A day of the years 0 to 9999 written as `yyyy-mm-dd`.
pub open spec fn iso_date(year: int, month: int, day: int) -> Seq<char> {
    two_digits(year / 100) + two_digits(year % 100) + seq!['-'] + two_digits(month) + seq!['-']
        + two_digits(day)
}

/// What a value of a clause is in a document.
pub open spec fn value_node(value: ValueView) -> Node {
    match value {
        ValueView::Int32(v) => Node::Int32(v),
        ValueView::Int64(v) => Node::Int64(v),
        ValueView::Text(v) => Node::Text(v),
        ValueView::Bool(v) => Node::Bool(v),
        ValueView::Id(v) => Node::Id(v.spec_bytes()),
        ValueView::Day(v) => Node::Text(iso_date(v.spec_year(), v.spec_month(), v.spec_day())),
        ValueView::Instant(v) => Node::Instant(v),
    }
}

/// The bounds of a range in a document: the lower one under `$gte`, the
/// upper one under `$lte`, each only where it is given.
pub open spec fn range_nodes(
    min: Option<ValueView>,
    max: Option<ValueView>,
) -> Map<Seq<char>, Node> {
    let bounds = Map::<Seq<char>, Node>::empty();
    let bounds = match min {
        Some(low) => bounds.insert("$gte"@, value_node(low)),
        None => bounds,
    };
    match max {
        Some(high) => bounds.insert("$lte"@, value_node(high)),
        None => bounds,
    }
}

/// What a clause is in a document: the value itself for an exact match, the
/// list of values under `$in` for membership, the bounds for a range.
pub open spec fn clause_node(clause: ClauseView) -> Node {
    match clause {
        ClauseView::Equal(value) => value_node(value),
        ClauseView::In(values) => Node::Doc(
            Map::<Seq<char>, Node>::empty().insert(
                "$in"@,
                Node::List(values.map_values(|v: ValueView| value_node(v))),
            ),
        ),
        ClauseView::Range { min, max } => Node::Doc(range_nodes(min, max)),
    }
}

/// What the clauses of a filter are in a document: each under its field.
pub open spec fn filter_nodes(clauses: Map<Seq<char>, ClauseView>) -> Map<Seq<char>, Node> {
    clauses.map_values(|clause: ClauseView| clause_node(clause))
}

/// The value as the store takes it. A calendar day goes as the text that
/// `chrono` writes for it.
pub fn value_to_bson(value: &Value) -> (b: Bson)
    ensures
        bson_node(b) == value_node(value@),
{
    match value {
        Value::Int32(v) => int32_bson(*v),
        Value::Int64(v) => int64_bson(*v),
        Value::Text(v) => text_bson(v.as_str()),
        Value::Bool(v) => bool_bson(*v),
        Value::Id(v) => id_bson(v.to_bytes()),
        Value::Instant(v) => instant_bson(*v),
        Value::Day(v) => {
            let (year, month, day) = v.ymd();
            match day_bson(year, month, day) {
                Ok(b) => b,
                Err(_) => vstd::pervasive::unreached(),
            }
        },
    }
}

/// The clause as the store takes it.
pub fn clause_to_bson(clause: &Clause) -> (b: Bson)
    ensures
        bson_node(b) == clause_node(clause@),
{
    match clause {
        Clause::Equal(value) => value_to_bson(value),
        Clause::In(values) => {
            let mut items: Vec<Bson> = Vec::new();
            let mut i: usize = 0;
            while i < values.len()
                invariant
                    i <= values@.len(),
                    items@.len() == i,
                    clause@ == ClauseView::In(values@.map_values(|v: Value| v@)),
                    forall|j: int|
                        0 <= j && j < i ==> bson_node(#[trigger] items@[j]) == value_node(
                            values@[j]@,
                        ),
                decreases values@.len() - i,
            {
                items.push(value_to_bson(&values[i]));
                i += 1;
            }
            proof {
                assert(items@.map_values(|item: Bson| bson_node(item)) =~= clause@->In_0.map_values(
                    |v: ValueView| value_node(v),
                ));
            }
            let mut inner = new_document();
            put(&mut inner, "$in", array_bson(items));
            document_bson(inner)
        },
        Clause::Range { min, max } => {
            let mut inner = new_document();
            if let Some(low) = min {
                put(&mut inner, "$gte", value_to_bson(low));
            }
            if let Some(high) = max {
                put(&mut inner, "$lte", value_to_bson(high));
            }
            document_bson(inner)
        },
    }
}

impl Filter {
    /// The document that asks the store for the records that the filter
    /// admits: each clause under its field, the fields in the order of the
    /// filter. Every filter has one.
    pub fn to_document(&self) -> (doc: Document)
        ensures
            document_nodes(doc) == filter_nodes(self@),
            document_order(doc) == self.fields(),
    {
        let n = self.len();
        let ghost entries = self.entries();
        let mut doc = new_document();
        let mut i: usize = 0;
        proof {
            assert(filter_nodes(entries_map(entries.take(0))) =~= Map::<Seq<char>, Node>::empty());
            assert(entry_fields(entries.take(0)) =~= Seq::<Seq<char>>::empty());
        }
        while i < n
            invariant
                i <= n,
                n == entries.len(),
                entries == self.entries(),
                self@ == entries_map(entries),
                crate::services::mongodb::filter::distinct_fields(entries),
                document_nodes(doc) == filter_nodes(entries_map(entries.take(i as int))),
                document_order(doc) == entry_fields(entries.take(i as int)),
            decreases n - i,
        {
            let field = self.field_at(i);
            let clause = self.clause_at(i);
            proof {
                crate::services::mongodb::filter::lemma_entry_is_in_map(entries, i as int);
                let before = entries.take(i as int);
                crate::services::mongodb::filter::lemma_keys_are_fields(before, field@);
                if entry_fields(before).contains(field@) {
                    let j = choose|j: int|
                        0 <= j < before.len() && (#[trigger] before[j]).0@ == field@;
                    assert(entries[j].0@ == entries[i as int].0@);
                }
                assert(entry_fields(entries.take(i + 1)) =~= entry_fields(before).push(field@));
            }
            put(&mut doc, field, clause_to_bson(clause));
            proof {
                let before = entries.take(i as int);
                let after = entries.take(i + 1);
                assert(after.drop_last() =~= before);
                assert(after.last() == entries[i as int]);
                assert(filter_nodes(entries_map(after)) =~= filter_nodes(
                    entries_map(before),
                ).insert(field@, clause_node(clause@)));
            }
            i += 1;
        }
        proof {
            assert(entries.take(n as int) =~= entries);
        }
        doc
    }
}

impl VehicleFilters {
    /// The document that asks the store for the vehicles that meet the
    /// criteria.
    pub fn to_bson_filter(&self) -> (doc: Document)
        ensures
            document_nodes(doc) == filter_nodes(self.criteria()),
            document_order(doc) == self.present_fields(),
    {
        self.to_filter().to_document()
    }
}

/// The fields of an order of sorting as a document holds them: each field
/// once, where it first stands.
pub open spec fn sort_fields(keys: Seq<(String, i32)>) -> Seq<Seq<char>>
    decreases keys.len(),
{
    if keys.len() == 0 {
        Seq::empty()
    } else {
        order_with(sort_fields(keys.drop_last()), keys.last().0@)
    }
}

/// What an order of sorting is in a document: the direction of each field
/// under the field's name; of two directions for one field the later counts.
pub open spec fn sort_nodes(keys: Seq<(String, i32)>) -> Map<Seq<char>, Node>
    decreases keys.len(),
{
    if keys.len() == 0 {
        Map::empty()
    } else {
        sort_nodes(keys.drop_last()).insert(keys.last().0@, Node::Int32(keys.last().1))
    }
}

impl FindOptions {
    /// The document that tells the store the order of sorting, if one is
    /// asked for.
    pub fn sort_document(&self) -> (r: Option<Document>)
        ensures
            match self.sort {
                None => r is None,
                Some(keys) => r is Some && document_nodes(r->Some_0) == sort_nodes(keys@)
                    && document_order(r->Some_0) == sort_fields(keys@),
            },
    {
        match &self.sort {
            None => None,
            Some(keys) => {
                let mut doc = new_document();
                let mut i: usize = 0;
                while i < keys.len()
                    invariant
                        i <= keys@.len(),
                        document_nodes(doc) == sort_nodes(keys@.take(i as int)),
                        document_order(doc) == sort_fields(keys@.take(i as int)),
                    decreases keys@.len() - i,
                {
                    proof {
                        assert(keys@.take(i + 1).drop_last() =~= keys@.take(i as int));
                    }
                    put(&mut doc, keys[i].0.as_str(), int32_bson(keys[i].1));
                    i += 1;
                }
                proof {
                    assert(keys@.take(i as int) =~= keys@);
                }
                Some(doc)
            },
        }
    }
}

} // verus!
