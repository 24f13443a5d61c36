use crate::authentication::identity::Role;
use crate::models::booking::StatusTag;
use crate::models::date::Date;
use crate::models::object_id::ObjectId;
use crate::models::vehicle::{Brand, CarModel, FuelType, Gearbox, MotorbikeModel, VehicleType};
use crate::services::mongodb::filter::{
    met, satisfied_by, Clause, ClauseView, Filter, Record, Value, ValueView,
};
use vstd::prelude::*;
use vstd::string::*;

verus! {

/// A type whose values a clause can ask for.
pub trait ToValue {
    /// The value as the store holds it. A number that is held narrower in
    /// memory is widened to the width the store has for it.
    spec fn value(&self) -> ValueView;

    fn to_value(&self) -> (v: Value)
        ensures
            v@ == self.value(),
    ;
}

impl ToValue for i32 {
    open spec fn value(&self) -> ValueView {
        ValueView::Int32(*self)
    }

    fn to_value(&self) -> (v: Value) {
        Value::Int32(*self)
    }
}

impl ToValue for i64 {
    open spec fn value(&self) -> ValueView {
        ValueView::Int64(*self)
    }

    fn to_value(&self) -> (v: Value) {
        Value::Int64(*self)
    }
}

impl ToValue for u8 {
    open spec fn value(&self) -> ValueView {
        ValueView::Int32(*self as i32)
    }

    fn to_value(&self) -> (v: Value) {
        Value::Int32(*self as i32)
    }
}

impl ToValue for u32 {
    open spec fn value(&self) -> ValueView {
        if *self <= i32::MAX {
            ValueView::Int32(*self as i32)
        } else {
            ValueView::Int64(*self as i64)
        }
    }

    fn to_value(&self) -> (v: Value) {
        if *self <= i32::MAX as u32 {
            Value::Int32(*self as i32)
        } else {
            Value::Int64(*self as i64)
        }
    }
}

impl ToValue for bool {
    open spec fn value(&self) -> ValueView {
        ValueView::Bool(*self)
    }

    fn to_value(&self) -> (v: Value) {
        Value::Bool(*self)
    }
}

impl ToValue for String {
    open spec fn value(&self) -> ValueView {
        ValueView::Text(self@)
    }

    fn to_value(&self) -> (v: Value) {
        Value::Text(self.clone())
    }
}

impl ToValue for ObjectId {
    open spec fn value(&self) -> ValueView {
        ValueView::Id(*self)
    }

    fn to_value(&self) -> (v: Value) {
        Value::Id(*self)
    }
}

impl ToValue for Date {
    open spec fn value(&self) -> ValueView {
        ValueView::Day(*self)
    }

    fn to_value(&self) -> (v: Value) {
        Value::Day(*self)
    }
}

impl ToValue for Value {
    open spec fn value(&self) -> ValueView {
        self@
    }

    fn to_value(&self) -> (v: Value) {
        self.duplicate()
    }
}

/// A type whose values are compared by their canonical text.
pub trait CanonicalText {
    spec fn text(&self) -> Seq<char>;

    fn to_text(&self) -> (s: String)
        ensures
            s@ == self.text(),
    ;
}

impl CanonicalText for String {
    open spec fn text(&self) -> Seq<char> {
        self@
    }

    fn to_text(&self) -> (s: String) {
        self.clone()
    }
}

impl CanonicalText for Brand {
    open spec fn text(&self) -> Seq<char> {
        self.name()
    }

    fn to_text(&self) -> (s: String) {
        self.to_string()
    }
}

impl CanonicalText for FuelType {
    open spec fn text(&self) -> Seq<char> {
        self.name()
    }

    fn to_text(&self) -> (s: String) {
        self.to_string()
    }
}

impl CanonicalText for Gearbox {
    open spec fn text(&self) -> Seq<char> {
        self.name()
    }

    fn to_text(&self) -> (s: String) {
        self.to_string()
    }
}

impl CanonicalText for VehicleType {
    open spec fn text(&self) -> Seq<char> {
        self.name()
    }

    fn to_text(&self) -> (s: String) {
        self.to_string()
    }
}

impl CanonicalText for CarModel {
    open spec fn text(&self) -> Seq<char> {
        self.name()
    }

    fn to_text(&self) -> (s: String) {
        self.to_string()
    }
}

impl CanonicalText for MotorbikeModel {
    open spec fn text(&self) -> Seq<char> {
        self.name()
    }

    fn to_text(&self) -> (s: String) {
        self.to_string()
    }
}

impl CanonicalText for Role {
    open spec fn text(&self) -> Seq<char> {
        self.name()
    }

    fn to_text(&self) -> (s: String) {
        self.to_string()
    }
}

impl CanonicalText for StatusTag {
    open spec fn text(&self) -> Seq<char> {
        self.name()
    }

    fn to_text(&self) -> (s: String) {
        self.to_string()
    }
}

/// The values that a list of items stands for.
pub open spec fn item_values<T: ToValue>(items: Seq<T>) -> Seq<ValueView> {
    items.map_values(|item: T| item.value())
}

/// The texts that a list of items stands for, as values.
pub open spec fn item_texts<T: CanonicalText>(items: Seq<T>) -> Seq<ValueView> {
    items.map_values(|item: T| ValueView::Text(item.text()))
}

/// The clause that asks for one of the wanted values: none where nothing is
/// wanted, an exact match for one value, membership for more.
pub open spec fn equality_clause(wanted: Option<Seq<ValueView>>) -> Option<ClauseView> {
    match wanted {
        None => None,
        Some(values) => if values.len() == 0 {
            None
        } else if values.len() == 1 {
            Some(ClauseView::Equal(values[0]))
        } else {
            Some(ClauseView::In(values))
        },
    }
}

/// The clause that asks for a value between two bounds: none where both are
/// absent.
pub open spec fn range_clause(
    min: Option<ValueView>,
    max: Option<ValueView>,
) -> Option<ClauseView> {
    if min is None && max is None {
        None
    } else {
        Some(ClauseView::Range { min, max })
    }
}

/// The clause that asks for a flag: none where the flag is not set.
pub open spec fn boolean_clause(flag: Option<bool>) -> Option<ClauseView> {
    match flag {
        None => None,
        Some(b) => Some(ClauseView::Equal(ValueView::Bool(b))),
    }
}

/// The clauses with one more for a field, or unchanged where the criterion is
/// absent.
pub open spec fn with_clause(
    clauses: Map<Seq<char>, ClauseView>,
    field: Seq<char>,
    clause: Option<ClauseView>,
) -> Map<Seq<char>, ClauseView> {
    match clause {
        None => clauses,
        Some(c) => clauses.insert(field, c),
    }
}

/// The fields of a filter with one more for a criterion that is present and
/// about a field that is not yet there.
pub open spec fn with_field(
    fields: Seq<Seq<char>>,
    field: Seq<char>,
    clause: Option<ClauseView>,
) -> Seq<Seq<char>> {
    if clause is Some && !fields.contains(field) {
        fields.push(field)
    } else {
        fields
    }
}

/// The values of the items, if there are any.
pub open spec fn wanted_values<T: ToValue>(values: Option<Vec<T>>) -> Option<Seq<ValueView>> {
    match values {
        None => None,
        Some(items) => Some(item_values(items@)),
    }
}

/// The texts of the items, if there are any.
pub open spec fn wanted_texts<T: CanonicalText>(values: Option<Vec<T>>) -> Option<Seq<ValueView>> {
    match values {
        None => None,
        Some(items) => Some(item_texts(items@)),
    }
}

/// The value of a bound, if there is one.
pub open spec fn wanted_bound<T: ToValue>(bound: Option<T>) -> Option<ValueView> {
    match bound {
        None => None,
        Some(item) => Some(item.value()),
    }
}

/// Turns the criteria of a search into the clauses of a filter.
pub struct QueryBuilder;

impl QueryBuilder {
    pub fn new() -> (b: QueryBuilder) {
        QueryBuilder
    }

    /// Asks that a field hold one of the values. Without values the filter
    /// stays as it is.
    pub fn add_filter<T: ToValue>(
        &self,
        filter: &mut Filter,
        field: &str,
        values: &Option<Vec<T>>,
    )
        ensures
            final(filter)@ == with_clause(
                old(filter)@,
                field@,
                equality_clause(wanted_values(*values)),
            ),
            final(filter).fields() == with_field(
                old(filter).fields(),
                field@,
                equality_clause(wanted_values(*values)),
            ),
    {
        if let Some(vals) = values {
            if vals.len() == 0 {
                return ;
            }
            if vals.len() == 1 {
                filter.insert(field, Clause::Equal(vals[0].to_value()));
            } else {
                let mut wanted: Vec<Value> = Vec::new();
                let mut i: usize = 0;
                while i < vals.len()
                    invariant
                        i <= vals@.len(),
                        wanted@.len() == i,
                        forall|j: int| 0 <= j < i ==> (#[trigger] wanted@[j])@ == vals@[j].value(),
                    decreases vals@.len() - i,
                {
                    wanted.push(vals[i].to_value());
                    i += 1;
                }
                assert(wanted@.map_values(|v: Value| v@) =~= item_values(vals@));
                filter.insert(field, Clause::In(wanted));
            }
        }
    }

    /// Asks that a field hold the canonical text of one of the values.
    /// Without values the filter stays as it is.
    pub fn add_string_filter<T: CanonicalText>(
        &self,
        filter: &mut Filter,
        field: &str,
        values: &Option<Vec<T>>,
    )
        ensures
            final(filter)@ == with_clause(
                old(filter)@,
                field@,
                equality_clause(wanted_texts(*values)),
            ),
            final(filter).fields() == with_field(
                old(filter).fields(),
                field@,
                equality_clause(wanted_texts(*values)),
            ),
    {
        if let Some(vals) = values {
            if vals.len() == 0 {
                return ;
            }
            if vals.len() == 1 {
                filter.insert(field, Clause::Equal(Value::Text(vals[0].to_text())));
            } else {
                let mut wanted: Vec<Value> = Vec::new();
                let mut i: usize = 0;
                while i < vals.len()
                    invariant
                        i <= vals@.len(),
                        wanted@.len() == i,
                        forall|j: int|
                            0 <= j < i ==> (#[trigger] wanted@[j])@ == ValueView::Text(
                                vals@[j].text(),
                            ),
                    decreases vals@.len() - i,
                {
                    wanted.push(Value::Text(vals[i].to_text()));
                    i += 1;
                }
                assert(wanted@.map_values(|v: Value| v@) =~= item_texts(vals@));
                filter.insert(field, Clause::In(wanted));
            }
        }
    }

    /// Asks that a field hold a value of at least `min_val` and at most
    /// `max_val`, where they are given. Without bounds the filter stays as
    /// it is.
    pub fn add_range_filter<T: ToValue>(
        &self,
        filter: &mut Filter,
        field: &str,
        min_val: Option<T>,
        max_val: Option<T>,
    )
        ensures
            final(filter)@ == with_clause(
                old(filter)@,
                field@,
                range_clause(wanted_bound(min_val), wanted_bound(max_val)),
            ),
            final(filter).fields() == with_field(
                old(filter).fields(),
                field@,
                range_clause(wanted_bound(min_val), wanted_bound(max_val)),
            ),
    {
        if min_val.is_none() && max_val.is_none() {
            return ;
        }
        let min = match &min_val {
            Some(bound) => Some(bound.to_value()),
            None => None,
        };
        let max = match &max_val {
            Some(bound) => Some(bound.to_value()),
            None => None,
        };
        filter.insert(field, Clause::Range { min, max });
    }

    /// Asks that a field hold the flag, where it is set. Without a flag the
    /// filter stays as it is.
    pub fn add_boolean_filter(&self, filter: &mut Filter, field: &str, value: Option<bool>)
        ensures
            final(filter)@ == with_clause(old(filter)@, field@, boolean_clause(value)),
            final(filter).fields() == with_field(
                old(filter).fields(),
                field@,
                boolean_clause(value),
            ),
    {
        if let Some(val) = value {
            filter.insert(field, Clause::Equal(Value::Bool(val)));
        }
    }
}

impl Default for QueryBuilder {
    fn default() -> (b: QueryBuilder) {
        QueryBuilder::new()
    }
}

/// A record meets the clauses with one more exactly if it meets the others
/// and the new one.
pub proof fn lemma_insert_adds_a_condition(
    clauses: Map<Seq<char>, ClauseView>,
    field: Seq<char>,
    clause: ClauseView,
    record: Record,
)
    ensures
        satisfied_by(clauses.insert(field, clause), record) <==> satisfied_by(
            clauses.remove(field),
            record,
        ) && record.contains_key(field) && clause.admits(record[field]),
{
    let more = clauses.insert(field, clause);
    let rest = clauses.remove(field);
    if satisfied_by(more, record) {
        assert(more.contains_key(field));
        assert forall|f: Seq<char>| #[trigger] rest.contains_key(f) implies met(
            rest,
            record,
            f,
        ) by {
            assert(more.contains_key(f));
        }
    }
    if satisfied_by(rest, record) && record.contains_key(field) && clause.admits(record[field]) {
        assert forall|f: Seq<char>| #[trigger] more.contains_key(f) implies met(
            more,
            record,
            f,
        ) by {
            if f != field {
                assert(rest.contains_key(f));
            }
        }
    }
}

/// A criterion for a field that has no clause yet adds its own condition and
/// leaves the others as they are.
pub proof fn lemma_fresh_criterion(
    clauses: Map<Seq<char>, ClauseView>,
    field: Seq<char>,
    clause: Option<ClauseView>,
    record: Record,
)
    requires
        !clauses.contains_key(field),
    ensures
        satisfied_by(with_clause(clauses, field, clause), record) <==> satisfied_by(clauses, record)
            && criterion_met(clause, field, record),
        forall|other: Seq<char>|
            with_clause(clauses, field, clause).contains_key(other) ==> clauses.contains_key(other)
                || other == field,
{
    if let Some(c) = clause {
        let more = clauses.insert(field, c);
        if satisfied_by(more, record) {
            assert(more.contains_key(field));
            assert forall|f: Seq<char>| #[trigger] clauses.contains_key(f) implies met(
                clauses,
                record,
                f,
            ) by {
                assert(more.contains_key(f));
            }
        }
        if satisfied_by(clauses, record) && criterion_met(clause, field, record) {
            assert forall|f: Seq<char>| #[trigger] more.contains_key(f) implies met(
                more,
                record,
                f,
            ) by {
                if f != field {
                    assert(clauses.contains_key(f));
                }
            }
        }
    }
}

/// An absent criterion contributes nothing, and a filter without clauses
/// admits every record.
pub proof fn lemma_absent_criterion(
    clauses: Map<Seq<char>, ClauseView>,
    field: Seq<char>,
    record: Record,
)
    ensures
        with_clause(clauses, field, None) == clauses,
        equality_clause(None) is None,
        equality_clause(Some(Seq::empty())) is None,
        range_clause(None, None) is None,
        boolean_clause(None) is None,
        satisfied_by(Map::empty(), record),
{
}

/// The order in which two criteria for different fields are added does not
/// change the filter, nor the records that it admits.
pub proof fn lemma_order_independent(
    clauses: Map<Seq<char>, ClauseView>,
    first: Seq<char>,
    a: Option<ClauseView>,
    second: Seq<char>,
    b: Option<ClauseView>,
    record: Record,
)
    requires
        first != second,
    ensures
        with_clause(with_clause(clauses, first, a), second, b) == with_clause(
            with_clause(clauses, second, b),
            first,
            a,
        ),
        satisfied_by(with_clause(with_clause(clauses, first, a), second, b), record)
            == satisfied_by(with_clause(with_clause(clauses, second, b), first, a), record),
{
    assert(with_clause(with_clause(clauses, first, a), second, b) =~= with_clause(
        with_clause(clauses, second, b),
        first,
        a,
    ));
}

/// Adding the same criterion a second time changes nothing.
pub proof fn lemma_idempotent(
    clauses: Map<Seq<char>, ClauseView>,
    field: Seq<char>,
    clause: Option<ClauseView>,
)
    ensures
        with_clause(with_clause(clauses, field, clause), field, clause) == with_clause(
            clauses,
            field,
            clause,
        ),
{
    assert(with_clause(with_clause(clauses, field, clause), field, clause) =~= with_clause(
        clauses,
        field,
        clause,
    ));
}

/// A criterion of wanted values admits a value exactly if the value equals
/// one of them.
pub proof fn lemma_equality_clause_admits(wanted: Seq<ValueView>, value: ValueView)
    requires
        wanted.len() > 0,
    ensures
        equality_clause(Some(wanted)) is Some,
        equality_clause(Some(wanted))->Some_0.admits(value) <==> value.among(wanted),
{
    if wanted.len() == 1 {
        if value.same(wanted[0]) {
            assert(0 <= 0 && 0 < wanted.len() && value.same(wanted[0]));
        }
    }
}

/// A range with only a lower bound admits exactly the values of at least the
/// bound, however large.
pub proof fn lemma_range_min_only(min: ValueView, value: ValueView)
    ensures
        range_clause(Some(min), None) matches Some(clause) && (clause.admits(value)
            <==> min.at_most(value)),
{
}

/// A range with only an upper bound admits exactly the values of at most the
/// bound, however small.
pub proof fn lemma_range_max_only(max: ValueView, value: ValueView)
    ensures
        range_clause(None, Some(max)) matches Some(clause) && (clause.admits(value)
            <==> value.at_most(max)),
{
}

/// A range with both bounds admits exactly the values between them, the
/// bounds included.
pub proof fn lemma_range_min_max(min: ValueView, max: ValueView, value: ValueView)
    ensures
        range_clause(Some(min), Some(max)) matches Some(clause) && (clause.admits(value) <==> (
        min.at_most(value) && value.at_most(max))),
        min.at_most(min) ==> (range_clause(Some(min), Some(max))->Some_0.admits(min)
            <==> min.at_most(max)),
{
}

/// A criterion of a search: the field it is about and the clause it stands
/// for, none where the criterion is absent.
pub type Criterion = (Seq<char>, Option<ClauseView>);

/// The clauses of the filter that is built from a list of criteria, one
/// after the other.
pub open spec fn built(criteria: Seq<Criterion>) -> Map<Seq<char>, ClauseView>
    decreases criteria.len(),
{
    if criteria.len() == 0 {
        Map::empty()
    } else {
        with_clause(built(criteria.drop_last()), criteria.last().0, criteria.last().1)
    }
}

/// Whether no two criteria are about the same field.
pub open spec fn distinct_criteria(criteria: Seq<Criterion>) -> bool {
    forall|i: int, j: int| 0 <= i < j < criteria.len() ==> criteria[i].0 != criteria[j].0
}

/// Whether a record meets a criterion: an absent criterion asks for nothing,
/// a present one for the field to be there with a value that it admits.
pub open spec fn criterion_met(
    clause: Option<ClauseView>,
    field: Seq<char>,
    record: Record,
) -> bool {
    clause matches Some(c) ==> record.contains_key(field) && c.admits(record[field])
}

/// Whether a record meets each criterion of a list.
pub open spec fn all_met(criteria: Seq<Criterion>, record: Record) -> bool {
    forall|i: int|
        0 <= i && i < criteria.len() ==> criterion_met(
            (#[trigger] criteria[i]).1,
            criteria[i].0,
            record,
        )
}

proof fn lemma_distinct_front(criteria: Seq<Criterion>)
    requires
        distinct_criteria(criteria),
        criteria.len() > 0,
    ensures
        distinct_criteria(criteria.drop_last()),
{
    let front = criteria.drop_last();
    assert forall|i: int, j: int| 0 <= i < j < front.len() implies front[i].0 != front[j].0 by {
        assert(criteria[i].0 != criteria[j].0);
    }
}

/// A built filter has a clause for a field exactly where a present criterion
/// is about the field.
pub proof fn lemma_built_domain(criteria: Seq<Criterion>, field: Seq<char>)
    ensures
        built(criteria).contains_key(field) <==> exists|i: int|
            0 <= i && i < criteria.len() && (#[trigger] criteria[i]).0 == field
                && criteria[i].1 is Some,
    decreases criteria.len(),
{
    if criteria.len() > 0 {
        let front = criteria.drop_last();
        let last = criteria.last();
        lemma_built_domain(front, field);
        if built(criteria).contains_key(field) {
            if last.0 == field && last.1 is Some {
                assert(criteria[criteria.len() - 1].0 == field);
            } else {
                let i = choose|i: int|
                    0 <= i && i < front.len() && (#[trigger] front[i]).0 == field && front[i].1
                        is Some;
                assert(criteria[i] == front[i]);
            }
        }
        if exists|i: int|
            0 <= i && i < criteria.len() && (#[trigger] criteria[i]).0 == field && criteria[i].1
                is Some {
            let i = choose|i: int|
                0 <= i && i < criteria.len() && (#[trigger] criteria[i]).0 == field
                    && criteria[i].1 is Some;
            if i < front.len() {
                assert(front[i] == criteria[i]);
            }
        }
    }
}

/// Of criteria about different fields, each present one is the clause that
/// the built filter has for its field.
pub proof fn lemma_built_clause(criteria: Seq<Criterion>, i: int)
    requires
        distinct_criteria(criteria),
        0 <= i < criteria.len(),
        criteria[i].1 is Some,
    ensures
        built(criteria).contains_key(criteria[i].0),
        built(criteria)[criteria[i].0] == criteria[i].1->Some_0,
    decreases criteria.len(),
{
    if i < criteria.len() - 1 {
        let front = criteria.drop_last();
        lemma_distinct_front(criteria);
        assert(front[i] == criteria[i]);
        lemma_built_clause(front, i);
        assert(criteria[i].0 != criteria[criteria.len() - 1].0);
    }
}

/// A record meets a filter built from criteria about different fields
/// exactly if it meets each of the criteria.
pub proof fn lemma_built_meaning(criteria: Seq<Criterion>, record: Record)
    requires
        distinct_criteria(criteria),
    ensures
        satisfied_by(built(criteria), record) <==> all_met(criteria, record),
{
    let clauses = built(criteria);
    if satisfied_by(clauses, record) {
        assert forall|i: int| 0 <= i && i < criteria.len() implies criterion_met(
            (#[trigger] criteria[i]).1,
            criteria[i].0,
            record,
        ) by {
            if criteria[i].1 is Some {
                lemma_built_clause(criteria, i);
                assert(clauses.contains_key(criteria[i].0));
            }
        }
    }
    if all_met(criteria, record) {
        assert forall|field: Seq<char>| #[trigger] clauses.contains_key(field) implies met(
            clauses,
            record,
            field,
        ) by {
            lemma_built_domain(criteria, field);
            let i = choose|i: int|
                0 <= i && i < criteria.len() && (#[trigger] criteria[i]).0 == field
                    && criteria[i].1 is Some;
            lemma_built_clause(criteria, i);
            assert(criterion_met(criteria[i].1, criteria[i].0, record));
        }
    }
}

/// Two lists of the same criteria, each about a field of its own, build the
/// same filter, in whatever order the criteria stand; so the two filters
/// admit the same records.
pub proof fn lemma_insertion_order(a: Seq<Criterion>, b: Seq<Criterion>, record: Record)
    requires
        distinct_criteria(a),
        distinct_criteria(b),
        forall|c: Criterion| a.contains(c) <==> b.contains(c),
    ensures
        built(a) == built(b),
        satisfied_by(built(a), record) == satisfied_by(built(b), record),
{
    lemma_built_covers(a, b);
    lemma_built_covers(b, a);
    assert(built(a) =~= built(b));
}

proof fn lemma_built_covers(a: Seq<Criterion>, b: Seq<Criterion>)
    requires
        distinct_criteria(a),
        distinct_criteria(b),
        forall|c: Criterion| a.contains(c) ==> b.contains(c),
    ensures
        forall|field: Seq<char>| #[trigger]
            built(a).contains_key(field) ==> built(b).contains_key(field) && built(b)[field]
                == built(a)[field],
{
    assert forall|field: Seq<char>| #[trigger] built(a).contains_key(field) implies built(
        b,
    ).contains_key(field) && built(b)[field] == built(a)[field] by {
        lemma_built_domain(a, field);
        let i = choose|i: int|
            0 <= i && i < a.len() && (#[trigger] a[i]).0 == field && a[i].1 is Some;
        lemma_built_clause(a, i);
        assert(a.contains(a[i]));
        assert(b.contains(a[i]));
        let j = choose|j: int| 0 <= j < b.len() && b[j] == a[i];
        lemma_built_clause(b, j);
    }
}

/// Building a filter from the same criteria a second time, on top of the
/// first, gives the same filter.
pub proof fn lemma_built_twice(criteria: Seq<Criterion>)
    requires
        distinct_criteria(criteria),
    ensures
        built(criteria + criteria) == built(criteria),
{
    lemma_built_again(criteria, criteria.len() as int);
    assert(criteria + criteria.take(criteria.len() as int) =~= criteria + criteria);
}

proof fn lemma_built_again(criteria: Seq<Criterion>, n: int)
    requires
        distinct_criteria(criteria),
        0 <= n <= criteria.len(),
    ensures
        built(criteria + criteria.take(n)) == built(criteria),
    decreases n,
{
    if n == 0 {
        assert(criteria + criteria.take(0) =~= criteria);
    } else {
        lemma_built_again(criteria, n - 1);
        let longer = criteria + criteria.take(n);
        assert(longer.drop_last() =~= criteria + criteria.take(n - 1));
        assert(longer.last() == criteria[n - 1]);
        if criteria[n - 1].1 is Some {
            lemma_built_clause(criteria, n - 1);
            assert(built(criteria).insert(criteria[n - 1].0, criteria[n - 1].1->Some_0) =~= built(
                criteria,
            ));
        }
    }
}

} // verus!
