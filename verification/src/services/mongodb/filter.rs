use crate::models::date::Date;
use crate::models::object_id::ObjectId;
use crate::util::text::text_eq;
use vstd::prelude::*;
use vstd::string::*;

verus! {

/// A value that a field of a record can hold and that a clause can ask for.
#[derive(Debug, PartialEq)]
pub enum Value {
    Int32(i32),
    Int64(i64),
    Text(String),
    Bool(bool),
    Id(ObjectId),
    /// A calendar day.
    Day(Date),
    /// A moment, in milliseconds since the Unix epoch.
    Instant(i64),
}

pub ghost enum ValueView {
    Int32(i32),
    Int64(i64),
    Text(Seq<char>),
    Bool(bool),
    Id(ObjectId),
    Day(Date),
    Instant(i64),
}

impl View for Value {
    type V = ValueView;

    open spec fn view(&self) -> ValueView {
        match self {
            Value::Int32(v) => ValueView::Int32(*v),
            Value::Int64(v) => ValueView::Int64(*v),
            Value::Text(v) => ValueView::Text(v@),
            Value::Bool(v) => ValueView::Bool(*v),
            Value::Id(v) => ValueView::Id(*v),
            Value::Day(v) => ValueView::Day(*v),
            Value::Instant(v) => ValueView::Instant(*v),
        }
    }
}

impl Value {
    /// A copy that holds the same value.
    pub fn duplicate(&self) -> (r: Value)
        ensures
            r@ == self@,
    {
        match self {
            Value::Int32(v) => Value::Int32(*v),
            Value::Int64(v) => Value::Int64(*v),
            Value::Text(v) => Value::Text(v.clone()),
            Value::Bool(v) => Value::Bool(*v),
            Value::Id(v) => Value::Id(*v),
            Value::Day(v) => Value::Day(*v),
            Value::Instant(v) => Value::Instant(*v),
        }
    }
}

impl ValueView {
    /// The number that the value is, whatever its width.
    pub open spec fn number(self) -> Option<int> {
        match self {
            ValueView::Int32(v) => Some(v as int),
            ValueView::Int64(v) => Some(v as int),
            _ => None,
        }
    }

    /// Where the value stands among the values it can be compared with:
    /// numbers among numbers, days among days, moments among moments. Other
    /// values have no order.
    pub open spec fn rank(self) -> Option<(int, int)> {
        match self {
            ValueView::Int32(v) => Some((0, v as int)),
            ValueView::Int64(v) => Some((0, v as int)),
            ValueView::Day(v) => Some((1, v.key())),
            ValueView::Instant(v) => Some((2, v as int)),
            _ => None,
        }
    }

    /// Whether two values are equal as the store compares them: numbers by
    /// what they count, whatever their width; all else by kind and content.
    pub open spec fn same(self, other: ValueView) -> bool {
        match (self.number(), other.number()) {
            (Some(a), Some(b)) => a == b,
            _ => self == other,
        }
    }

    /// Whether the value equals one of the others.
    pub open spec fn among(self, others: Seq<ValueView>) -> bool {
        exists|i: int| 0 <= i && i < others.len() && self.same(#[trigger] others[i])
    }

    /// Whether this value is at most the other, for two values that can be
    /// compared.
    pub open spec fn at_most(self, other: ValueView) -> bool {
        match (self.rank(), other.rank()) {
            (Some(a), Some(b)) => a.0 == b.0 && a.1 <= b.1,
            _ => false,
        }
    }
}

/// The views of a list of values.
pub open spec fn values_view(values: Seq<Value>) -> Seq<ValueView> {
    values.map_values(|v: Value| v@)
}

/// The view of a value that may be absent.
pub open spec fn bound_view(bound: Option<Value>) -> Option<ValueView> {
    match bound {
        None => None,
        Some(v) => Some(v@),
    }
}

/// What a filter asks of one field.
#[derive(Debug, PartialEq)]
pub enum Clause {
    /// The field holds this value.
    Equal(Value),
    /// The field holds one of these values.
    In(Vec<Value>),
    /// The field holds a value between the bounds, both included; a bound
    /// that is absent asks for nothing.
    Range { min: Option<Value>, max: Option<Value> },
}

pub ghost enum ClauseView {
    Equal(ValueView),
    In(Seq<ValueView>),
    Range { min: Option<ValueView>, max: Option<ValueView> },
}

impl View for Clause {
    type V = ClauseView;

    open spec fn view(&self) -> ClauseView {
        match self {
            Clause::Equal(v) => ClauseView::Equal(v@),
            Clause::In(vs) => ClauseView::In(values_view(vs@)),
            Clause::Range { min, max } => ClauseView::Range {
                min: bound_view(*min),
                max: bound_view(*max),
            },
        }
    }
}

impl ClauseView {
    /// Whether a value meets the clause.
    pub open spec fn admits(self, value: ValueView) -> bool {
        match self {
            ClauseView::Equal(wanted) => value.same(wanted),
            ClauseView::In(wanted) => value.among(wanted),
            ClauseView::Range { min, max } => {
                &&& (min matches Some(low) ==> low.at_most(value))
                &&& (max matches Some(high) ==> value.at_most(high))
            },
        }
    }
}

/// A stored record as a filter sees it: the value of each field, by the
/// field's path.
pub type Record = Map<Seq<char>, ValueView>;

/// Whether a record meets the clause for a field: the field is there and
/// holds a value that the clause admits.
pub open spec fn met(
    clauses: Map<Seq<char>, ClauseView>,
    record: Record,
    field: Seq<char>,
) -> bool {
    record.contains_key(field) && clauses[field].admits(record[field])
}

/// Whether a record meets every clause.
pub open spec fn satisfied_by(clauses: Map<Seq<char>, ClauseView>, record: Record) -> bool {
    forall|field: Seq<char>| #[trigger] clauses.contains_key(field) ==> met(clauses, record, field)
}

/// The clauses of a list of entries by their fields; of two entries for one
/// field the later counts.
pub open spec fn entries_map(entries: Seq<(String, Clause)>) -> Map<Seq<char>, ClauseView>
    decreases entries.len(),
{
    if entries.len() == 0 {
        Map::empty()
    } else {
        entries_map(entries.drop_last()).insert(entries.last().0@, entries.last().1@)
    }
}

/// Whether no two entries are for the same field.
pub open spec fn distinct_fields(entries: Seq<(String, Clause)>) -> bool {
    forall|i: int, j: int| 0 <= i < j < entries.len() ==> entries[i].0@ != entries[j].0@
}

/// The fields of a list of entries, in their order.
pub open spec fn entry_fields(entries: Seq<(String, Clause)>) -> Seq<Seq<char>> {
    entries.map_values(|entry: (String, Clause)| entry.0@)
}

/// A field has a clause exactly if an entry is for it.
pub proof fn lemma_keys_are_fields(entries: Seq<(String, Clause)>, field: Seq<char>)
    ensures
        entries_map(entries).contains_key(field) <==> entry_fields(entries).contains(field),
        entry_fields(entries).contains(field) <==> exists|i: int|
            0 <= i < entries.len() && (#[trigger] entries[i]).0@ == field,
{
    lemma_entries_map_domain(entries, field);
    let fields = entry_fields(entries);
    if fields.contains(field) {
        let i = choose|i: int| 0 <= i < fields.len() && fields[i] == field;
        assert(entries[i].0@ == field);
    }
    if exists|i: int| 0 <= i < entries.len() && (#[trigger] entries[i]).0@ == field {
        let i = choose|i: int| 0 <= i < entries.len() && (#[trigger] entries[i]).0@ == field;
        assert(fields[i] == field);
    }
}

proof fn lemma_entries_map_domain(entries: Seq<(String, Clause)>, field: Seq<char>)
    ensures
        entries_map(entries).contains_key(field) <==> exists|i: int|
            0 <= i < entries.len() && (#[trigger] entries[i]).0@ == field,
    decreases entries.len(),
{
    if entries.len() > 0 {
        let front = entries.drop_last();
        lemma_entries_map_domain(front, field);
        if entries_map(entries).contains_key(field) {
            if entries.last().0@ == field {
                assert(entries[entries.len() - 1].0@ == field);
            } else {
                let i = choose|i: int| 0 <= i < front.len() && (#[trigger] front[i]).0@ == field;
                assert(entries[i].0@ == field);
            }
        }
        if exists|i: int| 0 <= i < entries.len() && (#[trigger] entries[i]).0@ == field {
            let i = choose|i: int| 0 <= i < entries.len() && (#[trigger] entries[i]).0@ == field;
            if i < front.len() {
                assert(front[i].0@ == field);
            }
        }
    }
}

/// The clause of an entry is the clause that the map has for the entry's
/// field.
pub proof fn lemma_entry_is_in_map(entries: Seq<(String, Clause)>, i: int)
    requires
        distinct_fields(entries),
        0 <= i < entries.len(),
    ensures
        entries_map(entries).contains_key(entries[i].0@),
        entries_map(entries)[entries[i].0@] == entries[i].1@,
    decreases entries.len(),
{
    let front = entries.drop_last();
    if i < entries.len() - 1 {
        assert(distinct_fields(front)) by {
            assert forall|a: int, b: int| 0 <= a < b < front.len() implies front[a].0@
                != front[b].0@ by {
                assert(entries[a].0@ != entries[b].0@);
            }
        }
        lemma_entry_is_in_map(front, i);
        assert(front[i] == entries[i]);
        assert(entries[i].0@ != entries[entries.len() - 1].0@);
    }
}

proof fn lemma_entries_map_update(entries: Seq<(String, Clause)>, i: int, entry: (String, Clause))
    requires
        distinct_fields(entries),
        0 <= i < entries.len(),
        entries[i].0@ == entry.0@,
    ensures
        distinct_fields(entries.update(i, entry)),
        entries_map(entries.update(i, entry)) == entries_map(entries).insert(entry.0@, entry.1@),
    decreases entries.len(),
{
    let after = entries.update(i, entry);
    assert(distinct_fields(after)) by {
        assert forall|a: int, b: int| 0 <= a < b < after.len() implies after[a].0@
            != after[b].0@ by {
            assert(entries[a].0@ != entries[b].0@);
        }
    }
    let front = entries.drop_last();
    if i == entries.len() - 1 {
        assert(after.drop_last() =~= front);
        assert(entries_map(after) =~= entries_map(entries).insert(entry.0@, entry.1@));
    } else {
        assert(distinct_fields(front)) by {
            assert forall|a: int, b: int| 0 <= a < b < front.len() implies front[a].0@
                != front[b].0@ by {
                assert(entries[a].0@ != entries[b].0@);
            }
        }
        lemma_entries_map_update(front, i, entry);
        assert(after.drop_last() =~= front.update(i, entry));
        assert(after.last() == entries.last());
        assert(entries[i].0@ != entries[entries.len() - 1].0@);
        assert(entries_map(after) =~= entries_map(entries).insert(entry.0@, entry.1@));
    }
}

/// The criteria of a search: at most one clause for a field.
#[derive(Debug, PartialEq)]
pub struct Filter {
    entries: Vec<(String, Clause)>,
}

impl View for Filter {
    type V = Map<Seq<char>, ClauseView>;

    closed spec fn view(&self) -> Map<Seq<char>, ClauseView> {
        entries_map(self.entries@)
    }
}

impl Filter {
    #[verifier::type_invariant]
    spec fn distinct(&self) -> bool {
        distinct_fields(self.entries@)
    }

    /// The fields and clauses in the order in which the fields first came.
    pub closed spec fn entries(&self) -> Seq<(String, Clause)> {
        self.entries@
    }

    /// The fields that have a clause, in the order in which they first came.
    pub open spec fn fields(&self) -> Seq<Seq<char>> {
        entry_fields(self.entries())
    }

    /// The fields that have a clause are the fields of the view.
    pub proof fn lemma_fields_are_domain(&self, field: Seq<char>)
        ensures
            self@.contains_key(field) <==> self.fields().contains(field),
    {
        lemma_keys_are_fields(self.entries@, field);
    }

    /// The filter that every record meets.
    pub fn new() -> (f: Filter)
        ensures
            f@ == Map::<Seq<char>, ClauseView>::empty(),
            f.entries().len() == 0,
            f.fields() == Seq::<Seq<char>>::empty(),
    {
        assert(entry_fields(Seq::<(String, Clause)>::empty()) =~= Seq::<Seq<char>>::empty());
        Filter { entries: Vec::new() }
    }

    /// The number of fields that the filter has a clause for.
    pub fn len(&self) -> (n: usize)
        ensures
            n == self.entries().len(),
            self@ == entries_map(self.entries()),
            distinct_fields(self.entries()),
    {
        proof {
            use_type_invariant(self);
        }
        self.entries.len()
    }

    /// Whether the filter has no clause, and so admits every record.
    pub fn is_empty(&self) -> (r: bool)
        ensures
            r == (self@ == Map::<Seq<char>, ClauseView>::empty()),
    {
        proof {
            if self.entries@.len() > 0 {
                assert(self@.contains_key(self.entries@.last().0@));
            }
        }
        self.entries.len() == 0
    }

    /// The field of the entry at a position.
    pub fn field_at(&self, i: usize) -> (field: &str)
        requires
            i < self.entries().len(),
        ensures
            field@ == self.entries()[i as int].0@,
    {
        self.entries[i].0.as_str()
    }

    /// The clause of the entry at a position.
    pub fn clause_at(&self, i: usize) -> (clause: &Clause)
        requires
            i < self.entries().len(),
        ensures
            *clause == self.entries()[i as int].1,
    {
        &self.entries[i].1
    }

    fn position(&self, field: &str) -> (r: Option<usize>)
        ensures
            match r {
                Some(i) => i < self.entries@.len() && self.entries@[i as int].0@ == field@,
                None => forall|i: int|
                    0 <= i < self.entries@.len() ==> (#[trigger] self.entries@[i]).0@ != field@,
            },
    {
        let mut i: usize = 0;
        while i < self.entries.len()
            invariant
                i <= self.entries@.len(),
                forall|j: int| 0 <= j < i ==> (#[trigger] self.entries@[j]).0@ != field@,
            decreases self.entries@.len() - i,
        {
            if text_eq(self.entries[i].0.as_str(), field) {
                return Some(i);
            }
            i += 1;
        }
        None
    }

    /// Whether the filter has a clause for the field.
    pub fn contains_key(&self, field: &str) -> (r: bool)
        ensures
            r == self@.contains_key(field@),
    {
        proof {
            lemma_entries_map_domain(self.entries@, field@);
        }
        self.position(field).is_some()
    }

    /// The clause for a field, if the filter has one.
    pub fn get(&self, field: &str) -> (r: Option<&Clause>)
        ensures
            match r {
                Some(clause) => self@.contains_key(field@) && self@[field@] == clause@,
                None => !self@.contains_key(field@),
            },
    {
        proof {
            use_type_invariant(self);
            lemma_entries_map_domain(self.entries@, field@);
        }
        match self.position(field) {
            Some(i) => {
                proof {
                    lemma_entry_is_in_map(self.entries@, i as int);
                }
                Some(&self.entries[i].1)
            },
            None => None,
        }
    }

    /// Sets the clause for a field, in place of the one it had.
    pub fn insert(&mut self, field: &str, clause: Clause)
        ensures
            final(self)@ == old(self)@.insert(field@, clause@),
            final(self).fields() == if old(self).fields().contains(field@) {
                old(self).fields()
            } else {
                old(self).fields().push(field@)
            },
    {
        proof {
            use_type_invariant(&*self);
        }
        let found = self.position(field);
        let entry = (field.to_owned(), clause);
        let mut taken = Filter::new();
        std::mem::swap(self, &mut taken);
        let mut entries = taken.entries;
        let ghost before = entries@;
        proof {
            lemma_keys_are_fields(before, field@);
        }
        match found {
            Some(i) => {
                proof {
                    lemma_entries_map_update(entries@, i as int, entry);
                }
                entries.set(i, entry);
                assert(entry_fields(entries@) =~= entry_fields(before));
            },
            None => {
                proof {
                    let after = entries@.push(entry);
                    assert(after.drop_last() =~= entries@);
                    assert(distinct_fields(after));
                }
                entries.push(entry);
                assert(entry_fields(entries@) =~= entry_fields(before).push(field@));
            },
        }
        *self = Filter { entries };
    }
}

/// The value that a record has for a field, if it has the field.
pub open spec fn lookup(record: Record, field: Seq<char>) -> Option<ValueView> {
    if record.contains_key(field) {
        Some(record[field])
    } else {
        None
    }
}

/// The values of a list of fields by their names; of two values for one
/// field the later counts.
pub open spec fn fields_map(fields: Seq<(String, Value)>) -> Record
    decreases fields.len(),
{
    if fields.len() == 0 {
        Map::empty()
    } else {
        fields_map(fields.drop_last()).insert(fields.last().0@, fields.last().1@)
    }
}

/// A record as the store holds it, for trying a filter without a store.
#[derive(Debug, PartialEq)]
pub struct StoredRecord {
    fields: Vec<(String, Value)>,
}

impl View for StoredRecord {
    type V = Record;

    closed spec fn view(&self) -> Record {
        fields_map(self.fields@)
    }
}

impl StoredRecord {
    /// The record without fields.
    pub fn new() -> (record: StoredRecord)
        ensures
            record@ == Map::<Seq<char>, ValueView>::empty(),
    {
        StoredRecord { fields: Vec::new() }
    }

    /// Sets the value of a field, in place of the one it had.
    pub fn set(&mut self, field: &str, value: Value)
        ensures
            final(self)@ == old(self)@.insert(field@, value@),
    {
        let entry = (field.to_owned(), value);
        proof {
            assert(self.fields@.push(entry).drop_last() =~= self.fields@);
        }
        self.fields.push(entry);
    }

    /// The value of a field, if the record has the field.
    pub fn get(&self, field: &str) -> (r: Option<&Value>)
        ensures
            match r {
                Some(value) => lookup(self@, field@) == Some(value@),
                None => lookup(self@, field@) is None,
            },
    {
        let mut i: usize = self.fields.len();
        proof {
            assert(self.fields@.take(i as int) =~= self.fields@);
        }
        while i > 0
            invariant
                i <= self.fields@.len(),
                lookup(self@, field@) == lookup(fields_map(self.fields@.take(i as int)), field@),
            decreases i,
        {
            proof {
                assert(self.fields@.take(i as int).drop_last() =~= self.fields@.take(i - 1));
            }
            if text_eq(self.fields[i - 1].0.as_str(), field) {
                return Some(&self.fields[i - 1].1);
            }
            i -= 1;
        }
        None
    }
}

impl Value {
    /// Whether two values are equal as the store compares them.
    pub fn same(&self, other: &Value) -> (r: bool)
        ensures
            r == self@.same(other@),
    {
        match (self, other) {
            (Value::Int32(a), Value::Int32(b)) => *a == *b,
            (Value::Int32(a), Value::Int64(b)) => *a as i64 == *b,
            (Value::Int64(a), Value::Int32(b)) => *a == *b as i64,
            (Value::Int64(a), Value::Int64(b)) => *a == *b,
            (Value::Text(a), Value::Text(b)) => text_eq(a.as_str(), b.as_str()),
            (Value::Bool(a), Value::Bool(b)) => *a == *b,
            (Value::Id(a), Value::Id(b)) => *a == *b,
            (Value::Day(a), Value::Day(b)) => *a == *b,
            (Value::Instant(a), Value::Instant(b)) => *a == *b,
            _ => false,
        }
    }

    /// Whether this value is at most the other, for two values that can be
    /// compared.
    pub fn at_most(&self, other: &Value) -> (r: bool)
        ensures
            r == self@.at_most(other@),
    {
        match (self, other) {
            (Value::Int32(a), Value::Int32(b)) => *a <= *b,
            (Value::Int32(a), Value::Int64(b)) => *a as i64 <= *b,
            (Value::Int64(a), Value::Int32(b)) => *a <= *b as i64,
            (Value::Int64(a), Value::Int64(b)) => *a <= *b,
            (Value::Day(a), Value::Day(b)) => a.le(*b),
            (Value::Instant(a), Value::Instant(b)) => *a <= *b,
            _ => false,
        }
    }
}

impl Clause {
    /// Whether a value meets the clause.
    pub fn admits(&self, value: &Value) -> (r: bool)
        ensures
            r == self@.admits(value@),
    {
        match self {
            Clause::Equal(wanted) => value.same(wanted),
            Clause::In(wanted) => {
                let mut i: usize = 0;
                while i < wanted.len()
                    invariant
                        i <= wanted@.len(),
                        self@ == ClauseView::In(values_view(wanted@)),
                        forall|j: int|
                            0 <= j && j < i ==> !value@.same(#[trigger] values_view(wanted@)[j]),
                    decreases wanted@.len() - i,
                {
                    if value.same(&wanted[i]) {
                        assert(value@.same(values_view(wanted@)[i as int]));
                        return true;
                    }
                    i += 1;
                }
                false
            },
            Clause::Range { min, max } => {
                let above = match min {
                    Some(low) => low.at_most(value),
                    None => true,
                };
                let below = match max {
                    Some(high) => value.at_most(high),
                    None => true,
                };
                above && below
            },
        }
    }
}

impl Filter {
    /// Whether a record meets every clause of the filter.
    pub fn admits(&self, record: &StoredRecord) -> (r: bool)
        ensures
            r == satisfied_by(self@, record@),
    {
        proof {
            use_type_invariant(self);
        }
        let mut i: usize = 0;
        while i < self.entries.len()
            invariant
                i <= self.entries@.len(),
                distinct_fields(self.entries@),
                forall|j: int|
                    0 <= j && j < i ==> record@.contains_key((#[trigger] self.entries@[j]).0@)
                        && self.entries@[j].1@.admits(record@[self.entries@[j].0@]),
            decreases self.entries@.len() - i,
        {
            let met = match record.get(self.entries[i].0.as_str()) {
                Some(value) => self.entries[i].1.admits(value),
                None => false,
            };
            if !met {
                proof {
                    lemma_entry_is_in_map(self.entries@, i as int);
                }
                return false;
            }
            i += 1;
        }
        proof {
            assert forall|field: Seq<char>| #[trigger] self@.contains_key(field) implies met(
                self@,
                record@,
                field,
            ) by {
                lemma_entries_map_domain(self.entries@, field);
                let j = choose|j: int|
                    0 <= j < self.entries@.len() && (#[trigger] self.entries@[j]).0@ == field;
                lemma_entry_is_in_map(self.entries@, j);
            }
        }
        true
    }
}

} // verus!
