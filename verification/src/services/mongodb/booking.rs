use crate::models::booking::{Booking, BookingStatus, BookingView, StatusTag};
use crate::models::date::Date;
use crate::models::object_id::ObjectId;
use crate::services::mongodb::filter::{
    met, satisfied_by, ClauseView, Filter, Record, StoredRecord, Value, ValueView,
};
use crate::services::mongodb::query_builder::{
    equality_clause, range_clause, with_clause, QueryBuilder,
};
use vstd::prelude::*;
use vstd::string::*;

verus! {

/// Whether two ranges of days, each with its first and last day, have a day
/// in common. Two ranges that only touch, the one ending on the day the other
/// begins, have that day in common.
pub open spec fn overlaps(a_start: Date, a_end: Date, b_start: Date, b_end: Date) -> bool {
    a_start.key() <= b_end.key() && a_end.key() >= b_start.key()
}

/// Whether a booking stands in the way of a reservation of a vehicle for a
/// range of days: it is for the same vehicle, still live, and its days
/// overlap the range.
pub open spec fn conflicts(
    booking: BookingView,
    vehicle_id: ObjectId,
    from_date: Date,
    to_date: Date,
) -> bool {
    booking.vehicle_id == vehicle_id && booking.is_live() && overlaps(
        booking.from_date,
        booking.to_date,
        from_date,
        to_date,
    )
}

/// Whether one of the bookings stands in the way of the reservation.
pub open spec fn any_conflict(
    bookings: Seq<Booking>,
    vehicle_id: ObjectId,
    from_date: Date,
    to_date: Date,
) -> bool {
    exists|i: int|
        0 <= i && i < bookings.len() && conflicts(
            (#[trigger] bookings[i])@,
            vehicle_id,
            from_date,
            to_date,
        )
}

/// A booking as the store holds it: the value of each field by its name. The
/// state is held as its canonical text, with the reason beside it where the
/// state has one.
pub open spec fn booking_record(booking: BookingView) -> Record {
    let record = Map::<Seq<char>, ValueView>::empty().insert(
        "vehicle_id"@,
        ValueView::Id(booking.vehicle_id),
    ).insert("customer_id"@, ValueView::Text(booking.customer_id)).insert(
        "from_date"@,
        ValueView::Day(booking.from_date),
    ).insert("to_date"@, ValueView::Day(booking.to_date)).insert(
        "status"@,
        ValueView::Text(booking.status.tag.name()),
    ).insert("order_date"@, ValueView::Instant(booking.order_date));
    let record = if booking.status.tag.is_terminal() {
        record.insert("reason"@, ValueView::Text(booking.status.reason))
    } else {
        record
    };
    match booking.id {
        None => record,
        Some(id) => record.insert("_id"@, ValueView::Id(id)),
    }
}

impl Booking {
    /// The booking as the store holds it.
    pub fn to_record(&self) -> (record: StoredRecord)
        ensures
            record@ == booking_record(self@),
    {
        let mut record = StoredRecord::new();
        record.set("vehicle_id", Value::Id(self.vehicle_id));
        record.set("customer_id", Value::Text(self.customer_id.clone()));
        record.set("from_date", Value::Day(self.from_date));
        record.set("to_date", Value::Day(self.to_date));
        record.set("status", Value::Text(self.status.to_string()));
        record.set("order_date", Value::Instant(self.order_date));
        match &self.status {
            BookingStatus::Rejected(reason) | BookingStatus::Cancelled(reason) => {
                record.set("reason", Value::Text(reason.clone()));
            },
            _ => {},
        }
        if let Some(id) = self.id {
            record.set("_id", Value::Id(id));
        }
        record
    }
}

/// The two states in which a booking is live, as the store holds them.
pub open spec fn live_states() -> Seq<ValueView> {
    seq![
        ValueView::Text(StatusTag::Pending.name()),
        ValueView::Text(StatusTag::Confirmed.name()),
    ]
}

/// The clauses that ask the store for the bookings that stand in the way of
/// a reservation.
pub open spec fn overlap_criteria(
    vehicle_id: ObjectId,
    from_date: Date,
    to_date: Date,
) -> Map<Seq<char>, ClauseView> {
    let c = Map::<Seq<char>, ClauseView>::empty();
    let c = with_clause(c, "vehicle_id"@, Some(ClauseView::Equal(ValueView::Id(vehicle_id))));
    let c = with_clause(c, "from_date"@, range_clause(None, Some(ValueView::Day(to_date))));
    let c = with_clause(c, "to_date"@, range_clause(Some(ValueView::Day(from_date)), None));
    with_clause(c, "status"@, equality_clause(Some(live_states())))
}

/// The filter that admits exactly the stored bookings that stand in the way
/// of a reservation of the vehicle from `from_date` to `to_date`.
pub fn overlap_filter(vehicle_id: ObjectId, from_date: Date, to_date: Date) -> (filter: Filter)
    ensures
        filter@ == overlap_criteria(vehicle_id, from_date, to_date),
{
    let builder = QueryBuilder::new();
    let mut filter = Filter::new();
    let mut ids: Vec<ObjectId> = Vec::new();
    ids.push(vehicle_id);
    let ids = Some(ids);
    builder.add_filter(&mut filter, "vehicle_id", &ids);
    builder.add_range_filter(&mut filter, "from_date", None, Some(to_date));
    builder.add_range_filter(&mut filter, "to_date", Some(from_date), None);
    let mut live: Vec<StatusTag> = Vec::new();
    live.push(StatusTag::Pending);
    live.push(StatusTag::Confirmed);
    let live = Some(live);
    builder.add_string_filter(&mut filter, "status", &live);
    proof {
        let ids_view = crate::services::mongodb::query_builder::wanted_values(ids);
        assert(ids_view->Some_0 =~= seq![ValueView::Id(vehicle_id)]);
        let live_view = crate::services::mongodb::query_builder::wanted_texts(live);
        assert(live_view->Some_0 =~= live_states());
    }
    filter
}

/// Whether one of the bookings stands in the way of a reservation of the
/// vehicle from `from_date` to `to_date`. Bookings of other vehicles and
/// bookings that were rejected or cancelled never do.
pub fn has_overlapping_bookings(
    bookings: &Vec<Booking>,
    vehicle_id: ObjectId,
    from_date: Date,
    to_date: Date,
) -> (r: bool)
    ensures
        r == any_conflict(bookings@, vehicle_id, from_date, to_date),
{
    let mut i: usize = 0;
    while i < bookings.len()
        invariant
            i <= bookings@.len(),
            forall|j: int|
                0 <= j && j < i ==> !conflicts(
                    (#[trigger] bookings@[j])@,
                    vehicle_id,
                    from_date,
                    to_date,
                ),
        decreases bookings@.len() - i,
    {
        let booking = &bookings[i];
        if booking.vehicle_id == vehicle_id && booking.status.is_live() && booking.from_date.le(
            to_date,
        ) && from_date.le(booking.to_date) {
            assert(conflicts(bookings@[i as int]@, vehicle_id, from_date, to_date));
            return true;
        }
        i += 1;
    }
    false
}

/// The names of the four states are four different texts, and the fields of
/// a stored booking are different fields.
pub proof fn lemma_booking_texts_differ()
    ensures
        StatusTag::Pending.name().len() == 7,
        StatusTag::Confirmed.name().len() == 9 && StatusTag::Confirmed.name()[1] == 'O',
        StatusTag::Rejected.name().len() == 8,
        StatusTag::Cancelled.name().len() == 9 && StatusTag::Cancelled.name()[1] == 'A',
        "vehicle_id"@.len() == 10,
        "customer_id"@.len() == 11,
        "from_date"@.len() == 9,
        "to_date"@.len() == 7,
        "status"@.len() == 6 && "status"@[0] == 's',
        "reason"@.len() == 6 && "reason"@[0] == 'r',
        "order_date"@.len() == 10 && "order_date"@[0] == 'o',
        "vehicle_id"@[0] == 'v',
        "_id"@.len() == 3,
{
    reveal_strlit("PENDING");
    reveal_strlit("CONFIRMED");
    reveal_strlit("REJECTED");
    reveal_strlit("CANCELLED");
    reveal_strlit("vehicle_id");
    reveal_strlit("customer_id");
    reveal_strlit("from_date");
    reveal_strlit("to_date");
    reveal_strlit("status");
    reveal_strlit("reason");
    reveal_strlit("order_date");
    reveal_strlit("_id");
}

/// The overlap filter admits a stored booking exactly if the booking stands
/// in the way of the reservation: same vehicle, live, and
/// `booking.from <= to` and `booking.to >= from`.
pub proof fn lemma_overlap_filter_meaning(
    booking: BookingView,
    vehicle_id: ObjectId,
    from_date: Date,
    to_date: Date,
)
    ensures
        satisfied_by(overlap_criteria(vehicle_id, from_date, to_date), booking_record(booking))
            <==> conflicts(booking, vehicle_id, from_date, to_date),
{
    lemma_booking_texts_differ();
    let criteria = overlap_criteria(vehicle_id, from_date, to_date);
    let record = booking_record(booking);
    let states = live_states();
    let state = ValueView::Text(booking.status.tag.name());
    assert(record["vehicle_id"@] == ValueView::Id(booking.vehicle_id));
    assert(record["from_date"@] == ValueView::Day(booking.from_date));
    assert(record["to_date"@] == ValueView::Day(booking.to_date));
    assert(record["status"@] == state);
    assert(criteria["vehicle_id"@] == ClauseView::Equal(ValueView::Id(vehicle_id)));
    assert(criteria["from_date"@] == ClauseView::Range {
        min: None,
        max: Some(ValueView::Day(to_date)),
    });
    assert(criteria["to_date"@] == ClauseView::Range {
        min: Some(ValueView::Day(from_date)),
        max: None,
    });
    assert(criteria["status"@] == ClauseView::In(states));
    assert(state.among(states) <==> booking.is_live()) by {
        if booking.is_live() {
            if booking.status.tag == StatusTag::Pending {
                assert(state.same(states[0]));
            } else {
                assert(state.same(states[1]));
            }
        }
    }
    if conflicts(booking, vehicle_id, from_date, to_date) {
        assert forall|field: Seq<char>| #[trigger] criteria.contains_key(field) implies met(
            criteria,
            record,
            field,
        ) by {}
    }
    if satisfied_by(criteria, record) {
        assert(criteria.contains_key("vehicle_id"@));
        assert(criteria.contains_key("from_date"@));
        assert(criteria.contains_key("to_date"@));
        assert(criteria.contains_key("status"@));
    }
}

/// Whether two ranges overlap does not depend on which of them is named
/// first.
pub proof fn lemma_overlap_symmetric(a_start: Date, a_end: Date, b_start: Date, b_end: Date)
    ensures
        overlaps(a_start, a_end, b_start, b_end) == overlaps(b_start, b_end, a_start, a_end),
{
}

/// A range that is no empty range overlaps itself; and two ranges of which
/// the one begins on the day the other ends overlap.
pub proof fn lemma_overlap_touching(a_start: Date, a_end: Date, b_end: Date)
    requires
        a_start.key() <= a_end.key(),
        a_end.key() <= b_end.key(),
    ensures
        overlaps(a_start, a_end, a_start, a_end),
        overlaps(a_start, a_end, a_end, b_end),
{
}

/// Two ranges of which the one begins after the other has ended do not
/// overlap.
pub proof fn lemma_overlap_disjoint(a_start: Date, a_end: Date, b_start: Date, b_end: Date)
    requires
        a_end.key() < b_start.key(),
    ensures
        !overlaps(a_start, a_end, b_start, b_end),
{
}

/// A booking that was rejected or cancelled, or that is for another vehicle,
/// stands in nobody's way.
pub proof fn lemma_only_live_bookings_conflict(
    booking: BookingView,
    vehicle_id: ObjectId,
    from_date: Date,
    to_date: Date,
)
    requires
        booking.status.tag.is_terminal() || booking.vehicle_id != vehicle_id,
    ensures
        !conflicts(booking, vehicle_id, from_date, to_date),
{
}

} // verus!
