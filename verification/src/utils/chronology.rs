//! Events in the order of their instants.
//!
//! Events of one instant keep the order in which they came.

use crate::database::models::AttendanceRecord;
use crate::utils::time::Timestamp;
use vstd::prelude::*;

verus! {

/// What happens at an instant.
pub trait Timed: Sized {
    /// The instant.
    spec fn instant(&self) -> Timestamp;

    /// The instant.
    fn time(&self) -> (t: Timestamp)
        ensures
            t == self.instant(),
    ;
}

impl Timed for AttendanceRecord {
    open spec fn instant(&self) -> Timestamp {
        self.timestamp
    }

    fn time(&self) -> (t: Timestamp) {
        self.timestamp
    }
}

/// `records` with `record` put in behind the last one that is not later.
pub open spec fn insert_by_time<T: Timed>(
    records: Seq<T>,
    record: T,
) -> Seq<T>
    decreases records.len(),
{
    if records.len() > 0 && record.instant().before(records.last().instant()) {
        insert_by_time(records.drop_last(), record).push(records.last())
    } else {
        records.push(record)
    }
}

/// The events in chronological order, events of one instant in the order in
/// which they came.
pub open spec fn sorted_by_time<T: Timed>(records: Seq<T>) -> Seq<T>
    decreases records.len(),
{
    if records.len() == 0 {
        records
    } else {
        insert_by_time(sorted_by_time(records.drop_last()), records.last())
    }
}

/// No event is earlier than one before it.
pub open spec fn in_time_order<T: Timed>(records: Seq<T>) -> bool {
    forall|i: int, j: int|
        0 <= i < j < records.len() ==> !(#[trigger] records[j]).instant().before(
            (#[trigger] records[i]).instant(),
        )
}

/// Where `insert_by_time` puts an event: in front of the events at
/// the end that are all later than it.
pub proof fn lemma_insert_position<T: Timed>(
    records: Seq<T>,
    record: T,
    position: int,
)
    requires
        0 <= position <= records.len(),
        forall|j: int|
            position <= j < records.len() ==> record.instant().before(
                (#[trigger] records[j]).instant(),
            ),
        position > 0 ==> !record.instant().before(records[position - 1].instant()),
    ensures
        insert_by_time(records, record) == records.insert(position, record),
    decreases records.len(),
{
    if position == records.len() {
        assert(records.push(record) =~= records.insert(position, record));
    } else {
        assert(record.instant().before(records[records.len() - 1].instant()));
        lemma_insert_position(records.drop_last(), record, position);
        assert(records.drop_last().insert(position, record).push(records.last())
            =~= records.insert(position, record));
    }
}

/// Sorting by time gives the same events, none lost and none added, in an
/// order in which none is earlier than one before it.
pub proof fn lemma_sorted_by_time<T: Timed>(records: Seq<T>)
    ensures
        sorted_by_time(records).len() == records.len(),
        sorted_by_time(records).to_multiset() == records.to_multiset(),
        in_time_order(sorted_by_time(records)),
    decreases records.len(),
{
    broadcast use vstd::seq_lib::group_to_multiset_ensures;

    if records.len() == 0 {
    } else {
        let front = records.drop_last();
        let last = records.last();
        lemma_sorted_by_time(front);
        let sorted = sorted_by_time(front);
        lemma_insert_in_order(sorted, last);
        assert(front.push(last) =~= records);
    }
}

/// Putting an event into a line in time order adds that event and nothing
/// else, and leaves the line in time order.
pub proof fn lemma_insert_in_order<T: Timed>(records: Seq<T>, record: T)
    requires
        in_time_order(records),
    ensures
        insert_by_time(records, record).len() == records.len() + 1,
        insert_by_time(records, record).to_multiset() == records.to_multiset().insert(
            record,
        ),
        in_time_order(insert_by_time(records, record)),
    decreases records.len(),
{
    broadcast use vstd::seq_lib::group_to_multiset_ensures;

    if records.len() > 0 && record.instant().before(records.last().instant()) {
        let front = records.drop_last();
        assert forall|i: int, j: int| 0 <= i < j < front.len() implies !(#[trigger] front[j]).instant().before(
            (#[trigger] front[i]).instant(),
        ) by {
            assert(front[i] == records[i] && front[j] == records[j]);
        }
        lemma_insert_in_order(front, record);
        let inserted = insert_by_time(front, record);
        let result = inserted.push(records.last());
        assert(front.push(records.last()) =~= records);
        assert(result.to_multiset() =~= records.to_multiset().insert(record));
        assert forall|i: int, j: int| 0 <= i < j < result.len() implies !(#[trigger] result[j]).instant().before(
            (#[trigger] result[i]).instant(),
        ) by {
            if j == result.len() - 1 {
                let x = inserted[i];
                assert(inserted.to_multiset().count(x) > 0);
                if x != record {
                    assert(front.to_multiset().count(x) > 0);
                    let k = choose|k: int| 0 <= k < front.len() && front[k] == x;
                    assert(records[k] == x);
                    assert(records[records.len() - 1] == records.last());
                }
            } else {
                assert(result[i] == inserted[i] && result[j] == inserted[j]);
            }
        }
    } else {
        let result = records.push(record);
        assert forall|i: int, j: int| 0 <= i < j < result.len() implies !(#[trigger] result[j]).instant().before(
            (#[trigger] result[i]).instant(),
        ) by {
            if j == result.len() - 1 {
                assert(result[i] == records[i]);
                assert(records[records.len() - 1] == records.last());
            } else {
                assert(result[i] == records[i] && result[j] == records[j]);
            }
        }
    }
}

/// Sorting leaves events that are in time order as they are.
pub proof fn lemma_sorting_keeps_time_order<T: Timed>(records: Seq<T>)
    requires
        in_time_order(records),
    ensures
        sorted_by_time(records) == records,
    decreases records.len(),
{
    if records.len() > 0 {
        let front = records.drop_last();
        assert forall|i: int, j: int| 0 <= i < j < front.len() implies !(#[trigger] front[j]).instant().before(
            (#[trigger] front[i]).instant(),
        ) by {
            assert(front[i] == records[i] && front[j] == records[j]);
        }
        lemma_sorting_keeps_time_order(front);
        if front.len() > 0 {
            assert(front.last() == records[front.len() - 1]);
            assert(records.last() == records[records.len() - 1]);
        }
        assert(front.push(records.last()) =~= records);
    }
}

/// Puts an item into the line behind the last item that is not later.
pub fn insert_in_time_order<T: Timed>(line: &mut Vec<T>, item: T)
    ensures
        final(line)@ == insert_by_time(old(line)@, item),
{
    let at = item.time();
    let mut position: usize = line.len();
    while position > 0 && at.is_before(&line[position - 1].time())
        invariant
            position <= line.len(),
            *line == *old(line),
            at == item.instant(),
            forall|j: int|
                position <= j < line.len() ==> at.before((#[trigger] line@[j]).instant()),
        decreases position,
    {
        position = position - 1;
    }
    proof {
        lemma_insert_position(line@, item, position as int);
    }
    line.insert(position, item);
}

/// Puts the events in the order of their instants, events of one instant in
/// the order in which they came.
pub fn sort_by_time<T: Timed + Copy>(records: &[T]) -> (sorted: Vec<T>)
    ensures
        sorted@ == sorted_by_time(records@),
        sorted@.len() == records@.len(),
        sorted@.to_multiset() == records@.to_multiset(),
        in_time_order(sorted@),
{
    let mut sorted: Vec<T> = Vec::new();
    let mut i: usize = 0;
    while i < records.len()
        invariant
            i <= records.len(),
            sorted@ == sorted_by_time(records@.subrange(0, i as int)),
        decreases records.len() - i,
    {
        assert(records@.subrange(0, i as int + 1).drop_last() =~= records@.subrange(0, i as int));
        insert_in_time_order(&mut sorted, records[i]);
        i = i + 1;
    }
    proof {
        assert(records@.subrange(0, i as int) =~= records@);
        lemma_sorted_by_time(records@);
    }
    sorted
}

} // verus!
