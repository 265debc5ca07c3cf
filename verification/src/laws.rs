//! The library's laws: properties that relate several operations,
//! stated over the service's mathematical state and proved from the
//! operations' contracts.

use vstd::prelude::*;
use crate::record::{
    PayloadView, SensorDataView, payload_valid, created_record, updated_record, record_payload,
};
use crate::service::ServiceView;

verus! {

/// Id monotonicity. A creation returns the counter's value and leaves
/// the counter just past it; every other operation keeps the counter
/// unchanged (including deletions, so ids are never reused). Hence
/// across any interleaving, a later creation returns a strictly larger
/// id than an earlier one.
pub proof fn lemma_ids_strictly_increasing(id1: u64, next1: u64, next2: u64, id2: u64)
    requires
        next1 == id1 + 1,  // the counter right after the first creation
        next2 >= next1,  // no later operation lowers the counter
        id2 == next2,  // the second creation returns the counter's value
    ensures
        id2 > id1,
{
}

/// Round trip. After a successful creation, the state holds under the
/// returned id a record with exactly the payload's fields, the assigned
/// id, the creation time, and no update time; a read of that id returns
/// it.
pub proof fn lemma_add_then_get(s0: ServiceView, p: PayloadView, now: u64, s1: ServiceView)
    requires
        payload_valid(p),
        s1.records == s0.records.insert(s0.next_id, created_record(p, s0.next_id, now)),
    ensures
        s1.records.contains_key(s0.next_id),
        record_payload(s1.records[s0.next_id]) == p,
        s1.records[s0.next_id].id == s0.next_id,
        s1.records[s0.next_id].timestamp == now,
        s1.records[s0.next_id].updated_at is None,
{
    assert(record_payload(created_record(p, s0.next_id, now)) =~= p);
}

/// Update semantics. An update carries the new payload's fields but
/// never alters the id or the creation time, and stamps the update
/// time; with a clock that does not run backwards, the update time is
/// at or after the creation time, and a second update's is at or after
/// the first's.
pub proof fn lemma_update_semantics(
    r1: SensorDataView,
    p2: PayloadView,
    t1: u64,
    p3: PayloadView,
    t2: u64,
)
    requires
        t1 >= r1.timestamp,
        t2 >= t1,
    ensures
        ({
            let r2 = updated_record(r1, p2, t1);
            let r3 = updated_record(r2, p3, t2);
            &&& r2.id == r1.id && r2.timestamp == r1.timestamp
            &&& record_payload(r2) == p2
            &&& r2.updated_at == Some(t1) && t1 >= r2.timestamp
            &&& r3.id == r1.id && r3.timestamp == r1.timestamp
            &&& record_payload(r3) == p3
            &&& r3.updated_at == Some(t2) && t2 >= t1
        }),
{
    let r2 = updated_record(r1, p2, t1);
    assert(record_payload(r2) =~= p2);
    assert(record_payload(updated_record(r2, p3, t2)) =~= p3);
}

/// Delete removes. After a successful deletion the id is absent from
/// the state, so a read of it reports `NotFound`, and so does a second
/// deletion.
pub proof fn lemma_delete_removes(s0: ServiceView, id: u64, s1: ServiceView)
    requires
        s0.records.contains_key(id),
        s1.records == s0.records.remove(id),
    ensures
        !s1.records.contains_key(id),
{
}

} // verus!
