//! The record service: create, read, update and delete over the durable
//! substrate, with validation, monotonic id assignment, and the store
//! invariant that ties the durable bytes to their mathematical model.

use vstd::prelude::*;
use vstd::pervasive::unreached;
use crate::codec::{encode_record, decode_record, bytes_eq, spec_encode, lemma_record_round_trip};
use crate::record::{
    SensorData, SensorDataView, SensorDataPayload, Error, payload_valid, record_valid,
    record_is_valid, validation_error_for, created_record, updated_record, is_not_found,
    validate_sensor_data_payload,
};
use crate::store::{DurableStore, store_counter, store_records};
use crate::text::{
    spec_get_not_found_msg, spec_update_not_found_msg, spec_delete_not_found_msg,
    get_not_found_message, update_not_found_message, delete_not_found_message,
};

verus! {

/// The mathematical state of the service: the next id to issue and the
/// records on durable storage, by id.
#[verifier::ext_equal]
pub struct ServiceView {
    pub next_id: u64,
    pub records: Map<u64, SensorDataView>,
}

/// The record service. It owns the durable counter and record map and is
/// the only writer to either; the ghost model mirrors the decoded
/// contents of the record map.
pub struct RecordService {
    store: DurableStore,
    model: Ghost<Map<u64, SensorDataView>>,
}

impl View for RecordService {
    type V = ServiceView;

    closed spec fn view(&self) -> ServiceView {
        ServiceView { next_id: store_counter(self.store), records: self.model@ }
    }
}

impl RecordService {
    /// The store invariant: the durable map holds exactly the encodings
    /// of the model's records; every stored record is valid, keyed by
    /// its own id, and its id was issued by the counter (so lies below
    /// it).
    pub closed spec fn wf(self) -> bool {
        &&& forall|id: u64|
            #![trigger self.model@.contains_key(id)]
            #![trigger store_records(self.store).contains_key(id)]
            self.model@.contains_key(id) <==> store_records(self.store).contains_key(id)
        &&& forall|id: u64| #[trigger] self.model@.contains_key(id) ==> {
            &&& store_records(self.store)[id] == spec_encode(self.model@[id])
            &&& self.model@[id].id == id
            &&& record_valid(self.model@[id])
            &&& id < store_counter(self.store)
        }
    }

    /// Opens the service over the process's default stable memory and
    /// rebuilds its model from what that memory holds: every stored
    /// entry must decode to a valid record keyed by its own id, below
    /// the counter, and encode back to the stored bytes. Returns `None`
    /// when the contents are not a record store's — a corrupt substrate,
    /// an environment failure for the caller to treat as fatal. On
    /// untouched memory this yields the empty store with 0 as the first
    /// id to issue.
    pub fn open() -> (r: Option<Self>)
        ensures
            r matches Some(s) ==> s.wf(),
    {
        let store = DurableStore::open();
        let counter = store.counter_get();
        let keys = store.records_keys();
        let mut model: Ghost<Map<u64, SensorDataView>> = Ghost(Map::empty());
        let mut i: usize = 0;
        while i < keys.len()
            invariant
                i <= keys@.len(),
                counter == store_counter(store),
                forall|j: int| 0 <= j < keys@.len() ==> store_records(store).contains_key(
                    keys@[j],
                ),
                forall|j: int| 0 <= j < i ==> model@.contains_key(keys@[j]),
                forall|k: u64| #[trigger] model@.contains_key(k) ==> {
                    &&& store_records(store).contains_key(k)
                    &&& store_records(store)[k] == spec_encode(model@[k])
                    &&& model@[k].id == k
                    &&& record_valid(model@[k])
                    &&& k < counter
                },
            decreases keys@.len() - i,
        {
            let id = keys[i];
            let bytes = match store.records_get(id) {
                Some(b) => b,
                None => {
                    return None;
                },
            };
            let d = match decode_record(&bytes) {
                Some(d) => d,
                None => {
                    return None;
                },
            };
            if d.id != id || !record_is_valid(&d) || id >= counter {
                return None;
            }
            let reencoded = encode_record(&d);
            if !bytes_eq(&reencoded, &bytes) {
                return None;
            }
            proof {
                model@ = model@.insert(id, d@);
            }
            i = i + 1;
        }
        let s = RecordService { store, model };
        proof {
            assert forall|k: u64| store_records(s.store).contains_key(k) implies s.model@
                .contains_key(k) by {
                assert(keys@.contains(k));
                let j = choose|j: int| 0 <= j < keys@.len() && keys@[j] == k;
                assert(s.model@.contains_key(keys@[j]));
            };
        }
        Some(s)
    }

    /// Reopens the service after a process restart: the durable substrate
    /// carries the whole state across, unchanged.
    pub fn restart(self) -> (s: Self)
        requires
            self.wf(),
        ensures
            s.wf(),
            s@ == self@,
    {
        let RecordService { store, model } = self;
        let s = RecordService { store: store.restart(), model };
        proof {
            assert(s@ =~= self@);
        }
        s
    }

    /// The next id the service will issue.
    pub fn next_id(&self) -> (v: u64)
        ensures
            v == self@.next_id,
    {
        self.store.counter_get()
    }

    /// Reads the record stored under `id`.
    fn _get_sensor_data(&self, id: u64) -> (r: Option<SensorData>)
        requires
            self.wf(),
        ensures
            r is Some <==> self@.records.contains_key(id),
            r matches Some(d) ==> d@ == self@.records[id],
    {
        match self.store.records_get(id) {
            None => None,
            Some(bytes) => {
                proof {
                    lemma_record_round_trip(self.model@[id]);
                }
                match decode_record(&bytes) {
                    Some(d) => Some(d),
                    None => unreached(),
                }
            },
        }
    }

    /// Returns the record stored under `id`, or `NotFound` if no record
    /// has that id.
    pub fn get_sensor_data(&self, id: u64) -> (r: Result<SensorData, Error>)
        requires
            self.wf(),
        ensures
            r is Ok <==> self@.records.contains_key(id),
            r matches Ok(d) ==> d@ == self@.records[id],
            r matches Err(e) ==> is_not_found(e, spec_get_not_found_msg(id)),
    {
        match self._get_sensor_data(id) {
            Some(data) => Ok(data),
            None => Err(Error::NotFound { msg: get_not_found_message(id) }),
        }
    }

    /// Encodes the record and writes it under its id, mirroring the
    /// model.
    fn do_insert(&mut self, data: &SensorData)
        requires
            old(self).wf(),
            record_valid(data@),
            data@.id < store_counter(old(self).store),
        ensures
            final(self).wf(),
            final(self)@.records == old(self)@.records.insert(data@.id, data@),
            final(self)@.next_id == old(self)@.next_id,
    {
        let bytes = encode_record(data);
        self.store.records_insert(data.id, bytes);
        proof {
            self.model@ = self.model@.insert(data.id, data@);
        }
    }

    /// Validates the payload, issues the next id, stamps `now` as the
    /// creation time, stores the record durably and returns it. On an
    /// invalid payload nothing changes and the validation error comes
    /// back.
    pub fn add_sensor_data(&mut self, payload: SensorDataPayload, now: u64) -> (r: Result<
        SensorData,
        Error,
    >)
        requires
            old(self).wf(),
            old(self)@.next_id < u64::MAX,
        ensures
            final(self).wf(),
            payload_valid(payload@) ==> {
                &&& r matches Ok(d) && d@ == created_record(payload@, old(self)@.next_id, now)
                &&& !old(self)@.records.contains_key(old(self)@.next_id)
                &&& final(self)@.records == old(self)@.records.insert(
                    old(self)@.next_id,
                    created_record(payload@, old(self)@.next_id, now),
                )
                &&& final(self)@.next_id == old(self)@.next_id + 1
            },
            !payload_valid(payload@) ==> {
                &&& r matches Err(e) && validation_error_for(payload@, e)
                &&& final(self)@ == old(self)@
            },
    {
        match validate_sensor_data_payload(&payload) {
            Err(e) => {
                proof {
                    assert(final(self)@ =~= old(self)@);
                }
                return Err(e);
            },
            Ok(()) => {},
        }
        let id = self.store.counter_get();
        self.store.counter_set(id + 1);
        let data = SensorData {
            id,
            device_id: payload.device_id,
            temperature: payload.temperature,
            humidity: payload.humidity,
            soil_moisture: payload.soil_moisture,
            timestamp: now,
            updated_at: None,
        };
        proof {
            assert(data@ =~= created_record(payload@, id, now));
        }
        self.do_insert(&data);
        Ok(data)
    }

    /// Validates the payload, then replaces the mutable fields of the
    /// record under `id` and stamps `now` as its update time. The id and
    /// creation time are never altered. On an invalid payload or an
    /// absent id nothing changes and the error comes back.
    pub fn update_sensor_data(&mut self, id: u64, payload: SensorDataPayload, now: u64) -> (r:
        Result<SensorData, Error>)
        requires
            old(self).wf(),
        ensures
            final(self).wf(),
            !payload_valid(payload@) ==> {
                &&& r matches Err(e) && validation_error_for(payload@, e)
                &&& final(self)@ == old(self)@
            },
            payload_valid(payload@) && !old(self)@.records.contains_key(id) ==> {
                &&& r matches Err(e) && is_not_found(e, spec_update_not_found_msg(id))
                &&& final(self)@ == old(self)@
            },
            payload_valid(payload@) && old(self)@.records.contains_key(id) ==> {
                &&& r matches Ok(d) && d@ == updated_record(old(self)@.records[id], payload@, now)
                &&& final(self)@.records == old(self)@.records.insert(
                    id,
                    updated_record(old(self)@.records[id], payload@, now),
                )
                &&& final(self)@.next_id == old(self)@.next_id
            },
    {
        match validate_sensor_data_payload(&payload) {
            Err(e) => {
                proof {
                    assert(final(self)@ =~= old(self)@);
                }
                return Err(e);
            },
            Ok(()) => {},
        }
        match self._get_sensor_data(id) {
            Some(data) => {
                let mut data = data;
                data.device_id = payload.device_id;
                data.temperature = payload.temperature;
                data.humidity = payload.humidity;
                data.soil_moisture = payload.soil_moisture;
                data.updated_at = Some(now);
                proof {
                    assert(data@ =~= updated_record(old(self)@.records[id], payload@, now));
                }
                self.do_insert(&data);
                Ok(data)
            },
            None => {
                proof {
                    assert(final(self)@ =~= old(self)@);
                }
                Err(Error::NotFound { msg: update_not_found_message(id) })
            },
        }
    }

    /// Removes and returns the record under `id`, or `NotFound` if no
    /// record has that id. A removed id is never reused: the counter is
    /// untouched.
    pub fn delete_sensor_data(&mut self, id: u64) -> (r: Result<SensorData, Error>)
        requires
            old(self).wf(),
        ensures
            final(self).wf(),
            old(self)@.records.contains_key(id) ==> {
                &&& r matches Ok(d) && d@ == old(self)@.records[id]
                &&& final(self)@.records == old(self)@.records.remove(id)
                &&& final(self)@.next_id == old(self)@.next_id
            },
            !old(self)@.records.contains_key(id) ==> {
                &&& r matches Err(e) && is_not_found(e, spec_delete_not_found_msg(id))
                &&& final(self)@ == old(self)@
            },
    {
        match self.store.records_remove(id) {
            Some(bytes) => {
                proof {
                    lemma_record_round_trip(old(self).model@[id]);
                    self.model@ = self.model@.remove(id);
                }
                match decode_record(&bytes) {
                    Some(d) => Ok(d),
                    None => unreached(),
                }
            },
            None => {
                proof {
                    assert(final(self)@ =~= old(self)@);
                }
                Err(Error::NotFound { msg: delete_not_found_message(id) })
            },
        }
    }
}

/// Under the store invariant, every stored record is valid and keyed by
/// its own id: reading `id` yields a record whose `id` field is `id`.
pub proof fn lemma_stored_record_keyed_by_id(s: &RecordService, id: u64)
    requires
        s.wf(),
        s@.records.contains_key(id),
    ensures
        s@.records[id].id == id,
        record_valid(s@.records[id]),
{
}

} // verus!
