//! The reconciliation adapter: it turns a batch of incoming records into store
//! writes and one outgoing record, and keeps the sync association.
use vstd::prelude::*;

use crate::keyed_map::KeyedMap;
use crate::model::{
    ClientData, CollSyncIds, EngineSyncAssociation, Enrollment, EnrollmentRecord,
    IncomingContent, IncomingRecord, OutgoingRecord, RemoteClient,
};
use crate::store::{assoc_of, Database};

verus! {

/// The records of a batch that are kept: those whose envelope id is not the
/// local device id and whose content decoded, in batch order.
pub open spec fn accepted_records(local_id: Seq<char>, inbound: Seq<IncomingRecord>) -> Seq<
    EnrollmentRecord,
>
    decreases inbound.len(),
{
    if inbound.len() == 0 {
        Seq::empty()
    } else {
        let prev = accepted_records(local_id, inbound.drop_last());
        let last = inbound.last();
        match last.content {
            IncomingContent::Record(rec) => if last.id@ != local_id {
                prev.push(rec)
            } else {
                prev
            },
            _ => prev,
        }
    }
}

/// The remote enrollment map after writing `recs` in order, each under the
/// device id in the record itself.
pub open spec fn put_records(
    m: Map<Seq<char>, EnrollmentRecord>,
    recs: Seq<EnrollmentRecord>,
) -> Map<Seq<char>, EnrollmentRecord>
    decreases recs.len(),
{
    if recs.len() == 0 {
        m
    } else {
        put_records(m, recs.drop_last()).insert(recs.last().id@, recs.last())
    }
}

/// The name under which the recent client list knows the device `id`; empty
/// when the list or the device is absent.
pub open spec fn client_name_of(clients: Option<KeyedMap<RemoteClient>>, id: Seq<char>) -> Seq<
    char,
> {
    match clients {
        Some(m) => if m@.contains_key(id) {
            m@[id].device_name@
        } else {
            Seq::empty()
        },
        None => Seq::empty(),
    }
}

/// The store after `reset` to `assoc`: both sync id meta values written, or
/// both removed; nothing else changes.
pub open spec fn reset_store(db: Database, assoc: EngineSyncAssociation) -> Database {
    match assoc {
        EngineSyncAssociation::Disconnected => Database {
            global_sync_id: None,
            collection_sync_id: None,
            ..db
        },
        EngineSyncAssociation::Connected(ids) => Database {
            global_sync_id: Some(ids.global),
            collection_sync_id: Some(ids.coll),
            ..db
        },
    }
}

/// The outgoing batch of one reconciliation pass: a single record, keyed by
/// the local device id, holding that id, its client name and every local
/// enrollment in store order.
pub open spec fn is_outgoing_for(out: Seq<OutgoingRecord>, db: Database, local_id: Seq<char>) -> bool {
    &&& out.len() == 1
    &&& out[0].id@ == local_id
    &&& out[0].payload.id@ == local_id
    &&& out[0].payload.client_name@ == client_name_of(db.remote_clients, local_id)
    &&& out[0].payload.enrollments@ == db.enrollments.values_view()
}

/// The adapter for one sync session: the store it works on and the id of the
/// local device.
pub struct NimbusSyncImpl {
    pub store: Database,
    pub local_id: String,
}

impl NimbusSyncImpl {
    /// An adapter on `store`, with an empty local device id.
    pub fn new(store: Database) -> (r: Self)
        ensures
            r.store == store,
            r.local_id@ == Seq::<char>::empty(),
    {
        NimbusSyncImpl { store, local_id: String::new() }
    }

    /// Persists the recent client list as it is and takes over the local
    /// device id for the session.
    pub fn prepare_for_sync(&mut self, client_data: ClientData)
        requires
            old(self).store.wf(),
            client_data.recent_clients.wf(),
        ensures
            final(self).store.wf(),
            final(self).store == (Database {
                remote_clients: Some(client_data.recent_clients),
                ..old(self).store
            }),
            final(self).local_id == client_data.local_client_id,
    {
        self.store.remote_clients = Some(client_data.recent_clients);
        self.local_id = client_data.local_client_id;
    }

    /// Writes each incoming record from another device under its device id,
    /// skipping this device's own record and any that did not decode, and
    /// returns the one record that describes this device.
    pub fn apply_incoming(&mut self, inbound: Vec<IncomingRecord>) -> (r: Vec<OutgoingRecord>)
        requires
            old(self).store.wf(),
        ensures
            final(self).store.wf(),
            final(self).local_id == old(self).local_id,
            final(self).store.global_sync_id == old(self).store.global_sync_id,
            final(self).store.collection_sync_id == old(self).store.collection_sync_id,
            final(self).store.remote_clients == old(self).store.remote_clients,
            final(self).store.enrollments == old(self).store.enrollments,
            final(self).store.remote_enrollments@ == put_records(
                old(self).store.remote_enrollments@,
                accepted_records(old(self).local_id@, inbound@),
            ),
            accepted_records(old(self).local_id@, inbound@).len() == 0
                ==> final(self).store.remote_enrollments == old(self).store.remote_enrollments,
            is_outgoing_for(r@, old(self).store, old(self).local_id@),
    {
        let ghost n = inbound@.len();
        let ghost all = inbound@;
        let mut rest = inbound;
        let mut remote_enrollments: Vec<EnrollmentRecord> = Vec::new();
        let ghost mut k: int = 0;
        while rest.len() > 0
            invariant
                0 <= k <= n,
                all.len() == n,
                rest@ == all.subrange(k, n as int),
                remote_enrollments@ == accepted_records(self.local_id@, all.subrange(0, k)),
            decreases rest.len(),
        {
            let incoming = rest.remove(0);
            proof {
                assert(all.subrange(0, k + 1).drop_last() =~= all.subrange(0, k));
                assert(all.subrange(0, k + 1).last() == incoming);
                assert(rest@ =~= all.subrange(k + 1, n as int));
                k = k + 1;
            }
            if incoming.id == self.local_id {
                // This device's own record.
                continue;
            }
            match incoming.content {
                IncomingContent::Record(record) => {
                    remote_enrollments.push(record);
                },
                // A tombstone or a payload that did not decode: skip it.
                _ => {},
            }
        }
        proof {
            assert(all.subrange(0, n as int) =~= all);
        }
        // An empty batch writes nothing, so that a quick write with no
        // records does not disturb the cached remote state.
        if remote_enrollments.len() > 0 {
            self.write_remote_enrollments(remote_enrollments);
        }
        let local_enrollments = self.collect_local_enrollments();
        let client_name = match &self.store.remote_clients {
            Some(clients) => match clients.get(&self.local_id) {
                Some(client) => client.device_name.clone(),
                None => String::new(),
            },
            None => String::new(),
        };
        let local_record = EnrollmentRecord {
            id: self.local_id.clone(),
            client_name,
            enrollments: local_enrollments,
        };
        let mut outgoing: Vec<OutgoingRecord> = Vec::new();
        outgoing.push(OutgoingRecord { id: self.local_id.clone(), payload: local_record });
        outgoing
    }

    /// Writes the records in order, each under the device id it names.
    fn write_remote_enrollments(&mut self, records: Vec<EnrollmentRecord>)
        requires
            old(self).store.wf(),
        ensures
            final(self).store.wf(),
            final(self).local_id == old(self).local_id,
            final(self).store.global_sync_id == old(self).store.global_sync_id,
            final(self).store.collection_sync_id == old(self).store.collection_sync_id,
            final(self).store.remote_clients == old(self).store.remote_clients,
            final(self).store.enrollments == old(self).store.enrollments,
            final(self).store.remote_enrollments@ == put_records(
                old(self).store.remote_enrollments@,
                records@,
            ),
    {
        let ghost n = records@.len();
        let ghost all = records@;
        let ghost start = self.store.remote_enrollments@;
        let mut rest = records;
        let ghost mut k: int = 0;
        while rest.len() > 0
            invariant
                0 <= k <= n,
                all.len() == n,
                rest@ == all.subrange(k, n as int),
                self.store.wf(),
                self.local_id == old(self).local_id,
                self.store.global_sync_id == old(self).store.global_sync_id,
                self.store.collection_sync_id == old(self).store.collection_sync_id,
                self.store.remote_clients == old(self).store.remote_clients,
                self.store.enrollments == old(self).store.enrollments,
                self.store.remote_enrollments@ == put_records(start, all.subrange(0, k)),
            decreases rest.len(),
        {
            let record = rest.remove(0);
            proof {
                assert(all.subrange(0, k + 1).drop_last() =~= all.subrange(0, k));
                assert(all.subrange(0, k + 1).last() == record);
                assert(rest@ =~= all.subrange(k + 1, n as int));
                k = k + 1;
            }
            let key = record.id.clone();
            self.store.remote_enrollments.put(key, record);
        }
        proof {
            assert(all.subrange(0, n as int) =~= all);
        }
    }

    /// A copy of every local enrollment, in store order.
    fn collect_local_enrollments(&self) -> (r: Vec<Enrollment>)
        ensures
            r@ == self.store.enrollments.values_view(),
    {
        let mut out: Vec<Enrollment> = Vec::new();
        let mut i: usize = 0;
        while i < self.store.enrollments.len()
            invariant
                i <= self.store.enrollments.entries_view().len(),
                out@ == self.store.enrollments.values_view().subrange(0, i as int),
            decreases self.store.enrollments.entries_view().len() - i,
        {
            let e = self.store.enrollments.value_at(i).duplicate();
            out.push(e);
            i = i + 1;
            assert(out@ =~= self.store.enrollments.values_view().subrange(0, i as int));
        }
        assert(out@ =~= self.store.enrollments.values_view());
        out
    }

    /// The association that the store records: connected when both sync ids
    /// are present, disconnected otherwise.
    pub fn get_sync_assoc(&self) -> (r: EngineSyncAssociation)
        ensures
            r == assoc_of(self.store),
    {
        match (&self.store.global_sync_id, &self.store.collection_sync_id) {
            (Some(global), Some(coll)) => EngineSyncAssociation::Connected(
                CollSyncIds { global: global.clone(), coll: coll.clone() },
            ),
            _ => EngineSyncAssociation::Disconnected,
        }
    }

    /// Records `assoc`: writes both sync ids, or removes both.
    pub fn reset(&mut self, assoc: &EngineSyncAssociation)
        ensures
            final(self).store == reset_store(old(self).store, *assoc),
            final(self).local_id == old(self).local_id,
    {
        match assoc {
            EngineSyncAssociation::Disconnected => {
                self.store.global_sync_id = None;
                self.store.collection_sync_id = None;
            },
            EngineSyncAssociation::Connected(ids) => {
                self.store.global_sync_id = Some(ids.global.clone());
                self.store.collection_sync_id = Some(ids.coll.clone());
            },
        }
    }
}

} // verus!
