//! The record store: the meta values, this device's enrollments, and the last
//! known enrollments of the account's other devices.
use vstd::prelude::*;

use crate::keyed_map::KeyedMap;
use crate::model::{CollSyncIds, EngineSyncAssociation, Enrollment, EnrollmentRecord, RemoteClient};

verus! {

/// The persisted state of the library.
pub struct Database {
    /// The meta value under the global sync id key.
    pub global_sync_id: Option<String>,
    /// The meta value under the collection sync id key.
    pub collection_sync_id: Option<String>,
    /// The meta value under the remote clients key.
    pub remote_clients: Option<KeyedMap<RemoteClient>>,
    /// This device's enrollments, keyed by enrollment id.
    pub enrollments: KeyedMap<Enrollment>,
    /// Other devices' last known enrollment records, keyed by device id.
    pub remote_enrollments: KeyedMap<EnrollmentRecord>,
}

/// The association that the two sync id meta values denote: connected only
/// when both are present.
pub open spec fn assoc_of(db: Database) -> EngineSyncAssociation {
    match (db.global_sync_id, db.collection_sync_id) {
        (Some(g), Some(c)) => EngineSyncAssociation::Connected(CollSyncIds { global: g, coll: c }),
        _ => EngineSyncAssociation::Disconnected,
    }
}

impl Database {
    /// Every keyed map in the store is well formed.
    pub open spec fn wf(&self) -> bool {
        &&& self.enrollments.wf()
        &&& self.remote_enrollments.wf()
        &&& match self.remote_clients {
            Some(m) => m.wf(),
            None => true,
        }
    }

    /// An empty store.
    pub fn new() -> (r: Database)
        ensures
            r.wf(),
            r.global_sync_id is None,
            r.collection_sync_id is None,
            r.remote_clients is None,
            r.enrollments@ == Map::<Seq<char>, Enrollment>::empty(),
            r.enrollments.entries_view().len() == 0,
            r.remote_enrollments@ == Map::<Seq<char>, EnrollmentRecord>::empty(),
    {
        Database {
            global_sync_id: None,
            collection_sync_id: None,
            remote_clients: None,
            enrollments: KeyedMap::new(),
            remote_enrollments: KeyedMap::new(),
        }
    }

    /// Stores one of this device's enrollments under its own id.
    pub fn put_enrollment(&mut self, enrollment: Enrollment)
        requires
            old(self).wf(),
        ensures
            final(self).wf(),
            final(self).enrollments@ == old(self).enrollments@.insert(enrollment.id@, enrollment),
            final(self).global_sync_id == old(self).global_sync_id,
            final(self).collection_sync_id == old(self).collection_sync_id,
            final(self).remote_clients == old(self).remote_clients,
            final(self).remote_enrollments == old(self).remote_enrollments,
    {
        let key = enrollment.id.clone();
        self.enrollments.put(key, enrollment);
    }
}

} // verus!
