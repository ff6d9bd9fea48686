//! The engine that a sync manager drives, and the registry through which the
//! manager finds it.
use vstd::prelude::*;

use crate::model::{
    ClientData, CollectionRequest, EngineSyncAssociation, IncomingChangeset, OutgoingChangeset,
    SyncEngineId,
};
use crate::store::{assoc_of, Database};
use crate::sync_impl::{accepted_records, is_outgoing_for, put_records, reset_store, NimbusSyncImpl};

verus! {

/// The name of the collection that holds the enrollment records.
pub open spec fn collection_name_spec() -> Seq<char> {
    seq!['n', 'i', 'm', 'b', 'u', 's']
}

fn nimbus_collection() -> (r: String)
    ensures
        r@ == collection_name_spec(),
{
    let r = String::from_str("nimbus");
    proof {
        reveal_strlit("nimbus");
    }
    r
}

/// The sync engine for enrollment records. Each call has the adapter to
/// itself for its whole duration, since it takes the engine by `&mut`.
pub struct NimbusEngine {
    pub sync_impl: NimbusSyncImpl,
}

impl NimbusEngine {
    /// An engine on `store`, with an empty local device id.
    pub fn new(store: Database) -> (r: Self)
        ensures
            r.sync_impl.store == store,
            r.sync_impl.local_id@ == Seq::<char>::empty(),
    {
        NimbusEngine { sync_impl: NimbusSyncImpl::new(store) }
    }

    /// Gives the store back at the end of a session.
    pub fn into_store(self) -> (r: Database)
        ensures
            r == self.sync_impl.store,
    {
        self.sync_impl.store
    }

    /// The collection that this engine syncs.
    pub fn collection_name(&self) -> (r: String)
        ensures
            r@ == collection_name_spec(),
    {
        nimbus_collection()
    }

    /// See [`NimbusSyncImpl::prepare_for_sync`].
    pub fn prepare_for_sync(&mut self, client_data: ClientData)
        requires
            old(self).sync_impl.store.wf(),
            client_data.recent_clients.wf(),
        ensures
            final(self).sync_impl.store.wf(),
            final(self).sync_impl.store == (Database {
                remote_clients: Some(client_data.recent_clients),
                ..old(self).sync_impl.store
            }),
            final(self).sync_impl.local_id == client_data.local_client_id,
    {
        self.sync_impl.prepare_for_sync(client_data)
    }

    /// Applies the one changeset that was fetched and returns the changeset to
    /// upload; see [`NimbusSyncImpl::apply_incoming`].
    pub fn apply_incoming(&mut self, inbound: Vec<IncomingChangeset>) -> (r: OutgoingChangeset)
        requires
            old(self).sync_impl.store.wf(),
            inbound@.len() == 1,
        ensures
            final(self).sync_impl.store.wf(),
            final(self).sync_impl.local_id == old(self).sync_impl.local_id,
            final(self).sync_impl.store.global_sync_id == old(self).sync_impl.store.global_sync_id,
            final(self).sync_impl.store.collection_sync_id
                == old(self).sync_impl.store.collection_sync_id,
            final(self).sync_impl.store.remote_clients == old(self).sync_impl.store.remote_clients,
            final(self).sync_impl.store.enrollments == old(self).sync_impl.store.enrollments,
            final(self).sync_impl.store.remote_enrollments@ == put_records(
                old(self).sync_impl.store.remote_enrollments@,
                accepted_records(old(self).sync_impl.local_id@, inbound@[0].changes@),
            ),
            accepted_records(old(self).sync_impl.local_id@, inbound@[0].changes@).len() == 0
                ==> final(self).sync_impl.store.remote_enrollments
                == old(self).sync_impl.store.remote_enrollments,
            r.collection@ == collection_name_spec(),
            is_outgoing_for(r.changes@, old(self).sync_impl.store, old(self).sync_impl.local_id@),
    {
        let mut inbound = inbound;
        let changeset = inbound.remove(0);
        let changes = self.sync_impl.apply_incoming(changeset.changes);
        OutgoingChangeset { collection: nimbus_collection(), changes }
    }

    /// Called once the uploaded records were accepted; nothing is kept yet.
    pub fn sync_finished(&self, _new_timestamp: i64, _records_synced: Vec<String>) {
    }

    /// Always a single request for the whole collection: fetching only what
    /// changed since a timestamp is not supported.
    pub fn get_collection_requests(&self, _server_timestamp: i64) -> (r: Vec<CollectionRequest>)
        ensures
            r@.len() == 1,
            r@[0].collection@ == collection_name_spec(),
            r@[0].full,
    {
        let mut r: Vec<CollectionRequest> = Vec::new();
        r.push(CollectionRequest { collection: nimbus_collection(), full: true });
        r
    }

    /// See [`NimbusSyncImpl::get_sync_assoc`].
    pub fn get_sync_assoc(&self) -> (r: EngineSyncAssociation)
        ensures
            r == assoc_of(self.sync_impl.store),
    {
        self.sync_impl.get_sync_assoc()
    }

    /// See [`NimbusSyncImpl::reset`].
    pub fn reset(&mut self, assoc: &EngineSyncAssociation)
        ensures
            final(self).sync_impl.store == reset_store(old(self).sync_impl.store, *assoc),
            final(self).sync_impl.local_id == old(self).sync_impl.local_id,
    {
        self.sync_impl.reset(assoc)
    }

    /// Forgets the association: the same as resetting to disconnected.
    pub fn wipe(&mut self)
        ensures
            final(self).sync_impl.store == reset_store(
                old(self).sync_impl.store,
                EngineSyncAssociation::Disconnected,
            ),
            final(self).sync_impl.local_id == old(self).sync_impl.local_id,
    {
        self.reset(&EngineSyncAssociation::Disconnected)
    }
}

/// Where a sync manager finds the store to sync. The store goes with the
/// engine that a lookup hands out, for the length of a session; registering it
/// again afterwards makes it available to the next lookup.
pub struct SyncManagerRegistry {
    pub store: Option<Database>,
}

impl SyncManagerRegistry {
    /// A registry with no store.
    pub fn new() -> (r: Self)
        ensures
            r.store is None,
    {
        SyncManagerRegistry { store: None }
    }
}

/// Makes `store` the one that the registry hands out, in place of any other.
pub fn register_with_sync_manager(registry: &mut SyncManagerRegistry, store: Database)
    ensures
        final(registry).store == Some(store),
{
    registry.store = Some(store);
}

/// An engine for `engine_id` on the registered store, or `None` when no store
/// is registered. Only the enrollment engine can be asked for.
pub fn get_registered_sync_engine(
    registry: &mut SyncManagerRegistry,
    engine_id: &SyncEngineId,
) -> (r: Option<NimbusEngine>)
    requires
        old(registry).store is Some ==> *engine_id == SyncEngineId::Nimbus,
    ensures
        r is None <==> old(registry).store is None,
        r is Some ==> r->Some_0.sync_impl.store == old(registry).store->Some_0
            && r->Some_0.sync_impl.local_id@ == Seq::<char>::empty(),
        final(registry).store is None,
{
    match registry.store.take() {
        None => None,
        Some(store) => Some(NimbusEngine::new(store)),
    }
}

} // verus!
