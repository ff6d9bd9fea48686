use nimbus_sync::engine::{get_registered_sync_engine, register_with_sync_manager, NimbusEngine, SyncManagerRegistry};
use nimbus_sync::keyed_map::KeyedMap;
use nimbus_sync::model::{
    ClientData, CollSyncIds, DeviceType, EngineSyncAssociation, Enrollment, EnrollmentRecord,
    IncomingChangeset, IncomingContent, IncomingRecord, RemoteClient, SyncEngineId,
};
use nimbus_sync::store::Database;
use nimbus_sync::sync_impl::NimbusSyncImpl;

fn enrollment(id: &str) -> Enrollment {
    Enrollment { id: id.to_string(), payload: format!("{{\"slug\":\"{}\"}}", id) }
}

fn record(device: &str, enrollment_ids: &[&str]) -> EnrollmentRecord {
    EnrollmentRecord {
        id: device.to_string(),
        client_name: format!("{} name", device),
        enrollments: enrollment_ids.iter().map(|e| enrollment(e)).collect(),
    }
}

fn incoming(device: &str, enrollment_ids: &[&str]) -> IncomingRecord {
    IncomingRecord { id: device.to_string(), content: IncomingContent::Record(record(device, enrollment_ids)) }
}

fn client_data(local: &str, clients: &[(&str, &str, DeviceType)]) -> ClientData {
    let mut recent_clients = KeyedMap::new();
    for (id, name, device_type) in clients {
        recent_clients.put(id.to_string(), RemoteClient { device_name: name.to_string(), device_type: *device_type });
    }
    ClientData { local_client_id: local.to_string(), recent_clients }
}

fn session(local: &str, local_enrollments: &[&str]) -> NimbusSyncImpl {
    let mut db = Database::new();
    for e in local_enrollments {
        db.put_enrollment(enrollment(e));
    }
    let mut sync = NimbusSyncImpl::new(db);
    sync.prepare_for_sync(client_data(local, &[]));
    sync
}

#[test]
fn remote_record_is_cached_and_local_state_is_sent() {
    let mut sync = session("device-A", &["exp-1"]);
    let out = sync.apply_incoming(vec![incoming("device-B", &["exp-2"])]);
    let cached = sync.store.remote_enrollments.get(&"device-B".to_string()).unwrap();
    assert_eq!(cached, &record("device-B", &["exp-2"]));
    assert_eq!(sync.store.remote_enrollments.len(), 1);
    assert_eq!(out.len(), 1);
    assert_eq!(out[0].id, "device-A");
    assert_eq!(out[0].payload.id, "device-A");
    assert_eq!(out[0].payload.client_name, "");
    assert_eq!(out[0].payload.enrollments, vec![enrollment("exp-1")]);
}

#[test]
fn own_record_is_discarded() {
    let mut sync = session("device-A", &["exp-1"]);
    sync.store.remote_enrollments.put("device-C".to_string(), record("device-C", &["exp-3"]));
    let out = sync.apply_incoming(vec![incoming("device-A", &["exp-9", "exp-10"])]);
    assert_eq!(sync.store.remote_enrollments.len(), 1);
    assert!(sync.store.remote_enrollments.get(&"device-A".to_string()).is_none());
    assert_eq!(sync.store.remote_enrollments.get(&"device-C".to_string()).unwrap(), &record("device-C", &["exp-3"]));
    assert_eq!(out.len(), 1);
    assert_eq!(out[0].payload.enrollments, vec![enrollment("exp-1")]);
}

#[test]
fn own_record_among_others_changes_nothing_written() {
    let mut with_own = session("device-A", &[]);
    with_own.apply_incoming(vec![incoming("device-B", &["b"]), incoming("device-A", &["a"]), incoming("device-C", &["c"])]);
    let mut without_own = session("device-A", &[]);
    without_own.apply_incoming(vec![incoming("device-B", &["b"]), incoming("device-C", &["c"])]);
    assert_eq!(with_own.store.remote_enrollments.len(), without_own.store.remote_enrollments.len());
    for id in ["device-B", "device-C"] {
        let key = id.to_string();
        assert_eq!(with_own.store.remote_enrollments.get(&key), without_own.store.remote_enrollments.get(&key));
    }
    assert!(with_own.store.remote_enrollments.get(&"device-A".to_string()).is_none());
}

#[test]
fn empty_batch_keeps_cached_remote_state() {
    let mut sync = session("device-A", &["exp-1"]);
    sync.store.remote_enrollments.put("device-B".to_string(), record("device-B", &["exp-2"]));
    sync.store.remote_enrollments.put("device-C".to_string(), record("device-C", &[]));
    let out = sync.apply_incoming(vec![]);
    assert_eq!(sync.store.remote_enrollments.len(), 2);
    assert_eq!(sync.store.remote_enrollments.get(&"device-B".to_string()).unwrap(), &record("device-B", &["exp-2"]));
    assert_eq!(sync.store.remote_enrollments.get(&"device-C".to_string()).unwrap(), &record("device-C", &[]));
    assert_eq!(out.len(), 1);
    assert_eq!(out[0].payload.enrollments, vec![enrollment("exp-1")]);
}

#[test]
fn distinct_devices_are_all_written_with_one_outgoing_record() {
    let mut sync = session("device-A", &["exp-1", "exp-2"]);
    sync.store.remote_enrollments.put("device-Z".to_string(), record("device-Z", &["old"]));
    let out = sync.apply_incoming(vec![
        incoming("device-B", &["b"]),
        incoming("device-C", &["c1", "c2"]),
        incoming("device-D", &[]),
    ]);
    assert_eq!(sync.store.remote_enrollments.len(), 4);
    assert_eq!(sync.store.remote_enrollments.get(&"device-B".to_string()).unwrap(), &record("device-B", &["b"]));
    assert_eq!(sync.store.remote_enrollments.get(&"device-C".to_string()).unwrap(), &record("device-C", &["c1", "c2"]));
    assert_eq!(sync.store.remote_enrollments.get(&"device-D".to_string()).unwrap(), &record("device-D", &[]));
    assert_eq!(sync.store.remote_enrollments.get(&"device-Z".to_string()).unwrap(), &record("device-Z", &["old"]));
    assert_eq!(out.len(), 1);
}

#[test]
fn outgoing_enrollments_are_the_local_store_in_order() {
    let mut sync = session("device-A", &["exp-3", "exp-1", "exp-2"]);
    let out = sync.apply_incoming(vec![incoming("device-B", &["exp-1", "exp-7"])]);
    assert_eq!(out[0].payload.enrollments, vec![enrollment("exp-3"), enrollment("exp-1"), enrollment("exp-2")]);
    assert_eq!(sync.store.enrollments.len(), 3);
}

#[test]
fn no_local_enrollments_sends_an_empty_list() {
    let mut sync = session("device-A", &[]);
    let out = sync.apply_incoming(vec![incoming("device-B", &["exp-2"])]);
    assert_eq!(out.len(), 1);
    assert!(out[0].payload.enrollments.is_empty());
}

#[test]
fn tombstones_and_malformed_records_are_skipped() {
    let mut sync = session("device-A", &[]);
    sync.apply_incoming(vec![
        IncomingRecord { id: "device-B".to_string(), content: IncomingContent::Tombstone },
        incoming("device-C", &["c"]),
        IncomingRecord { id: "device-D".to_string(), content: IncomingContent::Malformed },
    ]);
    assert_eq!(sync.store.remote_enrollments.len(), 1);
    assert!(sync.store.remote_enrollments.get(&"device-B".to_string()).is_none());
    assert!(sync.store.remote_enrollments.get(&"device-D".to_string()).is_none());
}

#[test]
fn later_record_for_a_device_overrides_earlier() {
    let mut sync = session("device-A", &[]);
    sync.store.remote_enrollments.put("device-B".to_string(), record("device-B", &["stale"]));
    sync.apply_incoming(vec![incoming("device-B", &["first"]), incoming("device-B", &["second"])]);
    assert_eq!(sync.store.remote_enrollments.len(), 1);
    assert_eq!(sync.store.remote_enrollments.get(&"device-B".to_string()).unwrap(), &record("device-B", &["second"]));
}

#[test]
fn record_is_stored_under_the_device_id_it_names() {
    let mut sync = session("device-A", &[]);
    let rec = record("device-X", &["x"]);
    sync.apply_incoming(vec![IncomingRecord { id: "envelope-Y".to_string(), content: IncomingContent::Record(rec) }]);
    assert!(sync.store.remote_enrollments.get(&"device-X".to_string()).is_some());
    assert!(sync.store.remote_enrollments.get(&"envelope-Y".to_string()).is_none());
}

#[test]
fn client_name_comes_from_recent_clients() {
    let mut db = Database::new();
    db.put_enrollment(enrollment("exp-1"));
    let mut sync = NimbusSyncImpl::new(db);
    sync.prepare_for_sync(client_data(
        "device-A",
        &[("device-A", "Alice's phone", DeviceType::Mobile), ("device-B", "Desk", DeviceType::Desktop)],
    ));
    assert_eq!(sync.local_id, "device-A");
    assert_eq!(sync.store.remote_clients.as_ref().unwrap().len(), 2);
    let out = sync.apply_incoming(vec![]);
    assert_eq!(out[0].payload.client_name, "Alice's phone");
    assert_eq!(out[0].id, "device-A");
}

#[test]
fn client_name_is_empty_for_an_unknown_device() {
    let mut sync = NimbusSyncImpl::new(Database::new());
    sync.prepare_for_sync(client_data("device-A", &[("device-B", "Desk", DeviceType::Desktop)]));
    let out = sync.apply_incoming(vec![]);
    assert_eq!(out[0].payload.client_name, "");
}

#[test]
fn prepare_for_sync_replaces_recent_clients() {
    let mut sync = NimbusSyncImpl::new(Database::new());
    sync.prepare_for_sync(client_data("device-A", &[("device-B", "Desk", DeviceType::Desktop)]));
    sync.prepare_for_sync(client_data("device-Q", &[]));
    assert_eq!(sync.local_id, "device-Q");
    assert_eq!(sync.store.remote_clients.as_ref().unwrap().len(), 0);
}

fn connected(g: &str, c: &str) -> EngineSyncAssociation {
    EngineSyncAssociation::Connected(CollSyncIds { global: g.to_string(), coll: c.to_string() })
}

#[test]
fn reset_connected_then_get_returns_it() {
    let mut sync = NimbusSyncImpl::new(Database::new());
    assert_eq!(sync.get_sync_assoc(), EngineSyncAssociation::Disconnected);
    sync.reset(&connected("global-1", "coll-1"));
    assert_eq!(sync.get_sync_assoc(), connected("global-1", "coll-1"));
    sync.reset(&connected("global-2", "coll-2"));
    assert_eq!(sync.get_sync_assoc(), connected("global-2", "coll-2"));
}

#[test]
fn reset_disconnected_then_get_returns_disconnected() {
    let mut sync = NimbusSyncImpl::new(Database::new());
    sync.reset(&connected("g", "c"));
    sync.reset(&EngineSyncAssociation::Disconnected);
    assert_eq!(sync.get_sync_assoc(), EngineSyncAssociation::Disconnected);
    assert!(sync.store.global_sync_id.is_none());
    assert!(sync.store.collection_sync_id.is_none());
    sync.reset(&EngineSyncAssociation::Disconnected);
    assert_eq!(sync.get_sync_assoc(), EngineSyncAssociation::Disconnected);
}

#[test]
fn one_sync_id_alone_is_disconnected() {
    let mut db = Database::new();
    db.global_sync_id = Some("g".to_string());
    assert_eq!(NimbusSyncImpl::new(db).get_sync_assoc(), EngineSyncAssociation::Disconnected);
    let mut db = Database::new();
    db.collection_sync_id = Some("c".to_string());
    assert_eq!(NimbusSyncImpl::new(db).get_sync_assoc(), EngineSyncAssociation::Disconnected);
}

#[test]
fn apply_incoming_leaves_the_association_alone() {
    let mut sync = session("device-A", &[]);
    sync.reset(&connected("g", "c"));
    sync.apply_incoming(vec![incoming("device-B", &["b"])]);
    assert_eq!(sync.get_sync_assoc(), connected("g", "c"));
}

#[test]
fn engine_surface() {
    let mut engine = NimbusEngine::new(Database::new());
    assert_eq!(engine.collection_name(), "nimbus");
    let requests = engine.get_collection_requests(1234);
    assert_eq!(requests.len(), 1);
    assert_eq!(requests[0].collection, "nimbus");
    assert!(requests[0].full);
    engine.prepare_for_sync(client_data("device-A", &[("device-A", "Tablet", DeviceType::Tablet)]));
    let out = engine.apply_incoming(vec![IncomingChangeset { changes: vec![incoming("device-B", &["b"])] }]);
    assert_eq!(out.collection, "nimbus");
    assert_eq!(out.changes.len(), 1);
    assert_eq!(out.changes[0].payload.client_name, "Tablet");
    engine.sync_finished(1235, vec!["device-A".to_string()]);
    engine.reset(&connected("g", "c"));
    assert_eq!(engine.get_sync_assoc(), connected("g", "c"));
    engine.wipe();
    assert_eq!(engine.get_sync_assoc(), EngineSyncAssociation::Disconnected);
    let store = engine.into_store();
    assert!(store.remote_enrollments.get(&"device-B".to_string()).is_some());
}

#[test]
fn registry_hands_out_the_registered_store() {
    let mut registry = SyncManagerRegistry::new();
    assert!(get_registered_sync_engine(&mut registry, &SyncEngineId::Nimbus).is_none());
    let mut db = Database::new();
    db.put_enrollment(enrollment("exp-1"));
    register_with_sync_manager(&mut registry, db);
    let engine = get_registered_sync_engine(&mut registry, &SyncEngineId::Nimbus).unwrap();
    assert_eq!(engine.sync_impl.local_id, "");
    assert_eq!(engine.sync_impl.store.enrollments.len(), 1);
    assert!(get_registered_sync_engine(&mut registry, &SyncEngineId::Nimbus).is_none());
    register_with_sync_manager(&mut registry, engine.into_store());
    assert!(get_registered_sync_engine(&mut registry, &SyncEngineId::Nimbus).is_some());
}

#[test]
fn registering_replaces_the_previous_store() {
    let mut registry = SyncManagerRegistry::new();
    register_with_sync_manager(&mut registry, Database::new());
    let mut db = Database::new();
    db.put_enrollment(enrollment("exp-2"));
    register_with_sync_manager(&mut registry, db);
    let engine = get_registered_sync_engine(&mut registry, &SyncEngineId::Nimbus).unwrap();
    assert_eq!(engine.sync_impl.store.enrollments.len(), 1);
}

#[test]
fn keyed_map_put_get_delete() {
    let mut m: KeyedMap<u32> = KeyedMap::new();
    assert_eq!(m.len(), 0);
    m.put("b".to_string(), 1);
    m.put("a".to_string(), 2);
    m.put("b".to_string(), 3);
    assert_eq!(m.len(), 2);
    assert_eq!(m.get(&"b".to_string()), Some(&3));
    assert_eq!(*m.value_at(0), 3);
    assert_eq!(*m.value_at(1), 2);
    m.delete(&"b".to_string());
    assert_eq!(m.len(), 1);
    assert_eq!(m.get(&"b".to_string()), None);
    m.delete(&"missing".to_string());
    assert_eq!(m.len(), 1);
    assert_eq!(m.get(&"a".to_string()), Some(&2));
}
