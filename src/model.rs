//! The records exchanged with the sync server and the values persisted for them.
use vstd::prelude::*;

use crate::keyed_map::KeyedMap;

verus! {

/// One experiment or rollout that a device is enrolled in. Its body is carried
/// as it was serialized; only its id is read here.
#[derive(Debug, PartialEq, Eq)]
pub struct Enrollment {
    pub id: String,
    pub payload: String,
}

impl Enrollment {
    /// A copy of this enrollment.
    pub fn duplicate(&self) -> (r: Enrollment)
        ensures
            r == *self,
    {
        Enrollment { id: self.id.clone(), payload: self.payload.clone() }
    }
}

/// The enrollment state of one device, as uploaded by that device.
#[derive(Debug, PartialEq, Eq)]
pub struct EnrollmentRecord {
    /// The id of the device that the record describes.
    pub id: String,
    pub client_name: String,
    /// A full snapshot of the device's enrollments.
    pub enrollments: Vec<Enrollment>,
}

/// The kind of a device, as the account's client list reports it.
#[derive(Clone, Copy, Debug, PartialEq, Eq, Structural)]
pub enum DeviceType {
    Desktop,
    Mobile,
    Tablet,
    VR,
    TV,
    Unknown,
}

/// What the account's client list says about one device.
#[derive(Debug, PartialEq, Eq)]
pub struct RemoteClient {
    pub device_name: String,
    pub device_type: DeviceType,
}

/// What the orchestrator hands over before a sync: this device's id and the
/// devices recently seen on the account, keyed by device id.
pub struct ClientData {
    pub local_client_id: String,
    pub recent_clients: KeyedMap<RemoteClient>,
}

/// What an incoming record carried, once its payload was decoded.
#[derive(Debug, PartialEq, Eq)]
pub enum IncomingContent {
    /// A well-formed enrollment record.
    Record(EnrollmentRecord),
    /// A deletion marker.
    Tombstone,
    /// A payload that did not decode as an enrollment record.
    Malformed,
}

/// A record fetched from the server: the id on its envelope and its content.
#[derive(Debug, PartialEq, Eq)]
pub struct IncomingRecord {
    pub id: String,
    pub content: IncomingContent,
}

/// A record to upload: the id on its envelope and its payload.
#[derive(Debug, PartialEq, Eq)]
pub struct OutgoingRecord {
    pub id: String,
    pub payload: EnrollmentRecord,
}

/// The ids of the remote collection that the store is paired with.
#[derive(Debug, PartialEq, Eq)]
pub struct CollSyncIds {
    pub global: String,
    pub coll: String,
}

/// Whether the local store is paired with a remote collection.
#[derive(Debug, PartialEq, Eq)]
pub enum EngineSyncAssociation {
    Disconnected,
    Connected(CollSyncIds),
}

/// The engines that a sync manager knows of.
#[derive(Clone, Copy, Debug, PartialEq, Eq, Structural)]
pub enum SyncEngineId {
    Passwords,
    Tabs,
    Bookmarks,
    History,
    Addresses,
    CreditCards,
    Nimbus,
}

/// The records fetched for one collection.
pub struct IncomingChangeset {
    pub changes: Vec<IncomingRecord>,
}

/// The records to upload to one collection.
pub struct OutgoingChangeset {
    pub collection: String,
    pub changes: Vec<OutgoingRecord>,
}

/// A request to fetch a collection; `full` asks for every record rather than
/// those changed since a timestamp.
#[derive(Debug, PartialEq, Eq)]
pub struct CollectionRequest {
    pub collection: String,
    pub full: bool,
}

} // verus!
