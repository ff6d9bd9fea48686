//! Keeps a device's experiment enrollments in step with those of the other
//! devices on the same account: incoming records from other devices are
//! cached, one record describing this device goes out, and the pairing with
//! the remote collection is remembered.

pub mod keyed_map;
pub mod model;
pub mod store;
pub mod sync_impl;
pub mod engine;
pub mod laws;
pub mod cli;
