//! Event coordination core of a Bluetooth management client.
//!
//! A remote Bluetooth service reports adapter presence, discovery results,
//! pairing requests, bonding outcomes and GATT events through four callback
//! objects. Each callback here is a function of the current client state and
//! the event: it updates the state and returns what has to happen outside it
//! (a deferred pairing decision, a profile connection, a notice for the
//! operator). Locking, transport and console output belong to the caller.

pub mod adapter;
pub mod bonding;
pub mod connection;
pub mod context;
pub mod device;
pub mod found_devices;
pub mod gatt;
pub mod manager;
pub mod pairing;
pub mod state;
