//! Callback for device connection events.

use vstd::prelude::*;
use crate::device::BluetoothDevice;

verus! {

/// A connection change to report to the operator.
#[derive(Debug, PartialEq, Eq)]
pub enum ConnectionNotice {
    Connected(BluetoothDevice),
    Disconnected(BluetoothDevice),
}

/// Receives connection events. It relays them and keeps no state: no call
/// takes the client state, so none can change it.
pub struct BtConnectionCallback {
    objpath: String,
}

impl BtConnectionCallback {
    /// The identity under which this callback is registered with the remote
    /// service.
    pub closed spec fn object_path(&self) -> Seq<char> {
        self.objpath@
    }

    pub fn new(objpath: String) -> (callback: Self)
        ensures
            callback.object_path() == objpath@,
    {
        BtConnectionCallback { objpath }
    }

    pub fn on_device_connected(&self, remote_device: BluetoothDevice) -> (notice: ConnectionNotice)
        ensures
            notice == ConnectionNotice::Connected(remote_device),
    {
        ConnectionNotice::Connected(remote_device)
    }

    pub fn on_device_disconnected(&self, remote_device: BluetoothDevice) -> (notice:
        ConnectionNotice)
        ensures
            notice == ConnectionNotice::Disconnected(remote_device),
    {
        ConnectionNotice::Disconnected(remote_device)
    }

    /// Disconnect observers are not kept: the token is always 0.
    pub fn register_disconnect(&mut self) -> (token: u32)
        ensures
            token == 0,
            *final(self) == *old(self),
    {
        0
    }

    pub fn get_object_id(&self) -> (id: String)
        ensures
            id@ == self.object_path(),
    {
        self.objpath.clone()
    }

    /// Nothing is registered under any token, so nothing is ever removed.
    pub fn unregister(&mut self, id: u32) -> (removed: bool)
        ensures
            !removed,
            *final(self) == *old(self),
    {
        false
    }
}

} // verus!
