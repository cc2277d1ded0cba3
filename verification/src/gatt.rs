//! Callback for GATT client events.

use vstd::prelude::*;
use crate::context::ClientContext;

verus! {

/// Radio mode of a low-energy connection.
#[derive(Clone, Copy, Debug, PartialEq, Eq, Structural)]
pub enum LePhy {
    Invalid,
    Phy1m,
    Phy2m,
    PhyCoded,
}

/// Outcome of a GATT operation as the protocol's status code. The code is
/// passed through as data and never interpreted here.
#[derive(Clone, Copy, Debug, PartialEq, Eq, Structural)]
pub struct GattStatus {
    pub code: u32,
}

/// A service of a remote GATT database, by what identifies it.
#[derive(Clone, Copy, Debug, PartialEq, Eq, Structural)]
pub struct BluetoothGattService {
    pub uuid: u128,
    pub instance_id: i32,
    pub service_type: i32,
}

/// A GATT event to report to the operator, with the payload the remote
/// service sent.
#[derive(Debug, PartialEq, Eq)]
pub enum GattNotice {
    ClientRegistered { status: i32, client_id: i32 },
    ClientConnectionState { status: i32, client_id: i32, connected: bool, addr: String },
    PhyUpdate { addr: String, tx_phy: LePhy, rx_phy: LePhy, status: GattStatus },
    PhyRead { addr: String, tx_phy: LePhy, rx_phy: LePhy, status: GattStatus },
    SearchComplete { addr: String, services: Vec<BluetoothGattService>, status: i32 },
    CharacteristicRead { addr: String, status: i32, handle: i32, value: Vec<u8> },
    CharacteristicWrite { addr: String, status: i32, handle: i32 },
    ExecuteWrite { addr: String, status: i32 },
    DescriptorRead { addr: String, status: i32, handle: i32, value: Vec<u8> },
    DescriptorWrite { addr: String, status: i32, handle: i32 },
    Notify { addr: String, handle: i32, value: Vec<u8> },
    ReadRemoteRssi { addr: String, rssi: i32, status: i32 },
    ConfigureMtu { addr: String, mtu: i32, status: i32 },
    ConnectionUpdated { addr: String, interval: i32, latency: i32, timeout: i32, status: i32 },
    ServiceChanged { addr: String },
}

/// Receives GATT events. Registration records the client handle; every other
/// event is relayed without the client state being passed in at all.
pub struct BtGattCallback {
    objpath: String,
}

impl BtGattCallback {
    /// The identity under which this callback is registered with the remote
    /// service.
    pub closed spec fn object_path(&self) -> Seq<char> {
        self.objpath@
    }

    pub fn new(objpath: String) -> (callback: Self)
        ensures
            callback.object_path() == objpath@,
    {
        BtGattCallback { objpath }
    }

    /// The remote service answered a client registration. The handle is
    /// recorded whatever the status says: later GATT operations check the
    /// status themselves.
    pub fn on_client_registered(&self, context: &mut ClientContext, status: i32, client_id: i32) -> (notice:
        GattNotice)
        ensures
            final(context)@ == old(context)@.client_registered(client_id),
            final(context)@.gatt_client_id == Some(client_id),
            notice == (GattNotice::ClientRegistered { status, client_id }),
    {
        context.gatt_client_id = Some(client_id);
        GattNotice::ClientRegistered { status, client_id }
    }

    pub fn on_client_connection_state(
        &self,
        status: i32,
        client_id: i32,
        connected: bool,
        addr: String,
    ) -> (notice: GattNotice)
        ensures
            notice == (GattNotice::ClientConnectionState { status, client_id, connected, addr }),
    {
        GattNotice::ClientConnectionState { status, client_id, connected, addr }
    }

    pub fn on_phy_update(&self, addr: String, tx_phy: LePhy, rx_phy: LePhy, status: GattStatus) -> (notice:
        GattNotice)
        ensures
            notice == (GattNotice::PhyUpdate { addr, tx_phy, rx_phy, status }),
    {
        GattNotice::PhyUpdate { addr, tx_phy, rx_phy, status }
    }

    pub fn on_phy_read(&self, addr: String, tx_phy: LePhy, rx_phy: LePhy, status: GattStatus) -> (notice:
        GattNotice)
        ensures
            notice == (GattNotice::PhyRead { addr, tx_phy, rx_phy, status }),
    {
        GattNotice::PhyRead { addr, tx_phy, rx_phy, status }
    }

    pub fn on_search_complete(
        &self,
        addr: String,
        services: Vec<BluetoothGattService>,
        status: i32,
    ) -> (notice: GattNotice)
        ensures
            notice == (GattNotice::SearchComplete { addr, services, status }),
    {
        GattNotice::SearchComplete { addr, services, status }
    }

    pub fn on_characteristic_read(&self, addr: String, status: i32, handle: i32, value: Vec<u8>) -> (notice:
        GattNotice)
        ensures
            notice == (GattNotice::CharacteristicRead { addr, status, handle, value }),
    {
        GattNotice::CharacteristicRead { addr, status, handle, value }
    }

    pub fn on_characteristic_write(&self, addr: String, status: i32, handle: i32) -> (notice:
        GattNotice)
        ensures
            notice == (GattNotice::CharacteristicWrite { addr, status, handle }),
    {
        GattNotice::CharacteristicWrite { addr, status, handle }
    }

    pub fn on_execute_write(&self, addr: String, status: i32) -> (notice: GattNotice)
        ensures
            notice == (GattNotice::ExecuteWrite { addr, status }),
    {
        GattNotice::ExecuteWrite { addr, status }
    }

    pub fn on_descriptor_read(&self, addr: String, status: i32, handle: i32, value: Vec<u8>) -> (notice:
        GattNotice)
        ensures
            notice == (GattNotice::DescriptorRead { addr, status, handle, value }),
    {
        GattNotice::DescriptorRead { addr, status, handle, value }
    }

    pub fn on_descriptor_write(&self, addr: String, status: i32, handle: i32) -> (notice:
        GattNotice)
        ensures
            notice == (GattNotice::DescriptorWrite { addr, status, handle }),
    {
        GattNotice::DescriptorWrite { addr, status, handle }
    }

    pub fn on_notify(&self, addr: String, handle: i32, value: Vec<u8>) -> (notice: GattNotice)
        ensures
            notice == (GattNotice::Notify { addr, handle, value }),
    {
        GattNotice::Notify { addr, handle, value }
    }

    pub fn on_read_remote_rssi(&self, addr: String, rssi: i32, status: i32) -> (notice:
        GattNotice)
        ensures
            notice == (GattNotice::ReadRemoteRssi { addr, rssi, status }),
    {
        GattNotice::ReadRemoteRssi { addr, rssi, status }
    }

    pub fn on_configure_mtu(&self, addr: String, mtu: i32, status: i32) -> (notice: GattNotice)
        ensures
            notice == (GattNotice::ConfigureMtu { addr, mtu, status }),
    {
        GattNotice::ConfigureMtu { addr, mtu, status }
    }

    pub fn on_connection_updated(
        &self,
        addr: String,
        interval: i32,
        latency: i32,
        timeout: i32,
        status: i32,
    ) -> (notice: GattNotice)
        ensures
            notice == (GattNotice::ConnectionUpdated { addr, interval, latency, timeout, status }),
    {
        GattNotice::ConnectionUpdated { addr, interval, latency, timeout, status }
    }

    pub fn on_service_changed(&self, addr: String) -> (notice: GattNotice)
        ensures
            notice == (GattNotice::ServiceChanged { addr }),
    {
        GattNotice::ServiceChanged { addr }
    }

    /// Disconnect observers are not kept: the token is always 0.
    pub fn register_disconnect(&mut self) -> (token: u32)
        ensures
            token == 0,
            *final(self) == *old(self),
    {
        0
    }

    pub fn get_object_id(&self) -> (id: String)
        ensures
            id@ == self.object_path(),
    {
        self.objpath.clone()
    }

    /// Nothing is registered under any token, so nothing is ever removed.
    pub fn unregister(&mut self, id: u32) -> (removed: bool)
        ensures
            !removed,
            *final(self) == *old(self),
    {
        false
    }
}

} // verus!
