//! Remote device descriptors.

use vstd::prelude::*;

verus! {

/// What a device descriptor means: its address and its display name as text.
pub struct DeviceView {
    pub address: Seq<char>,
    pub name: Seq<char>,
}

/// A remote device: the address is its identity, the name is for display only
/// and may be stale or a placeholder.
#[derive(Debug, PartialEq, Eq)]
pub struct BluetoothDevice {
    pub address: String,
    pub name: String,
}

impl View for BluetoothDevice {
    type V = DeviceView;

    open spec fn view(&self) -> DeviceView {
        DeviceView { address: self.address@, name: self.name@ }
    }
}

impl Clone for BluetoothDevice {
    fn clone(&self) -> (copy: Self)
        ensures
            copy == *self,
    {
        BluetoothDevice { address: self.address.clone(), name: self.name.clone() }
    }
}

impl BluetoothDevice {
    pub fn new(address: String, name: String) -> (device: Self)
        ensures
            device.address == address,
            device.name == name,
    {
        BluetoothDevice { address, name }
    }

    /// Whether this descriptor and `other` denote the same device.
    pub fn same_address(&self, other: &BluetoothDevice) -> (same: bool)
        ensures
            same == (self@.address == other@.address),
    {
        self.address == other.address
    }
}

} // verus!
