//! The client state that the callbacks share.

use vstd::prelude::*;
use std::collections::HashMap;
use crate::device::BluetoothDevice;
use crate::found_devices::DeviceTable;
use crate::state::ClientState;

verus! {

/// The one mutable state of the client. Every callback works on it under the
/// caller's exclusive access.
pub struct ClientContext {
    /// Adapter index to enabled flag, for the adapters reported present.
    pub adapters: HashMap<i32, bool>,
    /// Devices found in the current discovery session.
    pub found_devices: DeviceTable,
    /// Whether a discovery session is active.
    pub discovering_state: bool,
    /// The device this client started bonding with; set by whoever starts the
    /// bonding, cleared when the outcome arrives.
    pub bonding_attempt: Option<BluetoothDevice>,
    /// Address of the primary adapter.
    pub adapter_address: Option<String>,
    /// Handle of the registered GATT client.
    pub gatt_client_id: Option<i32>,
}

impl View for ClientContext {
    type V = ClientState;

    open spec fn view(&self) -> ClientState {
        ClientState {
            adapters: self.adapters@,
            found_devices: self.found_devices@,
            discovering_state: self.discovering_state,
            bonding_attempt: match self.bonding_attempt {
                Some(device) => Some(device@),
                None => None,
            },
            adapter_address: match self.adapter_address {
                Some(address) => Some(address@),
                None => None,
            },
            gatt_client_id: self.gatt_client_id,
        }
    }
}

impl ClientContext {
    pub fn new() -> (context: Self)
        ensures
            context@ == ClientState::initial(),
    {
        ClientContext {
            adapters: HashMap::new(),
            found_devices: DeviceTable::new(),
            discovering_state: false,
            bonding_attempt: None,
            adapter_address: None,
            gatt_client_id: None,
        }
    }

    /// Records the enabled flag of a tracked adapter. For an adapter that is
    /// not tracked nothing happens.
    pub fn set_adapter_enabled(&mut self, hci_interface: i32, enabled: bool)
        ensures
            final(self)@ == old(self)@.adapter_enabled_changed(hci_interface, enabled),
    {
        if self.adapters.contains_key(&hci_interface) {
            self.adapters.insert(hci_interface, enabled);
        }
    }

    /// In every state a client can reach, each found device is stored under
    /// its own address and both tables are finite.
    pub proof fn lemma_view_keyed_by_address(self)
        ensures
            self@.keyed_by_address(),
            self@.found_devices.dom().finite(),
            self@.adapters.dom().finite(),
    {
        self.found_devices.lemma_keyed_by_address();
    }
}

} // verus!
