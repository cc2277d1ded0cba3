//! The client state as a mathematical value, and the transition that each
//! event makes on it.

use vstd::prelude::*;
use crate::bonding::BtBondState;
use crate::device::DeviceView;

verus! {

/// Everything the client tracks about the remote service.
pub struct ClientState {
    /// Adapter index to enabled flag. An index is a key while the hardware is
    /// reported present.
    pub adapters: Map<i32, bool>,
    /// Device address to the descriptor first seen for it in the current
    /// discovery session.
    pub found_devices: Map<Seq<char>, DeviceView>,
    /// Whether a discovery session is active.
    pub discovering_state: bool,
    /// The device this client most recently started bonding with, while that
    /// attempt is unresolved.
    pub bonding_attempt: Option<DeviceView>,
    /// Address of the primary adapter, once reported.
    pub adapter_address: Option<Seq<char>>,
    /// Handle returned by GATT client registration, once reported.
    pub gatt_client_id: Option<i32>,
}

impl ClientState {
    /// The state before any event: nothing tracked, nothing found, idle.
    pub open spec fn initial() -> ClientState {
        ClientState {
            adapters: Map::empty(),
            found_devices: Map::empty(),
            discovering_state: false,
            bonding_attempt: None,
            adapter_address: None,
            gatt_client_id: None,
        }
    }

    /// Every found device is stored under its own address.
    pub open spec fn keyed_by_address(self) -> bool {
        forall|a: Seq<char>| #[trigger]
            self.found_devices.contains_key(a) ==> self.found_devices[a].address == a
    }

    /// Adapter hardware appeared or went away. A newly present adapter starts
    /// disabled; one already tracked keeps its flag; an absent one is dropped.
    pub open spec fn adapter_presence_changed(self, index: i32, present: bool) -> ClientState {
        if !present {
            ClientState { adapters: self.adapters.remove(index), ..self }
        } else if self.adapters.contains_key(index) {
            self
        } else {
            ClientState { adapters: self.adapters.insert(index, false), ..self }
        }
    }

    /// A tracked adapter takes the reported flag; a report about an untracked
    /// one changes nothing.
    pub open spec fn adapter_enabled_changed(self, index: i32, enabled: bool) -> ClientState {
        if self.adapters.contains_key(index) {
            ClientState { adapters: self.adapters.insert(index, enabled), ..self }
        } else {
            self
        }
    }

    /// The primary adapter's address is replaced by the reported one.
    pub open spec fn address_changed(self, address: Seq<char>) -> ClientState {
        ClientState { adapter_address: Some(address), ..self }
    }

    /// A discovery report: kept only if its address is not yet known.
    pub open spec fn device_found(self, device: DeviceView) -> ClientState {
        if self.found_devices.contains_key(device.address) {
            self
        } else {
            ClientState {
                found_devices: self.found_devices.insert(device.address, device),
                ..self
            }
        }
    }

    /// The discovery flag follows the report; a report of active discovery
    /// discards all earlier results.
    pub open spec fn discovering_changed(self, discovering: bool) -> ClientState {
        ClientState {
            discovering_state: discovering,
            found_devices: if discovering {
                Map::empty()
            } else {
                self.found_devices
            },
            ..self
        }
    }

    /// Whether this client itself started bonding with the device at
    /// `address` and still waits for the outcome.
    pub open spec fn awaits_bond_with(self, address: Seq<char>) -> bool {
        self.bonding_attempt matches Some(target) && target.address == address
    }

    /// A bond report: success or failure for the awaited device resolves the
    /// attempt; progress reports and reports about other devices change
    /// nothing.
    pub open spec fn bond_state_changed(self, address: Seq<char>, state: BtBondState) -> ClientState {
        if state.is_terminal() && self.awaits_bond_with(address) {
            ClientState { bonding_attempt: None, ..self }
        } else {
            self
        }
    }

    /// The GATT client handle is recorded as reported.
    pub open spec fn client_registered(self, client_id: i32) -> ClientState {
        ClientState { gatt_client_id: Some(client_id), ..self }
    }
}

/// A presence report for an adapter that is already tracked changes nothing.
/// So reporting an adapter present twice in a row is the same as reporting it
/// once, and an enabled flag that is set stays set however often the adapter
/// is reported present.
pub proof fn lemma_presence_report_is_idempotent(state: ClientState, index: i32)
    ensures
        state.adapters.contains_key(index) ==> state.adapter_presence_changed(index, true)
            == state,
        state.adapter_presence_changed(index, true).adapter_presence_changed(index, true)
            == state.adapter_presence_changed(index, true),
        state.adapters.contains_key(index) && state.adapters[index]
            ==> state.adapter_presence_changed(index, true).adapter_presence_changed(
            index,
            true,
        ).adapters[index],
{
}

/// An adapter enabled after it appeared stays enabled when it is reported
/// present again.
pub proof fn lemma_presence_report_keeps_enabled_flag(
    state: ClientState,
    index: i32,
    enabled: bool,
)
    ensures
        ({
            let present = state.adapter_presence_changed(index, true);
            let switched = present.adapter_enabled_changed(index, enabled);
            &&& switched.adapters[index] == enabled
            &&& switched.adapter_presence_changed(index, true) == switched
        }),
{
}

/// A report that discovery is active leaves no found device, whatever was
/// found before.
pub proof fn lemma_discovery_start_clears_devices(state: ClientState)
    ensures
        state.discovering_changed(true).found_devices == Map::<Seq<char>, DeviceView>::empty(),
        state.discovering_changed(true).discovering_state,
{
}

/// A report for an address that is already known is ignored.
pub proof fn lemma_known_address_is_kept(state: ClientState, device: DeviceView)
    requires
        state.found_devices.contains_key(device.address),
    ensures
        state.device_found(device) == state,
{
}

/// Of two reports with the same address, the first is the one stored: the
/// second changes nothing, its name included. The address must be new when
/// the first report arrives; otherwise the descriptor stored before both is
/// kept.
pub proof fn lemma_first_report_wins(state: ClientState, first: DeviceView, second: DeviceView)
    requires
        first.address == second.address,
        !state.found_devices.contains_key(first.address),
    ensures
        state.device_found(first).device_found(second) == state.device_found(first),
        state.device_found(first).device_found(second).found_devices[first.address] == first,
        state.device_found(first).device_found(second).found_devices[first.address].name
            == first.name,
{
}

/// Success or failure of the bond that this client awaits returns the client
/// to idle.
pub proof fn lemma_awaited_bond_resolves(
    state: ClientState,
    address: Seq<char>,
    bond_state: BtBondState,
)
    requires
        state.awaits_bond_with(address),
        bond_state.is_terminal(),
    ensures
        state.bond_state_changed(address, bond_state).bonding_attempt is None,
        state.bond_state_changed(address, bond_state) == (ClientState {
            bonding_attempt: None,
            ..state
        }),
{
}

/// A bond report about a device that this client does not await, or a report
/// of bonding in progress, leaves the state as it is.
pub proof fn lemma_other_bond_reports_change_nothing(
    state: ClientState,
    address: Seq<char>,
    bond_state: BtBondState,
)
    requires
        !state.awaits_bond_with(address) || bond_state == BtBondState::Bonding,
    ensures
        state.bond_state_changed(address, bond_state) == state,
{
}

/// A state in which every found device is stored under its own address stays
/// so under every event.
pub proof fn lemma_events_keep_devices_keyed(state: ClientState)
    requires
        state.keyed_by_address(),
    ensures
        ClientState::initial().keyed_by_address(),
        forall|index: i32, present: bool| #[trigger]
            state.adapter_presence_changed(index, present).keyed_by_address(),
        forall|index: i32, enabled: bool| #[trigger]
            state.adapter_enabled_changed(index, enabled).keyed_by_address(),
        forall|address: Seq<char>| #[trigger] state.address_changed(address).keyed_by_address(),
        forall|device: DeviceView| #[trigger] state.device_found(device).keyed_by_address(),
        forall|discovering: bool| #[trigger]
            state.discovering_changed(discovering).keyed_by_address(),
        forall|address: Seq<char>, bond_state: BtBondState| #[trigger]
            state.bond_state_changed(address, bond_state).keyed_by_address(),
        forall|client_id: i32| #[trigger] state.client_registered(client_id).keyed_by_address(),
{
}

} // verus!
