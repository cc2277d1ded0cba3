//! Callback for events of the adapter interface: address changes, discovery
//! results, pairing requests and bonding outcomes.

use vstd::prelude::*;
use crate::bonding::{bond_state_of, BtBondState};
use crate::context::ClientContext;
use crate::device::{BluetoothDevice, DeviceView};
use crate::pairing::{reaction_to, BtSspVariant, ConsentTask, SspReaction};

verus! {

/// The descriptor used for a device known only by its address: bond reports
/// carry no display name, so a generic label stands in for it.
pub open spec fn classic_device(address: Seq<char>) -> DeviceView {
    DeviceView { address, name: "Classic device"@ }
}

/// The device whose enabled profiles are to be connected after a bond
/// report: the reported one whenever the report says bonded, whoever started
/// the bonding.
pub open spec fn auto_connect_target(address: Seq<char>, state: BtBondState) -> Option<DeviceView> {
    if state == BtBondState::Bonded {
        Some(classic_device(address))
    } else {
        None
    }
}

/// Receives adapter events.
pub struct BtCallback {
    objpath: String,
}

impl BtCallback {
    /// The identity under which this callback is registered with the remote
    /// service.
    pub closed spec fn object_path(&self) -> Seq<char> {
        self.objpath@
    }

    pub fn new(objpath: String) -> (callback: Self)
        ensures
            callback.object_path() == objpath@,
    {
        BtCallback { objpath }
    }

    /// The adapter reported its address.
    pub fn on_address_changed(&self, context: &mut ClientContext, addr: String)
        ensures
            final(context)@ == old(context)@.address_changed(addr@),
    {
        context.adapter_address = Some(addr);
    }

    /// Discovery reported a device. The first report of an address is kept.
    pub fn on_device_found(&self, context: &mut ClientContext, remote_device: BluetoothDevice)
        ensures
            final(context)@ == old(context)@.device_found(remote_device@),
    {
        context.found_devices.insert_if_absent(remote_device);
    }

    /// Discovery started or stopped. A start empties the table of found
    /// devices.
    pub fn on_discovering_changed(&self, context: &mut ClientContext, discovering: bool)
        ensures
            final(context)@ == old(context)@.discovering_changed(discovering),
            discovering ==> final(context)@.found_devices == Map::<Seq<char>, DeviceView>::empty(),
    {
        context.discovering_state = discovering;
        if discovering {
            context.found_devices.clear();
        }
    }

    /// A remote device asks to pair. The client state is not touched here: a
    /// consent request comes back as a task that decides when it is run.
    pub fn on_ssp_request(
        &self,
        remote_device: BluetoothDevice,
        cod: u32,
        variant: BtSspVariant,
        passkey: u32,
    ) -> (reaction: SspReaction)
        ensures
            reaction == reaction_to(remote_device, variant, passkey),
    {
        match variant {
            BtSspVariant::PasskeyNotification => SspReaction::ShowPasskey {
                device: remote_device,
                passkey,
            },
            BtSspVariant::Consent => SspReaction::DecideLater(ConsentTask { device: remote_device }),
            BtSspVariant::PasskeyEntry => SspReaction::Unsupported(variant),
            BtSspVariant::PasskeyConfirmation => SspReaction::Unsupported(variant),
        }
    }

    /// The bond with the device at `address` changed. Returns the device whose
    /// enabled profiles the caller is to connect, if any.
    pub fn on_bond_state_changed(
        &self,
        context: &mut ClientContext,
        status: u32,
        address: String,
        state: u32,
    ) -> (connect: Option<BluetoothDevice>)
        ensures
            final(context)@ == old(context)@.bond_state_changed(address@, bond_state_of(state)),
            connect is Some <==> bond_state_of(state) == BtBondState::Bonded,
            connect matches Some(device) ==> device@ == classic_device(address@),
    {
        match BtBondState::from(state) {
            BtBondState::NotBonded | BtBondState::Bonded => {
                let resolved = match &context.bonding_attempt {
                    Some(bonding_device) => address == bonding_device.address,
                    None => false,
                };
                if resolved {
                    context.bonding_attempt = None;
                }
            },
            BtBondState::Bonding => (),
        }
        if BtBondState::Bonded == BtBondState::from(state) {
            Some(BluetoothDevice { address, name: "Classic device".to_owned() })
        } else {
            None
        }
    }

    /// Disconnect observers are not kept: the token is always 0.
    pub fn register_disconnect(&mut self) -> (token: u32)
        ensures
            token == 0,
            *final(self) == *old(self),
    {
        0
    }

    pub fn get_object_id(&self) -> (id: String)
        ensures
            id@ == self.object_path(),
    {
        self.objpath.clone()
    }

    /// Nothing is registered under any token, so nothing is ever removed.
    pub fn unregister(&mut self, id: u32) -> (removed: bool)
        ensures
            !removed,
            *final(self) == *old(self),
    {
        false
    }
}

} // verus!
