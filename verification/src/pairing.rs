//! The pairing policy: which consent requests this client answers, and how a
//! pairing request is turned into something to do.

use vstd::prelude::*;
use crate::context::ClientContext;
use crate::device::BluetoothDevice;

verus! {

/// How the remote pairing protocol asks for the user's part.
#[derive(Clone, Copy, Debug, PartialEq, Eq, Structural)]
pub enum BtSspVariant {
    PasskeyConfirmation,
    PasskeyEntry,
    Consent,
    PasskeyNotification,
}

/// A pairing confirmation for the adapter-control side to deliver.
#[derive(Debug, PartialEq, Eq)]
pub struct PairingConfirmation {
    pub device: BluetoothDevice,
    pub accept: bool,
}

/// A consent request whose answer is decided later, against the client state
/// of that later moment. The bonding attempt may change between the request
/// and the decision, so the task keeps only the requesting device.
#[derive(Debug, PartialEq, Eq)]
pub struct ConsentTask {
    pub device: BluetoothDevice,
}

impl ConsentTask {
    /// Decides the consent request against `context` as it is now. Pairing is
    /// accepted if and only if the requesting device is the one this client
    /// started bonding with; any other request gets no answer at all, neither
    /// acceptance nor rejection.
    pub fn run(&self, context: &ClientContext) -> (confirmation: Option<PairingConfirmation>)
        ensures
            confirmation is Some <==> context@.awaits_bond_with(self.device@.address),
            confirmation matches Some(answer) ==> answer.device == self.device && answer.accept,
    {
        match &context.bonding_attempt {
            Some(bonding_device) => {
                if bonding_device.address == self.device.address {
                    Some(PairingConfirmation { device: self.device.clone(), accept: true })
                } else {
                    None
                }
            },
            None => None,
        }
    }
}

/// What a pairing request asks of the caller.
#[derive(Debug, PartialEq, Eq)]
pub enum SspReaction {
    /// Show the passkey: the operator enters it on the remote device.
    ShowPasskey { device: BluetoothDevice, passkey: u32 },
    /// Queue the task and run it on the state's work queue.
    DecideLater(ConsentTask),
    /// Tell the operator that this variant is not handled; nothing is sent.
    Unsupported(BtSspVariant),
}

/// The reaction that the pairing policy assigns to a request.
pub open spec fn reaction_to(
    device: BluetoothDevice,
    variant: BtSspVariant,
    passkey: u32,
) -> SspReaction {
    match variant {
        BtSspVariant::PasskeyNotification => SspReaction::ShowPasskey { device, passkey },
        BtSspVariant::Consent => SspReaction::DecideLater(ConsentTask { device }),
        BtSspVariant::PasskeyEntry => SspReaction::Unsupported(variant),
        BtSspVariant::PasskeyConfirmation => SspReaction::Unsupported(variant),
    }
}

} // verus!
