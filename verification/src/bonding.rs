//! Bond states as the remote service reports them.

use vstd::prelude::*;
use vstd::std_specs::convert::FromSpecImpl;

verus! {

/// The bonding relationship with a remote device.
#[derive(Clone, Copy, Debug, PartialEq, Eq, Structural)]
pub enum BtBondState {
    NotBonded,
    Bonding,
    Bonded,
}

/// The bond state that a reported state number stands for: 0 is not bonded,
/// 1 is bonding in progress, 2 is bonded. Any other number is read as not
/// bonded.
pub open spec fn bond_state_of(state: u32) -> BtBondState {
    if state == 1 {
        BtBondState::Bonding
    } else if state == 2 {
        BtBondState::Bonded
    } else {
        BtBondState::NotBonded
    }
}

impl BtBondState {
    /// Whether a report of this state ends an outstanding bonding attempt:
    /// success and failure do, progress does not.
    pub open spec fn is_terminal(self) -> bool {
        self != BtBondState::Bonding
    }
}

impl From<u32> for BtBondState {
    fn from(state: u32) -> (bond_state: BtBondState) {
        if state == 1 {
            BtBondState::Bonding
        } else if state == 2 {
            BtBondState::Bonded
        } else {
            BtBondState::NotBonded
        }
    }
}

impl FromSpecImpl<u32> for BtBondState {
    open spec fn obeys_from_spec() -> bool {
        true
    }

    open spec fn from_spec(state: u32) -> BtBondState {
        bond_state_of(state)
    }
}

} // verus!
